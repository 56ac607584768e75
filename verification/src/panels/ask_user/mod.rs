//! Questions of the assistant to the user: a form, its panel and its answers.

pub mod form;
pub mod panel;
pub mod types;
pub mod typing;
