//! How much the agent may do without asking.

use crate::doc::{message, ArgV, Color, Piece, Style};
use crate::notification::{NoticeV, Notification};
use crate::text::same;
use vstd::prelude::*;

verus! {

/// How much the agent may do without asking.
#[derive(Debug, Clone, Copy, PartialEq, Eq, Structural)]
pub enum PermissionMode {
    Default,
    AcceptEdit,
    AutoMode,
    Bypass,
}

/// The name of a mode.
pub open spec fn label_of(m: PermissionMode) -> Seq<char> {
    match m {
        PermissionMode::Default => "default"@,
        PermissionMode::AcceptEdit => "accept-edit"@,
        PermissionMode::AutoMode => "auto-mode"@,
        PermissionMode::Bypass => "bypass"@,
    }
}

/// The mode of a name.
pub open spec fn mode_of(s: Seq<char>) -> Option<PermissionMode> {
    if s == "default"@ {
        Some(PermissionMode::Default)
    } else if s == "accept-edit"@ {
        Some(PermissionMode::AcceptEdit)
    } else if s == "auto-mode"@ {
        Some(PermissionMode::AutoMode)
    } else if s == "bypass"@ {
        Some(PermissionMode::Bypass)
    } else {
        None
    }
}

/// The name of the mode that follows: each permits more, and the last is followed by
/// the first. What is not a name is followed by the first too.
pub open spec fn next_name(s: Seq<char>) -> Seq<char> {
    if s == "default"@ {
        "accept-edit"@
    } else if s == "accept-edit"@ {
        "auto-mode"@
    } else if s == "auto-mode"@ {
        "bypass"@
    } else {
        "default"@
    }
}

/// The name of a mode.
pub fn permission_mode_label(m: PermissionMode) -> (r: &'static str)
    ensures
        r@ == label_of(m),
{
    match m {
        PermissionMode::Default => "default",
        PermissionMode::AcceptEdit => "accept-edit",
        PermissionMode::AutoMode => "auto-mode",
        PermissionMode::Bypass => "bypass",
    }
}

/// The mode of a name.
pub fn parse_permission_mode(s: &str) -> (r: Option<PermissionMode>)
    ensures
        r == mode_of(s@),
{
    if same(s, "default") {
        Some(PermissionMode::Default)
    } else if same(s, "accept-edit") {
        Some(PermissionMode::AcceptEdit)
    } else if same(s, "auto-mode") {
        Some(PermissionMode::AutoMode)
    } else if same(s, "bypass") {
        Some(PermissionMode::Bypass)
    } else {
        None
    }
}

/// The name of the mode that follows.
pub fn cycle(mode: &str) -> (r: &'static str)
    ensures
        r@ == next_name(mode@),
{
    if same(mode, "default") {
        "accept-edit"
    } else if same(mode, "accept-edit") {
        "auto-mode"
    } else if same(mode, "auto-mode") {
        "bypass"
    } else {
        "default"
    }
}

/// The note that a mode could not be set.
pub fn update_failed(error: &str) -> (n: Notification)
    ensures
        n@ == (NoticeV {
            message: message("permission-mode-update-failed"@, seq![("error"@, ArgV::Text(error@))]),
            seconds: 10,
        }),
{
    let note = Piece::msg_text(
        "permission-mode-update-failed",
        "error",
        error,
        Style::fg(Color::Plain),
    );
    Notification { message: note.words, seconds: 10 }
}

proof fn names_differ()
    ensures
        "default"@ != "accept-edit"@,
        "default"@ != "auto-mode"@,
        "default"@ != "bypass"@,
        "accept-edit"@ != "auto-mode"@,
        "accept-edit"@ != "bypass"@,
        "auto-mode"@ != "bypass"@,
{
    reveal_strlit("default");
    reveal_strlit("accept-edit");
    reveal_strlit("auto-mode");
    reveal_strlit("bypass");
    assert("default"@.len() == 7);
    assert("accept-edit"@.len() == 11);
    assert("auto-mode"@.len() == 9);
    assert("bypass"@.len() == 6);
}

/// The name of a mode is read back as the mode.
pub proof fn names_read_back(m: PermissionMode)
    ensures
        mode_of(label_of(m)) == Some(m),
{
    names_differ();
}

/// What is read as a mode is its name.
pub proof fn only_names_are_read(s: Seq<char>)
    ensures
        mode_of(s) matches Some(m) ==> label_of(m) == s,
{
}

/// The modes follow one another in a circle of four.
pub proof fn modes_cycle(m: PermissionMode)
    ensures
        next_name(next_name(next_name(next_name(label_of(m))))) == label_of(m),
        next_name(label_of(m)) != label_of(m),
        next_name(next_name(label_of(m))) != label_of(m),
{
    names_differ();
}

} // verus!
