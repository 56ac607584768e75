//! A short note to the user that goes away by itself.

use crate::doc::{message, words_view, ArgV, Piece, Style, Color, Words, WordsV};
use vstd::prelude::*;

verus! {

/// A note, and for how many seconds it stays.
#[derive(Debug)]
pub struct Notification {
    pub message: Words,
    pub seconds: u64,
}

/// A note, abstractly.
pub struct NoticeV {
    pub message: WordsV,
    pub seconds: nat,
}

impl View for Notification {
    type V = NoticeV;

    open spec fn view(&self) -> NoticeV {
        NoticeV { message: words_view(self.message), seconds: self.seconds as nat }
    }
}

/// The note on whether the settings could be saved.
pub open spec fn save_note(error: Option<Seq<char>>) -> NoticeV {
    match error {
        None => NoticeV { message: message("config-saved"@, Seq::empty()), seconds: 1 },
        Some(e) => NoticeV {
            message: message("config-save-failed"@, seq![("error"@, ArgV::Text(e))]),
            seconds: 2,
        },
    }
}

/// The note on whether the settings could be saved.
pub fn save_notification(error: Option<&str>) -> (n: Notification)
    ensures
        n@ == save_note(
            match error {
                Some(e) => Some(e@),
                None => None,
            },
        ),
{
    let style = Style::fg(Color::Plain);
    match error {
        None => Notification { message: Piece::msg("config-saved", style).words, seconds: 1 },
        Some(e) => Notification {
            message: Piece::msg_text("config-save-failed", "error", e, style).words,
            seconds: 2,
        },
    }
}

} // verus!
