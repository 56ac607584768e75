//! The keys that edit a text.

use crate::event::{KeyCode, KeyEvent};
use crate::panels::ask_user::form::{form_step, FormV, OutcomeV};
use crate::panels::ask_user::types::QuestionV;
use crate::panels::ask_user::typing::text_typed;
use crate::textarea::{line_end, line_home, visual_up, word_left, word_right, TextV};
use vstd::prelude::*;

verus! {

/// The arrows move by a character, with Control by a word, and stay within the text; nothing of
/// the text changes.
pub proof fn arrows_move_the_cursor(t: TextV, key: KeyEvent, width: nat)
    requires
        key.code == KeyCode::Left || key.code == KeyCode::Right,
        0 <= t.now.cursor <= t.now.text.len(),
    ensures
        key.mods.none() ==> {
            let to = text_typed(t, key, width);
            &&& to is Some && to->0.now.text == t.now.text && to->0.done == t.done
            &&& key.code == KeyCode::Left && t.now.cursor > 0 ==> to->0.now.cursor == t.now.cursor
                - 1
            &&& key.code == KeyCode::Left && t.now.cursor == 0 ==> to->0.now.cursor == 0
            &&& key.code == KeyCode::Right && t.now.cursor < t.now.text.len() ==> to->0.now.cursor
                == t.now.cursor + 1
            &&& key.code == KeyCode::Right && t.now.cursor == t.now.text.len()
                ==> to->0.now.cursor == t.now.cursor
        },
        key.mods.only_ctrl() ==> {
            let to = text_typed(t, key, width);
            &&& to is Some && to->0.now.text == t.now.text
            &&& key.code == KeyCode::Left ==> to->0.now.cursor == word_left(
                t.now.text,
                t.now.cursor,
            )
            &&& key.code == KeyCode::Right ==> to->0.now.cursor == word_right(
                t.now.text,
                t.now.cursor,
            )
        },
{
}

/// Delete takes the character behind the cursor and Backspace the one before it; with Control, w
/// takes the word before it and u takes all; each can be undone.
pub proof fn keys_take_out(t: TextV, key: KeyEvent, width: nat)
    requires
        0 <= t.now.cursor <= t.now.text.len(),
    ensures
        key.code == KeyCode::Delete && key.mods.none() && t.now.cursor < t.now.text.len() ==> {
            let to = text_typed(t, key, width);
            &&& to is Some && to->0.now.text == t.now.text.remove(t.now.cursor)
            &&& to->0.now.cursor == t.now.cursor
            &&& to->0.undo().now == t.now
        },
        key.code == KeyCode::Backspace && key.mods.none() && t.now.cursor > 0 ==> {
            let to = text_typed(t, key, width);
            &&& to is Some && to->0.now.text == t.now.text.remove(t.now.cursor - 1)
            &&& to->0.now.cursor == t.now.cursor - 1
            &&& to->0.undo().now == t.now
        },
        key.code == KeyCode::Char('w') && key.mods.only_ctrl() && t.now.cursor > 0 ==> {
            let to = text_typed(t, key, width);
            let from = word_left(t.now.text, t.now.cursor);
            &&& to is Some && to->0.now.text == t.now.text.take(from) + t.now.text.skip(
                t.now.cursor,
            )
            &&& to->0.now.cursor == from
            &&& to->0.undo().now == t.now
        },
        key.code == KeyCode::Char('u') && key.mods.only_ctrl() ==> {
            let to = text_typed(t, key, width);
            &&& to is Some && to->0.now.text.len() == 0 && to->0.now.cursor == 0
            &&& to->0.undo().now == t.now
        },
{
    let s = t.now.text;
    let c = t.now.cursor;
    if c < s.len() {
        assert(s.take(c) + s.skip(c + 1) =~= s.remove(c));
    }
    if c > 0 {
        assert(s.take(c - 1) + s.skip(c) =~= s.remove(c - 1));
    }
}

/// With Control, a and e lead to the start and the end of the line, z undoes and y redoes.
pub proof fn control_keys_lead_and_undo(t: TextV, key: KeyEvent, width: nat)
    requires
        key.mods.only_ctrl(),
    ensures
        key.code == KeyCode::Char('a') ==> text_typed(t, key, width) == Some(
            t.moved(line_home(t.now.text, t.now.cursor)),
        ),
        key.code == KeyCode::Char('e') ==> text_typed(t, key, width) == Some(
            t.moved(line_end(t.now.text, t.now.cursor)),
        ),
        key.code == KeyCode::Char('z') ==> text_typed(t, key, width) == Some(t.undo()),
        key.code == KeyCode::Char('y') ==> text_typed(t, key, width) == Some(t.redo()),
{
}

/// Escape leaves the field and keeps what was answered before; Up leads a row up in the text, and
/// from its first row to the last option.
pub proof fn the_field_is_left(f: FormV, key: KeyEvent, qs: Seq<QuestionV>, width: nat)
    requires
        f.is_typing,
        key.mods.none(),
        0 <= f.focused < qs.len(),
    ensures
        key.code == KeyCode::Esc ==> {
            let (g, o) = form_step(f, key, qs, width);
            &&& o == OutcomeV::Consumed && !g.is_typing
            &&& g.custom == f.custom && g.answers == f.answers && g.focused == f.focused
        },
        key.code == KeyCode::Up && visual_up(f.typing.now, width) is Some ==> {
            let (g, o) = form_step(f, key, qs, width);
            &&& o == OutcomeV::Consumed && g.is_typing
            &&& g.typing.now.text == f.typing.now.text
            &&& Some(g.typing.now.cursor) == visual_up(f.typing.now, width)
        },
        key.code == KeyCode::Up && visual_up(f.typing.now, width) is None ==> {
            let (g, o) = form_step(f, key, qs, width);
            &&& o == OutcomeV::Consumed && !g.is_typing
            &&& qs[f.focused].options.len() > 0 ==> g.option == qs[f.focused].options.len() - 1
            &&& g.custom == f.custom && g.answers == f.answers
        },
{
}

} // verus!
