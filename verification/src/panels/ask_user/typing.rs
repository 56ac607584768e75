//! Typing an answer.

use crate::event::{KeyCode, KeyEvent};
use crate::panels::ask_user::form::{custom_view, FormState, FormV};
use crate::panels::ask_user::types::{questions_of, AskUser, QuestionV};
use crate::textarea::{line_end, line_home, visual_down, visual_up, word_left, word_right, EditV,
    TextV};
use crate::wrap::{trim, trim_spec};
use vstd::prelude::*;

verus! {

/// The typed answers made long enough for a question.
pub open spec fn custom_room(custom: Seq<Option<Seq<char>>>, question: int) -> Seq<
    Option<Seq<char>>,
> {
    if question < custom.len() {
        custom
    } else {
        custom + Seq::new((question + 1 - custom.len()) as nat, |i: int| None::<Seq<char>>)
    }
}

/// What Enter does while typing: a text that is not blank becomes the answer, and
/// typing ends.
pub open spec fn entered(f: FormV) -> FormV {
    let text = trim_spec(f.typing.now.text);
    FormV {
        custom: if text.len() > 0 {
            custom_room(f.custom, f.focused).update(f.focused, Some(text))
        } else {
            f.custom
        },
        is_typing: false,
        ..f
    }
}

/// What the arrow up does in the first row: back to the last option.
pub open spec fn left_upwards(f: FormV, qs: Seq<QuestionV>) -> FormV {
    FormV {
        is_typing: false,
        option: if 0 <= f.focused < qs.len() {
            let n = qs[f.focused].options.len() as int;
            if n > 0 {
                n - 1
            } else {
                0
            }
        } else {
            f.option
        },
        ..f
    }
}

/// What a key does to the text being typed, if anything.
pub open spec fn text_typed(t: TextV, key: KeyEvent, width: nat) -> Option<TextV> {
    let now = t.now;
    match key.code {
        KeyCode::Backspace => if key.mods.none() {
            Some(
                if now.cursor > 0 {
                    t.edited(now.without(now.cursor - 1, now.cursor))
                } else {
                    t
                },
            )
        } else {
            None
        },
        KeyCode::Delete => if key.mods.none() {
            Some(
                if now.cursor < now.text.len() {
                    t.edited(now.without(now.cursor, now.cursor + 1))
                } else {
                    t
                },
            )
        } else {
            None
        },
        KeyCode::Left => if key.mods.none() {
            Some(
                t.moved(
                    if now.cursor > 0 {
                        now.cursor - 1
                    } else {
                        0
                    },
                ),
            )
        } else if key.mods.only_ctrl() {
            Some(t.moved(word_left(now.text, now.cursor)))
        } else {
            None
        },
        KeyCode::Right => if key.mods.none() {
            Some(
                t.moved(
                    if now.cursor < now.text.len() {
                        now.cursor + 1
                    } else {
                        now.cursor
                    },
                ),
            )
        } else if key.mods.only_ctrl() {
            Some(t.moved(word_right(now.text, now.cursor)))
        } else {
            None
        },
        KeyCode::Down => if key.mods.none() {
            Some(
                match visual_down(now, width) {
                    Some(to) => t.moved(to),
                    None => t,
                },
            )
        } else {
            None
        },
        KeyCode::Char(c) => if key.mods.only_ctrl() {
            control_typed(t, c)
        } else if key.mods.none() || key.mods.only_shift() {
            Some(t.edited(now.inserted(seq![c])))
        } else {
            None
        },
        _ => None,
    }
}

/// What a letter with control does to the text being typed, if anything.
pub open spec fn control_typed(t: TextV, c: char) -> Option<TextV> {
    let now = t.now;
    if c == 'w' || c == 'W' {
        Some(
            if now.cursor > 0 {
                t.edited(now.without(word_left(now.text, now.cursor), now.cursor))
            } else {
                t
            },
        )
    } else if c == 'u' {
        Some(t.edited(EditV { text: Seq::empty(), cursor: 0 }))
    } else if c == 'a' {
        Some(t.moved(line_home(now.text, now.cursor)))
    } else if c == 'e' {
        Some(t.moved(line_end(now.text, now.cursor)))
    } else if c == 'z' {
        Some(t.undo())
    } else if c == 'Z' || c == 'y' {
        Some(t.redo())
    } else {
        None
    }
}

/// The form after a key while typing; nothing where the key is no typing.
pub open spec fn typed(f: FormV, key: KeyEvent, qs: Seq<QuestionV>, width: nat) -> Option<FormV> {
    if key.code == KeyCode::Enter && key.mods.none() {
        Some(entered(f))
    } else if key.code == KeyCode::Esc && key.mods.none() {
        Some(FormV { is_typing: false, ..f })
    } else if key.code == KeyCode::Up && key.mods.none() {
        match visual_up(f.typing.now, width) {
            Some(to) => Some(FormV { typing: f.typing.moved(to), ..f }),
            None => Some(left_upwards(f, qs)),
        }
    } else {
        match text_typed(f.typing, key, width) {
            Some(t) => Some(FormV { typing: t, ..f }),
            None => None,
        }
    }
}

impl FormState {
    fn enter_text(&mut self)
        ensures
            final(self)@ == entered(old(self)@),
    {
        let ghost before = self@;
        let all = self.typing_state.all_text();
        let text = trim(all.as_str());
        if !text.as_str().is_empty() {
            while self.custom_answers.len() <= self.focused
                invariant
                    before.custom.len() <= self.custom_answers@.len(),
                    self.custom_answers@.len() <= before.custom.len() || self.custom_answers@.len()
                        <= self.focused + 1,
                    self.focused == before.focused,
                    self@ == (FormV { custom: custom_view(self.custom_answers@), ..before }),
                    forall|j: int|
                        0 <= j < before.custom.len() ==> custom_view(self.custom_answers@)[j]
                            == before.custom[j],
                    forall|j: int|
                        before.custom.len() <= j < self.custom_answers@.len() ==> (
                        #[trigger] self.custom_answers@[j]) is None,
                decreases self.focused + 1 - self.custom_answers@.len(),
            {
                let ghost was = custom_view(self.custom_answers@);
                self.custom_answers.push(None);
                assert(custom_view(self.custom_answers@) =~= was.push(None));
            }
            let ghost room = custom_room(before.custom, before.focused);
            assert(self@.custom =~= room);
            let i: usize = self.focused;
            let ghost t = text@;
            self.custom_answers.set(i, Some(text));
            assert(self@.custom =~= room.update(before.focused, Some(t)));
        }
        self.is_typing = false;
    }

    fn control_key(&mut self, c: char) -> (taken: bool)
        ensures
            taken == control_typed(old(self)@.typing, c) is Some,
            final(self)@ == (match control_typed(old(self)@.typing, c) {
                Some(t) => FormV { typing: t, ..old(self)@ },
                None => old(self)@,
            }),
    {
        if c == 'w' || c == 'W' {
            self.typing_state.delete_word_backward();
        } else if c == 'u' {
            self.typing_state.clear();
        } else if c == 'a' {
            self.typing_state.cursor_line_home();
        } else if c == 'e' {
            self.typing_state.cursor_line_end();
        } else if c == 'z' {
            self.typing_state.undo();
        } else if c == 'Z' || c == 'y' {
            self.typing_state.redo();
        } else {
            return false;
        }
        true
    }

    /// Deals with a key while typing; false where the key is no typing.
    pub fn handle_typing_key(&mut self, key: &KeyEvent, pending: Option<&AskUser>, wrap_width: usize) -> (taken:
        bool)
        ensures
            taken == typed(
                old(self)@,
                *key,
                questions_of(pending),
                wrap_width as nat,
            ) is Some,
            final(self)@ == (match typed(
                old(self)@,
                *key,
                questions_of(pending),
                wrap_width as nat,
            ) {
                Some(f) => f,
                None => old(self)@,
            }),
    {
        let none = key.mods.is_none();
        let ctrl = key.mods.is_only_ctrl();
        match key.code {
            KeyCode::Enter => {
                if !none {
                    return false;
                }
                self.enter_text();
            },
            KeyCode::Esc => {
                if !none {
                    return false;
                }
                self.is_typing = false;
            },
            KeyCode::Backspace => {
                if !none {
                    return false;
                }
                self.typing_state.backspace();
            },
            KeyCode::Delete => {
                if !none {
                    return false;
                }
                self.typing_state.delete_forward();
            },
            KeyCode::Left => {
                if none {
                    self.typing_state.cursor_left();
                } else if ctrl {
                    self.typing_state.cursor_word_left();
                } else {
                    return false;
                }
            },
            KeyCode::Right => {
                if none {
                    self.typing_state.cursor_right();
                } else if ctrl {
                    self.typing_state.cursor_word_right();
                } else {
                    return false;
                }
            },
            KeyCode::Up => {
                if !none {
                    return false;
                }
                let moved = self.typing_state.cursor_visual_up(wrap_width);
                if !moved {
                    self.is_typing = false;
                    match pending {
                        Some(a) => {
                            if self.focused < a.questions.len() {
                                let q = &a.questions[self.focused];
                                assert(questions_of(pending)[self.focused as int] == q@);
                                self.focused_option = q.options.len().saturating_sub(1);
                            }
                        },
                        None => {},
                    }
                }
            },
            KeyCode::Down => {
                if !none {
                    return false;
                }
                let _moved = self.typing_state.cursor_visual_down(wrap_width);
            },
            KeyCode::Char(c) => {
                if ctrl {
                    return self.control_key(c);
                } else if none || key.mods.is_only_shift() {
                    self.typing_state.insert_char(c);
                } else {
                    return false;
                }
            },
            _ => {
                return false;
            },
        }
        true
    }
}

/// Esc ends typing and changes nothing else: what was saved stays.
pub proof fn escape_keeps_saved_answers(f: FormV, key: KeyEvent, qs: Seq<QuestionV>, width: nat)
    requires
        key.code == KeyCode::Esc,
        key.mods.none(),
    ensures
        typed(f, key, qs, width) == Some(FormV { is_typing: false, ..f }),
{
}

/// Entering a blank text keeps the answer that was saved.
pub proof fn blank_entry_keeps_saved_answer(f: FormV)
    ensures
        trim_spec(f.typing.now.text).len() == 0 ==> entered(f).custom == f.custom,
        !entered(f).is_typing,
{
}

} // verus!
