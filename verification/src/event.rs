//! Terminal input and screen geometry as plain values.

use vstd::prelude::*;

verus! {

/// A key, apart from its modifiers.
#[derive(Debug, Clone, Copy, PartialEq, Eq, Structural)]
pub enum KeyCode {
    Char(char),
    Enter,
    Esc,
    Up,
    Down,
    Left,
    Right,
    Home,
    End,
    PageUp,
    PageDown,
    Tab,
    BackTab,
    Backspace,
    Delete,
    Other,
}

/// The modifier keys held down. `other` stands for super, hyper and meta.
#[derive(Debug, Clone, Copy, PartialEq, Eq, Structural)]
pub struct Modifiers {
    pub ctrl: bool,
    pub alt: bool,
    pub shift: bool,
    pub other: bool,
}

impl Modifiers {
    /// No modifier is held.
    pub open spec fn none(self) -> bool {
        !self.ctrl && !self.alt && !self.shift && !self.other
    }

    /// Shift is held, and nothing else.
    pub open spec fn only_shift(self) -> bool {
        !self.ctrl && !self.alt && self.shift && !self.other
    }

    /// Control is held, and nothing else.
    pub open spec fn only_ctrl(self) -> bool {
        self.ctrl && !self.alt && !self.shift && !self.other
    }

    pub fn is_none(&self) -> (b: bool)
        ensures
            b == self.none(),
    {
        !self.ctrl && !self.alt && !self.shift && !self.other
    }

    pub fn is_only_shift(&self) -> (b: bool)
        ensures
            b == self.only_shift(),
    {
        !self.ctrl && !self.alt && self.shift && !self.other
    }

    pub fn is_only_ctrl(&self) -> (b: bool)
        ensures
            b == self.only_ctrl(),
    {
        self.ctrl && !self.alt && !self.shift && !self.other
    }
}

/// A key event: a press, a repeat while the key is held, or a release, which is neither.
#[derive(Debug, Clone, Copy, PartialEq, Eq, Structural)]
pub struct KeyEvent {
    pub code: KeyCode,
    pub mods: Modifiers,
    pub press: bool,
    pub repeat: bool,
}

impl KeyEvent {
    /// A press of a key with no modifier held.
    pub fn plain(code: KeyCode) -> (k: KeyEvent)
        ensures
            k.code == code,
            k.mods.none(),
            k.press,
            !k.repeat,
    {
        KeyEvent {
            code,
            mods: Modifiers { ctrl: false, alt: false, shift: false, other: false },
            press: true,
            repeat: false,
        }
    }

    /// A press of a key with control held.
    pub fn with_ctrl(code: KeyCode) -> (k: KeyEvent)
        ensures
            k.code == code,
            k.mods.only_ctrl(),
            k.press,
            !k.repeat,
    {
        KeyEvent {
            code,
            mods: Modifiers { ctrl: true, alt: false, shift: false, other: false },
            press: true,
            repeat: false,
        }
    }

    /// A press of a key with shift held.
    pub fn with_shift(code: KeyCode) -> (k: KeyEvent)
        ensures
            k.code == code,
            k.mods.only_shift(),
            k.press,
            !k.repeat,
    {
        KeyEvent {
            code,
            mods: Modifiers { ctrl: false, alt: false, shift: true, other: false },
            press: true,
            repeat: false,
        }
    }
}

/// What the mouse did.
#[derive(Debug, Clone, Copy, PartialEq, Eq, Structural)]
pub enum MouseKind {
    LeftDown,
    Moved,
    ScrollUp,
    ScrollDown,
    Other,
}

/// A mouse event at a screen position.
#[derive(Debug, Clone, Copy, PartialEq, Eq, Structural)]
pub struct MouseEvent {
    pub kind: MouseKind,
    pub row: u16,
    pub column: u16,
}

/// One input event of the terminal.
#[derive(Debug)]
pub enum Event {
    Key(KeyEvent),
    Mouse(MouseEvent),
    Paste(String),
    Other,
}

/// Whether an event has been dealt with or is left to the next layer.
#[derive(Debug, Clone, Copy, PartialEq, Eq, Structural)]
pub enum EventResult {
    Consumed,
    Ignored,
}

/// A rectangle of the screen.
#[derive(Debug, Clone, Copy, PartialEq, Eq, Structural)]
pub struct Rect {
    pub x: u16,
    pub y: u16,
    pub width: u16,
    pub height: u16,
}

/// `a + b`, or the largest coordinate where the sum is beyond it.
pub open spec fn sat(a: int, b: int) -> int {
    if a + b > u16::MAX {
        u16::MAX as int
    } else {
        a + b
    }
}

/// `a - b`, or nothing where that is below nothing.
pub open spec fn sat_diff(a: int, b: int) -> int {
    if a > b {
        a - b
    } else {
        0
    }
}

/// A rectangle, with width and height cut so that its right and bottom edges are coordinates.
pub open spec fn rect(x: u16, y: u16, width: u16, height: u16) -> Rect {
    Rect {
        x,
        y,
        width: (sat(x as int, width as int) - x) as u16,
        height: (sat(y as int, height as int) - y) as u16,
    }
}

impl Rect {
    /// The position lies within the rectangle.
    pub open spec fn holds(self, row: u16, column: u16) -> bool {
        &&& self.y <= row < sat(self.y as int, self.height as int)
        &&& self.x <= column < sat(self.x as int, self.width as int)
    }

    /// A rectangle, with width and height cut so that its right and bottom edges
    /// are coordinates.
    pub fn new(x: u16, y: u16, width: u16, height: u16) -> (r: Rect)
        ensures
            r == rect(x, y, width, height),
    {
        Rect { x, y, width: x.saturating_add(width) - x, height: y.saturating_add(height) - y }
    }

    /// Whether the position lies within the rectangle.
    pub fn contains(&self, row: u16, column: u16) -> (b: bool)
        ensures
            b == self.holds(row, column),
    {
        row >= self.y && row < self.y.saturating_add(self.height) && column >= self.x && column
            < self.x.saturating_add(self.width)
    }
}

} // verus!
