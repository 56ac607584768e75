//! The scroll position of a view over content of a known height.

use vstd::prelude::*;

verus! {

/// How far a view is scrolled, and the heights known since it was last drawn.
#[derive(Debug, Clone, Copy, PartialEq, Eq, Structural)]
pub struct ScrollViewState {
    pub x: u16,
    pub y: u16,
    /// The height of the content, unknown before the first frame.
    pub content_height: Option<u16>,
    /// The height of the visible page, unknown before the first frame.
    pub page_height: Option<u16>,
}

impl Default for ScrollViewState {
    fn default() -> (s: ScrollViewState)
        ensures
            s.x == 0,
            s.y == 0,
            s.content_height is None,
            s.page_height is None,
    {
        ScrollViewState { x: 0, y: 0, content_height: None, page_height: None }
    }
}

impl ScrollViewState {
    /// The last row of the content is on the page, or no height is known yet.
    pub open spec fn at_bottom(self) -> bool {
        match self.content_height {
            None => true,
            Some(h) => {
                let page: int = match self.page_height {
                    Some(p) => p as int,
                    None => 1,
                };
                let reach = if self.y + page > u16::MAX {
                    u16::MAX as int
                } else {
                    self.y + page
                };
                reach > (if h > 0 {
                    h - 1
                } else {
                    0
                })
            },
        }
    }

    /// The same view at another row.
    pub open spec fn at(self, y: u16) -> ScrollViewState {
        ScrollViewState { y, ..self }
    }

    /// A view scrolled to an offset, of content not drawn yet.
    pub fn with_offset(x: u16, y: u16) -> (s: ScrollViewState)
        ensures
            s.x == x,
            s.y == y,
            s.content_height is None,
            s.page_height is None,
    {
        ScrollViewState { x, y, content_height: None, page_height: None }
    }

    pub fn is_at_bottom(&self) -> (b: bool)
        ensures
            b == self.at_bottom(),
    {
        match self.content_height {
            None => true,
            Some(h) => {
                let page: u16 = match self.page_height {
                    Some(p) => p,
                    None => 1,
                };
                self.y.saturating_add(page) > h.saturating_sub(1)
            },
        }
    }

    /// One row up.
    pub fn scroll_up(&mut self)
        ensures
            *final(self) == old(self).at(
                if old(self).y > 0 {
                    (old(self).y - 1) as u16
                } else {
                    0
                },
            ),
    {
        self.y = self.y.saturating_sub(1);
    }

    /// One row down.
    pub fn scroll_down(&mut self)
        ensures
            *final(self) == old(self).at(
                if old(self).y < u16::MAX {
                    (old(self).y + 1) as u16
                } else {
                    u16::MAX
                },
            ),
    {
        self.y = self.y.saturating_add(1);
    }

    /// The view some rows further up.
    pub open spec fn up_by(self, rows: int) -> ScrollViewState {
        self.at(
            if self.y > rows {
                (self.y - rows) as u16
            } else {
                0
            },
        )
    }

    /// The view some rows further down.
    pub open spec fn down_by(self, rows: int) -> ScrollViewState {
        self.at(
            if self.y + rows < u16::MAX {
                (self.y + rows) as u16
            } else {
                u16::MAX
            },
        )
    }

    /// Some rows up.
    pub fn scroll_up_by(&mut self, rows: usize)
        ensures
            *final(self) == old(self).up_by(rows as int),
    {
        let ghost before = *self;
        for i in 0..rows
            invariant
                *self == before.up_by(i as int),
        {
            self.scroll_up();
        }
    }

    /// Some rows down.
    pub fn scroll_down_by(&mut self, rows: usize)
        ensures
            *final(self) == old(self).down_by(rows as int),
    {
        let ghost before = *self;
        for i in 0..rows
            invariant
                *self == before.down_by(i as int),
        {
            self.scroll_down();
        }
    }

    /// To the last row of the content, or as far as can be where its height is
    /// unknown.
    pub fn scroll_to_bottom(&mut self)
        ensures
            *final(self) == old(self).at(
                match old(self).content_height {
                    Some(h) => if h > 0 {
                        (h - 1) as u16
                    } else {
                        0
                    },
                    None => u16::MAX,
                },
            ),
    {
        self.y = match self.content_height {
            Some(h) => h.saturating_sub(1),
            None => u16::MAX,
        };
    }

    /// To an offset.
    pub fn set_offset(&mut self, x: u16, y: u16)
        ensures
            *final(self) == (ScrollViewState { x, y, ..*old(self) }),
    {
        self.x = x;
        self.y = y;
    }
}

} // verus!
