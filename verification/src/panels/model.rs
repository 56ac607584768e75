//! The layout of the panel of the models.

use vstd::prelude::*;

verus! {

/// The column at which values end on a wide screen.
pub const ALIGN_COL: usize = 40;

/// The column at which values end, for the width of the panel: what is left beside the left
/// part, the line between and a margin of four, but no more than on a wide screen.
pub open spec fn align_of(width: int) -> int {
    let room = width - width * 45 / 100 - 5;
    if room < 0 {
        0
    } else if room > ALIGN_COL {
        ALIGN_COL as int
    } else {
        room
    }
}

/// The column at which values end.
pub fn right_align_col(width: u16) -> (c: usize)
    ensures
        c == align_of(width as int),
{
    let w: u32 = width as u32;
    let room: u32 = (w - w * 45 / 100).saturating_sub(5);
    if room > 40 {
        ALIGN_COL
    } else {
        room as usize
    }
}

/// On a wider panel values end no further to the left.
pub proof fn alignment_grows_with_the_panel(a: int, b: int)
    requires
        0 <= a <= b,
    ensures
        align_of(a) <= align_of(b) <= ALIGN_COL,
{
}

} // verus!
