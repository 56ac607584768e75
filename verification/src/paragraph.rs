//! The height of text that is wrapped at the width of a panel.

use crate::panels::subagent_detail::{height_of, scroll_content_height};
use crate::text::text_views;
use ratatui::text::{Line, Span};
use ratatui::widgets::{Paragraph, Wrap};
use vstd::prelude::*;

verus! {

/// The rows that `Paragraph::line_count` gives lines, each of pieces of text, that are
/// wrapped at a width without trimming.
pub uninterp spec fn wrapped_rows(lines: Seq<Seq<Seq<char>>>, width: u16) -> nat;

/// The texts of lines.
pub open spec fn line_texts(lines: Seq<Vec<String>>) -> Seq<Seq<Seq<char>>> {
    lines.map_values(|l: Vec<String>| text_views(l@))
}

/// The widest at which text is wrapped. `Paragraph` adds up to four widths in sixteen bits.
pub const MAX_WRAP_WIDTH: u16 = 16_000;

/// `Paragraph::line_count`: the rows of a paragraph that wraps its lines at a width and
/// keeps leading blanks; the lines are made of unstyled spans. The word wrapper behind it
/// adds widths of a line, of blanks, of a word and of a symbol in sixteen bits; none of these
/// sums reaches four times the width, so wider paragraphs are left out.
#[verifier::external_body]
fn line_count(lines: &Vec<Vec<String>>, width: u16) -> (n: usize)
    requires
        width <= MAX_WRAP_WIDTH,
    ensures
        n == wrapped_rows(line_texts(lines@), width),
{
    let text: Vec<Line> = lines
        .iter()
        .map(|l| Line::from(l.iter().map(|s| Span::raw(s.as_str())).collect::<Vec<Span>>()))
        .collect();
    Paragraph::new(text).wrap(Wrap { trim: false }).line_count(width)
}

/// The width at which text is wrapped: one column at least.
pub open spec fn at_least_one(width: u16) -> u16 {
    if width == 0 {
        1
    } else {
        width
    }
}

/// The height of lines that are wrapped at a width.
pub fn wrapped_content_height(lines: &Vec<Vec<String>>, width: u16) -> (h: u16)
    requires
        width <= MAX_WRAP_WIDTH,
    ensures
        h == height_of(wrapped_rows(line_texts(lines@), at_least_one(width))),
{
    scroll_content_height(
        line_count(
            lines,
            if width == 0 {
                1
            } else {
                width
            },
        ),
    )
}

} // verus!
