//! The popup that shows how a download of themes goes.

use crate::doc::{blank, fg, lit, msg, msg_with, Arg, ArgV, Color, Doc, Line, Piece, PieceV, Style};
use crate::event::{Event, EventResult, KeyCode};
use crate::panels::theme::download::{items_view, DownloadProgressPayload, FileDownloadStatus,
    ItemV, ProgressV, StatusV};
use crate::text::cat;
use vstd::prelude::*;

verus! {

/// A line of the popup.
pub type LineV = Seq<PieceV>;

/// The number of files shown.
pub const MAX_VISIBLE_ITEMS: usize = 16;

/// Escape closes the popup of a download that has ended. While it runs the key is left
/// to others.
pub open spec fn closes(event: Event, finished: bool) -> bool {
    match event {
        Event::Key(key) => key.press && key.mods.none() && key.code == KeyCode::Esc && finished,
        _ => false,
    }
}

/// Deals with an input: used up, and the popup closed, exactly where it says so.
pub fn handle_download_progress_event(event: &Event, progress: &DownloadProgressPayload) -> (r: (
    EventResult,
    bool,
))
    ensures
        r.1 == closes(*event, progress.finished),
        r.0 == (if r.1 {
            EventResult::Consumed
        } else {
            EventResult::Ignored
        }),
{
    let close = match event {
        Event::Key(key) => key.press && key.mods.is_none() && key.code == KeyCode::Esc
            && progress.finished,
        _ => false,
    };
    if close {
        (EventResult::Consumed, true)
    } else {
        (EventResult::Ignored, false)
    }
}

/// The title of the popup.
pub open spec fn title_line(p: ProgressV) -> LineV {
    seq![
        if p.finished {
            msg_with(
                "popup-download-title-done"@,
                seq![
                    ("total"@, ArgV::Number(p.items.len())),
                    ("success"@, ArgV::Number(p.success as nat)),
                    ("failed"@, ArgV::Number(p.failed as nat)),
                ],
                fg(Color::PopupAction),
            )
        } else {
            msg_with(
                "popup-download-title-active"@,
                seq![
                    ("done"@, ArgV::Number(p.success as nat)),
                    ("total"@, ArgV::Number(p.items.len())),
                ],
                fg(Color::PopupAction),
            )
        },
    ]
}

/// The line of a file.
pub open spec fn item_line(i: ItemV) -> LineV {
    seq![
        match i.status {
            StatusV::Pending => lit(" · "@ + i.filename, fg(Color::Dim)),
            StatusV::Downloading => lit(" → "@ + i.filename, fg(Color::Accent)),
            StatusV::Done => lit(" ✓ "@ + i.filename, fg(Color::Success)),
            StatusV::Failed(_) => lit(" ✗ "@ + i.filename, fg(Color::Error)),
        },
    ]
}

/// The lines of the first files.
pub open spec fn item_lines(items: Seq<ItemV>, to: int) -> Seq<LineV>
    decreases to,
{
    if to <= 0 {
        Seq::empty()
    } else {
        item_lines(items, to - 1).push(item_line(items[to - 1]))
    }
}

/// What the popup shows below its title.
pub open spec fn progress_lines(p: ProgressV) -> Seq<LineV> {
    (if p.items.len() == 0 {
        seq![seq![msg("popup-download-empty"@, fg(Color::Muted))]]
    } else if p.items.len() < MAX_VISIBLE_ITEMS {
        item_lines(p.items, p.items.len() as int)
    } else {
        item_lines(p.items, MAX_VISIBLE_ITEMS as int)
    }) + seq![
        blank(),
        seq![
            msg(
                if p.finished {
                    "popup-download-footer-done"@
                } else {
                    "popup-download-footer-active"@
                },
                fg(Color::Muted),
            ),
        ],
    ]
}

/// The popup.
#[derive(Debug, Clone, Copy, PartialEq, Eq, Structural)]
pub struct DownloadProgressPopup {}

impl DownloadProgressPopup {
    /// Deals with an input: whether it is used up, and whether the popup closes.
    pub fn handle_event(&self, event: &Event, progress: &DownloadProgressPayload) -> (r: (
        EventResult,
        bool,
    ))
        ensures
            r.1 == closes(*event, progress.finished),
            r.0 == (if r.1 {
                EventResult::Consumed
            } else {
                EventResult::Ignored
            }),
    {
        handle_download_progress_event(event, progress)
    }

    /// The title of the popup.
    pub fn title(&self, progress: &DownloadProgressPayload) -> (l: Line)
        ensures
            l@ == title_line(progress@),
    {
        let style = Style::fg(Color::PopupAction);
        let total: u64 = progress.items.len() as u64;
        if progress.finished {
            Line::of(
                Piece::msg3(
                    "popup-download-title-done",
                    Arg::number("total", total),
                    Arg::number("success", progress.success_count as u64),
                    Arg::number("failed", progress.fail_count as u64),
                    style,
                ),
            )
        } else {
            Line::of(
                Piece::msg2(
                    "popup-download-title-active",
                    Arg::number("done", progress.success_count as u64),
                    Arg::number("total", total),
                    style,
                ),
            )
        }
    }

    /// What the popup shows below its title.
    pub fn lines(&self, progress: &DownloadProgressPayload) -> (d: Doc)
        ensures
            d@ == progress_lines(progress@),
    {
        let mut d = Doc::new();
        let ghost items = items_view(progress.items@);
        if progress.items.len() == 0 {
            d.line(Piece::msg("popup-download-empty", Style::fg(Color::Muted)));
        } else {
            let mut i: usize = 0;
            while i < progress.items.len() && i < MAX_VISIBLE_ITEMS
                invariant
                    i <= progress.items@.len(),
                    i <= MAX_VISIBLE_ITEMS,
                    items == items_view(progress.items@),
                    d@ == item_lines(items, i as int),
                decreases progress.items.len() - i,
            {
                let item = &progress.items[i];
                assert(items[i as int] == item@);
                let name = item.filename.as_str();
                let piece = match item.status {
                    FileDownloadStatus::Pending => Piece::text(
                        cat(" · ", name),
                        Style::fg(Color::Dim),
                    ),
                    FileDownloadStatus::Downloading => Piece::text(
                        cat(" → ", name),
                        Style::fg(Color::Accent),
                    ),
                    FileDownloadStatus::Done => Piece::text(
                        cat(" ✓ ", name),
                        Style::fg(Color::Success),
                    ),
                    FileDownloadStatus::Failed(_) => Piece::text(
                        cat(" ✗ ", name),
                        Style::fg(Color::Error),
                    ),
                };
                d.line(piece);
                i = i + 1;
            }
        }
        d.blank();
        d.line(
            Piece::msg(
                if progress.finished {
                    "popup-download-footer-done"
                } else {
                    "popup-download-footer-active"
                },
                Style::fg(Color::Muted),
            ),
        );
        assert(d@ =~= progress_lines(progress@));
        d
    }
}

} // verus!
