//! What the panel shows.

use crate::doc::{bold, fg, italic, lit, msg, msg_text, msg_with, Arg, ArgV, Color, Doc, Line,
    Piece, PieceV, Style};
use crate::event::{rect, sat, sat_diff, EventResult, MouseEvent, Rect};
use crate::panel_mouse::{a_line_of_an_item_hits_it, clicks};
use crate::panels::thread_browser::state::{layout, mouse_step, preview_viewport,
    preview_viewport_rows, scroll_start, viewport, viewport_rows, BrowserEffectV, BrowserV,
    ThreadBrowserPanel, ThreadBrowserScope, ThreadList, ThreadSummary, ThreadV};
use crate::text::{cat, cat3, head, head_spec, lines_of, path_tail, path_tail_spec, repeat_char,
    repeated, same, split_lines, str_width, str_width_of, text_views, truncate_text,
    truncate_text_spec};
use crate::time::{time_text, written_time};
use vstd::prelude::*;

verus! {

/// A line of the panel.
pub type LineV = Seq<PieceV>;

/// Texts in the language of the user: what stands for a title that is missing, the two
/// lines about the selected thread with nothing in them, and for each thread how many
/// messages it holds.
#[derive(Debug)]
pub struct Labels {
    pub untitled: String,
    pub selected_empty: String,
    pub path_empty: String,
    pub messages: Vec<String>,
}

/// The message key of a scope.
pub open spec fn scope_key(s: ThreadBrowserScope) -> Seq<char> {
    match s {
        ThreadBrowserScope::Project => "thread-browser-project"@,
        ThreadBrowserScope::Workspace => "thread-browser-workspace"@,
        ThreadBrowserScope::All => "thread-browser-all"@,
    }
}

/// The first line: the scope and the number of threads.
pub open spec fn header_line(l: crate::panels::thread_browser::state::ListV) -> LineV {
    seq![
        msg_with(
            if l.has_more {
                "thread-browser-scope-loaded"@
            } else {
                "thread-browser-scope-count"@
            },
            seq![
                ("scope"@, ArgV::Message(scope_key(l.scope))),
                ("count"@, ArgV::Number(l.threads.len())),
            ],
            bold(Color::Primary),
        ),
    ]
}

/// The title of a thread, or what stands for it.
pub open spec fn title_of(t: ThreadV, untitled: Seq<char>) -> Seq<char> {
    match t.title {
        Some(x) => x,
        None => untitled,
    }
}

/// The day of the last change.
pub open spec fn updated_text(t: ThreadV) -> Seq<char> {
    match t.updated_at {
        Some(secs) => match written_time(secs, "%m-%d"@) {
            Some(x) => x,
            None => "-"@,
        },
        None => "-"@,
    }
}

/// What stands at the end of a row: the day and the number of messages, where there
/// is room for them.
pub open spec fn metadata(t: ThreadV, width: int, messages: Seq<char>) -> Seq<char> {
    if width < 70 {
        Seq::empty()
    } else {
        updated_text(t) + "  "@ + messages
    }
}

/// What stands before the title of a row.
pub open spec fn mark(selected: bool) -> Seq<char> {
    if selected {
        " > "@
    } else {
        "   "@
    }
}

/// A row of the list: the title cut to the room that is left, and the rest of the row
/// filled up.
pub open spec fn row_line(
    t: ThreadV,
    selected: bool,
    panel_width: u16,
    untitled: Seq<char>,
    messages: Seq<char>,
) -> LineV {
    let width = sat_diff(panel_width as int, 2);
    let prefix = mark(selected);
    let meta = metadata(t, width, messages);
    let room = sat_diff(width, str_width_of(prefix) + str_width_of(meta) + 1);
    let title = truncate_text_spec(title_of(t, untitled), room as nat);
    let gap = sat_diff(width, str_width_of(prefix) + str_width_of(title) + str_width_of(meta));
    seq![
        lit(prefix, fg(Color::Title)),
        lit(
            title,
            if selected {
                bold(Color::Title)
            } else {
                fg(Color::Primary)
            },
        ),
        lit(repeated(' ', gap as nat), fg(Color::Plain)),
        lit(meta, fg(Color::Muted)),
    ]
}

/// The first rows of the list.
pub open spec fn rows(
    ts: Seq<ThreadV>,
    selected: int,
    panel_width: u16,
    untitled: Seq<char>,
    messages: Seq<Seq<char>>,
    to: int,
) -> Seq<LineV>
    decreases to,
{
    if to <= 0 {
        Seq::empty()
    } else {
        rows(ts, selected, panel_width, untitled, messages, to - 1).push(
            row_line(ts[to - 1], to - 1 == selected, panel_width, untitled, messages[to - 1]),
        )
    }
}

/// The list: what went wrong, that there is nothing, or the rows.
pub open spec fn list_lines(
    ts: Seq<ThreadV>,
    selected: int,
    error: Option<Seq<char>>,
    panel_width: u16,
    untitled: Seq<char>,
    messages: Seq<Seq<char>>,
) -> Seq<LineV> {
    match error {
        Some(e) => seq![seq![lit(e, fg(Color::Warning))]],
        None => if ts.len() == 0 {
            seq![seq![msg("thread-browser-empty"@, fg(Color::Muted))]]
        } else {
            rows(ts, selected, panel_width, untitled, messages, ts.len() as int)
        },
    }
}

proof fn threads_stand(
    ts: Seq<ThreadV>,
    selected: int,
    panel_width: u16,
    untitled: Seq<char>,
    messages: Seq<Seq<char>>,
    to: int,
    i: int,
)
    requires
        0 <= i < to,
    ensures
        rows(ts, selected, panel_width, untitled, messages, to).len() == to,
        rows(ts, selected, panel_width, untitled, messages, to)[i] == row_line(
            ts[i],
            i == selected,
            panel_width,
            untitled,
            messages[i],
        ),
    decreases to,
{
    if to > 1 {
        threads_stand(
            ts,
            selected,
            panel_width,
            untitled,
            messages,
            to - 1,
            if i < to - 1 {
                i
            } else {
                0
            },
        );
    } else {
        assert(rows(ts, selected, panel_width, untitled, messages, 0).len() == 0);
    }
}

/// A click on the row of a thread loads that thread: the list stands below one line, and its
/// first line on the screen is the one scrolled to.
pub proof fn threads_are_clicked_where_shown(
    b: BrowserV,
    ts: Seq<ThreadV>,
    panel_width: u16,
    untitled: Seq<char>,
    messages: Seq<Seq<char>>,
    m: MouseEvent,
    area: Rect,
    shown: u16,
    i: int,
)
    requires
        b.preview_id is None,
        b.confirm_delete is None,
        ts.len() <= usize::MAX,
        scroll_start(b, ts.len() as int, shown as int) <= i < ts.len(),
        i < scroll_start(b, ts.len() as int, shown as int) + shown,
        clicks(m, area, 1 + i - scroll_start(b, ts.len() as int, shown as int)),
        1 + i - scroll_start(b, ts.len() as int, shown as int) < area.height - 3,
    ensures
        list_lines(ts, b.cursor, None, panel_width, untitled, messages)[i] == row_line(
            ts[i],
            i == b.cursor,
            panel_width,
            untitled,
            messages[i],
        ),
        mouse_step(b, m, ts, Some(area), shown as int) == (
            EventResult::Consumed,
            BrowserEffectV::Load(ts[i].id),
        ),
{
    threads_stand(ts, b.cursor, panel_width, untitled, messages, ts.len() as int, i);
    let l = layout(b, ts.len() as int, shown as int);
    let start = scroll_start(b, ts.len() as int, shown as int);
    assert(l.item_rows == 1);
    assert(l.scroll_start == start);
    a_line_of_an_item_hits_it(m, area, l, i - start, 0);
}

/// The last line: the question whether to delete, or what can be done.
pub open spec fn footer_line(confirming: bool, panel_width: u16) -> LineV {
    seq![
        if confirming {
            msg("panel-threads-confirm-hint"@, fg(Color::Warning))
        } else if panel_width < 80 {
            msg("thread-browser-actions-compact"@, italic(Color::Muted))
        } else {
            msg("thread-browser-actions"@, italic(Color::Muted))
        },
    ]
}

/// The two lines about the selected thread, cut to the width of the panel.
pub open spec fn details_lines(
    ts: Seq<ThreadV>,
    selected: int,
    panel_width: u16,
    untitled: Seq<char>,
    selected_empty: Seq<char>,
    path_empty: Seq<char>,
) -> Seq<LineV> {
    if 0 <= selected < ts.len() {
        let t = ts[selected];
        let id = head_spec(t.id, 8) + "…"@;
        seq![
            seq![
                msg_text(
                    "thread-browser-selected"@,
                    "title"@,
                    truncate_text_spec(
                        title_of(t, untitled),
                        sat_diff(panel_width as int, str_width_of(selected_empty) as int) as nat,
                    ),
                    fg(Color::Plain),
                ),
            ],
            seq![
                msg_with(
                    "thread-browser-selected-path"@,
                    seq![
                        (
                            "path"@,
                            ArgV::Text(
                                path_tail_spec(
                                    t.cwd,
                                    sat_diff(
                                        panel_width as int,
                                        str_width_of(path_empty) + str_width_of(id),
                                    ) as nat,
                                ),
                            ),
                        ),
                        ("id"@, ArgV::Text(id)),
                    ],
                    fg(Color::Plain),
                ),
            ],
        ]
    } else {
        seq![seq![lit(""@, fg(Color::Plain))], seq![lit(""@, fg(Color::Plain))]]
    }
}

/// What is known of the thread that is previewed.
#[derive(Debug)]
pub enum Preview {
    Loading,
    Failed(String),
    Loaded { id: String, text: String },
    Nothing,
}

/// Each text on a line of its own.
pub open spec fn plain_lines(lines: Seq<Seq<char>>) -> Seq<LineV> {
    lines.map_values(|l: Seq<char>| seq![lit(l, fg(Color::Plain))])
}

/// The document of a preview: a blank line, and the text once that of the right thread
/// is there.
pub open spec fn preview_lines(p: Preview, id: Seq<char>) -> Seq<LineV> {
    seq![Seq::<PieceV>::empty()] + (match p {
        Preview::Loading => seq![seq![msg("thread-history-loading"@, fg(Color::Plain))]],
        Preview::Failed(e) => seq![seq![lit(e@, fg(Color::Plain))]],
        Preview::Loaded { id: of, text } => if of@ == id {
            plain_lines(lines_of(text@))
        } else {
            Seq::empty()
        },
        Preview::Nothing => Seq::empty(),
    })
}

fn title_text(t: &ThreadSummary, untitled: &str) -> (r: String)
    ensures
        r@ == title_of(t@, untitled@),
{
    match &t.title {
        Some(x) => x.clone(),
        None => untitled.to_owned(),
    }
}

fn updated(t: &ThreadSummary) -> (r: String)
    ensures
        r@ == updated_text(t@),
{
    match t.updated_at {
        Some(secs) => match time_text(secs, "%m-%d") {
            Some(x) => x,
            None => "-".to_owned(),
        },
        None => "-".to_owned(),
    }
}

/// A row of the list.
pub fn thread_row(
    t: &ThreadSummary,
    selected: bool,
    panel_width: u16,
    untitled: &str,
    messages: &str,
) -> (l: Line)
    ensures
        l@ == row_line(t@, selected, panel_width, untitled@, messages@),
{
    let width: usize = panel_width.saturating_sub(2) as usize;
    let prefix = if selected {
        " > "
    } else {
        "   "
    };
    let meta = if width < 70 {
        String::new()
    } else {
        cat3(updated(t).as_str(), "  ", messages)
    };
    let prefix_width: usize = str_width(prefix);
    let meta_width: usize = str_width(meta.as_str());
    let room: usize = width.saturating_sub(prefix_width).saturating_sub(meta_width).saturating_sub(
        1,
    );
    let title = truncate_text(title_text(t, untitled).as_str(), room);
    let gap: usize = width.saturating_sub(prefix_width).saturating_sub(
        str_width(title.as_str()),
    ).saturating_sub(meta_width);
    let mut l = Line::new();
    l.push(Piece::lit(prefix, Style::fg(Color::Title)));
    l.push(
        Piece::text(
            title,
            if selected {
                Style::bold(Color::Title)
            } else {
                Style::fg(Color::Primary)
            },
        ),
    );
    l.push(Piece::text(repeat_char(' ', gap), Style::fg(Color::Plain)));
    l.push(Piece::text(meta, Style::fg(Color::Muted)));
    assert(l@ =~= row_line(t@, selected, panel_width, untitled@, messages@));
    l
}

/// Where the list stands in the panel.
pub open spec fn body_rect(panel: Rect) -> Rect {
    rect(panel.x, sat(panel.y as int, 2) as u16, panel.width, viewport(panel.height) as u16)
}

/// Where a preview stands in the panel.
pub open spec fn preview_rect(panel: Rect) -> Rect {
    rect(panel.x, sat(panel.y as int, 3) as u16, panel.width, preview_viewport(panel.height) as u16)
}

impl ThreadBrowserPanel {
    /// The part of the panel that the wheel scrolls.
    pub fn scroll_area(&self, panel: Rect) -> (r: Rect)
        ensures
            r == (if self@.preview_id is Some {
                preview_rect(panel)
            } else {
                body_rect(panel)
            }),
    {
        if self.preview_id.is_some() {
            Rect::new(
                panel.x,
                panel.y.saturating_add(3),
                panel.width,
                preview_viewport_rows(panel.height) as u16,
            )
        } else {
            Rect::new(
                panel.x,
                panel.y.saturating_add(2),
                panel.width,
                viewport_rows(panel.height) as u16,
            )
        }
    }

    /// The first line.
    pub fn header(&self, list: &ThreadList) -> (l: Line)
        ensures
            l@ == header_line(list@),
    {
        let scope = match list.scope {
            ThreadBrowserScope::Project => "thread-browser-project",
            ThreadBrowserScope::Workspace => "thread-browser-workspace",
            ThreadBrowserScope::All => "thread-browser-all",
        };
        let key = if list.has_more {
            "thread-browser-scope-loaded"
        } else {
            "thread-browser-scope-count"
        };
        Line::of(
            Piece::msg2(
                key,
                Arg::message("scope", scope),
                Arg::number("count", list.threads.len() as u64),
                Style::bold(Color::Primary),
            ),
        )
    }

    /// The list.
    pub fn list_lines(
        &self,
        list: &ThreadList,
        error: Option<&str>,
        panel_width: u16,
        labels: &Labels,
    ) -> (d: Doc)
        requires
            labels.messages@.len() == list.threads@.len(),
        ensures
            d@ == list_lines(
                list@.threads,
                self@.cursor,
                match error {
                    Some(e) => Some(e@),
                    None => None,
                },
                panel_width,
                labels.untitled@,
                text_views(labels.messages@),
            ),
    {
        let ghost ts = list@.threads;
        let ghost messages = text_views(labels.messages@);
        let mut d = Doc::new();
        match error {
            Some(e) => {
                d.line(Piece::lit(e, Style::fg(Color::Warning)));
                return d;
            },
            None => {},
        }
        if list.threads.len() == 0 {
            d.line(Piece::msg("thread-browser-empty", Style::fg(Color::Muted)));
            return d;
        }
        let mut i: usize = 0;
        while i < list.threads.len()
            invariant
                i <= list.threads@.len(),
                ts == list@.threads,
                messages == text_views(labels.messages@),
                labels.messages@.len() == list.threads@.len(),
                d@ == rows(
                    ts,
                    self@.cursor,
                    panel_width,
                    labels.untitled@,
                    messages,
                    i as int,
                ),
            decreases list.threads.len() - i,
        {
            assert(ts[i as int] == list.threads@[i as int]@);
            assert(messages[i as int] == labels.messages@[i as int]@);
            d.push(
                thread_row(
                    &list.threads[i],
                    i == self.cursor,
                    panel_width,
                    labels.untitled.as_str(),
                    labels.messages[i].as_str(),
                ),
            );
            i = i + 1;
        }
        d
    }

    /// The lines about the selected thread.
    pub fn details(&self, list: &ThreadList, panel_width: u16, labels: &Labels) -> (d: Doc)
        ensures
            d@ == details_lines(
                list@.threads,
                self@.cursor,
                panel_width,
                labels.untitled@,
                labels.selected_empty@,
                labels.path_empty@,
            ),
    {
        let mut d = Doc::new();
        if self.cursor < list.threads.len() {
            let t = &list.threads[self.cursor];
            assert(list@.threads[self.cursor as int] == t@);
            let width: usize = panel_width as usize;
            let title = truncate_text(
                title_text(t, labels.untitled.as_str()).as_str(),
                width.saturating_sub(str_width(labels.selected_empty.as_str())),
            );
            let id = cat(head(t.id.as_str(), 8).as_str(), "…");
            let path = path_tail(
                t.cwd.as_str(),
                width.saturating_sub(str_width(labels.path_empty.as_str())).saturating_sub(
                    str_width(id.as_str()),
                ),
            );
            d.line(
                Piece::msg_text(
                    "thread-browser-selected",
                    "title",
                    title.as_str(),
                    Style::fg(Color::Plain),
                ),
            );
            d.line(
                Piece::msg2(
                    "thread-browser-selected-path",
                    Arg::text("path", path.as_str()),
                    Arg::text("id", id.as_str()),
                    Style::fg(Color::Plain),
                ),
            );
        } else {
            d.line(Piece::lit("", Style::fg(Color::Plain)));
            d.line(Piece::lit("", Style::fg(Color::Plain)));
        }
        assert(d@ =~= details_lines(
            list@.threads,
            self@.cursor,
            panel_width,
            labels.untitled@,
            labels.selected_empty@,
            labels.path_empty@,
        ));
        d
    }

    /// The last line.
    pub fn footer(&self, panel_width: u16) -> (l: Line)
        ensures
            l@ == footer_line(self@.confirm_delete is Some, panel_width),
    {
        if self.confirm_delete.is_some() {
            Line::of(Piece::msg("panel-threads-confirm-hint", Style::fg(Color::Warning)))
        } else if panel_width < 80 {
            Line::of(Piece::msg("thread-browser-actions-compact", Style::italic(Color::Muted)))
        } else {
            Line::of(Piece::msg("thread-browser-actions", Style::italic(Color::Muted)))
        }
    }
}

/// The document of a preview.
pub fn preview_document(preview: &Preview, id: &str) -> (d: Doc)
    ensures
        d@ == preview_lines(*preview, id@),
{
    let mut d = Doc::new();
    d.blank();
    match preview {
        Preview::Loading => {
            d.line(Piece::msg("thread-history-loading", Style::fg(Color::Plain)));
        },
        Preview::Failed(e) => {
            d.line(Piece::lit(e.as_str(), Style::fg(Color::Plain)));
        },
        Preview::Loaded { id: of, text } => {
            if same(of.as_str(), id) {
                let lines = split_lines(text.as_str());
                let ghost all = plain_lines(lines_of(text@));
                let mut i: usize = 0;
                while i < lines.len()
                    invariant
                        i <= lines@.len(),
                        text_views(lines@) == lines_of(text@),
                        all == plain_lines(lines_of(text@)),
                        d@ == seq![Seq::<PieceV>::empty()] + all.take(i as int),
                    decreases lines.len() - i,
                {
                    assert(lines_of(text@)[i as int] == lines@[i as int]@);
                    d.line(Piece::lit(lines[i].as_str(), Style::fg(Color::Plain)));
                    i = i + 1;
                    assert(d@ =~= seq![Seq::<PieceV>::empty()] + all.take(i as int));
                }
                assert(all.take(i as int) =~= all);
            }
        },
        Preview::Nothing => {},
    }
    assert(d@ =~= preview_lines(*preview, id@));
    d
}

} // verus!
