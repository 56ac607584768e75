//! What the plugin panel shows.

use crate::doc::{blank, bold, fg, lit, msg, msg_num, msg_text, on, Back, Color, Doc, Line, Piece,
    PieceV, Style};
use crate::list_nav::{scroll_start_for_selected, window_start};
use crate::panels::plugin::discover::{item_refs, SearchState, StatusV};
use crate::panels::plugin::panel_handler::{at, before, ConfirmAction, PanelV, PluginPanel};
use crate::panels::plugin::types::{action_key, action_label, action_list, actions_of,
    discover_action_key, discover_actions, entries_view, items_view, plugins_view,
    DiscoverDetailAction, EntryV, ItemV, MsEntry, MsStatus, PluginAction, PluginSearchResultItem,
    PluginSummary, PluginV, PluginViewTab, VISIBLE_ITEMS};
use crate::text::{cat, cat3, cat4, decimal, decimal_text, head, head_spec, opt_view, or_empty, same};
use vstd::prelude::*;

verus! {

/// A line of the panel.
pub type LineV = Seq<PieceV>;

/// The mark in front of a row.
pub open spec fn cursor_mark(selected: bool) -> Seq<char> {
    if selected {
        ">"@
    } else {
        " "@
    }
}

fn mark(selected: bool) -> (r: &'static str)
    ensures
        r@ == cursor_mark(selected),
{
    if selected {
        ">"
    } else {
        " "
    }
}

/// The style of a row's text.
pub open spec fn row_style(selected: bool) -> Style {
    if selected {
        bold(Color::Title)
    } else {
        fg(Color::Primary)
    }
}

fn style_of_row(selected: bool) -> (s: Style)
    ensures
        s == row_style(selected),
{
    if selected {
        Style::bold(Color::Title)
    } else {
        Style::fg(Color::Primary)
    }
}

// ── Installed ──────────────────────────────────────────────────────────────

/// The state of a plugin as a sign.
pub open spec fn plugin_icon(p: PluginV) -> (Seq<char>, Color) {
    if p.load_error is Some {
        ("✗"@, Color::Error)
    } else if !p.enabled {
        ("◯"@, Color::Muted)
    } else {
        ("✓"@, Color::Success)
    }
}

/// A line with one more capability: its label and how many there are. Those that
/// a plugin lacks are left out.
pub open spec fn with_extra(l: LineV, key: Seq<char>, n: nat) -> LineV {
    if n == 0 {
        l
    } else {
        let started = if l.len() == 0 {
            l
        } else {
            l.push(lit(" · "@, fg(Color::Dim)))
        };
        started.push(msg(key, fg(Color::Dim))).push(lit(":"@ + decimal(n), fg(Color::Dim)))
    }
}

/// What a plugin brings.
pub open spec fn extras(p: PluginV) -> LineV {
    with_extra(
        with_extra(
            with_extra(
                with_extra(blank(), "panel-plugin-field-skills"@, p.skills),
                "panel-plugin-field-commands"@,
                p.commands,
            ),
            "panel-plugin-field-agents"@,
            p.agents,
        ),
        "panel-plugin-field-mcp"@,
        p.mcp,
    )
}

/// The version of an installed plugin.
pub open spec fn version_piece(p: PluginV) -> PieceV {
    if p.version.len() == 0 {
        msg("panel-plugin-version-unknown"@, fg(Color::Muted))
    } else {
        lit(p.version, fg(Color::Muted))
    }
}

/// The lines of an installed plugin.
pub open spec fn installed_block(p: PluginV, selected: bool) -> Seq<LineV> {
    seq![
        seq![
            lit(" "@ + cursor_mark(selected) + " "@, fg(Color::Title)),
            lit(plugin_icon(p).0 + " "@, fg(plugin_icon(p).1)),
            lit(p.name, row_style(selected)),
            lit(" v"@, fg(Color::Muted)),
            version_piece(p),
        ],
        if p.description.len() > 0 {
            seq![lit("     "@ + p.description, fg(Color::Dim))]
        } else {
            blank()
        },
        seq![lit("     "@ + head_spec(p.root, 72), fg(Color::Dim))],
        seq![lit("     "@, fg(Color::Dim))] + (if extras(p).len() == 0 {
            seq![lit("—"@, fg(Color::Dim))]
        } else {
            extras(p)
        }),
        blank(),
    ]
}

/// The lines of the plugins from one index to another.
pub open spec fn installed_rows(plugins: Seq<PluginV>, sel: int, from: int, to: int) -> Seq<LineV>
    decreases to - from,
{
    if to <= from {
        Seq::empty()
    } else {
        installed_rows(plugins, sel, from, to - 1) + installed_block(
            plugins[to - 1],
            to - 1 == sel,
        )
    }
}

/// The end of the window that starts at `start`.
pub open spec fn window_end(start: int, visible: int, count: int) -> int {
    if start + visible < count {
        start + visible
    } else {
        count
    }
}

/// The list of installed plugins.
pub open spec fn installed_view(plugins: Seq<PluginV>, sel: int, start: int, visible: int) -> Seq<
    LineV,
> {
    let top = seq![
        seq![msg_num("panel-plugin-stats"@, "count"@, plugins.len(), bold(Color::Primary))],
        blank(),
    ];
    if plugins.len() == 0 {
        top + seq![
            seq![msg("panel-plugin-empty"@, fg(Color::Muted))],
            seq![msg("panel-plugin-empty-hint"@, fg(Color::Muted))],
        ]
    } else {
        top + installed_rows(plugins, sel, start, window_end(start, visible, plugins.len() as int))
    }
}

fn add_extra(l: &mut Line, key: &str, n: usize)
    ensures
        final(l)@ == with_extra(old(l)@, key@, n as nat),
{
    if n == 0 {
        return ;
    }
    if l.pieces.len() > 0 {
        l.push(Piece::lit(" · ", Style::fg(Color::Dim)));
    }
    l.push(Piece::msg(key, Style::fg(Color::Dim)));
    l.push(Piece::text(cat(":", decimal_text(n as u64).as_str()), Style::fg(Color::Dim)));
}

fn show_installed_block(p: &PluginSummary, selected: bool) -> (d: Doc)
    ensures
        d@ == installed_block(p@, selected),
{
    let mut d = Doc::new();
    let (icon, color) = if p.load_error.is_some() {
        ("✗", Color::Error)
    } else if !p.enabled {
        ("◯", Color::Muted)
    } else {
        ("✓", Color::Success)
    };
    let mut l = Line::new();
    l.push(Piece::text(cat3(" ", mark(selected), " "), Style::fg(Color::Title)));
    l.push(Piece::text(cat(icon, " "), Style::fg(color)));
    l.push(Piece::lit(p.name.as_str(), style_of_row(selected)));
    l.push(Piece::lit(" v", Style::fg(Color::Muted)));
    if p.version.as_str().is_empty() {
        l.push(Piece::msg("panel-plugin-version-unknown", Style::fg(Color::Muted)));
    } else {
        l.push(Piece::lit(p.version.as_str(), Style::fg(Color::Muted)));
    }
    assert(l@ =~= installed_block(p@, selected)[0]);
    d.push(l);
    if !p.description.as_str().is_empty() {
        d.line(Piece::text(cat("     ", p.description.as_str()), Style::fg(Color::Dim)));
    } else {
        d.blank();
    }
    let root = head(p.root.as_str(), 72);
    d.line(Piece::text(cat("     ", root.as_str()), Style::fg(Color::Dim)));
    let mut e = Line::new();
    add_extra(&mut e, "panel-plugin-field-skills", p.skills_count);
    add_extra(&mut e, "panel-plugin-field-commands", p.commands_count);
    add_extra(&mut e, "panel-plugin-field-agents", p.agents_count);
    add_extra(&mut e, "panel-plugin-field-mcp", p.mcp_count);
    assert(e@ == extras(p@));
    let mut l = Line::new();
    l.push(Piece::lit("     ", Style::fg(Color::Dim)));
    if e.pieces.len() == 0 {
        l.push(Piece::lit("—", Style::fg(Color::Dim)));
    } else {
        l.extend(e);
    }
    assert(l@ =~= installed_block(p@, selected)[3]);
    d.push(l);
    d.blank();
    assert(d@ =~= installed_block(p@, selected));
    d
}

/// The list of installed plugins.
pub fn render_installed(
    plugins: &Vec<PluginSummary>,
    sel: usize,
    scroll_start: usize,
    visible: usize,
) -> (d: Doc)
    ensures
        d@ == installed_view(
            plugins_view(plugins@),
            sel as int,
            scroll_start as int,
            visible as int,
        ),
{
    let ghost all = plugins_view(plugins@);
    let mut d = Doc::new();
    d.line(
        Piece::msg_num(
            "panel-plugin-stats",
            "count",
            plugins.len() as u64,
            Style::bold(Color::Primary),
        ),
    );
    d.blank();
    let ghost top = d@;
    if plugins.len() == 0 {
        d.line(Piece::msg("panel-plugin-empty", Style::fg(Color::Muted)));
        d.line(Piece::msg("panel-plugin-empty-hint", Style::fg(Color::Muted)));
        assert(d@ =~= installed_view(all, sel as int, scroll_start as int, visible as int));
        return d;
    }
    let end: usize = if scroll_start < plugins.len() && visible < plugins.len() - scroll_start {
        scroll_start + visible
    } else {
        plugins.len()
    };
    let ghost stop = window_end(scroll_start as int, visible as int, all.len() as int);
    assert(end == stop);
    let mut i: usize = scroll_start;
    assert(d@ =~= top + installed_rows(all, sel as int, scroll_start as int, i as int));
    while i < end
        invariant
            scroll_start <= i,
            i <= end || end <= scroll_start,
            i > scroll_start ==> i <= end,
            end <= plugins@.len(),
            all == plugins_view(plugins@),
            d@ == top + installed_rows(all, sel as int, scroll_start as int, i as int),
        decreases end - i,
    {
        let b = show_installed_block(&plugins[i], i == sel);
        assert(all[i as int] == plugins@[i as int]@);
        let ghost prior = installed_rows(all, sel as int, scroll_start as int, i as int);
        d.extend(b);
        assert(d@ =~= top + (prior + installed_block(all[i as int], i == sel)));
        i = i + 1;
    }
    assert(installed_rows(all, sel as int, scroll_start as int, end as int) == installed_rows(
        all,
        sel as int,
        scroll_start as int,
        i as int,
    ));
    assert(top =~= seq![
        seq![msg_num("panel-plugin-stats"@, "count"@, all.len(), bold(Color::Primary))],
        blank(),
    ]);
    d
}

// ── Details of an installed plugin ─────────────────────────────────────────

/// The state of a plugin in words.
pub open spec fn status_line(p: PluginV) -> LineV {
    if p.load_error is Some {
        seq![
            lit("  ✗ "@, fg(Color::Error)),
            msg("panel-plugin-detail-error"@, fg(Color::Error)),
        ]
    } else if !p.enabled {
        seq![
            lit("  ◯ "@, fg(Color::Muted)),
            msg("panel-plugin-status-disabled"@, fg(Color::Muted)),
        ]
    } else {
        seq![
            lit("  ✓ "@, fg(Color::Success)),
            msg("panel-plugin-status-enabled"@, fg(Color::Success)),
        ]
    }
}

/// A label and its value.
pub open spec fn field_line(key: Seq<char>, value: Seq<char>) -> LineV {
    seq![
        lit("    "@, fg(Color::Muted)),
        msg(key, fg(Color::Muted)),
        lit(": "@, fg(Color::Muted)),
        lit(value, fg(Color::Dim)),
    ]
}

fn show_field(key: &str, value: &str) -> (l: Line)
    ensures
        l@ == field_line(key@, value@),
{
    let mut l = Line::new();
    l.push(Piece::lit("    ", Style::fg(Color::Muted)));
    l.push(Piece::msg(key, Style::fg(Color::Muted)));
    l.push(Piece::lit(": ", Style::fg(Color::Muted)));
    l.push(Piece::lit(value, Style::fg(Color::Dim)));
    assert(l@ =~= field_line(key@, value@));
    l
}

/// A count in a field, a dash for none.
pub open spec fn count_text(n: nat) -> Seq<char> {
    if n > 0 {
        decimal(n)
    } else {
        "—"@
    }
}

fn show_count(n: usize) -> (r: String)
    ensures
        r@ == count_text(n as nat),
{
    if n > 0 {
        decimal_text(n as u64)
    } else {
        "—".to_owned()
    }
}

/// What stands for an absent text.
pub open spec fn or_dash(t: Option<Seq<char>>) -> Seq<char> {
    match t {
        Some(s) => s,
        None => "—"@,
    }
}

/// An entry of a menu.
pub open spec fn menu_line(indent: Seq<char>, key: Seq<char>, selected: bool) -> LineV {
    seq![
        lit(indent + cursor_mark(selected) + " "@, fg(Color::Title)),
        lit("    "@, row_style(selected)),
        msg(key, row_style(selected)),
    ]
}

fn show_menu_line(indent: &str, key: &str, selected: bool) -> (l: Line)
    ensures
        l@ == menu_line(indent@, key@, selected),
{
    Line::of3(
        Piece::text(cat3(indent, mark(selected), " "), Style::fg(Color::Title)),
        Piece::lit("    ", style_of_row(selected)),
        Piece::msg(key, style_of_row(selected)),
    )
}

/// The menu of a plugin's actions, up to an index.
pub open spec fn action_rows(actions: Seq<PluginAction>, chosen: int, to: int) -> Seq<LineV>
    decreases to,
{
    if to <= 0 {
        Seq::empty()
    } else {
        action_rows(actions, chosen, to - 1).push(
            menu_line("  "@, action_key(actions[to - 1]), to - 1 == chosen),
        )
    }
}

/// The message key of a question.
pub open spec fn confirm_key(c: ConfirmAction) -> Seq<char> {
    match c {
        ConfirmAction::Uninstall => "panel-plugin-confirm-uninstall"@,
        ConfirmAction::DeleteMarketplace => "panel-plugin-confirm-delete-mp"@,
    }
}

/// The details of an installed plugin.
pub open spec fn detail_view(p: PluginV, chosen: int, confirm: Option<ConfirmAction>) -> Seq<LineV> {
    let top = seq![
        seq![msg_text("panel-plugin-detail-title"@, "name"@, p.name, bold(Color::Primary))],
        blank(),
        status_line(p),
        blank(),
        field_line("panel-plugin-detail-marketplace"@, p.marketplace),
        field_line("panel-plugin-detail-author"@, or_dash(p.author)),
        field_line("panel-plugin-detail-path"@, p.root),
        field_line("panel-plugin-detail-scope"@, p.scope),
        blank(),
        field_line("panel-plugin-field-skills"@, count_text(p.skills)),
        field_line("panel-plugin-field-commands"@, count_text(p.commands)),
        field_line("panel-plugin-field-agents"@, count_text(p.agents)),
        field_line("panel-plugin-field-mcp"@, count_text(p.mcp)),
    ];
    let error = match p.load_error {
        Some(e) => seq![blank(), seq![lit("    "@ + head_spec(e, 72), fg(Color::Error))]],
        None => Seq::empty(),
    };
    let title = seq![
        blank(),
        seq![
            lit("  "@, bold(Color::Primary)),
            msg("panel-plugin-detail-actions"@, bold(Color::Primary)),
        ],
        blank(),
    ];
    let question = match confirm {
        Some(c) => seq![
            seq![lit("  "@, fg(Color::Warning)), msg(confirm_key(c), fg(Color::Warning))],
            blank(),
        ],
        None => Seq::empty(),
    };
    top + error + title + question + action_rows(actions_of(p.enabled), chosen, 4)
}

fn show_actions(enabled: bool, chosen: usize) -> (d: Doc)
    ensures
        d@ == action_rows(actions_of(enabled), chosen as int, 4),
{
    let actions = action_list(enabled);
    let mut d = Doc::new();
    let mut i: usize = 0;
    assert(d@ =~= action_rows(actions@, chosen as int, 0));
    while i < 4
        invariant
            i <= 4,
            actions@ == actions_of(enabled),
            d@ == action_rows(actions@, chosen as int, i as int),
        decreases 4 - i,
    {
        d.push(show_menu_line("  ", action_label(actions[i]), i == chosen));
        i = i + 1;
    }
    d
}

/// The details of an installed plugin.
pub fn render_detail(p: &PluginSummary, action_index: usize, confirm: Option<ConfirmAction>) -> (d:
    Doc)
    ensures
        d@ == detail_view(p@, action_index as int, confirm),
{
    let mut d = Doc::new();
    d.line(
        Piece::msg_text(
            "panel-plugin-detail-title",
            "name",
            p.name.as_str(),
            Style::bold(Color::Primary),
        ),
    );
    d.blank();
    if p.load_error.is_some() {
        d.push(
            Line::of2(
                Piece::lit("  ✗ ", Style::fg(Color::Error)),
                Piece::msg("panel-plugin-detail-error", Style::fg(Color::Error)),
            ),
        );
    } else if !p.enabled {
        d.push(
            Line::of2(
                Piece::lit("  ◯ ", Style::fg(Color::Muted)),
                Piece::msg("panel-plugin-status-disabled", Style::fg(Color::Muted)),
            ),
        );
    } else {
        d.push(
            Line::of2(
                Piece::lit("  ✓ ", Style::fg(Color::Success)),
                Piece::msg("panel-plugin-status-enabled", Style::fg(Color::Success)),
            ),
        );
    }
    d.blank();
    let author = match &p.author {
        Some(a) => a.as_str(),
        None => "—",
    };
    d.push(show_field("panel-plugin-detail-marketplace", p.marketplace.as_str()));
    d.push(show_field("panel-plugin-detail-author", author));
    d.push(show_field("panel-plugin-detail-path", p.root.as_str()));
    d.push(show_field("panel-plugin-detail-scope", p.install_scope.as_str()));
    d.blank();
    d.push(show_field("panel-plugin-field-skills", show_count(p.skills_count).as_str()));
    d.push(show_field("panel-plugin-field-commands", show_count(p.commands_count).as_str()));
    d.push(show_field("panel-plugin-field-agents", show_count(p.agents_count).as_str()));
    d.push(show_field("panel-plugin-field-mcp", show_count(p.mcp_count).as_str()));
    match &p.load_error {
        Some(e) => {
            d.blank();
            let text = head(e.as_str(), 72);
            d.line(Piece::text(cat("    ", text.as_str()), Style::fg(Color::Error)));
        },
        None => {},
    }
    d.blank();
    d.push(
        Line::of2(
            Piece::lit("  ", Style::bold(Color::Primary)),
            Piece::msg("panel-plugin-detail-actions", Style::bold(Color::Primary)),
        ),
    );
    d.blank();
    match confirm {
        Some(c) => {
            let key = match c {
                ConfirmAction::Uninstall => "panel-plugin-confirm-uninstall",
                ConfirmAction::DeleteMarketplace => "panel-plugin-confirm-delete-mp",
            };
            d.push(
                Line::of2(
                    Piece::lit("  ", Style::fg(Color::Warning)),
                    Piece::msg(key, Style::fg(Color::Warning)),
                ),
            );
            d.blank();
        },
        None => {},
    }
    d.extend(show_actions(p.enabled, action_index));
    assert(d@ =~= detail_view(p@, action_index as int, confirm));
    d
}

// ── The catalog ────────────────────────────────────────────────────────────

/// A plugin of this name is installed.
pub open spec fn has_name(plugins: Seq<PluginV>, name: Seq<char>) -> bool {
    exists|i: int| 0 <= i < plugins.len() && (#[trigger] plugins[i]).name == name
}

/// The lines of a plugin of the catalog.
pub open spec fn catalog_block(item: ItemV, selected: bool, installed: bool) -> Seq<LineV> {
    seq![
        seq![
            lit(cursor_mark(selected) + " "@, fg(Color::Title)),
            lit(item.name + " v"@ + item.version + "  "@, row_style(selected)),
            lit(
                "("@ + item.marketplace + ")"@ + (if installed {
                    " ✓"@
                } else {
                    ""@
                }),
                fg(Color::Dim),
            ),
        ],
        seq![
            lit(
                "    "@ + (if item.description.len() == 0 {
                    "—"@
                } else {
                    head_spec(item.description, 60)
                }),
                fg(Color::Dim),
            ),
        ],
        blank(),
    ]
}

/// The lines of the catalog's plugins from one index to another.
pub open spec fn catalog_rows(
    items: Seq<ItemV>,
    plugins: Seq<PluginV>,
    sel: int,
    from: int,
    to: int,
) -> Seq<LineV>
    decreases to - from,
{
    if to <= from {
        Seq::empty()
    } else {
        catalog_rows(items, plugins, sel, from, to - 1) + catalog_block(
            items[to - 1],
            to - 1 == sel,
            has_name(plugins, items[to - 1].name),
        )
    }
}

/// The search field.
pub open spec fn field_row(text: Seq<char>, show_cursor: bool) -> LineV {
    let typed = lit(
        "  > "@ + text + (if show_cursor {
            "▌"@
        } else {
            " "@
        }),
        fg(Color::Muted),
    );
    if text.len() == 0 {
        seq![typed, msg("panel-plugin-discover-input"@, fg(Color::Muted))]
    } else {
        seq![typed]
    }
}

/// The catalog: the search field, and below it how the search stands or what was
/// found.
pub open spec fn catalog_view(
    text: Seq<char>,
    show_cursor: bool,
    status: StatusV,
    items: Seq<ItemV>,
    plugins: Seq<PluginV>,
    sel: int,
    start: int,
    visible: int,
) -> Seq<LineV> {
    let top = seq![
        seq![lit("  Discover"@, bold(Color::Primary))],
        blank(),
        field_row(text, show_cursor),
        blank(),
    ];
    match status {
        StatusV::Loading => top.push(
            seq![msg("panel-plugin-search-loading"@, fg(Color::Muted))],
        ),
        StatusV::Error(e) => top.push(
            seq![msg_text("panel-plugin-search-error"@, "error"@, e, fg(Color::Error))],
        ),
        StatusV::Idle => if items.len() > 0 {
            top + catalog_rows(
                items,
                plugins,
                sel,
                start,
                window_end(start, visible, items.len() as int),
            )
        } else if text.len() == 0 {
            top.push(seq![msg("panel-plugin-discover-empty"@, fg(Color::Muted))])
        } else {
            top.push(seq![msg("panel-plugin-search-no-results"@, fg(Color::Muted))])
        },
    }
}

fn name_installed(plugins: &Vec<PluginSummary>, name: &str) -> (b: bool)
    ensures
        b == has_name(plugins_view(plugins@), name@),
{
    let ghost all = plugins_view(plugins@);
    let mut i: usize = 0;
    while i < plugins.len()
        invariant
            i <= plugins@.len(),
            all == plugins_view(plugins@),
            forall|j: int| 0 <= j < i ==> (#[trigger] all[j]).name != name@,
        decreases plugins.len() - i,
    {
        if same(plugins[i].name.as_str(), name) {
            assert(all[i as int].name == name@);
            return true;
        }
        i = i + 1;
    }
    false
}

fn show_catalog_block(item: &PluginSearchResultItem, selected: bool, installed: bool) -> (d: Doc)
    ensures
        d@ == catalog_block(item@, selected, installed),
{
    let mut d = Doc::new();
    let sign = if installed {
        " ✓"
    } else {
        ""
    };
    d.push(
        Line::of3(
            Piece::text(cat(mark(selected), " "), Style::fg(Color::Title)),
            Piece::text(
                cat4(item.name.as_str(), " v", item.version.as_str(), "  "),
                style_of_row(selected),
            ),
            Piece::text(cat4("(", item.marketplace.as_str(), ")", sign), Style::fg(Color::Dim)),
        ),
    );
    let text = if item.description.as_str().is_empty() {
        "—".to_owned()
    } else {
        head(item.description.as_str(), 60)
    };
    d.line(Piece::text(cat("    ", text.as_str()), Style::fg(Color::Dim)));
    d.blank();
    assert(d@ =~= catalog_block(item@, selected, installed));
    d
}

/// The catalog.
pub fn render_discover_list(
    search_text: &str,
    show_cursor: bool,
    search_state: &SearchState,
    items: &Vec<&PluginSearchResultItem>,
    plugins: &Vec<PluginSummary>,
    sel: usize,
    scroll_start: usize,
    visible: usize,
) -> (d: Doc)
    ensures
        d@ == catalog_view(
            search_text@,
            show_cursor,
            search_state@,
            item_refs(items@),
            plugins_view(plugins@),
            sel as int,
            scroll_start as int,
            visible as int,
        ),
{
    let ghost all = item_refs(items@);
    let ghost have = plugins_view(plugins@);
    let mut d = Doc::new();
    d.line(Piece::lit("  Discover", Style::bold(Color::Primary)));
    d.blank();
    let caret = if show_cursor {
        "▌"
    } else {
        " "
    };
    let typed = Piece::text(cat3("  > ", search_text, caret), Style::fg(Color::Muted));
    if search_text.is_empty() {
        d.push(
            Line::of2(typed, Piece::msg("panel-plugin-discover-input", Style::fg(Color::Muted))),
        );
    } else {
        d.line(typed);
    }
    d.blank();
    let ghost top = d@;
    assert(top =~= seq![
        seq![lit("  Discover"@, bold(Color::Primary))],
        blank(),
        field_row(search_text@, show_cursor),
        blank(),
    ]);
    match search_state {
        SearchState::Loading => {
            d.line(Piece::msg("panel-plugin-search-loading", Style::fg(Color::Muted)));
            return d;
        },
        SearchState::Error(e) => {
            d.line(
                Piece::msg_text(
                    "panel-plugin-search-error",
                    "error",
                    e.as_str(),
                    Style::fg(Color::Error),
                ),
            );
            return d;
        },
        SearchState::Idle => {},
    }
    if items.len() == 0 {
        if search_text.is_empty() {
            d.line(Piece::msg("panel-plugin-discover-empty", Style::fg(Color::Muted)));
        } else {
            d.line(Piece::msg("panel-plugin-search-no-results", Style::fg(Color::Muted)));
        }
        return d;
    }
    let end: usize = if scroll_start < items.len() && visible < items.len() - scroll_start {
        scroll_start + visible
    } else {
        items.len()
    };
    let mut i: usize = scroll_start;
    assert(d@ =~= top + catalog_rows(all, have, sel as int, scroll_start as int, i as int));
    while i < end
        invariant
            scroll_start <= i,
            i > scroll_start ==> i <= end,
            end <= items@.len(),
            all == item_refs(items@),
            have == plugins_view(plugins@),
            d@ == top + catalog_rows(all, have, sel as int, scroll_start as int, i as int),
        decreases end - i,
    {
        let item = items[i];
        assert(all[i as int] == item@);
        let installed = name_installed(plugins, item.name.as_str());
        let b = show_catalog_block(item, i == sel, installed);
        let ghost prior = catalog_rows(all, have, sel as int, scroll_start as int, i as int);
        let ghost block = b@;
        d.extend(b);
        assert(d@ =~= top + (prior + block));
        i = i + 1;
    }
    assert(catalog_rows(all, have, sel as int, scroll_start as int, end as int) == catalog_rows(
        all,
        have,
        sel as int,
        scroll_start as int,
        i as int,
    ));
    d
}

/// The menu of the catalog detail, up to an index.
pub open spec fn discover_rows(chosen: int, to: int) -> Seq<LineV>
    decreases to,
{
    if to <= 0 {
        Seq::empty()
    } else {
        discover_rows(chosen, to - 1).push(
            menu_line(""@, discover_action_key(discover_actions()[to - 1]), to - 1 == chosen),
        )
    }
}

/// The details of a plugin of the catalog.
pub open spec fn discover_detail_view(item: ItemV, chosen: int) -> Seq<LineV> {
    seq![
        seq![msg_text("panel-plugin-detail-title"@, "name"@, item.name, bold(Color::Primary))],
        blank(),
        field_line("panel-plugin-discover-field-version"@, head_spec(item.version, 60)),
        field_line("panel-plugin-discover-field-marketplace"@, head_spec(item.marketplace, 60)),
        field_line("panel-plugin-discover-field-author"@, head_spec(or_dash(item.author), 60)),
        field_line(
            "panel-plugin-discover-field-description"@,
            head_spec(
                if item.description.len() == 0 {
                    "—"@
                } else {
                    item.description
                },
                60,
            ),
        ),
        blank(),
        seq![
            lit("  "@, bold(Color::Primary)),
            msg("panel-plugin-detail-actions"@, bold(Color::Primary)),
        ],
        blank(),
    ] + discover_rows(chosen, 3)
}

/// The details of a plugin of the catalog.
pub fn render_discover_detail(item: &PluginSearchResultItem, action_cursor: usize) -> (d: Doc)
    ensures
        d@ == discover_detail_view(item@, action_cursor as int),
{
    let mut d = Doc::new();
    d.line(
        Piece::msg_text(
            "panel-plugin-detail-title",
            "name",
            item.name.as_str(),
            Style::bold(Color::Primary),
        ),
    );
    d.blank();
    d.push(
        show_field("panel-plugin-discover-field-version", head(item.version.as_str(), 60).as_str()),
    );
    d.push(
        show_field(
            "panel-plugin-discover-field-marketplace",
            head(item.marketplace.as_str(), 60).as_str(),
        ),
    );
    let author = match &item.author {
        Some(a) => a.as_str(),
        None => "—",
    };
    d.push(show_field("panel-plugin-discover-field-author", head(author, 60).as_str()));
    let description = if item.description.as_str().is_empty() {
        "—"
    } else {
        item.description.as_str()
    };
    d.push(show_field("panel-plugin-discover-field-description", head(description, 60).as_str()));
    d.blank();
    d.push(
        Line::of2(
            Piece::lit("  ", Style::bold(Color::Primary)),
            Piece::msg("panel-plugin-detail-actions", Style::bold(Color::Primary)),
        ),
    );
    d.blank();
    let ghost top = d@;
    d.push(show_menu_line("", DiscoverDetailAction::InstallUser.label(), 0 == action_cursor));
    d.push(show_menu_line("", DiscoverDetailAction::InstallProject.label(), 1 == action_cursor));
    d.push(show_menu_line("", DiscoverDetailAction::BackToList.label(), 2 == action_cursor));
    proof {
        reveal_with_fuel(discover_rows, 4);
        assert(d@ =~= top + discover_rows(action_cursor as int, 3));
    }
    assert(d@ =~= discover_detail_view(item@, action_cursor as int));
    d
}

// ── Marketplaces ───────────────────────────────────────────────────────────

/// The sign of a marketplace's state, its colour and its name.
pub open spec fn status_sign(s: MsStatus) -> (Seq<char>, Color, Seq<char>) {
    match s {
        MsStatus::Fresh => ("●"@, Color::Success, "fresh"@),
        MsStatus::Cached => ("●"@, Color::Success, "cached"@),
        MsStatus::Fetching => ("◌"@, Color::Warning, "fetching"@),
        MsStatus::Stale => ("○"@, Color::Muted, "stale"@),
        MsStatus::Failed => ("✗"@, Color::Error, "failed"@),
        MsStatus::NotFound => ("○"@, Color::Muted, "not fetched"@),
    }
}

fn sign_of_status(s: MsStatus) -> (r: (&'static str, Color, &'static str))
    ensures
        (r.0@, r.1, r.2@) == status_sign(s),
{
    match s {
        MsStatus::Fresh => ("●", Color::Success, "fresh"),
        MsStatus::Cached => ("●", Color::Success, "cached"),
        MsStatus::Fetching => ("◌", Color::Warning, "fetching"),
        MsStatus::Stale => ("○", Color::Muted, "stale"),
        MsStatus::Failed => ("✗", Color::Error, "failed"),
        MsStatus::NotFound => ("○", Color::Muted, "not fetched"),
    }
}

/// The style of a marketplace row.
pub open spec fn market_style(selected: bool) -> Style {
    if selected {
        bold(Color::Primary)
    } else {
        fg(Color::Muted)
    }
}

fn style_of_market(selected: bool) -> (s: Style)
    ensures
        s == market_style(selected),
{
    if selected {
        Style::bold(Color::Primary)
    } else {
        Style::fg(Color::Muted)
    }
}

/// The figures of a marketplace.
pub open spec fn market_stats(e: EntryV) -> Seq<char> {
    "     "@ + (if e.auto_update {
        "auto"@
    } else {
        "manual"@
    }) + ": "@ + head_spec(e.source_label, 30) + "  |  plugins: "@ + decimal(e.plugin_count)
        + "  |  installed: "@ + decimal(e.installed_count)
}

/// The lines of a marketplace.
pub open spec fn market_block(e: EntryV, selected: bool) -> Seq<LineV> {
    seq![
        seq![
            lit(" "@ + cursor_mark(selected) + " "@, market_style(selected)),
            lit(status_sign(e.status).0 + " "@, fg(status_sign(e.status).1)),
            lit(e.name + " "@, market_style(selected)),
            lit("("@ + status_sign(e.status).2 + ")"@, fg(Color::Muted)),
        ],
        seq![lit(market_stats(e), fg(Color::Muted))],
        blank(),
    ]
}

/// The lines of the first marketplaces.
pub open spec fn market_rows(entries: Seq<EntryV>, sel: int, to: int) -> Seq<LineV>
    decreases to,
{
    if to <= 0 {
        Seq::empty()
    } else {
        market_rows(entries, sel, to - 1) + market_block(entries[to - 1], to == sel)
    }
}

/// The line that adds a marketplace, or the field for its address.
pub open spec fn add_rows(sel: int, active: bool, input: Seq<char>) -> Seq<LineV> {
    if active {
        seq![
            seq![
                lit("  > "@, bold(Color::Primary)),
                msg("panel-plugin-marketplace-add-label"@, bold(Color::Primary)),
                lit(" "@ + head_spec(input, 40), bold(Color::Primary)),
            ],
            seq![msg("panel-plugin-marketplace-add-url-hint"@, fg(Color::Muted))],
        ]
    } else {
        seq![
            seq![
                lit(" "@ + cursor_mark(sel == 0) + " "@, market_style(sel == 0)),
                lit("+ "@, market_style(sel == 0)),
                msg("panel-plugin-marketplaces-add"@, market_style(sel == 0)),
            ],
        ]
    }
}

/// The list of marketplaces, or the question whether to delete one.
pub open spec fn markets_lines(
    entries: Seq<EntryV>,
    sel: int,
    refreshing: bool,
    add_active: bool,
    add_input: Seq<char>,
    confirm: Option<ConfirmAction>,
    operation: Option<Seq<char>>,
) -> Seq<LineV> {
    if confirm == Some(ConfirmAction::DeleteMarketplace) {
        seq![
            seq![
                lit("  "@, fg(Color::Warning)),
                msg("panel-plugin-confirm-delete-mp"@, fg(Color::Warning)),
                lit(": "@ + or_empty(operation), fg(Color::Warning)),
            ],
            blank(),
        ]
    } else {
        seq![seq![lit("  Marketplaces"@, bold(Color::Primary))], blank()] + add_rows(
            sel,
            add_active,
            add_input,
        ) + seq![blank()] + market_rows(entries, sel, entries.len() as int) + seq![
            if refreshing {
                seq![msg("panel-plugin-marketplace-refreshing"@, fg(Color::Warning))]
            } else {
                seq![msg("panel-plugin-marketplace-hint-keys"@, fg(Color::Muted))]
            },
        ]
    }
}

fn show_market_block(e: &MsEntry, selected: bool) -> (d: Doc)
    ensures
        d@ == market_block(e@, selected),
{
    let (icon, color, name) = sign_of_status(e.status);
    let mut l = Line::new();
    l.push(Piece::text(cat3(" ", mark(selected), " "), style_of_market(selected)));
    l.push(Piece::text(cat(icon, " "), Style::fg(color)));
    l.push(Piece::text(cat(e.name.as_str(), " "), style_of_market(selected)));
    l.push(Piece::text(cat3("(", name, ")"), Style::fg(Color::Muted)));
    assert(l@ =~= market_block(e@, selected)[0]);
    let mut d = Doc::new();
    d.push(l);
    let mode = if e.auto_update {
        "auto"
    } else {
        "manual"
    };
    let source = head(e.source_label.as_str(), 30);
    let mut stats = cat4("     ", mode, ": ", source.as_str());
    stats.append("  |  plugins: ");
    stats.append(decimal_text(e.plugin_count as u64).as_str());
    stats.append("  |  installed: ");
    stats.append(decimal_text(e.installed_count as u64).as_str());
    d.line(Piece::text(stats, Style::fg(Color::Muted)));
    d.blank();
    assert(d@ =~= market_block(e@, selected));
    d
}

/// The list of marketplaces.
pub fn render_marketplaces(
    entries: &Vec<MsEntry>,
    sel: usize,
    refreshing: bool,
    add_active: bool,
    add_input: &str,
    confirm: Option<ConfirmAction>,
    operation: &Option<String>,
) -> (d: Doc)
    ensures
        d@ == markets_lines(
            entries_view(entries@),
            sel as int,
            refreshing,
            add_active,
            add_input@,
            confirm,
            opt_view(*operation),
        ),
{
    let ghost all = entries_view(entries@);
    let mut d = Doc::new();
    if confirm.is_some() {
        match confirm {
            Some(ConfirmAction::DeleteMarketplace) => {
                let name = match operation {
                    Some(n) => n.clone(),
                    None => String::new(),
                };
                assert(name@ == or_empty(opt_view(*operation)));
                d.push(
                    Line::of3(
                        Piece::lit("  ", Style::fg(Color::Warning)),
                        Piece::msg("panel-plugin-confirm-delete-mp", Style::fg(Color::Warning)),
                        Piece::text(cat(": ", name.as_str()), Style::fg(Color::Warning)),
                    ),
                );
                d.blank();
                assert(d@ =~= markets_lines(
                    all,
                    sel as int,
                    refreshing,
                    add_active,
                    add_input@,
                    confirm,
                    opt_view(*operation),
                ));
                return d;
            },
            _ => {},
        }
    }
    d.line(Piece::lit("  Marketplaces", Style::bold(Color::Primary)));
    d.blank();
    if add_active {
        let typed = head(add_input, 40);
        d.push(
            Line::of3(
                Piece::lit("  > ", Style::bold(Color::Primary)),
                Piece::msg("panel-plugin-marketplace-add-label", Style::bold(Color::Primary)),
                Piece::text(cat(" ", typed.as_str()), Style::bold(Color::Primary)),
            ),
        );
        d.line(Piece::msg("panel-plugin-marketplace-add-url-hint", Style::fg(Color::Muted)));
    } else {
        let style = style_of_market(sel == 0);
        d.push(
            Line::of3(
                Piece::text(cat3(" ", mark(sel == 0), " "), style),
                Piece::lit("+ ", style),
                Piece::msg("panel-plugin-marketplaces-add", style),
            ),
        );
    }
    d.blank();
    let ghost top = d@;
    assert(top =~= seq![seq![lit("  Marketplaces"@, bold(Color::Primary))], blank()] + add_rows(
        sel as int,
        add_active,
        add_input@,
    ) + seq![blank()]);
    let mut i: usize = 0;
    assert(d@ =~= top + market_rows(all, sel as int, 0));
    while i < entries.len()
        invariant
            i <= entries@.len(),
            all == entries_view(entries@),
            d@ == top + market_rows(all, sel as int, i as int),
        decreases entries.len() - i,
    {
        let b = show_market_block(&entries[i], sel > 0 && sel - 1 == i);
        assert(all[i as int] == entries@[i as int]@);
        let ghost prior = market_rows(all, sel as int, i as int);
        let ghost block = b@;
        d.extend(b);
        i = i + 1;
        assert(d@ =~= top + (prior + block));
    }
    if refreshing {
        d.line(Piece::msg("panel-plugin-marketplace-refreshing", Style::fg(Color::Warning)));
    } else {
        d.line(Piece::msg("panel-plugin-marketplace-hint-keys", Style::fg(Color::Muted)));
    }
    assert(d@ =~= markets_lines(
        all,
        sel as int,
        refreshing,
        add_active,
        add_input@,
        confirm,
        opt_view(*operation),
    ));
    d
}

// ── Errors ─────────────────────────────────────────────────────────────────

/// How many plugins failed to load.
pub open spec fn error_count(plugins: Seq<PluginV>) -> nat
    decreases plugins.len(),
{
    if plugins.len() == 0 {
        0
    } else {
        error_count(plugins.drop_last()) + if plugins.last().load_error is Some {
            1nat
        } else {
            0nat
        }
    }
}

/// The lines of the plugins that failed to load.
pub open spec fn error_rows(plugins: Seq<PluginV>) -> Seq<LineV>
    decreases plugins.len(),
{
    if plugins.len() == 0 {
        Seq::empty()
    } else {
        let p = plugins.last();
        match p.load_error {
            Some(e) => error_rows(plugins.drop_last()) + seq![
                seq![lit("  ✗ "@ + p.name + " v"@ + p.version, fg(Color::Error))],
                seq![lit("      "@ + head_spec(e, 72), fg(Color::Dim))],
                blank(),
            ],
            None => error_rows(plugins.drop_last()),
        }
    }
}

/// The plugins that failed to load.
pub open spec fn errors_view(plugins: Seq<PluginV>) -> Seq<LineV> {
    let top = seq![
        seq![
            lit("  "@, bold(Color::Primary)),
            msg("panel-plugin-errors-title"@, bold(Color::Primary)),
            lit(" ("@ + decimal(error_count(plugins)) + ")"@, bold(Color::Primary)),
        ],
        blank(),
    ];
    if error_count(plugins) == 0 {
        top.push(seq![msg("panel-plugin-errors-empty"@, fg(Color::Muted))])
    } else {
        top + error_rows(plugins)
    }
}

/// The plugins that failed to load.
pub fn render_errors(plugins: &Vec<PluginSummary>) -> (d: Doc)
    ensures
        d@ == errors_view(plugins_view(plugins@)),
{
    let ghost all = plugins_view(plugins@);
    let mut rows = Doc::new();
    let mut n: usize = 0;
    let mut i: usize = 0;
    assert(rows@ =~= error_rows(all.take(0)));
    while i < plugins.len()
        invariant
            i <= plugins@.len(),
            n <= i,
            all == plugins_view(plugins@),
            n == error_count(all.take(i as int)),
            rows@ == error_rows(all.take(i as int)),
        decreases plugins.len() - i,
    {
        assert(all.take(i + 1).drop_last() =~= all.take(i as int));
        let p = &plugins[i];
        let ghost prior = rows@;
        match &p.load_error {
            Some(e) => {
                n = n + 1;
                rows.line(
                    Piece::text(
                        cat4("  ✗ ", p.name.as_str(), " v", p.version.as_str()),
                        Style::fg(Color::Error),
                    ),
                );
                let text = head(e.as_str(), 72);
                rows.line(Piece::text(cat("      ", text.as_str()), Style::fg(Color::Dim)));
                rows.blank();
                assert(rows@ =~= prior + seq![
                    seq![lit("  ✗ "@ + p@.name + " v"@ + p@.version, fg(Color::Error))],
                    seq![lit("      "@ + head_spec(e@, 72), fg(Color::Dim))],
                    blank(),
                ]);
            },
            None => {},
        }
        i = i + 1;
    }
    assert(all.take(i as int) =~= all);
    let mut d = Doc::new();
    d.push(
        Line::of3(
            Piece::lit("  ", Style::bold(Color::Primary)),
            Piece::msg("panel-plugin-errors-title", Style::bold(Color::Primary)),
            Piece::text(
                cat3(" (", decimal_text(n as u64).as_str(), ")"),
                Style::bold(Color::Primary),
            ),
        ),
    );
    d.blank();
    if n == 0 {
        d.line(Piece::msg("panel-plugin-errors-empty", Style::fg(Color::Muted)));
    } else {
        d.extend(rows);
    }
    assert(d@ =~= errors_view(all));
    d
}

// ── The whole panel ────────────────────────────────────────────────────────

/// The style of a tab.
pub open spec fn tab_style(active: bool) -> Style {
    if active {
        on(Color::Primary, Back::Title)
    } else {
        fg(Color::Muted)
    }
}

/// A tab: its label between spaces.
pub open spec fn tab_pieces(key: Seq<char>, active: bool) -> LineV {
    seq![
        lit("  "@, tab_style(active)),
        msg(key, tab_style(active)),
        lit("  "@, tab_style(active)),
    ]
}

/// The tabs.
pub open spec fn tab_bar(tab: PluginViewTab) -> LineV {
    tab_pieces("panel-plugin-tab-installed"@, tab == PluginViewTab::Installed) + tab_pieces(
        "panel-plugin-tab-discover"@,
        tab == PluginViewTab::Discover,
    ) + tab_pieces("panel-plugin-tab-marketplaces"@, tab == PluginViewTab::Marketplaces)
        + tab_pieces("panel-plugin-tab-errors"@, tab == PluginViewTab::Errors)
}

/// The details of a marketplace.
pub open spec fn market_detail(e: EntryV, chosen: int) -> Seq<LineV> {
    seq![
        seq![msg_text("panel-plugin-detail-title"@, "name"@, e.name, bold(Color::Primary))],
        blank(),
        field_line("panel-plugin-discover-field-marketplace"@, head_spec(e.source_label, 60)),
        blank(),
        seq![
            lit("  "@, bold(Color::Primary)),
            msg("panel-plugin-detail-actions"@, bold(Color::Primary)),
        ],
        blank(),
        menu_line(""@, "panel-plugin-marketplace-action-refresh"@, chosen == 0),
        menu_line(""@, "panel-plugin-marketplace-action-delete"@, chosen == 1),
    ]
}

/// What the panel shows between the tabs and the hint.
pub open spec fn body_view(
    p: PanelV,
    plugins: Seq<PluginV>,
    entries: Seq<EntryV>,
    local: Seq<ItemV>,
    show_cursor: bool,
) -> Seq<LineV> {
    if p.discover.detail is Some {
        discover_detail_view(p.discover.detail->0, p.discover.detail_action)
    } else if p.market is Some {
        match at(entries, before(p.market->0)) {
            Some(e) => market_detail(e, p.market_action),
            None => Seq::empty(),
        }
    } else if p.detail is Some {
        match at(plugins, p.detail->0) {
            Some(x) => detail_view(x, p.action, p.confirm),
            None => Seq::empty(),
        }
    } else {
        match p.tab {
            PluginViewTab::Installed => installed_view(
                plugins,
                p.selected,
                window_start(p.selected, VISIBLE_ITEMS as int),
                VISIBLE_ITEMS as int,
            ),
            PluginViewTab::Discover => catalog_view(
                p.discover.editor.now.text,
                show_cursor && p.discover.focused,
                p.discover.status,
                p.discover.visible(local),
                plugins,
                p.discover.selected,
                window_start(p.discover.selected, VISIBLE_ITEMS as int),
                VISIBLE_ITEMS as int,
            ),
            PluginViewTab::Marketplaces => markets_lines(
                entries,
                p.selected,
                p.refreshing,
                p.add_active,
                p.add_input.now.text,
                p.confirm,
                p.loading,
            ),
            PluginViewTab::Errors => errors_view(plugins),
        }
    }
}

/// The name of an operation under way.
pub open spec fn operation_piece(op: Seq<char>) -> PieceV {
    if op == "uninstall"@ {
        msg("panel-plugin-action-uninstall"@, fg(Color::Muted))
    } else if op == "enable"@ {
        msg("panel-plugin-action-enable"@, fg(Color::Muted))
    } else if op == "disable"@ {
        msg("panel-plugin-action-disable"@, fg(Color::Muted))
    } else if op == "install"@ {
        msg("panel-plugin-action-install"@, fg(Color::Muted))
    } else if op == "update"@ {
        msg("panel-plugin-action-update"@, fg(Color::Muted))
    } else {
        lit(op, fg(Color::Muted))
    }
}

/// The hint below everything: what is under way, else what the keys do here.
pub open spec fn footer(p: PanelV) -> LineV {
    if p.add_active {
        seq![msg("panel-plugin-marketplace-add-input-footer"@, fg(Color::Muted))]
    } else if p.loading is Some {
        seq![operation_piece(p.loading->0), lit("..."@, fg(Color::Muted))]
    } else if p.confirm is Some {
        seq![msg("panel-plugin-confirm-hint"@, fg(Color::Muted))]
    } else if p.discover.detail is Some || p.detail is Some {
        seq![msg("common-nav-enter-close"@, fg(Color::Muted))]
    } else if p.market is Some {
        seq![msg("panel-plugin-marketplace-detail-hint"@, fg(Color::Muted))]
    } else {
        seq![msg("common-nav-tab-close"@, fg(Color::Muted))]
    }
}

/// What the panel shows.
pub open spec fn panel_view(
    p: PanelV,
    plugins: Seq<PluginV>,
    entries: Seq<EntryV>,
    local: Seq<ItemV>,
    show_cursor: bool,
) -> Seq<LineV> {
    seq![tab_bar(p.tab)] + body_view(p, plugins, entries, local, show_cursor) + seq![footer(p)]
}

fn add_tab(l: &mut Line, key: &str, active: bool)
    ensures
        final(l)@ == old(l)@ + tab_pieces(key@, active),
{
    let ghost prior = l@;
    let style = if active {
        Style::on(Color::Primary, Back::Title)
    } else {
        Style::fg(Color::Muted)
    };
    l.push(Piece::lit("  ", style));
    l.push(Piece::msg(key, style));
    l.push(Piece::lit("  ", style));
    assert(l@ =~= prior + tab_pieces(key@, active));
}

fn show_tab_bar(tab: PluginViewTab) -> (l: Line)
    ensures
        l@ == tab_bar(tab),
{
    let mut l = Line::new();
    add_tab(&mut l, "panel-plugin-tab-installed", tab == PluginViewTab::Installed);
    add_tab(&mut l, "panel-plugin-tab-discover", tab == PluginViewTab::Discover);
    add_tab(&mut l, "panel-plugin-tab-marketplaces", tab == PluginViewTab::Marketplaces);
    add_tab(&mut l, "panel-plugin-tab-errors", tab == PluginViewTab::Errors);
    assert(l@ =~= tab_bar(tab));
    l
}

fn show_market_detail(e: &MsEntry, chosen: usize) -> (d: Doc)
    ensures
        d@ == market_detail(e@, chosen as int),
{
    let mut d = Doc::new();
    d.line(
        Piece::msg_text(
            "panel-plugin-detail-title",
            "name",
            e.name.as_str(),
            Style::bold(Color::Primary),
        ),
    );
    d.blank();
    d.push(
        show_field(
            "panel-plugin-discover-field-marketplace",
            head(e.source_label.as_str(), 60).as_str(),
        ),
    );
    d.blank();
    d.push(
        Line::of2(
            Piece::lit("  ", Style::bold(Color::Primary)),
            Piece::msg("panel-plugin-detail-actions", Style::bold(Color::Primary)),
        ),
    );
    d.blank();
    d.push(show_menu_line("", "panel-plugin-marketplace-action-refresh", chosen == 0));
    d.push(show_menu_line("", "panel-plugin-marketplace-action-delete", chosen == 1));
    assert(d@ =~= market_detail(e@, chosen as int));
    d
}

fn show_operation(op: &str) -> (p: Piece)
    ensures
        p@ == operation_piece(op@),
{
    let style = Style::fg(Color::Muted);
    if same(op, "uninstall") {
        Piece::msg("panel-plugin-action-uninstall", style)
    } else if same(op, "enable") {
        Piece::msg("panel-plugin-action-enable", style)
    } else if same(op, "disable") {
        Piece::msg("panel-plugin-action-disable", style)
    } else if same(op, "install") {
        Piece::msg("panel-plugin-action-install", style)
    } else if same(op, "update") {
        Piece::msg("panel-plugin-action-update", style)
    } else {
        Piece::lit(op, style)
    }
}

impl PluginPanel {
    fn show_footer(&self) -> (l: Line)
        ensures
            l@ == footer(self@),
    {
        let style = Style::fg(Color::Muted);
        if self.add_marketplace_active {
            return Line::of(Piece::msg("panel-plugin-marketplace-add-input-footer", style));
        }
        match &self.operation_loading {
            Some(op) => {
                return Line::of2(show_operation(op.as_str()), Piece::lit("...", style));
            },
            None => {},
        }
        if self.confirm_action.is_some() {
            Line::of(Piece::msg("panel-plugin-confirm-hint", style))
        } else if self.discover.detail.is_some() || self.detail_plugin_idx.is_some() {
            Line::of(Piece::msg("common-nav-enter-close", style))
        } else if self.marketplace_detail.is_some() {
            Line::of(Piece::msg("panel-plugin-marketplace-detail-hint", style))
        } else {
            Line::of(Piece::msg("common-nav-tab-close", style))
        }
    }

    fn show_body(
        &self,
        plugins: &Vec<PluginSummary>,
        entries: &Vec<MsEntry>,
        local: &Vec<PluginSearchResultItem>,
        show_cursor: bool,
    ) -> (d: Doc)
        ensures
            d@ == body_view(
                self@,
                plugins_view(plugins@),
                entries_view(entries@),
                items_view(local@),
                show_cursor,
            ),
    {
        match &self.discover.detail {
            Some(item) => {
                return render_discover_detail(item, self.discover.detail_action);
            },
            None => {},
        }
        match self.marketplace_detail {
            Some(place) => {
                let i: usize = place.saturating_sub(1);
                return if i < entries.len() {
                    assert(entries_view(entries@)[i as int] == entries@[i as int]@);
                    show_market_detail(&entries[i], self.marketplace_detail_action)
                } else {
                    Doc::new()
                };
            },
            None => {},
        }
        match self.detail_plugin_idx {
            Some(i) => {
                return if i < plugins.len() {
                    assert(plugins_view(plugins@)[i as int] == plugins@[i as int]@);
                    render_detail(&plugins[i], self.action_index, self.confirm_action)
                } else {
                    Doc::new()
                };
            },
            None => {},
        }
        match self.active_tab {
            PluginViewTab::Installed => render_installed(
                plugins,
                self.selected,
                scroll_start_for_selected(self.selected, VISIBLE_ITEMS),
                VISIBLE_ITEMS,
            ),
            PluginViewTab::Discover => {
                let items = self.discover.visible_items(local);
                let text = self.discover.editor.all_text();
                render_discover_list(
                    text.as_str(),
                    show_cursor && self.discover.focused,
                    &self.discover.status,
                    &items,
                    plugins,
                    self.discover.selected,
                    scroll_start_for_selected(self.discover.selected, VISIBLE_ITEMS),
                    VISIBLE_ITEMS,
                )
            },
            PluginViewTab::Marketplaces => {
                let input = self.add_marketplace_input.all_text();
                render_marketplaces(
                    entries,
                    self.selected,
                    self.marketplace_refreshing,
                    self.add_marketplace_active,
                    input.as_str(),
                    self.confirm_action,
                    &self.operation_loading,
                )
            },
            PluginViewTab::Errors => render_errors(plugins),
        }
    }

    /// What the panel shows.
    pub fn lines(
        &self,
        plugins: &Vec<PluginSummary>,
        entries: &Vec<MsEntry>,
        local: &Vec<PluginSearchResultItem>,
        show_cursor: bool,
    ) -> (d: Doc)
        ensures
            d@ == panel_view(
                self@,
                plugins_view(plugins@),
                entries_view(entries@),
                items_view(local@),
                show_cursor,
            ),
    {
        let mut d = Doc::new();
        d.push(show_tab_bar(self.active_tab));
        d.extend(self.show_body(plugins, entries, local, show_cursor));
        d.push(self.show_footer());
        assert(d@ =~= panel_view(
            self@,
            plugins_view(plugins@),
            entries_view(entries@),
            items_view(local@),
            show_cursor,
        ));
        d
    }
}

} // verus!
