//! What an input means for the catalog, and what follows from it.

use crate::event::{Event, EventResult, KeyCode, MouseKind, Rect};
use crate::list_nav::{next_sel, next_selection, prev_sel, previous_selection,
    scroll_start_for_selected, window_start};
use crate::panel_mouse::{hit, hit_item, is_scrollbar_column, on_scrollbar, ListLayout};
use crate::panels::plugin::discover::{DiscoverState, DiscoverV, QueryEdit,
    SearchSession, SearchState, SearchTicket, SessionV, TicketV};
use crate::panels::plugin::types::{discover_actions, items_view, DiscoverDetailAction, ItemV,
    PluginSearchResultItem, VISIBLE_ITEMS};
use vstd::prelude::*;

verus! {

/// What an input asks of the catalog.
#[derive(Debug, Clone, Copy, PartialEq, Eq, Structural)]
pub enum SearchAction {
    Pass,
    Consume,
    FocusInput,
    Insert(char),
    Backspace,
    Submit,
    Open(usize),
    Up,
    Down,
    Escape,
    DetailAction(usize),
    LeaveDetail,
}

/// What a key asks of the catalog.
pub open spec fn key_decision(code: KeyCode, d: DiscoverV) -> SearchAction {
    if d.detail is Some {
        match code {
            KeyCode::Up => SearchAction::Up,
            KeyCode::Down => SearchAction::Down,
            KeyCode::Enter => SearchAction::DetailAction(d.detail_action as usize),
            KeyCode::Esc => SearchAction::Escape,
            KeyCode::Tab => SearchAction::LeaveDetail,
            _ => SearchAction::Consume,
        }
    } else {
        match code {
            KeyCode::Char(c) => SearchAction::Insert(c),
            KeyCode::Backspace => SearchAction::Backspace,
            KeyCode::Enter => if d.focused {
                SearchAction::Submit
            } else {
                SearchAction::Open(d.selected as usize)
            },
            KeyCode::Up => SearchAction::Up,
            KeyCode::Down => SearchAction::Down,
            KeyCode::Esc => SearchAction::Escape,
            _ => SearchAction::Pass,
        }
    }
}

/// The actions of the detail view on the screen.
pub open spec fn detail_layout() -> ListLayout {
    ListLayout {
        header_rows: 10,
        item_rows: 1,
        footer_rows: 0,
        visible_items: 3,
        scroll_start: 0,
        item_count: 3,
    }
}

/// The search field on the screen.
pub open spec fn field_layout() -> ListLayout {
    ListLayout {
        header_rows: 3,
        item_rows: 1,
        footer_rows: 0,
        visible_items: 1,
        scroll_start: 0,
        item_count: 1,
    }
}

/// The items on the screen.
pub open spec fn items_layout(d: DiscoverV, count: int) -> ListLayout {
    ListLayout {
        header_rows: 5,
        item_rows: 3,
        footer_rows: 0,
        visible_items: 5,
        scroll_start: window_start(d.selected, VISIBLE_ITEMS as int) as usize,
        item_count: count as usize,
    }
}

/// What an input asks of the catalog: a click on a place is what Enter is there.
pub open spec fn decision(event: Event, area: Option<Rect>, d: DiscoverV, local: Seq<ItemV>) -> SearchAction {
    match event {
        Event::Key(key) => if key.press {
            key_decision(key.code, d)
        } else {
            SearchAction::Pass
        },
        Event::Mouse(m) => if m.kind != MouseKind::LeftDown || area is None || on_scrollbar(
            m,
            area->0,
        ) {
            SearchAction::Pass
        } else if d.detail is Some {
            match hit(m, area->0, detail_layout()) {
                Some(i) => SearchAction::DetailAction(i as usize),
                None => SearchAction::Consume,
            }
        } else if hit(m, area->0, field_layout()) is Some {
            if d.focused {
                SearchAction::Submit
            } else {
                SearchAction::FocusInput
            }
        } else if d.status !is Idle {
            SearchAction::Consume
        } else {
            match hit(m, area->0, items_layout(d, d.visible(local).len() as int)) {
                Some(i) => SearchAction::Open(i as usize),
                None => SearchAction::Consume,
            }
        },
        _ => SearchAction::Pass,
    }
}

/// What an input asks of the catalog.
pub fn decide(
    event: &Event,
    area: Option<Rect>,
    state: &DiscoverState,
    local: &Vec<PluginSearchResultItem>,
) -> (r: SearchAction)
    ensures
        r == decision(*event, area, state@, items_view(local@)),
{
    match event {
        Event::Key(key) => {
            if !key.press {
                return SearchAction::Pass;
            }
            if state.detail.is_some() {
                return match key.code {
                    KeyCode::Up => SearchAction::Up,
                    KeyCode::Down => SearchAction::Down,
                    KeyCode::Enter => SearchAction::DetailAction(state.detail_action),
                    KeyCode::Esc => SearchAction::Escape,
                    KeyCode::Tab => SearchAction::LeaveDetail,
                    _ => SearchAction::Consume,
                };
            }
            match key.code {
                KeyCode::Char(c) => SearchAction::Insert(c),
                KeyCode::Backspace => SearchAction::Backspace,
                KeyCode::Enter => if state.focused {
                    SearchAction::Submit
                } else {
                    SearchAction::Open(state.selected)
                },
                KeyCode::Up => SearchAction::Up,
                KeyCode::Down => SearchAction::Down,
                KeyCode::Esc => SearchAction::Escape,
                _ => SearchAction::Pass,
            }
        },
        Event::Mouse(mouse) => {
            if mouse.kind != MouseKind::LeftDown {
                return SearchAction::Pass;
            }
            let area = match area {
                Some(a) => a,
                None => {
                    return SearchAction::Pass;
                },
            };
            if is_scrollbar_column(mouse, area) {
                return SearchAction::Pass;
            }
            if state.detail.is_some() {
                let layout = ListLayout {
                    header_rows: 10,
                    item_rows: 1,
                    footer_rows: 0,
                    visible_items: 3,
                    scroll_start: 0,
                    item_count: 3,
                };
                return match hit_item(mouse, area, layout) {
                    Some(i) => SearchAction::DetailAction(i),
                    None => SearchAction::Consume,
                };
            }
            let field = ListLayout {
                header_rows: 3,
                item_rows: 1,
                footer_rows: 0,
                visible_items: 1,
                scroll_start: 0,
                item_count: 1,
            };
            if hit_item(mouse, area, field).is_some() {
                return if state.focused {
                    SearchAction::Submit
                } else {
                    SearchAction::FocusInput
                };
            }
            match state.status {
                SearchState::Idle => {},
                _ => {
                    return SearchAction::Consume;
                },
            }
            let items = state.visible_items(local);
            let count: usize = items.len();
            assert(count == state@.visible(items_view(local@)).len());
            let layout = ListLayout {
                header_rows: 5,
                item_rows: 3,
                footer_rows: 0,
                visible_items: 5,
                scroll_start: scroll_start_for_selected(state.selected, VISIBLE_ITEMS),
                item_count: count,
            };
            match hit_item(mouse, area, layout) {
                Some(i) => SearchAction::Open(i),
                None => SearchAction::Consume,
            }
        },
        _ => SearchAction::Pass,
    }
}

/// What has to happen outside the state of the catalog.
#[derive(Debug)]
pub enum SearchEffect {
    Pass,
    Consumed,
    Submit,
    ClosePanel,
    Install { item: PluginSearchResultItem, scope: &'static str },
}

/// What has to happen outside, abstractly.
pub enum SearchEffectV {
    Pass,
    Consumed,
    Submit,
    ClosePanel,
    Install(ItemV, Seq<char>),
}

impl View for SearchEffect {
    type V = SearchEffectV;

    open spec fn view(&self) -> SearchEffectV {
        match *self {
            SearchEffect::Pass => SearchEffectV::Pass,
            SearchEffect::Consumed => SearchEffectV::Consumed,
            SearchEffect::Submit => SearchEffectV::Submit,
            SearchEffect::ClosePanel => SearchEffectV::ClosePanel,
            SearchEffect::Install { item, scope } => SearchEffectV::Install(item@, scope@),
        }
    }
}

/// The catalog after an action.
pub open spec fn after(d: DiscoverV, action: SearchAction, local: Seq<ItemV>) -> DiscoverV {
    match action {
        SearchAction::Pass => d,
        SearchAction::Consume => d,
        SearchAction::FocusInput => DiscoverV { focused: true, ..d },
        SearchAction::Insert(c) => d.edited(QueryEdit::Insert(c)),
        SearchAction::Backspace => d.edited(QueryEdit::Backspace),
        SearchAction::Submit => d,
        SearchAction::Open(i) => d.opened(i as int, local),
        SearchAction::Up => if d.detail is Some {
            DiscoverV { detail_action: prev_sel(d.detail_action), ..d }
        } else if d.selected == 0 {
            DiscoverV { focused: true, ..d }
        } else {
            DiscoverV { selected: prev_sel(d.selected), ..d }
        },
        SearchAction::Down => if d.detail is Some {
            DiscoverV { detail_action: next_sel(d.detail_action, 3), ..d }
        } else if d.focused {
            DiscoverV { focused: false, ..d }
        } else {
            DiscoverV { selected: next_sel(d.selected, d.visible(local).len() as int), ..d }
        },
        SearchAction::Escape => if d.detail is Some {
            d.detail_closed()
        } else if d.editor.now.text.len() > 0 {
            d.edited(QueryEdit::Clear)
        } else if d.focused {
            DiscoverV { focused: false, ..d }
        } else {
            d.closed()
        },
        SearchAction::LeaveDetail => d.detail_closed(),
        SearchAction::DetailAction(_) => d.detail_closed(),
    }
}

/// The scope that an action installs in.
pub open spec fn install_scope(a: DiscoverDetailAction) -> Option<Seq<char>> {
    match a {
        DiscoverDetailAction::InstallUser => Some("user"@),
        DiscoverDetailAction::InstallProject => Some("project"@),
        DiscoverDetailAction::BackToList => None,
    }
}

/// What an action leads to outside.
pub open spec fn effect_of(d: DiscoverV, action: SearchAction) -> SearchEffectV {
    match action {
        SearchAction::Pass => SearchEffectV::Pass,
        SearchAction::Submit => SearchEffectV::Submit,
        SearchAction::Escape => if d.detail is None && d.editor.now.text.len() == 0 && !d.focused {
            SearchEffectV::ClosePanel
        } else {
            SearchEffectV::Consumed
        },
        SearchAction::LeaveDetail => SearchEffectV::Pass,
        SearchAction::DetailAction(i) => if d.detail is Some && i < 3 && install_scope(
            discover_actions()[i as int],
        ) is Some {
            SearchEffectV::Install(d.detail->0, install_scope(discover_actions()[i as int])->0)
        } else {
            SearchEffectV::Consumed
        },
        _ => SearchEffectV::Consumed,
    }
}

/// Carries an action out on the catalog.
pub fn apply(
    state: &mut DiscoverState,
    action: SearchAction,
    local: &Vec<PluginSearchResultItem>,
) -> (e: SearchEffect)
    requires
        old(state)@.generation < u64::MAX,
    ensures
        final(state)@ == after(old(state)@, action, items_view(local@)),
        e@ == effect_of(old(state)@, action),
{
    match action {
        SearchAction::Pass => {
            return SearchEffect::Pass;
        },
        SearchAction::Consume => {},
        SearchAction::FocusInput => {
            state.focused = true;
        },
        SearchAction::Insert(c) => {
            state.edit(QueryEdit::Insert(c));
        },
        SearchAction::Backspace => {
            state.edit(QueryEdit::Backspace);
        },
        SearchAction::Submit => {
            return SearchEffect::Submit;
        },
        SearchAction::Open(index) => {
            state.open_selected(index, local);
        },
        SearchAction::Up => {
            if state.detail.is_some() {
                state.detail_action = previous_selection(state.detail_action);
            } else if state.selected == 0 {
                state.focused = true;
            } else {
                state.selected = previous_selection(state.selected);
            }
        },
        SearchAction::Down => {
            if state.detail.is_some() {
                state.detail_action = next_selection(state.detail_action, 3);
            } else if state.focused {
                state.focused = false;
            } else {
                let count: usize = state.visible_items(local).len();
                state.selected = next_selection(state.selected, count);
            }
        },
        SearchAction::Escape => {
            if state.detail.is_some() {
                state.close_detail();
            } else if !state.editor.is_empty() {
                state.edit(QueryEdit::Clear);
            } else if state.focused {
                state.focused = false;
            } else {
                state.close();
                return SearchEffect::ClosePanel;
            }
        },
        SearchAction::LeaveDetail => {
            state.close_detail();
            return SearchEffect::Pass;
        },
        SearchAction::DetailAction(index) => {
            state.detail_action = index;
            let selection = state.detail_selection();
            state.close_detail();
            match selection {
                Some((item, chosen)) => {
                    match chosen {
                        DiscoverDetailAction::InstallUser => {
                            return SearchEffect::Install { item, scope: "user" };
                        },
                        DiscoverDetailAction::InstallProject => {
                            return SearchEffect::Install { item, scope: "project" };
                        },
                        DiscoverDetailAction::BackToList => {},
                    }
                },
                None => {},
            }
        },
    }
    SearchEffect::Consumed
}

/// What the program around the panel has to do for the catalog.
#[derive(Debug)]
pub enum DiscoverEffect {
    Nothing,
    ClosePanel,
    LaunchSearch(SearchTicket),
    Install { item: PluginSearchResultItem, scope: &'static str },
}

/// What the program has to do, abstractly.
pub enum DiscoverEffectV {
    Nothing,
    ClosePanel,
    LaunchSearch(TicketV),
    Install(ItemV, Seq<char>),
}

impl View for DiscoverEffect {
    type V = DiscoverEffectV;

    open spec fn view(&self) -> DiscoverEffectV {
        match *self {
            DiscoverEffect::Nothing => DiscoverEffectV::Nothing,
            DiscoverEffect::ClosePanel => DiscoverEffectV::ClosePanel,
            DiscoverEffect::LaunchSearch(t) => DiscoverEffectV::LaunchSearch(t@),
            DiscoverEffect::Install { item, scope } => DiscoverEffectV::Install(item@, scope@),
        }
    }
}

/// The catalog, the result and the effect of one input.
pub open spec fn catalog_step(
    d: DiscoverV,
    event: Event,
    area: Option<Rect>,
    local: Seq<ItemV>,
    session: SessionV,
) -> (DiscoverV, EventResult, DiscoverEffectV) {
    let action = decision(event, area, d, local);
    match effect_of(d, action) {
        SearchEffectV::Pass => (
            after(d, action, local),
            EventResult::Ignored,
            DiscoverEffectV::Nothing,
        ),
        SearchEffectV::Consumed => (
            after(d, action, local),
            EventResult::Consumed,
            DiscoverEffectV::Nothing,
        ),
        SearchEffectV::ClosePanel => (
            after(d, action, local),
            EventResult::Consumed,
            DiscoverEffectV::ClosePanel,
        ),
        SearchEffectV::Submit => (
            d.searching(session),
            EventResult::Consumed,
            if d.can_search(session) {
                DiscoverEffectV::LaunchSearch(d.ticket())
            } else {
                DiscoverEffectV::Nothing
            },
        ),
        SearchEffectV::Install(item, scope) => (
            after(d, action, local),
            EventResult::Consumed,
            DiscoverEffectV::Install(item, scope),
        ),
    }
}

/// Deals with one input on the catalog.
pub fn handle_event(
    event: &Event,
    area: Option<Rect>,
    discover: &mut DiscoverState,
    local: &Vec<PluginSearchResultItem>,
    session: SearchSession,
) -> (r: (EventResult, DiscoverEffect))
    requires
        old(discover)@.generation < u64::MAX,
    ensures
        (final(discover)@, r.0, r.1@) == catalog_step(
            old(discover)@,
            *event,
            area,
            items_view(local@),
            session@,
        ),
{
    let action = decide(event, area, discover, local);
    let effect = apply(discover, action, local);
    match effect {
        SearchEffect::Pass => (EventResult::Ignored, DiscoverEffect::Nothing),
        SearchEffect::Consumed => (EventResult::Consumed, DiscoverEffect::Nothing),
        SearchEffect::ClosePanel => (EventResult::Consumed, DiscoverEffect::ClosePanel),
        SearchEffect::Submit => {
            match discover.begin_search(session) {
                Some(ticket) => (EventResult::Consumed, DiscoverEffect::LaunchSearch(ticket)),
                None => (EventResult::Consumed, DiscoverEffect::Nothing),
            }
        },
        SearchEffect::Install { item, scope } => (
            EventResult::Consumed,
            DiscoverEffect::Install { item, scope },
        ),
    }
}

/// The plugin that is installed is the one that was shown: opening an item and
/// choosing to install it asks for that very item.
pub proof fn shown_item_is_installed(d: DiscoverV, index: usize, local: Seq<ItemV>)
    requires
        d.status is Idle,
        index < d.visible(local).len(),
    ensures
        effect_of(after(d, SearchAction::Open(index), local), SearchAction::DetailAction(0))
            == SearchEffectV::Install(d.visible(local)[index as int], "user"@),
        effect_of(after(d, SearchAction::Open(index), local), SearchAction::DetailAction(1))
            == SearchEffectV::Install(d.visible(local)[index as int], "project"@),
        after(
            after(d, SearchAction::Open(index), local),
            SearchAction::DetailAction(1),
            local,
        ).detail is None,
{
}

/// Enter and a click on the search field reach the same action once it has the
/// focus.
pub proof fn enter_and_click_submit_alike(
    d: DiscoverV,
    key: Event,
    click: Event,
    area: Rect,
    local: Seq<ItemV>,
)
    requires
        d.detail is None,
        d.focused,
        key matches Event::Key(k) && k.press && k.code == KeyCode::Enter,
        click matches Event::Mouse(m) && !on_scrollbar(m, area) && hit(m, area, field_layout())
            is Some,
    ensures
        decision(key, Some(area), d, local) == SearchAction::Submit,
        decision(click, Some(area), d, local) == SearchAction::Submit,
{
}

} // verus!
