//! Inputs on the plugin panel: the catalog and the address field come first, the
//! rest of the panel after them.

use crate::event::{Event, EventResult, KeyCode, KeyEvent, MouseKind, Rect};
use crate::panel_mouse::{is_scrollbar_column, on_scrollbar};
use crate::panels::plugin::discover::{SearchSession, SessionV};
use crate::panels::plugin::discover_handler::{catalog_step, handle_event, DiscoverEffect,
    DiscoverEffectV};
use crate::panels::plugin::panel_handler::{missed, panel_step, EffectV, PanelV, PluginEffect,
    PluginPanel};
use crate::panels::plugin::types::{entries_view, items_view, plugins_view, EntryV, ItemV, MsEntry,
    PluginSearchResultItem, PluginSummary, PluginV, PluginViewTab};
use crate::textarea::{fresh, TextAreaState};
use vstd::prelude::*;

verus! {

/// Details or a question are in front of the lists.
pub open spec fn in_front(p: PanelV) -> bool {
    p.detail is Some || p.market is Some || p.confirm is Some
}

/// An input that the catalog deals with; an installation names the operation
/// under way.
pub open spec fn in_catalog(
    p: PanelV,
    event: Event,
    area: Option<Rect>,
    local: Seq<ItemV>,
    session: SessionV,
) -> (PanelV, EventResult, EffectV) {
    let (d, r, e) = catalog_step(p.discover, event, area, local, session);
    let q = PanelV { discover: d, ..p };
    match e {
        DiscoverEffectV::Nothing => (q, r, EffectV::Nothing),
        DiscoverEffectV::ClosePanel => (q, r, EffectV::ClosePanel),
        DiscoverEffectV::LaunchSearch(t) => (q, r, EffectV::LaunchSearch(t)),
        DiscoverEffectV::Install(item, scope) => (
            PanelV { loading: Some("install"@), ..q },
            r,
            EffectV::Install(item, scope),
        ),
    }
}

/// What Esc does outside the catalog: one step back, or out of the panel.
pub open spec fn escaped(p: PanelV) -> (PanelV, EventResult, EffectV) {
    if p.detail is Some {
        (PanelV { detail: None, ..p }, EventResult::Consumed, EffectV::Nothing)
    } else if p.market is Some {
        (p.market_left(), EventResult::Consumed, EffectV::Nothing)
    } else if p.confirm is Some {
        (p.declined(), EventResult::Consumed, EffectV::Nothing)
    } else {
        (p, EventResult::Consumed, EffectV::ClosePanel)
    }
}

/// What a key other than Esc does in the address field.
pub open spec fn in_address(p: PanelV, code: KeyCode) -> (PanelV, EventResult, EffectV) {
    let t = p.add_input;
    match code {
        KeyCode::Enter => (
            PanelV { add_input: fresh(Seq::empty()), add_active: false, ..p },
            EventResult::Consumed,
            if t.now.text.len() > 0 {
                EffectV::AddMarketplace(t.now.text)
            } else {
                EffectV::Nothing
            },
        ),
        KeyCode::Char(c) => (
            PanelV { add_input: t.edited(t.now.inserted(seq![c])), ..p },
            EventResult::Consumed,
            EffectV::Nothing,
        ),
        KeyCode::Backspace => (
            PanelV {
                add_input: if t.now.cursor > 0 {
                    t.edited(t.now.without(t.now.cursor - 1, t.now.cursor))
                } else {
                    t
                },
                ..p
            },
            EventResult::Consumed,
            EffectV::Nothing,
        ),
        _ => (p, EventResult::Ignored, EffectV::Nothing),
    }
}

/// What an input does before the rest of the panel sees it.
pub open spec fn first_step(
    p: PanelV,
    event: Event,
    area: Option<Rect>,
    local: Seq<ItemV>,
    session: SessionV,
) -> (PanelV, EventResult, EffectV) {
    match event {
        Event::Mouse(m) => if in_front(p) || area is None || on_scrollbar(m, area->0) {
            (p, EventResult::Ignored, EffectV::Nothing)
        } else if p.add_active {
            (p, missed(m), EffectV::Nothing)
        } else if p.tab == PluginViewTab::Discover {
            in_catalog(p, event, area, local, session)
        } else {
            (p, EventResult::Ignored, EffectV::Nothing)
        },
        Event::Key(key) => if !key.press {
            (p, EventResult::Ignored, EffectV::Nothing)
        } else if p.tab == PluginViewTab::Discover && !in_front(p) && !p.add_active {
            if p.loading is Some {
                (p, EventResult::Ignored, EffectV::Nothing)
            } else {
                in_catalog(p, event, area, local, session)
            }
        } else if key.code == KeyCode::Esc {
            escaped(p)
        } else if in_front(p) || !p.add_active {
            (p, EventResult::Ignored, EffectV::Nothing)
        } else {
            in_address(p, key.code)
        },
        _ => (p, EventResult::Ignored, EffectV::Nothing),
    }
}

/// What an input does on the whole panel.
pub open spec fn whole_step(
    p: PanelV,
    event: Event,
    area: Option<Rect>,
    plugins: Seq<PluginV>,
    entries: Seq<EntryV>,
    local: Seq<ItemV>,
    session: SessionV,
) -> (PanelV, EventResult, EffectV) {
    let (q, r, e) = first_step(p, event, area, local, session);
    if r == EventResult::Consumed {
        (q, r, e)
    } else {
        panel_step(q, event, area, plugins, entries)
    }
}

impl PluginPanel {
    fn to_catalog(
        &mut self,
        event: &Event,
        area: Option<Rect>,
        local: &Vec<PluginSearchResultItem>,
        session: SearchSession,
    ) -> (r: (EventResult, PluginEffect))
        requires
            old(self)@.discover.generation < u64::MAX,
        ensures
            (final(self)@, r.0, r.1@) == in_catalog(
                old(self)@,
                *event,
                area,
                items_view(local@),
                session@,
            ),
    {
        let (r, effect) = handle_event(event, area, &mut self.discover, local, session);
        match effect {
            DiscoverEffect::Nothing => (r, PluginEffect::Nothing),
            DiscoverEffect::ClosePanel => (r, PluginEffect::ClosePanel),
            DiscoverEffect::LaunchSearch(t) => (r, PluginEffect::LaunchSearch(t)),
            DiscoverEffect::Install { item, scope } => {
                self.operation_loading = Some("install".to_owned());
                (r, PluginEffect::Install { item, into: scope })
            },
        }
    }

    fn key_in_address(&mut self, code: KeyCode) -> (r: (EventResult, PluginEffect))
        ensures
            (final(self)@, r.0, r.1@) == in_address(old(self)@, code),
    {
        match code {
            KeyCode::Enter => {
                let input = self.add_marketplace_input.all_text();
                let empty = self.add_marketplace_input.is_empty();
                self.add_marketplace_input = TextAreaState::default();
                self.add_marketplace_active = false;
                if empty {
                    (EventResult::Consumed, PluginEffect::Nothing)
                } else {
                    (EventResult::Consumed, PluginEffect::AddMarketplace { input })
                }
            },
            KeyCode::Char(c) => {
                self.add_marketplace_input.insert_char(c);
                (EventResult::Consumed, PluginEffect::Nothing)
            },
            KeyCode::Backspace => {
                self.add_marketplace_input.backspace();
                (EventResult::Consumed, PluginEffect::Nothing)
            },
            _ => (EventResult::Ignored, PluginEffect::Nothing),
        }
    }

    /// Deals with one input before the rest of the panel sees it: the catalog, the
    /// way back and the address field.
    pub fn handle_search_event(
        &mut self,
        event: &Event,
        area: Option<Rect>,
        local: &Vec<PluginSearchResultItem>,
        session: SearchSession,
    ) -> (r: (EventResult, PluginEffect))
        requires
            old(self)@.discover.generation < u64::MAX,
        ensures
            (final(self)@, r.0, r.1@) == first_step(
                old(self)@,
                *event,
                area,
                items_view(local@),
                session@,
            ),
    {
        let front = self.detail_plugin_idx.is_some() || self.marketplace_detail.is_some()
            || self.confirm_action.is_some();
        match event {
            Event::Mouse(mouse) => {
                if front {
                    return (EventResult::Ignored, PluginEffect::Nothing);
                }
                match area {
                    Some(a) => {
                        if is_scrollbar_column(mouse, a) {
                            return (EventResult::Ignored, PluginEffect::Nothing);
                        }
                        if self.add_marketplace_active {
                            let r = if mouse.kind == MouseKind::LeftDown {
                                EventResult::Consumed
                            } else {
                                EventResult::Ignored
                            };
                            return (r, PluginEffect::Nothing);
                        }
                        if self.active_tab == PluginViewTab::Discover {
                            return self.to_catalog(event, area, local, session);
                        }
                        (EventResult::Ignored, PluginEffect::Nothing)
                    },
                    None => (EventResult::Ignored, PluginEffect::Nothing),
                }
            },
            Event::Key(key) => {
                if !key.press {
                    return (EventResult::Ignored, PluginEffect::Nothing);
                }
                if self.active_tab == PluginViewTab::Discover && !front
                    && !self.add_marketplace_active {
                    if self.operation_loading.is_some() {
                        return (EventResult::Ignored, PluginEffect::Nothing);
                    }
                    return self.to_catalog(event, area, local, session);
                }
                if key.code == KeyCode::Esc {
                    if self.detail_plugin_idx.is_some() {
                        self.detail_plugin_idx = None;
                        return (EventResult::Consumed, PluginEffect::Nothing);
                    }
                    if self.marketplace_detail.is_some() {
                        self.marketplace_detail = None;
                        self.marketplace_detail_action = 0;
                        return (EventResult::Consumed, PluginEffect::Nothing);
                    }
                    if self.confirm_action.is_some() {
                        self.settle_confirm();
                        return (EventResult::Consumed, PluginEffect::Nothing);
                    }
                    return (EventResult::Consumed, PluginEffect::ClosePanel);
                }
                if front || !self.add_marketplace_active {
                    return (EventResult::Ignored, PluginEffect::Nothing);
                }
                self.key_in_address(key.code)
            },
            _ => (EventResult::Ignored, PluginEffect::Nothing),
        }
    }

    /// Deals with one input on the panel.
    pub fn handle(
        &mut self,
        event: &Event,
        area: Option<Rect>,
        plugins: &Vec<PluginSummary>,
        entries: &Vec<MsEntry>,
        local: &Vec<PluginSearchResultItem>,
        session: SearchSession,
    ) -> (r: (EventResult, PluginEffect))
        requires
            old(self)@.discover.generation < u64::MAX,
        ensures
            (final(self)@, r.0, r.1@) == whole_step(
                old(self)@,
                *event,
                area,
                plugins_view(plugins@),
                entries_view(entries@),
                items_view(local@),
                session@,
            ),
    {
        let (r, effect) = self.handle_search_event(event, area, local, session);
        if r == EventResult::Consumed {
            return (r, effect);
        }
        self.handle_panel_event(event, area, plugins, entries)
    }
}

/// Esc always leads one step back: out of details, out of a question, and out of
/// the panel only from a list.
pub proof fn escape_leads_back(p: PanelV, key: KeyEvent, area: Option<Rect>, local: Seq<ItemV>, session: SessionV)
    requires
        key.press,
        key.code == KeyCode::Esc,
        p.tab != PluginViewTab::Discover || in_front(p) || p.add_active,
    ensures
        first_step(p, Event::Key(key), area, local, session) == escaped(p),
        escaped(p).1 == EventResult::Consumed,
        escaped(p).2 == EffectV::ClosePanel <==> !in_front(p),
{
}

} // verus!
