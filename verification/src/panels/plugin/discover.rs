//! The catalog search: its query, who owns the request under way, its results and
//! the plugin looked at.

use crate::panels::plugin::types::{discover_actions, items_view, DiscoverDetailAction, ItemV,
    PluginSearchResultItem};
use crate::text::{contains, contains_spec, lowercase_of, same, to_lowercase};
use crate::textarea::{fresh, EditV, TextAreaState, TextV};
use vstd::prelude::*;

verus! {

/// Where a search stands.
#[derive(Debug)]
pub enum SearchState {
    Idle,
    Loading,
    Error(String),
}

/// Where a search stands, abstractly.
pub enum StatusV {
    Idle,
    Loading,
    Error(Seq<char>),
}

impl View for SearchState {
    type V = StatusV;

    open spec fn view(&self) -> StatusV {
        match *self {
            SearchState::Idle => StatusV::Idle,
            SearchState::Loading => StatusV::Loading,
            SearchState::Error(e) => StatusV::Error(e@),
        }
    }
}

/// The session that a search belongs to: its id, and how often the connection has
/// been reset.
#[derive(Debug)]
pub struct SearchSession {
    pub id: String,
    pub reset: u64,
}

/// A session, abstractly.
pub struct SessionV {
    pub id: Seq<char>,
    pub reset: u64,
}

impl View for SearchSession {
    type V = SessionV;

    open spec fn view(&self) -> SessionV {
        SessionV { id: self.id@, reset: self.reset }
    }
}

impl SearchSession {
    /// The session that is active, under the current count of resets.
    pub fn current(active_session_id: &str, reset: u64) -> (s: SearchSession)
        ensures
            s@ == (SessionV { id: active_session_id@, reset }),
    {
        SearchSession { id: active_session_id.to_owned(), reset }
    }

    /// The same session once more.
    pub fn copy(&self) -> (s: SearchSession)
        ensures
            s@ == self@,
    {
        SearchSession { id: self.id.clone(), reset: self.reset }
    }

    /// Whether both are the same session.
    pub fn is(&self, other: &SearchSession) -> (b: bool)
        ensures
            b == (self@ == other@),
    {
        self.reset == other.reset && same(self.id.as_str(), other.id.as_str())
    }
}

/// What a request for a search is answered under.
#[derive(Debug)]
pub struct SearchTicket {
    pub generation: u64,
    pub session: SearchSession,
    pub query: String,
}

/// A ticket, abstractly.
pub struct TicketV {
    pub generation: u64,
    pub session: SessionV,
    pub query: Seq<char>,
}

impl View for SearchTicket {
    type V = TicketV;

    open spec fn view(&self) -> TicketV {
        TicketV { generation: self.generation, session: self.session@, query: self.query@ }
    }
}

/// The state of the catalog search. `pending` is the generation of the request
/// under way; a request of any other generation has been cancelled. No `results`
/// means that the local catalog is browsed; empty results are an answer.
#[derive(Debug)]
pub struct DiscoverState {
    pub editor: TextAreaState,
    pub focused: bool,
    pub status: SearchState,
    pub selected: usize,
    pub detail: Option<PluginSearchResultItem>,
    pub detail_action: usize,
    pub session: SearchSession,
    pub generation: u64,
    pub pending: Option<u64>,
    pub results: Option<Vec<PluginSearchResultItem>>,
}

/// The state of the catalog search, abstractly.
pub struct DiscoverV {
    pub editor: TextV,
    pub focused: bool,
    pub status: StatusV,
    pub selected: int,
    pub detail: Option<ItemV>,
    pub detail_action: int,
    pub session: SessionV,
    pub generation: u64,
    pub pending: Option<u64>,
    pub results: Option<Seq<ItemV>>,
}

impl View for DiscoverState {
    type V = DiscoverV;

    open spec fn view(&self) -> DiscoverV {
        DiscoverV {
            editor: self.editor@,
            focused: self.focused,
            status: self.status@,
            selected: self.selected as int,
            detail: match self.detail {
                Some(i) => Some(i@),
                None => None,
            },
            detail_action: self.detail_action as int,
            session: self.session@,
            generation: self.generation,
            pending: self.pending,
            results: match self.results {
                Some(v) => Some(items_view(v@)),
                None => None,
            },
        }
    }
}

/// A change of the query.
#[derive(Debug, Clone, Copy, PartialEq, Eq, Structural)]
pub enum QueryEdit {
    Insert(char),
    Backspace,
    Clear,
}

/// The editor after a change of the query.
pub open spec fn query_edited(t: TextV, e: QueryEdit) -> TextV {
    match e {
        QueryEdit::Insert(c) => t.edited(t.now.inserted(seq![c])),
        QueryEdit::Backspace => if t.now.cursor > 0 {
            t.edited(t.now.without(t.now.cursor - 1, t.now.cursor))
        } else {
            t
        },
        QueryEdit::Clear => t.edited(EditV { text: Seq::empty(), cursor: 0 }),
    }
}

/// The catalog before anything has been asked.
pub open spec fn discover_start() -> DiscoverV {
    DiscoverV {
        editor: fresh(Seq::empty()),
        focused: false,
        status: StatusV::Idle,
        selected: 0,
        detail: None,
        detail_action: 0,
        session: SessionV { id: Seq::empty(), reset: 0 },
        generation: 0,
        pending: None,
        results: None,
    }
}

impl DiscoverV {
    /// A request under way is cancelled, results and the plugin looked at are
    /// dropped, and a new generation begins.
    pub open spec fn invalidated(self) -> DiscoverV {
        DiscoverV {
            pending: None,
            generation: (self.generation + 1) as u64,
            status: StatusV::Idle,
            results: None,
            selected: 0,
            detail: None,
            detail_action: 0,
            ..self
        }
    }

    /// Invalidated, with an empty query that has lost the focus.
    pub open spec fn closed(self) -> DiscoverV {
        DiscoverV { editor: fresh(Seq::empty()), focused: false, ..self.invalidated() }
    }

    /// Closed under another session; nothing changes under the same.
    pub open spec fn reset_to(self, session: SessionV) -> DiscoverV {
        if self.session == session {
            self
        } else {
            DiscoverV { session, ..self.closed() }
        }
    }

    /// After a change of the query.
    pub open spec fn edited(self, e: QueryEdit) -> DiscoverV {
        DiscoverV {
            editor: query_edited(self.editor, e),
            focused: true,
            ..self.invalidated()
        }
    }

    /// A search may be sent under the session.
    pub open spec fn can_search(self, session: SessionV) -> bool {
        self.editor.now.text.len() > 0 && self.session == session
    }

    /// After a search was asked for under a session.
    pub open spec fn searching(self, session: SessionV) -> DiscoverV {
        if self.editor.now.text.len() == 0 {
            self
        } else if self.session != session {
            self.reset_to(session)
        } else {
            DiscoverV {
                status: StatusV::Loading,
                focused: true,
                pending: Some((self.generation + 1) as u64),
                ..self.invalidated()
            }
        }
    }

    /// The ticket of a search that may be sent.
    pub open spec fn ticket(self) -> TicketV {
        TicketV {
            generation: (self.generation + 1) as u64,
            session: self.session,
            query: self.editor.now.text,
        }
    }

    /// The answer to a ticket is still wanted.
    pub open spec fn accepts(self, t: TicketV, cancelled: bool) -> bool {
        !cancelled && t.generation == self.generation && t.session == self.session
    }

    /// After an answer that is still wanted.
    pub open spec fn answered(self, result: Result<Seq<ItemV>, Seq<char>>) -> DiscoverV {
        DiscoverV {
            pending: None,
            results: match result {
                Ok(items) => Some(items),
                Err(_) => Some(Seq::empty()),
            },
            status: match result {
                Ok(_) => StatusV::Idle,
                Err(e) => StatusV::Error(e),
            },
            selected: 0,
            ..self
        }
    }

    /// The items shown: the results where there are some, else those of the local
    /// catalog that the query matches.
    pub open spec fn visible(self, local: Seq<ItemV>) -> Seq<ItemV> {
        match self.results {
            Some(items) => items,
            None => matching(local, lowercase_of(self.editor.now.text)),
        }
    }

    /// After an item was opened; nothing changes while a search is under way or
    /// has failed, or where there is no such item.
    pub open spec fn opened(self, index: int, local: Seq<ItemV>) -> DiscoverV {
        if self.status is Idle && 0 <= index < self.visible(local).len() {
            DiscoverV {
                selected: index,
                detail: Some(self.visible(local)[index]),
                detail_action: 0,
                focused: false,
                ..self
            }
        } else {
            self
        }
    }

    /// Back from the plugin looked at.
    pub open spec fn detail_closed(self) -> DiscoverV {
        DiscoverV { detail: None, detail_action: 0, ..self }
    }
}

/// An item whose name, description or marketplace holds the query, whatever the
/// case of letters.
pub open spec fn item_matches(item: ItemV, query: Seq<char>) -> bool {
    ||| query.len() == 0
    ||| contains_spec(lowercase_of(item.name), query)
    ||| contains_spec(lowercase_of(item.description), query)
    ||| contains_spec(lowercase_of(item.marketplace), query)
}

/// The items that match a query, in order.
pub open spec fn matching(items: Seq<ItemV>, query: Seq<char>) -> Seq<ItemV>
    decreases items.len(),
{
    if items.len() == 0 {
        items
    } else if item_matches(items.last(), query) {
        matching(items.drop_last(), query).push(items.last())
    } else {
        matching(items.drop_last(), query)
    }
}

/// No query leaves no item out.
pub proof fn no_query_matches_all(items: Seq<ItemV>)
    ensures
        matching(items, Seq::empty()) == items,
    decreases items.len(),
{
    if items.len() > 0 {
        no_query_matches_all(items.drop_last());
        assert(items.drop_last().push(items.last()) =~= items);
    }
}

/// Views of references to items.
pub open spec fn item_refs(v: Seq<&PluginSearchResultItem>) -> Seq<ItemV> {
    v.map_values(|p: &PluginSearchResultItem| p@)
}

/// A result of a request, abstractly.
pub open spec fn result_view(r: Result<Vec<PluginSearchResultItem>, String>) -> Result<
    Seq<ItemV>,
    Seq<char>,
> {
    match r {
        Ok(v) => Ok(items_view(v@)),
        Err(e) => Err(e@),
    }
}

impl Default for DiscoverState {
    fn default() -> (d: DiscoverState)
        ensures
            d@ == discover_start(),
    {
        DiscoverState {
            editor: TextAreaState::default(),
            focused: false,
            status: SearchState::Idle,
            selected: 0,
            detail: None,
            detail_action: 0,
            session: SearchSession { id: String::new(), reset: 0 },
            generation: 0,
            pending: None,
            results: None,
        }
    }
}

impl DiscoverState {
    fn cancel_pending(&mut self)
        ensures
            final(self)@ == (DiscoverV { pending: None, ..old(self)@ }),
    {
        self.pending = None;
    }

    fn invalidate(&mut self)
        requires
            old(self)@.generation < u64::MAX,
        ensures
            final(self)@ == old(self)@.invalidated(),
    {
        self.cancel_pending();
        self.generation = self.generation + 1;
        self.status = SearchState::Idle;
        self.results = None;
        self.selected = 0;
        self.close_detail();
    }

    /// Follows the active session: under another one everything is dropped.
    pub fn reset_session(&mut self, session: SearchSession)
        requires
            old(self)@.generation < u64::MAX,
        ensures
            final(self)@ == old(self)@.reset_to(session@),
    {
        if !self.session.is(&session) {
            self.close();
            self.session = session;
        }
    }

    /// Drops the query, the request under way and its results.
    pub fn close(&mut self)
        requires
            old(self)@.generation < u64::MAX,
        ensures
            final(self)@ == old(self)@.closed(),
    {
        self.invalidate();
        self.editor = TextAreaState::default();
        self.focused = false;
    }

    /// Changes the query, which drops what the last one was answered.
    pub fn edit(&mut self, action: QueryEdit)
        requires
            old(self)@.generation < u64::MAX,
        ensures
            final(self)@ == old(self)@.edited(action),
    {
        self.invalidate();
        match action {
            QueryEdit::Insert(c) => self.editor.insert_char(c),
            QueryEdit::Backspace => self.editor.backspace(),
            QueryEdit::Clear => self.editor.clear(),
        }
        self.focused = true;
    }

    /// Starts a search for the query, unless it is empty or was typed under
    /// another session.
    pub fn begin_search(&mut self, session: SearchSession) -> (t: Option<SearchTicket>)
        requires
            old(self)@.generation < u64::MAX,
        ensures
            final(self)@ == old(self)@.searching(session@),
            match t {
                Some(t) => old(self)@.can_search(session@) && t@ == old(self)@.ticket(),
                None => !old(self)@.can_search(session@),
            },
    {
        if self.editor.is_empty() {
            return None;
        }
        if !self.session.is(&session) {
            self.reset_session(session);
            return None;
        }
        self.invalidate();
        self.status = SearchState::Loading;
        self.focused = true;
        self.pending = Some(self.generation);
        Some(
            SearchTicket {
                generation: self.generation,
                session: self.session.copy(),
                query: self.editor.all_text(),
            },
        )
    }

    /// Takes the answer to a ticket, unless it has been cancelled or belongs to an
    /// earlier search or another session.
    pub fn complete(
        &mut self,
        ticket: &SearchTicket,
        cancelled: bool,
        result: Result<Vec<PluginSearchResultItem>, String>,
    ) -> (taken: bool)
        ensures
            taken == old(self)@.accepts(ticket@, cancelled),
            final(self)@ == (if taken {
                old(self)@.answered(result_view(result))
            } else {
                old(self)@
            }),
    {
        if cancelled || ticket.generation != self.generation || !ticket.session.is(&self.session) {
            return false;
        }
        self.pending = None;
        match result {
            Ok(items) => {
                self.results = Some(items);
                self.status = SearchState::Idle;
            },
            Err(error) => {
                let none: Vec<PluginSearchResultItem> = Vec::new();
                assert(items_view(none@) =~= Seq::empty());
                self.results = Some(none);
                self.status = SearchState::Error(error);
            },
        }
        self.selected = 0;
        true
    }

    /// The items shown.
    pub fn visible_items<'a>(&'a self, local: &'a Vec<PluginSearchResultItem>) -> (r: Vec<
        &'a PluginSearchResultItem,
    >)
        ensures
            item_refs(r@) == self@.visible(items_view(local@)),
            self@.results is None && self@.editor.now.text.len() == 0 ==> item_refs(r@)
                == items_view(local@),
    {
        let mut out: Vec<&'a PluginSearchResultItem> = Vec::new();
        match &self.results {
            Some(items) => {
                let mut i: usize = 0;
                while i < items.len()
                    invariant
                        i <= items@.len(),
                        item_refs(out@) == items_view(items@).take(i as int),
                    decreases items.len() - i,
                {
                    let ghost before = item_refs(out@);
                    out.push(&items[i]);
                    assert(item_refs(out@) =~= before.push(items@[i as int]@));
                    i = i + 1;
                    assert(item_refs(out@) =~= items_view(items@).take(i as int));
                }
                assert(item_refs(out@) =~= items_view(items@));
                out
            },
            None => {
                let text = self.editor.all_text();
                let query = to_lowercase(text.as_str());
                let ghost all = items_view(local@);
                let mut i: usize = 0;
                assert(item_refs(out@) =~= matching(all.take(0), query@));
                while i < local.len()
                    invariant
                        i <= local@.len(),
                        all == items_view(local@),
                        item_refs(out@) == matching(all.take(i as int), query@),
                    decreases local.len() - i,
                {
                    let ghost before = item_refs(out@);
                    let item = &local[i];
                    let fits = query.as_str().is_empty() || contains(
                        to_lowercase(item.name.as_str()).as_str(),
                        query.as_str(),
                    ) || contains(
                        to_lowercase(item.description.as_str()).as_str(),
                        query.as_str(),
                    ) || contains(
                        to_lowercase(item.marketplace.as_str()).as_str(),
                        query.as_str(),
                    );
                    assert(all.take(i + 1).drop_last() =~= all.take(i as int));
                    if fits {
                        out.push(item);
                        assert(item_refs(out@) =~= before.push(item@));
                    }
                    i = i + 1;
                }
                assert(all.take(i as int) =~= all);
                proof {
                    if text@.len() == 0 {
                        assert(query@ =~= Seq::<char>::empty());
                        no_query_matches_all(all);
                    }
                }
                out
            },
        }
    }

    /// Looks at the item shown at an index.
    pub fn open_selected(&mut self, index: usize, local: &Vec<PluginSearchResultItem>)
        ensures
            final(self)@ == old(self)@.opened(index as int, items_view(local@)),
    {
        match self.status {
            SearchState::Idle => {},
            _ => {
                return ;
            },
        }
        let ghost shown = self@.visible(items_view(local@));
        let item: Option<PluginSearchResultItem> = {
            let items = self.visible_items(local);
            assert(items@.len() == item_refs(items@).len());
            if index < items.len() {
                assert(item_refs(items@)[index as int] == items@[index as int]@);
                Some(items[index].copy())
            } else {
                None
            }
        };
        match item {
            Some(item) => {
                self.selected = index;
                self.detail = Some(item);
                self.detail_action = 0;
                self.focused = false;
            },
            None => {},
        }
    }

    /// Back from the plugin looked at.
    pub fn close_detail(&mut self)
        ensures
            final(self)@ == old(self)@.detail_closed(),
    {
        self.detail = None;
        self.detail_action = 0;
    }

    /// The plugin looked at and the action chosen for it.
    pub fn detail_selection(&self) -> (r: Option<(PluginSearchResultItem, DiscoverDetailAction)>)
        ensures
            match r {
                Some((item, action)) => {
                    &&& self@.detail == Some(item@)
                    &&& 0 <= self@.detail_action < 3
                    &&& action == discover_actions()[self@.detail_action]
                },
                None => self@.detail is None || self@.detail_action >= 3,
            },
    {
        match &self.detail {
            Some(item) => match DiscoverDetailAction::at(self.detail_action) {
                Some(action) => Some((item.copy(), action)),
                None => None,
            },
            None => None,
        }
    }
}

// ── Laws ───────────────────────────────────────────────────────────────────

/// The answer to a search is wanted right after it was sent.
pub proof fn fresh_ticket_is_accepted(d: DiscoverV, session: SessionV)
    requires
        d.can_search(session),
    ensures
        d.searching(session).accepts(d.ticket(), false),
{
}

/// Whatever drops or replaces a search makes its answer unwanted: a changed
/// query, closing, another session and a new search, even for the same query.
pub proof fn superseded_ticket_is_refused(
    d: DiscoverV,
    session: SessionV,
    e: QueryEdit,
    other: SessionV,
    cancelled: bool,
)
    requires
        d.can_search(session),
        d.generation + 2 <= u64::MAX,
        other != session,
    ensures
        ({
            let t = d.ticket();
            let now = d.searching(session);
            &&& !now.edited(e).accepts(t, cancelled)
            &&& !now.closed().accepts(t, cancelled)
            &&& !now.reset_to(other).accepts(t, cancelled)
            &&& !now.searching(session).accepts(t, cancelled)
            &&& !now.searching(other).accepts(t, cancelled)
        }),
{
}

/// A late answer never replaces a newer one: once a search was sent again, the answer to the
/// first is cancelled and refused, before and after the answer to the second, which is taken
/// unless it is cancelled.
pub proof fn late_answers_are_refused(
    d: DiscoverV,
    session: SessionV,
    result: Result<Seq<ItemV>, Seq<char>>,
    cancelled: bool,
)
    requires
        d.can_search(session),
        d.generation + 2 <= u64::MAX,
    ensures
        ({
            let first = d.ticket();
            let once = d.searching(session);
            let second = once.ticket();
            let twice = once.searching(session);
            &&& once.can_search(session)
            &&& first.session == second.session && first.query == second.query
            &&& twice.pending == Some(second.generation) && first.generation != second.generation
            &&& !twice.accepts(first, cancelled)
            &&& !twice.answered(result).accepts(first, cancelled)
            &&& twice.accepts(second, false)
        }),
{
}

/// An answer without results is an answer: the local catalog does not show
/// through.
pub proof fn empty_answer_hides_catalog(d: DiscoverV, local: Seq<ItemV>)
    ensures
        d.answered(Ok(Seq::empty())).visible(local).len() == 0,
        forall|e: Seq<char>| #[trigger] d.answered(Err(e)).visible(local).len() == 0,
{
}

/// Neither an answer nor a failure touches the query, so a search can be tried
/// again.
pub proof fn answers_keep_the_query(d: DiscoverV, result: Result<Seq<ItemV>, Seq<char>>)
    ensures
        d.answered(result).editor == d.editor,
        d.answered(result).status !is Loading,
{
}

} // verus!
