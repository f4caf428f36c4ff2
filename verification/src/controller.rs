//! The controller of one search: what is being asked, where the fetch
//! stands, and the trail of what happened.
//!
//! The controller never performs a fetch. `submit` and the navigation
//! operations hand back the request to perform, if there is one, and
//! `resolve` takes what came of it.

use vstd::prelude::*;
use vstd::string::*;
use crate::client::{FetchError, FetchErrorView};
use crate::query::{FetchRequest, QueryView, SearchQuery};
use crate::text::{decimal, decimal_text};
use crate::pagination::{build_window, marker_code, window, PageMarker};
use crate::trip::{GetByPriceRangeOutput, ResultPageView};

verus! {

/// Where the fetch of a controller stands.
#[derive(Debug, Clone, PartialEq, Eq)]
pub enum FetchState {
    Idle,
    Loading,
    Success(GetByPriceRangeOutput),
    Error(String),
}

/// A fetch state as plain values.
pub enum StateView {
    Idle,
    Loading,
    Success(ResultPageView),
    Error(Seq<char>),
}

impl View for FetchState {
    type V = StateView;

    open spec fn view(&self) -> StateView {
        match self {
            FetchState::Idle => StateView::Idle,
            FetchState::Loading => StateView::Loading,
            FetchState::Success(result) => StateView::Success(result@),
            FetchState::Error(message) => StateView::Error(message@),
        }
    }
}

/// The trail entry written when page `page` is requested.
pub open spec fn request_entry(page: u32) -> Seq<char> {
    "📝 Solicitando página "@ + decimal(page as nat)
}

/// The trail entry written when the service served another page than the
/// one requested. It names both.
pub open spec fn mismatch_entry(requested: u32, received: u32) -> Seq<char> {
    "⚠️ Advertencia: Solicitamos página "@ + decimal(requested as nat)
        + " pero recibimos página "@ + decimal(received as nat)
}

/// The trail entry written for a page that arrived: the page served, the
/// number of items on it, the total count and the number of pages.
pub open spec fn summary_entry(page: u32, items: nat, total: u32, pages: u32) -> Seq<char> {
    "✅ Resultados página "@ + decimal(page as nat) + ": "@ + decimal(items) + " elementos de "@
        + decimal(total as nat) + " totales (páginas: "@ + decimal(pages as nat) + ")"@
}

/// The trail entry, and the error shown, for a fetch that failed with `message`.
pub open spec fn failure_entry(message: Seq<char>) -> Seq<char> {
    "❌ Error al obtener datos: "@ + message
}

/// What came of a fetch, as plain values.
pub open spec fn outcome_view(outcome: Result<GetByPriceRangeOutput, FetchError>) -> Result<
    ResultPageView,
    FetchErrorView,
> {
    match outcome {
        Ok(result) => Ok(result@),
        Err(error) => Err(error@),
    }
}

/// A controller as plain values.
pub struct ControllerView {
    pub query: Option<QueryView>,
    pub state: StateView,
    pub trail: Seq<Seq<char>>,
}

impl ControllerView {
    /// A controller that has not been asked anything yet.
    pub open spec fn initial() -> ControllerView {
        ControllerView { query: None, state: StateView::Idle, trail: Seq::empty() }
    }

    /// A controller is idle until its first query, and never again.
    pub open spec fn well_formed(self) -> bool {
        self.state is Idle <==> self.query is None
    }

    /// The page that the current query asks for.
    pub open spec fn requested_page(self) -> u32 {
        match self.query {
            Some(query) => query.page(),
            None => 1,
        }
    }

    /// Whether a submitted query would start a fetch: only one fetch is in
    /// flight at a time.
    pub open spec fn accepts_submit(self) -> bool {
        !(self.state is Loading)
    }

    /// The controller after `query` was submitted.
    pub open spec fn submit(self, query: QueryView) -> ControllerView {
        if self.accepts_submit() {
            ControllerView {
                query: Some(query),
                state: StateView::Loading,
                trail: self.trail.push(request_entry(query.page())),
            }
        } else {
            self
        }
    }

    /// The controller after its fetch ended in `outcome`. The page that the
    /// service says it served is taken as it is.
    pub open spec fn resolve(
        self,
        outcome: Result<ResultPageView, FetchErrorView>,
    ) -> ControllerView {
        if !(self.state is Loading) {
            self
        } else {
            match outcome {
                Ok(result) => {
                    let noted = if result.page != self.requested_page() {
                        self.trail.push(mismatch_entry(self.requested_page(), result.page))
                    } else {
                        self.trail
                    };
                    ControllerView {
                        query: self.query,
                        state: StateView::Success(result),
                        trail: noted.push(
                            summary_entry(
                                result.page,
                                result.items.len(),
                                result.total,
                                result.pages,
                            ),
                        ),
                    }
                },
                Err(error) => ControllerView {
                    query: self.query,
                    state: StateView::Error(failure_entry(error.message())),
                    trail: self.trail.push(failure_entry(error.message())),
                },
            }
        }
    }

    /// The page on show: the page that the service last served, whatever
    /// was asked for; while no result is on show, the page asked for.
    pub open spec fn shown_page(self) -> u32 {
        match self.state {
            StateView::Success(result) => result.page,
            _ => self.requested_page(),
        }
    }

    /// The query that a move to page `n` submits, if it submits one. Page 0
    /// stands for a gap in the strip and leads nowhere; neither does the
    /// page on show, nor a search that has no pages.
    pub open spec fn page_target(self, n: u32) -> Option<QueryView> {
        match self.query {
            Some(query) => if n != 0 && query.is_paged() && n != self.shown_page()
                && self.accepts_submit() {
                Some(query.with_page(n))
            } else {
                None
            },
            None => None,
        }
    }

    /// The controller after a move to page `n`.
    pub open spec fn go_to_page(self, n: u32) -> ControllerView {
        match self.page_target(n) {
            Some(query) => self.submit(query),
            None => self,
        }
    }

    /// The page after the one last served, or 0 where there is none: no
    /// page was served yet, or the last one was.
    pub open spec fn following_page(self) -> u32 {
        match self.state {
            StateView::Success(result) => if result.page < result.pages {
                (result.page + 1) as u32
            } else {
                0
            },
            _ => 0,
        }
    }

    /// The page before the one last served, kept within the pages there
    /// are, or 0 where there is none: no page was served yet, or the first
    /// one was.
    pub open spec fn preceding_page(self) -> u32 {
        match self.state {
            StateView::Success(result) => if result.page > 1 && result.pages >= 1 {
                if result.page - 1 < result.pages {
                    (result.page - 1) as u32
                } else {
                    result.pages
                }
            } else {
                0
            },
            _ => 0,
        }
    }

    /// The navigation strip for the page last served. There is none while
    /// no page was served, and none for a result of one page or less, which
    /// leaves nowhere to go.
    pub open spec fn page_window(self) -> Seq<PageMarker> {
        match self.state {
            StateView::Success(result) => if result.pages > 1 {
                window(result.page, result.pages)
            } else {
                Seq::empty()
            },
            _ => Seq::empty(),
        }
    }

    /// The controller after a move to the following page.
    pub open spec fn next_page(self) -> ControllerView {
        self.go_to_page(self.following_page())
    }

    /// The controller after a move to the preceding page.
    pub open spec fn previous_page(self) -> ControllerView {
        self.go_to_page(self.preceding_page())
    }
}

/// Writes the trail entry for a request of page `page`.
pub fn request_line(page: u32) -> (line: String)
    ensures
        line@ == request_entry(page),
{
    let mut line = String::from_str("📝 Solicitando página ");
    line.append(decimal_text(page as u64).as_str());
    line
}

/// Writes the trail entry for a page that is not the one requested.
pub fn mismatch_line(requested: u32, received: u32) -> (line: String)
    ensures
        line@ == mismatch_entry(requested, received),
{
    let mut line = String::from_str("⚠️ Advertencia: Solicitamos página ");
    line.append(decimal_text(requested as u64).as_str());
    line.append(" pero recibimos página ");
    line.append(decimal_text(received as u64).as_str());
    line
}

/// Writes the trail entry for a page that arrived.
pub fn summary_line(page: u32, items: usize, total: u32, pages: u32) -> (line: String)
    ensures
        line@ == summary_entry(page, items as nat, total, pages),
{
    let mut line = String::from_str("✅ Resultados página ");
    line.append(decimal_text(page as u64).as_str());
    line.append(": ");
    line.append(decimal_text(items as u64).as_str());
    line.append(" elementos de ");
    line.append(decimal_text(total as u64).as_str());
    line.append(" totales (páginas: ");
    line.append(decimal_text(pages as u64).as_str());
    line.append(")");
    line
}

/// Writes the trail entry for a fetch that failed with `message`.
pub fn failure_line(message: &str) -> (line: String)
    ensures
        line@ == failure_entry(message@),
{
    let mut line = String::from_str("❌ Error al obtener datos: ");
    line.append(message);
    line
}

/// The controller of one search.
pub struct SearchController {
    query: Option<SearchQuery>,
    state: FetchState,
    trail: Vec<String>,
}

impl View for SearchController {
    type V = ControllerView;

    closed spec fn view(&self) -> ControllerView {
        ControllerView {
            query: match self.query {
                Some(query) => Some(query@),
                None => None,
            },
            state: self.state@,
            trail: Seq::new(self.trail@.len(), |i: int| self.trail@[i]@),
        }
    }
}

impl SearchController {
    /// A controller that has not been asked anything yet.
    pub fn new() -> (controller: SearchController)
        ensures
            controller@ == ControllerView::initial(),
    {
        let controller = SearchController {
            query: None,
            state: FetchState::Idle,
            trail: Vec::new(),
        };
        assert(controller@.trail =~= Seq::empty());
        controller
    }

    /// Where the fetch stands.
    pub fn fetch_state(&self) -> (state: &FetchState)
        ensures
            state@ == self@.state,
    {
        &self.state
    }

    /// The query last submitted, if any was.
    pub fn current_query(&self) -> (query: Option<&SearchQuery>)
        ensures
            match query {
                Some(query) => self@.query == Some(query@),
                None => self@.query is None,
            },
    {
        self.query.as_ref()
    }

    /// The trail so far, oldest entry first.
    pub fn diagnostic_trail(&self) -> (trail: &Vec<String>)
        ensures
            trail@.len() == self@.trail.len(),
            forall|i: int| 0 <= i < trail@.len() ==> (#[trigger] trail@[i])@ == self@.trail[i],
    {
        &self.trail
    }

    /// Whether a fetch is in flight.
    pub fn is_loading(&self) -> (loading: bool)
        ensures
            loading == (self@.state is Loading),
            loading == !self@.accepts_submit(),
    {
        match &self.state {
            FetchState::Loading => true,
            _ => false,
        }
    }

    /// The page that the current query asks for.
    pub fn requested_page(&self) -> (page: u32)
        ensures
            page == self@.requested_page(),
    {
        match &self.query {
            Some(query) => query.page(),
            None => 1,
        }
    }

    /// The page on show: the page last served, or, while no result is on
    /// show, the page asked for.
    pub fn shown_page(&self) -> (page: u32)
        ensures
            page == self@.shown_page(),
    {
        match &self.state {
            FetchState::Success(result) => result.page,
            _ => self.requested_page(),
        }
    }

    /// The navigation strip for the page last served; empty while there is
    /// none, and for a result of one page or less.
    pub fn page_window(&self) -> (markers: Vec<PageMarker>)
        ensures
            markers@ == self@.page_window(),
    {
        match &self.state {
            FetchState::Success(result) => if result.pages > 1 {
                build_window(result.page, result.pages)
            } else {
                Vec::new()
            },
            _ => Vec::new(),
        }
    }

    /// Submits `query`, and hands back the request to perform. While a
    /// fetch is in flight nothing happens and nothing is to be performed.
    pub fn submit(&mut self, query: SearchQuery) -> (action: Option<FetchRequest>)
        ensures
            final(self)@ == old(self)@.submit(query@),
            match action {
                Some(request) => old(self)@.accepts_submit() && request@ == query@.request(),
                None => !old(self)@.accepts_submit(),
            },
    {
        if self.is_loading() {
            return None;
        }
        let request = query.to_request();
        let line = request_line(query.page());
        self.trail.push(line);
        self.query = Some(query);
        self.state = FetchState::Loading;
        assert(self@.trail =~= old(self)@.trail.push(request_entry(query@.page())));
        Some(request)
    }

    /// Takes in what came of the fetch in flight, and says whether there
    /// was one. With no fetch in flight nothing happens.
    pub fn resolve(&mut self, outcome: Result<GetByPriceRangeOutput, FetchError>) -> (applied:
        bool)
        ensures
            final(self)@ == old(self)@.resolve(outcome_view(outcome)),
            applied == (old(self)@.state is Loading),
    {
        if !self.is_loading() {
            return false;
        }
        match outcome {
            Ok(result) => {
                let requested: u32 = self.requested_page();
                if result.page != requested {
                    self.trail.push(mismatch_line(requested, result.page));
                }
                self.trail.push(
                    summary_line(result.page, result.items.len(), result.total, result.pages),
                );
                self.state = FetchState::Success(result);
                assert(self@.trail =~= old(self)@.resolve(outcome_view(outcome)).trail);
                true
            },
            Err(error) => {
                let message = error.message();
                let line = failure_line(message.as_str());
                self.trail.push(line.clone());
                self.state = FetchState::Error(line);
                assert(self@.trail =~= old(self)@.resolve(outcome_view(outcome)).trail);
                true
            },
        }
    }

    /// Moves to page `n`, and hands back the request to perform, if the
    /// move leads anywhere.
    pub fn go_to_page(&mut self, n: u32) -> (action: Option<FetchRequest>)
        ensures
            final(self)@ == old(self)@.go_to_page(n),
            match action {
                Some(request) => old(self)@.page_target(n) matches Some(query) && request@
                    == query.request(),
                None => old(self)@.page_target(n) is None,
            },
    {
        if n == 0 || self.is_loading() || n == self.shown_page() {
            return None;
        }
        let target = match &self.query {
            Some(query) => if query.is_paged() {
                Some(query.with_page(n))
            } else {
                None
            },
            None => None,
        };
        match target {
            Some(query) => self.submit(query),
            None => None,
        }
    }

    /// Moves to the page after the one last served.
    pub fn next_page(&mut self) -> (action: Option<FetchRequest>)
        ensures
            final(self)@ == old(self)@.next_page(),
            match action {
                Some(request) => old(self)@.page_target(old(self)@.following_page()) matches Some(
                    query,
                ) && request@ == query.request(),
                None => old(self)@.page_target(old(self)@.following_page()) is None,
            },
    {
        let n: u32 = match &self.state {
            FetchState::Success(result) => if result.page < result.pages {
                result.page + 1
            } else {
                0
            },
            _ => 0,
        };
        self.go_to_page(n)
    }

    /// Moves to the page before the one last served.
    pub fn previous_page(&mut self) -> (action: Option<FetchRequest>)
        ensures
            final(self)@ == old(self)@.previous_page(),
            match action {
                Some(request) => old(self)@.page_target(old(self)@.preceding_page()) matches Some(
                    query,
                ) && request@ == query.request(),
                None => old(self)@.page_target(old(self)@.preceding_page()) is None,
            },
    {
        let n: u32 = match &self.state {
            FetchState::Success(result) => if result.page > 1 && result.pages >= 1 {
                if result.page - 1 < result.pages {
                    result.page - 1
                } else {
                    result.pages
                }
            } else {
                0
            },
            _ => 0,
        };
        self.go_to_page(n)
    }
}

/// While a fetch is in flight no operation starts another: a submitted
/// query and every move leave the controller as it is, state, query and
/// trail.
pub proof fn lemma_single_flight(c: ControllerView, query: QueryView, n: u32)
    requires
        c.state is Loading,
    ensures
        !c.accepts_submit(),
        c.submit(query) == c,
        c.page_target(n) is None,
        c.go_to_page(n) == c,
        c.next_page() == c,
        c.previous_page() == c,
{
}

/// A fetch that ends always leaves `Loading`, and only a fetch that ends
/// does: with none in flight an outcome changes nothing.
pub proof fn lemma_resolve_ends_loading(
    c: ControllerView,
    outcome: Result<ResultPageView, FetchErrorView>,
)
    ensures
        !(c.resolve(outcome).state is Loading),
        !(c.state is Loading) ==> c.resolve(outcome) == c,
        c.state is Loading ==> (c.resolve(outcome).state is Success <==> outcome is Ok),
        c.state is Loading ==> (c.resolve(outcome).state is Error <==> outcome is Err),
{
}

/// Every gap of the strip leads nowhere: a move to what a gap stands for
/// changes nothing.
pub proof fn lemma_gaps_lead_nowhere(c: ControllerView, i: int)
    requires
        0 <= i < c.page_window().len(),
        c.page_window()[i] == PageMarker::Ellipsis,
    ensures
        c.go_to_page(marker_code(c.page_window()[i])) == c,
{
}

/// From any state but `Loading` a submitted query starts a new cycle: the
/// controller takes the query, goes to `Loading` and notes the page asked for.
pub proof fn lemma_submit_starts_cycle(c: ControllerView, query: QueryView)
    requires
        !(c.state is Loading),
    ensures
        c.submit(query).state is Loading,
        c.submit(query).query == Some(query),
        c.submit(query).trail == c.trail.push(request_entry(query.page())),
{
}

/// A page that arrives is taken as the service describes it. Where it is
/// not the page asked for, the trail gets an entry that names both, before
/// the entry for the page itself, and the state still holds the page that
/// the service served.
pub proof fn lemma_served_page_is_kept(c: ControllerView, result: ResultPageView)
    requires
        c.state is Loading,
    ensures
        c.resolve(Ok(result)).state == StateView::Success(result),
        c.resolve(Ok(result)).query == c.query,
        result.page != c.requested_page() ==> {
            &&& c.resolve(Ok(result)).trail.len() == c.trail.len() + 2
            &&& c.resolve(Ok(result)).trail[c.trail.len() as int] == mismatch_entry(
                c.requested_page(),
                result.page,
            )
        },
        result.page == c.requested_page() ==> c.resolve(Ok(result)).trail.len() == c.trail.len()
            + 1,
        c.resolve(Ok(result)).trail.last() == summary_entry(
            result.page,
            result.items.len(),
            result.total,
            result.pages,
        ),
{
}

/// A fetch that fails leaves the controller in `Error` with the failure's
/// message, and the trail one entry longer, with the same text.
pub proof fn lemma_failure_is_recorded(c: ControllerView, error: FetchErrorView)
    requires
        c.state is Loading,
    ensures
        c.resolve(Err(error)).state == StateView::Error(failure_entry(error.message())),
        c.resolve(Err(error)).query == c.query,
        c.resolve(Err(error)).trail == c.trail.push(failure_entry(error.message())),
{
}

/// On the last page, or past it, a move to the following page changes
/// nothing and asks for no fetch.
pub proof fn lemma_next_page_at_end(c: ControllerView)
    requires
        c.state matches StateView::Success(result) && result.page >= result.pages,
    ensures
        c.next_page() == c,
        c.page_target(c.following_page()) is None,
{
}

/// On the first page a move to the preceding page changes nothing and asks
/// for no fetch.
pub proof fn lemma_previous_page_at_start(c: ControllerView)
    requires
        c.state matches StateView::Success(result) && result.page <= 1,
    ensures
        c.previous_page() == c,
        c.page_target(c.preceding_page()) is None,
{
}

/// Before any page was served there is nowhere to move to.
pub proof fn lemma_no_move_without_result(c: ControllerView)
    requires
        !(c.state is Success),
    ensures
        c.next_page() == c,
        c.previous_page() == c,
{
}

/// A move to page 0, which stands for a gap in the strip, changes nothing
/// and asks for no fetch, whatever the state.
pub proof fn lemma_go_to_gap(c: ControllerView)
    ensures
        c.go_to_page(0) == c,
        c.page_target(0) is None,
{
}

/// A move to the page on show changes nothing either and asks for no
/// fetch. With a result on show that is the page that was served, also
/// where another page was asked for.
pub proof fn lemma_go_to_shown_page(c: ControllerView)
    ensures
        c.go_to_page(c.shown_page()) == c,
        c.page_target(c.shown_page()) is None,
        c.state matches StateView::Success(result) ==> c.go_to_page(result.page) == c,
{
}

/// With no fetch in flight, a move of a paged search to any page from 1 up
/// but the one on show submits the same search for that page: the
/// controller goes to `Loading`, the query keeps everything but its page,
/// and the move is noted on the trail.
pub proof fn lemma_go_to_other_page(c: ControllerView, n: u32)
    requires
        !(c.state is Loading),
        c.query matches Some(query) && query.is_paged(),
        n >= 1,
        n != c.shown_page(),
    ensures
        c.page_target(n) == Some(c.query->0.with_page(n)),
        c.go_to_page(n).state is Loading,
        c.go_to_page(n).query == Some(c.query->0.with_page(n)),
        c.go_to_page(n).requested_page() == n,
        c.go_to_page(n).trail == c.trail.push(request_entry(n)),
{
}

/// A move leads somewhere only from a page number of 1 or more, only for a
/// paged search and only with no fetch in flight.
pub proof fn lemma_go_to_page_keeps_search(c: ControllerView, n: u32)
    requires
        c.page_target(n) is Some,
    ensures
        n >= 1,
        n != c.shown_page(),
        !(c.state is Loading),
        c.query matches Some(query) && query.is_paged() && c.page_target(n) == Some(
            query.with_page(n),
        ),
{
}

/// Below the last page, a move of a paged search to the following page
/// asks for the page after the one that was served, whatever page was
/// asked for before.
pub proof fn lemma_next_page_below_end(c: ControllerView)
    requires
        c.state matches StateView::Success(result) && result.page < result.pages,
        c.query matches Some(query) && query.is_paged(),
    ensures
        c.following_page() == c.state->Success_0.page + 1,
        c.page_target(c.following_page()) == Some(
            c.query->0.with_page(c.following_page()),
        ),
        c.next_page().state is Loading,
        c.next_page().requested_page() == c.state->Success_0.page + 1,
{
}

/// Above the first page, a move of a paged search to the preceding page
/// asks for the page before the one that was served, or for the last page
/// there is where that lies earlier.
pub proof fn lemma_previous_page_above_start(c: ControllerView)
    requires
        c.state matches StateView::Success(result) && result.page > 1 && result.pages >= 1,
        c.query matches Some(query) && query.is_paged(),
    ensures
        c.preceding_page() == if c.state->Success_0.page - 1 < c.state->Success_0.pages {
            (c.state->Success_0.page - 1) as u32
        } else {
            c.state->Success_0.pages
        },
        c.page_target(c.preceding_page()) == Some(
            c.query->0.with_page(c.preceding_page()),
        ),
        c.previous_page().state is Loading,
        c.previous_page().requested_page() == c.preceding_page(),
{
}

/// The moves to a neighbouring page stay within the pages that the service
/// reported.
pub proof fn lemma_neighbours_in_range(c: ControllerView)
    requires
        c.state is Success,
    ensures
        c.following_page() != 0 ==> 1 <= c.following_page() <= c.state->Success_0.pages,
        c.preceding_page() != 0 ==> 1 <= c.preceding_page() <= c.state->Success_0.pages,
{
}

/// Whether `old` is the beginning of `new`.
pub open spec fn extends(new: Seq<Seq<char>>, old: Seq<Seq<char>>) -> bool {
    old.len() <= new.len() && new.take(old.len() as int) == old
}

/// The trail only grows: whatever the operation, what was written stays,
/// in its place.
pub proof fn lemma_trail_only_grows(
    c: ControllerView,
    query: QueryView,
    outcome: Result<ResultPageView, FetchErrorView>,
    n: u32,
)
    ensures
        extends(c.submit(query).trail, c.trail),
        extends(c.resolve(outcome).trail, c.trail),
        extends(c.go_to_page(n).trail, c.trail),
        extends(c.next_page().trail, c.trail),
        extends(c.previous_page().trail, c.trail),
{
    assert(c.trail.take(c.trail.len() as int) == c.trail);
    assert forall|longer: Seq<Seq<char>>, entry: Seq<char>| #[trigger]
        extends(longer, c.trail) implies extends(#[trigger] longer.push(entry), c.trail) by {
        assert(longer.push(entry).take(c.trail.len() as int) =~= longer.take(
            c.trail.len() as int,
        ));
    }
    assert(extends(c.trail, c.trail));
    match outcome {
        Ok(result) => {
            let noted = c.trail.push(mismatch_entry(c.requested_page(), result.page));
            assert(extends(noted, c.trail));
        },
        Err(error) => {},
    }
    match c.page_target(n) {
        Some(target) => {
            assert(extends(c.submit(target).trail, c.trail));
        },
        None => {},
    }
    match c.page_target(c.following_page()) {
        Some(target) => {
            assert(extends(c.submit(target).trail, c.trail));
        },
        None => {},
    }
    match c.page_target(c.preceding_page()) {
        Some(target) => {
            assert(extends(c.submit(target).trail, c.trail));
        },
        None => {},
    }
}

/// Every operation keeps a well-formed controller well-formed, and a fresh
/// controller is well-formed.
pub proof fn lemma_well_formed_is_kept(
    c: ControllerView,
    query: QueryView,
    outcome: Result<ResultPageView, FetchErrorView>,
    n: u32,
)
    requires
        c.well_formed(),
    ensures
        ControllerView::initial().well_formed(),
        c.submit(query).well_formed(),
        c.resolve(outcome).well_formed(),
        c.go_to_page(n).well_formed(),
        c.next_page().well_formed(),
        c.previous_page().well_formed(),
{
}

/// A move between pages never turns a well-formed query into one that is not.
pub proof fn lemma_moves_keep_query_well_formed(c: ControllerView, n: u32)
    requires
        c.query matches Some(query) && query.well_formed(),
    ensures
        c.go_to_page(n).query matches Some(query) && query.well_formed(),
        c.next_page().query matches Some(query) && query.well_formed(),
        c.previous_page().query matches Some(query) && query.well_formed(),
{
}

} // verus!
