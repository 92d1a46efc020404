//! A search against a store, as a sequence of decisions.
//!
//! The store is outside this crate. A search tells its caller which
//! statement to run, takes what the store replied, and tells the next step:
//! first the count, then the page, then the result. A failure of either
//! statement ends the search with that failure; it is never read as "no
//! matches".
//!
//! The count and the page are two reads. Where the store changes between
//! them, the page may hold more or fewer flights than the total lets one
//! expect; the search hands on both as they came. Only what no store replies
//! that ran the statements as written is refused: a negative count, and a
//! page longer than the page size.

use crate::date::CalendarDate;
use crate::model::{Page, PageView, RewardFlightLatest, RewardFlightView};
use crate::paging::{pages_needed, saturated};
use crate::query::{
    cheapest_count, cheapest_count_statement, cheapest_page, cheapest_page_statement,
    range_count, range_count_statement, range_page, range_page_statement, Statement,
    StatementView,
};
use crate::row::{map_row, mapped, FlightRow, MappingError};
use vstd::prelude::*;

verus! {

/// What the store's driver said when a statement failed.
#[derive(Clone, Debug)]
pub struct DataAccessError {
    pub detail: String,
}

/// A reply that no store gives that runs the statements as written.
#[derive(Clone, Copy, Debug, PartialEq, Eq, Structural)]
pub enum ReplyFault {
    /// The count is negative.
    NegativeCount,
    /// The page holds more rows than the page size.
    OversizedPage,
    /// The reply answers no statement that was sent.
    OutOfTurn,
}

/// Why a search gave no page.
#[derive(Clone, Debug)]
pub enum SearchError {
    /// The page size is zero.
    InvalidPageSize,
    /// The store failed to run the count or the page statement.
    DataAccess(DataAccessError),
    /// The store replied what the statements cannot yield.
    BrokenReply(ReplyFault),
    /// The row at position `row` of the page could not become a flight.
    Mapping { row: usize, cause: MappingError },
}

/// What is searched for.
#[derive(Clone, Debug)]
pub enum SearchQuery {
    /// Flights of one carrier between two airports that depart from
    /// `from_date` to `to_date`, both included, earliest first.
    Range {
        origin: String,
        destination: String,
        carrier_code: String,
        from_date: CalendarDate,
        to_date: CalendarDate,
    },
    /// Flights between two airports that can be booked in the cabin named
    /// `cabin_type`, cheapest first.
    Cheapest { origin: String, destination: String, cabin_type: String },
}

/// What a query holds.
pub enum QueryView {
    Range {
        origin: Seq<char>,
        destination: Seq<char>,
        carrier_code: Seq<char>,
        from_date: int,
        to_date: int,
    },
    Cheapest { origin: Seq<char>, destination: Seq<char>, cabin_type: Seq<char> },
}

impl View for SearchQuery {
    type V = QueryView;

    open spec fn view(&self) -> QueryView {
        match self {
            SearchQuery::Range { origin, destination, carrier_code, from_date, to_date } =>
                QueryView::Range {
                origin: origin@,
                destination: destination@,
                carrier_code: carrier_code@,
                from_date: from_date@,
                to_date: to_date@,
            },
            SearchQuery::Cheapest { origin, destination, cabin_type } => QueryView::Cheapest {
                origin: origin@,
                destination: destination@,
                cabin_type: cabin_type@,
            },
        }
    }
}

/// A query and the page of its result that is asked for.
#[derive(Clone, Debug)]
pub struct SearchRequest {
    pub query: SearchQuery,
    pub page_number: usize,
    pub page_size: usize,
}

/// What a request holds.
pub struct RequestView {
    pub query: QueryView,
    pub page_number: nat,
    pub page_size: nat,
}

impl View for SearchRequest {
    type V = RequestView;

    open spec fn view(&self) -> RequestView {
        RequestView {
            query: self.query@,
            page_number: self.page_number as nat,
            page_size: self.page_size as nat,
        }
    }
}

/// How far a search has come.
#[derive(Clone, Debug)]
pub enum SearchState {
    /// The count statement was handed out.
    Counting(SearchRequest),
    /// The store counted `total` flights, and the page statement was handed out.
    Fetching { request: SearchRequest, total: i64 },
    /// The search has ended.
    Finished,
}

/// What the store replied to a statement.
#[derive(Debug)]
pub enum StoreReply {
    Count(Result<i64, DataAccessError>),
    Rows(Result<Vec<FlightRow>, DataAccessError>),
}

/// What the caller of a search does next.
#[derive(Debug)]
pub enum NextStep {
    /// Run the statement and reply with its count.
    RunCount(Statement),
    /// Run the statement and reply with its rows.
    RunPage(Statement),
    /// Hand the result on.
    Done(Result<Page<RewardFlightLatest>, SearchError>),
}

/// What a next step holds.
pub enum NextStepView {
    RunCount(StatementView),
    RunPage(StatementView),
    Done(Result<PageView<RewardFlightView>, SearchError>),
}

impl View for NextStep {
    type V = NextStepView;

    open spec fn view(&self) -> NextStepView {
        match self {
            NextStep::RunCount(s) => NextStepView::RunCount(s@),
            NextStep::RunPage(s) => NextStepView::RunPage(s@),
            NextStep::Done(Ok(page)) => NextStepView::Done(Ok(page@)),
            NextStep::Done(Err(e)) => NextStepView::Done(Err(*e)),
        }
    }
}

/// The first position from `from` on whose row becomes no flight, or the
/// number of rows where every row from `from` on becomes one.
pub open spec fn first_unmapped(rows: Seq<FlightRow>, from: int) -> int
    decreases rows.len() - from,
{
    if from < 0 || from >= rows.len() {
        rows.len() as int
    } else if mapped(rows[from]) is Err {
        from
    } else {
        first_unmapped(rows, from + 1)
    }
}

/// The flights that the rows stand for, in the order of the rows, or the
/// first row that stands for none.
pub open spec fn mapped_rows(rows: Seq<FlightRow>) -> Result<Seq<RewardFlightView>, SearchError> {
    let stop = first_unmapped(rows, 0);
    if stop < rows.len() {
        Err(SearchError::Mapping { row: stop as usize, cause: mapped(rows[stop])->Err_0 })
    } else {
        Ok(Seq::new(rows.len(), |i: int| mapped(rows[i])->Ok_0))
    }
}

/// The page that a count and the rows of a page make.
pub open spec fn assembled(total: int, rows: Seq<FlightRow>, page_number: int, page_size: int)
    -> Result<PageView<RewardFlightView>, SearchError> {
    if page_size <= 0 {
        Err(SearchError::InvalidPageSize)
    } else if total < 0 {
        Err(SearchError::BrokenReply(ReplyFault::NegativeCount))
    } else if rows.len() > page_size {
        Err(SearchError::BrokenReply(ReplyFault::OversizedPage))
    } else {
        match mapped_rows(rows) {
            Err(e) => Err(e),
            Ok(content) => Ok(
                PageView {
                    content,
                    page_number,
                    page_size,
                    total_elements: total,
                    total_pages: saturated(pages_needed(total, page_size)),
                },
            ),
        }
    }
}

/// The statement that counts what a request searches for.
pub open spec fn count_statement_of(request: RequestView) -> StatementView {
    match request.query {
        QueryView::Range { origin, destination, carrier_code, from_date, to_date } =>
            range_count_statement(origin, destination, carrier_code, from_date, to_date),
        QueryView::Cheapest { origin, destination, cabin_type } => cheapest_count_statement(
            origin,
            destination,
            cabin_type,
        ),
    }
}

/// The statement that fetches the page that a request asks for.
pub open spec fn page_statement_of(request: RequestView) -> StatementView {
    match request.query {
        QueryView::Range { origin, destination, carrier_code, from_date, to_date } =>
            range_page_statement(
            origin,
            destination,
            carrier_code,
            from_date,
            to_date,
            request.page_number as int,
            request.page_size as int,
        ),
        QueryView::Cheapest { origin, destination, cabin_type } => cheapest_page_statement(
            origin,
            destination,
            cabin_type,
            request.page_number as int,
            request.page_size as int,
        ),
    }
}

/// The state in which a search begins.
pub open spec fn first_state(request: SearchRequest) -> SearchState {
    if request.page_size == 0 {
        SearchState::Finished
    } else {
        SearchState::Counting(request)
    }
}

/// The step with which a search begins.
pub open spec fn first_step(request: SearchRequest) -> NextStepView {
    if request.page_size == 0 {
        NextStepView::Done(Err(SearchError::InvalidPageSize))
    } else {
        NextStepView::RunCount(count_statement_of(request@))
    }
}

/// The state that follows `state` on `reply`.
pub open spec fn next_state(state: SearchState, reply: StoreReply) -> SearchState {
    match (state, reply) {
        (SearchState::Counting(request), StoreReply::Count(Ok(total))) => if total >= 0 {
            SearchState::Fetching { request, total }
        } else {
            SearchState::Finished
        },
        _ => SearchState::Finished,
    }
}

/// The step that follows `state` on `reply`.
pub open spec fn next_step(state: SearchState, reply: StoreReply) -> NextStepView {
    match (state, reply) {
        (SearchState::Counting(request), StoreReply::Count(Ok(total))) => if total >= 0 {
            NextStepView::RunPage(page_statement_of(request@))
        } else {
            NextStepView::Done(Err(SearchError::BrokenReply(ReplyFault::NegativeCount)))
        },
        (SearchState::Counting(_), StoreReply::Count(Err(e))) => NextStepView::Done(
            Err(SearchError::DataAccess(e)),
        ),
        (SearchState::Fetching { request, total }, StoreReply::Rows(Ok(rows))) => NextStepView::Done(
            assembled(total as int, rows@, request.page_number as int, request.page_size as int),
        ),
        (SearchState::Fetching { .. }, StoreReply::Rows(Err(e))) => NextStepView::Done(
            Err(SearchError::DataAccess(e)),
        ),
        _ => NextStepView::Done(Err(SearchError::BrokenReply(ReplyFault::OutOfTurn))),
    }
}

/// What `mapped_rows` says row by row: where it yields flights, every row
/// becomes the flight at its position; where it yields an error, the error
/// names the first row that becomes none, with the reason.
pub proof fn lemma_mapped_rows(rows: Seq<FlightRow>)
    requires
        rows.len() <= usize::MAX,
    ensures
        match mapped_rows(rows) {
            Ok(content) => {
                &&& content.len() == rows.len()
                &&& forall|i: int|
                    0 <= i < rows.len() ==> mapped(rows[i]) == Ok::<RewardFlightView, MappingError>(
                        #[trigger] content[i],
                    )
            },
            Err(SearchError::Mapping { row, cause }) => {
                &&& row < rows.len()
                &&& mapped(rows[row as int]) == Err::<RewardFlightView, MappingError>(cause)
                &&& forall|i: int| 0 <= i < row ==> (#[trigger] mapped(rows[i])) is Ok
            },
            Err(_) => false,
        },
{
    lemma_first_unmapped(rows, 0);
}

/// From `from` on, no row before the first unmapped one becomes no flight.
proof fn lemma_first_unmapped(rows: Seq<FlightRow>, from: int)
    requires
        0 <= from <= rows.len(),
    ensures
        from <= first_unmapped(rows, from) <= rows.len(),
        first_unmapped(rows, from) < rows.len() ==> mapped(rows[first_unmapped(rows, from)]) is Err,
        forall|i: int| from <= i < first_unmapped(rows, from) ==> (#[trigger] mapped(rows[i])) is Ok,
    decreases rows.len() - from,
{
    if from < rows.len() && mapped(rows[from]) is Ok {
        lemma_first_unmapped(rows, from + 1);
    }
}

/// A search is over exactly when its result is handed out, and that is after
/// two replies at the latest.
pub proof fn lemma_search_ends(
    request: SearchRequest,
    state: SearchState,
    reply: StoreReply,
    first: StoreReply,
    second: StoreReply,
)
    ensures
        first_state(request) is Finished <==> first_step(request) is Done,
        next_state(state, reply) is Finished <==> next_step(state, reply) is Done,
        next_state(next_state(first_state(request), first), second) is Finished,
        !(next_step(state, reply) is RunCount),
{
}

/// Turns the rows of a page into flights, in their order. Stops at the first
/// row that becomes no flight and says which it is.
pub fn map_rows(rows: &Vec<FlightRow>) -> (flights: Result<Vec<RewardFlightLatest>, SearchError>)
    ensures
        match flights {
            Ok(list) => mapped_rows(rows@) == Ok::<Seq<RewardFlightView>, SearchError>(
                list@.map_values(|f: RewardFlightLatest| f@),
            ),
            Err(e) => mapped_rows(rows@) == Err::<Seq<RewardFlightView>, SearchError>(e),
        },
        flights matches Ok(list) ==> list@.len() == rows@.len(),
{
    let mut list: Vec<RewardFlightLatest> = Vec::new();
    let mut i: usize = 0;
    while i < rows.len()
        invariant
            i <= rows@.len(),
            list@.len() == i,
            first_unmapped(rows@, 0) == first_unmapped(rows@, i as int),
            forall|j: int| 0 <= j < i ==> mapped(rows@[j]) == Ok::<RewardFlightView, MappingError>(#[trigger] list@[j]@),
        decreases rows@.len() - i,
    {
        match map_row(&rows[i]) {
            Ok(flight) => {
                list.push(flight);
            },
            Err(cause) => {
                return Err(SearchError::Mapping { row: i, cause });
            },
        }
        i = i + 1;
    }
    assert(list@.map_values(|f: RewardFlightLatest| f@) =~= Seq::new(
        rows@.len(),
        |i: int| mapped(rows@[i])->Ok_0,
    ));
    Ok(list)
}

/// Makes the page of a count and the rows of a page that a store replied.
/// A page size of zero, a negative count and more rows than the page size
/// are refused, in this order; then the rows are turned into flights.
pub fn assemble_page(total: i64, rows: &Vec<FlightRow>, page_number: usize, page_size: usize) -> (page:
    Result<Page<RewardFlightLatest>, SearchError>)
    ensures
        match page {
            Ok(p) => assembled(total as int, rows@, page_number as int, page_size as int) == Ok::<
                PageView<RewardFlightView>,
                SearchError,
            >(p@) && p.well_formed(),
            Err(e) => assembled(total as int, rows@, page_number as int, page_size as int) == Err::<
                PageView<RewardFlightView>,
                SearchError,
            >(e),
        },
        page matches Ok(p) ==> {
            &&& p.content@.len() == rows@.len()
            &&& p.page_number == page_number
            &&& p.page_size == page_size
            &&& p.total_elements == total
        },
{
    if page_size == 0 {
        return Err(SearchError::InvalidPageSize);
    }
    if total < 0 {
        return Err(SearchError::BrokenReply(ReplyFault::NegativeCount));
    }
    if rows.len() > page_size {
        return Err(SearchError::BrokenReply(ReplyFault::OversizedPage));
    }
    match map_rows(rows) {
        Ok(content) => Ok(Page::new(content, page_number, page_size, total)),
        Err(e) => Err(e),
    }
}

/// The statement that counts what a request searches for.
pub fn count_statement(request: &SearchRequest) -> (statement: Statement)
    ensures
        statement@ == count_statement_of(request@),
{
    match &request.query {
        SearchQuery::Range { origin, destination, carrier_code, from_date, to_date } => range_count(
            origin.as_str(),
            destination.as_str(),
            carrier_code.as_str(),
            *from_date,
            *to_date,
        ),
        SearchQuery::Cheapest { origin, destination, cabin_type } => cheapest_count(
            origin.as_str(),
            destination.as_str(),
            cabin_type.as_str(),
        ),
    }
}

/// The statement that fetches the page that a request asks for.
pub fn page_statement(request: &SearchRequest) -> (statement: Statement)
    ensures
        statement@ == page_statement_of(request@),
{
    match &request.query {
        SearchQuery::Range { origin, destination, carrier_code, from_date, to_date } => range_page(
            origin.as_str(),
            destination.as_str(),
            carrier_code.as_str(),
            *from_date,
            *to_date,
            request.page_number,
            request.page_size,
        ),
        SearchQuery::Cheapest { origin, destination, cabin_type } => cheapest_page(
            origin.as_str(),
            destination.as_str(),
            cabin_type.as_str(),
            request.page_number,
            request.page_size,
        ),
    }
}

/// Begins a search: refuses a page size of zero, and else hands out the
/// count statement.
pub fn begin(request: SearchRequest) -> (start: (SearchState, NextStep))
    ensures
        start.0 == first_state(request),
        start.1@ == first_step(request),
{
    if request.page_size == 0 {
        (SearchState::Finished, NextStep::Done(Err(SearchError::InvalidPageSize)))
    } else {
        let statement = count_statement(&request);
        (SearchState::Counting(request), NextStep::RunCount(statement))
    }
}

/// Takes the store's reply to the statement that was handed out last, and
/// says what comes next. A count is followed by the page statement; the rows
/// of the page are followed by the result. A failure that the store reports
/// ends the search with that failure, whichever statement it answers.
pub fn advance(state: SearchState, reply: StoreReply) -> (next: (SearchState, NextStep))
    ensures
        next.0 == next_state(state, reply),
        next.1@ == next_step(state, reply),
{
    match (state, reply) {
        (SearchState::Counting(request), StoreReply::Count(Ok(total))) => {
            if total >= 0 {
                let statement = page_statement(&request);
                (SearchState::Fetching { request, total }, NextStep::RunPage(statement))
            } else {
                (
                    SearchState::Finished,
                    NextStep::Done(Err(SearchError::BrokenReply(ReplyFault::NegativeCount))),
                )
            }
        },
        (SearchState::Counting(_), StoreReply::Count(Err(e))) => {
            (SearchState::Finished, NextStep::Done(Err(SearchError::DataAccess(e))))
        },
        (SearchState::Fetching { request, total }, StoreReply::Rows(Ok(rows))) => {
            let page = assemble_page(total, &rows, request.page_number, request.page_size);
            (SearchState::Finished, NextStep::Done(page))
        },
        (SearchState::Fetching { .. }, StoreReply::Rows(Err(e))) => {
            (SearchState::Finished, NextStep::Done(Err(SearchError::DataAccess(e))))
        },
        _ => {
            (
                SearchState::Finished,
                NextStep::Done(Err(SearchError::BrokenReply(ReplyFault::OutOfTurn))),
            )
        },
    }
}

} // verus!
