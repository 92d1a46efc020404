//! The two searches as callers see them, and a repository that answers them
//! from rows held in memory.

use crate::catalogue::{outcome, search_rows};
use crate::date::CalendarDate;
use crate::model::{Page, PageView, RewardFlightLatest, RewardFlightView};
use crate::row::FlightRow;
use crate::search::{QueryView, RequestView, SearchError, SearchQuery, SearchRequest};
use vstd::prelude::*;
use vstd::string::StringExecFns;

verus! {

/// The request of a range search.
pub open spec fn range_request(
    origin: Seq<char>,
    destination: Seq<char>,
    carrier_code: Seq<char>,
    from_date: int,
    to_date: int,
    page_number: nat,
    page_size: nat,
) -> RequestView {
    RequestView {
        query: QueryView::Range { origin, destination, carrier_code, from_date, to_date },
        page_number,
        page_size,
    }
}

/// The request of a cheapest search.
pub open spec fn cheapest_request(
    origin: Seq<char>,
    destination: Seq<char>,
    cabin_type: Seq<char>,
    page_number: nat,
    page_size: nat,
) -> RequestView {
    RequestView {
        query: QueryView::Cheapest { origin, destination, cabin_type },
        page_number,
        page_size,
    }
}

/// Builds the request of a range search.
pub fn make_range_request(
    origin: &str,
    destination: &str,
    carrier_code: &str,
    from_date: CalendarDate,
    to_date: CalendarDate,
    page_number: usize,
    page_size: usize,
) -> (request: SearchRequest)
    ensures
        request@ == range_request(
            origin@,
            destination@,
            carrier_code@,
            from_date@,
            to_date@,
            page_number as nat,
            page_size as nat,
        ),
{
    SearchRequest {
        query: SearchQuery::Range {
            origin: String::from_str(origin),
            destination: String::from_str(destination),
            carrier_code: String::from_str(carrier_code),
            from_date,
            to_date,
        },
        page_number,
        page_size,
    }
}

/// Builds the request of a cheapest search.
pub fn make_cheapest_request(
    origin: &str,
    destination: &str,
    cabin_type: &str,
    page_number: usize,
    page_size: usize,
) -> (request: SearchRequest)
    ensures
        request@ == cheapest_request(
            origin@,
            destination@,
            cabin_type@,
            page_number as nat,
            page_size as nat,
        ),
{
    SearchRequest {
        query: SearchQuery::Cheapest {
            origin: String::from_str(origin),
            destination: String::from_str(destination),
            cabin_type: String::from_str(cabin_type),
        },
        page_number,
        page_size,
    }
}

/// A source of reward flights. Whatever stands behind it, a page size of
/// zero is refused, and a page that is handed back repeats the page number
/// and the page size that were asked for, holds no more flights than the
/// page size, and counts its pages as the ceiling of total over page size.
pub trait RewardFlightRepository {
    /// Flights of `carrier_code` from `origin` to `destination` that depart
    /// from `from_date` to `to_date`, both included, earliest first.
    fn find_by_origin_and_destination_and_carrier_code_and_departure_between(
        &self,
        origin: &str,
        destination: &str,
        carrier_code: &str,
        from_date: CalendarDate,
        to_date: CalendarDate,
        page_number: usize,
        page_size: usize,
    ) -> (page: Result<Page<RewardFlightLatest>, SearchError>)
        ensures
            page_size == 0 ==> page matches Err(SearchError::InvalidPageSize),
            page matches Ok(p) ==> p.well_formed() && p.page_number == page_number && p.page_size
                == page_size,
    ;

    /// Flights from `origin` to `destination` that can be booked in the
    /// cabin named `cabin_type`, cheapest first.
    fn find_all_ordered_by_lowest_cabin_points_and_origin_and_destination(
        &self,
        origin: &str,
        destination: &str,
        cabin_type: &str,
        page_number: usize,
        page_size: usize,
    ) -> (page: Result<Page<RewardFlightLatest>, SearchError>)
        ensures
            page_size == 0 ==> page matches Err(SearchError::InvalidPageSize),
            page matches Ok(p) ==> p.well_formed() && p.page_number == page_number && p.page_size
                == page_size,
    ;
}

/// A repository over rows held in memory, in the order in which they were
/// stored.
#[derive(Debug)]
pub struct InMemoryRewardFlightRepository {
    rows: Vec<FlightRow>,
}

impl View for InMemoryRewardFlightRepository {
    type V = Seq<FlightRow>;

    closed spec fn view(&self) -> Seq<FlightRow> {
        self.rows@
    }
}

impl InMemoryRewardFlightRepository {
    #[verifier::type_invariant]
    closed spec fn countable(self) -> bool {
        self.rows@.len() <= i64::MAX
    }

    /// A repository over `rows`. There is none over more rows than the
    /// largest total that a page can show.
    pub fn new(rows: Vec<FlightRow>) -> (repository: Option<InMemoryRewardFlightRepository>)
        ensures
            repository is Some <==> rows@.len() <= i64::MAX,
            repository matches Some(r) ==> r@ == rows@,
    {
        if rows.len() as u64 <= i64::MAX as u64 {
            Some(InMemoryRewardFlightRepository { rows })
        } else {
            None
        }
    }

    /// Runs a search over the rows.
    pub fn search(&self, request: &SearchRequest) -> (page: Result<
        Page<RewardFlightLatest>,
        SearchError,
    >)
        ensures
            match page {
                Ok(p) => outcome(self@, request@) == Ok::<PageView<RewardFlightView>, SearchError>(
                    p@,
                ) && p.well_formed(),
                Err(e) => outcome(self@, request@) == Err::<PageView<RewardFlightView>, SearchError>(
                    e,
                ),
            },
    {
        proof {
            use_type_invariant(self);
        }
        search_rows(&self.rows, request)
    }
}

impl RewardFlightRepository for InMemoryRewardFlightRepository {
    fn find_by_origin_and_destination_and_carrier_code_and_departure_between(
        &self,
        origin: &str,
        destination: &str,
        carrier_code: &str,
        from_date: CalendarDate,
        to_date: CalendarDate,
        page_number: usize,
        page_size: usize,
    ) -> (page: Result<Page<RewardFlightLatest>, SearchError>)
        ensures
            match page {
                Ok(p) => outcome(
                    self@,
                    range_request(
                        origin@,
                        destination@,
                        carrier_code@,
                        from_date@,
                        to_date@,
                        page_number as nat,
                        page_size as nat,
                    ),
                ) == Ok::<PageView<RewardFlightView>, SearchError>(p@),
                Err(e) => outcome(
                    self@,
                    range_request(
                        origin@,
                        destination@,
                        carrier_code@,
                        from_date@,
                        to_date@,
                        page_number as nat,
                        page_size as nat,
                    ),
                ) == Err::<PageView<RewardFlightView>, SearchError>(e),
            },
    {
        let request = make_range_request(
            origin,
            destination,
            carrier_code,
            from_date,
            to_date,
            page_number,
            page_size,
        );
        self.search(&request)
    }

    fn find_all_ordered_by_lowest_cabin_points_and_origin_and_destination(
        &self,
        origin: &str,
        destination: &str,
        cabin_type: &str,
        page_number: usize,
        page_size: usize,
    ) -> (page: Result<Page<RewardFlightLatest>, SearchError>)
        ensures
            match page {
                Ok(p) => outcome(
                    self@,
                    cheapest_request(
                        origin@,
                        destination@,
                        cabin_type@,
                        page_number as nat,
                        page_size as nat,
                    ),
                ) == Ok::<PageView<RewardFlightView>, SearchError>(p@),
                Err(e) => outcome(
                    self@,
                    cheapest_request(
                        origin@,
                        destination@,
                        cabin_type@,
                        page_number as nat,
                        page_size as nat,
                    ),
                ) == Err::<PageView<RewardFlightView>, SearchError>(e),
            },
    {
        let request = make_cheapest_request(origin, destination, cabin_type, page_number, page_size);
        self.search(&request)
    }
}

} // verus!
