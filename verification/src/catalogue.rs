//! The two searches, worked out over rows held in memory.
//!
//! The catalogue is the join of the flights with their awards, as a sequence
//! of rows in the order in which they were stored. A search selects the rows
//! that its filter admits, orders them, and cuts out the page. What a store
//! replies to the statements of a search is what is worked out here.

use crate::cabin::{cabin_named, CabinType};
use crate::date::{iso_date_text, lemma_day_number_is_small, DAY_MAX};
use crate::model::{AwardOfferView, Page, PageView, RewardFlightLatest, RewardFlightView};
use crate::ordering::{
    lemma_ordered_from_selected, lemma_ordered_is_strictly_ordered,
    lemma_ordered_keeps_candidates, ordered, positions_grow, precedes, sort_candidates,
    strictly_ordered, Candidate,
};
use crate::paging::{
    lemma_page_len_bounds, lemma_page_slice_len, page_bounds, page_len, page_slice, page_start,
    pages_needed, saturated,
};
use crate::row::{copy_row, mapped, CabinColumns, FlightRow, MappingError};
use crate::search::{
    assemble_page, assembled, first_state, lemma_mapped_rows, next_state, next_step,
    NextStepView, QueryView, RequestView, SearchError, SearchQuery, SearchRequest, SearchState,
    StoreReply,
};
use vstd::prelude::*;

verus! {

/// Whether a text column could be read and holds `wanted`.
pub open spec fn text_is(column: Option<String>, wanted: Seq<char>) -> bool {
    column matches Some(t) && t@ == wanted
}

/// Whether a cabin's columns show an offer that can be booked: the award
/// row exists, it has a points value, and it has at least one seat.
pub open spec fn bookable(columns: CabinColumns) -> bool {
    &&& columns.id is Some
    &&& columns.cabin_points_value is Some
    &&& columns.cabin_class_seat_count matches Some(seats) && seats > 0
}

/// Whether a query's filter admits a row.
pub open spec fn selects(query: QueryView, row: FlightRow) -> bool {
    match query {
        QueryView::Range { origin, destination, carrier_code, from_date, to_date } => {
            &&& text_is(row.origin, origin)
            &&& text_is(row.destination, destination)
            &&& text_is(row.carrier_code, carrier_code)
            &&& row.departure matches Some(departure) && from_date <= departure@ <= to_date
        },
        QueryView::Cheapest { origin, destination, cabin_type } => {
            &&& text_is(row.origin, origin)
            &&& text_is(row.destination, destination)
            &&& cabin_named(cabin_type) matches Some(cabin) && bookable(cabin.columns(row))
        },
    }
}

/// The number by which a row's departure is ordered: the day number, and
/// one more than any day number where the departure could not be read, so
/// that such a row comes last.
pub open spec fn departure_rank(row: FlightRow) -> int {
    match row.departure {
        Some(departure) => departure@,
        None => DAY_MAX + 1,
    }
}

/// The first number by which a query orders a row that it selects: the
/// departure for a range search, the cabin's points value for a cheapest search.
pub open spec fn major_of(query: QueryView, row: FlightRow) -> int {
    match query {
        QueryView::Range { .. } => departure_rank(row),
        QueryView::Cheapest { cabin_type, .. } => cabin_named(cabin_type)->0.columns(
            row,
        ).cabin_points_value->0 as int,
    }
}

/// The second number by which a query orders a row that it selects: none for
/// a range search, the departure for a cheapest search.
pub open spec fn minor_of(query: QueryView, row: FlightRow) -> int {
    match query {
        QueryView::Range { .. } => 0,
        QueryView::Cheapest { .. } => departure_rank(row),
    }
}

/// The candidate that stands for the row at `position`.
pub open spec fn candidate_of(query: QueryView, row: FlightRow, position: int) -> Candidate {
    Candidate {
        position: position as usize,
        major: major_of(query, row) as i64,
        minor: minor_of(query, row) as i64,
    }
}

/// The candidates among the first `upto` rows, in the order of the rows.
pub open spec fn candidates(query: QueryView, store: Seq<FlightRow>, upto: int) -> Seq<Candidate>
    decreases upto,
{
    if upto <= 0 {
        Seq::empty()
    } else {
        let earlier = candidates(query, store, upto - 1);
        if selects(query, store[upto - 1]) {
            earlier.push(candidate_of(query, store[upto - 1], upto - 1))
        } else {
            earlier
        }
    }
}

/// The rows that stand behind candidates.
pub open spec fn rows_of(store: Seq<FlightRow>, list: Seq<Candidate>) -> Seq<FlightRow> {
    Seq::new(list.len(), |i: int| store[list[i].position as int])
}

/// All rows that a query finds, in its order.
pub open spec fn hits(query: QueryView, store: Seq<FlightRow>) -> Seq<FlightRow> {
    rows_of(store, ordered(candidates(query, store, store.len() as int)))
}

/// What a search over `store` yields: the page of the hits that the request
/// asks for, with the number of all hits as the total.
pub open spec fn outcome(store: Seq<FlightRow>, request: RequestView) -> Result<
    PageView<RewardFlightView>,
    SearchError,
> {
    if request.page_size == 0 {
        Err(SearchError::InvalidPageSize)
    } else {
        let found = hits(request.query, store);
        assembled(
            found.len() as int,
            page_slice(found, request.page_number as int, request.page_size as int),
            request.page_number as int,
            request.page_size as int,
        )
    }
}

/// Whether `candidate` stands for a row of the store that the query selects.
pub open spec fn stands_for(query: QueryView, store: Seq<FlightRow>, candidate: Candidate) -> bool {
    &&& 0 <= candidate.position < store.len()
    &&& selects(query, store[candidate.position as int])
    &&& candidate == candidate_of(
        query,
        store[candidate.position as int],
        candidate.position as int,
    )
}

/// The candidates stand for selected rows, each at its position, and come
/// in the order of the store.
pub proof fn lemma_candidates(query: QueryView, store: Seq<FlightRow>, upto: int)
    requires
        0 <= upto <= store.len() <= usize::MAX,
    ensures
        candidates(query, store, upto).len() <= upto,
        positions_grow(candidates(query, store, upto)),
        forall|i: int|
            0 <= i < candidates(query, store, upto).len() ==> stands_for(
                query,
                store,
                #[trigger] candidates(query, store, upto)[i],
            ) && candidates(query, store, upto)[i].position < upto,
    decreases upto,
{
    if upto > 0 {
        lemma_candidates(query, store, upto - 1);
    }
}

/// The hits are selected rows in strict order: each hit is the row behind
/// one candidate, and each candidate must stand before the next.
pub proof fn lemma_hits(query: QueryView, store: Seq<FlightRow>)
    requires
        store.len() <= usize::MAX,
    ensures
        hits(query, store).len() == ordered(candidates(query, store, store.len() as int)).len(),
        hits(query, store).len() <= store.len(),
        strictly_ordered(ordered(candidates(query, store, store.len() as int))),
        forall|i: int|
            0 <= i < hits(query, store).len() ==> stands_for(
                query,
                store,
                #[trigger] ordered(candidates(query, store, store.len() as int))[i],
            ),
        forall|i: int|
            0 <= i < hits(query, store).len() ==> #[trigger] hits(query, store)[i] == store[ordered(
                candidates(query, store, store.len() as int),
            )[i].position as int],
{
    let selected = candidates(query, store, store.len() as int);
    lemma_candidates(query, store, store.len() as int);
    lemma_ordered_keeps_candidates(selected);
    lemma_ordered_is_strictly_ordered(selected);
    assert forall|i: int| 0 <= i < hits(query, store).len() implies stands_for(
        query,
        store,
        #[trigger] ordered(selected)[i],
    ) by {
        lemma_ordered_from_selected(selected, i);
        let k = choose|k: int| 0 <= k < selected.len() && selected[k] == ordered(selected)[i];
        assert(stands_for(query, store, selected[k]));
    }
}

/// No selected row is lost: a row of the store that the query selects stands
/// behind one of the hits.
pub proof fn lemma_selected_rows_are_hits(query: QueryView, store: Seq<FlightRow>, position: int)
    requires
        store.len() <= usize::MAX,
        0 <= position < store.len(),
        selects(query, store[position]),
    ensures
        exists|i: int|
            0 <= i < hits(query, store).len() && (#[trigger] ordered(
                candidates(query, store, store.len() as int),
            )[i]).position == position && hits(query, store)[i] == store[position],
{
    let selected = candidates(query, store, store.len() as int);
    let wanted = candidate_of(query, store[position], position);
    lemma_candidate_is_kept(query, store, store.len() as int, position);
    lemma_ordered_keeps_candidates(selected);
    vstd::seq_lib::to_multiset_contains(selected, wanted);
    vstd::seq_lib::to_multiset_contains(ordered(selected), wanted);
    let i = choose|i: int| 0 <= i < ordered(selected).len() && ordered(selected)[i] == wanted;
    assert(ordered(selected)[i].position == position);
    assert(hits(query, store)[i] == store[position]);
}

/// The candidate of a selected row is among the candidates of every prefix
/// that reaches the row.
proof fn lemma_candidate_is_kept(query: QueryView, store: Seq<FlightRow>, upto: int, position: int)
    requires
        0 <= position < upto <= store.len(),
        selects(query, store[position]),
    ensures
        candidates(query, store, upto).contains(candidate_of(query, store[position], position)),
    decreases upto,
{
    let wanted = candidate_of(query, store[position], position);
    if position == upto - 1 {
        let list = candidates(query, store, upto);
        assert(list[list.len() - 1] == wanted);
    } else {
        lemma_candidate_is_kept(query, store, upto - 1, position);
        let earlier = candidates(query, store, upto - 1);
        let k = choose|k: int| 0 <= k < earlier.len() && earlier[k] == wanted;
        assert(candidates(query, store, upto)[k] == wanted);
    }
}

/// The envelope of a page that a search yields: it repeats the page number
/// and the page size of the request, the total is the number of all hits,
/// the number of pages is the ceiling of total over page size, and the
/// content holds `min(page_size, max(0, total - page_number * page_size))`
/// flights.
pub proof fn lemma_page_totals(
    store: Seq<FlightRow>,
    request: RequestView,
    page: PageView<RewardFlightView>,
)
    requires
        store.len() <= usize::MAX,
        outcome(store, request) == Ok::<PageView<RewardFlightView>, SearchError>(page),
    ensures
        request.page_size >= 1,
        page.page_number == request.page_number,
        page.page_size == request.page_size,
        page.total_elements == hits(request.query, store).len(),
        0 <= page.total_elements <= store.len(),
        page.total_pages == saturated(pages_needed(page.total_elements, page.page_size)),
        page.content.len() == page_len(page.total_elements, page.page_number, page.page_size),
        page.content.len() <= page.page_size,
{
    let found = hits(request.query, store);
    let window = page_slice(found, request.page_number as int, request.page_size as int);
    lemma_hits(request.query, store);
    lemma_page_slice_len(found, request.page_number as int, request.page_size as int);
    lemma_page_len_bounds(found.len() as int, request.page_number as int, request.page_size as int);
    lemma_mapped_rows(window);
}

/// Behind the flights on a page stand rows of the store, one each and in the
/// same order: `positions` says where. Each of these rows is selected by the
/// query and becomes the flight on the page, and each must stand before the
/// next in the query's order, rows that the order leaves alike standing in
/// the order of the store.
pub proof fn lemma_page_rows(
    store: Seq<FlightRow>,
    request: RequestView,
    page: PageView<RewardFlightView>,
) -> (positions: Seq<int>)
    requires
        store.len() <= usize::MAX,
        outcome(store, request) == Ok::<PageView<RewardFlightView>, SearchError>(page),
    ensures
        positions.len() == page.content.len(),
        forall|i: int|
            0 <= i < positions.len() ==> {
                &&& 0 <= #[trigger] positions[i] < store.len()
                &&& selects(request.query, store[positions[i]])
                &&& mapped(store[positions[i]]) == Ok::<RewardFlightView, MappingError>(
                    page.content[i],
                )
            },
        forall|i: int, j: int|
            0 <= i < j < positions.len() ==> precedes(
                candidate_of(request.query, store[#[trigger] positions[i]], positions[i]),
                candidate_of(request.query, store[#[trigger] positions[j]], positions[j]),
            ),
{
    let found = hits(request.query, store);
    let chosen = ordered(candidates(request.query, store, store.len() as int));
    let window = page_slice(found, request.page_number as int, request.page_size as int);
    let start = page_start(request.page_number as int, request.page_size as int);
    lemma_hits(request.query, store);
    lemma_page_slice_len(found, request.page_number as int, request.page_size as int);
    lemma_page_len_bounds(found.len() as int, request.page_number as int, request.page_size as int);
    lemma_mapped_rows(window);
    assert(start >= 0) by (nonlinear_arith)
        requires
            start == request.page_number * request.page_size,
    ;
    let positions = Seq::new(window.len(), |i: int| chosen[start + i].position as int);
    assert forall|i: int| 0 <= i < positions.len() implies {
        &&& 0 <= #[trigger] positions[i] < store.len()
        &&& selects(request.query, store[positions[i]])
        &&& mapped(store[positions[i]]) == Ok::<RewardFlightView, MappingError>(page.content[i])
    } by {
        assert(stands_for(request.query, store, chosen[start + i]));
        assert(window[i] == found[start + i]);
        assert(found[start + i] == store[positions[i]]);
    }
    assert forall|i: int, j: int| 0 <= i < j < positions.len() implies precedes(
        candidate_of(request.query, store[#[trigger] positions[i]], positions[i]),
        candidate_of(request.query, store[#[trigger] positions[j]], positions[j]),
    ) by {
        assert(stands_for(request.query, store, chosen[start + i]));
        assert(stands_for(request.query, store, chosen[start + j]));
        assert(precedes(chosen[start + i], chosen[start + j]));
    }
    positions
}

/// A range search yields flights that depart within the range, the earliest
/// first: `days` holds the day of departure of each flight on the page.
pub proof fn lemma_range_page_departures(
    store: Seq<FlightRow>,
    request: RequestView,
    page: PageView<RewardFlightView>,
) -> (days: Seq<int>)
    requires
        store.len() <= usize::MAX,
        request.query is Range,
        outcome(store, request) == Ok::<PageView<RewardFlightView>, SearchError>(page),
    ensures
        days.len() == page.content.len(),
        forall|i: int|
            0 <= i < days.len() ==> {
                &&& request.query->from_date <= #[trigger] days[i] <= request.query->to_date
                &&& page.content[i].departure == iso_date_text(days[i])
                &&& page.content[i].origin == request.query->Range_origin
                &&& page.content[i].destination == request.query->Range_destination
                &&& page.content[i].carrier_code == request.query->carrier_code
            },
        forall|i: int, j: int| 0 <= i < j < days.len() ==> #[trigger] days[i] <= #[trigger] days[j],
{
    let positions = lemma_page_rows(store, request, page);
    let days = Seq::new(positions.len(), |i: int| store[positions[i]].departure->0@);
    assert forall|i: int| 0 <= i < days.len() implies {
        &&& request.query->from_date <= #[trigger] days[i] <= request.query->to_date
        &&& page.content[i].departure == iso_date_text(days[i])
        &&& page.content[i].origin == request.query->Range_origin
        &&& page.content[i].destination == request.query->Range_destination
        &&& page.content[i].carrier_code == request.query->carrier_code
    } by {
        let row = store[positions[i]];
        assert(selects(request.query, row));
        assert(mapped(row) is Ok);
    }
    assert forall|i: int, j: int| 0 <= i < j < days.len() implies #[trigger] days[i]
        <= #[trigger] days[j] by {
        let a = store[positions[i]];
        let b = store[positions[j]];
        assert(selects(request.query, a));
        assert(selects(request.query, b));
        lemma_day_number_is_small(a.departure->0);
        lemma_day_number_is_small(b.departure->0);
        assert(precedes(
            candidate_of(request.query, a, positions[i]),
            candidate_of(request.query, b, positions[j]),
        ));
    }
    days
}

/// The offer of a flight in a cabin.
pub open spec fn offer_in(flight: RewardFlightView, cabin: CabinType) -> Option<AwardOfferView> {
    match cabin {
        CabinType::Economy => flight.award_economy,
        CabinType::PremiumEconomy => flight.award_premium_economy,
        CabinType::Business => flight.award_business,
    }
}

/// A cheapest search yields flights that can be booked in the cabin, the
/// cheapest first and, at the same price, the earliest first: `points` holds
/// the points value of each flight on the page in that cabin, `days` the day
/// of its departure.
pub proof fn lemma_cheapest_page_offers(
    store: Seq<FlightRow>,
    request: RequestView,
    page: PageView<RewardFlightView>,
    cabin: CabinType,
) -> (keys: (Seq<i32>, Seq<int>))
    requires
        store.len() <= usize::MAX,
        request.query is Cheapest,
        cabin_named(request.query->cabin_type) == Some(cabin),
        outcome(store, request) == Ok::<PageView<RewardFlightView>, SearchError>(page),
    ensures
        keys.0.len() == page.content.len(),
        keys.1.len() == page.content.len(),
        forall|i: int|
            0 <= i < page.content.len() ==> {
                &&& offer_in(#[trigger] page.content[i], cabin) matches Some(offer)
                &&& offer.cabin_points_value == Some(keys.0[i])
                &&& offer.cabin_class_seat_count matches Some(seats) && seats > 0
                &&& page.content[i].departure == iso_date_text(keys.1[i])
                &&& page.content[i].origin == request.query->Cheapest_origin
                &&& page.content[i].destination == request.query->Cheapest_destination
            },
        forall|i: int, j: int|
            0 <= i < j < page.content.len() ==> {
                ||| #[trigger] keys.0[i] < #[trigger] keys.0[j]
                ||| keys.0[i] == keys.0[j] && keys.1[i] <= keys.1[j]
            },
{
    let positions = lemma_page_rows(store, request, page);
    let points = Seq::new(
        positions.len(),
        |i: int| cabin.columns(store[positions[i]]).cabin_points_value->0,
    );
    let days = Seq::new(positions.len(), |i: int| store[positions[i]].departure->0@);
    assert forall|i: int| 0 <= i < page.content.len() implies {
        &&& offer_in(#[trigger] page.content[i], cabin) matches Some(offer)
        &&& offer.cabin_points_value == Some(points[i])
        &&& offer.cabin_class_seat_count matches Some(seats) && seats > 0
        &&& page.content[i].departure == iso_date_text(days[i])
        &&& page.content[i].origin == request.query->Cheapest_origin
        &&& page.content[i].destination == request.query->Cheapest_destination
    } by {
        let row = store[positions[i]];
        assert(selects(request.query, row));
        assert(mapped(row) is Ok);
    }
    assert forall|i: int, j: int| 0 <= i < j < page.content.len() implies {
        ||| #[trigger] points[i] < #[trigger] points[j]
        ||| points[i] == points[j] && days[i] <= days[j]
    } by {
        let a = store[positions[i]];
        let b = store[positions[j]];
        assert(selects(request.query, a));
        assert(selects(request.query, b));
        assert(mapped(a) is Ok);
        assert(mapped(b) is Ok);
        lemma_day_number_is_small(a.departure->0);
        lemma_day_number_is_small(b.departure->0);
        assert(precedes(
            candidate_of(request.query, a, positions[i]),
            candidate_of(request.query, b, positions[j]),
        ));
    }
    (points, days)
}

/// A cheapest search for a cabin that has no such search finds nothing.
pub proof fn lemma_unknown_cabin_finds_nothing(store: Seq<FlightRow>, query: QueryView)
    requires
        store.len() <= usize::MAX,
        query is Cheapest,
        cabin_named(query->cabin_type) is None,
    ensures
        hits(query, store).len() == 0,
{
    lemma_hits(query, store);
    if hits(query, store).len() > 0 {
        let c = ordered(candidates(query, store, store.len() as int))[0];
        assert(stands_for(query, store, c));
    }
}

/// A search against a store ends as the search over the catalogue does,
/// where the store holds the catalogue and replies to the count statement
/// with the number of hits and to the page statement with the rows of the
/// page.
pub proof fn lemma_store_that_holds_the_catalogue(
    catalogue: Seq<FlightRow>,
    request: SearchRequest,
    total: i64,
    rows: Vec<FlightRow>,
)
    requires
        request.page_size >= 1,
        total == hits(request@.query, catalogue).len(),
        rows@ == page_slice(
            hits(request@.query, catalogue),
            request.page_number as int,
            request.page_size as int,
        ),
    ensures
        first_state(request) == SearchState::Counting(request),
        next_state(first_state(request), StoreReply::Count(Ok(total))) == (SearchState::Fetching {
            request,
            total,
        }),
        next_step(SearchState::Fetching { request, total }, StoreReply::Rows(Ok(rows)))
            == NextStepView::Done(outcome(catalogue, request@)),
{
}

/// Two runs of one search over one catalogue yield the same: the same page
/// with the same content and totals, or the same failure.
pub proof fn lemma_search_repeats(
    store: Seq<FlightRow>,
    request: RequestView,
    first: Result<PageView<RewardFlightView>, SearchError>,
    second: Result<PageView<RewardFlightView>, SearchError>,
)
    requires
        first == outcome(store, request),
        second == outcome(store, request),
    ensures
        first == second,
{
}

fn text_matches(column: &Option<String>, wanted: &String) -> (yes: bool)
    ensures
        yes == text_is(*column, wanted@),
{
    match column {
        Some(t) => *t == *wanted,
        None => false,
    }
}

fn is_bookable(columns: &CabinColumns) -> (yes: bool)
    ensures
        yes == bookable(*columns),
{
    if columns.id.is_none() || columns.cabin_points_value.is_none() {
        return false;
    }
    match columns.cabin_class_seat_count {
        Some(seats) => seats > 0,
        None => false,
    }
}

fn rank_of(row: &FlightRow) -> (rank: i64)
    ensures
        rank as int == departure_rank(*row),
{
    match row.departure {
        Some(departure) => departure.days() as i64,
        None => DAY_MAX as i64 + 1,
    }
}

/// The candidate that stands for a row, where the query selects the row.
pub fn candidate_for(query: &SearchQuery, row: &FlightRow, position: usize) -> (candidate: Option<
    Candidate,
>)
    ensures
        candidate is Some <==> selects(query@, *row),
        candidate matches Some(c) ==> c == candidate_of(query@, *row, position as int),
{
    match query {
        SearchQuery::Range { origin, destination, carrier_code, from_date, to_date } => {
            if !text_matches(&row.origin, origin) || !text_matches(&row.destination, destination)
                || !text_matches(&row.carrier_code, carrier_code) {
                return None;
            }
            match row.departure {
                Some(departure) => {
                    if from_date.is_on_or_before(&departure) && departure.is_on_or_before(to_date) {
                        Some(Candidate { position, major: departure.days() as i64, minor: 0 })
                    } else {
                        None
                    }
                },
                None => None,
            }
        },
        SearchQuery::Cheapest { origin, destination, cabin_type } => {
            if !text_matches(&row.origin, origin) || !text_matches(&row.destination, destination) {
                return None;
            }
            match CabinType::parse(cabin_type.as_str()) {
                Some(cabin) => {
                    let columns = cabin.columns_of(row);
                    if is_bookable(columns) {
                        match columns.cabin_points_value {
                            Some(points) => Some(
                                Candidate { position, major: points as i64, minor: rank_of(row) },
                            ),
                            None => None,
                        }
                    } else {
                        None
                    }
                },
                None => None,
            }
        },
    }
}

fn select_candidates(query: &SearchQuery, store: &Vec<FlightRow>) -> (selected: Vec<Candidate>)
    ensures
        selected@ == candidates(query@, store@, store@.len() as int),
{
    let mut selected: Vec<Candidate> = Vec::new();
    let mut i: usize = 0;
    while i < store.len()
        invariant
            i <= store@.len(),
            selected@ == candidates(query@, store@, i as int),
        decreases store@.len() - i,
    {
        match candidate_for(query, &store[i], i) {
            Some(candidate) => {
                selected.push(candidate);
            },
            None => {},
        }
        i = i + 1;
    }
    selected
}

fn rows_on_page(
    store: &Vec<FlightRow>,
    sorted: &Vec<Candidate>,
    page_number: usize,
    page_size: usize,
) -> (rows: Vec<FlightRow>)
    requires
        forall|i: int| 0 <= i < sorted@.len() ==> (#[trigger] sorted@[i]).position < store@.len(),
        page_size >= 1,
    ensures
        rows@ == page_slice(rows_of(store@, sorted@), page_number as int, page_size as int),
        rows@.len() <= page_size,
{
    let (start, end) = page_bounds(sorted.len(), page_number, page_size);
    let mut rows: Vec<FlightRow> = Vec::new();
    let mut i: usize = start;
    while i < end
        invariant
            start <= i <= end <= sorted@.len(),
            rows@ == rows_of(store@, sorted@).subrange(start as int, i as int),
            forall|i: int| 0 <= i < sorted@.len() ==> (#[trigger] sorted@[i]).position < store@.len(),
        decreases end - i,
    {
        let candidate: Candidate = sorted[i];
        rows.push(copy_row(&store[candidate.position]));
        assert(rows@ =~= rows_of(store@, sorted@).subrange(start as int, i + 1));
        i = i + 1;
    }
    rows
}

/// Runs a search over rows held in memory: selects the rows that the query
/// admits, orders them as the query asks, rows that the order leaves alike
/// staying in the order of the store, and hands back the page that was asked
/// for, with the number of all selected rows as the total. The store holds
/// no more rows than the largest total that a page can show.
pub fn search_rows(store: &Vec<FlightRow>, request: &SearchRequest) -> (page: Result<
    Page<RewardFlightLatest>,
    SearchError,
>)
    requires
        store@.len() <= i64::MAX,
    ensures
        match page {
            Ok(p) => outcome(store@, request@) == Ok::<PageView<RewardFlightView>, SearchError>(p@)
                && p.well_formed(),
            Err(e) => outcome(store@, request@) == Err::<PageView<RewardFlightView>, SearchError>(e),
        },
        page matches Ok(p) ==> {
            &&& p.page_number == request.page_number
            &&& p.page_size == request.page_size
            &&& p.total_elements == hits(request@.query, store@).len()
            &&& p.content@.len() == page_len(
                p.total_elements as int,
                p.page_number as int,
                p.page_size as int,
            )
        },
{
    if request.page_size == 0 {
        return Err(SearchError::InvalidPageSize);
    }
    let selected: Vec<Candidate> = select_candidates(&request.query, store);
    let sorted: Vec<Candidate> = sort_candidates(&selected);
    proof {
        assert(store.len() == store@.len());
        lemma_hits(request@.query, store@);
        assert forall|i: int| 0 <= i < sorted@.len() implies (#[trigger] sorted@[i]).position
            < store@.len() by {
            assert(stands_for(request@.query, store@, sorted@[i]));
        }
    }
    let rows: Vec<FlightRow> = rows_on_page(store, &sorted, request.page_number, request.page_size);
    proof {
        lemma_page_slice_len(
            hits(request@.query, store@),
            request.page_number as int,
            request.page_size as int,
        );
    }
    let total: i64 = sorted.len() as i64;
    assemble_page(total, &rows, request.page_number, request.page_size)
}

} // verus!
