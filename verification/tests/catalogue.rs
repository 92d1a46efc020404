use rewardo_search::catalogue::{candidate_for, search_rows};
use rewardo_search::date::{CalendarDate, CaptureTime};
use rewardo_search::model::{Page, RewardFlightLatest};
use rewardo_search::ordering::{may_precede, sort_candidates, Candidate};
use rewardo_search::repository::{
    make_cheapest_request, make_range_request, InMemoryRewardFlightRepository,
    RewardFlightRepository,
};
use rewardo_search::row::{CabinColumns, FlightRow, MappingError};
use rewardo_search::search::SearchError;

fn no_award() -> CabinColumns {
    CabinColumns {
        id: None,
        cabin_points_value: None,
        is_saver_award: None,
        cabin_class_seat_count: None,
        cabin_class_seat_count_string: None,
    }
}

fn award(id: i32, points: Option<i32>, seats: i32) -> CabinColumns {
    CabinColumns {
        id: Some(id),
        cabin_points_value: points,
        is_saver_award: Some(false),
        cabin_class_seat_count: Some(seats),
        cabin_class_seat_count_string: Some(seats.to_string()),
    }
}

fn date(year: i32, month: u32, day: u32) -> CalendarDate {
    CalendarDate::from_ymd(year, month, day).unwrap()
}

fn flight(id: i32, origin: &str, destination: &str, carrier: &str, day: CalendarDate) -> FlightRow {
    FlightRow {
        id: Some(id),
        origin: Some(origin.to_string()),
        destination: Some(destination.to_string()),
        departure: Some(day),
        carrier_code: Some(carrier.to_string()),
        scraped_at: Some(CaptureTime { seconds: 1_717_200_000 + id as i64, nanoseconds: 0 }),
        economy: no_award(),
        business: no_award(),
        premium_economy: no_award(),
        first: no_award(),
    }
}

fn ids(page: &Page<RewardFlightLatest>) -> Vec<String> {
    page.content.iter().map(|f| f.id.clone().unwrap()).collect()
}

fn repository(rows: Vec<FlightRow>) -> InMemoryRewardFlightRepository {
    InMemoryRewardFlightRepository::new(rows).unwrap()
}

#[test]
fn range_search_over_three_days_with_economy_offers() {
    let mut rows = Vec::new();
    for day in 1..=3u32 {
        let mut row = flight(day as i32, "LHR", "JFK", "VS", date(2024, 6, day));
        row.economy = award(100 + day as i32, Some(10_000), 4);
        rows.push(row);
    }
    let page = repository(rows)
        .find_by_origin_and_destination_and_carrier_code_and_departure_between(
            "LHR",
            "JFK",
            "VS",
            date(2024, 6, 1),
            date(2024, 6, 3),
            0,
            10,
        )
        .unwrap();
    assert_eq!(page.content.len(), 3);
    assert_eq!(page.total_elements, 3);
    assert_eq!(page.total_pages, 1);
    assert_eq!(page.page_number, 0);
    assert_eq!(page.page_size, 10);
    for found in &page.content {
        assert!(found.award_economy.is_some());
        assert!(found.award_business.is_none());
        assert!(found.award_premium_economy.is_none());
        assert!(found.award_first.is_none());
    }
    let departures: Vec<&str> = page.content.iter().map(|f| f.departure.as_str()).collect();
    assert_eq!(departures, vec!["2024-06-01", "2024-06-02", "2024-06-03"]);
}

#[test]
fn cheapest_search_leaves_out_the_flight_without_points() {
    let mut dear = flight(1, "LHR", "JFK", "VS", date(2024, 6, 1));
    dear.business = award(11, Some(30_000), 2);
    let mut cheap = flight(2, "LHR", "JFK", "VS", date(2024, 6, 2));
    cheap.business = award(12, Some(25_000), 1);
    let mut unpriced = flight(3, "LHR", "JFK", "VS", date(2024, 6, 3));
    unpriced.business = award(13, None, 5);
    let page = repository(vec![dear, cheap, unpriced])
        .find_all_ordered_by_lowest_cabin_points_and_origin_and_destination(
            "LHR", "JFK", "BUSINESS", 0, 50,
        )
        .unwrap();
    assert_eq!(page.content.len(), 2);
    assert_eq!(page.total_elements, 2);
    assert_eq!(page.total_pages, 1);
    let points: Vec<Option<i32>> = page
        .content
        .iter()
        .map(|f| f.award_business.as_ref().unwrap().cabin_points_value)
        .collect();
    assert_eq!(points, vec![Some(25_000), Some(30_000)]);
    assert_eq!(ids(&page), vec!["2", "1"]);
}

#[test]
fn range_search_filters_by_every_column() {
    let rows = vec![
        flight(1, "LHR", "JFK", "VS", date(2024, 6, 2)),
        flight(2, "LGW", "JFK", "VS", date(2024, 6, 2)),
        flight(3, "LHR", "BOS", "VS", date(2024, 6, 2)),
        flight(4, "LHR", "JFK", "BA", date(2024, 6, 2)),
        flight(5, "LHR", "JFK", "VS", date(2024, 5, 31)),
        flight(6, "LHR", "JFK", "VS", date(2024, 6, 4)),
        flight(7, "LHR", "JFK", "VS", date(2024, 6, 1)),
        flight(8, "LHR", "JFK", "VS", date(2024, 6, 3)),
    ];
    let request = make_range_request("LHR", "JFK", "VS", date(2024, 6, 1), date(2024, 6, 3), 0, 10);
    let page = search_rows(&rows, &request).unwrap();
    assert_eq!(ids(&page), vec!["7", "1", "8"]);
    assert_eq!(page.total_elements, 3);
}

#[test]
fn range_search_skips_rows_with_unreadable_columns() {
    let mut nameless = flight(1, "LHR", "JFK", "VS", date(2024, 6, 1));
    nameless.origin = None;
    let mut undated = flight(2, "LHR", "JFK", "VS", date(2024, 6, 1));
    undated.departure = None;
    let kept = flight(3, "LHR", "JFK", "VS", date(2024, 6, 1));
    let request = make_range_request("LHR", "JFK", "VS", date(2024, 6, 1), date(2024, 6, 1), 0, 10);
    let page = search_rows(&vec![nameless, undated, kept], &request).unwrap();
    assert_eq!(ids(&page), vec!["3"]);
}

#[test]
fn range_search_orders_by_departure_and_keeps_ties_in_place() {
    let rows = vec![
        flight(1, "LHR", "JFK", "VS", date(2024, 6, 3)),
        flight(2, "LHR", "JFK", "VS", date(2024, 6, 1)),
        flight(3, "LHR", "JFK", "VS", date(2024, 6, 2)),
        flight(4, "LHR", "JFK", "VS", date(2024, 6, 1)),
        flight(5, "LHR", "JFK", "VS", date(2024, 6, 3)),
        flight(6, "LHR", "JFK", "VS", date(2024, 6, 1)),
    ];
    let request = make_range_request("LHR", "JFK", "VS", date(2024, 6, 1), date(2024, 6, 3), 0, 10);
    let page = search_rows(&rows, &request).unwrap();
    assert_eq!(ids(&page), vec!["2", "4", "6", "3", "1", "5"]);
    let departures: Vec<&str> = page.content.iter().map(|f| f.departure.as_str()).collect();
    let mut sorted = departures.clone();
    sorted.sort();
    assert_eq!(departures, sorted);
}

#[test]
fn range_search_with_an_empty_range_finds_nothing() {
    let rows = vec![flight(1, "LHR", "JFK", "VS", date(2024, 6, 2))];
    let request = make_range_request("LHR", "JFK", "VS", date(2024, 6, 3), date(2024, 6, 1), 0, 10);
    let page = search_rows(&rows, &request).unwrap();
    assert!(page.content.is_empty());
    assert_eq!(page.total_elements, 0);
    assert_eq!(page.total_pages, 0);
}

#[test]
fn pages_cut_the_result_without_gaps() {
    let mut rows = Vec::new();
    for n in 0..25 {
        rows.push(flight(n, "LHR", "JFK", "VS", date(2024, 6, 1).plus_days(n as u32).unwrap()));
    }
    let mut seen = Vec::new();
    for page_number in 0..4 {
        let request = make_range_request(
            "LHR",
            "JFK",
            "VS",
            date(2024, 6, 1),
            date(2024, 12, 31),
            page_number,
            10,
        );
        let page = search_rows(&rows, &request).unwrap();
        assert_eq!(page.total_elements, 25);
        assert_eq!(page.total_pages, 3);
        assert_eq!(page.page_number, page_number);
        let expected = 10usize.min(25usize.saturating_sub(page_number * 10));
        assert_eq!(page.content.len(), expected);
        seen.extend(ids(&page));
    }
    let all: Vec<String> = (0..25).map(|n| n.to_string()).collect();
    assert_eq!(seen, all);
}

#[test]
fn a_page_far_beyond_the_last_is_empty_with_true_totals() {
    let rows = vec![
        flight(1, "LHR", "JFK", "VS", date(2024, 6, 1)),
        flight(2, "LHR", "JFK", "VS", date(2024, 6, 2)),
    ];
    let request = make_range_request(
        "LHR",
        "JFK",
        "VS",
        date(2024, 6, 1),
        date(2024, 6, 3),
        usize::MAX,
        usize::MAX,
    );
    let page = search_rows(&rows, &request).unwrap();
    assert!(page.content.is_empty());
    assert_eq!(page.total_elements, 2);
    assert_eq!(page.total_pages, 1);
}

#[test]
fn a_page_size_of_zero_is_refused() {
    let rows = vec![flight(1, "LHR", "JFK", "VS", date(2024, 6, 1))];
    let request = make_range_request("LHR", "JFK", "VS", date(2024, 6, 1), date(2024, 6, 3), 0, 0);
    assert!(matches!(search_rows(&rows, &request), Err(SearchError::InvalidPageSize)));
    let request = make_cheapest_request("LHR", "JFK", "ECONOMY", 0, 0);
    assert!(matches!(search_rows(&rows, &request), Err(SearchError::InvalidPageSize)));
}

#[test]
fn cheapest_search_wants_an_award_row_points_and_seats() {
    let mut bookable = flight(1, "LHR", "JFK", "VS", date(2024, 6, 1));
    bookable.economy = award(11, Some(9_000), 1);
    let mut sold_out = flight(2, "LHR", "JFK", "VS", date(2024, 6, 1));
    sold_out.economy = award(12, Some(8_000), 0);
    let mut unpriced = flight(3, "LHR", "JFK", "VS", date(2024, 6, 1));
    unpriced.economy = award(13, None, 3);
    let mut uncounted = flight(4, "LHR", "JFK", "VS", date(2024, 6, 1));
    uncounted.economy = award(14, Some(7_000), 3);
    uncounted.economy.cabin_class_seat_count = None;
    let mut rowless = flight(5, "LHR", "JFK", "VS", date(2024, 6, 1));
    rowless.economy = award(15, Some(6_000), 3);
    rowless.economy.id = None;
    let elsewhere = {
        let mut row = flight(6, "LHR", "BOS", "VS", date(2024, 6, 1));
        row.economy = award(16, Some(5_000), 3);
        row
    };
    let other_cabin = {
        let mut row = flight(7, "LHR", "JFK", "VS", date(2024, 6, 1));
        row.business = award(17, Some(4_000), 3);
        row
    };
    let rows = vec![bookable, sold_out, unpriced, uncounted, rowless, elsewhere, other_cabin];
    let request = make_cheapest_request("LHR", "JFK", "ECONOMY", 0, 50);
    let page = search_rows(&rows, &request).unwrap();
    assert_eq!(ids(&page), vec!["1"]);
    assert_eq!(page.total_elements, 1);
    let offer = page.content[0].award_economy.as_ref().unwrap();
    assert_eq!(offer.cabin_points_value, Some(9_000));
    assert!(offer.cabin_class_seat_count.unwrap() > 0);
}

#[test]
fn cheapest_search_orders_by_points_then_departure_then_place() {
    let mut rows = Vec::new();
    let plan = [
        (1, 20_000, 3),
        (2, 10_000, 2),
        (3, 20_000, 1),
        (4, 10_000, 2),
        (5, 15_000, 9),
        (6, 10_000, 1),
    ];
    for (id, points, day) in plan {
        let mut row = flight(id, "LHR", "JFK", "VS", date(2024, 6, day));
        row.premium_economy = award(100 + id, Some(points), 2);
        rows.push(row);
    }
    let request = make_cheapest_request("LHR", "JFK", "PREMIUM_ECONOMY", 0, 50);
    let page = search_rows(&rows, &request).unwrap();
    assert_eq!(ids(&page), vec!["6", "2", "4", "5", "3", "1"]);
    let mut last = (i32::MIN, String::new());
    for found in &page.content {
        let offer = found.award_premium_economy.as_ref().unwrap();
        let key = (offer.cabin_points_value.unwrap(), found.departure.clone());
        assert!(last <= key);
        last = key;
    }
}

#[test]
fn cheapest_search_looks_only_at_the_cabin_that_is_named() {
    let mut row = flight(1, "LHR", "JFK", "VS", date(2024, 6, 1));
    row.economy = award(11, Some(1), 1);
    row.business = award(12, Some(3), 1);
    let mut other = flight(2, "LHR", "JFK", "VS", date(2024, 6, 1));
    other.economy = award(21, Some(2), 1);
    other.business = award(22, Some(2), 1);
    let rows = vec![row, other];
    let economy = search_rows(&rows, &make_cheapest_request("LHR", "JFK", "ECONOMY", 0, 50));
    assert_eq!(ids(&economy.unwrap()), vec!["1", "2"]);
    let business = search_rows(&rows, &make_cheapest_request("LHR", "JFK", "BUSINESS", 0, 50));
    assert_eq!(ids(&business.unwrap()), vec!["2", "1"]);
    let premium =
        search_rows(&rows, &make_cheapest_request("LHR", "JFK", "PREMIUM_ECONOMY", 0, 50));
    assert!(premium.unwrap().content.is_empty());
}

#[test]
fn cheapest_search_knows_no_first_class() {
    let mut row = flight(1, "LHR", "JFK", "VS", date(2024, 6, 1));
    row.first = award(11, Some(1), 1);
    row.economy = award(12, Some(1), 1);
    for name in ["FIRST", "economy", ""] {
        let request = make_cheapest_request("LHR", "JFK", name, 0, 50);
        let page = search_rows(&vec![flight(9, "LHR", "JFK", "VS", date(2024, 6, 1))], &request);
        let page = page.unwrap();
        assert!(page.content.is_empty());
        assert_eq!(page.total_elements, 0);
    }
    let request = make_cheapest_request("LHR", "JFK", "FIRST", 0, 50);
    assert!(search_rows(&vec![row], &request).unwrap().content.is_empty());
}

#[test]
fn cheapest_search_puts_unreadable_departures_last() {
    let mut undated = flight(1, "LHR", "JFK", "VS", date(2024, 6, 1));
    undated.departure = None;
    undated.economy = award(11, Some(100), 1);
    let mut dated = flight(2, "LHR", "JFK", "VS", date(2024, 6, 9));
    dated.economy = award(12, Some(100), 1);
    let rows = vec![undated, dated];
    let first = search_rows(&rows, &make_cheapest_request("LHR", "JFK", "ECONOMY", 0, 1)).unwrap();
    assert_eq!(ids(&first), vec!["2"]);
    assert_eq!(first.total_elements, 2);
    let second = search_rows(&rows, &make_cheapest_request("LHR", "JFK", "ECONOMY", 1, 1));
    match second {
        Err(SearchError::Mapping { row, cause }) => {
            assert_eq!(row, 0);
            assert_eq!(cause, MappingError::UnreadableDeparture);
        }
        other => panic!("a mapping error was expected, not {:?}", other),
    }
}

#[test]
fn the_same_search_twice_gives_the_same_page() {
    let mut rows = Vec::new();
    for n in 0..12 {
        let mut row = flight(n, "LHR", "JFK", "VS", date(2024, 6, 1 + (n as u32 * 7) % 5));
        row.business = award(50 + n, Some(1_000 * ((n * 5) % 4)), 1 + n % 2);
        rows.push(row);
    }
    let store = repository(rows);
    let run_range = || {
        store
            .find_by_origin_and_destination_and_carrier_code_and_departure_between(
                "LHR",
                "JFK",
                "VS",
                date(2024, 6, 1),
                date(2024, 6, 4),
                1,
                4,
            )
            .unwrap()
    };
    let run_cheapest = || {
        store
            .find_all_ordered_by_lowest_cabin_points_and_origin_and_destination(
                "LHR", "JFK", "BUSINESS", 0, 5,
            )
            .unwrap()
    };
    for (first, second) in [(run_range(), run_range()), (run_cheapest(), run_cheapest())] {
        assert_eq!(ids(&first), ids(&second));
        assert_eq!(first.page_number, second.page_number);
        assert_eq!(first.page_size, second.page_size);
        assert_eq!(first.total_elements, second.total_elements);
        assert_eq!(first.total_pages, second.total_pages);
        for (a, b) in first.content.iter().zip(second.content.iter()) {
            assert_eq!(a.departure, b.departure);
            assert_eq!(a.scraped_at, b.scraped_at);
            assert_eq!(
                a.award_business.as_ref().map(|o| o.cabin_points_value),
                b.award_business.as_ref().map(|o| o.cabin_points_value)
            );
        }
    }
}

#[test]
fn the_repository_runs_requests() {
    let store = repository(vec![
        flight(1, "LHR", "JFK", "VS", date(2024, 6, 2)),
        flight(2, "LHR", "JFK", "VS", date(2024, 6, 1)),
    ]);
    let request = make_range_request("LHR", "JFK", "VS", date(2024, 6, 1), date(2024, 6, 2), 0, 1);
    let page = store.search(&request).unwrap();
    assert_eq!(ids(&page), vec!["2"]);
    assert_eq!(page.total_elements, 2);
    assert_eq!(page.total_pages, 2);
    assert!(matches!(
        store.find_by_origin_and_destination_and_carrier_code_and_departure_between(
            "LHR",
            "JFK",
            "VS",
            date(2024, 6, 1),
            date(2024, 6, 2),
            0,
            0
        ),
        Err(SearchError::InvalidPageSize)
    ));
}

#[test]
fn candidates_stand_for_selected_rows() {
    let mut row = flight(1, "LHR", "JFK", "VS", date(2024, 6, 1));
    row.economy = award(11, Some(500), 2);
    let range = make_range_request("LHR", "JFK", "VS", date(2024, 6, 1), date(2024, 6, 1), 0, 1);
    let found = candidate_for(&range.query, &row, 4).unwrap();
    assert_eq!((found.position, found.major, found.minor), (4, 739_038, 0));
    let cheapest = make_cheapest_request("LHR", "JFK", "ECONOMY", 0, 1);
    let found = candidate_for(&cheapest.query, &row, 2).unwrap();
    assert_eq!((found.position, found.major, found.minor), (2, 500, 739_038));
    let elsewhere = make_cheapest_request("LHR", "BOS", "ECONOMY", 0, 1);
    assert!(candidate_for(&elsewhere.query, &row, 2).is_none());
}

#[test]
fn sorting_is_stable() {
    let list = vec![
        Candidate { position: 0, major: 2, minor: 0 },
        Candidate { position: 1, major: 1, minor: 5 },
        Candidate { position: 2, major: 2, minor: 0 },
        Candidate { position: 3, major: 1, minor: 4 },
        Candidate { position: 4, major: 1, minor: 5 },
        Candidate { position: 5, major: -7, minor: 9 },
    ];
    let sorted = sort_candidates(&list);
    let positions: Vec<usize> = sorted.iter().map(|c| c.position).collect();
    assert_eq!(positions, vec![5, 3, 1, 4, 0, 2]);
    for pair in sorted.windows(2) {
        assert!(may_precede(&pair[0], &pair[1]));
    }
    assert!(sort_candidates(&vec![]).is_empty());
}
