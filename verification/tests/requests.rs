use rewardo_search::date::CalendarDate;
use rewardo_search::model::Page;
use rewardo_search::request::{
    answer_to, cheapest_reward_flights_request, latest_request_from_dates,
    latest_reward_flights_request, refusal, resolve_paging, Answer, Endpoint, PageParams,
    RequestError, BAD_REQUEST, CARRIER_CODE, CHEAPEST_PAGE_SIZE, INTERNAL_SERVER_ERROR,
    LATEST_PAGE_SIZE, OK,
};
use rewardo_search::search::{DataAccessError, SearchError, SearchQuery};

fn paging(page_number: Option<i32>, page_size: Option<i32>) -> PageParams {
    PageParams { page_number, page_size }
}

#[test]
fn paging_falls_back_on_the_defaults() {
    assert_eq!(resolve_paging(&paging(None, None), 10), Ok((0, 10)));
    assert_eq!(resolve_paging(&paging(None, None), 50), Ok((0, 50)));
    assert_eq!(resolve_paging(&paging(Some(3), None), 10), Ok((3, 10)));
    assert_eq!(resolve_paging(&paging(None, Some(25)), 10), Ok((0, 25)));
    assert_eq!(resolve_paging(&paging(Some(2), Some(1)), 10), Ok((2, 1)));
    assert_eq!(
        resolve_paging(&paging(Some(i32::MAX), Some(i32::MAX)), 10),
        Ok((i32::MAX as usize, i32::MAX as usize))
    );
    assert_eq!(LATEST_PAGE_SIZE, 10);
    assert_eq!(CHEAPEST_PAGE_SIZE, 50);
}

#[test]
fn paging_refuses_what_is_out_of_range() {
    assert_eq!(resolve_paging(&paging(Some(-1), None), 10), Err(RequestError::InvalidPageNumber));
    assert_eq!(resolve_paging(&paging(None, Some(0)), 10), Err(RequestError::InvalidPageSize));
    assert_eq!(resolve_paging(&paging(None, Some(-5)), 10), Err(RequestError::InvalidPageSize));
    assert_eq!(
        resolve_paging(&paging(Some(-1), Some(0)), 10),
        Err(RequestError::InvalidPageNumber)
    );
    assert_eq!(resolve_paging(&paging(None, None), 0), Err(RequestError::InvalidPageSize));
}

#[test]
fn the_range_endpoint_makes_a_request() {
    let request =
        latest_reward_flights_request("LHR", "JFK", "2024-06-01", "2024-06-03", &paging(None, None))
            .unwrap();
    assert_eq!(request.page_number, 0);
    assert_eq!(request.page_size, 10);
    match request.query {
        SearchQuery::Range { origin, destination, carrier_code, from_date, to_date } => {
            assert_eq!(origin, "LHR");
            assert_eq!(destination, "JFK");
            assert_eq!(carrier_code, "VS");
            assert_eq!(carrier_code, CARRIER_CODE);
            assert_eq!(from_date.days(), 739_038);
            assert_eq!(to_date.days(), 739_040);
        }
        other => panic!("a range was expected, not {:?}", other),
    }
}

#[test]
fn the_range_endpoint_takes_the_paging_of_the_call() {
    let request = latest_reward_flights_request(
        "LHR",
        "JFK",
        "2024-06-01",
        "2024-06-03",
        &paging(Some(4), Some(25)),
    )
    .unwrap();
    assert_eq!(request.page_number, 4);
    assert_eq!(request.page_size, 25);
}

#[test]
fn the_range_endpoint_refuses_bad_dates() {
    let call = |from: &str, to: &str| {
        latest_reward_flights_request("LHR", "JFK", from, to, &paging(None, None)).unwrap_err()
    };
    assert_eq!(call("yesterday", "2024-06-03"), RequestError::InvalidFromDate);
    assert_eq!(call("2024-06-01", "2024-06-31"), RequestError::InvalidToDate);
    assert_eq!(call("01/06/2024", "03/06/2024"), RequestError::InvalidFromDate);
    assert_eq!(call("", ""), RequestError::InvalidFromDate);
}

#[test]
fn the_range_endpoint_looks_at_the_dates_first() {
    let bad = [paging(None, Some(0)), paging(Some(-1), None), paging(Some(-1), Some(0))];
    for params in bad {
        let error =
            latest_reward_flights_request("LHR", "JFK", "2024-13-01", "2024-06-03", &params)
                .unwrap_err();
        assert_eq!(error, RequestError::InvalidFromDate);
        assert_eq!(error.message(), "Invalid 'from' date format. Expected YYYY-MM-DD");
        let error =
            latest_reward_flights_request("LHR", "JFK", "2024-06-01", "03/06/2024", &params)
                .unwrap_err();
        assert_eq!(error, RequestError::InvalidToDate);
        assert_eq!(error.message(), "Invalid 'to' date format. Expected YYYY-MM-DD");
        let error = latest_reward_flights_request("LHR", "JFK", "never", "never", &params)
            .unwrap_err();
        assert_eq!(error, RequestError::InvalidFromDate);
    }
}

#[test]
fn the_range_endpoint_refuses_bad_paging_of_good_dates() {
    let call = |params: PageParams| {
        latest_reward_flights_request("LHR", "JFK", "2024-06-01", "2024-06-03", &params)
            .unwrap_err()
    };
    assert_eq!(call(paging(None, Some(0))), RequestError::InvalidPageSize);
    assert_eq!(call(paging(Some(0), Some(-3))), RequestError::InvalidPageSize);
    assert_eq!(call(paging(Some(-1), None)), RequestError::InvalidPageNumber);
    assert_eq!(call(paging(Some(-1), Some(0))), RequestError::InvalidPageNumber);
}

#[test]
fn a_request_is_made_from_dates_that_were_read() {
    let from = CalendarDate::from_ymd(2024, 6, 1);
    let to = CalendarDate::from_ymd(2024, 6, 3);
    let request = latest_request_from_dates("LHR", "JFK", from, to, &paging(Some(1), None));
    assert_eq!(request.unwrap().page_number, 1);
    let error = latest_request_from_dates("LHR", "JFK", None, to, &paging(None, None));
    assert_eq!(error.unwrap_err(), RequestError::InvalidFromDate);
    let error = latest_request_from_dates("LHR", "JFK", from, None, &paging(None, None));
    assert_eq!(error.unwrap_err(), RequestError::InvalidToDate);
    let error = latest_request_from_dates("LHR", "JFK", None, None, &paging(None, None));
    assert_eq!(error.unwrap_err(), RequestError::InvalidFromDate);
    let error = latest_request_from_dates("LHR", "JFK", None, to, &paging(None, Some(0)));
    assert_eq!(error.unwrap_err(), RequestError::InvalidFromDate);
    let error = latest_request_from_dates("LHR", "JFK", from, None, &paging(Some(-1), None));
    assert_eq!(error.unwrap_err(), RequestError::InvalidToDate);
    let error = latest_request_from_dates("LHR", "JFK", from, to, &paging(None, Some(0)));
    assert_eq!(error.unwrap_err(), RequestError::InvalidPageSize);
}

#[test]
fn the_cheapest_endpoint_makes_a_request() {
    let request =
        cheapest_reward_flights_request("LHR", "JFK", "BUSINESS", &paging(None, None)).unwrap();
    assert_eq!(request.page_number, 0);
    assert_eq!(request.page_size, 50);
    match request.query {
        SearchQuery::Cheapest { origin, destination, cabin_type } => {
            assert_eq!(origin, "LHR");
            assert_eq!(destination, "JFK");
            assert_eq!(cabin_type, "BUSINESS");
        }
        other => panic!("a cheapest search was expected, not {:?}", other),
    }
}

#[test]
fn the_cheapest_endpoint_refuses_other_cabins() {
    for name in ["FIRST", "business", "", "ECONOMY PLUS"] {
        let error =
            cheapest_reward_flights_request("LHR", "JFK", name, &paging(None, None)).unwrap_err();
        assert_eq!(error, RequestError::InvalidCabinType);
    }
}

#[test]
fn the_cheapest_endpoint_looks_at_the_cabin_first() {
    let bad = [paging(None, Some(0)), paging(Some(-1), None), paging(Some(-1), Some(0))];
    for params in bad {
        let error =
            cheapest_reward_flights_request("LHR", "JFK", "FIRST", &params).unwrap_err();
        assert_eq!(error, RequestError::InvalidCabinType);
        assert_eq!(
            error.message(),
            "Invalid cabin type. Expected ECONOMY, PREMIUM_ECONOMY, or BUSINESS"
        );
    }
}

#[test]
fn the_cheapest_endpoint_refuses_bad_paging_of_a_good_cabin() {
    let call = |cabin: &str, params: PageParams| {
        cheapest_reward_flights_request("LHR", "JFK", cabin, &params).unwrap_err()
    };
    assert_eq!(call("BUSINESS", paging(None, Some(0))), RequestError::InvalidPageSize);
    assert_eq!(call("ECONOMY", paging(Some(-1), None)), RequestError::InvalidPageNumber);
    assert_eq!(call("PREMIUM_ECONOMY", paging(Some(-1), Some(0))), RequestError::InvalidPageNumber);
}

#[test]
fn refusals_have_their_messages() {
    assert_eq!(
        RequestError::InvalidFromDate.message(),
        "Invalid 'from' date format. Expected YYYY-MM-DD"
    );
    assert_eq!(
        RequestError::InvalidToDate.message(),
        "Invalid 'to' date format. Expected YYYY-MM-DD"
    );
    assert_eq!(
        RequestError::InvalidCabinType.message(),
        "Invalid cabin type. Expected ECONOMY, PREMIUM_ECONOMY, or BUSINESS"
    );
    assert_eq!(
        RequestError::InvalidPageNumber.message(),
        "Invalid 'page-number'. Expected zero or more"
    );
    assert_eq!(
        RequestError::InvalidPageSize.message(),
        "Invalid 'page-size'. Expected one or more"
    );
    assert_eq!(BAD_REQUEST, 400);
}

#[test]
fn failures_have_their_messages() {
    assert_eq!(Endpoint::Latest.failure_message(), "Failed to fetch reward flights");
    assert_eq!(Endpoint::Cheapest.failure_message(), "Failed to fetch cheapest reward flights");
    assert_eq!(INTERNAL_SERVER_ERROR, 500);
}

#[test]
fn a_page_is_answered_as_found() {
    let answer = answer_to(Endpoint::Latest, Ok(Page::new(vec![], 2, 10, 0)));
    assert_eq!(answer.status(), OK);
    assert_eq!(answer.status(), 200);
    match answer {
        Answer::Found(page) => {
            assert!(page.content.is_empty());
            assert_eq!(page.page_number, 2);
            assert_eq!(page.total_pages, 0);
        }
        other => panic!("a page was expected, not {:?}", other),
    }
}

#[test]
fn a_failed_search_is_answered_as_failed() {
    let lost = SearchError::DataAccess(DataAccessError { detail: "connection lost".to_string() });
    let answer = answer_to(Endpoint::Latest, Err(lost));
    assert_eq!(answer.status(), INTERNAL_SERVER_ERROR);
    assert!(matches!(answer, Answer::Failed("Failed to fetch reward flights")));
    let answer = answer_to(Endpoint::Cheapest, Err(SearchError::InvalidPageSize));
    assert_eq!(answer.status(), 500);
    assert!(matches!(answer, Answer::Failed("Failed to fetch cheapest reward flights")));
}

#[test]
fn a_refusal_is_answered_as_refused() {
    let answer = refusal(RequestError::InvalidCabinType);
    assert_eq!(answer.status(), BAD_REQUEST);
    assert!(matches!(
        answer,
        Answer::Refused("Invalid cabin type. Expected ECONOMY, PREMIUM_ECONOMY, or BUSINESS")
    ));
}
