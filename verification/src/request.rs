//! What the two endpoints decide before and after a search: how the
//! parameters of a call become a request, and what is answered where they do
//! not, or where the search fails.

use crate::cabin::{cabin_named, lemma_cabin_names, CabinType};
use crate::date::{parsed_iso_date, CalendarDate};
use crate::model::{Page, RewardFlightLatest};
use crate::repository::{
    cheapest_request, make_cheapest_request, make_range_request, range_request,
};
use crate::search::{RequestView, SearchError, SearchRequest};
use vstd::prelude::*;

verus! {

/// The carrier whose flights the range endpoint searches.
pub const CARRIER_CODE: &'static str = "VS";

/// The page size of the range endpoint where the call names none.
pub const LATEST_PAGE_SIZE: i32 = 10;

/// The page size of the cheapest endpoint where the call names none.
pub const CHEAPEST_PAGE_SIZE: i32 = 50;

/// Status of an answer that carries a page.
pub const OK: u16 = 200;

/// Status of an answer to a call whose parameters are refused.
pub const BAD_REQUEST: u16 = 400;

/// Status of an answer to a call whose search failed.
pub const INTERNAL_SERVER_ERROR: u16 = 500;

/// The paging parameters of a call, each as it was given.
#[derive(Clone, Copy, Debug)]
pub struct PageParams {
    pub page_number: Option<i32>,
    pub page_size: Option<i32>,
}

/// Why the parameters of a call are refused.
#[derive(Clone, Copy, Debug, PartialEq, Eq, Structural)]
pub enum RequestError {
    /// The page number is negative.
    InvalidPageNumber,
    /// The page size is less than one.
    InvalidPageSize,
    /// The first day of the range is no date.
    InvalidFromDate,
    /// The last day of the range is no date.
    InvalidToDate,
    /// The cabin is none of the three that can be searched.
    InvalidCabinType,
}

/// The endpoints.
#[derive(Clone, Copy, Debug, PartialEq, Eq, Structural)]
pub enum Endpoint {
    /// Flights of the carrier in a range of days.
    Latest,
    /// Flights by lowest points in a cabin.
    Cheapest,
}

/// What an endpoint answers.
#[derive(Debug)]
pub enum Answer {
    /// The page that was found, to be sent as the body.
    Found(Page<RewardFlightLatest>),
    /// The parameters are refused, with the text of the body.
    Refused(&'static str),
    /// The search failed, with the text of the body.
    Failed(&'static str),
}

/// The page number and page size that a call asks for: what it gives, zero
/// and `default_size` where it gives none. A negative page number is
/// refused, then a page size below one.
pub open spec fn paging_of(params: PageParams, default_size: int) -> Result<(nat, nat), RequestError> {
    let page_number: int = match params.page_number {
        Some(n) => n as int,
        None => 0,
    };
    let page_size: int = match params.page_size {
        Some(n) => n as int,
        None => default_size,
    };
    if page_number < 0 {
        Err(RequestError::InvalidPageNumber)
    } else if page_size < 1 {
        Err(RequestError::InvalidPageSize)
    } else {
        Ok((page_number as nat, page_size as nat))
    }
}

/// The request of a call to the range endpoint, given the dates that were
/// read from its path. The first day is looked at first, then the last, and
/// only then the paging: a call with a bad date is refused for the date,
/// whatever paging it asks for.
pub open spec fn latest_request_of(
    origin: Seq<char>,
    destination: Seq<char>,
    from_date: Option<int>,
    to_date: Option<int>,
    params: PageParams,
) -> Result<RequestView, RequestError> {
    match (from_date, to_date) {
        (None, _) => Err(RequestError::InvalidFromDate),
        (Some(_), None) => Err(RequestError::InvalidToDate),
        (Some(from_day), Some(to_day)) => match paging_of(params, LATEST_PAGE_SIZE as int) {
            Err(e) => Err(e),
            Ok((page_number, page_size)) => Ok(
                range_request(
                    origin,
                    destination,
                    CARRIER_CODE@,
                    from_day,
                    to_day,
                    page_number,
                    page_size,
                ),
            ),
        },
    }
}

/// The request of a call to the cheapest endpoint. The cabin is looked at
/// first, and only then the paging: a call that names no cabin that can be
/// searched is refused for the cabin, whatever paging it asks for.
pub open spec fn cheapest_request_of(
    origin: Seq<char>,
    destination: Seq<char>,
    cabin_type: Seq<char>,
    params: PageParams,
) -> Result<RequestView, RequestError> {
    match cabin_named(cabin_type) {
        None => Err(RequestError::InvalidCabinType),
        Some(cabin) => match paging_of(params, CHEAPEST_PAGE_SIZE as int) {
            Err(e) => Err(e),
            Ok((page_number, page_size)) => Ok(
                cheapest_request(origin, destination, cabin.name(), page_number, page_size),
            ),
        },
    }
}

/// What is answered to a call whose parameters are refused.
pub open spec fn message_of(error: RequestError) -> Seq<char> {
    match error {
        RequestError::InvalidPageNumber => "Invalid 'page-number'. Expected zero or more"@,
        RequestError::InvalidPageSize => "Invalid 'page-size'. Expected one or more"@,
        RequestError::InvalidFromDate => "Invalid 'from' date format. Expected YYYY-MM-DD"@,
        RequestError::InvalidToDate => "Invalid 'to' date format. Expected YYYY-MM-DD"@,
        RequestError::InvalidCabinType =>
            "Invalid cabin type. Expected ECONOMY, PREMIUM_ECONOMY, or BUSINESS"@,
    }
}

/// What is answered to a call whose search failed.
pub open spec fn failure_of(endpoint: Endpoint) -> Seq<char> {
    match endpoint {
        Endpoint::Latest => "Failed to fetch reward flights"@,
        Endpoint::Cheapest => "Failed to fetch cheapest reward flights"@,
    }
}

/// Works out the page number and page size of a call.
pub fn resolve_paging(params: &PageParams, default_size: i32) -> (paging: Result<
    (usize, usize),
    RequestError,
>)
    ensures
        match paging {
            Ok((page_number, page_size)) => paging_of(*params, default_size as int) == Ok::<
                (nat, nat),
                RequestError,
            >((page_number as nat, page_size as nat)) && page_size >= 1,
            Err(e) => paging_of(*params, default_size as int) == Err::<(nat, nat), RequestError>(e),
        },
{
    let page_number: i32 = match params.page_number {
        Some(n) => n,
        None => 0,
    };
    let page_size: i32 = match params.page_size {
        Some(n) => n,
        None => default_size,
    };
    if page_number < 0 {
        Err(RequestError::InvalidPageNumber)
    } else if page_size < 1 {
        Err(RequestError::InvalidPageSize)
    } else {
        Ok((page_number as usize, page_size as usize))
    }
}

/// Makes the request of a call to the range endpoint from the dates that
/// were read from its path, `None` standing for one that is no date.
pub fn latest_request_from_dates(
    origin: &str,
    destination: &str,
    from_date: Option<CalendarDate>,
    to_date: Option<CalendarDate>,
    params: &PageParams,
) -> (request: Result<SearchRequest, RequestError>)
    ensures
        match request {
            Ok(r) => latest_request_of(
                origin@,
                destination@,
                day_of(from_date),
                day_of(to_date),
                *params,
            ) == Ok::<RequestView, RequestError>(r@) && r.page_size >= 1,
            Err(e) => latest_request_of(
                origin@,
                destination@,
                day_of(from_date),
                day_of(to_date),
                *params,
            ) == Err::<RequestView, RequestError>(e),
        },
{
    let from_day: CalendarDate = match from_date {
        Some(d) => d,
        None => {
            return Err(RequestError::InvalidFromDate);
        },
    };
    let to_day: CalendarDate = match to_date {
        Some(d) => d,
        None => {
            return Err(RequestError::InvalidToDate);
        },
    };
    let (page_number, page_size) = match resolve_paging(params, LATEST_PAGE_SIZE) {
        Ok(paging) => paging,
        Err(e) => {
            return Err(e);
        },
    };
    Ok(
        make_range_request(
            origin,
            destination,
            CARRIER_CODE,
            from_day,
            to_day,
            page_number,
            page_size,
        ),
    )
}

/// The day number of a date that may be absent.
pub open spec fn day_of(date: Option<CalendarDate>) -> Option<int> {
    match date {
        Some(d) => Some(d@),
        None => None,
    }
}

/// Makes the request of a call to the range endpoint: the flights of the
/// carrier from `origin` to `destination` that depart from the day written in
/// `from` to the day written in `to`, both as `YYYY-MM-DD`.
pub fn latest_reward_flights_request(
    origin: &str,
    destination: &str,
    from: &str,
    to: &str,
    params: &PageParams,
) -> (request: Result<SearchRequest, RequestError>)
    ensures
        match request {
            Ok(r) => latest_request_of(
                origin@,
                destination@,
                parsed_iso_date(from@),
                parsed_iso_date(to@),
                *params,
            ) == Ok::<RequestView, RequestError>(r@) && r.page_size >= 1,
            Err(e) => latest_request_of(
                origin@,
                destination@,
                parsed_iso_date(from@),
                parsed_iso_date(to@),
                *params,
            ) == Err::<RequestView, RequestError>(e),
        },
{
    let from_date: Option<CalendarDate> = CalendarDate::parse(from);
    let to_date: Option<CalendarDate> = CalendarDate::parse(to);
    latest_request_from_dates(origin, destination, from_date, to_date, params)
}

/// Makes the request of a call to the cheapest endpoint: the flights from
/// `origin` to `destination` that can be booked in the cabin named
/// `cabin_type`.
pub fn cheapest_reward_flights_request(
    origin: &str,
    destination: &str,
    cabin_type: &str,
    params: &PageParams,
) -> (request: Result<SearchRequest, RequestError>)
    ensures
        match request {
            Ok(r) => cheapest_request_of(origin@, destination@, cabin_type@, *params) == Ok::<
                RequestView,
                RequestError,
            >(r@) && r.page_size >= 1,
            Err(e) => cheapest_request_of(origin@, destination@, cabin_type@, *params) == Err::<
                RequestView,
                RequestError,
            >(e),
        },
{
    let cabin: CabinType = match CabinType::parse(cabin_type) {
        Some(cabin) => cabin,
        None => {
            return Err(RequestError::InvalidCabinType);
        },
    };
    let (page_number, page_size) = match resolve_paging(params, CHEAPEST_PAGE_SIZE) {
        Ok(paging) => paging,
        Err(e) => {
            return Err(e);
        },
    };
    Ok(make_cheapest_request(origin, destination, cabin.as_str(), page_number, page_size))
}

/// A call to the range endpoint with a bad date is refused for the date,
/// whatever paging it asks for: for the first day where that is no date, and
/// else for the last. Where both days are dates, the paging alone decides.
pub proof fn lemma_dates_are_looked_at_first(
    origin: Seq<char>,
    destination: Seq<char>,
    from_date: Option<int>,
    to_date: Option<int>,
    params: PageParams,
)
    ensures
        from_date is None ==> latest_request_of(origin, destination, from_date, to_date, params)
            == Err::<RequestView, RequestError>(RequestError::InvalidFromDate),
        from_date is Some && to_date is None ==> latest_request_of(
            origin,
            destination,
            from_date,
            to_date,
            params,
        ) == Err::<RequestView, RequestError>(RequestError::InvalidToDate),
        from_date is Some && to_date is Some ==> match paging_of(params, LATEST_PAGE_SIZE as int) {
            Ok((page_number, page_size)) => latest_request_of(
                origin,
                destination,
                from_date,
                to_date,
                params,
            ) == Ok::<RequestView, RequestError>(
                range_request(
                    origin,
                    destination,
                    CARRIER_CODE@,
                    from_date->0,
                    to_date->0,
                    page_number,
                    page_size,
                ),
            ),
            Err(e) => latest_request_of(origin, destination, from_date, to_date, params) == Err::<
                RequestView,
                RequestError,
            >(e),
        },
{
}

/// A call to the cheapest endpoint that names no cabin that can be searched
/// is refused for the cabin, whatever paging it asks for. Where it names
/// one, the paging alone decides.
pub proof fn lemma_cabin_is_looked_at_first(
    origin: Seq<char>,
    destination: Seq<char>,
    cabin_type: Seq<char>,
    params: PageParams,
)
    ensures
        cabin_named(cabin_type) is None ==> cheapest_request_of(
            origin,
            destination,
            cabin_type,
            params,
        ) == Err::<RequestView, RequestError>(RequestError::InvalidCabinType),
        cabin_named(cabin_type) is Some ==> match paging_of(params, CHEAPEST_PAGE_SIZE as int) {
            Ok((page_number, page_size)) => cheapest_request_of(
                origin,
                destination,
                cabin_type,
                params,
            ) == Ok::<RequestView, RequestError>(
                cheapest_request(origin, destination, cabin_type, page_number, page_size),
            ),
            Err(e) => cheapest_request_of(origin, destination, cabin_type, params) == Err::<
                RequestView,
                RequestError,
            >(e),
        },
{
    if cabin_named(cabin_type) is Some {
        lemma_cabin_names(cabin_named(cabin_type)->0, cabin_type);
    }
}

impl Answer {
    /// The status under which the answer is sent.
    pub fn status(&self) -> (status: u16)
        ensures
            status == match self {
                Answer::Found(_) => OK,
                Answer::Refused(_) => BAD_REQUEST,
                Answer::Failed(_) => INTERNAL_SERVER_ERROR,
            },
    {
        match self {
            Answer::Found(_) => OK,
            Answer::Refused(_) => BAD_REQUEST,
            Answer::Failed(_) => INTERNAL_SERVER_ERROR,
        }
    }
}

/// The answer to a call whose parameters are refused.
pub fn refusal(error: RequestError) -> (answer: Answer)
    ensures
        answer matches Answer::Refused(body) && body@ == message_of(error),
{
    Answer::Refused(error.message())
}

/// The answer to a call whose search has ended: the page where there is
/// one, and else the endpoint's word that the search failed, whatever the
/// failure was. A page without flights is a page.
pub fn answer_to(endpoint: Endpoint, outcome: Result<Page<RewardFlightLatest>, SearchError>) -> (answer:
    Answer)
    ensures
        match outcome {
            Ok(page) => answer matches Answer::Found(sent) && sent == page,
            Err(_) => answer matches Answer::Failed(body) && body@ == failure_of(endpoint),
        },
{
    match outcome {
        Ok(page) => Answer::Found(page),
        Err(_) => Answer::Failed(endpoint.failure_message()),
    }
}

impl RequestError {
    /// The body of the answer to a call that is refused for this reason.
    pub fn message(&self) -> (body: &'static str)
        ensures
            body@ == message_of(*self),
    {
        match self {
            RequestError::InvalidPageNumber => "Invalid 'page-number'. Expected zero or more",
            RequestError::InvalidPageSize => "Invalid 'page-size'. Expected one or more",
            RequestError::InvalidFromDate => "Invalid 'from' date format. Expected YYYY-MM-DD",
            RequestError::InvalidToDate => "Invalid 'to' date format. Expected YYYY-MM-DD",
            RequestError::InvalidCabinType =>
                "Invalid cabin type. Expected ECONOMY, PREMIUM_ECONOMY, or BUSINESS",
        }
    }
}

impl Endpoint {
    /// The body of the answer to a call whose search failed.
    pub fn failure_message(&self) -> (body: &'static str)
        ensures
            body@ == failure_of(*self),
    {
        match self {
            Endpoint::Latest => "Failed to fetch reward flights",
            Endpoint::Cheapest => "Failed to fetch cheapest reward flights",
        }
    }
}

} // verus!
