//! A repository that makes its flights up, for use where no store is at hand.
//!
//! Apart from the instants and the date that it reads off the clock, what it
//! hands back is fixed by what is asked.

use crate::date::{
    is_day_number, iso_date_text, now, today, CalendarDate, CaptureTime, NANOSECONDS_IN_A_SECOND,
};
use crate::model::{
    AwardBusiness, AwardEconomy, AwardOfferView, AwardPremiumEconomy, Page, RewardFlightLatest,
    RewardFlightView,
};
use crate::paging::{page_bounds, page_len, page_start};
use crate::repository::RewardFlightRepository;
use crate::search::SearchError;
use crate::text::{decimal_string, decimal_text};
use vstd::prelude::*;
use vstd::string::StringExecFns;

verus! {

/// The number of flights that the cheapest search of the mock knows.
pub const MOCK_FLIGHTS: u32 = 10;

/// A repository of made-up flights.
#[derive(Clone, Copy, Debug)]
pub struct MockRewardFlightRepository;

/// A made-up offer: every attribute is present, and the seat count is also
/// written out.
pub open spec fn mock_offer(id: Seq<char>, points: int, saver: bool, seats: int) -> AwardOfferView {
    AwardOfferView {
        id: Some(id),
        cabin_points_value: Some(points as i32),
        is_saver_award: Some(saver),
        cabin_class_seat_count: Some(seats as i32),
        cabin_class_seat_count_string: Some(decimal_text(seats)),
    }
}

/// The flight that the range search of the mock makes up for one day.
pub open spec fn mock_range_flight(
    origin: Seq<char>,
    destination: Seq<char>,
    carrier_code: Seq<char>,
    day: int,
    scraped_at: CaptureTime,
) -> RewardFlightView {
    RewardFlightView {
        id: Some("mock-"@ + origin + "-"@ + destination + "-"@ + iso_date_text(day)),
        origin,
        destination,
        departure: iso_date_text(day),
        carrier_code,
        scraped_at,
        award_economy: Some(mock_offer("mock-economy-id"@, 10000, true, 5)),
        award_business: Some(mock_offer("mock-business-id"@, 30000, false, 2)),
        award_premium_economy: Some(mock_offer("mock-premium-economy-id"@, 20000, true, 3)),
        award_first: None,
    }
}

/// The day on which the flight with number `index` departs: so many days
/// after `today`, or `today` where the calendar ends before.
pub open spec fn mock_departure_day(today: int, index: int) -> int {
    if is_day_number(today + index) {
        today + index
    } else {
        today
    }
}

/// The flight with number `index` that the cheapest search of the mock
/// makes up. The points values grow with the number, in every cabin.
pub open spec fn mock_cheapest_flight(
    origin: Seq<char>,
    destination: Seq<char>,
    index: int,
    today: int,
    scraped_at: CaptureTime,
) -> RewardFlightView {
    RewardFlightView {
        id: Some("mock-"@ + origin + "-"@ + destination + "-"@ + decimal_text(index)),
        origin,
        destination,
        departure: iso_date_text(mock_departure_day(today, index)),
        carrier_code: "VS"@,
        scraped_at,
        award_economy: Some(
            mock_offer("mock-economy-id-"@ + decimal_text(index), 10000 + index * 1000, true, 5),
        ),
        award_business: Some(
            mock_offer("mock-business-id-"@ + decimal_text(index), 30000 + index * 2000, false, 2),
        ),
        award_premium_economy: Some(
            mock_offer(
                "mock-premium-economy-id-"@ + decimal_text(index),
                20000 + index * 1500,
                true,
                3,
            ),
        ),
        award_first: None,
    }
}

/// Whether `flight` is the flight with number `index` of the cheapest
/// search, made up on some day at some instant.
pub open spec fn is_mock_cheapest_flight(
    flight: RewardFlightView,
    origin: Seq<char>,
    destination: Seq<char>,
    index: int,
) -> bool {
    exists|today: int|
        is_day_number(today) && flight == #[trigger] mock_cheapest_flight(
            origin,
            destination,
            index,
            today,
            flight.scraped_at,
        )
}

/// Whether `instant` is one that the clock can show: its nanoseconds are
/// less than a second.
pub open spec fn is_clock_reading(instant: CaptureTime) -> bool {
    instant.nanoseconds < NANOSECONDS_IN_A_SECOND
}

/// The number of days from `from_date` to `to_date`, both included.
pub open spec fn days_between(from_date: int, to_date: int) -> int {
    if from_date <= to_date {
        to_date - from_date + 1
    } else {
        0
    }
}

fn flight_id(origin: &str, destination: &str, tail: &str) -> (id: String)
    ensures
        id@ == "mock-"@ + origin@ + "-"@ + destination@ + "-"@ + tail@,
{
    let mut id: String = String::from_str("mock-");
    id.append(origin);
    id.append("-");
    id.append(destination);
    id.append("-");
    id.append(tail);
    id
}

fn numbered(stem: &str, index: u32) -> (id: String)
    requires
        index <= i32::MAX,
    ensures
        id@ == stem@ + decimal_text(index as int),
{
    let mut id: String = String::from_str(stem);
    let number: String = decimal_string(index as i32);
    id.append(number.as_str());
    id
}

fn economy(id: String, points: i32, seats: i32) -> (offer: AwardEconomy)
    ensures
        offer@ == mock_offer(id@, points as int, true, seats as int),
{
    AwardEconomy {
        id: Some(id),
        cabin_points_value: Some(points),
        is_saver_award: Some(true),
        cabin_class_seat_count: Some(seats),
        cabin_class_seat_count_string: Some(decimal_string(seats)),
    }
}

fn business(id: String, points: i32, seats: i32) -> (offer: AwardBusiness)
    ensures
        offer@ == mock_offer(id@, points as int, false, seats as int),
{
    AwardBusiness {
        id: Some(id),
        cabin_points_value: Some(points),
        is_saver_award: Some(false),
        cabin_class_seat_count: Some(seats),
        cabin_class_seat_count_string: Some(decimal_string(seats)),
    }
}

fn premium_economy(id: String, points: i32, seats: i32) -> (offer: AwardPremiumEconomy)
    ensures
        offer@ == mock_offer(id@, points as int, true, seats as int),
{
    AwardPremiumEconomy {
        id: Some(id),
        cabin_points_value: Some(points),
        is_saver_award: Some(true),
        cabin_class_seat_count: Some(seats),
        cabin_class_seat_count_string: Some(decimal_string(seats)),
    }
}

/// Makes up the flight of the range search for `day`, observed at `scraped_at`.
pub fn range_flight_on(
    origin: &str,
    destination: &str,
    carrier_code: &str,
    day: CalendarDate,
    scraped_at: CaptureTime,
) -> (flight: RewardFlightLatest)
    ensures
        flight@ == mock_range_flight(origin@, destination@, carrier_code@, day@, scraped_at),
{
    let departure: String = day.to_iso_text();
    RewardFlightLatest {
        id: Some(flight_id(origin, destination, departure.as_str())),
        origin: String::from_str(origin),
        destination: String::from_str(destination),
        departure,
        carrier_code: String::from_str(carrier_code),
        scraped_at,
        award_economy: Some(economy(String::from_str("mock-economy-id"), 10000, 5)),
        award_business: Some(business(String::from_str("mock-business-id"), 30000, 2)),
        award_premium_economy: Some(
            premium_economy(String::from_str("mock-premium-economy-id"), 20000, 3),
        ),
        award_first: None,
    }
}

/// Makes up the flight with number `index` of the cheapest search, on the
/// day `today` and observed at `scraped_at`.
pub fn cheapest_flight_at(
    origin: &str,
    destination: &str,
    index: u32,
    today: CalendarDate,
    scraped_at: CaptureTime,
) -> (flight: RewardFlightLatest)
    requires
        index < MOCK_FLIGHTS,
    ensures
        flight@ == mock_cheapest_flight(origin@, destination@, index as int, today@, scraped_at),
{
    let day: CalendarDate = match today.plus_days(index) {
        Some(later) => later,
        None => today,
    };
    let number: String = decimal_string(index as i32);
    let step: i32 = index as i32;
    RewardFlightLatest {
        id: Some(flight_id(origin, destination, number.as_str())),
        origin: String::from_str(origin),
        destination: String::from_str(destination),
        departure: day.to_iso_text(),
        carrier_code: String::from_str("VS"),
        scraped_at,
        award_economy: Some(economy(numbered("mock-economy-id-", index), 10000 + step * 1000, 5)),
        award_business: Some(
            business(numbered("mock-business-id-", index), 30000 + step * 2000, 2),
        ),
        award_premium_economy: Some(
            premium_economy(numbered("mock-premium-economy-id-", index), 20000 + step * 1500, 3),
        ),
        award_first: None,
    }
}

impl RewardFlightRepository for MockRewardFlightRepository {
    /// One flight for each day from `from_date` to `to_date`, in the order
    /// of the days, each with an offer in economy, business and premium
    /// economy and none in first class.
    fn find_by_origin_and_destination_and_carrier_code_and_departure_between(
        &self,
        origin: &str,
        destination: &str,
        carrier_code: &str,
        from_date: CalendarDate,
        to_date: CalendarDate,
        page_number: usize,
        page_size: usize,
    ) -> (page: Result<Page<RewardFlightLatest>, SearchError>)
        ensures
            page_size > 0 ==> page is Ok,
            page matches Ok(p) ==> {
                &&& p.total_elements == days_between(from_date@, to_date@)
                &&& p.content@.len() == page_len(
                    p.total_elements as int,
                    page_number as int,
                    page_size as int,
                )
                &&& forall|i: int|
                    0 <= i < p.content@.len() ==> (#[trigger] p.content@[i])@ == mock_range_flight(
                        origin@,
                        destination@,
                        carrier_code@,
                        from_date@ + page_start(page_number as int, page_size as int) + i,
                        p.content@[i].scraped_at,
                    )
                &&& forall|i: int|
                    0 <= i < p.content@.len() ==> is_clock_reading(
                        (#[trigger] p.content@[i]).scraped_at,
                    )
            },
    {
        if page_size == 0 {
            return Err(SearchError::InvalidPageSize);
        }
        let first: i32 = from_date.days();
        let last: i32 = to_date.days();
        let total: u32 = if first <= last {
            (last as i64 - first as i64 + 1) as u32
        } else {
            0
        };
        let (start, end) = page_bounds(total as usize, page_number, page_size);
        let mut content: Vec<RewardFlightLatest> = Vec::new();
        let mut at: usize = start;
        while at < end
            invariant
                start <= at <= end <= total,
                first == from_date@,
                last == to_date@,
                total as int == days_between(first as int, last as int),
                is_day_number(first as int),
                is_day_number(last as int),
                content@.len() == at - start,
                forall|i: int|
                    0 <= i < content@.len() ==> (#[trigger] content@[i])@ == mock_range_flight(
                        origin@,
                        destination@,
                        carrier_code@,
                        first + start + i,
                        content@[i].scraped_at,
                    ),
                forall|i: int|
                    0 <= i < content@.len() ==> is_clock_reading(
                        (#[trigger] content@[i]).scraped_at,
                    ),
            decreases end - at,
        {
            let day: CalendarDate = match from_date.plus_days(at as u32) {
                Some(later) => later,
                None => from_date,
            };
            let flight = range_flight_on(origin, destination, carrier_code, day, now());
            content.push(flight);
            at = at + 1;
        }
        Ok(Page::new(content, page_number, page_size, total as i64))
    }

    /// Ten flights, numbered from zero, whose points values grow with the
    /// number in every cabin, in the order of their numbers: the cheapest
    /// first, whichever cabin is named.
    fn find_all_ordered_by_lowest_cabin_points_and_origin_and_destination(
        &self,
        origin: &str,
        destination: &str,
        cabin_type: &str,
        page_number: usize,
        page_size: usize,
    ) -> (page: Result<Page<RewardFlightLatest>, SearchError>)
        ensures
            page_size > 0 ==> page is Ok,
            page matches Ok(p) ==> {
                &&& p.total_elements == MOCK_FLIGHTS
                &&& p.content@.len() == page_len(
                    MOCK_FLIGHTS as int,
                    page_number as int,
                    page_size as int,
                )
                &&& forall|i: int|
                    0 <= i < p.content@.len() ==> is_mock_cheapest_flight(
                        (#[trigger] p.content@[i])@,
                        origin@,
                        destination@,
                        page_start(page_number as int, page_size as int) + i,
                    )
                &&& forall|i: int|
                    0 <= i < p.content@.len() ==> is_clock_reading(
                        (#[trigger] p.content@[i]).scraped_at,
                    )
            },
    {
        if page_size == 0 {
            return Err(SearchError::InvalidPageSize);
        }
        let (start, end) = page_bounds(MOCK_FLIGHTS as usize, page_number, page_size);
        let mut content: Vec<RewardFlightLatest> = Vec::new();
        let mut at: usize = start;
        while at < end
            invariant
                start <= at <= end <= MOCK_FLIGHTS,
                content@.len() == at - start,
                forall|i: int|
                    0 <= i < content@.len() ==> is_mock_cheapest_flight(
                        (#[trigger] content@[i])@,
                        origin@,
                        destination@,
                        start + i,
                    ),
                forall|i: int|
                    0 <= i < content@.len() ==> is_clock_reading(
                        (#[trigger] content@[i]).scraped_at,
                    ),
            decreases end - at,
        {
            let day: CalendarDate = today();
            let flight = cheapest_flight_at(origin, destination, at as u32, day, now());
            content.push(flight);
            at = at + 1;
        }
        Ok(Page::new(content, page_number, page_size, MOCK_FLIGHTS as i64))
    }
}

/// Among the flights that the cheapest search of the mock knows, one with a
/// smaller number costs fewer points in every cabin.
pub proof fn lemma_mock_flights_grow_dearer(
    origin: Seq<char>,
    destination: Seq<char>,
    i: int,
    j: int,
    today_i: int,
    today_j: int,
    at_i: CaptureTime,
    at_j: CaptureTime,
)
    requires
        0 <= i < j < MOCK_FLIGHTS,
    ensures
        ({
            let a = mock_cheapest_flight(origin, destination, i, today_i, at_i);
            let b = mock_cheapest_flight(origin, destination, j, today_j, at_j);
            &&& a.award_economy->0.cabin_points_value->0 < b.award_economy->0.cabin_points_value->0
            &&& a.award_business->0.cabin_points_value->0
                < b.award_business->0.cabin_points_value->0
            &&& a.award_premium_economy->0.cabin_points_value->0
                < b.award_premium_economy->0.cabin_points_value->0
        }),
{
}

} // verus!
