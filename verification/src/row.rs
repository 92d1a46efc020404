//! One row of the join of the flights table with the four award tables, and
//! the flight that it becomes.
//!
//! A row holds each column as it could be read: `None` stands for a cell that
//! is null or of another type than the column's.

use crate::date::{iso_date_text, CalendarDate, CaptureTime};
use crate::model::{
    text_of, AwardBusiness, AwardEconomy, AwardFirst, AwardOfferView, AwardPremiumEconomy,
    RewardFlightLatest, RewardFlightView,
};
use crate::text::{copy_text, decimal_string, decimal_text};
use vstd::prelude::*;

verus! {

/// The five columns that one cabin's award table adds to a joined row.
#[derive(Clone, Debug)]
pub struct CabinColumns {
    pub id: Option<i32>,
    pub cabin_points_value: Option<i32>,
    pub is_saver_award: Option<bool>,
    pub cabin_class_seat_count: Option<i32>,
    pub cabin_class_seat_count_string: Option<String>,
}

/// A flight joined with its award in each of the four cabins.
#[derive(Clone, Debug)]
pub struct FlightRow {
    pub id: Option<i32>,
    pub origin: Option<String>,
    pub destination: Option<String>,
    pub departure: Option<CalendarDate>,
    pub carrier_code: Option<String>,
    pub scraped_at: Option<CaptureTime>,
    pub economy: CabinColumns,
    pub business: CabinColumns,
    pub premium_economy: CabinColumns,
    pub first: CabinColumns,
}

/// Why a row could not become a flight.
#[derive(Clone, Copy, Debug, PartialEq, Eq, Structural)]
pub enum MappingError {
    /// The departure date could not be read.
    UnreadableDeparture,
    /// The capture timestamp could not be read.
    UnreadableCaptureTime,
}

/// The offer that a cabin's columns stand for: one exactly where the join
/// found an award row, that is where the identifier could be read. Each
/// other column is taken over by itself, absent where it could not be read.
pub open spec fn offer_of(columns: CabinColumns) -> Option<AwardOfferView> {
    match columns.id {
        Some(id) => Some(
            AwardOfferView {
                id: Some(decimal_text(id as int)),
                cabin_points_value: columns.cabin_points_value,
                is_saver_award: columns.is_saver_award,
                cabin_class_seat_count: columns.cabin_class_seat_count,
                cabin_class_seat_count_string: text_of(columns.cabin_class_seat_count_string),
            },
        ),
        None => None,
    }
}

/// The characters of a text column, or none where it could not be read.
pub open spec fn text_or_empty(text: Option<String>) -> Seq<char> {
    match text {
        Some(t) => t@,
        None => Seq::empty(),
    }
}

/// The identifier of a flight as the entity shows it.
pub open spec fn identifier_text(id: Option<i32>) -> Option<Seq<char>> {
    match id {
        Some(n) => Some(decimal_text(n as int)),
        None => None,
    }
}

/// The flight that a row stands for, or the reason why it stands for none.
pub open spec fn mapped(row: FlightRow) -> Result<RewardFlightView, MappingError> {
    match (row.departure, row.scraped_at) {
        (None, _) => Err(MappingError::UnreadableDeparture),
        (Some(_), None) => Err(MappingError::UnreadableCaptureTime),
        (Some(departure), Some(scraped_at)) => Ok(
            RewardFlightView {
                id: identifier_text(row.id),
                origin: text_or_empty(row.origin),
                destination: text_or_empty(row.destination),
                departure: iso_date_text(departure@),
                carrier_code: text_or_empty(row.carrier_code),
                scraped_at,
                award_economy: offer_of(row.economy),
                award_business: offer_of(row.business),
                award_premium_economy: offer_of(row.premium_economy),
                award_first: offer_of(row.first),
            },
        ),
    }
}

/// A copy of a cabin's columns.
pub fn copy_columns(columns: &CabinColumns) -> (copy: CabinColumns)
    ensures
        copy == *columns,
{
    CabinColumns {
        id: columns.id,
        cabin_points_value: columns.cabin_points_value,
        is_saver_award: columns.is_saver_award,
        cabin_class_seat_count: columns.cabin_class_seat_count,
        cabin_class_seat_count_string: copy_text(&columns.cabin_class_seat_count_string),
    }
}

/// A copy of a row.
pub fn copy_row(row: &FlightRow) -> (copy: FlightRow)
    ensures
        copy == *row,
{
    FlightRow {
        id: row.id,
        origin: copy_text(&row.origin),
        destination: copy_text(&row.destination),
        departure: row.departure,
        carrier_code: copy_text(&row.carrier_code),
        scraped_at: row.scraped_at,
        economy: copy_columns(&row.economy),
        business: copy_columns(&row.business),
        premium_economy: copy_columns(&row.premium_economy),
        first: copy_columns(&row.first),
    }
}

fn text_or_default(text: &Option<String>) -> (copy: String)
    ensures
        copy@ == text_or_empty(*text),
{
    match text {
        Some(t) => t.clone(),
        None => String::new(),
    }
}

/// The economy offer of a row.
pub fn economy_offer(columns: &CabinColumns) -> (offer: Option<AwardEconomy>)
    ensures
        offer is Some <==> columns.id is Some,
        match offer {
            Some(o) => Some(o@) == offer_of(*columns),
            None => offer_of(*columns) is None,
        },
{
    match columns.id {
        Some(id) => Some(
            AwardEconomy {
                id: Some(decimal_string(id)),
                cabin_points_value: columns.cabin_points_value,
                is_saver_award: columns.is_saver_award,
                cabin_class_seat_count: columns.cabin_class_seat_count,
                cabin_class_seat_count_string: copy_text(&columns.cabin_class_seat_count_string),
            },
        ),
        None => None,
    }
}

/// The business offer of a row.
pub fn business_offer(columns: &CabinColumns) -> (offer: Option<AwardBusiness>)
    ensures
        offer is Some <==> columns.id is Some,
        match offer {
            Some(o) => Some(o@) == offer_of(*columns),
            None => offer_of(*columns) is None,
        },
{
    match columns.id {
        Some(id) => Some(
            AwardBusiness {
                id: Some(decimal_string(id)),
                cabin_points_value: columns.cabin_points_value,
                is_saver_award: columns.is_saver_award,
                cabin_class_seat_count: columns.cabin_class_seat_count,
                cabin_class_seat_count_string: copy_text(&columns.cabin_class_seat_count_string),
            },
        ),
        None => None,
    }
}

/// The premium-economy offer of a row.
pub fn premium_economy_offer(columns: &CabinColumns) -> (offer: Option<AwardPremiumEconomy>)
    ensures
        offer is Some <==> columns.id is Some,
        match offer {
            Some(o) => Some(o@) == offer_of(*columns),
            None => offer_of(*columns) is None,
        },
{
    match columns.id {
        Some(id) => Some(
            AwardPremiumEconomy {
                id: Some(decimal_string(id)),
                cabin_points_value: columns.cabin_points_value,
                is_saver_award: columns.is_saver_award,
                cabin_class_seat_count: columns.cabin_class_seat_count,
                cabin_class_seat_count_string: copy_text(&columns.cabin_class_seat_count_string),
            },
        ),
        None => None,
    }
}

/// The first-class offer of a row.
pub fn first_offer(columns: &CabinColumns) -> (offer: Option<AwardFirst>)
    ensures
        offer is Some <==> columns.id is Some,
        match offer {
            Some(o) => Some(o@) == offer_of(*columns),
            None => offer_of(*columns) is None,
        },
{
    match columns.id {
        Some(id) => Some(
            AwardFirst {
                id: Some(decimal_string(id)),
                cabin_points_value: columns.cabin_points_value,
                is_saver_award: columns.is_saver_award,
                cabin_class_seat_count: columns.cabin_class_seat_count,
                cabin_class_seat_count_string: copy_text(&columns.cabin_class_seat_count_string),
            },
        ),
        None => None,
    }
}

/// Turns a joined row into a flight. A cabin's offer is present exactly where
/// that cabin's identifier could be read. A row whose departure date or
/// capture timestamp could not be read becomes no flight: the error says
/// which, the departure first.
pub fn map_row(row: &FlightRow) -> (flight: Result<RewardFlightLatest, MappingError>)
    ensures
        match flight {
            Ok(f) => mapped(*row) == Ok::<RewardFlightView, MappingError>(f@),
            Err(e) => mapped(*row) == Err::<RewardFlightView, MappingError>(e),
        },
        flight is Ok <==> row.departure is Some && row.scraped_at is Some,
        flight matches Ok(f) ==> {
            &&& f.award_economy is Some <==> row.economy.id is Some
            &&& f.award_business is Some <==> row.business.id is Some
            &&& f.award_premium_economy is Some <==> row.premium_economy.id is Some
            &&& f.award_first is Some <==> row.first.id is Some
        },
{
    let departure: CalendarDate = match row.departure {
        Some(d) => d,
        None => {
            return Err(MappingError::UnreadableDeparture);
        },
    };
    let scraped_at: CaptureTime = match row.scraped_at {
        Some(t) => t,
        None => {
            return Err(MappingError::UnreadableCaptureTime);
        },
    };
    let id: Option<String> = match row.id {
        Some(n) => Some(decimal_string(n)),
        None => None,
    };
    Ok(
        RewardFlightLatest {
            id,
            origin: text_or_default(&row.origin),
            destination: text_or_default(&row.destination),
            departure: departure.to_iso_text(),
            carrier_code: text_or_default(&row.carrier_code),
            scraped_at,
            award_economy: economy_offer(&row.economy),
            award_business: business_offer(&row.business),
            award_premium_economy: premium_economy_offer(&row.premium_economy),
            award_first: first_offer(&row.first),
        },
    )
}

} // verus!
