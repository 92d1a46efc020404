use rewardo_search::date::{CalendarDate, CaptureTime};
use rewardo_search::row::{
    business_offer, copy_columns, copy_row, economy_offer, first_offer, map_row,
    premium_economy_offer, CabinColumns, FlightRow, MappingError,
};

fn no_award() -> CabinColumns {
    CabinColumns {
        id: None,
        cabin_points_value: None,
        is_saver_award: None,
        cabin_class_seat_count: None,
        cabin_class_seat_count_string: None,
    }
}

fn award(id: i32, points: i32, saver: bool, seats: i32) -> CabinColumns {
    CabinColumns {
        id: Some(id),
        cabin_points_value: Some(points),
        is_saver_award: Some(saver),
        cabin_class_seat_count: Some(seats),
        cabin_class_seat_count_string: Some(seats.to_string()),
    }
}

fn bare_row() -> FlightRow {
    FlightRow {
        id: Some(17),
        origin: Some("LHR".to_string()),
        destination: Some("JFK".to_string()),
        departure: CalendarDate::from_ymd(2024, 6, 1),
        carrier_code: Some("VS".to_string()),
        scraped_at: Some(CaptureTime { seconds: 1_717_200_000, nanoseconds: 250 }),
        economy: no_award(),
        business: no_award(),
        premium_economy: no_award(),
        first: no_award(),
    }
}

#[test]
fn a_row_without_awards_becomes_a_flight_without_offers() {
    let flight = map_row(&bare_row()).unwrap();
    assert_eq!(flight.id, Some("17".to_string()));
    assert_eq!(flight.origin, "LHR");
    assert_eq!(flight.destination, "JFK");
    assert_eq!(flight.departure, "2024-06-01");
    assert_eq!(flight.carrier_code, "VS");
    assert_eq!(flight.scraped_at, CaptureTime { seconds: 1_717_200_000, nanoseconds: 250 });
    assert!(flight.award_economy.is_none());
    assert!(flight.award_business.is_none());
    assert!(flight.award_premium_economy.is_none());
    assert!(flight.award_first.is_none());
}

#[test]
fn each_cabin_gets_its_own_offer() {
    let mut row = bare_row();
    row.economy = award(1, 10_000, true, 5);
    row.business = award(2, 30_000, false, 2);
    row.premium_economy = award(3, 20_000, true, 3);
    row.first = award(4, 90_000, false, 1);
    let flight = map_row(&row).unwrap();
    let economy = flight.award_economy.unwrap();
    assert_eq!(economy.id, Some("1".to_string()));
    assert_eq!(economy.cabin_points_value, Some(10_000));
    assert_eq!(economy.is_saver_award, Some(true));
    assert_eq!(economy.cabin_class_seat_count, Some(5));
    assert_eq!(economy.cabin_class_seat_count_string, Some("5".to_string()));
    let business = flight.award_business.unwrap();
    assert_eq!(business.id, Some("2".to_string()));
    assert_eq!(business.cabin_points_value, Some(30_000));
    assert_eq!(business.is_saver_award, Some(false));
    assert_eq!(business.cabin_class_seat_count, Some(2));
    let premium = flight.award_premium_economy.unwrap();
    assert_eq!(premium.id, Some("3".to_string()));
    assert_eq!(premium.cabin_points_value, Some(20_000));
    let first = flight.award_first.unwrap();
    assert_eq!(first.id, Some("4".to_string()));
    assert_eq!(first.cabin_points_value, Some(90_000));
    assert_eq!(first.cabin_class_seat_count_string, Some("1".to_string()));
}

#[test]
fn an_offer_is_present_exactly_where_the_identifier_is() {
    for mask in 0u8..16 {
        let mut row = bare_row();
        if mask & 1 != 0 {
            row.economy = award(1, 100, true, 1);
        }
        if mask & 2 != 0 {
            row.business = award(2, 200, true, 1);
        }
        if mask & 4 != 0 {
            row.premium_economy = award(3, 300, true, 1);
        }
        if mask & 8 != 0 {
            row.first = award(4, 400, true, 1);
        }
        let flight = map_row(&row).unwrap();
        assert_eq!(flight.award_economy.is_some(), mask & 1 != 0);
        assert_eq!(flight.award_business.is_some(), mask & 2 != 0);
        assert_eq!(flight.award_premium_economy.is_some(), mask & 4 != 0);
        assert_eq!(flight.award_first.is_some(), mask & 8 != 0);
    }
}

#[test]
fn attributes_without_an_identifier_make_no_offer() {
    let mut row = bare_row();
    row.business = CabinColumns {
        id: None,
        cabin_points_value: Some(30_000),
        is_saver_award: Some(true),
        cabin_class_seat_count: Some(2),
        cabin_class_seat_count_string: Some("2".to_string()),
    };
    let flight = map_row(&row).unwrap();
    assert!(flight.award_business.is_none());
}

#[test]
fn an_unreadable_attribute_is_absent_and_the_offer_stays() {
    let mut row = bare_row();
    row.economy = CabinColumns {
        id: Some(9),
        cabin_points_value: None,
        is_saver_award: None,
        cabin_class_seat_count: Some(4),
        cabin_class_seat_count_string: None,
    };
    let offer = map_row(&row).unwrap().award_economy.unwrap();
    assert_eq!(offer.id, Some("9".to_string()));
    assert_eq!(offer.cabin_points_value, None);
    assert_eq!(offer.is_saver_award, None);
    assert_eq!(offer.cabin_class_seat_count, Some(4));
    assert_eq!(offer.cabin_class_seat_count_string, None);
}

#[test]
fn seat_count_and_its_text_are_kept_apart() {
    let mut row = bare_row();
    row.first = CabinColumns {
        id: Some(5),
        cabin_points_value: Some(1),
        is_saver_award: Some(false),
        cabin_class_seat_count: Some(2),
        cabin_class_seat_count_string: Some("9+".to_string()),
    };
    let offer = map_row(&row).unwrap().award_first.unwrap();
    assert_eq!(offer.cabin_class_seat_count, Some(2));
    assert_eq!(offer.cabin_class_seat_count_string, Some("9+".to_string()));
}

#[test]
fn an_unreadable_departure_is_a_mapping_error() {
    let mut row = bare_row();
    row.departure = None;
    assert_eq!(map_row(&row).unwrap_err(), MappingError::UnreadableDeparture);
}

#[test]
fn an_unreadable_capture_time_is_a_mapping_error() {
    let mut row = bare_row();
    row.scraped_at = None;
    assert_eq!(map_row(&row).unwrap_err(), MappingError::UnreadableCaptureTime);
}

#[test]
fn the_departure_is_looked_at_first() {
    let mut row = bare_row();
    row.departure = None;
    row.scraped_at = None;
    assert_eq!(map_row(&row).unwrap_err(), MappingError::UnreadableDeparture);
}

#[test]
fn unreadable_texts_and_identifier_are_left_empty() {
    let mut row = bare_row();
    row.id = None;
    row.origin = None;
    row.destination = None;
    row.carrier_code = None;
    let flight = map_row(&row).unwrap();
    assert_eq!(flight.id, None);
    assert_eq!(flight.origin, "");
    assert_eq!(flight.destination, "");
    assert_eq!(flight.carrier_code, "");
}

#[test]
fn negative_identifiers_are_written_with_their_sign() {
    let mut row = bare_row();
    row.id = Some(-12);
    row.economy = award(-3, 1, true, 1);
    let flight = map_row(&row).unwrap();
    assert_eq!(flight.id, Some("-12".to_string()));
    assert_eq!(flight.award_economy.unwrap().id, Some("-3".to_string()));
}

#[test]
fn the_offer_functions_agree_with_the_mapper() {
    let columns = award(8, 12_345, false, 6);
    assert_eq!(economy_offer(&columns).unwrap().cabin_points_value, Some(12_345));
    assert_eq!(business_offer(&columns).unwrap().id, Some("8".to_string()));
    assert_eq!(premium_economy_offer(&columns).unwrap().is_saver_award, Some(false));
    assert_eq!(first_offer(&columns).unwrap().cabin_class_seat_count, Some(6));
    assert!(economy_offer(&no_award()).is_none());
    assert!(business_offer(&no_award()).is_none());
    assert!(premium_economy_offer(&no_award()).is_none());
    assert!(first_offer(&no_award()).is_none());
}

#[test]
fn copies_hold_the_same_columns() {
    let mut row = bare_row();
    row.business = award(2, 30_000, false, 2);
    let copy = copy_row(&row);
    assert_eq!(copy.id, row.id);
    assert_eq!(copy.origin, row.origin);
    assert_eq!(copy.destination, row.destination);
    assert_eq!(copy.carrier_code, row.carrier_code);
    assert_eq!(copy.scraped_at, row.scraped_at);
    assert_eq!(copy.departure.unwrap().days(), row.departure.unwrap().days());
    assert_eq!(copy.business.id, Some(2));
    assert_eq!(copy.business.cabin_class_seat_count_string, Some("2".to_string()));
    assert_eq!(copy.economy.id, None);
    let columns = copy_columns(&row.business);
    assert_eq!(columns.cabin_points_value, Some(30_000));
    assert_eq!(columns.is_saver_award, Some(false));
}
