//! The statements of the two searches and the values bound to them.
//!
//! Each search sends two statements: one that counts the matching flights and
//! one that fetches a page of them. Both are put together from the same
//! pieces, so that the count and the page share one filter.

use crate::date::CalendarDate;
use vstd::prelude::*;
use vstd::string::StringExecFns;

verus! {

/// Head of a counting statement.
pub const COUNT_HEAD: &'static str = "SELECT COUNT(*) as count FROM reward_flights_latest rfl";

/// Head of a fetching statement: the columns of the flight and, under the
/// prefixes `ae_`, `ab_`, `ape_` and `af_`, those of its award in each cabin.
pub const SELECT_HEAD: &'static str =
    "SELECT rfl.id, rfl.origin, rfl.destination, rfl.departure, rfl.carrier_code, \
     rfl.scraped_at, ae.id as ae_id, ae.cabin_points_value as ae_cabin_points_value, \
     ae.is_saver_award as ae_is_saver_award, ae.cabin_class_seat_count as \
     ae_cabin_class_seat_count, ae.cabin_class_seat_count_string as \
     ae_cabin_class_seat_count_string, ab.id as ab_id, ab.cabin_points_value as \
     ab_cabin_points_value, ab.is_saver_award as ab_is_saver_award, ab.cabin_class_seat_count \
     as ab_cabin_class_seat_count, ab.cabin_class_seat_count_string as \
     ab_cabin_class_seat_count_string, ape.id as ape_id, ape.cabin_points_value as \
     ape_cabin_points_value, ape.is_saver_award as ape_is_saver_award, \
     ape.cabin_class_seat_count as ape_cabin_class_seat_count, \
     ape.cabin_class_seat_count_string as ape_cabin_class_seat_count_string, af.id as af_id, \
     af.cabin_points_value as af_cabin_points_value, af.is_saver_award as af_is_saver_award, \
     af.cabin_class_seat_count as af_cabin_class_seat_count, af.cabin_class_seat_count_string \
     as af_cabin_class_seat_count_string FROM reward_flights_latest rfl";

/// Left joins of the three cabins that can be searched cheapest first.
pub const SEARCHED_JOINS: &'static str =
    " LEFT JOIN award_economy ae ON ae.flight_id = rfl.id LEFT JOIN award_business ab ON \
     ab.flight_id = rfl.id LEFT JOIN award_premium_economy ape ON ape.flight_id = rfl.id";

/// Left join of first class.
pub const FIRST_JOIN: &'static str = " LEFT JOIN award_first af ON af.flight_id = rfl.id";

/// Filter of the range search: origin, destination and carrier are equal to
/// the first three bound values, and the departure date lies between the
/// fourth and the fifth, both included.
pub const RANGE_FILTER: &'static str =
    " WHERE rfl.origin = $1 AND rfl.destination = $2 AND rfl.carrier_code = $3 AND \
     rfl.departure::date BETWEEN $4 AND $5";

/// Order and window of the range search: by departure, then by identifier.
pub const RANGE_ORDER: &'static str = " ORDER BY rfl.departure ASC, rfl.id ASC LIMIT $6 OFFSET $7";

/// Filter of the cheapest search: origin and destination are equal to the
/// first two bound values, and the cabin named by the third has an award with
/// a points value and at least one seat.
pub const CHEAPEST_FILTER: &'static str =
    " WHERE rfl.origin = $1 AND rfl.destination = $2 AND (($3 = 'ECONOMY' AND \
     ae.cabin_points_value IS NOT NULL AND ae.cabin_class_seat_count > 0) OR ($3 = \
     'PREMIUM_ECONOMY' AND ape.cabin_points_value IS NOT NULL AND ape.cabin_class_seat_count \
     > 0) OR ($3 = 'BUSINESS' AND ab.cabin_points_value IS NOT NULL AND \
     ab.cabin_class_seat_count > 0))";

/// Order and window of the cheapest search: by the points value of the cabin
/// named by the third bound value, then by departure, then by identifier.
pub const CHEAPEST_ORDER: &'static str =
    " ORDER BY CASE WHEN $3 = 'ECONOMY' THEN ae.cabin_points_value WHEN $3 = \
     'PREMIUM_ECONOMY' THEN ape.cabin_points_value WHEN $3 = 'BUSINESS' THEN \
     ab.cabin_points_value END ASC, rfl.departure ASC, rfl.id ASC LIMIT $4 OFFSET $5";

/// Name of the one column of a counting statement's row.
pub const COUNT_COLUMN: &'static str = "count";

/// Names of the flight's columns in a fetched row.
pub const ID_COLUMN: &'static str = "id";

pub const ORIGIN_COLUMN: &'static str = "origin";

pub const DESTINATION_COLUMN: &'static str = "destination";

pub const DEPARTURE_COLUMN: &'static str = "departure";

pub const CARRIER_CODE_COLUMN: &'static str = "carrier_code";

pub const SCRAPED_AT_COLUMN: &'static str = "scraped_at";

/// Prefixes under which a fetched row holds the columns of the award in
/// economy, business, premium economy and first class: the column
/// `cabin_points_value` of the economy award is `ae_cabin_points_value`.
pub const ECONOMY_PREFIX: &'static str = "ae";

pub const BUSINESS_PREFIX: &'static str = "ab";

pub const PREMIUM_ECONOMY_PREFIX: &'static str = "ape";

pub const FIRST_PREFIX: &'static str = "af";

/// Names of an award's columns, to be put behind a prefix and `_`.
pub const POINTS_COLUMN: &'static str = "cabin_points_value";

pub const SAVER_COLUMN: &'static str = "is_saver_award";

pub const SEAT_COUNT_COLUMN: &'static str = "cabin_class_seat_count";

pub const SEAT_COUNT_TEXT_COLUMN: &'static str = "cabin_class_seat_count_string";

/// The name under which a fetched row holds the column `name` of the award
/// whose prefix is `prefix`: the prefix, `_`, and the name.
pub fn cabin_column(prefix: &str, name: &str) -> (text: String)
    ensures
        text@ == prefix@ + "_"@ + name@,
{
    let mut text: String = String::from_str(prefix);
    text.append("_");
    text.append(name);
    text
}

/// A value bound to a placeholder of a statement.
#[derive(Clone, Debug)]
pub enum BindValue {
    Text(String),
    Date(CalendarDate),
    BigInt(i64),
}

/// What a bound value holds.
pub enum BindView {
    Text(Seq<char>),
    Date(int),
    BigInt(int),
}

impl View for BindValue {
    type V = BindView;

    open spec fn view(&self) -> BindView {
        match self {
            BindValue::Text(t) => BindView::Text(t@),
            BindValue::Date(d) => BindView::Date(d@),
            BindValue::BigInt(n) => BindView::BigInt(*n as int),
        }
    }
}

/// What a statement holds.
pub struct StatementView {
    pub sql: Seq<char>,
    pub binds: Seq<BindView>,
}

/// A statement with placeholders `$1`, `$2`, ... and the values bound to
/// them, the first value to `$1`.
#[derive(Clone, Debug)]
pub struct Statement {
    pub sql: String,
    pub binds: Vec<BindValue>,
}

impl View for Statement {
    type V = StatementView;

    open spec fn view(&self) -> StatementView {
        StatementView { sql: self.sql@, binds: self.binds@.map_values(|b: BindValue| b@) }
    }
}

/// The most rows that a page of `page_size` asks of the store.
pub open spec fn row_limit(page_size: int) -> int {
    if page_size <= i64::MAX {
        page_size
    } else {
        i64::MAX as int
    }
}

/// The number of rows that the store skips before page `page_number`.
pub open spec fn row_offset(page_number: int, page_size: int) -> int {
    if page_number * page_size <= i64::MAX {
        page_number * page_size
    } else {
        i64::MAX as int
    }
}

/// The statement that counts the flights of a range search.
pub open spec fn range_count_statement(
    origin: Seq<char>,
    destination: Seq<char>,
    carrier_code: Seq<char>,
    from_date: int,
    to_date: int,
) -> StatementView {
    StatementView {
        sql: COUNT_HEAD@ + RANGE_FILTER@,
        binds: seq![
            BindView::Text(origin),
            BindView::Text(destination),
            BindView::Text(carrier_code),
            BindView::Date(from_date),
            BindView::Date(to_date),
        ],
    }
}

/// The statement that fetches one page of a range search.
pub open spec fn range_page_statement(
    origin: Seq<char>,
    destination: Seq<char>,
    carrier_code: Seq<char>,
    from_date: int,
    to_date: int,
    page_number: int,
    page_size: int,
) -> StatementView {
    StatementView {
        sql: SELECT_HEAD@ + SEARCHED_JOINS@ + FIRST_JOIN@ + RANGE_FILTER@ + RANGE_ORDER@,
        binds: seq![
            BindView::Text(origin),
            BindView::Text(destination),
            BindView::Text(carrier_code),
            BindView::Date(from_date),
            BindView::Date(to_date),
            BindView::BigInt(row_limit(page_size)),
            BindView::BigInt(row_offset(page_number, page_size)),
        ],
    }
}

/// The statement that counts the flights of a cheapest search.
pub open spec fn cheapest_count_statement(
    origin: Seq<char>,
    destination: Seq<char>,
    cabin_type: Seq<char>,
) -> StatementView {
    StatementView {
        sql: COUNT_HEAD@ + SEARCHED_JOINS@ + CHEAPEST_FILTER@,
        binds: seq![
            BindView::Text(origin),
            BindView::Text(destination),
            BindView::Text(cabin_type),
        ],
    }
}

/// The statement that fetches one page of a cheapest search.
pub open spec fn cheapest_page_statement(
    origin: Seq<char>,
    destination: Seq<char>,
    cabin_type: Seq<char>,
    page_number: int,
    page_size: int,
) -> StatementView {
    StatementView {
        sql: SELECT_HEAD@ + SEARCHED_JOINS@ + FIRST_JOIN@ + CHEAPEST_FILTER@ + CHEAPEST_ORDER@,
        binds: seq![
            BindView::Text(origin),
            BindView::Text(destination),
            BindView::Text(cabin_type),
            BindView::BigInt(row_limit(page_size)),
            BindView::BigInt(row_offset(page_number, page_size)),
        ],
    }
}

/// The limit bound to a fetching statement. No table holds more rows than
/// the largest `i64`, so a larger page size asks for the same rows.
pub fn limit_of(page_size: usize) -> (limit: i64)
    ensures
        limit as int == row_limit(page_size as int),
        limit >= 0,
{
    if page_size as u64 > i64::MAX as u64 {
        i64::MAX
    } else {
        page_size as i64
    }
}

/// The offset bound to a fetching statement. No table holds more rows than
/// the largest `i64`, so a larger offset skips the same rows: all of them.
pub fn offset_of(page_number: usize, page_size: usize) -> (offset: i64)
    ensures
        offset as int == row_offset(page_number as int, page_size as int),
        offset >= 0,
{
    assert(page_number * page_size <= u64::MAX * u64::MAX) by (nonlinear_arith)
        requires
            0 <= page_number <= u64::MAX,
            0 <= page_size <= u64::MAX,
    ;
    assert(0 <= page_number * page_size) by (nonlinear_arith)
        requires
            0 <= page_number,
            0 <= page_size,
    ;
    let product: u128 = (page_number as u128) * (page_size as u128);
    if product > i64::MAX as u128 {
        i64::MAX
    } else {
        product as i64
    }
}

/// Builds the statement that counts the flights of a range search.
pub fn range_count(
    origin: &str,
    destination: &str,
    carrier_code: &str,
    from_date: CalendarDate,
    to_date: CalendarDate,
) -> (statement: Statement)
    ensures
        statement@ == range_count_statement(
            origin@,
            destination@,
            carrier_code@,
            from_date@,
            to_date@,
        ),
{
    let mut sql: String = String::from_str(COUNT_HEAD);
    sql.append(RANGE_FILTER);
    let mut binds: Vec<BindValue> = Vec::new();
    binds.push(BindValue::Text(String::from_str(origin)));
    binds.push(BindValue::Text(String::from_str(destination)));
    binds.push(BindValue::Text(String::from_str(carrier_code)));
    binds.push(BindValue::Date(from_date));
    binds.push(BindValue::Date(to_date));
    let statement = Statement { sql, binds };
    assert(statement@.binds =~= range_count_statement(
        origin@,
        destination@,
        carrier_code@,
        from_date@,
        to_date@,
    ).binds);
    statement
}

/// Builds the statement that fetches one page of a range search.
pub fn range_page(
    origin: &str,
    destination: &str,
    carrier_code: &str,
    from_date: CalendarDate,
    to_date: CalendarDate,
    page_number: usize,
    page_size: usize,
) -> (statement: Statement)
    ensures
        statement@ == range_page_statement(
            origin@,
            destination@,
            carrier_code@,
            from_date@,
            to_date@,
            page_number as int,
            page_size as int,
        ),
{
    let mut sql: String = String::from_str(SELECT_HEAD);
    sql.append(SEARCHED_JOINS);
    sql.append(FIRST_JOIN);
    sql.append(RANGE_FILTER);
    sql.append(RANGE_ORDER);
    let mut binds: Vec<BindValue> = Vec::new();
    binds.push(BindValue::Text(String::from_str(origin)));
    binds.push(BindValue::Text(String::from_str(destination)));
    binds.push(BindValue::Text(String::from_str(carrier_code)));
    binds.push(BindValue::Date(from_date));
    binds.push(BindValue::Date(to_date));
    binds.push(BindValue::BigInt(limit_of(page_size)));
    binds.push(BindValue::BigInt(offset_of(page_number, page_size)));
    let statement = Statement { sql, binds };
    assert(statement@.binds =~= range_page_statement(
        origin@,
        destination@,
        carrier_code@,
        from_date@,
        to_date@,
        page_number as int,
        page_size as int,
    ).binds);
    statement
}

/// Builds the statement that counts the flights of a cheapest search.
pub fn cheapest_count(origin: &str, destination: &str, cabin_type: &str) -> (statement: Statement)
    ensures
        statement@ == cheapest_count_statement(origin@, destination@, cabin_type@),
{
    let mut sql: String = String::from_str(COUNT_HEAD);
    sql.append(SEARCHED_JOINS);
    sql.append(CHEAPEST_FILTER);
    let mut binds: Vec<BindValue> = Vec::new();
    binds.push(BindValue::Text(String::from_str(origin)));
    binds.push(BindValue::Text(String::from_str(destination)));
    binds.push(BindValue::Text(String::from_str(cabin_type)));
    let statement = Statement { sql, binds };
    assert(statement@.binds =~= cheapest_count_statement(
        origin@,
        destination@,
        cabin_type@,
    ).binds);
    statement
}

/// Builds the statement that fetches one page of a cheapest search.
pub fn cheapest_page(
    origin: &str,
    destination: &str,
    cabin_type: &str,
    page_number: usize,
    page_size: usize,
) -> (statement: Statement)
    ensures
        statement@ == cheapest_page_statement(
            origin@,
            destination@,
            cabin_type@,
            page_number as int,
            page_size as int,
        ),
{
    let mut sql: String = String::from_str(SELECT_HEAD);
    sql.append(SEARCHED_JOINS);
    sql.append(FIRST_JOIN);
    sql.append(CHEAPEST_FILTER);
    sql.append(CHEAPEST_ORDER);
    let mut binds: Vec<BindValue> = Vec::new();
    binds.push(BindValue::Text(String::from_str(origin)));
    binds.push(BindValue::Text(String::from_str(destination)));
    binds.push(BindValue::Text(String::from_str(cabin_type)));
    binds.push(BindValue::BigInt(limit_of(page_size)));
    binds.push(BindValue::BigInt(offset_of(page_number, page_size)));
    let statement = Statement { sql, binds };
    assert(statement@.binds =~= cheapest_page_statement(
        origin@,
        destination@,
        cabin_type@,
        page_number as int,
        page_size as int,
    ).binds);
    statement
}

} // verus!
