//! The entities that a search returns: reward flights, their award offers,
//! and the page envelope.

use crate::date::CaptureTime;
use crate::paging::{page_count, pages_needed, saturated};
use vstd::prelude::*;

verus! {

/// The characters of a text that may be absent.
pub open spec fn text_of(text: Option<String>) -> Option<Seq<char>> {
    match text {
        Some(t) => Some(t@),
        None => None,
    }
}

/// What an award offer holds, whatever its cabin.
pub struct AwardOfferView {
    pub id: Option<Seq<char>>,
    pub cabin_points_value: Option<i32>,
    pub is_saver_award: Option<bool>,
    pub cabin_class_seat_count: Option<i32>,
    pub cabin_class_seat_count_string: Option<Seq<char>>,
}

/// An award offer in economy.
#[derive(Clone, Debug)]
pub struct AwardEconomy {
    pub id: Option<String>,
    pub cabin_points_value: Option<i32>,
    pub is_saver_award: Option<bool>,
    pub cabin_class_seat_count: Option<i32>,
    pub cabin_class_seat_count_string: Option<String>,
}

/// An award offer in business.
#[derive(Clone, Debug)]
pub struct AwardBusiness {
    pub id: Option<String>,
    pub cabin_points_value: Option<i32>,
    pub is_saver_award: Option<bool>,
    pub cabin_class_seat_count: Option<i32>,
    pub cabin_class_seat_count_string: Option<String>,
}

/// An award offer in premium economy.
#[derive(Clone, Debug)]
pub struct AwardPremiumEconomy {
    pub id: Option<String>,
    pub cabin_points_value: Option<i32>,
    pub is_saver_award: Option<bool>,
    pub cabin_class_seat_count: Option<i32>,
    pub cabin_class_seat_count_string: Option<String>,
}

/// An award offer in first class.
#[derive(Clone, Debug)]
pub struct AwardFirst {
    pub id: Option<String>,
    pub cabin_points_value: Option<i32>,
    pub is_saver_award: Option<bool>,
    pub cabin_class_seat_count: Option<i32>,
    pub cabin_class_seat_count_string: Option<String>,
}

impl View for AwardEconomy {
    type V = AwardOfferView;

    open spec fn view(&self) -> AwardOfferView {
        AwardOfferView {
            id: text_of(self.id),
            cabin_points_value: self.cabin_points_value,
            is_saver_award: self.is_saver_award,
            cabin_class_seat_count: self.cabin_class_seat_count,
            cabin_class_seat_count_string: text_of(self.cabin_class_seat_count_string),
        }
    }
}

impl View for AwardBusiness {
    type V = AwardOfferView;

    open spec fn view(&self) -> AwardOfferView {
        AwardOfferView {
            id: text_of(self.id),
            cabin_points_value: self.cabin_points_value,
            is_saver_award: self.is_saver_award,
            cabin_class_seat_count: self.cabin_class_seat_count,
            cabin_class_seat_count_string: text_of(self.cabin_class_seat_count_string),
        }
    }
}

impl View for AwardPremiumEconomy {
    type V = AwardOfferView;

    open spec fn view(&self) -> AwardOfferView {
        AwardOfferView {
            id: text_of(self.id),
            cabin_points_value: self.cabin_points_value,
            is_saver_award: self.is_saver_award,
            cabin_class_seat_count: self.cabin_class_seat_count,
            cabin_class_seat_count_string: text_of(self.cabin_class_seat_count_string),
        }
    }
}

impl View for AwardFirst {
    type V = AwardOfferView;

    open spec fn view(&self) -> AwardOfferView {
        AwardOfferView {
            id: text_of(self.id),
            cabin_points_value: self.cabin_points_value,
            is_saver_award: self.is_saver_award,
            cabin_class_seat_count: self.cabin_class_seat_count,
            cabin_class_seat_count_string: text_of(self.cabin_class_seat_count_string),
        }
    }
}

/// What a reward flight holds.
pub struct RewardFlightView {
    pub id: Option<Seq<char>>,
    pub origin: Seq<char>,
    pub destination: Seq<char>,
    pub departure: Seq<char>,
    pub carrier_code: Seq<char>,
    pub scraped_at: CaptureTime,
    pub award_economy: Option<AwardOfferView>,
    pub award_business: Option<AwardOfferView>,
    pub award_premium_economy: Option<AwardOfferView>,
    pub award_first: Option<AwardOfferView>,
}

/// One combination of origin, destination, departure date and carrier, with
/// an award offer for each cabin that has one. `departure` is written as
/// `YYYY-MM-DD`; `scraped_at` is the instant at which the record was observed.
#[derive(Clone, Debug)]
pub struct RewardFlightLatest {
    pub id: Option<String>,
    pub origin: String,
    pub destination: String,
    pub departure: String,
    pub carrier_code: String,
    pub scraped_at: CaptureTime,
    pub award_economy: Option<AwardEconomy>,
    pub award_business: Option<AwardBusiness>,
    pub award_premium_economy: Option<AwardPremiumEconomy>,
    pub award_first: Option<AwardFirst>,
}

impl View for RewardFlightLatest {
    type V = RewardFlightView;

    open spec fn view(&self) -> RewardFlightView {
        RewardFlightView {
            id: text_of(self.id),
            origin: self.origin@,
            destination: self.destination@,
            departure: self.departure@,
            carrier_code: self.carrier_code@,
            scraped_at: self.scraped_at,
            award_economy: match self.award_economy {
                Some(a) => Some(a@),
                None => None,
            },
            award_business: match self.award_business {
                Some(a) => Some(a@),
                None => None,
            },
            award_premium_economy: match self.award_premium_economy {
                Some(a) => Some(a@),
                None => None,
            },
            award_first: match self.award_first {
                Some(a) => Some(a@),
                None => None,
            },
        }
    }
}

/// What a page holds.
pub struct PageView<V> {
    pub content: Seq<V>,
    pub page_number: int,
    pub page_size: int,
    pub total_elements: int,
    pub total_pages: int,
}

/// One page of a longer result: the elements on the page, in the order of the
/// result, the zero-based number and the size that were asked for, the number
/// of elements on all pages together, and the number of pages they fill.
#[derive(Debug)]
pub struct Page<T> {
    pub content: Vec<T>,
    pub page_number: usize,
    pub page_size: usize,
    pub total_elements: i64,
    pub total_pages: usize,
}

impl<T: View> View for Page<T> {
    type V = PageView<T::V>;

    open spec fn view(&self) -> PageView<T::V> {
        PageView {
            content: self.content@.map_values(|item: T| item@),
            page_number: self.page_number as int,
            page_size: self.page_size as int,
            total_elements: self.total_elements as int,
            total_pages: self.total_pages as int,
        }
    }
}

impl<T> Page<T> {
    /// What holds of every page that this crate makes: the page size is at
    /// least one, the content is no longer than a page, the total is a count,
    /// and the number of pages is the ceiling of total over page size (the
    /// largest `usize` where that does not fit).
    pub open spec fn well_formed(&self) -> bool {
        &&& self.page_size >= 1
        &&& self.content@.len() <= self.page_size
        &&& self.total_elements >= 0
        &&& self.total_pages as int == saturated(
            pages_needed(self.total_elements as int, self.page_size as int),
        )
    }

    /// Wraps the elements of one page with the totals of the whole result.
    pub fn new(content: Vec<T>, page_number: usize, page_size: usize, total_elements: i64) -> (page:
        Page<T>)
        requires
            page_size >= 1,
            content@.len() <= page_size,
            total_elements >= 0,
        ensures
            page.well_formed(),
            page.content == content,
            page.page_number == page_number,
            page.page_size == page_size,
            page.total_elements == total_elements,
    {
        let total_pages: usize = page_count(total_elements, page_size);
        Page { content, page_number, page_size, total_elements, total_pages }
    }
}

} // verus!
