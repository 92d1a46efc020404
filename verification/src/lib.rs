//! Search over a catalogue of reward-flight availability.
//!
//! The crate holds the rules of the two searches (by carrier and date range,
//! and cheapest by cabin): how a request is validated, which statements are
//! sent to the store, how a joined row becomes a nested flight with up to four
//! award offers, and how the page envelope is computed. Every function carries
//! a contract that Verus proves.

pub mod cabin;
pub mod catalogue;
pub mod date;
pub mod mock;
pub mod model;
pub mod ordering;
pub mod paging;
pub mod query;
pub mod repository;
pub mod request;
pub mod row;
pub mod search;
pub mod text;
