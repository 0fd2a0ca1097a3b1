//! Parses dates and times whose format is not known in advance.
//!
//! The input is trimmed and handed to a fixed, ordered list of recognizers;
//! the first one that accepts it decides the result.

pub mod calendar;
pub mod cascade;
pub mod laws;
pub mod moment;
pub mod text;

pub use cascade::{parse_date, recognize, RECOGNIZERS};
pub use moment::{Date, Time, Timestamp};
pub use text::{cut, names_lowest_year, suffix};
