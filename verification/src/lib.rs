//! Client-side logic for retrieving electronic tax-invoice records: date-range
//! resolution in a fixed UTC+7 offset, search-request construction, mapping of
//! the search response into the download request shape, and output-file naming.

pub mod clock;
pub mod date;
pub mod json;
pub mod records;
pub mod render;
pub mod request;
pub mod response;
