//! Current weather for a named place: the request addresses, the reading of
//! the two services' answers and the lines that are shown, with every
//! decision stated as a contract.

pub mod compass;
pub mod fetch;
pub mod geocode;
pub mod json;
pub mod report;
pub mod text;
pub mod weather;
