//! Current-conditions lookup for one weather provider, with the decisions of
//! the lookup (request construction, status classification, decoding and unit
//! selection) verified; alongside it, reading kids' records from
//! comma-separated rows, comparing wishes, and counting snowballs.

pub mod client;
pub mod error;
pub mod json;
pub mod kids;
pub mod mapper;
pub mod models;
pub mod snow;
pub mod text;
pub mod units;
pub mod wishes;

pub use error::{DecodeFailure, WeatherError};
pub use models::{Condition, Current, Location, WeatherApiResponse, WeatherData};
pub use units::Units;
