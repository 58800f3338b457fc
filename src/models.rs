//! The provider's record of current conditions and the unified reading the
//! lookup returns.
use vstd::prelude::*;

verus! {

/// A weather reading in one unit system, independent of the provider it came
/// from. Numbers are carried exactly as the provider sent them.
#[derive(Debug)]
pub struct WeatherData {
    pub temperature: serde_json::Number,
    pub feels_like: serde_json::Number,
    /// Relative humidity, in percent.
    pub humidity: u8,
    pub description: String,
    pub wind_speed: serde_json::Number,
    /// Where the reading came from: the provider, then the place it resolved.
    pub source: String,
}

/// A reading as a mathematical value.
pub struct ReadingView {
    pub temperature: serde_json::Number,
    pub feels_like: serde_json::Number,
    pub humidity: u8,
    pub description: Seq<char>,
    pub wind_speed: serde_json::Number,
    pub source: Seq<char>,
}

impl View for WeatherData {
    type V = ReadingView;

    open spec fn view(&self) -> ReadingView {
        ReadingView {
            temperature: self.temperature,
            feels_like: self.feels_like,
            humidity: self.humidity,
            description: self.description@,
            wind_speed: self.wind_speed,
            source: self.source@,
        }
    }
}

impl ReadingView {
    /// A complete reading: humidity is a percentage and the conditions are
    /// described.
    pub open spec fn wf(self) -> bool {
        &&& self.humidity <= 100
        &&& self.description.len() > 0
    }
}

/// The provider's response to a current-conditions request, field for field.
#[derive(Debug)]
pub struct WeatherApiResponse {
    pub location: Location,
    pub current: Current,
}

/// The place the provider resolved the query to.
#[derive(Debug)]
pub struct Location {
    pub name: String,
    pub country: String,
}

/// Current conditions, in both unit systems.
#[derive(Debug)]
pub struct Current {
    pub temp_c: serde_json::Number,
    pub temp_f: serde_json::Number,
    pub feelslike_c: serde_json::Number,
    pub feelslike_f: serde_json::Number,
    pub humidity: u8,
    pub condition: Condition,
    pub wind_kph: serde_json::Number,
    pub wind_mph: serde_json::Number,
}

/// The provider's label for the conditions.
#[derive(Debug)]
pub struct Condition {
    pub text: String,
}

/// A provider response as a mathematical value.
pub struct ResponseView {
    pub name: Seq<char>,
    pub country: Seq<char>,
    pub temp_c: serde_json::Number,
    pub temp_f: serde_json::Number,
    pub feelslike_c: serde_json::Number,
    pub feelslike_f: serde_json::Number,
    pub humidity: u8,
    pub condition: Seq<char>,
    pub wind_kph: serde_json::Number,
    pub wind_mph: serde_json::Number,
}

impl View for WeatherApiResponse {
    type V = ResponseView;

    open spec fn view(&self) -> ResponseView {
        ResponseView {
            name: self.location.name@,
            country: self.location.country@,
            temp_c: self.current.temp_c,
            temp_f: self.current.temp_f,
            feelslike_c: self.current.feelslike_c,
            feelslike_f: self.current.feelslike_f,
            humidity: self.current.humidity,
            condition: self.current.condition.text@,
            wind_kph: self.current.wind_kph,
            wind_mph: self.current.wind_mph,
        }
    }
}

} // verus!
