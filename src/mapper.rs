//! Decoding a provider body into a provider response, and projecting that
//! response onto a reading in the requested unit system.
use vstd::prelude::*;
use crate::error::DecodeFailure;
use crate::json::{
    content_of, json_content, json_document, json_member, json_number, json_text, json_unsigned,
    member, member_in, parse_document, Json,
};
use crate::models::{
    Condition, Current, Location, ReadingView, ResponseView, WeatherApiResponse, WeatherData,
};
use crate::units::Units;

verus! {

/// A humidity that is a percentage.
pub open spec fn is_percentage(h: Option<u64>) -> bool {
    h matches Some(n) && n <= 100
}

/// A label with at least one character.
pub open spec fn is_label(t: Option<Seq<char>>) -> bool {
    t matches Some(s) && s.len() > 0
}

/// The `location` object of a document.
pub open spec fn location_part(doc: Json) -> Option<Json> {
    json_member(Some(doc), "location"@)
}

/// The `current` object of a document.
pub open spec fn current_part(doc: Json) -> Option<Json> {
    json_member(Some(doc), "current"@)
}

/// The first required field, in schema order, that `doc` lacks, holds with
/// the wrong kind of value, or holds out of range; `None` when the document
/// is a complete provider response.
pub open spec fn first_bad_field(doc: Json) -> Option<Seq<char>> {
    let loc = location_part(doc);
    let cur = current_part(doc);
    if json_text(json_member(loc, "name"@)) is None {
        Some("location.name"@)
    } else if json_text(json_member(loc, "country"@)) is None {
        Some("location.country"@)
    } else if json_number(json_member(cur, "temp_c"@)) is None {
        Some("current.temp_c"@)
    } else if json_number(json_member(cur, "temp_f"@)) is None {
        Some("current.temp_f"@)
    } else if json_number(json_member(cur, "feelslike_c"@)) is None {
        Some("current.feelslike_c"@)
    } else if json_number(json_member(cur, "feelslike_f"@)) is None {
        Some("current.feelslike_f"@)
    } else if !is_percentage(json_unsigned(json_member(cur, "humidity"@))) {
        Some("current.humidity"@)
    } else if !is_label(json_text(json_member(json_member(cur, "condition"@), "text"@))) {
        Some("current.condition.text"@)
    } else if json_number(json_member(cur, "wind_kph"@)) is None {
        Some("current.wind_kph"@)
    } else if json_number(json_member(cur, "wind_mph"@)) is None {
        Some("current.wind_mph"@)
    } else {
        None
    }
}

/// Whether `doc` lacks one of the fields a provider response requires.
pub open spec fn lacks_required_field(doc: Json) -> bool {
    let loc = location_part(doc);
    let cur = current_part(doc);
    ||| json_member(loc, "name"@) is None
    ||| json_member(loc, "country"@) is None
    ||| json_member(cur, "temp_c"@) is None
    ||| json_member(cur, "temp_f"@) is None
    ||| json_member(cur, "feelslike_c"@) is None
    ||| json_member(cur, "feelslike_f"@) is None
    ||| json_member(cur, "humidity"@) is None
    ||| json_member(json_member(cur, "condition"@), "text"@) is None
    ||| json_member(cur, "wind_kph"@) is None
    ||| json_member(cur, "wind_mph"@) is None
}

/// The provider response that a complete document describes.
pub open spec fn record_of(doc: Json) -> ResponseView {
    let loc = location_part(doc);
    let cur = current_part(doc);
    ResponseView {
        name: json_text(json_member(loc, "name"@))->0,
        country: json_text(json_member(loc, "country"@))->0,
        temp_c: json_number(json_member(cur, "temp_c"@))->0,
        temp_f: json_number(json_member(cur, "temp_f"@))->0,
        feelslike_c: json_number(json_member(cur, "feelslike_c"@))->0,
        feelslike_f: json_number(json_member(cur, "feelslike_f"@))->0,
        humidity: json_unsigned(json_member(cur, "humidity"@))->0 as u8,
        condition: json_text(json_member(json_member(cur, "condition"@), "text"@))->0,
        wind_kph: json_number(json_member(cur, "wind_kph"@))->0,
        wind_mph: json_number(json_member(cur, "wind_mph"@))->0,
    }
}

/// The provider response that a body holds, if it holds one.
pub open spec fn response_in(body: Seq<char>) -> Option<ResponseView> {
    match json_document(body) {
        Some(doc) => if first_bad_field(doc) is None {
            Some(record_of(doc))
        } else {
            None
        },
        None => None,
    }
}

/// The provenance label of a reading: the provider, then the place.
pub open spec fn source_label(name: Seq<char>, country: Seq<char>) -> Seq<char> {
    "WeatherAPI.com - "@ + name + ", "@ + country
}

/// The reading a provider response gives in a unit system: the fields of
/// that system, taken as they are, with humidity and conditions copied.
pub open spec fn reading_of(rec: ResponseView, units: Units) -> ReadingView {
    let imperial = units == Units::Imperial;
    ReadingView {
        temperature: if imperial { rec.temp_f } else { rec.temp_c },
        feels_like: if imperial { rec.feelslike_f } else { rec.feelslike_c },
        humidity: rec.humidity,
        description: rec.condition,
        wind_speed: if imperial { rec.wind_mph } else { rec.wind_kph },
        source: source_label(rec.name, rec.country),
    }
}

/// The reading a body gives in a unit system, if the body holds a response.
pub open spec fn reading_in(body: Seq<char>, units: Units) -> Option<ReadingView> {
    match response_in(body) {
        Some(rec) => Some(reading_of(rec, units)),
        None => None,
    }
}

fn field_error(path: &str) -> (r: DecodeFailure)
    ensures
        r matches DecodeFailure::Field(p) && p@ == path@,
{
    DecodeFailure::Field(path.to_owned())
}

fn text_field(v: Option<&serde_json::Value>, key: &str, path: &str) -> (r: Result<String, DecodeFailure>)
    ensures
        r is Ok <==> json_text(json_member(content_of(v), key@)) is Some,
        r matches Ok(s) ==> json_text(json_member(content_of(v), key@)) == Some(s@),
        r matches Err(e) ==> e matches DecodeFailure::Field(p) && p@ == path@,
{
    match member_in(v, key) {
        Some(m) => match m.as_str() {
            Some(s) => Ok(s.to_owned()),
            None => Err(field_error(path)),
        },
        None => Err(field_error(path)),
    }
}

fn number_field(v: Option<&serde_json::Value>, key: &str, path: &str) -> (r: Result<serde_json::Number, DecodeFailure>)
    ensures
        r is Ok <==> json_number(json_member(content_of(v), key@)) is Some,
        r matches Ok(n) ==> json_number(json_member(content_of(v), key@)) == Some(n),
        r matches Err(e) ==> e matches DecodeFailure::Field(p) && p@ == path@,
{
    match member_in(v, key) {
        Some(m) => match m.as_number() {
            Some(n) => Ok(n.clone()),
            None => Err(field_error(path)),
        },
        None => Err(field_error(path)),
    }
}

impl WeatherApiResponse {
    /// Reads a provider response from a parsed document, all or nothing:
    /// the first required field that is missing or unfit is reported.
    pub fn from_document(doc: &serde_json::Value) -> (r: Result<WeatherApiResponse, DecodeFailure>)
        ensures
            r is Ok <==> first_bad_field(json_content(*doc)) is None,
            r matches Ok(resp) ==> resp@ == record_of(json_content(*doc)),
            r matches Err(e) ==> e matches DecodeFailure::Field(p)
                && first_bad_field(json_content(*doc)) == Some(p@),
    {
        let ghost d = json_content(*doc);
        let loc = member(doc, "location");
        let cur = member(doc, "current");
        assert(content_of(loc) == location_part(d));
        assert(content_of(cur) == current_part(d));
        let name = match text_field(loc, "name", "location.name") {
            Ok(s) => s,
            Err(e) => return Err(e),
        };
        let country = match text_field(loc, "country", "location.country") {
            Ok(s) => s,
            Err(e) => return Err(e),
        };
        let temp_c = match number_field(cur, "temp_c", "current.temp_c") {
            Ok(n) => n,
            Err(e) => return Err(e),
        };
        let temp_f = match number_field(cur, "temp_f", "current.temp_f") {
            Ok(n) => n,
            Err(e) => return Err(e),
        };
        let feelslike_c = match number_field(cur, "feelslike_c", "current.feelslike_c") {
            Ok(n) => n,
            Err(e) => return Err(e),
        };
        let feelslike_f = match number_field(cur, "feelslike_f", "current.feelslike_f") {
            Ok(n) => n,
            Err(e) => return Err(e),
        };
        let humidity: u8 = match member_in(cur, "humidity") {
            Some(m) => match m.as_u64() {
                Some(h) => if h <= 100 {
                    h as u8
                } else {
                    return Err(field_error("current.humidity"));
                },
                None => return Err(field_error("current.humidity")),
            },
            None => return Err(field_error("current.humidity")),
        };
        let condition = member_in(cur, "condition");
        let text = match text_field(condition, "text", "current.condition.text") {
            Ok(s) => s,
            Err(e) => return Err(e),
        };
        if text.as_str().is_empty() {
            return Err(field_error("current.condition.text"));
        }
        let wind_kph = match number_field(cur, "wind_kph", "current.wind_kph") {
            Ok(n) => n,
            Err(e) => return Err(e),
        };
        let wind_mph = match number_field(cur, "wind_mph", "current.wind_mph") {
            Ok(n) => n,
            Err(e) => return Err(e),
        };
        Ok(WeatherApiResponse {
            location: Location { name, country },
            current: Current {
                temp_c,
                temp_f,
                feelslike_c,
                feelslike_f,
                humidity,
                condition: Condition { text },
                wind_kph,
                wind_mph,
            },
        })
    }
}

impl WeatherData {
    /// Projects a provider response onto a unit system: the temperature,
    /// feels-like and wind fields of that system, taken as they are.
    pub fn from_response(resp: WeatherApiResponse, units: Units) -> (r: WeatherData)
        ensures
            r@ == reading_of(resp@, units),
    {
        let WeatherApiResponse { location, current } = resp;
        let mut source = "WeatherAPI.com - ".to_owned();
        source.append(location.name.as_str());
        source.append(", ");
        source.append(location.country.as_str());
        let (temperature, feels_like, wind_speed) = match units {
            Units::Imperial => (current.temp_f, current.feelslike_f, current.wind_mph),
            Units::Metric => (current.temp_c, current.feelslike_c, current.wind_kph),
        };
        WeatherData {
            temperature,
            feels_like,
            humidity: current.humidity,
            description: current.condition.text,
            wind_speed,
            source,
        }
    }
}

/// Decodes a success-status body and projects it onto a unit system. Fails
/// with `Syntax` when the body is not JSON, and with `Field` naming the first
/// required field that is missing or unfit.
pub fn read_weather(body: &str, units: Units) -> (r: Result<WeatherData, DecodeFailure>)
    ensures
        r is Ok <==> response_in(body@) is Some,
        r matches Ok(w) ==> Some(w@) == reading_in(body@, units) && w@.wf(),
        r matches Err(e) ==> (e is Syntax <==> json_document(body@) is None),
        r matches Err(DecodeFailure::Field(p)) ==> first_bad_field(json_document(body@)->0) == Some(p@),
{
    let doc = match parse_document(body) {
        Ok(v) => v,
        Err(e) => return Err(DecodeFailure::Syntax(e)),
    };
    match WeatherApiResponse::from_document(&doc) {
        Ok(resp) => Ok(WeatherData::from_response(resp, units)),
        Err(e) => Err(e),
    }
}

} // verus!
