//! One current-conditions lookup: the request to send, and the outcome of
//! what came back.
use vstd::prelude::*;
use crate::error::{DecodeFailure, WeatherError};
use crate::json::{json_document, json_member, json_number};
use crate::mapper::{
    current_part, first_bad_field, lacks_required_field, read_weather, reading_in, response_in,
};
use crate::models::WeatherData;
use crate::units::Units;

verus! {

/// What the provider sent back to a request that completed.
#[derive(Debug)]
pub struct HttpReply {
    pub status: u16,
    pub body: String,
}

/// A status in the success range, 200 to 299.
pub open spec fn is_success(status: u16) -> bool {
    200 <= status <= 299
}

/// The address of the current-conditions request for `city`.
pub open spec fn request_url_for(api_key: Seq<char>, city: Seq<char>) -> Seq<char> {
    "https://api.weatherapi.com/v1/current.json?key="@ + api_key + "&q="@ + city + "&aqi=no"@
}

/// The outcome a lookup owes for what came back from its one request: the
/// transport error as it is; an `Http` error with the status and body as
/// sent for a status outside the success range; otherwise the decoded
/// reading, or a `Decode` error exactly when the body holds no response.
pub open spec fn lookup_outcome(
    reply: Result<HttpReply, reqwest::Error>,
    units: Units,
    r: Result<WeatherData, WeatherError>,
) -> bool {
    match reply {
        Err(cause) => r matches Err(WeatherError::Transport(e)) && e == cause,
        Ok(rep) => if !is_success(rep.status) {
            r matches Err(WeatherError::Http { status, body }) && status == rep.status && body@
                == rep.body@
        } else {
            &&& (r is Ok <==> response_in(rep.body@) is Some)
            &&& r matches Ok(w) ==> Some(w@) == reading_in(rep.body@, units) && w@.wf()
            &&& r matches Err(e) ==> e matches WeatherError::Decode(d) && (d is Syntax
                <==> json_document(rep.body@) is None) && (d matches DecodeFailure::Field(p)
                ==> first_bad_field(json_document(rep.body@)->0) == Some(p@))
        },
    }
}

/// A client of the provider, holding the API key it sends with each request.
/// It keeps no other state: lookups are independent of one another.
pub struct WeatherClient {
    api_key: String,
}

impl WeatherClient {
    /// The API key this client sends.
    pub closed spec fn key(&self) -> Seq<char> {
        self.api_key@
    }

    /// A client that sends `api_key` with each request.
    pub fn new(api_key: String) -> (r: WeatherClient)
        ensures
            r.key() == api_key@,
    {
        WeatherClient { api_key }
    }

    /// The address to request the current conditions of `city` from. The
    /// city is embedded as given; encoding it is the HTTP client's part.
    pub fn request_url(&self, city: &str) -> (r: String)
        ensures
            r@ == request_url_for(self.key(), city@),
    {
        let mut url = "https://api.weatherapi.com/v1/current.json?key=".to_owned();
        url.append(self.api_key.as_str());
        url.append("&q=");
        url.append(city);
        url.append("&aqi=no");
        url
    }

    /// Classifies what came back from the one request of a lookup and, on a
    /// success status, decodes the body into a reading in `units`.
    pub fn complete(&self, reply: Result<HttpReply, reqwest::Error>, units: Units) -> (r: Result<
        WeatherData,
        WeatherError,
    >)
        ensures
            lookup_outcome(reply, units, r),
    {
        match reply {
            Err(cause) => Err(WeatherError::Transport(cause)),
            Ok(rep) => {
                if rep.status < 200 || rep.status > 299 {
                    Err(WeatherError::Http { status: rep.status, body: rep.body })
                } else {
                    match read_weather(rep.body.as_str(), units) {
                        Ok(w) => Ok(w),
                        Err(d) => Err(WeatherError::Decode(d)),
                    }
                }
            },
        }
    }
}

/// Every body that holds a complete provider response, under a success
/// status, gives a reading, with a humidity of at most 100 percent and a
/// description of at least one character.
pub proof fn lemma_complete_response_gives_reading(rep: HttpReply, units: Units, r: Result<
    WeatherData,
    WeatherError,
>)
    requires
        is_success(rep.status),
        response_in(rep.body@) is Some,
        lookup_outcome(Ok(rep), units, r),
    ensures
        r matches Ok(w) && w.humidity <= 100 && w.description@.len() > 0,
{
}

/// A reading carries the temperature, feels-like and wind fields of the
/// requested unit system exactly as the body holds them: Fahrenheit and mph
/// for imperial, Celsius and km/h for metric.
pub proof fn lemma_reading_takes_fields_of_units(rep: HttpReply, units: Units, r: Result<
    WeatherData,
    WeatherError,
>)
    requires
        lookup_outcome(Ok(rep), units, r),
        r is Ok,
    ensures
        json_document(rep.body@) matches Some(doc) && ({
            let cur = current_part(doc);
            let w = r->Ok_0;
            &&& units == Units::Imperial ==> w.temperature == json_number(
                json_member(cur, "temp_f"@),
            )->0 && w.feels_like == json_number(json_member(cur, "feelslike_f"@))->0
                && w.wind_speed == json_number(json_member(cur, "wind_mph"@))->0
            &&& units == Units::Metric ==> w.temperature == json_number(
                json_member(cur, "temp_c"@),
            )->0 && w.feels_like == json_number(json_member(cur, "feelslike_c"@))->0
                && w.wind_speed == json_number(json_member(cur, "wind_kph"@))->0
        }),
{
}

/// A status outside the success range gives an `Http` error with that status
/// and that body, whatever the body holds.
pub proof fn lemma_failure_status_is_http_error(rep: HttpReply, units: Units, r: Result<
    WeatherData,
    WeatherError,
>)
    requires
        !is_success(rep.status),
        lookup_outcome(Ok(rep), units, r),
    ensures
        r matches Err(WeatherError::Http { status, body }) && status == rep.status && body@
            == rep.body@,
{
}

/// Under a success status, a body that is not JSON, or a document that
/// lacks a required field (`current.temp_c`, say), gives a `Decode` error
/// and no reading.
pub proof fn lemma_unfit_body_is_decode_error(rep: HttpReply, units: Units, r: Result<
    WeatherData,
    WeatherError,
>)
    requires
        is_success(rep.status),
        json_document(rep.body@) matches Some(doc) ==> lacks_required_field(doc),
        lookup_outcome(Ok(rep), units, r),
    ensures
        r matches Err(WeatherError::Decode(_)),
{
}

/// A request that did not complete gives a `Transport` error carrying its
/// cause, and no status classification.
pub proof fn lemma_transport_failure_is_kept(cause: reqwest::Error, units: Units, r: Result<
    WeatherData,
    WeatherError,
>)
    requires
        lookup_outcome(Err(cause), units, r),
    ensures
        r matches Err(WeatherError::Transport(e)) && e == cause,
{
}

/// Two lookups in the same unit system whose replies have the same status
/// and body have the same outcome, and equal readings: a lookup keeps no
/// state between calls.
pub proof fn lemma_lookup_repeats(rep1: HttpReply, rep2: HttpReply, units: Units, r1: Result<
    WeatherData,
    WeatherError,
>, r2: Result<WeatherData, WeatherError>)
    requires
        rep1.status == rep2.status,
        rep1.body@ == rep2.body@,
        lookup_outcome(Ok(rep1), units, r1),
        lookup_outcome(Ok(rep2), units, r2),
    ensures
        r1 is Ok <==> r2 is Ok,
        r1 matches Ok(w1) ==> r2 matches Ok(w2) && w1@ == w2@,
{
}

} // verus!
