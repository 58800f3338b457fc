use weather_dashboard::client::{HttpReply, WeatherClient};
use weather_dashboard::mapper::read_weather;
use weather_dashboard::{DecodeFailure, Units, WeatherApiResponse, WeatherData, WeatherError};

const LONDON: &str = r#"{"location":{"name":"London","country":"UK"},"current":{"temp_c":15.0,"temp_f":59.0,"feelslike_c":14.0,"feelslike_f":57.2,"humidity":80,"condition":{"text":"Cloudy"},"wind_kph":10.0,"wind_mph":6.2}}"#;

fn reply(status: u16, body: &str) -> HttpReply {
    HttpReply { status, body: body.to_string() }
}

fn client() -> WeatherClient {
    WeatherClient::new("test-key".to_string())
}

fn transport_error() -> reqwest::Error {
    reqwest::Client::new().get("not a url").build().unwrap_err()
}

fn number(n: &serde_json::Number) -> f64 {
    n.as_f64().unwrap()
}

fn reading(status: u16, body: &str, units: Units) -> Result<WeatherData, WeatherError> {
    client().complete(Ok(reply(status, body)), units)
}

fn field_error(r: Result<WeatherData, WeatherError>) -> String {
    match r {
        Err(WeatherError::Decode(DecodeFailure::Field(path))) => path,
        other => panic!("expected a field error, got {:?}", other),
    }
}

#[test]
fn london_metric_scenario() {
    let w = reading(200, LONDON, Units::from_name("metric")).unwrap();
    assert_eq!(number(&w.temperature), 15.0);
    assert_eq!(number(&w.feels_like), 14.0);
    assert_eq!(w.humidity, 80);
    assert_eq!(w.description, "Cloudy");
    assert_eq!(number(&w.wind_speed), 10.0);
    assert_eq!(w.source, "WeatherAPI.com - London, UK");
}

#[test]
fn london_imperial_takes_fahrenheit_fields() {
    let w = reading(200, LONDON, Units::from_name("imperial")).unwrap();
    assert_eq!(number(&w.temperature), 59.0);
    assert_eq!(number(&w.feels_like), 57.2);
    assert_eq!(w.humidity, 80);
    assert_eq!(w.description, "Cloudy");
    assert_eq!(number(&w.wind_speed), 6.2);
    assert_eq!(w.source, "WeatherAPI.com - London, UK");
}

#[test]
fn numbers_pass_through_unchanged() {
    let body = r#"{"location":{"name":"Oslo","country":"Norway"},"current":{"temp_c":-3.25,"temp_f":26.15,"feelslike_c":-7,"feelslike_f":19.4,"humidity":0,"condition":{"text":"Snow"},"wind_kph":0.1,"wind_mph":0.062}}"#;
    let metric = reading(200, body, Units::Metric).unwrap();
    assert_eq!(number(&metric.temperature), -3.25);
    assert_eq!(number(&metric.feels_like), -7.0);
    assert_eq!(number(&metric.wind_speed), 0.1);
    assert_eq!(metric.humidity, 0);
    let imperial = reading(200, body, Units::Imperial).unwrap();
    assert_eq!(number(&imperial.temperature), 26.15);
    assert_eq!(number(&imperial.feels_like), 19.4);
    assert_eq!(number(&imperial.wind_speed), 0.062);
}

#[test]
fn unknown_units_fall_back_to_metric() {
    assert_eq!(Units::from_name("imperial"), Units::Imperial);
    assert_eq!(Units::from_name("metric"), Units::Metric);
    assert_eq!(Units::from_name("Imperial"), Units::Metric);
    assert_eq!(Units::from_name("kelvin"), Units::Metric);
    assert_eq!(Units::from_name(""), Units::Metric);
    let w = reading(200, LONDON, Units::from_name("imperal")).unwrap();
    assert_eq!(number(&w.temperature), 15.0);
}

#[test]
fn not_found_status_keeps_status_and_body() {
    let body = r#"{"error":{"code":1006,"message":"No matching location found."}}"#;
    match reading(404, body, Units::Metric) {
        Err(WeatherError::Http { status, body: kept }) => {
            assert_eq!(status, 404);
            assert_eq!(kept, body);
        }
        other => panic!("expected an HTTP error, got {:?}", other),
    }
}

#[test]
fn failure_status_ignores_a_valid_body() {
    for status in [199u16, 300, 401, 500, 503] {
        match reading(status, LONDON, Units::Metric) {
            Err(WeatherError::Http { status: s, body }) => {
                assert_eq!(s, status);
                assert_eq!(body, LONDON);
            }
            other => panic!("expected an HTTP error, got {:?}", other),
        }
    }
}

#[test]
fn success_range_edges_decode() {
    assert!(reading(200, LONDON, Units::Metric).is_ok());
    assert!(reading(299, LONDON, Units::Metric).is_ok());
}

#[test]
fn body_that_is_not_json_is_a_decode_error() {
    for body in ["", "not json", "{\"location\":", "<html></html>"] {
        match reading(200, body, Units::Metric) {
            Err(WeatherError::Decode(DecodeFailure::Syntax(_))) => {}
            other => panic!("expected a syntax error, got {:?}", other),
        }
    }
}

#[test]
fn missing_temp_c_is_a_decode_error() {
    let body = LONDON.replace("\"temp_c\":15.0,", "");
    assert_eq!(field_error(reading(200, &body, Units::Imperial)), "current.temp_c");
}

#[test]
fn first_unfit_field_is_named() {
    let no_location = r#"{"current":{}}"#;
    assert_eq!(field_error(reading(200, no_location, Units::Metric)), "location.name");
    let country_number = LONDON.replace("\"UK\"", "44");
    assert_eq!(field_error(reading(200, &country_number, Units::Metric)), "location.country");
    let temp_text = LONDON.replace("\"temp_f\":59.0", "\"temp_f\":\"59\"");
    assert_eq!(field_error(reading(200, &temp_text, Units::Metric)), "current.temp_f");
    let no_wind = LONDON.replace(",\"wind_mph\":6.2", "");
    assert_eq!(field_error(reading(200, &no_wind, Units::Metric)), "current.wind_mph");
    let null_feels = LONDON.replace("\"feelslike_c\":14.0", "\"feelslike_c\":null");
    assert_eq!(field_error(reading(200, &null_feels, Units::Metric)), "current.feelslike_c");
}

#[test]
fn humidity_must_be_a_percentage() {
    let over = LONDON.replace("\"humidity\":80", "\"humidity\":101");
    assert_eq!(field_error(reading(200, &over, Units::Metric)), "current.humidity");
    let negative = LONDON.replace("\"humidity\":80", "\"humidity\":-1");
    assert_eq!(field_error(reading(200, &negative, Units::Metric)), "current.humidity");
    let fraction = LONDON.replace("\"humidity\":80", "\"humidity\":80.5");
    assert_eq!(field_error(reading(200, &fraction, Units::Metric)), "current.humidity");
    let full = LONDON.replace("\"humidity\":80", "\"humidity\":100");
    assert_eq!(reading(200, &full, Units::Metric).unwrap().humidity, 100);
}

#[test]
fn description_must_not_be_empty() {
    let empty = LONDON.replace("\"Cloudy\"", "\"\"");
    assert_eq!(field_error(reading(200, &empty, Units::Metric)), "current.condition.text");
    let no_condition = LONDON.replace("\"condition\":{\"text\":\"Cloudy\"},", "");
    assert_eq!(field_error(reading(200, &no_condition, Units::Metric)), "current.condition.text");
}

#[test]
fn extra_fields_are_ignored() {
    let body = LONDON.replace("\"country\":\"UK\"", "\"country\":\"UK\",\"lat\":51.52,\"tz_id\":\"Europe/London\"");
    let w = reading(200, &body, Units::Metric).unwrap();
    assert_eq!(w.source, "WeatherAPI.com - London, UK");
}

#[test]
fn transport_failure_is_kept_as_is() {
    let cause = transport_error();
    let text = cause.to_string();
    match client().complete(Err(cause), Units::Metric) {
        Err(WeatherError::Transport(e)) => assert_eq!(e.to_string(), text),
        other => panic!("expected a transport error, got {:?}", other),
    }
}

#[test]
fn repeated_lookups_give_equal_readings() {
    let c = client();
    let a = c.complete(Ok(reply(200, LONDON)), Units::Imperial).unwrap();
    let b = c.complete(Ok(reply(200, LONDON)), Units::Imperial).unwrap();
    assert_eq!(a.temperature, b.temperature);
    assert_eq!(a.feels_like, b.feels_like);
    assert_eq!(a.humidity, b.humidity);
    assert_eq!(a.description, b.description);
    assert_eq!(a.wind_speed, b.wind_speed);
    assert_eq!(a.source, b.source);
}

#[test]
fn request_url_embeds_key_and_city() {
    let c = WeatherClient::new("abc123".to_string());
    assert_eq!(
        c.request_url("London"),
        "https://api.weatherapi.com/v1/current.json?key=abc123&q=London&aqi=no"
    );
    assert_eq!(
        c.request_url("São Paulo"),
        "https://api.weatherapi.com/v1/current.json?key=abc123&q=São Paulo&aqi=no"
    );
    assert_eq!(c.request_url(""), "https://api.weatherapi.com/v1/current.json?key=abc123&q=&aqi=no");
}

#[test]
fn mapper_reads_and_projects() {
    let w = read_weather(LONDON, Units::Metric).unwrap();
    assert_eq!(w.source, "WeatherAPI.com - London, UK");
    let doc: serde_json::Value = serde_json::from_str(LONDON).unwrap();
    let resp = WeatherApiResponse::from_document(&doc).unwrap();
    assert_eq!(resp.location.name, "London");
    assert_eq!(resp.location.country, "UK");
    assert_eq!(resp.current.humidity, 80);
    assert_eq!(resp.current.condition.text, "Cloudy");
    assert_eq!(number(&resp.current.temp_f), 59.0);
    assert_eq!(number(&resp.current.wind_kph), 10.0);
    let projected = WeatherData::from_response(resp, Units::Imperial);
    assert_eq!(number(&projected.wind_speed), 6.2);
}

#[test]
fn unit_labels() {
    assert_eq!(Units::Metric.temperature_label(), "°C");
    assert_eq!(Units::Metric.wind_label(), "km/h");
    assert_eq!(Units::Imperial.temperature_label(), "°F");
    assert_eq!(Units::Imperial.wind_label(), "mph");
}
