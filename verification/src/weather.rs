//! The weather service: where it is asked for the weather at a position, and
//! what its answer says of the weather there.

use crate::compass::compass_index;
use crate::compass::compass_label;
use crate::compass::convert_to_compass;
use crate::fetch::diagnostic;
use crate::fetch::diagnostic_prefix;
use crate::fetch::Failure;
use crate::fetch::Fetched;
use crate::fetch::Service;
use crate::json::as_integer;
use crate::json::decode;
use crate::json::decoded_text;
use crate::json::describe;
use crate::json::integer_value;
use crate::json::json_text;
use crate::json::member;
use crate::json::member_text;
use crate::json::render;
use crate::text::measure;
use crate::text::measurement;
use serde_json::Value;
use vstd::prelude::*;

verus! {

/// The current weather at a place, each field as it is shown.
#[derive(Debug)]
pub struct CurrentWeather {
    pub temperature: String,
    pub precipitation: String,
    pub rain: String,
    pub wind: String,
    pub wind_direction: String,
}

/// The current weather as five texts.
pub ghost struct Reading {
    pub temperature: Seq<char>,
    pub precipitation: Seq<char>,
    pub rain: Seq<char>,
    pub wind: Seq<char>,
    pub wind_direction: Seq<char>,
}

impl View for CurrentWeather {
    type V = Reading;

    open spec fn view(&self) -> Reading {
        Reading {
            temperature: self.temperature@,
            precipitation: self.precipitation@,
            rain: self.rain@,
            wind: self.wind@,
            wind_direction: self.wind_direction@,
        }
    }
}

/// The answer of the weather service holds no whole number for the wind
/// direction, at `current.winddirection_10m`.
#[derive(Debug, Clone, Copy, PartialEq, Eq, Structural)]
pub struct NoWindDirection;

impl NoWindDirection {
    /// The path of the field that the answer lacks.
    pub fn field(&self) -> (path: String)
        ensures
            path@ == "current.winddirection_10m"@,
    {
        String::from_str("current.winddirection_10m")
    }
}

/// The address at which the weather service is asked for the current
/// weather at a position, given by the decimal texts of its latitude and
/// longitude.
pub open spec fn weather_address(latitude: Seq<char>, longitude: Seq<char>) -> Seq<char> {
    "https://api.open-meteo.com/v1/forecast?latitude="@ + latitude + "&longitude="@ + longitude
        + "&current=temperature_2m,precipitation,rain,windspeed_10m,winddirection_10m&timezone=Europe%2FBerlin"@
}

/// A measurement in a decoded answer, as it is shown: the number under
/// `current` and the unit under `current_units`, both at the same field.
pub open spec fn measurement_in(document: Seq<char>, field: Seq<char>) -> Seq<char> {
    measurement(
        member_text(member_text(document, "current"@), field),
        member_text(member_text(document, "current_units"@), field),
    )
}

/// The wind direction in a decoded answer, in degrees, where it holds a
/// whole number for it.
pub open spec fn wind_direction_in(document: Seq<char>) -> Option<i64> {
    integer_value(member_text(member_text(document, "current"@), "winddirection_10m"@))
}

/// The reading that a decoded answer of the weather service gives, for the
/// wind direction that it holds.
pub open spec fn reading_in(document: Seq<char>, degree: int) -> Reading {
    Reading {
        temperature: measurement_in(document, "temperature_2m"@),
        precipitation: measurement_in(document, "precipitation"@),
        rain: measurement_in(document, "rain"@),
        wind: measurement_in(document, "windspeed_10m"@),
        wind_direction: compass_label(compass_index(degree)),
    }
}

/// The address at which the weather service is asked.
pub fn request_url(latitude: &str, longitude: &str) -> (url: String)
    ensures
        url@ == weather_address(latitude@, longitude@),
{
    let mut url = String::from_str("https://api.open-meteo.com/v1/forecast?latitude=");
    url.append(latitude);
    url.append("&longitude=");
    url.append(longitude);
    url.append(
        "&current=temperature_2m,precipitation,rain,windspeed_10m,winddirection_10m&timezone=Europe%2FBerlin",
    );
    url
}

/// One measurement of a decoded answer as it is shown.
fn shown(current: &Value, units: &Value, field: &str) -> (text: String)
    ensures
        text@ == measurement(
            member_text(json_text(*current), field@),
            member_text(json_text(*units), field@),
        ),
{
    let value = render(member(current, field));
    let unit = render(member(units, field));
    measure(value.as_str(), unit.as_str())
}

/// Reads the current weather from a decoded answer of the weather service.
///
/// It fails where, and only where, the answer holds no whole number for the
/// wind direction. A measurement that the answer lacks is shown as the text
/// of the null document.
pub fn map_data(data: Value) -> (mapped: Result<CurrentWeather, NoWindDirection>)
    ensures
        match mapped {
            Ok(weather) => wind_direction_in(json_text(data)) matches Some(degree) && weather@
                == reading_in(json_text(data), degree as int),
            Err(_) => wind_direction_in(json_text(data)) is None,
        },
{
    let current = member(&data, "current");
    let units = member(&data, "current_units");
    match as_integer(member(current, "winddirection_10m")) {
        Some(degree) => Ok(
            CurrentWeather {
                temperature: shown(current, units, "temperature_2m"),
                precipitation: shown(current, units, "precipitation"),
                rain: shown(current, units, "rain"),
                wind: shown(current, units, "windspeed_10m"),
                wind_direction: convert_to_compass(degree),
            },
        ),
        None => Err(NoWindDirection),
    }
}

/// What the weather service's answer came to: the decoded document, if
/// there is one, and the line to show where there is none.
#[derive(Debug)]
pub struct Answer {
    pub document: Option<Value>,
    pub diagnostic: Option<String>,
}

/// What a request to the weather service comes to.
///
/// A request that failed, a body that could not be read and a body that is
/// no JSON document all give no document and a line that tells of the
/// failure. Any other body gives its document and no line.
pub open spec fn answered_by(outcome: Fetched, answer: Answer) -> bool {
    match outcome {
        Fetched::RequestFailed { detail } => {
            &&& answer.document is None
            &&& answer.diagnostic matches Some(line)
            &&& line@ == diagnostic_prefix(Service::Weather, Failure::Request) + detail@
        },
        Fetched::BodyFailed { detail } => {
            &&& answer.document is None
            &&& answer.diagnostic matches Some(line)
            &&& line@ == diagnostic_prefix(Service::Weather, Failure::Body) + detail@
        },
        Fetched::Body { text } => match decoded_text(text@) {
            Some(document) => {
                &&& answer.document matches Some(decoded)
                &&& json_text(decoded) == document
                &&& answer.diagnostic is None
            },
            None => {
                &&& answer.document is None
                &&& answer.diagnostic matches Some(line)
                &&& diagnostic_prefix(Service::Weather, Failure::Decode).is_prefix_of(line@)
            },
        },
    }
}

/// No document, and the line that tells of the failure.
fn unanswered(failure: Failure, detail: &str) -> (answer: Answer)
    ensures
        answer.document is None,
        answer.diagnostic matches Some(line) && line@ == diagnostic_prefix(
            Service::Weather,
            failure,
        ) + detail@,
{
    Answer { document: None, diagnostic: Some(diagnostic(Service::Weather, failure, detail)) }
}

/// Decides what a request to the weather service came to.
pub fn fetch_weather(outcome: &Fetched) -> (answer: Answer)
    ensures
        answered_by(*outcome, answer),
{
    match outcome {
        Fetched::RequestFailed { detail } => unanswered(Failure::Request, detail.as_str()),
        Fetched::BodyFailed { detail } => unanswered(Failure::Body, detail.as_str()),
        Fetched::Body { text } => match decode(text.as_str()) {
            Ok(document) => Answer { document: Some(document), diagnostic: None },
            Err(error) => {
                let detail = describe(&error);
                unanswered(Failure::Decode, detail.as_str())
            },
        },
    }
}

} // verus!
