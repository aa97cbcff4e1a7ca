//! What the program does and shows: the first step, decided by its
//! arguments, and the lines that end a run.

use crate::fetch::diagnostic_prefix;
use crate::fetch::Failure;
use crate::fetch::Fetched;
use crate::fetch::Service;
use crate::geocode::geocoder_address;
use crate::geocode::request_url;
use crate::json::decoded_text;
use crate::weather::fetch_weather;
use crate::weather::map_data;
use crate::weather::reading_in;
use crate::weather::wind_direction_in;
use crate::weather::CurrentWeather;
use crate::weather::NoWindDirection;
use crate::weather::Reading;
use vstd::prelude::*;

verus! {

/// The guidance that is shown where no place is named.
pub open spec fn usage() -> Seq<char> {
    "You must provide a city as an argument:\nrainy London"@
}

/// The line that is shown where the weather service gave no document.
pub open spec fn no_data() -> Seq<char> {
    "[Err] No data read"@
}

/// The five lines that show a reading, each a fixed label and a field.
pub open spec fn report_of(reading: Reading) -> Seq<Seq<char>> {
    seq![
        "Temperature: "@ + reading.temperature,
        "Précipitation: "@ + reading.precipitation,
        "Pluie: "@ + reading.rain,
        "Vent: "@ + reading.wind,
        "Direction du vent: "@ + reading.wind_direction,
    ]
}

/// The first step of a run.
#[derive(Debug)]
pub enum Plan {
    /// No place is named: show the guidance and ask nothing.
    Usage { line: String },
    /// Ask the geocoder at this address.
    Ask { url: String },
}

/// The first step that the arguments call for: the guidance where they name
/// no place, else the request to the geocoder for the place that the first
/// argument after the program's name gives.
pub open spec fn planned(arguments: Seq<Seq<char>>, plan: Plan) -> bool {
    if arguments.len() < 2 {
        plan matches Plan::Usage { line } && line@ == usage()
    } else {
        plan matches Plan::Ask { url } && url@ == geocoder_address(arguments[1])
    }
}

/// Decides the first step of a run from the program's arguments, the
/// program's own name first.
pub fn plan(arguments: &Vec<String>) -> (plan: Plan)
    ensures
        planned(arguments.deep_view(), plan),
{
    if arguments.len() < 2 {
        Plan::Usage { line: String::from_str("You must provide a city as an argument:\nrainy London") }
    } else {
        Plan::Ask { url: request_url(arguments[1].as_str()) }
    }
}

/// One line of a report.
fn labelled(label: &str, field: &String) -> (line: String)
    ensures
        line@ == label@ + field@,
{
    String::from_str(label).concat(field.as_str())
}

/// The five lines that show a reading.
pub fn report_lines(weather: &CurrentWeather) -> (lines: Vec<String>)
    ensures
        lines.deep_view() == report_of(weather@),
{
    let mut lines: Vec<String> = Vec::new();
    lines.push(labelled("Temperature: ", &weather.temperature));
    lines.push(labelled("Précipitation: ", &weather.precipitation));
    lines.push(labelled("Pluie: ", &weather.rain));
    lines.push(labelled("Vent: ", &weather.wind));
    lines.push(labelled("Direction du vent: ", &weather.wind_direction));
    proof {
        assert(lines.deep_view() =~= report_of(weather@));
    }
    lines
}

/// The lines that end a run, for what the request to the weather service
/// came to.
///
/// Where the service gave a document, they are the five lines of the
/// reading in it, or nothing at all where it holds no wind direction: never
/// a part of a reading. Where it gave none, they are the line that tells of
/// the failure and the line that says that no data was read.
pub open spec fn concluded_by(
    outcome: Fetched,
    conclusion: Result<Vec<String>, NoWindDirection>,
) -> bool {
    match outcome {
        Fetched::RequestFailed { detail } => {
            &&& conclusion matches Ok(lines)
            &&& lines.deep_view() == seq![
                diagnostic_prefix(Service::Weather, Failure::Request) + detail@,
                no_data(),
            ]
        },
        Fetched::BodyFailed { detail } => {
            &&& conclusion matches Ok(lines)
            &&& lines.deep_view() == seq![
                diagnostic_prefix(Service::Weather, Failure::Body) + detail@,
                no_data(),
            ]
        },
        Fetched::Body { text } => match decoded_text(text@) {
            Some(document) => match wind_direction_in(document) {
                Some(degree) => {
                    &&& conclusion matches Ok(lines)
                    &&& lines.deep_view() == report_of(reading_in(document, degree as int))
                },
                None => conclusion is Err,
            },
            None => {
                &&& conclusion matches Ok(lines)
                &&& lines.len() == 2
                &&& diagnostic_prefix(Service::Weather, Failure::Decode).is_prefix_of(lines[0]@)
                &&& lines[1]@ == no_data()
            },
        },
    }
}

/// Decides the lines that end a run.
pub fn conclude(outcome: &Fetched) -> (conclusion: Result<Vec<String>, NoWindDirection>)
    ensures
        concluded_by(*outcome, conclusion),
{
    let answer = fetch_weather(outcome);
    match answer.document {
        Some(document) => match map_data(document) {
            Ok(weather) => Ok(report_lines(&weather)),
            Err(error) => Err(error),
        },
        None => {
            let mut lines: Vec<String> = Vec::new();
            match answer.diagnostic {
                Some(line) => {
                    lines.push(line);
                },
                None => {},
            }
            lines.push(String::from_str("[Err] No data read"));
            proof {
                match outcome {
                    Fetched::RequestFailed { detail } => {
                        assert(lines.deep_view() =~= seq![
                            diagnostic_prefix(Service::Weather, Failure::Request) + detail@,
                            no_data(),
                        ]);
                    },
                    Fetched::BodyFailed { detail } => {
                        assert(lines.deep_view() =~= seq![
                            diagnostic_prefix(Service::Weather, Failure::Body) + detail@,
                            no_data(),
                        ]);
                    },
                    Fetched::Body { text } => {},
                }
            }
            Ok(lines)
        },
    }
}

} // verus!
