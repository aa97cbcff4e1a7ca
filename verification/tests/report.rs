use rainy::fetch::{diagnostic, Failure, Fetched, Service};
use rainy::geocode::fetch_city_position;
use rainy::report::{conclude, plan, report_lines, Plan};
use rainy::weather::{request_url, CurrentWeather, NoWindDirection};

const ANSWER: &str = "{\"current\":{\"temperature_2m\":18.3,\"precipitation\":0.0,\"rain\":0.0,\"windspeed_10m\":12.0,\"winddirection_10m\":270},\"current_units\":{\"temperature_2m\":\"°C\",\"precipitation\":\"mm\",\"rain\":\"mm\",\"windspeed_10m\":\"km/h\",\"winddirection_10m\":\"°\"}}";

fn usage_of(plan: Plan) -> Option<String> {
    match plan {
        Plan::Usage { line } => Some(line),
        Plan::Ask { .. } => None,
    }
}

fn address_of(plan: Plan) -> Option<String> {
    match plan {
        Plan::Usage { .. } => None,
        Plan::Ask { url } => Some(url),
    }
}

#[test]
fn without_a_place_the_guidance_is_shown_and_nothing_is_asked() {
    let shown = usage_of(plan(&vec![String::from("rainy")]));
    assert_eq!(shown, Some(String::from("You must provide a city as an argument:\nrainy London")));
    assert_eq!(address_of(plan(&vec![String::from("rainy")])), None);
}

#[test]
fn without_any_argument_the_guidance_is_shown() {
    assert!(usage_of(plan(&Vec::new())).is_some());
}

#[test]
fn with_a_place_the_geocoder_is_asked_for_it() {
    let arguments = vec![String::from("rainy"), String::from("London")];
    assert_eq!(
        address_of(plan(&arguments)),
        Some(String::from("https://geocode.maps.co/search?q=London"))
    );
}

#[test]
fn only_the_first_place_counts() {
    let arguments = vec![String::from("rainy"), String::from("Lyon"), String::from("Paris")];
    assert_eq!(
        address_of(plan(&arguments)),
        Some(String::from("https://geocode.maps.co/search?q=Lyon"))
    );
}

#[test]
fn a_reading_is_shown_in_five_labelled_lines() {
    let weather = CurrentWeather {
        temperature: String::from("18.3°C"),
        precipitation: String::from("0mm"),
        rain: String::from("1mm"),
        wind: String::from("12km/h"),
        wind_direction: String::from("W"),
    };
    assert_eq!(
        report_lines(&weather),
        vec![
            "Temperature: 18.3°C",
            "Précipitation: 0mm",
            "Pluie: 1mm",
            "Vent: 12km/h",
            "Direction du vent: W",
        ]
    );
}

#[test]
fn from_the_geocoder_answer_to_the_lines_shown() {
    let located = fetch_city_position(&Fetched::Body {
        text: String::from("[{\"lat\":\"45.75\",\"lon\":\"4.85\"}]"),
    });
    assert_eq!(located.diagnostic, None);
    let latitude: f64 = located.position.latitude.parse().unwrap();
    let longitude: f64 = located.position.longitude.parse().unwrap();
    assert_eq!((latitude, longitude), (45.75, 4.85));
    let address = request_url(&latitude.to_string(), &longitude.to_string());
    assert!(address.contains("?latitude=45.75&longitude=4.85&"));
    let lines = conclude(&Fetched::Body { text: String::from(ANSWER) }).unwrap();
    assert_eq!(
        lines,
        vec![
            "Temperature: 18.3°C",
            "Précipitation: 0mm",
            "Pluie: 0mm",
            "Vent: 12km/h",
            "Direction du vent: W",
        ]
    );
}

#[test]
fn after_a_failed_geocoder_request_the_weather_at_the_sentinel_is_asked() {
    let located = fetch_city_position(&Fetched::RequestFailed { detail: String::from("dns") });
    assert_eq!(located.diagnostic, Some(String::from("[Err] Failed to get a response: dns")));
    let latitude: f64 = located.position.latitude.parse().unwrap();
    let longitude: f64 = located.position.longitude.parse().unwrap();
    assert_eq!((latitude, longitude), (0.0, 0.0));
    let address = request_url(&latitude.to_string(), &longitude.to_string());
    assert!(address.starts_with("https://api.open-meteo.com/v1/forecast?latitude=0&longitude=0&"));
}

#[test]
fn a_failed_weather_request_ends_with_two_lines() {
    let lines = conclude(&Fetched::RequestFailed { detail: String::from("refused") }).unwrap();
    assert_eq!(lines, vec!["[Err] Failed to get a response: refused", "[Err] No data read"]);
}

#[test]
fn an_unreadable_weather_body_ends_with_two_lines() {
    let lines = conclude(&Fetched::BodyFailed { detail: String::from("reset") }).unwrap();
    assert_eq!(lines, vec!["Request content failed to load: reset", "[Err] No data read"]);
}

#[test]
fn a_weather_body_that_is_no_json_ends_with_two_lines() {
    let lines = conclude(&Fetched::Body { text: String::from("oops") }).unwrap();
    assert_eq!(
        lines,
        vec![
            "Failed to parse request content: expected value at line 1 column 1",
            "[Err] No data read",
        ]
    );
}

#[test]
fn an_answer_without_wind_direction_shows_no_part_of_a_reading() {
    let outcome = Fetched::Body { text: String::from("{\"current\":{\"temperature_2m\":18.3}}") };
    assert_eq!(conclude(&outcome), Err(NoWindDirection));
}

#[test]
fn each_point_of_failure_has_a_line_of_its_own() {
    let mut lines: Vec<String> = Vec::new();
    for service in [Service::Geocoder, Service::Weather] {
        let failed = [
            diagnostic(service, Failure::Request, ""),
            diagnostic(service, Failure::Body, ""),
            diagnostic(service, Failure::Decode, ""),
        ];
        assert_ne!(failed[0], failed[1]);
        assert_ne!(failed[0], failed[2]);
        assert_ne!(failed[1], failed[2]);
        lines.extend(failed);
    }
    assert_eq!(
        lines,
        vec![
            "[Err] Failed to get a response: ",
            "[Err] Request content failed to load: ",
            "[Err] Failed to parse request content: ",
            "[Err] Failed to get a response: ",
            "Request content failed to load: ",
            "Failed to parse request content: ",
        ]
    );
}

#[test]
fn the_detail_follows_the_beginning_of_the_line() {
    assert_eq!(
        diagnostic(Service::Weather, Failure::Request, "connection refused"),
        "[Err] Failed to get a response: connection refused"
    );
}
