use rainy::fetch::Fetched;
use rainy::geocode::{fetch_city_position, first_position, push_percent_encoded, request_url};

fn document(text: &str) -> serde_json::Value {
    serde_json::from_str::<serde_json::Value>(text).unwrap()
}

#[test]
fn a_plain_name_stands_in_the_query_as_it_is() {
    assert_eq!(request_url("London"), "https://geocode.maps.co/search?q=London");
    assert_eq!(request_url("Aix-en-Provence"), "https://geocode.maps.co/search?q=Aix-en-Provence");
    assert_eq!(request_url("a.b_c~d9"), "https://geocode.maps.co/search?q=a.b_c~d9");
}

#[test]
fn an_empty_name_gives_an_empty_query() {
    assert_eq!(request_url(""), "https://geocode.maps.co/search?q=");
}

#[test]
fn a_space_is_percent_encoded() {
    assert_eq!(request_url("New York"), "https://geocode.maps.co/search?q=New%20York");
}

#[test]
fn marks_of_the_query_syntax_are_percent_encoded() {
    assert_eq!(
        request_url("a&b=c#d?e/f+g%h"),
        "https://geocode.maps.co/search?q=a%26b%3Dc%23d%3Fe%2Ff%2Bg%25h"
    );
}

#[test]
fn letters_beyond_ascii_are_encoded_byte_by_byte() {
    assert_eq!(request_url("Zürich"), "https://geocode.maps.co/search?q=Z%C3%BCrich");
    assert_eq!(request_url("東京"), "https://geocode.maps.co/search?q=%E6%9D%B1%E4%BA%AC");
}

#[test]
fn every_byte_value_has_two_upper_case_digits() {
    let mut address = String::from("x");
    push_percent_encoded(&mut address, "\u{0}\u{f}\u{10}\u{7f}");
    assert_eq!(address, "x%00%0F%10%7F");
}

#[test]
fn encoding_appends_to_what_the_address_holds() {
    let mut address = String::from("q=");
    push_percent_encoded(&mut address, "a b");
    push_percent_encoded(&mut address, "&");
    assert_eq!(address, "q=a%20b%26");
}

#[test]
fn the_position_is_read_from_the_first_result() {
    let position = first_position(&document("[{\"lat\":\"45.75\",\"lon\":\"4.85\"}]"));
    assert_eq!(position.latitude, "45.75");
    assert_eq!(position.longitude, "4.85");
}

#[test]
fn later_results_are_not_looked_at() {
    let position = first_position(&document(
        "[{\"lat\":\"1.5\",\"lon\":\"-2.5\"},{\"lat\":\"3\",\"lon\":\"4\"}]",
    ));
    assert_eq!(position.latitude, "1.5");
    assert_eq!(position.longitude, "-2.5");
}

#[test]
fn a_result_without_coordinates_gives_the_text_of_null() {
    let position = first_position(&document("[{\"name\":\"Lyon\"}]"));
    assert_eq!(position.latitude, "null");
    assert_eq!(position.longitude, "null");
    let position = first_position(&document("[]"));
    assert_eq!(position.latitude, "null");
    assert_eq!(position.longitude, "null");
}

#[test]
fn numbers_in_place_of_strings_are_read_as_their_text() {
    let position = first_position(&document("[{\"lat\":45.75,\"lon\":4}]"));
    assert_eq!(position.latitude, "45.75");
    assert_eq!(position.longitude, "4");
}

#[test]
fn a_decoded_answer_gives_its_position_and_no_line() {
    let located = fetch_city_position(&Fetched::Body {
        text: String::from("[{\"lat\":\"45.75\",\"lon\":\"4.85\"}]"),
    });
    assert_eq!(located.position.latitude, "45.75");
    assert_eq!(located.position.longitude, "4.85");
    assert_eq!(located.diagnostic, None);
}

#[test]
fn a_failed_request_goes_on_at_the_sentinel_position() {
    let located = fetch_city_position(&Fetched::RequestFailed { detail: String::from("timed out") });
    assert_eq!(located.position.latitude, "0");
    assert_eq!(located.position.longitude, "0");
    assert_eq!(
        located.diagnostic,
        Some(String::from("[Err] Failed to get a response: timed out"))
    );
}

#[test]
fn an_unreadable_body_goes_on_at_the_sentinel_position() {
    let located = fetch_city_position(&Fetched::BodyFailed { detail: String::from("reset") });
    assert_eq!(located.position.latitude, "0");
    assert_eq!(located.position.longitude, "0");
    assert_eq!(
        located.diagnostic,
        Some(String::from("[Err] Request content failed to load: reset"))
    );
}

#[test]
fn a_body_that_is_no_json_goes_on_at_the_sentinel_position() {
    let located = fetch_city_position(&Fetched::Body { text: String::from("<html>") });
    assert_eq!(located.position.latitude, "0");
    assert_eq!(located.position.longitude, "0");
    assert_eq!(
        located.diagnostic,
        Some(String::from(
            "[Err] Failed to parse request content: expected value at line 1 column 1"
        ))
    );
}

#[test]
fn an_empty_body_is_no_json() {
    let located = fetch_city_position(&Fetched::Body { text: String::new() });
    assert_eq!(located.position.latitude, "0");
    assert_eq!(
        located.diagnostic,
        Some(String::from(
            "[Err] Failed to parse request content: EOF while parsing a value at line 1 column 0"
        ))
    );
}
