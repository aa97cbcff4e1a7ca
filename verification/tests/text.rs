use rainy::text::{drop_empty_fraction, measure, remove_quote, strip_quotes};

fn document(text: &str) -> serde_json::Value {
    serde_json::from_str::<serde_json::Value>(text).unwrap()
}

#[test]
fn quotation_marks_are_taken_out_wherever_they_stand() {
    assert_eq!(strip_quotes("\"km/h\""), "km/h");
    assert_eq!(strip_quotes("a\"b\"\"c"), "abc");
    assert_eq!(strip_quotes("\"\""), "");
    assert_eq!(strip_quotes(""), "");
}

#[test]
fn text_without_quotation_marks_stays() {
    assert_eq!(strip_quotes("18.3"), "18.3");
    assert_eq!(strip_quotes("°C"), "°C");
    assert_eq!(strip_quotes("null"), "null");
}

#[test]
fn an_empty_fraction_is_dropped() {
    assert_eq!(drop_empty_fraction("0.0"), "0");
    assert_eq!(drop_empty_fraction("12.0"), "12");
    assert_eq!(drop_empty_fraction("-3.0"), "-3");
    assert_eq!(drop_empty_fraction(".0"), "");
}

#[test]
fn any_other_number_text_stays() {
    assert_eq!(drop_empty_fraction("18.3"), "18.3");
    assert_eq!(drop_empty_fraction("12"), "12");
    assert_eq!(drop_empty_fraction("0"), "0");
    assert_eq!(drop_empty_fraction("1.00"), "1.00");
    assert_eq!(drop_empty_fraction("1e21"), "1e21");
    assert_eq!(drop_empty_fraction("null"), "null");
    assert_eq!(drop_empty_fraction(""), "");
    assert_eq!(drop_empty_fraction("0"), "0");
}

#[test]
fn value_and_unit_are_joined_without_space_or_quotation_mark() {
    assert_eq!(measure("18.3", "\"°C\""), "18.3°C");
    assert_eq!(measure("0.0", "\"mm\""), "0mm");
    assert_eq!(measure("12.0", "\"km/h\""), "12km/h");
    assert_eq!(measure("270", "\"°\""), "270°");
}

#[test]
fn a_missing_value_or_unit_shows_as_null() {
    assert_eq!(measure("null", "\"mm\""), "nullmm");
    assert_eq!(measure("1.5", "null"), "1.5null");
}

#[test]
fn a_string_document_loses_its_quotation_marks() {
    assert_eq!(remove_quote(&document("\"45.75\"")), "45.75");
    assert_eq!(remove_quote(&document("\"°C\"")), "°C");
}

#[test]
fn other_documents_are_rendered_compactly() {
    assert_eq!(remove_quote(&document(" 12 ")), "12");
    assert_eq!(remove_quote(&document("18.30")), "18.3");
    assert_eq!(remove_quote(&document("null")), "null");
    assert_eq!(remove_quote(&document("{ \"a\" : [ 1 , \"b\" ] }")), "{a:[1,b]}");
}

#[test]
fn an_escaped_quotation_mark_leaves_its_backslash() {
    assert_eq!(remove_quote(&document("\"a\\\"b\"")), "a\\b");
}
