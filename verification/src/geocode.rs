//! The geocoder: where it is asked for a place, and what its answer says of
//! where the place lies.

use crate::fetch::diagnostic;
use crate::fetch::diagnostic_prefix;
use crate::fetch::Failure;
use crate::fetch::Fetched;
use crate::fetch::Service;
use crate::json::decode;
use crate::json::decoded_text;
use crate::json::describe;
use crate::json::element;
use crate::json::element_text;
use crate::json::json_text;
use crate::json::member;
use crate::json::member_text;
use crate::text::remove_quote;
use crate::text::without_quotes;
use serde_json::Value;
use vstd::prelude::*;
use vstd::string::StringSliceAdditionalSpecFns;

verus! {

/// The bytes that a query may hold as they are: letters, digits, and the
/// four marks `-`, `.`, `_` and `~`.
pub open spec fn is_unreserved(byte: u8) -> bool {
    ||| 0x30 <= byte <= 0x39
    ||| 0x41 <= byte <= 0x5a
    ||| 0x61 <= byte <= 0x7a
    ||| byte == 0x2d
    ||| byte == 0x2e
    ||| byte == 0x5f
    ||| byte == 0x7e
}

/// The digit for a value below 16, in upper case.
pub open spec fn hex_digit(value: u8) -> char {
    if value < 10 {
        (0x30 + value) as u8 as char
    } else {
        (0x37 + value) as u8 as char
    }
}

/// One byte as a query holds it: itself where it is unreserved, else a
/// percent sign and its two hexadecimal digits.
pub open spec fn escaped(byte: u8) -> Seq<char> {
    if is_unreserved(byte) {
        seq![byte as char]
    } else {
        seq!['%', hex_digit(byte / 16), hex_digit(byte % 16)]
    }
}

/// Bytes as a query holds them, one after the other.
pub open spec fn percent_encoded(bytes: Seq<u8>) -> Seq<char>
    decreases bytes.len(),
{
    if bytes.len() == 0 {
        Seq::empty()
    } else {
        percent_encoded(bytes.drop_last()) + escaped(bytes.last())
    }
}

/// The address at which the geocoder is asked for a place: the place's name
/// stands in the query, its UTF-8 bytes percent-encoded.
pub open spec fn geocoder_address(city: Seq<char>) -> Seq<char> {
    "https://geocode.maps.co/search?q="@ + percent_encoded(vstd::utf8::encode_utf8(city))
}

fn digit(value: u8) -> (c: char)
    requires
        value < 16,
    ensures
        c == hex_digit(value),
{
    if value < 10 {
        (0x30 + value) as char
    } else {
        (0x37 + value) as char
    }
}

/// Appends the UTF-8 bytes of a text, percent-encoded, to an address.
pub fn push_percent_encoded(address: &mut String, text: &str)
    ensures
        final(address)@ == old(address)@ + percent_encoded(text.spec_bytes()),
{
    let bytes = text.as_bytes();
    let ghost start = address@;
    let mut i: usize = 0;
    while i < bytes.len()
        invariant
            i <= bytes.len(),
            bytes@ == text.spec_bytes(),
            address@ == start + percent_encoded(bytes@.take(i as int)),
        decreases bytes.len() - i,
    {
        let byte = bytes[i];
        proof {
            let seen = bytes@.take(i + 1);
            assert(seen.drop_last() == bytes@.take(i as int));
            assert(seen.last() == byte);
        }
        let unreserved = (0x30 <= byte && byte <= 0x39) || (0x41 <= byte && byte <= 0x5a) || (0x61
            <= byte && byte <= 0x7a) || byte == 0x2d || byte == 0x2e || byte == 0x5f || byte
            == 0x7e;
        if unreserved {
            address.push(byte as char);
        } else {
            address.push('%');
            address.push(digit(byte / 16));
            address.push(digit(byte % 16));
        }
        i = i + 1;
    }
    proof {
        assert(bytes@.take(bytes@.len() as int) == bytes@);
    }
}

/// The address at which the geocoder is asked for a place.
pub fn request_url(city: &str) -> (url: String)
    ensures
        url@ == geocoder_address(city@),
{
    let mut url = String::from_str("https://geocode.maps.co/search?q=");
    push_percent_encoded(&mut url, city);
    url
}

/// Where a place lies: latitude and longitude in degrees, each as the decimal
/// text that the geocoder gave.
#[derive(Debug)]
pub struct Position {
    pub latitude: String,
    pub longitude: String,
}

impl View for Position {
    type V = (Seq<char>, Seq<char>);

    open spec fn view(&self) -> (Seq<char>, Seq<char>) {
        (self.latitude@, self.longitude@)
    }
}

/// What the geocoder's answer came to: a position to go on with, and the
/// line to show where the answer was of no use.
#[derive(Debug)]
pub struct Located {
    pub position: Position,
    pub diagnostic: Option<String>,
}

/// The position that stands for a place that could not be looked up:
/// latitude zero, longitude zero.
pub open spec fn sentinel() -> (Seq<char>, Seq<char>) {
    ("0"@, "0"@)
}

/// The position that a decoded answer of the geocoder gives: of the first of
/// its results, the texts under `lat` and `lon` without their quotation
/// marks. Only the first result is looked at.
pub open spec fn position_in(document: Seq<char>) -> (Seq<char>, Seq<char>) {
    let first = element_text(document, 0);
    (without_quotes(member_text(first, "lat"@)), without_quotes(member_text(first, "lon"@)))
}

/// What a request to the geocoder comes to.
///
/// A request that failed, a body that could not be read and a body that is
/// no JSON document all give the sentinel position and a line that tells of
/// the failure. A decoded answer gives the position in it and no line.
pub open spec fn located_by(outcome: Fetched, located: Located) -> bool {
    match outcome {
        Fetched::RequestFailed { detail } => {
            &&& located.position@ == sentinel()
            &&& located.diagnostic matches Some(line)
            &&& line@ == diagnostic_prefix(Service::Geocoder, Failure::Request) + detail@
        },
        Fetched::BodyFailed { detail } => {
            &&& located.position@ == sentinel()
            &&& located.diagnostic matches Some(line)
            &&& line@ == diagnostic_prefix(Service::Geocoder, Failure::Body) + detail@
        },
        Fetched::Body { text } => match decoded_text(text@) {
            Some(document) => {
                &&& located.position@ == position_in(document)
                &&& located.diagnostic is None
            },
            None => {
                &&& located.position@ == sentinel()
                &&& located.diagnostic matches Some(line)
                &&& diagnostic_prefix(Service::Geocoder, Failure::Decode).is_prefix_of(line@)
            },
        },
    }
}

/// The sentinel position.
pub fn nowhere() -> (position: Position)
    ensures
        position@ == sentinel(),
{
    Position { latitude: String::from_str("0"), longitude: String::from_str("0") }
}

/// The position that a decoded answer of the geocoder gives.
pub fn first_position(document: &Value) -> (position: Position)
    ensures
        position@ == position_in(json_text(*document)),
{
    let first = element(document, 0);
    Position {
        latitude: remove_quote(member(first, "lat")),
        longitude: remove_quote(member(first, "lon")),
    }
}

/// Where to go on after a failure: at the sentinel position, with the line
/// that tells of the failure.
pub fn lost(failure: Failure, detail: &str) -> (located: Located)
    ensures
        located.position@ == sentinel(),
        located.diagnostic matches Some(line) && line@ == diagnostic_prefix(
            Service::Geocoder,
            failure,
        ) + detail@,
{
    Located {
        position: nowhere(),
        diagnostic: Some(diagnostic(Service::Geocoder, failure, detail)),
    }
}

/// Decides how to go on after a request to the geocoder.
pub fn fetch_city_position(outcome: &Fetched) -> (located: Located)
    ensures
        located_by(*outcome, located),
{
    match outcome {
        Fetched::RequestFailed { detail } => lost(Failure::Request, detail.as_str()),
        Fetched::BodyFailed { detail } => lost(Failure::Body, detail.as_str()),
        Fetched::Body { text } => match decode(text.as_str()) {
            Ok(document) => Located { position: first_position(&document), diagnostic: None },
            Err(error) => {
                let detail = describe(&error);
                lost(Failure::Decode, detail.as_str())
            },
        },
    }
}

/// Whether a character may stand in an encoded query: a percent sign, or an
/// unreserved byte.
pub open spec fn is_plain(c: char) -> bool {
    c == '%' || (c as u32 <= 0x7f && is_unreserved(c as u8))
}

/// Encoded bytes hold percent signs and unreserved bytes only: nothing in a
/// place's name can end the query or start another parameter.
pub proof fn percent_encoded_is_plain(bytes: Seq<u8>)
    ensures
        forall|i: int|
            0 <= i < percent_encoded(bytes).len() ==> is_plain(#[trigger] percent_encoded(bytes)[i]),
    decreases bytes.len(),
{
    if bytes.len() > 0 {
        percent_encoded_is_plain(bytes.drop_last());
        let byte = bytes.last();
        assert(is_plain(hex_digit(byte / 16)));
        assert(is_plain(hex_digit(byte % 16)));
        let before = percent_encoded(bytes.drop_last());
        assert forall|i: int| 0 <= i < percent_encoded(bytes).len() implies is_plain(
            #[trigger] percent_encoded(bytes)[i],
        ) by {
            if i >= before.len() {
                assert(percent_encoded(bytes)[i] == escaped(byte)[i - before.len()]);
            } else {
                assert(percent_encoded(bytes)[i] == before[i]);
            }
        }
    }
}

/// Unreserved bytes stand for themselves: a name made of them alone is
/// encoded as itself.
pub proof fn percent_encoded_keeps_unreserved(bytes: Seq<u8>)
    requires
        forall|i: int| 0 <= i < bytes.len() ==> is_unreserved(#[trigger] bytes[i]),
    ensures
        percent_encoded(bytes) == bytes.map_values(|byte: u8| byte as char),
    decreases bytes.len(),
{
    if bytes.len() > 0 {
        percent_encoded_keeps_unreserved(bytes.drop_last());
        assert(bytes.drop_last().map_values(|byte: u8| byte as char).push(bytes.last() as char)
            =~= bytes.map_values(|byte: u8| byte as char));
    }
}

} // verus!
