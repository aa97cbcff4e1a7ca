//! Text as it is shown: rendered values without their quotation marks,
//! whole numbers without an empty fraction.

use crate::json::json_text;
use crate::json::render;
use serde_json::Value;
use vstd::prelude::*;

verus! {

/// `String::push` appends the character to the end of the string.
pub assume_specification[ String::push ](text: &mut String, c: char)
    ensures
        final(text)@ == old(text)@.push(c),
;

/// A text with every quotation mark left out.
pub open spec fn without_quotes(text: Seq<char>) -> Seq<char> {
    text.filter(|c: char| c != '"')
}

/// Copies a text, leaving out every quotation mark in it.
pub fn strip_quotes(text: &str) -> (stripped: String)
    ensures
        stripped@ == without_quotes(text@),
{
    let mut stripped = String::new();
    for c in it: text.chars()
        invariant
            it.seq() == text@,
            stripped@ == without_quotes(text@.take(it.index() as int)),
    {
        proof {
            let seen = text@.take(it.index() + 1);
            assert(seen.drop_last() == text@.take(it.index() as int));
            assert(seen.last() == c);
            reveal(Seq::filter);
        }
        if c != '"' {
            stripped.push(c);
        }
    }
    proof {
        assert(text@.take(text@.len() as int) == text@);
    }
    stripped
}

/// The text of a document without any quotation mark: of a string its
/// content, where that holds no quotation mark and nothing that is escaped.
pub fn remove_quote(input: &Value) -> (text: String)
    ensures
        text@ == without_quotes(json_text(*input)),
{
    let rendered = render(input);
    strip_quotes(rendered.as_str())
}

/// Whether a text ends in a decimal point and a single zero.
pub open spec fn has_empty_fraction(text: Seq<char>) -> bool {
    text.len() >= 2 && text[text.len() - 2] == '.' && text[text.len() - 1] == '0'
}

/// A number's text as it is shown: a whole number written with an empty
/// fraction, such as `12.0`, loses the fraction; every other text stays.
pub open spec fn without_empty_fraction(text: Seq<char>) -> Seq<char> {
    if has_empty_fraction(text) {
        text.take(text.len() - 2)
    } else {
        text
    }
}

/// Copies a number's text, leaving out an empty fraction at its end.
pub fn drop_empty_fraction(text: &str) -> (shown: String)
    ensures
        shown@ == without_empty_fraction(text@),
{
    let length = text.unicode_len();
    if length >= 2 && text.get_char(length - 2) == '.' && text.get_char(length - 1) == '0' {
        String::from_str(text.substring_char(0, length - 2))
    } else {
        String::from_str(text)
    }
}

/// A measurement as it is shown: the number directly followed by its unit,
/// the number without an empty fraction and the unit without quotation marks.
pub open spec fn measurement(value: Seq<char>, unit: Seq<char>) -> Seq<char> {
    without_empty_fraction(value) + without_quotes(unit)
}

/// Joins a number's text and its unit's text into the measurement shown.
pub fn measure(value: &str, unit: &str) -> (shown: String)
    ensures
        shown@ == measurement(value@, unit@),
{
    let mut shown = drop_empty_fraction(value);
    let unit = strip_quotes(unit);
    shown.append(unit.as_str());
    shown
}

/// Nothing but quotation marks is taken out, and no quotation mark stays.
pub proof fn without_quotes_keeps_the_rest(text: Seq<char>)
    ensures
        forall|i: int| 0 <= i < without_quotes(text).len() ==> without_quotes(text)[i] != '"',
        (forall|i: int| 0 <= i < text.len() ==> text[i] != '"') ==> without_quotes(text) == text,
        without_quotes(text).len() <= text.len(),
    decreases text.len(),
{
    reveal(Seq::filter);
    if text.len() > 0 {
        without_quotes_keeps_the_rest(text.drop_last());
        if forall|i: int| 0 <= i < text.len() ==> text[i] != '"' {
            assert(text.drop_last().push(text.last()) == text);
        }
    }
}

/// Taking the quotation marks out of two texts in a row is taking them out of
/// each.
pub proof fn without_quotes_distributes(left: Seq<char>, right: Seq<char>)
    ensures
        without_quotes(left + right) == without_quotes(left) + without_quotes(right),
{
    Seq::filter_distributes_over_add(left, right, |c: char| c != '"');
}

/// A number without an empty fraction and a unit between quotation marks are
/// shown as the number directly followed by the unit: nothing stands between
/// them, and no quotation mark is left.
pub proof fn measurement_joins_number_and_unit(value: Seq<char>, unit: Seq<char>)
    requires
        !has_empty_fraction(value),
        forall|i: int| 0 <= i < unit.len() ==> unit[i] != '"',
    ensures
        measurement(value, seq!['"'] + unit + seq!['"']) == value + unit,
{
    let mark = seq!['"'];
    without_quotes_distributes(mark + unit, mark);
    without_quotes_distributes(mark, unit);
    without_quotes_keeps_the_rest(unit);
    assert(without_quotes(mark) == Seq::<char>::empty()) by {
        reveal_with_fuel(Seq::filter, 2);
    }
    assert(Seq::<char>::empty() + unit + Seq::<char>::empty() == unit);
}

} // verus!
