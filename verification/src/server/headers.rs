//! The headers that answers to classic WebDriver requests carry.
use vstd::prelude::*;

use crate::text::{begins_with, same_text};

verus! {

/// Whether a character has the White_Space property of Unicode.
pub open spec fn is_white(character: char) -> bool {
    ||| '\u{9}' <= character <= '\u{d}'
    ||| character == ' '
    ||| character == '\u{85}'
    ||| character == '\u{a0}'
    ||| character == '\u{1680}'
    ||| '\u{2000}' <= character <= '\u{200a}'
    ||| character == '\u{2028}'
    ||| character == '\u{2029}'
    ||| character == '\u{202f}'
    ||| character == '\u{205f}'
    ||| character == '\u{3000}'
}

/// Whether a character is white space.
fn is_whitespace(character: char) -> (white: bool)
    ensures
        white == is_white(character),
{
    ('\u{9}' <= character && character <= '\u{d}') || character == ' ' || character == '\u{85}'
        || character == '\u{a0}' || character == '\u{1680}' || ('\u{2000}' <= character
        && character <= '\u{200a}') || character == '\u{2028}' || character == '\u{2029}'
        || character == '\u{202f}' || character == '\u{205f}' || character == '\u{3000}'
}

/// A text without the white space it begins with.
pub open spec fn trimmed_start(text: Seq<char>) -> Seq<char>
    decreases text.len(),
{
    if text.len() > 0 && is_white(text[0]) {
        trimmed_start(text.skip(1))
    } else {
        text
    }
}

/// A text without the white space it ends with.
pub open spec fn trimmed_end(text: Seq<char>) -> Seq<char>
    decreases text.len(),
{
    if text.len() > 0 && is_white(text.last()) {
        trimmed_end(text.drop_last())
    } else {
        text
    }
}

/// Whether two characters are equal but for the case of ASCII letters.
pub open spec fn same_letter(left: char, right: char) -> bool {
    ||| left == right
    ||| 'A' <= left <= 'Z' && left as int + 32 == right as int
    ||| 'A' <= right <= 'Z' && right as int + 32 == left as int
}

/// Whether two texts are equal but for the case of ASCII letters.
pub open spec fn same_letters(left: Seq<char>, right: Seq<char>) -> bool {
    &&& left.len() == right.len()
    &&& forall|at: int| 0 <= at < left.len() ==> same_letter(#[trigger] left[at], right[at])
}

/// What comes before the first semicolon, or the whole text.
pub open spec fn before_semicolon(text: Seq<char>) -> Seq<char>
    decreases text.len(),
{
    if text.len() == 0 {
        text
    } else if text[0] == ';' {
        Seq::empty()
    } else {
        seq![text[0]] + before_semicolon(text.skip(1))
    }
}

/// Whether a content type is that of JSON, whatever its parameters.
pub open spec fn is_json(content_type: Seq<char>) -> bool {
    same_letters(
        trimmed_end(trimmed_start(before_semicolon(content_type))),
        "application/json"@,
    )
}

fn letters_match(left: char, right: char) -> (matches: bool)
    ensures
        matches == same_letter(left, right),
{
    left == right || ('A' <= left && left <= 'Z' && left as u32 + 32 == right as u32) || ('A'
        <= right && right <= 'Z' && right as u32 + 32 == left as u32)
}

/// The characters of a text.
fn characters(text: &str) -> (characters: Vec<char>)
    ensures
        characters@ == text@,
{
    let length: usize = text.unicode_len();
    let mut characters: Vec<char> = Vec::new();
    let mut index: usize = 0;
    while index < length
        invariant
            length == text@.len(),
            index <= length,
            characters@ == text@.take(index as int),
        decreases length - index,
    {
        characters.push(text.get_char(index));
        assert(characters@ =~= text@.take(index + 1));
        index += 1;
    }
    assert(text@.take(length as int) =~= text@);
    characters
}

/// How many characters come before the first semicolon.
fn semicolon_place(text: &Vec<char>) -> (place: usize)
    ensures
        place <= text@.len(),
        text@.take(place as int) == before_semicolon(text@),
{
    let mut place: usize = 0;
    assert(text@.take(0) + before_semicolon(text@.skip(0)) =~= before_semicolon(text@)) by {
        assert(text@.skip(0) =~= text@);
    }
    while place < text.len() && text[place] != ';'
        invariant
            place <= text@.len(),
            text@.take(place as int) + before_semicolon(text@.skip(place as int))
                == before_semicolon(text@),
        decreases text@.len() - place,
    {
        let ghost rest = text@.skip(place as int);
        assert(rest[0] == text@[place as int]);
        assert(rest.skip(1) =~= text@.skip(place + 1));
        assert(text@.take(place + 1) + before_semicolon(rest.skip(1)) =~= text@.take(place as int)
            + before_semicolon(rest));
        place += 1;
    }
    proof {
        let rest = text@.skip(place as int);
        if place < text@.len() {
            assert(rest[0] == text@[place as int]);
        }
        assert(before_semicolon(rest).len() == 0);
        assert(text@.take(place as int) + before_semicolon(rest) =~= text@.take(place as int));
    }
    place
}

/// Where a part of a text begins and ends without the white space around it.
fn trimmed_bounds(text: &Vec<char>, length: usize) -> (bounds: (usize, usize))
    requires
        length <= text@.len(),
    ensures
        bounds.0 <= bounds.1 <= text@.len(),
        text@.subrange(bounds.0 as int, bounds.1 as int) == trimmed_end(
            trimmed_start(text@.take(length as int)),
        ),
{
    let ghost part = text@.take(length as int);
    let mut start: usize = 0;
    assert(text@.subrange(0, length as int) =~= part);
    while start < length && is_whitespace(text[start])
        invariant
            start <= length <= text@.len(),
            part == text@.take(length as int),
            trimmed_start(text@.subrange(start as int, length as int)) == trimmed_start(part),
        decreases length - start,
    {
        assert(text@.subrange(start as int, length as int).skip(1) =~= text@.subrange(
            start + 1,
            length as int,
        ));
        start += 1;
    }
    let mut end: usize = length;
    assert(text@.subrange(start as int, end as int) == trimmed_start(part));
    while start < end && is_whitespace(text[end - 1])
        invariant
            start <= end <= length <= text@.len(),
            trimmed_end(text@.subrange(start as int, end as int)) == trimmed_end(
                trimmed_start(part),
            ),
        decreases end - start,
    {
        assert(text@.subrange(start as int, end as int).drop_last() =~= text@.subrange(
            start as int,
            end - 1,
        ));
        end -= 1;
    }
    (start, end)
}

/// Whether a part of a text is another text but for the case of ASCII letters.
fn part_matches(text: &Vec<char>, start: usize, end: usize, expected: &Vec<char>) -> (matches: bool)
    requires
        start <= end <= text@.len(),
    ensures
        matches == same_letters(text@.subrange(start as int, end as int), expected@),
{
    let ghost part = text@.subrange(start as int, end as int);
    if end - start != expected.len() {
        return false;
    }
    let mut index: usize = 0;
    while index < expected.len()
        invariant
            start <= end <= text@.len(),
            end - start == expected@.len(),
            part == text@.subrange(start as int, end as int),
            index <= expected@.len(),
            forall|at: int| 0 <= at < index ==> same_letter(#[trigger] part[at], expected@[at]),
        decreases expected@.len() - index,
    {
        if !letters_match(text[start + index], expected[index]) {
            assert(!same_letter(part[index as int], expected@[index as int]));
            return false;
        }
        index += 1;
    }
    true
}

/// Whether a content type is that of JSON, whatever its parameters. Case and
/// the white space around it do not count.
pub fn is_classic_webdriver_json_response(content_type: Option<&str>) -> (json: bool)
    ensures
        json == (content_type matches Some(value) && is_json(value@)),
{
    let value = match content_type {
        Some(value) => characters(value),
        None => {
            return false;
        },
    };
    let expected = characters("application/json");
    let place = semicolon_place(&value);
    let (start, end) = trimmed_bounds(&value, place);
    part_matches(&value, start, end, &expected)
}

/// Whether a path belongs to classic WebDriver.
pub open spec fn is_classic(path: Seq<char>) -> bool {
    ||| path == "/status"@
    ||| path == "/status/"@
    ||| path == "/session"@
    ||| path == "/session/"@
    ||| "/session/"@.is_prefix_of(path)
}

/// Whether a path belongs to classic WebDriver.
pub fn is_classic_webdriver_http_path(path: &str) -> (classic: bool)
    ensures
        classic == is_classic(path@),
{
    same_text(path, "/status") || same_text(path, "/status/") || same_text(path, "/session")
        || same_text(path, "/session/") || begins_with(path, "/session/")
}

/// Whether two bytes are equal but for the case of ASCII letters.
pub open spec fn same_letter_byte(left: u8, right: u8) -> bool {
    ||| left == right
    ||| 65 <= left <= 90 && left + 32 == right
    ||| 65 <= right <= 90 && right + 32 == left
}

/// Whether bytes are equal but for the case of ASCII letters.
pub open spec fn same_letter_bytes(left: Seq<u8>, right: Seq<u8>) -> bool {
    &&& left.len() == right.len()
    &&& forall|at: int| 0 <= at < left.len() ==> same_letter_byte(#[trigger] left[at], right[at])
}

/// The bytes of the word "websocket".
pub open spec fn websocket_bytes() -> Seq<u8> {
    seq![119u8, 101u8, 98u8, 115u8, 111u8, 99u8, 107u8, 101u8, 116u8]
}

/// Whether the value of an upgrade header asks for a WebSocket, whatever its
/// case.
pub fn is_websocket_upgrade_request(upgrade: Option<&Vec<u8>>) -> (websocket: bool)
    ensures
        websocket == (upgrade matches Some(value) && same_letter_bytes(value@, websocket_bytes())),
{
    let value = match upgrade {
        Some(value) => value,
        None => {
            return false;
        },
    };
    let expected: Vec<u8> = vec![119, 101, 98, 115, 111, 99, 107, 101, 116];
    assert(expected@ =~= websocket_bytes());
    bytes_match(value, &expected)
}

/// Whether bytes are other bytes but for the case of ASCII letters.
fn bytes_match(value: &Vec<u8>, expected: &Vec<u8>) -> (matches: bool)
    ensures
        matches == same_letter_bytes(value@, expected@),
{
    if value.len() != expected.len() {
        return false;
    }
    let mut index: usize = 0;
    while index < value.len()
        invariant
            value@.len() == expected@.len(),
            index <= value@.len(),
            forall|at: int|
                0 <= at < index ==> same_letter_byte(#[trigger] value@[at], expected@[at]),
        decreases value@.len() - index,
    {
        let left: u8 = value[index];
        let right: u8 = expected[index];
        let matches = left == right || (65 <= left && left <= 90 && left + 32 == right) || (65
            <= right && right <= 90 && right + 32 == left);
        if !matches {
            assert(!same_letter_byte(value@[index as int], expected@[index as int]));
            return false;
        }
        index += 1;
    }
    true
}

/// The headers that an answer is given.
pub struct ClassicResponseHeaders {
    pub cache_control: &'static str,
    pub content_type: &'static str,
}

/// The headers that an answer is given: those of JSON that is not to be cached,
/// where the request was for classic WebDriver and no upgrade, and the answer is
/// JSON.
pub fn classic_webdriver_response_headers(
    path: &str,
    is_upgrade: bool,
    content_type: Option<&str>,
) -> (headers: Option<ClassicResponseHeaders>)
    ensures
        headers is Some <==> is_classic(path@) && !is_upgrade && (content_type matches Some(value)
            && is_json(value@)),
        headers matches Some(headers) ==> headers.cache_control@ == "no-cache"@
            && headers.content_type@ == "application/json; charset=utf-8"@,
{
    if is_classic_webdriver_http_path(path) && !is_upgrade && is_classic_webdriver_json_response(
        content_type,
    ) {
        Some(
            ClassicResponseHeaders {
                cache_control: "no-cache",
                content_type: "application/json; charset=utf-8",
            },
        )
    } else {
        None
    }
}

} // verus!
