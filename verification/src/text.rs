//! Text comparison and copying, stated over character sequences.
use vstd::prelude::*;

verus! {

/// The characters of an optional text.
pub open spec fn opt_chars(value: Option<String>) -> Option<Seq<char>> {
    match value {
        Some(text) => Some(text@),
        None => None,
    }
}

/// The characters of an optional borrowed text.
pub open spec fn opt_str_chars(value: Option<&str>) -> Option<Seq<char>> {
    match value {
        Some(text) => Some(text@),
        None => None,
    }
}

/// Whether two texts hold the same characters.
pub fn same_text(left: &str, right: &str) -> (same: bool)
    ensures
        same == (left@ == right@),
{
    left.to_owned() == right.to_owned()
}

/// Whether two optional texts hold the same characters, or are both absent.
pub fn same_opt_text(left: Option<&str>, right: Option<&str>) -> (same: bool)
    ensures
        same == (opt_str_chars(left) == opt_str_chars(right)),
{
    match (left, right) {
        (Some(left), Some(right)) => same_text(left, right),
        (None, None) => true,
        _ => false,
    }
}

/// Whether a text begins with another.
pub fn begins_with(text: &str, prefix: &str) -> (begins: bool)
    ensures
        begins == prefix@.is_prefix_of(text@),
{
    let length: usize = prefix.unicode_len();
    if text.unicode_len() < length {
        return false;
    }
    let head = text.substring_char(0, length);
    same_text(head, prefix)
}

/// What follows a prefix, if the text begins with it.
pub fn strip_prefix(text: &str, prefix: &str) -> (rest: Option<String>)
    ensures
        opt_chars(rest) == (if prefix@.is_prefix_of(text@) {
            Some(text@.skip(prefix@.len() as int))
        } else {
            None
        }),
{
    if begins_with(text, prefix) {
        Some(text.substring_char(prefix.unicode_len(), text.unicode_len()).to_owned())
    } else {
        None
    }
}

/// A copy of an optional text.
pub fn copy_opt_text(value: Option<&str>) -> (copy: Option<String>)
    ensures
        opt_chars(copy) == opt_str_chars(value),
{
    match value {
        Some(text) => Some(text.to_owned()),
        None => None,
    }
}

/// An exact copy of an optional text.
pub fn copy_owned(value: &Option<String>) -> (copy: Option<String>)
    ensures
        copy == *value,
{
    match value {
        Some(text) => Some(text.clone()),
        None => None,
    }
}

/// An optional text by reference.
pub fn opt_as_str(value: &Option<String>) -> (text: Option<&str>)
    ensures
        opt_str_chars(text) == opt_chars(*value),
{
    match value {
        Some(text) => Some(text.as_str()),
        None => None,
    }
}

/// The decimal digit of a number below ten.
pub open spec fn digit(value: nat) -> char {
    (48 + value) as char
}

/// A number in decimal digits, without leading zeros.
pub open spec fn decimal_text(value: nat) -> Seq<char>
    decreases value,
{
    if value < 10 {
        seq![digit(value)]
    } else {
        decimal_text(value / 10).push(digit(value % 10))
    }
}

/// The decimal digit of a number below ten, as a text.
fn digit_text(value: u64) -> (text: &'static str)
    requires
        value < 10,
    ensures
        text@ == seq![digit(value as nat)],
{
    proof {
        reveal_strlit("0");
        reveal_strlit("1");
        reveal_strlit("2");
        reveal_strlit("3");
        reveal_strlit("4");
        reveal_strlit("5");
        reveal_strlit("6");
        reveal_strlit("7");
        reveal_strlit("8");
        reveal_strlit("9");
    }
    let text = match value {
        0 => "0",
        1 => "1",
        2 => "2",
        3 => "3",
        4 => "4",
        5 => "5",
        6 => "6",
        7 => "7",
        8 => "8",
        _ => "9",
    };
    assert(text@ =~= seq![digit(value as nat)]);
    text
}

/// Writes a number in decimal digits, without leading zeros.
pub(crate) fn decimal(value: u64) -> (text: String)
    ensures
        text@ == decimal_text(value as nat),
    decreases value,
{
    if value < 10 {
        digit_text(value).to_owned()
    } else {
        let text = decimal(value / 10).concat(digit_text(value % 10));
        assert(text@ =~= decimal_text(value as nat));
        text
    }
}

/// The text that std's `Debug` for `str` writes for `value`.
pub uninterp spec fn quoted_text(value: Seq<char>) -> Seq<char>;

/// Writes a text by std's `Debug` for `str`: in quotes, with escapes. The
/// result depends on the text alone and is named `quoted_text`; which
/// characters are escaped is not stated.
#[verifier::external_body]
pub(crate) fn quoted(value: &str) -> (text: String)
    ensures
        text@ == quoted_text(value@),
{
    format!("{value:?}")
}

/// An optional text as std's `Debug` writes it.
pub open spec fn opt_quoted_text(value: Option<Seq<char>>) -> Seq<char> {
    match value {
        Some(text) => "Some("@ + quoted_text(text) + ")"@,
        None => "None"@,
    }
}

/// Writes an optional text in the form of std's `Debug`.
pub fn opt_quoted(value: Option<&str>) -> (text: String)
    ensures
        text@ == opt_quoted_text(opt_str_chars(value)),
{
    match value {
        Some(value) => "Some(".to_owned().concat(quoted(value).as_str()).concat(")"),
        None => "None".to_owned(),
    }
}

} // verus!
