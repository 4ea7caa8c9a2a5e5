//! Reading the temperature sensor.
//!
//! The sensor reports thousandths of a degree Celsius as text. The number
//! is what the regular expression `[0-9]+` first matches in that text.

use vstd::prelude::*;

verus! {

/// Why a sensor report gave no temperature.
#[derive(Debug, Clone, Copy, PartialEq, Eq, Structural)]
pub enum TempError {
    /// The report holds no run of digits.
    NoNumber,
    /// The digits do not make a number of 32 bits.
    NotANumber,
}

impl TempError {
    /// The text of each error.
    pub open spec fn text(self) -> Seq<char> {
        match self {
            TempError::NoNumber => "Regex failed"@,
            TempError::NotANumber => "Cannot convert result to int"@,
        }
    }

    /// A short description of the error.
    pub fn message(&self) -> (message: &'static str)
        ensures
            message@ == self.text(),
    {
        match self {
            TempError::NoNumber => "Regex failed",
            TempError::NotANumber => "Cannot convert result to int",
        }
    }
}

/// The first match of the regular expression `pattern` in `haystack` as
/// the `regex` crate finds it: the text of the leftmost match, or nothing
/// where there is no match or `pattern` is no regular expression.
pub uninterp spec fn regex_find(pattern: Seq<char>, haystack: Seq<char>) -> Option<Seq<char>>;

/// A decimal digit.
pub open spec fn is_digit(c: char) -> bool {
    '0' <= c <= '9'
}

/// The number that a run of decimal digits denotes.
pub open spec fn decimal(digits: Seq<char>) -> nat
    decreases digits.len(),
{
    if digits.len() == 0 {
        0
    } else {
        decimal(digits.drop_last()) * 10 + (digits.last() as nat - '0' as nat) as nat
    }
}

/// Every character is a decimal digit.
pub open spec fn all_digits(text: Seq<char>) -> bool {
    forall|k: int| 0 <= k < text.len() ==> is_digit(#[trigger] text[k])
}

/// What is left of `text` without a leading `+`.
pub open spec fn unsigned_part(text: Seq<char>) -> Seq<char> {
    if text.len() > 0 && text[0] == '+' {
        text.skip(1)
    } else {
        text
    }
}

/// What `text` means as an unsigned number of 32 bits: one or more
/// decimal digits, a `+` before them if any, and a value that fits.
pub open spec fn unsigned_of(text: Seq<char>) -> Option<u32> {
    let digits = unsigned_part(text);
    if digits.len() > 0 && all_digits(digits) && decimal(digits) <= u32::MAX {
        Some(decimal(digits) as u32)
    } else {
        None
    }
}

/// The reading, in thousandths of a degree, that comes of what was found
/// in a sensor report.
pub open spec fn reading_of(found: Option<Seq<char>>) -> Result<u32, TempError> {
    match found {
        None => Err(TempError::NoNumber),
        Some(text) => match unsigned_of(text) {
            Some(value) => Ok(value),
            None => Err(TempError::NotANumber),
        },
    }
}

/// The pattern of the number in a sensor report.
pub open spec fn number_pattern() -> Seq<char> {
    "[0-9]+"@
}

/// Calls `regex::Regex::new` on `pattern` and `regex::Regex::find` on the
/// result and `haystack`, and hands out the matched text
/// (`regex::Match::as_str`). Nothing is proved of it: the contract gives
/// the result its name, `regex_find`, and says nothing of what the `regex`
/// crate takes a pattern to mean.
#[verifier::external_body]
fn find_first(pattern: &str, haystack: &str) -> (found: Option<String>)
    ensures
        found is Some <==> regex_find(pattern@, haystack@) is Some,
        found matches Some(text) ==> regex_find(pattern@, haystack@) == Some(text@),
{
    match regex::Regex::new(pattern) {
        Ok(compiled) => match compiled.find(haystack) {
            Some(matched) => Some(matched.as_str().to_string()),
            None => None,
        },
        Err(_) => None,
    }
}

/// A number is at least the number that any of its leading digits make.
proof fn lemma_decimal_grows(digits: Seq<char>, upto: int)
    requires
        0 <= upto <= digits.len(),
    ensures
        decimal(digits.subrange(0, upto)) <= decimal(digits),
    decreases digits.len() - upto,
{
    if upto == digits.len() {
        assert(digits.subrange(0, upto) =~= digits);
    } else {
        lemma_decimal_grows(digits.drop_last(), upto);
        assert(digits.drop_last().subrange(0, upto) =~= digits.subrange(0, upto));
    }
}

/// Reads `text` as an unsigned number of 32 bits.
pub fn parse_unsigned(text: &str) -> (value: Option<u32>)
    ensures
        value == unsigned_of(text@),
{
    let len = text.unicode_len();
    let start: usize = if len > 0 && text.get_char(0) == '+' {
        1
    } else {
        0
    };
    if start == len {
        return None;
    }
    let ghost digits = text@.skip(start as int);
    assert(digits =~= unsigned_part(text@));
    let mut value: u64 = 0;
    let mut at: usize = start;
    while at < len
        invariant
            start <= at <= len,
            len == text@.len(),
            digits == text@.skip(start as int),
            digits == unsigned_part(text@),
            all_digits(digits.subrange(0, at - start)),
            value == decimal(digits.subrange(0, at - start)),
            value <= u32::MAX,
        decreases len - at,
    {
        let c = text.get_char(at);
        if !('0' <= c && c <= '9') {
            assert(!is_digit(digits[at - start]));
            return None;
        }
        let digit = (c as u32 - '0' as u32) as u64;
        proof {
            let upto = at - start + 1;
            assert(digits.subrange(0, upto).drop_last() =~= digits.subrange(0, at - start));
            assert(digits.subrange(0, upto).last() == c);
        }
        value = value * 10 + digit;
        if value > 0xFFFF_FFFF {
            proof {
                lemma_decimal_grows(digits, at - start + 1);
            }
            return None;
        }
        assert(all_digits(digits.subrange(0, at - start + 1))) by {
            let longer = digits.subrange(0, at - start + 1);
            assert forall|k: int| 0 <= k < longer.len() implies is_digit(#[trigger] longer[k]) by {
                if k < at - start {
                    assert(longer[k] == digits.subrange(0, at - start)[k]);
                }
            }
        }
        at += 1;
    }
    assert(digits.subrange(0, at - start) =~= digits);
    Some(value as u32)
}

/// The reading, in thousandths of a degree, that comes of what was found
/// in a sensor report: the number that the found text denotes.
pub fn reading_from(found: Option<&str>) -> (reading: Result<u32, TempError>)
    ensures
        reading == reading_of(
            match found {
                Some(text) => Some(text@),
                None => None,
            },
        ),
{
    match found {
        None => Err(TempError::NoNumber),
        Some(text) => match parse_unsigned(text) {
            Some(value) => Ok(value),
            None => Err(TempError::NotANumber),
        },
    }
}

/// The reading, in thousandths of a degree, in a sensor report: the
/// number that the first match of `[0-9]+` in `report` denotes.
pub fn parse_temperature(report: &str) -> (reading: Result<u32, TempError>)
    ensures
        reading == reading_of(regex_find(number_pattern(), report@)),
{
    match find_first("[0-9]+", report) {
        Some(text) => reading_from(Some(text.as_str())),
        None => reading_from(None),
    }
}

} // verus!
