//! Parsing of the single-line answers of `vcgencmd`, written
//! `label=value[unit]`.
use vstd::prelude::*;

use std::num::ParseIntError;

use crate::text::{
    after_equals, split_after_equals, trim, trim_end_matches, trim_start_matches, trimmed,
    without_prefixes, without_suffixes,
};
use crate::ExecutionError;

verus! {

/// The value of the digit `c` (`0-9`, then `a-z` or `A-Z` from ten on), or 36
/// where `c` is a digit in no radix.
pub open spec fn digit_value(c: char) -> int {
    if '0' <= c && c <= '9' {
        c as int - '0' as int
    } else if 'a' <= c && c <= 'z' {
        c as int - 'a' as int + 10
    } else if 'A' <= c && c <= 'Z' {
        c as int - 'A' as int + 10
    } else {
        36
    }
}

/// `s` is a non-empty run of digits of `radix`.
pub open spec fn all_digits(s: Seq<char>, radix: int) -> bool {
    s.len() > 0 && forall|i: int| 0 <= i < s.len() ==> digit_value(#[trigger] s[i]) < radix
}

/// The number that the digits `s` write in `radix`, most significant first.
pub open spec fn digits_value(s: Seq<char>, radix: int) -> int
    decreases s.len(),
{
    if s.len() == 0 {
        0
    } else {
        digits_value(s.drop_last(), radix) * radix + digit_value(s.last())
    }
}

/// The integer that `s` writes in `radix`: an optional `+` or `-`, then digits.
pub open spec fn integer_of(s: Seq<char>, radix: int) -> Option<int> {
    if s.len() > 0 && s[0] == '-' && all_digits(s.drop_first(), radix) {
        Some(-digits_value(s.drop_first(), radix))
    } else if s.len() > 0 && s[0] == '+' && all_digits(s.drop_first(), radix) {
        Some(digits_value(s.drop_first(), radix))
    } else if all_digits(s, radix) {
        Some(digits_value(s, radix))
    } else {
        None
    }
}

/// The `isize` that `s` writes in `radix`, if it writes an integer that fits.
pub open spec fn isize_of(s: Seq<char>, radix: int) -> Option<isize> {
    match integer_of(s, radix) {
        Some(v) => if isize::MIN <= v && v <= isize::MAX {
            Some(v as isize)
        } else {
            None
        },
        None => None,
    }
}

/// The trimmed text after the first `=` of an answer, or none where it has no `=`.
pub open spec fn value_text(s: Seq<char>) -> Option<Seq<char>> {
    if s.contains('=') {
        Some(trimmed(after_equals(s)))
    } else {
        None
    }
}

/// The digits of a `measure_clock` answer.
pub open spec fn frequency_text(s: Seq<char>) -> Option<Seq<char>> {
    value_text(s)
}

/// The digits of a `get_mem` answer: its value without the `M` unit.
pub open spec fn mem_text(s: Seq<char>) -> Option<Seq<char>> {
    match value_text(s) {
        Some(t) => Some(trimmed(without_suffixes(t, "M"@))),
        None => None,
    }
}

/// The hexadecimal digits of a `get_throttled` answer: its value without `0x`.
pub open spec fn throttled_text(s: Seq<char>) -> Option<Seq<char>> {
    match value_text(s) {
        Some(t) => Some(without_prefixes(t, "0x"@)),
        None => None,
    }
}

/// The number of a `measure_temp` answer: its value without the `'C` unit.
pub open spec fn temp_text(s: Seq<char>) -> Option<Seq<char>> {
    match value_text(s) {
        Some(t) => Some(trimmed(without_suffixes(t, "'C"@))),
        None => None,
    }
}

/// The number of a `measure_volts` answer: its value without the `V` unit.
pub open spec fn volts_text(s: Seq<char>) -> Option<Seq<char>> {
    match value_text(s) {
        Some(t) => Some(trimmed(without_suffixes(t, "V"@))),
        None => None,
    }
}

/// `r` is what reading the integer `text` in `radix` gives: its value, an
/// integer error where it writes none that fits, or a format error where there
/// is no text.
pub open spec fn int_outcome(
    r: Result<isize, ExecutionError>,
    text: Option<Seq<char>>,
    radix: int,
) -> bool {
    match text {
        None => r matches Err(ExecutionError::Format),
        Some(t) => match isize_of(t, radix) {
            Some(v) => r == Ok::<isize, ExecutionError>(v),
            None => r matches Err(ExecutionError::ParseInt(_)),
        },
    }
}

/// `r` holds `text`, or is a format error where there is no text.
pub open spec fn text_outcome(r: Result<String, ExecutionError>, text: Option<Seq<char>>) -> bool {
    match text {
        None => r matches Err(ExecutionError::Format),
        Some(t) => r matches Ok(v) && v@ == t,
    }
}

/// Relies on `isize::from_str_radix`: it accepts an optional `+` or `-`
/// followed by one or more digits of `radix` (`0-9`, `a-z`, `A-Z`) whose value
/// fits an `isize`, and returns that value; it fails on anything else.
#[verifier::external_body]
fn parse_isize(s: &str, radix: u32) -> (r: Result<isize, ParseIntError>)
    requires
        2 <= radix <= 36,
    ensures
        r is Ok <==> isize_of(s@, radix as int) is Some,
        r is Ok ==> r->Ok_0 == isize_of(s@, radix as int)->0,
{
    isize::from_str_radix(s, radix)
}

/// The trimmed value of an answer, or a format error where it has no `=`.
fn value_of<'a>(input: &'a str) -> (r: Result<&'a str, ExecutionError>)
    ensures
        match value_text(input@) {
            None => r matches Err(ExecutionError::Format),
            Some(t) => r matches Ok(v) && v@ == t,
        },
{
    match split_after_equals(input) {
        None => Err(ExecutionError::Format),
        Some(after) => Ok(trim(after)),
    }
}

/// The integer that `text` writes in `radix`.
fn int_of(text: &str, radix: u32) -> (r: Result<isize, ExecutionError>)
    requires
        2 <= radix <= 36,
    ensures
        int_outcome(r, Some(text@), radix as int),
{
    match parse_isize(text, radix) {
        Ok(v) => Ok(v),
        Err(e) => Err(ExecutionError::ParseInt(e)),
    }
}

/// The text after the first `=` of `input`, trimmed.
pub fn trim_before_equals(input: &str) -> (r: Result<String, ExecutionError>)
    ensures
        text_outcome(r, value_text(input@)),
        r matches Err(ExecutionError::Format) <==> !input@.contains('='),
{
    let value = value_of(input)?;
    Ok(value.to_owned())
}

/// The number of a `measure_temp` answer such as `temp=42.8'C`, as text.
pub fn temp_reading(input: &str) -> (r: Result<String, ExecutionError>)
    ensures
        text_outcome(r, temp_text(input@)),
        r matches Err(ExecutionError::Format) <==> !input@.contains('='),
{
    let value = value_of(input)?;
    proof {
        reveal_strlit("'C");
    }
    Ok(trim(trim_end_matches(value, "'C")).to_owned())
}

/// The number of a `measure_volts` answer such as `volt=1.20V`, as text.
pub fn volts_reading(input: &str) -> (r: Result<String, ExecutionError>)
    ensures
        text_outcome(r, volts_text(input@)),
        r matches Err(ExecutionError::Format) <==> !input@.contains('='),
{
    let value = value_of(input)?;
    proof {
        reveal_strlit("V");
    }
    Ok(trim(trim_end_matches(value, "V")).to_owned())
}

/// The status word of a `get_throttled` answer such as `throttled=0x50000`.
pub fn throttled(input: &str) -> (r: Result<isize, ExecutionError>)
    ensures
        int_outcome(r, throttled_text(input@), 16),
        r matches Err(ExecutionError::Format) <==> !input@.contains('='),
{
    let value = value_of(input)?;
    proof {
        reveal_strlit("0x");
    }
    int_of(trim_start_matches(value, "0x"), 16)
}

/// The frequency in Hz of a `measure_clock` answer such as
/// `frequency(45)=700000000`.
pub fn frequency(input: &str) -> (r: Result<isize, ExecutionError>)
    ensures
        int_outcome(r, frequency_text(input@), 10),
        r matches Err(ExecutionError::Format) <==> !input@.contains('='),
{
    let value = value_of(input)?;
    int_of(value, 10)
}

/// The size in megabytes of a `get_mem` answer such as `arm=448M`.
pub fn mem(input: &str) -> (r: Result<isize, ExecutionError>)
    ensures
        int_outcome(r, mem_text(input@), 10),
        r matches Err(ExecutionError::Format) <==> !input@.contains('='),
{
    let value = value_of(input)?;
    proof {
        reveal_strlit("M");
    }
    int_of(trim(trim_end_matches(value, "M")), 10)
}

} // verus!
