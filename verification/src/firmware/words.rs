//! The words that log messages are made of.
//!
//! Optional and structured values are shown in the notation that Rust's
//! `Debug` gives them.
use crate::text;
use crate::text::{decimal_text, signed_text, text_as_str};
use vstd::prelude::*;
use vstd::string::StringExecFns;

verus! {

/// A number in decimal notation.
pub open spec fn number(value: int) -> Seq<char> {
    text::signed_decimal(value)
}

/// A truth value.
pub open spec fn flag(value: bool) -> Seq<char> {
    if value {
        "true"@
    } else {
        "false"@
    }
}

/// A value that is there.
pub open spec fn present(inner: Seq<char>) -> Seq<char> {
    "Some("@ + inner + ")"@
}

/// A number that may be missing.
pub open spec fn maybe(value: Option<u64>) -> Seq<char> {
    match value {
        Some(value) => present(number(value as int)),
        None => "None"@,
    }
}

/// A signed number that may be missing.
pub open spec fn maybe_signed(value: Option<i64>) -> Seq<char> {
    match value {
        Some(value) => present(number(value as int)),
        None => "None"@,
    }
}

/// The same number in a wider type.
#[verifier::allow_in_spec]
pub fn wide_u8(value: Option<u8>) -> (wide: Option<u64>)
    returns
        (match value {
            Some(value) => Some(value as u64),
            None => None,
        }),
{
    match value {
        Some(value) => Some(value as u64),
        None => None,
    }
}

/// The same number in a wider type.
#[verifier::allow_in_spec]
pub fn wide_u16(value: Option<u16>) -> (wide: Option<u64>)
    returns
        (match value {
            Some(value) => Some(value as u64),
            None => None,
        }),
{
    match value {
        Some(value) => Some(value as u64),
        None => None,
    }
}

/// The same number in a wider type.
#[verifier::allow_in_spec]
pub fn wide_u32(value: Option<u32>) -> (wide: Option<u64>)
    returns
        (match value {
            Some(value) => Some(value as u64),
            None => None,
        }),
{
    match value {
        Some(value) => Some(value as u64),
        None => None,
    }
}

/// A message that begins with a text.
pub fn begin(part: &str) -> (line: String)
    ensures
        line@ == part@,
{
    part.to_owned()
}

/// Appends a number.
pub fn push_number(line: &mut String, value: u64)
    ensures
        final(line)@ == old(line)@ + number(value as int),
{
    let digits: heapless::String<20> = decimal_text(value);
    line.append(text_as_str(&digits));
}

/// Appends a signed number.
pub fn push_signed(line: &mut String, value: i64)
    ensures
        final(line)@ == old(line)@ + number(value as int),
{
    let digits: heapless::String<20> = signed_text(value);
    line.append(text_as_str(&digits));
}

/// Appends a truth value.
pub fn push_flag(line: &mut String, value: bool)
    ensures
        final(line)@ == old(line)@ + flag(value),
{
    if value {
        line.append("true");
    } else {
        line.append("false");
    }
}

/// Appends a number that may be missing.
pub fn push_maybe(line: &mut String, value: Option<u64>)
    ensures
        final(line)@ == old(line)@ + maybe(value),
{
    match value {
        Some(value) => {
            line.append("Some(");
            push_number(line, value);
            line.append(")");
            assert(line@ =~= old(line)@ + present(number(value as int)));
        },
        None => {
            line.append("None");
        },
    }
}

/// Appends a signed number that may be missing.
pub fn push_maybe_signed(line: &mut String, value: Option<i64>)
    ensures
        final(line)@ == old(line)@ + maybe_signed(value),
{
    match value {
        Some(value) => {
            line.append("Some(");
            push_signed(line, value);
            line.append(")");
            assert(line@ =~= old(line)@ + present(number(value as int)));
        },
        None => {
            line.append("None");
        },
    }
}

} // verus!
