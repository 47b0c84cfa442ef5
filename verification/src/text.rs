//! Fixed-capacity text and the decimal notation of integers.
//!
//! The text itself is a `heapless::String`: at most `N` bytes of UTF-8.
use vstd::prelude::*;
use vstd::std_specs::cmp::PartialEqSpec;
use vstd::string::StrSliceExecFns;

verus! {

/// Declares `heapless::String`, text with room for `N` bytes.
#[verifier::external_type_specification]
#[verifier::external_body]
pub struct ExHeaplessString<const N: usize>(heapless::String<N>);

/// Whether a fixed-capacity text is equal to exactly those string slices that
/// hold `chars`.
pub open spec fn holds<const N: usize>(s: heapless::String<N>, chars: Seq<char>) -> bool {
    forall|other: &str| #[trigger] PartialEqSpec::<str>::eq_spec(&s, other) <==> other@ == chars
}

/// The characters that a fixed-capacity text holds.
pub open spec fn text<const N: usize>(s: heapless::String<N>) -> Seq<char> {
    choose|chars: Seq<char>| #[trigger] holds(s, chars)
}

/// Bytes that characters take in UTF-8.
pub open spec fn byte_len(chars: Seq<char>) -> nat {
    vstd::utf8::encode_utf8(chars).len()
}

/// Calls `heapless::String::new`: the text is empty.
#[verifier::external_body]
pub(crate) fn text_new<const N: usize>() -> (s: heapless::String<N>)
    ensures
        text(s) == Seq::<char>::empty(),
{
    heapless::String::new()
}

/// Calls `heapless::String::push_str`: the slice is appended where its bytes
/// fit; otherwise the text stays as it was and `false` is returned.
#[verifier::external_body]
pub(crate) fn text_push_str<const N: usize>(s: &mut heapless::String<N>, part: &str) -> (fits: bool)
    ensures
        fits == (byte_len(text(*old(s))) + byte_len(part@) <= N),
        text(*final(s)) == (if fits {
            text(*old(s)) + part@
        } else {
            text(*old(s))
        }),
{
    s.push_str(part).is_ok()
}

/// Calls `heapless::String::push`: the character is appended where its bytes
/// fit; otherwise the text stays as it was and `false` is returned.
#[verifier::external_body]
pub(crate) fn text_push<const N: usize>(s: &mut heapless::String<N>, c: char) -> (fits: bool)
    ensures
        fits == (byte_len(text(*old(s))) + byte_len(seq![c]) <= N),
        text(*final(s)) == (if fits {
            text(*old(s)).push(c)
        } else {
            text(*old(s))
        }),
{
    s.push(c).is_ok()
}

/// Calls `heapless::String::as_str`: the slice holds the characters of the
/// text, those that its `==` with a string slice compares; they take no more
/// than `N` bytes.
#[verifier::external_body]
pub(crate) fn text_as_str<const N: usize>(s: &heapless::String<N>) -> (slice: &str)
    ensures
        slice@ == text(*s),
        holds(*s, slice@),
        byte_len(slice@) <= N,
{
    s.as_str()
}

// ---- bytes of text ---------------------------------------------------------

/// ASCII characters take one byte each.
pub proof fn lemma_ascii_byte_len(chars: Seq<char>)
    requires
        vstd::utf8::is_ascii_chars(chars),
    ensures
        byte_len(chars) == chars.len(),
{
    vstd::utf8::is_ascii_chars_encode_utf8(chars);
}

/// The bytes of joined text are the joined bytes.
pub proof fn lemma_encode_concat(a: Seq<char>, b: Seq<char>)
    ensures
        vstd::utf8::encode_utf8(a + b) == vstd::utf8::encode_utf8(a) + vstd::utf8::encode_utf8(b),
        byte_len(a + b) == byte_len(a) + byte_len(b),
    decreases a.len(),
{
    if a.len() == 0 {
        assert(a + b =~= b);
        assert(vstd::utf8::encode_utf8(a) =~= Seq::<u8>::empty());
    } else {
        lemma_encode_concat(a.drop_first(), b);
        assert((a + b).drop_first() =~= a.drop_first() + b);
        assert((a + b)[0] == a[0]);
        assert(vstd::utf8::encode_utf8(a + b) =~= vstd::utf8::encode_utf8(a)
            + vstd::utf8::encode_utf8(b));
    }
}

/// The same text once more.
pub(crate) fn text_copy<const N: usize>(s: &heapless::String<N>) -> (copy: heapless::String<N>)
    ensures
        text(copy) == text(*s),
{
    let mut copy: heapless::String<N> = text_new();
    let slice: &str = text_as_str(s);
    proof {
        assert(vstd::utf8::encode_utf8(Seq::<char>::empty()) =~= Seq::<u8>::empty());
        assert(Seq::<char>::empty() + slice@ =~= slice@);
    }
    let fits: bool = text_push_str(&mut copy, slice);
    assert(fits);
    copy
}

// ---- decimal notation ------------------------------------------------------

/// The character of a decimal digit.
pub open spec fn digit(value: int) -> char {
    (48 + value) as char
}

/// The decimal notation of a number.
pub open spec fn decimal(value: nat) -> Seq<char>
    decreases value,
{
    if value < 10 {
        seq![digit(value as int)]
    } else {
        decimal(value / 10).push(digit((value % 10) as int))
    }
}

/// The decimal notation of a signed number.
pub open spec fn signed_decimal(value: int) -> Seq<char> {
    if value < 0 {
        seq!['-'] + decimal((-value) as nat)
    } else {
        decimal(value as nat)
    }
}

/// A run of zeros.
pub open spec fn zeros(count: int) -> Seq<char> {
    Seq::new(
        if count > 0 {
            count as nat
        } else {
            0
        },
        |i: int| '0',
    )
}

/// The decimal notation of a number, filled with zeros on the left up to a
/// width.
pub open spec fn padded_decimal(value: nat, width: nat) -> Seq<char> {
    zeros(width - decimal(value).len()) + decimal(value)
}

/// Powers of ten.
spec fn pow10(exponent: nat) -> nat
    decreases exponent,
{
    if exponent == 0 {
        1
    } else {
        10 * pow10((exponent - 1) as nat)
    }
}

/// A number below a power of ten has no more digits than the exponent.
proof fn lemma_decimal_len(value: nat, exponent: nat)
    requires
        exponent > 0,
        value < pow10(exponent),
    ensures
        1 <= decimal(value).len() <= exponent,
    decreases exponent,
{
    if value >= 10 {
        if exponent == 1 {
            assert(pow10(1) == 10) by {
                reveal_with_fuel(pow10, 2);
            }
        } else {
            lemma_decimal_len(value / 10, (exponent - 1) as nat);
        }
    }
}

/// Decimal notation is never empty and is made of digits, which are ASCII.
pub proof fn lemma_decimal_ascii(value: nat)
    ensures
        decimal(value).len() >= 1,
        vstd::utf8::is_ascii_chars(decimal(value)),
        forall|i: int| 0 <= i < decimal(value).len() ==> '0' <= #[trigger] decimal(value)[i] <= '9',
    decreases value,
{
    if value >= 10 {
        lemma_decimal_ascii(value / 10);
    }
}

/// The notation of a 64-bit number has between one and twenty digits.
pub proof fn lemma_decimal_fits(value: nat)
    requires
        value <= u64::MAX,
    ensures
        1 <= decimal(value).len() <= 20,
        value <= i64::MAX ==> decimal(value).len() <= 19,
        value <= u32::MAX ==> decimal(value).len() <= 10,
        value < 1_000 ==> decimal(value).len() <= 3,
{
    assert(pow10(20) == 100_000_000_000_000_000_000) by {
        reveal_with_fuel(pow10, 21);
    }
    lemma_decimal_len(value, 20);
    if value <= i64::MAX {
        assert(pow10(19) == 10_000_000_000_000_000_000) by {
            reveal_with_fuel(pow10, 20);
        }
        lemma_decimal_len(value, 19);
    }
    if value <= u32::MAX {
        assert(pow10(10) == 10_000_000_000) by {
            reveal_with_fuel(pow10, 11);
        }
        lemma_decimal_len(value, 10);
    }
    if value < 1_000 {
        assert(pow10(3) == 1_000) by {
            reveal_with_fuel(pow10, 4);
        }
        lemma_decimal_len(value, 3);
    }
}

/// The value that decimal digits denote.
pub open spec fn decimal_value(digits: Seq<char>) -> int
    decreases digits.len(),
{
    if digits.len() == 0 {
        0
    } else {
        decimal_value(digits.drop_last()) * 10 + (digits.last() as int - 48)
    }
}

/// Decimal notation can be read back, so two numbers never share a notation.
pub proof fn law_decimal_reads_back(value: nat)
    ensures
        decimal_value(decimal(value)) == value,
    decreases value,
{
    reveal_with_fuel(decimal_value, 2);
    if value < 10 {
        assert(seq![digit(value as int)].drop_last() =~= Seq::<char>::empty());
    } else {
        law_decimal_reads_back(value / 10);
        assert(decimal(value).drop_last() =~= decimal(value / 10));
    }
}

/// Appends the digits of a number that fits.
fn push_digits<const N: usize>(s: &mut heapless::String<N>, value: u64)
    requires
        byte_len(text(*old(s))) + decimal(value as nat).len() <= N,
    ensures
        text(*final(s)) == text(*old(s)) + decimal(value as nat),
    decreases value,
{
    proof {
        lemma_decimal_ascii(value as nat);
        lemma_ascii_byte_len(decimal(value as nat));
    }
    if value >= 10 {
        push_digits(s, value / 10);
    }
    let c: char = (48 + (value % 10) as u8) as char;
    proof {
        lemma_ascii_byte_len(seq![c]);
        if value >= 10 {
            lemma_decimal_ascii(value as nat / 10);
            lemma_ascii_byte_len(decimal(value as nat / 10));
            lemma_encode_concat(text(*old(s)), decimal(value as nat / 10));
        }
    }
    let fits: bool = text_push(s, c);
    assert(fits);
    assert(text(*s) =~= text(*old(s)) + decimal(value as nat));
}

/// The decimal notation of a number.
pub fn decimal_text(value: u64) -> (s: heapless::String<20>)
    ensures
        text(s) == decimal(value as nat),
{
    let mut s: heapless::String<20> = text_new();
    proof {
        lemma_decimal_fits(value as nat);
        assert(vstd::utf8::encode_utf8(Seq::<char>::empty()) =~= Seq::<u8>::empty());
    }
    push_digits(&mut s, value);
    assert(Seq::<char>::empty() + decimal(value as nat) =~= decimal(value as nat));
    s
}

/// The decimal notation of a signed number.
pub fn signed_text(value: i64) -> (s: heapless::String<20>)
    ensures
        text(s) == signed_decimal(value as int),
{
    if value >= 0 {
        return decimal_text(value as u64);
    }
    let mut s: heapless::String<20> = text_new();
    let magnitude: u64 = (-(value as i128)) as u64;
    proof {
        assert(vstd::utf8::encode_utf8(Seq::<char>::empty()) =~= Seq::<u8>::empty());
        lemma_ascii_byte_len(seq!['-']);
        lemma_decimal_below_19(magnitude as nat);
    }
    let fits: bool = text_push(&mut s, '-');
    assert(text(s) =~= seq!['-']);
    push_digits(&mut s, magnitude);
    s
}

/// The notation of a number up to two to the sixty-third has at most nineteen
/// digits.
pub proof fn lemma_decimal_below_19(value: nat)
    requires
        value <= 0x8000_0000_0000_0000,
    ensures
        1 <= decimal(value).len() <= 19,
{
    assert(pow10(19) == 10_000_000_000_000_000_000) by {
        reveal_with_fuel(pow10, 20);
    }
    lemma_decimal_len(value, 19);
}

/// The decimal notation of a number, filled with zeros on the left.
pub fn padded_text(value: u64, width: usize) -> (s: heapless::String<20>)
    requires
        width <= 20,
    ensures
        text(s) == padded_decimal(value as nat, width as nat),
{
    let digits: heapless::String<20> = decimal_text(value);
    let shown: &str = text_as_str(&digits);
    let mut s: heapless::String<20> = text_new();
    proof {
        lemma_decimal_fits(value as nat);
        lemma_decimal_ascii(value as nat);
        lemma_ascii_byte_len(decimal(value as nat));
        assert(vstd::utf8::encode_utf8(Seq::<char>::empty()) =~= Seq::<u8>::empty());
    }
    let count: usize = shown.unicode_len();
    let mut filled: usize = count;
    assert(text(s) =~= zeros(0));
    while filled < width
        invariant
            width <= 20,
            count <= filled <= 20,
            filled <= width || filled == count,
            text(s) == zeros(filled - count),
            count >= 1,
        decreases width - filled,
    {
        proof {
            lemma_ascii_byte_len(zeros(filled - count));
            lemma_ascii_byte_len(seq!['0']);
        }
        let fits: bool = text_push(&mut s, '0');
        assert(text(s) =~= zeros(filled + 1 - count));
        filled = filled + 1;
    }
    proof {
        lemma_ascii_byte_len(zeros(filled - count));
        assert(zeros(filled - count) =~= zeros(width - count));
    }
    let fits: bool = text_push_str(&mut s, shown);
    s
}

// ---- laws ------------------------------------------------------------------

/// Decimal notation starts with a zero only where the number is zero.
pub proof fn law_decimal_has_no_leading_zero(value: nat)
    ensures
        decimal(value).len() >= 1,
        value > 0 ==> decimal(value)[0] != '0',
        value == 0 ==> decimal(value) == seq!['0'],
    decreases value,
{
    if value >= 10 {
        law_decimal_has_no_leading_zero(value / 10);
    }
}

/// Signed notation is a minus and the magnitude where the number is negative, and
/// the number alone where it is not.
pub proof fn law_signed_decimal_reads_back(value: int)
    ensures
        value >= 0 ==> decimal_value(signed_decimal(value)) == value,
        value < 0 ==> signed_decimal(value).len() >= 2 && signed_decimal(value)[0] == '-'
            && decimal_value(signed_decimal(value).skip(1)) == -value,
{
    if value < 0 {
        law_decimal_reads_back((-value) as nat);
        assert(signed_decimal(value).skip(1) =~= decimal((-value) as nat));
    } else {
        law_decimal_reads_back(value as nat);
    }
}

/// Zeros in front do not change a number.
proof fn lemma_leading_zeros(count: int, digits: Seq<char>)
    ensures
        decimal_value(zeros(count) + digits) == decimal_value(digits),
    decreases digits.len(), if count > 0 { count } else { 0 },
{
    if digits.len() > 0 {
        lemma_leading_zeros(count, digits.drop_last());
        assert((zeros(count) + digits).drop_last() =~= zeros(count) + digits.drop_last());
    } else if count > 0 {
        lemma_leading_zeros(count - 1, digits);
        assert((zeros(count) + digits).drop_last() =~= zeros(count - 1) + digits);
        assert((zeros(count) + digits).last() == '0');
    } else {
        assert(zeros(count) + digits =~= digits);
    }
}

/// Padded notation reads back as its number, and has as many digits as the width
/// or, where the number needs more, as the number needs.
pub proof fn law_padded_decimal_reads_back(value: nat, width: nat)
    ensures
        decimal_value(padded_decimal(value, width)) == value,
        padded_decimal(value, width).len() >= width,
        decimal(value).len() >= width ==> padded_decimal(value, width) == decimal(value),
        decimal(value).len() <= width ==> padded_decimal(value, width).len() == width,
{
    law_decimal_reads_back(value);
    lemma_leading_zeros(width - decimal(value).len(), decimal(value));
    if decimal(value).len() >= width {
        assert(padded_decimal(value, width) =~= decimal(value));
    }
}

} // verus!
