//! Decimal numbers in configuration values.
//!
//! A value is read as the standard library reads an unsigned integer: one
//! optional `+`, then digits only, scanned from the left until the first
//! character that is no digit or the first digit that takes the number past
//! the largest admitted value.
use vstd::prelude::*;
use vstd::string::StringSliceAdditionalSpecFns;

verus! {

/// Why a text is no number of the wanted type.
#[derive(Debug, Clone, Copy, PartialEq, Eq, Structural)]
pub enum ParseFailure {
    /// The text is empty.
    Empty,
    /// A character is no digit, or a sign stands alone.
    InvalidDigit,
    /// The number is larger than the type holds.
    PosOverflow,
}

impl ParseFailure {
    /// The failure in words.
    pub fn message(&self) -> (m: &'static str)
        ensures
            m@ == self.words(),
    {
        match self {
            ParseFailure::Empty => "cannot parse integer from empty string",
            ParseFailure::InvalidDigit => "invalid digit found in string",
            ParseFailure::PosOverflow => "number too large to fit in target type",
        }
    }

    /// The failure in words.
    pub open spec fn words(&self) -> Seq<char> {
        match *self {
            ParseFailure::Empty => "cannot parse integer from empty string"@,
            ParseFailure::InvalidDigit => "invalid digit found in string"@,
            ParseFailure::PosOverflow => "number too large to fit in target type"@,
        }
    }
}

/// Whether `b` is one of the ASCII digits.
pub open spec fn is_digit(b: u8) -> bool {
    48 <= b <= 57
}

/// The text without its leading `+`, if it has one.
pub open spec fn unsigned_part(text: Seq<u8>) -> Seq<u8> {
    if text.len() > 0 && text[0] == 43 {
        text.subrange(1, text.len() as int)
    } else {
        text
    }
}

/// How many digits `text` starts with.
pub open spec fn digit_run(text: Seq<u8>) -> nat
    decreases text.len(),
{
    if text.len() > 0 && is_digit(text[0]) {
        1 + digit_run(text.drop_first())
    } else {
        0
    }
}

/// The number that a text of digits writes.
pub open spec fn decimal_value(digits: Seq<u8>) -> nat
    decreases digits.len(),
{
    if digits.len() == 0 {
        0
    } else {
        decimal_value(digits.drop_last()) * 10 + (digits.last() - 48) as nat
    }
}

/// What `text` reads as, for a type whose largest value is `max`.
pub open spec fn parsed(text: Seq<u8>, max: nat) -> Result<nat, ParseFailure> {
    let digits = unsigned_part(text);
    let run = digits.subrange(0, digit_run(digits) as int);
    if text.len() == 0 {
        Err(ParseFailure::Empty)
    } else if digits.len() == 0 {
        Err(ParseFailure::InvalidDigit)
    } else if decimal_value(run) > max {
        Err(ParseFailure::PosOverflow)
    } else if run.len() < digits.len() {
        Err(ParseFailure::InvalidDigit)
    } else {
        Ok(decimal_value(digits))
    }
}

/// The run of leading digits ends at `n` when the first `n` bytes are digits
/// and the next one, if there is one, is not.
pub proof fn lemma_digit_run_is(text: Seq<u8>, n: int)
    requires
        0 <= n <= text.len(),
        forall|i: int| 0 <= i < n ==> is_digit(#[trigger] text[i]),
        n < text.len() ==> !is_digit(text[n]),
    ensures
        digit_run(text) == n,
    decreases n,
{
    if n > 0 {
        let rest = text.drop_first();
        assert forall|i: int| 0 <= i < n - 1 implies is_digit(#[trigger] rest[i]) by {
            assert(rest[i] == text[i + 1]);
        }
        lemma_digit_run_is(rest, n - 1);
    }
}

/// The run of leading digits is at least as long as any prefix of digits.
pub proof fn lemma_digit_run_at_least(text: Seq<u8>, n: int)
    requires
        0 <= n <= text.len(),
        forall|i: int| 0 <= i < n ==> is_digit(#[trigger] text[i]),
    ensures
        n <= digit_run(text) <= text.len(),
    decreases text.len(),
{
    if text.len() > 0 && is_digit(text[0]) {
        let rest = text.drop_first();
        if n > 0 {
            assert forall|i: int| 0 <= i < n - 1 implies is_digit(#[trigger] rest[i]) by {
                assert(rest[i] == text[i + 1]);
            }
            lemma_digit_run_at_least(rest, n - 1);
        } else {
            lemma_digit_run_at_least(rest, 0);
        }
    }
}

/// A longer prefix of a text writes no smaller number than a shorter one.
pub proof fn lemma_value_grows(text: Seq<u8>, a: int, b: int)
    requires
        0 <= a <= b <= text.len(),
        forall|i: int| 0 <= i < b ==> is_digit(#[trigger] text[i]),
    ensures
        decimal_value(text.subrange(0, a)) <= decimal_value(text.subrange(0, b)),
    decreases b - a,
{
    if a < b {
        lemma_value_grows(text, a, b - 1);
        let longer = text.subrange(0, b);
        assert(longer.drop_last() =~= text.subrange(0, b - 1));
        assert(longer.last() == text[b - 1]);
    }
}

/// Reads `text` as a number that is at most `max`.
pub fn parse_unsigned(text: &str, max: u64) -> (r: Result<u64, ParseFailure>)
    ensures
        match parsed(text.spec_bytes(), max as nat) {
            Ok(n) => r matches Ok(v) && v == n && n <= max,
            Err(e) => r == Err::<u64, ParseFailure>(e),
        },
{
    let bytes = text.as_bytes();
    let len: usize = bytes.len();
    if len == 0 {
        return Err(ParseFailure::Empty);
    }
    let start: usize = if bytes[0] == 43u8 {
        1
    } else {
        0
    };
    if start == len {
        return Err(ParseFailure::InvalidDigit);
    }
    let ghost digits = unsigned_part(bytes@);
    let mut acc: u64 = 0;
    let mut i: usize = start;
    assert(digits.subrange(0, 0) =~= Seq::<u8>::empty());
    while i < len
        invariant
            start <= i <= len,
            len == bytes@.len(),
            len > start,
            bytes@ == text.spec_bytes(),
            digits == unsigned_part(bytes@),
            digits.len() == len - start,
            forall|j: int| 0 <= j < digits.len() ==> digits[j] == bytes@[j + start],
            forall|j: int| 0 <= j < i - start ==> is_digit(#[trigger] digits[j]),
            acc == decimal_value(digits.subrange(0, i - start)),
            acc <= max,
        decreases len - i,
    {
        let b: u8 = bytes[i];
        let ghost k = i - start;
        assert(digits[k] == b);
        if b < 48u8 || b > 57u8 {
            proof {
                lemma_digit_run_is(digits, k);
            }
            return Err(ParseFailure::InvalidDigit);
        }
        let next: u128 = acc as u128 * 10 + (b - 48u8) as u128;
        proof {
            let longer = digits.subrange(0, k + 1);
            assert(longer.drop_last() =~= digits.subrange(0, k));
            assert(longer.last() == b);
            assert(decimal_value(longer) == next);
            assert forall|j: int| 0 <= j < k + 1 implies is_digit(#[trigger] digits[j]) by {}
        }
        if next > max as u128 {
            proof {
                lemma_digit_run_at_least(digits, k + 1);
                let run = digit_run(digits) as int;
                lemma_digit_run_prefix(digits, run);
                lemma_value_grows(digits, k + 1, run);
            }
            return Err(ParseFailure::PosOverflow);
        }
        acc = next as u64;
        i = i + 1;
    }
    proof {
        lemma_digit_run_is(digits, digits.len() as int);
        assert(digits.subrange(0, digits.len() as int) =~= digits);
    }
    Ok(acc)
}

/// Every byte inside the run of leading digits is a digit.
pub proof fn lemma_digit_run_prefix(text: Seq<u8>, n: int)
    requires
        0 <= n <= digit_run(text),
    ensures
        n <= text.len(),
        forall|i: int| 0 <= i < n ==> is_digit(#[trigger] text[i]),
    decreases text.len(),
{
    if n > 0 {
        let rest = text.drop_first();
        lemma_digit_run_prefix(rest, n - 1);
        assert forall|i: int| 0 <= i < n implies is_digit(#[trigger] text[i]) by {
            if i > 0 {
                assert(text[i] == rest[i - 1]);
            }
        }
    }
}

/// Reads `text` as a `u16`.
pub fn parse_u16(text: &str) -> (r: Result<u16, ParseFailure>)
    ensures
        match parsed(text.spec_bytes(), 0xffff) {
            Ok(n) => r matches Ok(v) && v == n,
            Err(e) => r == Err::<u16, ParseFailure>(e),
        },
{
    match parse_unsigned(text, 0xffff) {
        Ok(n) => Ok(n as u16),
        Err(e) => Err(e),
    }
}

/// Reads `text` as a `u32`.
pub fn parse_u32(text: &str) -> (r: Result<u32, ParseFailure>)
    ensures
        match parsed(text.spec_bytes(), 0xffff_ffff) {
            Ok(n) => r matches Ok(v) && v == n,
            Err(e) => r == Err::<u32, ParseFailure>(e),
        },
{
    match parse_unsigned(text, 0xffff_ffff) {
        Ok(n) => Ok(n as u32),
        Err(e) => Err(e),
    }
}

/// Reads `text` as a `u64`.
pub fn parse_u64(text: &str) -> (r: Result<u64, ParseFailure>)
    ensures
        match parsed(text.spec_bytes(), 0xffff_ffff_ffff_ffff) {
            Ok(n) => r matches Ok(v) && v == n,
            Err(e) => r == Err::<u64, ParseFailure>(e),
        },
{
    parse_unsigned(text, 0xffff_ffff_ffff_ffff)
}

/// Whether `text` begins with `prefix`, byte for byte.
pub open spec fn starts_with(text: Seq<u8>, prefix: Seq<u8>) -> bool {
    prefix.len() <= text.len() && text.subrange(0, prefix.len() as int) == prefix
}

/// Whether `text` begins with `prefix`.
pub fn has_prefix(text: &str, prefix: &str) -> (b: bool)
    ensures
        b == starts_with(text.spec_bytes(), prefix.spec_bytes()),
{
    let t = text.as_bytes();
    let p = prefix.as_bytes();
    if p.len() > t.len() {
        return false;
    }
    let mut i: usize = 0;
    while i < p.len()
        invariant
            i <= p.len() <= t.len(),
            t@ == text.spec_bytes(),
            p@ == prefix.spec_bytes(),
            forall|j: int| 0 <= j < i ==> t@[j] == p@[j],
        decreases p.len() - i,
    {
        if t[i] != p[i] {
            assert(t@.subrange(0, p@.len() as int)[i as int] != p@[i as int]);
            return false;
        }
        i = i + 1;
    }
    assert(t@.subrange(0, p@.len() as int) =~= p@);
    true
}

} // verus!
