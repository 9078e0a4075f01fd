//! Text: decimal numerals, letter case, and bytes.
use vstd::prelude::*;
use vstd::string::StrSliceExecFns;
use vstd::utf8::{decode_utf8, valid_utf8};

verus! {

/// The decimal digit for a number below ten.
pub open spec fn digit(value: nat) -> char {
    if value == 0 {
        '0'
    } else if value == 1 {
        '1'
    } else if value == 2 {
        '2'
    } else if value == 3 {
        '3'
    } else if value == 4 {
        '4'
    } else if value == 5 {
        '5'
    } else if value == 6 {
        '6'
    } else if value == 7 {
        '7'
    } else if value == 8 {
        '8'
    } else {
        '9'
    }
}

/// The decimal digits of a natural number, without leading zeros.
pub open spec fn digits(value: nat) -> Seq<char>
    decreases value,
{
    if value < 10 {
        seq![digit(value)]
    } else {
        digits(value / 10).push(digit(value % 10))
    }
}

/// The decimal numeral of an integer: a minus sign if it is negative, then
/// the digits of its magnitude.
pub open spec fn decimal(value: int) -> Seq<char> {
    if value < 0 {
        seq!['-'] + digits((-value) as nat)
    } else {
        digits(value as nat)
    }
}

/// `i64::to_string`: the decimal numeral of the integer.
#[verifier::external_body]
pub(crate) fn integer_to_string(value: i64) -> (text: String)
    ensures
        text@ == decimal(value as int),
{
    value.to_string()
}

/// `usize::to_string`: the decimal numeral of the number.
#[verifier::external_body]
pub(crate) fn count_to_string(value: usize) -> (text: String)
    ensures
        text@ == decimal(value as int),
{
    value.to_string()
}

/// A count as a machine integer: itself if it fits, and the largest
/// integer otherwise.
pub open spec fn saturated(count: nat) -> i64 {
    if count <= i64::MAX {
        count as i64
    } else {
        i64::MAX
    }
}

/// Converts a count to a machine integer.
pub fn count_to_integer(count: usize) -> (value: i64)
    ensures
        value == saturated(count as nat),
{
    let wide = count as u64;
    if wide <= 0x7fff_ffff_ffff_ffff {
        wide as i64
    } else {
        i64::MAX
    }
}

/// What `str::to_lowercase` makes of a text: each character replaced by
/// its lowercase mapping in the Unicode tables of the standard library.
pub uninterp spec fn lowercase(text: Seq<char>) -> Seq<char>;

/// What `str::to_uppercase` makes of a text: each character replaced by
/// its uppercase mapping in the Unicode tables of the standard library.
pub uninterp spec fn uppercase(text: Seq<char>) -> Seq<char>;

/// `str::to_lowercase`: the lowercase equivalent of the text.
#[verifier::external_body]
pub(crate) fn to_lowercase(text: &String) -> (lower: String)
    ensures
        lower@ == lowercase(text@),
{
    text.to_lowercase()
}

/// `str::to_uppercase`: the uppercase equivalent of the text.
#[verifier::external_body]
pub(crate) fn to_uppercase(text: &String) -> (upper: String)
    ensures
        upper@ == uppercase(text@),
{
    text.to_uppercase()
}

/// `String::from_utf8`: the text that the bytes encode, if they are valid UTF-8.
#[verifier::external_body]
pub(crate) fn string_from_utf8(bytes: Vec<u8>) -> (text: Option<String>)
    ensures
        valid_utf8(bytes@) ==> text is Some && text->Some_0@ == decode_utf8(bytes@),
        !valid_utf8(bytes@) ==> text is None,
{
    String::from_utf8(bytes).ok()
}

/// The low eight bits of an integer.
pub open spec fn low_byte(value: i64) -> u8 {
    (value as int % 256) as u8
}

/// Truncates an integer to its low eight bits.
pub fn integer_to_byte(value: i64) -> (byte: u8)
    ensures
        byte == low_byte(value),
{
    match value.checked_rem_euclid(256) {
        Some(residue) => residue as u8,
        None => 0,
    }
}

/// The number that a decimal digit stands for.
pub open spec fn digit_value(digit: char) -> Option<nat> {
    if '0' <= digit <= '9' {
        Some((digit as u32 - '0' as u32) as nat)
    } else {
        None
    }
}

/// The natural number that a run of decimal digits stands for. A text
/// that is empty or holds anything but digits stands for none.
pub open spec fn natural_of(text: Seq<char>) -> Option<nat>
    decreases text.len(),
{
    if text.len() == 0 {
        None
    } else {
        match digit_value(text.last()) {
            None => None,
            Some(last) => if text.len() == 1 {
                Some(last)
            } else {
                match natural_of(text.drop_last()) {
                    None => None,
                    Some(rest) => Some(rest * 10 + last),
                }
            },
        }
    }
}

/// The integer that a decimal numeral stands for: digits, after a minus
/// sign or not.
pub open spec fn integer_of(text: Seq<char>) -> Option<int> {
    if text.len() > 0 && text[0] == '-' {
        match natural_of(text.drop_first()) {
            Some(magnitude) => Some(-(magnitude as int)),
            None => None,
        }
    } else {
        match natural_of(text) {
            Some(magnitude) => Some(magnitude as int),
            None => None,
        }
    }
}

/// The machine integer that a decimal numeral stands for, if it stands
/// for one that fits in 64 bits.
pub open spec fn parsed_integer(text: Seq<char>) -> Option<i64> {
    match integer_of(text) {
        Some(value) => if i64::MIN <= value <= i64::MAX {
            Some(value as i64)
        } else {
            None
        },
        None => None,
    }
}

/// The digits of a number stand for the number.
pub proof fn lemma_digits_read_back(value: nat)
    ensures
        natural_of(digits(value)) == Some(value),
        digits(value).len() > 0,
        digits(value)[0] != '-',
    decreases value,
{
    if value >= 10 {
        lemma_digits_read_back(value / 10);
        let shorter = digits(value / 10);
        assert(digits(value).drop_last() =~= shorter);
        assert(digits(value).last() == digit(value % 10));
        assert(digits(value)[0] == shorter[0]);
    }
}

/// Writing an integer and reading it back is the identity: the decimal
/// numeral of an integer stands for that integer.
pub proof fn lemma_decimal_reads_back(value: int)
    ensures
        integer_of(decimal(value)) == Some(value),
        i64::MIN <= value <= i64::MAX ==> parsed_integer(decimal(value)) == Some(value as i64),
{
    if value < 0 {
        lemma_digits_read_back((-value) as nat);
        assert(decimal(value).drop_first() =~= digits((-value) as nat));
    } else {
        lemma_digits_read_back(value as nat);
    }
}

/// More digits stand for no smaller a number.
proof fn lemma_natural_of_prefix(text: Seq<char>, length: int)
    requires
        0 < length <= text.len(),
        natural_of(text) is Some,
    ensures
        natural_of(text.take(length)) is Some,
        natural_of(text.take(length))->Some_0 <= natural_of(text)->Some_0,
    decreases text.len(),
{
    if length == text.len() {
        assert(text.take(length) =~= text);
    } else {
        assert(text.drop_last().take(length) =~= text.take(length));
        lemma_natural_of_prefix(text.drop_last(), length);
    }
}

/// A text with a character that is no digit stands for no number.
proof fn lemma_natural_of_rejects(text: Seq<char>, position: int)
    requires
        0 <= position < text.len(),
        digit_value(text[position]) is None,
    ensures
        natural_of(text) is None,
    decreases text.len(),
{
    if position < text.len() - 1 {
        lemma_natural_of_rejects(text.drop_last(), position);
    }
}

/// Reads a run of decimal digits that stands for a number of at most 2^63.
#[verifier::loop_isolation(false)]
fn parse_magnitude(text: &str, start: usize) -> (magnitude: Option<u64>)
    requires
        start <= text@.len(),
    ensures
        magnitude == (match natural_of(text@.skip(start as int)) {
            Some(value) => if value <= 0x8000_0000_0000_0000 {
                Some(value as u64)
            } else {
                None
            },
            None => None,
        }),
{
    let length = text.unicode_len();
    let ghost digits = text@.skip(start as int);
    if start == length {
        return None;
    }
    let mut value: u64 = 0;
    let mut i: usize = start;
    while i < length
        invariant
            start <= i <= length,
            length == text@.len(),
            digits == text@.skip(start as int),
            value <= 0x8000_0000_0000_0000,
            i > start ==> natural_of(digits.take(i - start)) == Some(value as nat),
            i == start ==> value == 0,
        decreases length - i,
    {
        let c = text.get_char(i);
        assert(digits[i - start] == c);
        if !('0' <= c && c <= '9') {
            proof {
                lemma_natural_of_rejects(digits, i - start);
            }
            return None;
        }
        let d = (c as u32 - '0' as u32) as u64;
        proof {
            let longer = digits.take(i - start + 1);
            assert(longer.last() == c);
            assert(longer.drop_last() =~= digits.take(i - start));
        }
        if value > (0x8000_0000_0000_0000 - d) / 10 {
            proof {
                if natural_of(digits) is Some {
                    lemma_natural_of_prefix(digits, i - start + 1);
                }
            }
            return None;
        }
        value = value * 10 + d;
        i = i + 1;
    }
    assert(digits.take(length - start) =~= digits);
    Some(value)
}

/// Reads a decimal numeral: digits, after a minus sign or not. Yields
/// nothing for any other text, and for a numeral that does not fit in 64 bits.
pub fn parse_integer(text: &str) -> (value: Option<i64>)
    ensures
        value == parsed_integer(text@),
{
    let length = text.unicode_len();
    if length > 0 && text.get_char(0) == '-' {
        assert(text@.drop_first() =~= text@.skip(1));
        match parse_magnitude(text, 1) {
            Some(magnitude) => {
                if magnitude == 0x8000_0000_0000_0000 {
                    Some(i64::MIN)
                } else {
                    Some(-(magnitude as i64))
                }
            },
            None => None,
        }
    } else {
        assert(text@.skip(0) =~= text@);
        match parse_magnitude(text, 0) {
            Some(magnitude) => {
                if magnitude > 0x7fff_ffff_ffff_ffff {
                    None
                } else {
                    Some(magnitude as i64)
                }
            },
            None => None,
        }
    }
}

} // verus!
