//! Results: fallible operations whose success and every failure are pinned
//! to the input, built around a decimal integer parser.

use vstd::prelude::*;

verus! {

/// Why a string failed to parse as an integer.
#[derive(Clone, Copy, Debug, PartialEq, Eq, Structural)]
pub enum ParseIntError {
    /// The string was empty.
    Empty,
    /// A character other than a digit (or a lone minus sign) appeared.
    InvalidDigit,
    /// The number is above the largest representable value.
    PosOverflow,
    /// The number is below the smallest representable value.
    NegOverflow,
}

/// Whether the character is a decimal digit.
pub open spec fn is_digit_char(c: char) -> bool {
    '0' <= c <= '9'
}

/// The numeric value of a digit character.
pub open spec fn digit_value(c: char) -> int {
    c as int - '0' as int
}

/// Whether every character of the sequence is a decimal digit.
pub open spec fn all_digits(s: Seq<char>) -> bool {
    forall|i: int| 0 <= i < s.len() ==> is_digit_char(s[i])
}

/// Whether the string spells an integer: an optional plus or minus sign
/// followed by at least one digit.
pub open spec fn is_int_string(s: Seq<char>) -> bool {
    if s.len() > 0 && (s[0] == '-' || s[0] == '+') {
        s.len() >= 2 && all_digits(s.subrange(1, s.len() as int))
    } else {
        s.len() >= 1 && all_digits(s)
    }
}

/// The magnitude a sequence of digits spells, most significant first.
pub open spec fn digits_value(s: Seq<char>) -> int
    decreases s.len(),
{
    if s.len() == 0 {
        0
    } else {
        digits_value(s.drop_last()) * 10 + digit_value(s.last())
    }
}

/// The integer an integer string spells, sign included.
pub open spec fn int_string_value(s: Seq<char>) -> int {
    if s.len() > 0 && s[0] == '-' {
        -digits_value(s.subrange(1, s.len() as int))
    } else if s.len() > 0 && s[0] == '+' {
        digits_value(s.subrange(1, s.len() as int))
    } else {
        digits_value(s)
    }
}

/// The parse of a string: its value when it spells an integer in range,
/// nothing otherwise.
pub open spec fn spec_parse_i32(s: Seq<char>) -> Option<int> {
    if is_int_string(s) && i32::MIN <= int_string_value(s) <= i32::MAX {
        Some(int_string_value(s))
    } else {
        None
    }
}

/// The error a failed parse reports, by the reason it failed.
pub open spec fn spec_parse_error(s: Seq<char>) -> ParseIntError {
    if s.len() == 0 {
        ParseIntError::Empty
    } else if !is_int_string(s) {
        ParseIntError::InvalidDigit
    } else if int_string_value(s) > i32::MAX {
        ParseIntError::PosOverflow
    } else {
        ParseIntError::NegOverflow
    }
}

/// A digit string spells a non-negative value.
proof fn lemma_digits_value_nonneg(s: Seq<char>)
    requires
        all_digits(s),
    ensures
        digits_value(s) >= 0,
    decreases s.len(),
{
    if s.len() > 0 {
        assert(all_digits(s.drop_last()));
        lemma_digits_value_nonneg(s.drop_last());
    }
}

/// Parses a decimal integer, reporting exactly why any input is rejected.
pub fn parse_i32(s: &str) -> (r: Result<i32, ParseIntError>)
    ensures
        spec_parse_i32(s@) matches Some(n) ==> r == Ok::<i32, ParseIntError>(n as i32),
        spec_parse_i32(s@) is None ==> r == Err::<i32, ParseIntError>(spec_parse_error(s@)),
{
    let len = s.unicode_len();
    if len == 0 {
        return Err(ParseIntError::Empty);
    }

    let first = s.get_char(0);
    let negative = first == '-';
    let signed = negative || first == '+';
    let start: usize = if signed {
        1
    } else {
        0
    };
    let ghost digits = s@.subrange(start as int, s@.len() as int);

    if signed && len == 1 {
        return Err(ParseIntError::InvalidDigit);
    }

    let mut magnitude: u64 = 0;
    let mut too_big = false;
    let mut i: usize = start;
    while i < len
        invariant
            start <= i <= len,
            len == s@.len(),
            negative == (s@[0] == '-'),
            signed == (s@[0] == '-' || s@[0] == '+'),
            start == if signed { 1int } else { 0int },
            len >= start + 1,
            digits == s@.subrange(start as int, s@.len() as int),
            all_digits(s@.subrange(start as int, i as int)),
            !too_big ==> {
                &&& magnitude == digits_value(s@.subrange(start as int, i as int))
                &&& magnitude <= u32::MAX
            },
            too_big ==> digits_value(s@.subrange(start as int, i as int)) > u32::MAX,
        decreases len - i,
    {
        let c = s.get_char(i);
        if !(c >= '0' && c <= '9') {
            proof {
                let j = i as int;
                assert(!is_digit_char(s@[j]));
                if signed {
                    assert(s@.subrange(1, len as int)[j - 1] == s@[j]);
                } else {
                    assert(s@[0] != '-' && s@[0] != '+');
                }
                assert(!is_int_string(s@));
            }
            return Err(ParseIntError::InvalidDigit);
        }
        let d = (c as u32) - ('0' as u32);

        proof {
            assert(s@.subrange(start as int, i + 1 as int).drop_last() =~= s@.subrange(
                start as int,
                i as int,
            ));
            if too_big {
                lemma_digits_value_nonneg(s@.subrange(start as int, i as int));
            }
        }

        if !too_big {
            let next_magnitude = magnitude * 10 + (d as u64);
            if next_magnitude > u32::MAX as u64 {
                too_big = true;
            } else {
                magnitude = next_magnitude;
            }
            proof {
                if too_big {
                    assert(digits_value(s@.subrange(start as int, i + 1 as int)) == next_magnitude);
                }
            }
        }
        i = i + 1;
    }

    proof {
        if !signed {
            assert(s@.subrange(0, len as int) =~= s@);
        }
        assert(is_int_string(s@));
    }

    if negative {
        if too_big || magnitude > 0x8000_0000u64 {
            proof {
                if too_big {
                    lemma_digits_value_nonneg(digits);
                }
            }
            Err(ParseIntError::NegOverflow)
        } else if magnitude == 0x8000_0000u64 {
            Ok(i32::MIN)
        } else {
            Ok(-(magnitude as i32))
        }
    } else {
        if too_big || magnitude > i32::MAX as u64 {
            Err(ParseIntError::PosOverflow)
        } else {
            Ok(magnitude as i32)
        }
    }
}

/// Parses both strings and multiplies them; fails with the first parse
/// error, and the caller guarantees a representable product when both
/// strings parse.
pub fn multiply(n1_str: &str, n2_str: &str) -> (r: Result<i32, ParseIntError>)
    requires
        (spec_parse_i32(n1_str@) is Some && spec_parse_i32(n2_str@) is Some) ==> i32::MIN
            <= spec_parse_i32(n1_str@).unwrap() * spec_parse_i32(n2_str@).unwrap() <= i32::MAX,
    ensures
        (spec_parse_i32(n1_str@) is Some && spec_parse_i32(n2_str@) is Some) ==> r == Ok::<
            i32,
            ParseIntError,
        >((spec_parse_i32(n1_str@).unwrap() * spec_parse_i32(n2_str@).unwrap()) as i32),
        spec_parse_i32(n1_str@) is None ==> r == Err::<i32, ParseIntError>(
            spec_parse_error(n1_str@),
        ),
        (spec_parse_i32(n1_str@) is Some && spec_parse_i32(n2_str@) is None) ==> r == Err::<
            i32,
            ParseIntError,
        >(spec_parse_error(n2_str@)),
{
    let n1 = parse_i32(n1_str)?;
    let n2 = parse_i32(n2_str)?;
    Ok(n1 * n2)
}

/// Parses the string and adds two; the caller guarantees the sum fits.
pub fn add_two_map(n_str: &str) -> (r: Result<i32, ParseIntError>)
    requires
        spec_parse_i32(n_str@) matches Some(n) ==> n + 2 <= i32::MAX,
    ensures
        spec_parse_i32(n_str@) matches Some(n) ==> r == Ok::<i32, ParseIntError>((n + 2) as i32),
        spec_parse_i32(n_str@) is None ==> r == Err::<i32, ParseIntError>(spec_parse_error(n_str@)),
{
    match parse_i32(n_str) {
        Ok(n) => Ok(n + 2),
        Err(e) => Err(e),
    }
}

/// Like `add_two_map`, flowing the parsed value into a second fallible
/// step instead of mapping over it.
pub fn add_two_and_then(n_str: &str) -> (r: Result<i32, ParseIntError>)
    requires
        spec_parse_i32(n_str@) matches Some(n) ==> n + 2 <= i32::MAX,
    ensures
        spec_parse_i32(n_str@) matches Some(n) ==> r == Ok::<i32, ParseIntError>((n + 2) as i32),
        spec_parse_i32(n_str@) is None ==> r == Err::<i32, ParseIntError>(spec_parse_error(n_str@)),
{
    let n = parse_i32(n_str)?;
    Ok(n + 2)
}

} // verus!
