//! Base-10 signed integers as they are written in attribute values.

use vstd::prelude::*;

verus! {

/// Why a text is not an integer of the wanted width.
#[derive(Clone, Copy, Debug, PartialEq, Eq, Structural)]
pub enum IntegerFault {
    /// The text is empty.
    Empty,
    /// The text is not an optional sign followed by one or more decimal digits.
    InvalidDigit,
    /// The number is above the largest value of the type.
    PosOverflow,
    /// The number is below the smallest value of the type.
    NegOverflow,
}

/// An ASCII decimal digit.
pub open spec fn is_digit(b: u8) -> bool {
    0x30 <= b <= 0x39
}

/// An ASCII `+` or `-`.
pub open spec fn is_sign(b: u8) -> bool {
    b == 0x2b || b == 0x2d
}

/// Every byte of `s` is a decimal digit.
pub open spec fn all_digits(s: Seq<u8>) -> bool {
    forall|i: int| 0 <= i < s.len() ==> is_digit(#[trigger] s[i])
}

/// The number that a run of decimal digits denotes, most significant digit first.
pub open spec fn digits_value(s: Seq<u8>) -> int
    decreases s.len(),
{
    if s.len() == 0 {
        0
    } else {
        10 * digits_value(s.drop_last()) + (s.last() - 0x30)
    }
}

/// The text without its leading sign, if it has one.
pub open spec fn magnitude(s: Seq<u8>) -> Seq<u8> {
    if s.len() > 0 && is_sign(s[0]) {
        s.skip(1)
    } else {
        s
    }
}

/// The integer that `s` denotes: an optional `+` or `-`, then one or more decimal digits and
/// nothing else. `None` for every other text.
pub open spec fn decimal(s: Seq<u8>) -> Option<int> {
    let digits = magnitude(s);
    if digits.len() == 0 || !all_digits(digits) {
        None
    } else if s[0] == 0x2d {
        Some(-digits_value(digits))
    } else {
        Some(digits_value(digits))
    }
}

/// The integer that `s` denotes if it lies in `min ..= max`, and why there is none otherwise.
/// A text that is no decimal integer is `InvalidDigit` however large its digits would make it.
pub open spec fn integer_of(s: Seq<u8>, min: int, max: int) -> Result<int, IntegerFault> {
    if s.len() == 0 {
        Err(IntegerFault::Empty)
    } else {
        match decimal(s) {
            None => Err(IntegerFault::InvalidDigit),
            Some(v) => if v > max {
                Err(IntegerFault::PosOverflow)
            } else if v < min {
                Err(IntegerFault::NegOverflow)
            } else {
                Ok(v)
            },
        }
    }
}

/// One more digit multiplies the value by ten and adds the digit, so the value never shrinks.
proof fn lemma_digits_extend(s: Seq<u8>, from: int, to: int)
    requires
        0 <= from <= to < s.len(),
        all_digits(s.subrange(from, to + 1)),
    ensures
        all_digits(s.subrange(from, to)),
        digits_value(s.subrange(from, to + 1)) == 10 * digits_value(s.subrange(from, to)) + (s[to]
            - 0x30),
        0 <= digits_value(s.subrange(from, to)) <= digits_value(s.subrange(from, to + 1)),
    decreases to - from,
{
    let long = s.subrange(from, to + 1);
    let short = s.subrange(from, to);
    assert(long.drop_last() =~= short);
    assert(long.last() == s[to]);
    assert forall|i: int| 0 <= i < short.len() implies is_digit(#[trigger] short[i]) by {
        assert(short[i] == long[i]);
    }
    assert(is_digit(long[to - from]));
    if from < to {
        lemma_digits_extend(s, from, to - 1);
    } else {
        assert(short.len() == 0);
    }
}

/// Reads `s` as a decimal integer in `min ..= max`.
fn parse_bounded(s: &[u8], min: i64, max: i64) -> (r: Result<i64, IntegerFault>)
    requires
        -0x1_0000_0000 <= min <= 0 <= max <= 0x1_0000_0000,
    ensures
        match r {
            Ok(v) => integer_of(s@, min as int, max as int) == Ok::<int, IntegerFault>(v as int),
            Err(fault) => integer_of(s@, min as int, max as int) == Err::<int, IntegerFault>(
                fault,
            ),
        },
{
    if s.len() == 0 {
        return Err(IntegerFault::Empty);
    }
    let negative = s[0] == 0x2d;
    let start: usize = if s[0] == 0x2b || s[0] == 0x2d {
        1
    } else {
        0
    };
    let ghost digits = magnitude(s@);
    assert(digits =~= s@.subrange(start as int, s@.len() as int));
    if start == s.len() {
        return Err(IntegerFault::InvalidDigit);
    }
    let mut acc: i64 = 0;
    let mut beyond = false;
    let mut i: usize = start;
    assert(s@.subrange(start as int, start as int).len() == 0);
    while i < s.len()
        invariant
            start <= i <= s.len(),
            digits == magnitude(s@),
            digits == s@.subrange(start as int, s@.len() as int),
            all_digits(s@.subrange(start as int, i as int)),
            !beyond ==> acc == digits_value(s@.subrange(start as int, i as int)),
            0 <= acc <= 0x1_0000_0000,
            beyond ==> digits_value(s@.subrange(start as int, i as int)) > 0x1_0000_0000,
        decreases s.len() - i,
    {
        let b = s[i];
        if b < 0x30 || b > 0x39 {
            proof {
                let at = i as int - start as int;
                assert(digits[at] == b);
                assert(!is_digit(digits[at]));
            }
            return Err(IntegerFault::InvalidDigit);
        }
        proof {
            let longer = s@.subrange(start as int, i as int + 1);
            let shorter = s@.subrange(start as int, i as int);
            assert forall|j: int| 0 <= j < longer.len() implies is_digit(#[trigger] longer[j]) by {
                if j < shorter.len() {
                    assert(longer[j] == shorter[j]);
                }
            }
            lemma_digits_extend(s@, start as int, i as int);
        }
        if !beyond {
            let next: i64 = acc * 10 + (b - 0x30) as i64;
            if next > 0x1_0000_0000 {
                beyond = true;
            } else {
                acc = next;
            }
        }
        i += 1;
    }
    assert(s@.subrange(start as int, i as int) =~= digits);
    if negative {
        if beyond || -acc < min {
            Err(IntegerFault::NegOverflow)
        } else {
            Ok(-acc)
        }
    } else {
        if beyond || acc > max {
            Err(IntegerFault::PosOverflow)
        } else {
            Ok(acc)
        }
    }
}

/// Reads a 32-bit signed integer written in base 10.
pub fn parse_i32(s: &[u8]) -> (r: Result<i32, IntegerFault>)
    ensures
        match r {
            Ok(v) => integer_of(s@, i32::MIN as int, i32::MAX as int) == Ok::<int, IntegerFault>(
                v as int,
            ),
            Err(fault) => integer_of(s@, i32::MIN as int, i32::MAX as int) == Err::<
                int,
                IntegerFault,
            >(fault),
        },
{
    match parse_bounded(s, i32::MIN as i64, i32::MAX as i64) {
        Ok(v) => Ok(v as i32),
        Err(fault) => Err(fault),
    }
}

/// Reads a 16-bit signed integer written in base 10.
pub fn parse_i16(s: &[u8]) -> (r: Result<i16, IntegerFault>)
    ensures
        match r {
            Ok(v) => integer_of(s@, i16::MIN as int, i16::MAX as int) == Ok::<int, IntegerFault>(
                v as int,
            ),
            Err(fault) => integer_of(s@, i16::MIN as int, i16::MAX as int) == Err::<
                int,
                IntegerFault,
            >(fault),
        },
{
    match parse_bounded(s, i16::MIN as i64, i16::MAX as i64) {
        Ok(v) => Ok(v as i16),
        Err(fault) => Err(fault),
    }
}

} // verus!
