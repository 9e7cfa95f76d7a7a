//! Reference values: from a decimal number, as the source gives it, to the
//! feed's fixed-point representation.

use crate::text::{all_digits, digit, digits_value, is_digit};
use crate::uint::{fits_i256, lemma_u256_bounded, signed, two_pow_256, I256, U256};
use vstd::prelude::*;
use vstd::string::*;

verus! {

/// Why a decimal number has no fixed-point representation.
#[derive(Clone, Copy, Debug, PartialEq, Eq, Structural)]
pub enum FixedPointError {
    /// The text is not a decimal number: an optional sign, digits, and
    /// optionally a point and more digits.
    Malformed,
    /// The scaled number does not fit in 256 bits.
    OutOfRange,
}

/// Whether `text` begins with a sign.
pub open spec fn has_sign(text: Seq<char>) -> bool {
    text.len() > 0 && (text[0] == '-' || text[0] == '+')
}

/// `text` without its sign, if it has one.
pub open spec fn unsigned_part(text: Seq<char>) -> Seq<char> {
    if has_sign(text) {
        text.skip(1)
    } else {
        text
    }
}

/// The position of the first point in `s`, or the length of `s` if it has
/// none.
pub open spec fn point_position(s: Seq<char>) -> int
    decreases s.len(),
{
    if s.len() == 0 || s[0] == '.' {
        0
    } else {
        1 + point_position(s.drop_first())
    }
}

/// The digits before the point.
pub open spec fn whole_digits(text: Seq<char>) -> Seq<char> {
    let body = unsigned_part(text);
    body.take(point_position(body))
}

/// The digits after the point; none where there is no point.
pub open spec fn fraction_digits(text: Seq<char>) -> Seq<char> {
    let body = unsigned_part(text);
    if point_position(body) < body.len() {
        body.skip(point_position(body) + 1)
    } else {
        Seq::empty()
    }
}

/// Whether `text` is a decimal number: an optional sign, then digits with at
/// most one point among them, and at least one digit.
pub open spec fn is_decimal_number(text: Seq<char>) -> bool {
    &&& all_digits(whole_digits(text))
    &&& all_digits(fraction_digits(text))
    &&& whole_digits(text).len() + fraction_digits(text).len() > 0
}

/// The first `decimals` digits after the point, with zeros where the
/// number has fewer.
pub open spec fn scaled_fraction(fraction: Seq<char>, decimals: nat) -> Seq<char> {
    Seq::new(
        decimals,
        |i: int|
            if i < fraction.len() {
                fraction[i]
            } else {
                '0'
            },
    )
}

/// The decimal number `text` times ten to the power `decimals`, with what
/// remains after the point cut off.
pub open spec fn scaled_value(text: Seq<char>, decimals: nat) -> int {
    signed(
        text.len() > 0 && text[0] == '-',
        digits_value(whole_digits(text) + scaled_fraction(fraction_digits(text), decimals)),
    )
}

/// The fixed-point representation of the decimal number `text` with
/// `decimals` digits after the point, or why there is none.
pub open spec fn fixed_point(text: Seq<char>, decimals: nat) -> Result<int, FixedPointError> {
    if !is_decimal_number(text) {
        Err(FixedPointError::Malformed)
    } else if !fits_i256(scaled_value(text, decimals)) {
        Err(FixedPointError::OutOfRange)
    } else {
        Ok(scaled_value(text, decimals))
    }
}

/// The point of `s` is where the first point stands.
proof fn lemma_point_position(s: Seq<char>)
    ensures
        0 <= point_position(s) <= s.len(),
        point_position(s) < s.len() ==> s[point_position(s)] == '.',
        forall|i: int| 0 <= i < point_position(s) ==> #[trigger] s[i] != '.',
    decreases s.len(),
{
    if s.len() > 0 && s[0] != '.' {
        let rest = s.drop_first();
        lemma_point_position(rest);
        assert forall|i: int| 0 <= i < point_position(s) implies #[trigger] s[i] != '.' by {
            if i > 0 {
                assert(s[i] == rest[i - 1]);
            }
        }
    }
}

/// Where the first point of `s` stands, it is the point of `s`.
proof fn lemma_point_found(s: Seq<char>, at: int)
    requires
        0 <= at <= s.len(),
        at < s.len() ==> s[at] == '.',
        forall|i: int| 0 <= i < at ==> #[trigger] s[i] != '.',
    ensures
        point_position(s) == at,
{
    lemma_point_position(s);
    let p = point_position(s);
    if p < at {
        assert(s[p] != '.');
    }
}

/// `acc` with the digit `digit` added at its end, where that fits.
fn push_digit(acc: &U256, digit: char) -> (r: Option<U256>)
    requires
        is_digit(digit),
    ensures
        match r {
            Some(next) => next@ == acc@ * 10 + (digit as u32 - 0x30),
            None => acc@ * 10 + (digit as u32 - 0x30) >= two_pow_256(),
        },
{
    let value: u32 = digit as u32 - 0x30;
    let (high, low) = acc.mul_small(10);
    proof {
        lemma_u256_bounded(low);
    }
    if high != 0 {
        return None;
    }
    low.checked_add(&U256::from_u128(value as u128))
}

/// The fixed-point representation of the decimal number `text` with
/// `decimals` digits after the point: the number times ten to the power
/// `decimals`, as an integer. Digits beyond `decimals` places are cut off.
pub fn to_fixed_point(text: &str, decimals: u8) -> (r: Result<I256, FixedPointError>)
    ensures
        match fixed_point(text@, decimals as nat) {
            Ok(value) => r matches Ok(x) && x@ == value,
            Err(e) => r matches Err(x) && x == e,
        },
{
    let n: usize = text.unicode_len();
    let negative: bool = n > 0 && text.get_char(0) == '-';
    let start: usize = if n > 0 && (text.get_char(0) == '-' || text.get_char(0) == '+') {
        1
    } else {
        0
    };
    let ghost body = unsigned_part(text@);
    let ghost whole = whole_digits(text@);
    let ghost fraction = fraction_digits(text@);
    assert(body =~= text@.skip(start as int));
    // The digits before the point.
    let mut acc: U256 = U256::zero();
    let mut overflow: bool = false;
    let mut i: usize = start;
    while i < n && text.get_char(i) != '.'
        invariant
            start <= i <= n,
            n == text@.len(),
            body == text@.skip(start as int),
            whole == whole_digits(text@),
            body == unsigned_part(text@),
            forall|j: int| 0 <= j < i - start ==> #[trigger] body[j] != '.',
            all_digits(body.take(i - start)),
            !overflow ==> acc@ == digits_value(body.take(i - start)),
            overflow ==> digits_value(body.take(i - start)) >= two_pow_256(),
        decreases n - i,
    {
        let c: char = text.get_char(i);
        proof {
            assert(body[i - start] == c);
            assert(body.take(i - start + 1).drop_last() =~= body.take(i - start));
            assert(body.take(i - start + 1).last() == c);
        }
        if !digit(c) {
            proof {
                lemma_point_position(body);
                let p = point_position(body);
                if p < i - start {
                    assert(body[p] != '.');
                }
                assert(p > i - start);
                assert(whole[i - start] == c);
            }
            return Err(FixedPointError::Malformed);
        }
        if !overflow {
            match push_digit(&acc, c) {
                Some(next) => {
                    acc = next;
                },
                None => {
                    overflow = true;
                },
            }
        }
        i += 1;
    }
    let dot: usize = i;
    proof {
        lemma_point_found(body, dot - start);
        assert(whole =~= body.take(dot - start));
    }
    // The digits after the point: all of them have to be digits.
    let frac_start: usize = if dot < n {
        dot + 1
    } else {
        n
    };
    proof {
        if dot < n {
            assert(fraction =~= text@.skip(frac_start as int));
        } else {
            assert(fraction =~= text@.skip(frac_start as int));
        }
    }
    let mut k: usize = frac_start;
    while k < n
        invariant
            frac_start <= k <= n,
            n == text@.len(),
            fraction == text@.skip(frac_start as int),
            fraction == fraction_digits(text@),
            forall|j: int| 0 <= j < k - frac_start ==> is_digit(#[trigger] fraction[j]),
        decreases n - k,
    {
        let c: char = text.get_char(k);
        if !digit(c) {
            proof {
                assert(fraction[k - frac_start] == c);
            }
            return Err(FixedPointError::Malformed);
        }
        k += 1;
    }
    if dot - start + (n - frac_start) == 0 {
        return Err(FixedPointError::Malformed);
    }
    assert(is_decimal_number(text@));
    // The first `decimals` of them count, and zeros make up for those that
    // are missing.
    let ghost scaled = scaled_fraction(fraction, decimals as nat);
    let mut d: u8 = 0;
    proof {
        assert(whole + scaled.take(0) =~= whole);
    }
    while d < decimals
        invariant
            d <= decimals,
            n == text@.len(),
            frac_start <= n,
            fraction == text@.skip(frac_start as int),
            all_digits(fraction),
            scaled == scaled_fraction(fraction, decimals as nat),
            whole == whole_digits(text@),
            fraction == fraction_digits(text@),
            !overflow ==> acc@ == digits_value(whole + scaled.take(d as int)),
            overflow ==> digits_value(whole + scaled.take(d as int)) >= two_pow_256(),
        decreases decimals - d,
    {
        let c: char = if (d as usize) < n - frac_start {
            text.get_char(frac_start + d as usize)
        } else {
            '0'
        };
        proof {
            assert(scaled[d as int] == c);
            assert(is_digit(c));
            let longer = whole + scaled.take(d + 1);
            assert(longer.drop_last() =~= whole + scaled.take(d as int));
            assert(longer.last() == c);
        }
        if !overflow {
            match push_digit(&acc, c) {
                Some(next) => {
                    acc = next;
                },
                None => {
                    overflow = true;
                },
            }
        }
        d += 1;
    }
    proof {
        assert(scaled.take(decimals as int) =~= scaled);
    }
    if overflow {
        return Err(FixedPointError::OutOfRange);
    }
    match I256::from_sign_magnitude(negative, acc) {
        Some(value) => Ok(value),
        None => Err(FixedPointError::OutOfRange),
    }
}

} // verus!
