//! Typed field values scanned from raw byte tokens: unsigned digit strings,
//! the 0/1-encoded booleans, and exact decimal coordinates.

use vstd::prelude::*;

use crate::rows::first_at;
use crate::rows::lemma_first_at_is;

verus! {

/// The minus sign.
pub const MINUS: u8 = 45;

/// The plus sign.
pub const PLUS: u8 = 43;

/// The decimal point.
pub const DOT: u8 = 46;

/// An exact decimal number as written in a token. The value it denotes is
/// `mantissa / 10^scale`, negated when `negative` is set. `"40.7128"` scans
/// to mantissa `407128` with scale `4`; `"-93.0"` to mantissa `930`, scale
/// `1`, negative.
#[derive(Clone, Copy, Debug, PartialEq, Eq, Structural)]
pub struct Decimal {
    pub negative: bool,
    pub mantissa: u64,
    pub scale: usize,
}

/// True for the ASCII digits `'0'` through `'9'`.
pub open spec fn is_digit(b: u8) -> bool {
    48 <= b <= 57
}

pub open spec fn digit_value(b: u8) -> nat
    recommends
        is_digit(b),
{
    (b - 48) as nat
}

pub open spec fn all_digits(s: Seq<u8>) -> bool {
    forall|i: int| 0 <= i < s.len() ==> is_digit(#[trigger] s[i])
}

/// The number denoted by a string of ASCII digits, most significant first.
pub open spec fn digits_value(s: Seq<u8>) -> nat
    recommends
        all_digits(s),
    decreases s.len(),
{
    if s.len() == 0 {
        0
    } else {
        digits_value(s.drop_last()) * 10 + digit_value(s.last())
    }
}

/// Appending one digit multiplies the value by ten and adds that digit.
pub proof fn lemma_digits_value_step(s: Seq<u8>, m: int)
    requires
        0 <= m < s.len(),
    ensures
        digits_value(s.take(m + 1)) == digits_value(s.take(m)) * 10 + digit_value(s[m]),
{
    assert(s.take(m + 1).drop_last() =~= s.take(m));
    assert(s.take(m + 1).last() == s[m]);
}

/// A digit string is worth at least any of its prefixes.
pub proof fn lemma_digits_value_prefix(s: Seq<u8>, m: int)
    requires
        0 <= m <= s.len(),
    ensures
        digits_value(s.take(m)) <= digits_value(s),
    decreases s.len() - m,
{
    if m == s.len() {
        assert(s.take(m) =~= s);
    } else {
        lemma_digits_value_step(s, m);
        lemma_digits_value_prefix(s, m + 1);
    }
}

/// Reads a token as an unsigned digit string. Returns the denoted number,
/// or `None` when some byte is not a digit or the number does not fit.
pub fn fold_digits(v: &Vec<u8>) -> (r: Option<u64>)
    ensures
        match r {
            Some(n) => all_digits(v@) && n == digits_value(v@),
            None => !all_digits(v@) || digits_value(v@) > u64::MAX,
        },
{
    let mut acc: u128 = 0;
    let mut i: usize = 0;
    while i < v.len()
        invariant
            0 <= i <= v.len(),
            all_digits(v@.take(i as int)),
            acc == digits_value(v@.take(i as int)),
            acc <= u64::MAX,
        decreases v.len() - i,
    {
        let b = v[i];
        if b < 48 || b > 57 {
            return None;
        }
        proof {
            lemma_digits_value_step(v@, i as int);
            assert(v@.take(i as int).push(v@[i as int]) =~= v@.take(i as int + 1));
        }
        let next: u128 = acc * 10 + (b - 48) as u128;
        if next > u64::MAX as u128 {
            proof {
                lemma_digits_value_prefix(v@, i as int + 1);
            }
            return None;
        }
        acc = next;
        i = i + 1;
    }
    proof {
        assert(v@.take(v@.len() as int) =~= v@);
    }
    Some(acc as u64)
}

/// What a boolean token denotes: the digits of an unsigned integer whose
/// value is `0` (false) or `1` (true). Any other token denotes nothing.
pub open spec fn bool_token(s: Seq<u8>) -> Option<bool> {
    if s.len() >= 1 && all_digits(s) && digits_value(s) == 0 {
        Some(false)
    } else if s.len() >= 1 && all_digits(s) && digits_value(s) == 1 {
        Some(true)
    } else {
        None
    }
}

/// Reads a 0/1-encoded boolean token. Out-of-domain tokens, the empty
/// token and non-numeric text yield `None`, never a panic.
pub fn parse_bool(v: &Vec<u8>) -> (r: Option<bool>)
    ensures
        r == bool_token(v@),
{
    if v.len() == 0 {
        return None;
    }
    match fold_digits(v) {
        None => None,
        Some(n) => {
            if n == 0 {
                Some(false)
            } else if n == 1 {
                Some(true)
            } else {
                None
            }
        },
    }
}

/// Whether a decimal token denotes a negative number: it starts with `'-'`.
pub open spec fn decimal_negative(s: Seq<u8>) -> bool {
    s.len() >= 1 && s[0] == MINUS
}

/// A decimal token with its one leading sign, if any, removed.
pub open spec fn decimal_body(s: Seq<u8>) -> Seq<u8> {
    if s.len() >= 1 && (s[0] == MINUS || s[0] == PLUS) {
        s.drop_first()
    } else {
        s
    }
}

/// The digit characters of a decimal token: its body with the first decimal
/// point, if any, removed. A second point, or any other stray byte, stays
/// and makes the token invalid.
pub open spec fn decimal_digits(s: Seq<u8>) -> Seq<u8> {
    let body = decimal_body(s);
    let dot = first_at(body, DOT);
    if dot == body.len() {
        body
    } else {
        body.take(dot) + body.skip(dot + 1)
    }
}

/// How many digit positions of a decimal token follow its decimal point.
pub open spec fn decimal_scale(s: Seq<u8>) -> int {
    let body = decimal_body(s);
    let dot = first_at(body, DOT);
    if dot == body.len() {
        0
    } else {
        body.len() - dot - 1
    }
}

/// What a decimal token denotes: an optional sign, then at least one digit
/// with at most one decimal point among the digits. Tokens with any other
/// byte, the empty token, and mantissas beyond `u64` denote nothing.
pub open spec fn decimal_token(s: Seq<u8>) -> Option<Decimal> {
    let digits = decimal_digits(s);
    if all_digits(digits) && digits.len() >= 1 && digits_value(digits) <= u64::MAX
        && decimal_scale(s) <= usize::MAX {
        Some(
            Decimal {
                negative: decimal_negative(s),
                mantissa: digits_value(digits) as u64,
                scale: decimal_scale(s) as usize,
            },
        )
    } else {
        None
    }
}

/// Reads a decimal token, such as `"40.7128"` or `"-93.0"`. Malformed and
/// empty tokens yield `None`, never a panic.
pub fn parse_decimal(v: &Vec<u8>) -> (r: Option<Decimal>)
    ensures
        r == decimal_token(v@),
{
    let start: usize = if v.len() >= 1 && (v[0] == MINUS || v[0] == PLUS) {
        1
    } else {
        0
    };
    let negative = v.len() >= 1 && v[0] == MINUS;
    proof {
        assert(decimal_body(v@) =~= v@.skip(start as int));
    }
    let ghost body = v@.skip(start as int);

    let mut dot: usize = start;
    while dot < v.len() && v[dot] != DOT
        invariant
            start <= dot <= v.len(),
            forall|k: int| start <= k < dot ==> v@[k] != DOT,
        decreases v.len() - dot,
    {
        dot = dot + 1;
    }
    proof {
        assert forall|i: int| 0 <= i < dot - start implies body[i] != DOT by {
            assert(body[i] == v@[start + i]);
        }
        lemma_first_at_is(body, DOT, dot - start as int);
    }

    let mut digits: Vec<u8> = Vec::new();
    let mut i: usize = start;
    while i < v.len()
        invariant
            start <= i <= v.len(),
            start <= dot,
            i <= dot ==> digits@ == v@.subrange(start as int, i as int),
            i > dot ==> digits@ == v@.subrange(start as int, dot as int) + v@.subrange(
                dot as int + 1,
                i as int,
            ),
        decreases v.len() - i,
    {
        if i != dot {
            digits.push(v[i]);
        }
        proof {
            if i < dot {
                assert(v@.subrange(start as int, i as int).push(v@[i as int]) =~= v@.subrange(
                    start as int,
                    i as int + 1,
                ));
            } else if i == dot {
                assert(v@.subrange(dot as int + 1, i as int + 1) =~= Seq::<u8>::empty());
                assert(digits@ =~= v@.subrange(start as int, dot as int) + v@.subrange(
                    dot as int + 1,
                    i as int + 1,
                ));
            } else {
                assert((v@.subrange(start as int, dot as int) + v@.subrange(
                    dot as int + 1,
                    i as int,
                )).push(v@[i as int]) =~= v@.subrange(start as int, dot as int) + v@.subrange(
                    dot as int + 1,
                    i as int + 1,
                ));
            }
        }
        i = i + 1;
    }
    proof {
        if dot == v.len() {
            assert(digits@ =~= decimal_digits(v@));
        } else {
            assert(body.take(dot - start as int) =~= v@.subrange(start as int, dot as int));
            assert(body.skip(dot - start as int + 1) =~= v@.subrange(
                dot as int + 1,
                v@.len() as int,
            ));
            assert(digits@ =~= decimal_digits(v@));
        }
    }

    if digits.len() == 0 {
        return None;
    }
    match fold_digits(&digits) {
        None => None,
        Some(mantissa) => {
            let scale: usize = if dot == v.len() {
                0
            } else {
                v.len() - dot - 1
            };
            Some(Decimal { negative, mantissa, scale })
        },
    }
}

} // verus!

