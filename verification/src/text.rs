//! Small operations on strings that the recognizers share: comparison against a
//! fixed name, building a string one character at a time, lossy decoding of the
//! bytes of a C string literal, and the value of a run of decimal digits.

use vstd::prelude::*;

verus! {

/// Whether two string slices hold the same characters.
pub fn str_eq(a: &str, b: &str) -> (r: bool)
    ensures
        r == (a@ == b@),
{
    a.to_owned() == b.to_owned()
}

/// Appends one character. Trusted: this is `String::push`, which leaves the
/// characters already present in place and adds `c` after them.
#[verifier::external_body]
pub(crate) fn push_char(s: &mut String, c: char)
    ensures
        final(s)@ == old(s)@.push(c),
{
    s.push(c)
}

/// The characters that lossy UTF-8 decoding gives for `bytes`: valid sequences
/// decode to their characters, each maximal invalid part to U+FFFD.
pub uninterp spec fn utf8_lossy(bytes: Seq<u8>) -> Seq<char>;

/// Decodes bytes as UTF-8, replacing what is not valid. Trusted: this is
/// `String::from_utf8_lossy`, whose result depends on the bytes alone.
#[verifier::external_body]
pub(crate) fn decode_utf8_lossy(bytes: &[u8]) -> (r: String)
    ensures
        r@ == utf8_lossy(bytes@),
{
    String::from_utf8_lossy(bytes).into_owned()
}

/// An owned copy of a fixed name.
pub fn owned(s: &str) -> (r: String)
    ensures
        r@ == s@,
{
    s.to_owned()
}

/// Whether `c` is one of the ten decimal digits.
pub open spec fn is_decimal_digit(c: char) -> bool {
    '0' <= c && c <= '9'
}

/// The number that a decimal digit stands for.
pub open spec fn digit_value(c: char) -> nat {
    (c as u32 - '0' as u32) as nat
}

/// Whether every character of `s` is a decimal digit.
pub open spec fn all_decimal_digits(s: Seq<char>) -> bool {
    forall|i: int| 0 <= i < s.len() ==> is_decimal_digit(#[trigger] s[i])
}

/// The number written by a run of decimal digits, most significant first.
pub open spec fn digits_value(s: Seq<char>) -> nat
    decreases s.len(),
{
    if s.len() == 0 {
        0
    } else {
        10 * digits_value(s.drop_last()) + digit_value(s.last())
    }
}

/// The number that `s` denotes as an unsigned decimal numeral: one or more
/// decimal digits and nothing else. Anything else (the empty string, a sign, a
/// separator, a letter) denotes no number.
pub open spec fn decimal_numeral(s: Seq<char>) -> Option<nat> {
    if s.len() > 0 && all_decimal_digits(s) {
        Some(digits_value(s))
    } else {
        None
    }
}

/// Reads an unsigned decimal numeral.
///
/// Returns the number when `s` is a decimal numeral whose value fits in 128
/// bits, and `None` in every other case.
pub fn parse_decimal(s: &str) -> (r: Option<u128>)
    ensures
        r == match decimal_numeral(s@) {
            Some(v) => if v <= u128::MAX { Some(v as u128) } else { None },
            None => None,
        },
{
    let mut acc: u128 = 0;
    let mut seen: bool = false;
    let mut valid: bool = true;
    let mut overflow: bool = false;
    for c in it: s.chars()
        invariant
            it.seq() == s@,
            seen == (it.index() > 0),
            valid == all_decimal_digits(s@.take(it.index() as int)),
            valid && !overflow ==> acc == digits_value(s@.take(it.index() as int)),
            valid && overflow ==> digits_value(s@.take(it.index() as int)) > u128::MAX,
    {
        let ghost n = it.index() as int;
        proof {
            assert(c == s@[n]);
            assert(s@.take(n + 1).drop_last() =~= s@.take(n));
            assert(s@.take(n + 1).last() == c);
            assert(all_decimal_digits(s@.take(n + 1)) == (all_decimal_digits(s@.take(n))
                && is_decimal_digit(c))) by {
                if all_decimal_digits(s@.take(n + 1)) {
                    assert(is_decimal_digit(s@.take(n + 1)[n]));
                    assert forall|i: int| 0 <= i < n implies is_decimal_digit(
                        #[trigger] s@.take(n)[i],
                    ) by {
                        assert(s@.take(n)[i] == s@.take(n + 1)[i]);
                    }
                }
                if all_decimal_digits(s@.take(n)) && is_decimal_digit(c) {
                    assert forall|i: int| 0 <= i < n + 1 implies is_decimal_digit(
                        #[trigger] s@.take(n + 1)[i],
                    ) by {
                        if i < n {
                            assert(s@.take(n)[i] == s@.take(n + 1)[i]);
                        }
                    }
                }
            }
        }
        seen = true;
        if c >= '0' && c <= '9' {
            let d: u128 = (c as u32 - '0' as u32) as u128;
            if !overflow {
                match acc.checked_mul(10) {
                    Some(m) => match m.checked_add(d) {
                        Some(v) => {
                            acc = v;
                        },
                        None => {
                            overflow = true;
                        },
                    },
                    None => {
                        overflow = true;
                    },
                }
            }
        } else {
            valid = false;
        }
    }
    proof {
        assert(s@.take(s@.len() as int) =~= s@);
    }
    if seen && valid && !overflow {
        Some(acc)
    } else {
        None
    }
}

} // verus!
