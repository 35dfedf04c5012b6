//! Numeric string parsing: Ethereum's `0x`-prefixed hex-encoded integers,
//! and the plain decimal strings used by the REST consensus payloads.
//! Both parsers are total: every input is either parsed exactly or refused
//! with the reason.

use vstd::prelude::*;
use crate::strutil::{dec_digit_char, dec_digit_val, dec_str_of, is_dec_digit};

verus! {

/// Why a numeric string was refused.
#[derive(Clone, Copy, Debug, PartialEq, Eq, Structural)]
pub enum ParseError {
    /// A character outside the expected digit alphabet, or no digits at all.
    NotHex,
    /// The digits are well-formed but the value exceeds the signed 64-bit range.
    Overflow,
}

/// True when `c` is a hexadecimal digit (either case).
pub open spec fn is_hex_digit(c: char) -> bool {
    is_dec_digit(c) || (97 <= c as u32 && c as u32 <= 102) || (65 <= c as u32 && c as u32 <= 70)
}

/// Numeric value of a hexadecimal digit.
pub open spec fn hex_digit_val(c: char) -> int {
    if is_dec_digit(c) {
        dec_digit_val(c)
    } else if 97 <= c as u32 && c as u32 <= 102 {
        c as u32 - 87
    } else {
        c as u32 - 55
    }
}

/// Every character of `s` is a hexadecimal digit.
pub open spec fn all_hex_digits(s: Seq<char>) -> bool {
    forall|i: int| 0 <= i < s.len() ==> is_hex_digit(s[i])
}

/// Every character of `s` is a decimal digit.
pub open spec fn all_dec_digits(s: Seq<char>) -> bool {
    forall|i: int| 0 <= i < s.len() ==> is_dec_digit(s[i])
}

/// The integer a hexadecimal digit string stands for, most significant first.
pub open spec fn hex_value_of(s: Seq<char>) -> int
    decreases s.len(),
{
    if s.len() == 0 {
        0
    } else {
        hex_value_of(s.drop_last()) * 16 + hex_digit_val(s.last())
    }
}

/// The integer a decimal digit string stands for, most significant first.
pub open spec fn dec_value_of(s: Seq<char>) -> int
    decreases s.len(),
{
    if s.len() == 0 {
        0
    } else {
        dec_value_of(s.drop_last()) * 10 + dec_digit_val(s.last())
    }
}

/// `s` without one leading `0x` or `0X`, when present.
pub open spec fn strip_hex_prefix(s: Seq<char>) -> Seq<char> {
    if s.len() >= 2 && s[0] == '0' && (s[1] == 'x' || s[1] == 'X') {
        s.subrange(2, s.len() as int)
    } else {
        s
    }
}

/// The outcome of hex parsing, stated as one total function: the exact
/// value of the stripped digit string, `NotHex` when a non-digit appears or
/// no digit is left, `Overflow` beyond the signed 64-bit range.
pub open spec fn spec_parse_hex(s: Seq<char>) -> Result<i64, ParseError> {
    let d = strip_hex_prefix(s);
    if d.len() == 0 || !all_hex_digits(d) {
        Err(ParseError::NotHex)
    } else if hex_value_of(d) > i64::MAX {
        Err(ParseError::Overflow)
    } else {
        Ok(hex_value_of(d) as i64)
    }
}

/// The outcome of decimal parsing, stated as one total function.
pub open spec fn spec_parse_dec(s: Seq<char>) -> Result<i64, ParseError> {
    if s.len() == 0 || !all_dec_digits(s) {
        Err(ParseError::NotHex)
    } else if dec_value_of(s) > i64::MAX {
        Err(ParseError::Overflow)
    } else {
        Ok(dec_value_of(s) as i64)
    }
}

/// Rendering a non-negative integer in decimal yields a non-empty digit
/// string that stands for exactly that integer: the decimal renderer and
/// the decimal parser agree on every value.
pub proof fn lemma_dec_render_parse_round_trip(n: int)
    requires
        n >= 0,
    ensures
        dec_str_of(n).len() > 0,
        forall|i: int| 0 <= i < dec_str_of(n).len() ==> is_dec_digit(dec_str_of(n)[i]),
        dec_value_of(dec_str_of(n)) == n,
    decreases n,
{
    if n < 10 {
        let s = dec_str_of(n);
        assert(s =~= seq![dec_digit_char(n)]);
        assert(s.drop_last() =~= Seq::<char>::empty());
        assert(s.last() == dec_digit_char(n));
        assert(dec_value_of(Seq::<char>::empty()) == 0);
        assert(dec_value_of(s) == dec_digit_val(dec_digit_char(n)));
        assert(is_dec_digit(dec_digit_char(n)) && dec_digit_val(dec_digit_char(n)) == n);
    } else {
        lemma_dec_render_parse_round_trip(n / 10);
        let s = dec_str_of(n / 10);
        let c = dec_digit_char(n % 10);
        assert(dec_str_of(n) == s.push(c));
        assert(s.push(c).drop_last() =~= s);
        assert(s.push(c).last() == c);
        assert(is_dec_digit(c) && dec_digit_val(c) == n % 10);
        assert(dec_value_of(s.push(c)) == dec_value_of(s) * 10 + dec_digit_val(c));
        assert(dec_value_of(s) * 10 + n % 10 == n) by (nonlinear_arith)
            requires
                dec_value_of(s) == n / 10,
                n >= 10,
        ;
        assert(forall|i: int| 0 <= i < s.push(c).len() ==> is_dec_digit(s.push(c)[i]));
    }
}

/// Parses an Ethereum hex-encoded integer string: an optional `0x`/`0X`
/// prefix followed by one or more hex digits. Returns the exact value,
/// `NotHex` when a non-digit appears or no digit is left after the prefix,
/// and `Overflow` when the value exceeds the signed 64-bit range.
pub fn parse_hex(s: &str) -> (r: Result<i64, ParseError>)
    ensures
        r == spec_parse_hex(s@),
        r matches Ok(v) ==> v == hex_value_of(strip_hex_prefix(s@)) && v >= 0,
{
    let len = s.unicode_len();
    let off: usize = if len >= 2 && s.get_char(0) == '0' && (s.get_char(1) == 'x' || s.get_char(
        1,
    ) == 'X') {
        2
    } else {
        0
    };
    let ghost d = strip_hex_prefix(s@);
    proof {
        assert(d =~= s@.subrange(off as int, len as int));
    }
    if len - off == 0 {
        return Err(ParseError::NotHex);
    }
    let mut acc: i64 = 0;
    let mut overflowed = false;
    let mut j: usize = 0;
    while j < len - off
        invariant
            off + j <= len,
            len == s@.len(),
            off == 0 || off == 2,
            d == strip_hex_prefix(s@),
            d == s@.subrange(off as int, len as int),
            all_hex_digits(d.subrange(0, j as int)),
            !overflowed ==> 0 <= acc == hex_value_of(d.subrange(0, j as int)),
            overflowed ==> hex_value_of(d.subrange(0, j as int)) > i64::MAX,
            overflowed ==> all_hex_digits(d.subrange(0, j as int)),
        decreases len - off - j,
    {
        let c = s.get_char(off + j) as u32;
        let hex_ok = (48 <= c && c <= 57) || (97 <= c && c <= 102) || (65 <= c && c <= 70);
        if !hex_ok {
            proof {
                assert(!is_hex_digit(d[j as int]));
                assert(0 <= j < d.len());
                assert(!all_hex_digits(d));
            }
            return Err(ParseError::NotHex);
        }
        let dv: i64 = if 48 <= c && c <= 57 {
            (c - 48) as i64
        } else if 97 <= c && c <= 102 {
            (c - 87) as i64
        } else {
            (c - 55) as i64
        };
        proof {
            assert(is_hex_digit(d[j as int]));
            assert(dv == hex_digit_val(d[j as int]));
            assert(d.subrange(0, j + 1).drop_last() =~= d.subrange(0, j as int));
            assert(d.subrange(0, j + 1).last() == d[j as int]);
            assert(all_hex_digits(d.subrange(0, j + 1)));
        }
        if !overflowed {
            if acc > (i64::MAX - dv) / 16 {
                overflowed = true;
                proof {
                    assert(acc * 16 + dv > i64::MAX) by (nonlinear_arith)
                        requires
                            acc > (i64::MAX - dv) / 16,
                            0 <= dv < 16,
                            acc >= 0,
                    ;
                }
            } else {
                proof {
                    assert(acc * 16 + dv <= i64::MAX) by (nonlinear_arith)
                        requires
                            acc <= (i64::MAX - dv) / 16,
                            0 <= dv < 16,
                            acc >= 0,
                    ;
                }
                acc = acc * 16 + dv;
            }
        } else {
            proof {
                let prev = hex_value_of(d.subrange(0, j as int));
                assert(hex_value_of(d.subrange(0, j + 1)) == prev * 16 + hex_digit_val(
                    d[j as int],
                ));
                assert(prev * 16 >= prev) by (nonlinear_arith)
                    requires
                        prev >= 0,
                ;
            }
        }
        j += 1;
    }
    proof {
        assert(d.subrange(0, j as int) =~= d);
    }
    if overflowed {
        Err(ParseError::Overflow)
    } else {
        Ok(acc)
    }
}

/// Parses a plain decimal integer string (one or more digits, no sign).
/// Returns the exact value, `NotHex` when a non-digit appears or the string
/// is empty, and `Overflow` when the value exceeds the signed 64-bit range.
pub fn parse_dec(s: &str) -> (r: Result<i64, ParseError>)
    ensures
        r == spec_parse_dec(s@),
        r matches Ok(v) ==> v == dec_value_of(s@) && v >= 0,
{
    let len = s.unicode_len();
    if len == 0 {
        return Err(ParseError::NotHex);
    }
    let mut acc: i64 = 0;
    let mut overflowed = false;
    let mut j: usize = 0;
    while j < len
        invariant
            j <= len,
            len == s@.len(),
            all_dec_digits(s@.subrange(0, j as int)),
            !overflowed ==> 0 <= acc == dec_value_of(s@.subrange(0, j as int)),
            overflowed ==> dec_value_of(s@.subrange(0, j as int)) > i64::MAX,
            overflowed ==> all_dec_digits(s@.subrange(0, j as int)),
        decreases len - j,
    {
        let c = s.get_char(j) as u32;
        if !(48 <= c && c <= 57) {
            proof {
                assert(!is_dec_digit(s@[j as int]));
                assert(!all_dec_digits(s@));
            }
            return Err(ParseError::NotHex);
        }
        let dv: i64 = (c - 48) as i64;
        proof {
            assert(is_dec_digit(s@[j as int]));
            assert(dv == dec_digit_val(s@[j as int]));
            assert(s@.subrange(0, j + 1).drop_last() =~= s@.subrange(0, j as int));
            assert(s@.subrange(0, j + 1).last() == s@[j as int]);
            assert(all_dec_digits(s@.subrange(0, j + 1)));
        }
        if !overflowed {
            if acc > (i64::MAX - dv) / 10 {
                overflowed = true;
                proof {
                    assert(acc * 10 + dv > i64::MAX) by (nonlinear_arith)
                        requires
                            acc > (i64::MAX - dv) / 10,
                            0 <= dv < 10,
                            acc >= 0,
                    ;
                }
            } else {
                proof {
                    assert(acc * 10 + dv <= i64::MAX) by (nonlinear_arith)
                        requires
                            acc <= (i64::MAX - dv) / 10,
                            0 <= dv < 10,
                            acc >= 0,
                    ;
                }
                acc = acc * 10 + dv;
            }
        } else {
            proof {
                let prev = dec_value_of(s@.subrange(0, j as int));
                assert(dec_value_of(s@.subrange(0, j + 1)) == prev * 10 + dec_digit_val(
                    s@[j as int],
                ));
                assert(prev * 10 >= prev) by (nonlinear_arith)
                    requires
                        prev >= 0,
                ;
            }
        }
        j += 1;
    }
    proof {
        assert(s@.subrange(0, j as int) =~= s@);
    }
    if overflowed {
        Err(ParseError::Overflow)
    } else {
        Ok(acc)
    }
}

} // verus!
