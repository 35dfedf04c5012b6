//! Character-sequence utilities shared by the codec and the evaluators:
//! exact string equality, substring containment, ASCII-case-insensitive
//! comparison, and decimal rendering of integers.

use vstd::prelude::*;

verus! {

/// True when `c` is an ASCII decimal digit.
pub open spec fn is_dec_digit(c: char) -> bool {
    48 <= c as u32 && c as u32 <= 57
}

/// Numeric value of an ASCII decimal digit.
pub open spec fn dec_digit_val(c: char) -> int {
    c as u32 - 48
}

/// The character standing for decimal digit `d`.
pub open spec fn dec_digit_char(d: int) -> char {
    if d == 0 {
        '0'
    } else if d == 1 {
        '1'
    } else if d == 2 {
        '2'
    } else if d == 3 {
        '3'
    } else if d == 4 {
        '4'
    } else if d == 5 {
        '5'
    } else if d == 6 {
        '6'
    } else if d == 7 {
        '7'
    } else if d == 8 {
        '8'
    } else {
        '9'
    }
}

/// Decimal rendering of a non-negative integer, most significant digit first.
pub open spec fn dec_str_of(n: int) -> Seq<char>
    recommends
        n >= 0,
    decreases n,
{
    if n < 10 {
        seq![dec_digit_char(n)]
    } else {
        dec_str_of(n / 10).push(dec_digit_char(n % 10))
    }
}

/// Decimal rendering of a signed integer: a minus sign for negatives.
pub open spec fn i64_dec_str(n: int) -> Seq<char> {
    if n >= 0 {
        dec_str_of(n)
    } else {
        seq!['-'] + dec_str_of(-n)
    }
}

/// `t` occurs in `v` starting at position `i`.
pub open spec fn substring_at(v: Seq<char>, t: Seq<char>, i: int) -> bool {
    0 <= i && i + t.len() <= v.len() && v.subrange(i, i + t.len()) == t
}

/// `t` occurs somewhere in `v` as a contiguous substring.
pub open spec fn contains_seq(v: Seq<char>, t: Seq<char>) -> bool {
    exists|i: int| substring_at(v, t, i)
}

/// Character code after ASCII lower-casing: `A`..`Z` map to `a`..`z`,
/// everything else keeps its code.
pub open spec fn lower_code(c: char) -> u32 {
    if 65 <= c as u32 && c as u32 <= 90 {
        (c as u32 + 32) as u32
    } else {
        c as u32
    }
}

/// The two sequences are equal up to ASCII letter case.
pub open spec fn seq_lower_eq(a: Seq<char>, b: Seq<char>) -> bool {
    a.len() == b.len() && forall|i: int| 0 <= i < a.len() ==> lower_code(a[i]) == lower_code(b[i])
}

/// Relies on std's `String::push`: appends exactly one character at the end.
#[verifier::external_body]
pub fn push_char(s: &mut String, c: char)
    ensures
        final(s)@ == old(s)@.push(c),
{
    s.push(c);
}

/// Exact equality of two string slices, decided character by character.
pub fn str_eq(a: &str, b: &str) -> (r: bool)
    ensures
        r == (a@ == b@),
{
    let alen = a.unicode_len();
    let blen = b.unicode_len();
    if alen != blen {
        return false;
    }
    let mut i: usize = 0;
    while i < alen
        invariant
            i <= alen,
            alen == a@.len(),
            alen == b@.len(),
            forall|j: int| 0 <= j < i ==> a@[j] == b@[j],
        decreases alen - i,
    {
        let ca = a.get_char(i);
        let cb = b.get_char(i);
        if ca != cb {
            proof {
                assert(a@[i as int] != b@[i as int]);
            }
            return false;
        }
        i += 1;
    }
    proof {
        assert(a@ =~= b@);
    }
    true
}

/// Case-insensitive (ASCII only) equality of two string slices.
pub fn eq_ignore_ascii_case_str(a: &str, b: &str) -> (r: bool)
    ensures
        r == seq_lower_eq(a@, b@),
{
    let alen = a.unicode_len();
    let blen = b.unicode_len();
    if alen != blen {
        return false;
    }
    let mut i: usize = 0;
    while i < alen
        invariant
            i <= alen,
            alen == a@.len(),
            alen == b@.len(),
            forall|j: int| 0 <= j < i ==> lower_code(a@[j]) == lower_code(b@[j]),
        decreases alen - i,
    {
        let ca = a.get_char(i) as u32;
        let cb = b.get_char(i) as u32;
        let la = if 65 <= ca && ca <= 90 {
            ca + 32
        } else {
            ca
        };
        let lb = if 65 <= cb && cb <= 90 {
            cb + 32
        } else {
            cb
        };
        if la != lb {
            return false;
        }
        i += 1;
    }
    true
}

/// Decides whether `t` occurs in `v` as a contiguous substring
/// (case-sensitive), by direct search.
pub fn contains_str(v: &str, t: &str) -> (r: bool)
    ensures
        r == contains_seq(v@, t@),
{
    let vlen = v.unicode_len();
    let tlen = t.unicode_len();
    if tlen > vlen {
        proof {
            assert(forall|i: int| !substring_at(v@, t@, i));
        }
        return false;
    }
    if tlen == 0 {
        proof {
            assert(v@.subrange(0, 0) =~= t@);
            assert(substring_at(v@, t@, 0));
        }
        return true;
    }
    let mut i: usize = 0;
    while i <= vlen - tlen
        invariant
            1 <= tlen <= vlen,
            vlen == v@.len(),
            tlen == t@.len(),
            i <= vlen - tlen + 1,
            forall|j: int| 0 <= j < i ==> !substring_at(v@, t@, j),
        decreases vlen - tlen - i + 1,
    {
        let mut k: usize = 0;
        let mut mismatch = false;
        while k < tlen
            invariant
                tlen <= vlen,
                vlen == v@.len(),
                tlen == t@.len(),
                i + tlen <= vlen,
                k <= tlen,
                !mismatch ==> forall|m: int| 0 <= m < k ==> v@[i + m] == t@[m],
                mismatch ==> !substring_at(v@, t@, i as int),
            decreases tlen - k,
        {
            let cv = v.get_char(i + k);
            let ct = t.get_char(k);
            if cv != ct {
                proof {
                    assert(v@.subrange(i as int, i + t@.len())[k as int] != t@[k as int]);
                }
                mismatch = true;
                k = tlen;
            } else {
                k += 1;
            }
        }
        if !mismatch {
            proof {
                assert(v@.subrange(i as int, i + t@.len()) =~= t@);
                assert(substring_at(v@, t@, i as int));
            }
            return true;
        }
        i += 1;
    }
    proof {
        assert forall|j: int| !substring_at(v@, t@, j) by {
            if 0 <= j && j + t@.len() <= v@.len() {
                assert(j < i);
            }
        }
    }
    false
}

/// Renders a `u64` in decimal, most significant digit first.
pub fn u64_to_dec(n: u64) -> (r: String)
    ensures
        r@ == dec_str_of(n as int),
    decreases n,
{
    if n < 10 {
        let mut s = String::new();
        push_char(&mut s, dec_digit(n));
        proof {
            assert(s@ =~= dec_str_of(n as int));
        }
        s
    } else {
        let mut s = u64_to_dec(n / 10);
        push_char(&mut s, dec_digit(n % 10));
        s
    }
}

/// Renders an `i64` in decimal, with a leading minus sign when negative.
pub fn i64_to_dec(n: i64) -> (r: String)
    ensures
        r@ == i64_dec_str(n as int),
{
    if n >= 0 {
        u64_to_dec(n as u64)
    } else {
        let mut s = String::new();
        push_char(&mut s, '-');
        let mag: u64 = if n == i64::MIN {
            9223372036854775808u64
        } else {
            (-n) as u64
        };
        let tail = u64_to_dec(mag);
        s.append(tail.as_str());
        proof {
            assert(s@ =~= seq!['-'] + dec_str_of(-(n as int)));
        }
        s
    }
}

/// The character standing for decimal digit `d`.
fn dec_digit(d: u64) -> (c: char)
    requires
        d < 10,
    ensures
        c == dec_digit_char(d as int),
{
    if d == 0 {
        '0'
    } else if d == 1 {
        '1'
    } else if d == 2 {
        '2'
    } else if d == 3 {
        '3'
    } else if d == 4 {
        '4'
    } else if d == 5 {
        '5'
    } else if d == 6 {
        '6'
    } else if d == 7 {
        '7'
    } else if d == 8 {
        '8'
    } else {
        '9'
    }
}

} // verus!
