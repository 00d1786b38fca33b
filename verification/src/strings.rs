//! String helpers shared by the rest of the crate: contracts for the two
//! `std` string operations that vstd leaves unspecified, and verified
//! ASCII utilities built on top of them.

use vstd::prelude::*;

verus! {

/// Relies on `String::push`: appends the character at the end of the string.
pub assume_specification[ String::push ](s: &mut String, ch: char)
    ensures
        final(s)@ == old(s)@.push(ch),
;

/// Relies on `<str as PartialEq>::eq`: two string slices are equal exactly
/// when their character sequences are equal.
pub assume_specification[ <str as PartialEq<str>>::eq ](a: &str, b: &str) -> (r: bool)
    ensures
        r == (a@ == b@),
;

/// Equality of two string slices, with its meaning visible to callers.
pub fn str_eq(a: &str, b: &str) -> (r: bool)
    ensures
        r == (a@ == b@),
{
    a.eq(b)
}

/// The ASCII-lowercase counterpart of a character: uppercase ASCII letters
/// map to lowercase, everything else is unchanged.
pub open spec fn lower_char(c: char) -> char {
    if 'A' <= c && c <= 'Z' {
        ((c as u8) + 32) as char
    } else {
        c
    }
}

/// A character sequence mapped to ASCII lowercase.
pub open spec fn lower_chars(s: Seq<char>) -> Seq<char> {
    s.map_values(|c: char| lower_char(c))
}

/// ASCII-case-insensitive comparison of two string slices: equality after
/// mapping uppercase ASCII letters to lowercase.
pub fn eq_ignore_case(a: &str, b: &str) -> (r: bool)
    ensures
        r == (lower_chars(a@) == lower_chars(b@)),
{
    let a_len = a.unicode_len();
    let b_len = b.unicode_len();
    if a_len != b_len {
        proof {
            assert(lower_chars(a@).len() != lower_chars(b@).len());
        }
        return false;
    }
    let mut i: usize = 0;
    while i < a_len
        invariant
            a_len == a@.len(),
            b_len == b@.len(),
            a_len == b_len,
            i <= a_len,
            forall|j: int| 0 <= j < i ==> lower_chars(a@)[j] == lower_chars(b@)[j],
        decreases a_len - i,
    {
        let ca = lower_ascii(a.get_char(i));
        let cb = lower_ascii(b.get_char(i));
        if ca != cb {
            proof {
                assert(lower_chars(a@)[i as int] != lower_chars(b@)[i as int]);
            }
            return false;
        }
        i = i + 1;
    }
    proof {
        assert(lower_chars(a@) =~= lower_chars(b@));
    }
    true
}

/// ASCII-lowercases one character.
pub fn lower_ascii(c: char) -> (r: char)
    ensures
        r == lower_char(c),
{
    if 'A' <= c && c <= 'Z' {
        ((c as u8) + 32) as char
    } else {
        c
    }
}

/// The decimal digit character for a value below ten.
pub open spec fn dec_digit(n: int) -> char {
    ((n + 48) as u8) as char
}

/// The decimal notation of a non-negative integer, most significant
/// digit first.
pub open spec fn dec_chars(n: int) -> Seq<char>
    decreases n,
{
    if n < 10 {
        seq![dec_digit(n)]
    } else {
        dec_chars(n / 10).push(dec_digit(n % 10))
    }
}

/// Formats an integer in decimal notation.
pub fn u64_to_string(n: u64) -> (r: String)
    ensures
        r@ == dec_chars(n as int),
{
    let mut digits: Vec<char> = Vec::new();
    let mut rest: u64 = n;
    loop
        invariant_except_break
            dec_chars(n as int) =~= dec_chars(rest as int) + digits@,
        ensures
            digits@ =~= dec_chars(n as int),
        decreases rest,
    {
        let ghost pre = digits@;
        let ghost rest_pre = rest as int;
        let d: u64 = rest % 10;
        let c: char = ((d as u8) + 48) as char;
        digits.insert(0, c);
        proof {
            assert(digits@ =~= seq![dec_digit(d as int)] + pre);
        }
        rest = rest / 10;
        if rest == 0 {
            proof {
                assert(dec_chars(rest_pre) =~= seq![dec_digit(d as int)]);
            }
            break;
        }
        proof {
            assert(dec_chars(rest_pre) =~= dec_chars(rest as int) + seq![dec_digit(d as int)]);
            assert(dec_chars(n as int) =~= dec_chars(rest as int) + digits@);
        }
    }
    let mut out = String::new();
    let mut i: usize = 0;
    while i < digits.len()
        invariant
            i <= digits@.len(),
            out@ =~= digits@.subrange(0, i as int),
        decreases digits@.len() - i,
    {
        out.push(digits[i]);
        i = i + 1;
    }
    proof {
        assert(out@ =~= digits@);
    }
    out
}

} // verus!
