//! Character-level text utilities: conversion between `&str`/`String` and
//! `Vec<char>`, and decimal rendering of exit codes.

use vstd::prelude::*;
use vstd::std_specs::iter::IteratorSpec;
use vstd::string::StringExecFns;

verus! {

broadcast use vstd::string::group_string_axioms;

/// Collects the characters of a string slice, in order.
pub fn str_to_chars(s: &str) -> (r: Vec<char>)
    ensures
        r@ == s@,
{
    let mut it = s.chars();
    let mut r: Vec<char> = Vec::new();
    loop
        invariant
            it.obeys_prophetic_iter_laws(),
            it.decrease() is Some,
            r@ + it.remaining() == s@,
        ensures
            r@ == s@,
        decreases it.decrease()->0,
    {
        match it.next() {
            Some(c) => {
                r.push(c);
            },
            None => {
                proof {
                    assert(r@ + it.remaining() =~= r@);
                }
                break ;
            },
        }
    }
    r
}

/// Relies on `String: FromIterator<char>`: collecting characters yields the
/// string made of exactly those characters, in order.
#[verifier::external_body]
pub fn chars_to_string(v: &Vec<char>) -> (r: String)
    ensures
        r@ == v@,
{
    v.iter().collect()
}

/// Whether a character vector spells a literal, character for character.
pub fn chars_eq_str(v: &Vec<char>, lit: &str) -> (r: bool)
    ensures
        r == (v@ == lit@),
{
    let cs = str_to_chars(lit);
    if v.len() != cs.len() {
        return false;
    }
    let mut i: usize = 0;
    while i < v.len()
        invariant
            i <= v@.len(),
            v@.len() == cs@.len(),
            cs@ == lit@,
            forall|j: int| 0 <= j < i ==> v@[j] == cs@[j],
        decreases v@.len() - i,
    {
        if v[i] != cs[i] {
            return false;
        }
        i = i + 1;
    }
    proof {
        assert(v@ =~= lit@);
    }
    true
}

/// Whether a string equals a literal, character for character.
pub fn string_is(s: &String, lit: &str) -> (r: bool)
    ensures
        r == (s@ == lit@),
{
    s.eq(&String::from_str(lit))
}

/// Builds an owned string out of a literal prefix and a detail suffix.
pub fn concat_reason(prefix: &str, detail: &str) -> (r: String)
    ensures
        r@ == prefix@ + detail@,
{
    let mut out: Vec<char> = Vec::new();
    push_str_chars(&mut out, prefix);
    push_str_chars(&mut out, detail);
    chars_to_string(&out)
}

/// The decimal digits of `n`, most significant first.
pub open spec fn dec_digits(n: nat) -> Seq<char>
    decreases n,
{
    if n < 10 {
        seq![digit_char(n)]
    } else {
        dec_digits(n / 10).push(digit_char(n % 10))
    }
}

/// The character for a single decimal digit.
pub open spec fn digit_char(d: nat) -> char {
    ((d + 0x30) as u8) as char
}

/// The decimal rendering of a signed number: a minus sign for negative
/// values, then the digits.
pub open spec fn dec_int(n: int) -> Seq<char> {
    if n < 0 {
        seq!['-'] + dec_digits((-n) as nat)
    } else {
        dec_digits(n as nat)
    }
}

/// Appends the decimal digits of `n` to `out`.
pub fn push_dec_u64(out: &mut Vec<char>, n: u64)
    ensures
        final(out)@ == old(out)@ + dec_digits(n as nat),
    decreases n,
{
    if n < 10 {
        out.push((n as u8 + 0x30) as char);
    } else {
        push_dec_u64(out, n / 10);
        out.push(((n % 10) as u8 + 0x30) as char);
    }
}

/// Appends the decimal rendering of `n` to `out`.
pub fn push_dec_i64(out: &mut Vec<char>, n: i64)
    requires
        i32::MIN <= n <= i32::MAX,
    ensures
        final(out)@ == old(out)@ + dec_int(n as int),
{
    if n < 0 {
        out.push('-');
        push_dec_u64(out, (-n) as u64);
    } else {
        push_dec_u64(out, n as u64);
    }
}

/// Appends the characters of `s` to `out`.
pub fn push_str_chars(out: &mut Vec<char>, s: &str)
    ensures
        final(out)@ == old(out)@ + s@,
{
    let cs = str_to_chars(s);
    let mut i: usize = 0;
    while i < cs.len()
        invariant
            i <= cs@.len(),
            cs@ == s@,
            out@ == old(out)@ + cs@.subrange(0, i as int),
        decreases cs@.len() - i,
    {
        out.push(cs[i]);
        proof {
            assert(old(out)@ + cs@.subrange(0, i as int) + seq![cs@[i as int]] =~= old(out)@
                + cs@.subrange(0, i + 1));
        }
        i = i + 1;
    }
    proof {
        assert(old(out)@ + cs@.subrange(0, cs@.len() as int) =~= old(out)@ + s@);
    }
}

} // verus!
