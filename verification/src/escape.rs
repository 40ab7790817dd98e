//! JSON string escaping for the outbound wire format: quote, backslash and
//! the named control characters get a two-character escape, every other
//! control character a `\u00..` escape with lowercase hex digits, and all
//! remaining characters pass through unchanged.

use vstd::prelude::*;
use crate::text::str_to_chars;

verus! {

/// The character for a single hexadecimal digit, lowercase.
pub open spec fn hex_digit(d: nat) -> char {
    if d < 10 {
        ((d + 0x30) as u8) as char
    } else {
        ((d - 10 + 0x61) as u8) as char
    }
}

/// How one character is written inside a JSON string.
pub open spec fn escape_char(c: char) -> Seq<char> {
    if c == '"' {
        seq!['\\', '"']
    } else if c == '\\' {
        seq!['\\', '\\']
    } else if c == '\u{8}' {
        seq!['\\', 'b']
    } else if c == '\t' {
        seq!['\\', 't']
    } else if c == '\n' {
        seq!['\\', 'n']
    } else if c == '\u{c}' {
        seq!['\\', 'f']
    } else if c == '\r' {
        seq!['\\', 'r']
    } else if (c as u32) < 0x20 {
        seq!['\\', 'u', '0', '0', hex_digit((c as u32 / 16) as nat), hex_digit(
            (c as u32 % 16) as nat,
        )]
    } else {
        seq![c]
    }
}

/// How a whole character sequence is written inside a JSON string.
pub open spec fn escape_chars(s: Seq<char>) -> Seq<char>
    decreases s.len(),
{
    if s.len() == 0 {
        Seq::empty()
    } else {
        escape_char(s[0]) + escape_chars(s.drop_first())
    }
}

/// Escaping distributes over concatenation.
pub proof fn lemma_escape_chars_append(a: Seq<char>, b: Seq<char>)
    ensures
        escape_chars(a + b) == escape_chars(a) + escape_chars(b),
    decreases a.len(),
{
    if a.len() == 0 {
        assert(a + b =~= b);
        assert(escape_chars(a) + escape_chars(b) =~= escape_chars(b));
    } else {
        assert((a + b).drop_first() =~= a.drop_first() + b);
        lemma_escape_chars_append(a.drop_first(), b);
        assert(escape_char(a[0]) + (escape_chars(a.drop_first()) + escape_chars(b))
            =~= (escape_char(a[0]) + escape_chars(a.drop_first())) + escape_chars(b));
    }
}

/// Escaping a single character yields that character's escape.
pub proof fn lemma_escape_chars_one(c: char)
    ensures
        escape_chars(seq![c]) == escape_char(c),
{
    assert(seq![c].drop_first() =~= Seq::<char>::empty());
    assert(escape_char(c) + escape_chars(seq![c].drop_first()) =~= escape_char(c));
}

/// Appends one escaped character to `out`.
fn push_escaped_char(out: &mut Vec<char>, c: char)
    ensures
        final(out)@ == old(out)@ + escape_char(c),
{
    if c == '"' {
        out.push('\\');
        out.push('"');
    } else if c == '\\' {
        out.push('\\');
        out.push('\\');
    } else if c == '\u{8}' {
        out.push('\\');
        out.push('b');
    } else if c == '\t' {
        out.push('\\');
        out.push('t');
    } else if c == '\n' {
        out.push('\\');
        out.push('n');
    } else if c == '\u{c}' {
        out.push('\\');
        out.push('f');
    } else if c == '\r' {
        out.push('\\');
        out.push('r');
    } else if (c as u32) < 0x20 {
        let x: u32 = c as u32;
        out.push('\\');
        out.push('u');
        out.push('0');
        out.push('0');
        out.push(hex_digit_char(x / 16));
        out.push(hex_digit_char(x % 16));
    } else {
        out.push(c);
    }
    proof {
        assert(final(out)@ =~= old(out)@ + escape_char(c));
    }
}

/// The lowercase hexadecimal digit character for `d`.
fn hex_digit_char(d: u32) -> (r: char)
    requires
        d < 16,
    ensures
        r == hex_digit(d as nat),
{
    if d < 10 {
        (d as u8 + 0x30) as char
    } else {
        (d as u8 - 10 + 0x61) as char
    }
}

/// Appends the escaped form of `s` to `out`.
pub fn push_escaped(out: &mut Vec<char>, s: &str)
    ensures
        final(out)@ == old(out)@ + escape_chars(s@),
{
    let cs = str_to_chars(s);
    let mut i: usize = 0;
    while i < cs.len()
        invariant
            i <= cs@.len(),
            cs@ == s@,
            out@ == old(out)@ + escape_chars(cs@.subrange(0, i as int)),
        decreases cs@.len() - i,
    {
        push_escaped_char(out, cs[i]);
        proof {
            assert(cs@.subrange(0, i + 1) =~= cs@.subrange(0, i as int) + seq![cs@[i as int]]);
            lemma_escape_chars_append(cs@.subrange(0, i as int), seq![cs@[i as int]]);
            lemma_escape_chars_one(cs@[i as int]);
            assert(old(out)@ + escape_chars(cs@.subrange(0, i as int)) + escape_char(cs@[i as int])
                =~= old(out)@ + escape_chars(cs@.subrange(0, i + 1)));
        }
        i = i + 1;
    }
    proof {
        assert(cs@.subrange(0, cs@.len() as int) =~= s@);
    }
}

} // verus!
