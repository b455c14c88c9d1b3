//! Escaping of a source identifier for embedding inside the preview page's
//! script: every UTF-16 code unit of the identifier becomes a fixed-width
//! `\u` escape, so no identifier can break out of the string literal it is
//! injected into.

use crate::strutil::push_char;
use vstd::prelude::*;
use vstd::utf8::char_is_scalar;

verus! {

/// The lowercase hex digit for a value below 16.
pub open spec fn spec_hex_digit(v: int) -> char {
    if v == 0 {
        '0'
    } else if v == 1 {
        '1'
    } else if v == 2 {
        '2'
    } else if v == 3 {
        '3'
    } else if v == 4 {
        '4'
    } else if v == 5 {
        '5'
    } else if v == 6 {
        '6'
    } else if v == 7 {
        '7'
    } else if v == 8 {
        '8'
    } else if v == 9 {
        '9'
    } else if v == 10 {
        'a'
    } else if v == 11 {
        'b'
    } else if v == 12 {
        'c'
    } else if v == 13 {
        'd'
    } else if v == 14 {
        'e'
    } else {
        'f'
    }
}

/// The escape of one UTF-16 code unit: a backslash, `u`, and the unit's four
/// hex digits, most significant first.
pub open spec fn spec_escape_code(v: int) -> Seq<char> {
    seq![
        '\\',
        'u',
        spec_hex_digit(v / 4096 % 16),
        spec_hex_digit(v / 256 % 16),
        spec_hex_digit(v / 16 % 16),
        spec_hex_digit(v % 16),
    ]
}

/// The escapes of the UTF-16 encoding of one character: one code unit below
/// the supplementary planes, a surrogate pair from there on.
pub open spec fn spec_escape_char(c: char) -> Seq<char> {
    let v = c as u32;
    if v < 0x10000 {
        spec_escape_code(v as int)
    } else {
        spec_escape_code(0xD800 + (v - 0x10000) as int / 0x400) + spec_escape_code(
            0xDC00 + (v - 0x10000) as int % 0x400,
        )
    }
}

/// The escapes of every character of `s`, in order.
pub open spec fn spec_escape_chars(s: Seq<char>) -> Seq<char>
    decreases s.len(),
{
    if s.len() == 0 {
        Seq::empty()
    } else {
        spec_escape_char(s[0]) + spec_escape_chars(s.drop_first())
    }
}

/// `s` as a script string literal: its escaped characters between double
/// quotes.
pub open spec fn spec_js_string_literal(s: Seq<char>) -> Seq<char> {
    seq!['"'] + spec_escape_chars(s) + seq!['"']
}

proof fn lemma_escape_chars_push(s: Seq<char>, c: char)
    ensures
        spec_escape_chars(s.push(c)) == spec_escape_chars(s) + spec_escape_char(c),
    decreases s.len(),
{
    let sp = s.push(c);
    if s.len() == 0 {
        assert(sp.drop_first() =~= Seq::<char>::empty());
        assert(spec_escape_chars(sp.drop_first()) == Seq::<char>::empty());
        assert(sp[0] == c);
        assert(spec_escape_chars(sp) =~= spec_escape_chars(s) + spec_escape_char(c));
    } else {
        assert(sp.drop_first() =~= s.drop_first().push(c));
        lemma_escape_chars_push(s.drop_first(), c);
        assert(spec_escape_char(sp[0]) + (spec_escape_chars(s.drop_first()) + spec_escape_char(c))
            =~= spec_escape_chars(s) + spec_escape_char(c));
    }
}

fn hex_digit(v: u32) -> (r: char)
    requires
        v < 16,
    ensures
        r == spec_hex_digit(v as int),
{
    if v == 0 {
        '0'
    } else if v == 1 {
        '1'
    } else if v == 2 {
        '2'
    } else if v == 3 {
        '3'
    } else if v == 4 {
        '4'
    } else if v == 5 {
        '5'
    } else if v == 6 {
        '6'
    } else if v == 7 {
        '7'
    } else if v == 8 {
        '8'
    } else if v == 9 {
        '9'
    } else if v == 10 {
        'a'
    } else if v == 11 {
        'b'
    } else if v == 12 {
        'c'
    } else if v == 13 {
        'd'
    } else if v == 14 {
        'e'
    } else {
        'f'
    }
}

fn push_escape_code(out: &mut String, v: u32)
    requires
        v < 0x10000,
    ensures
        final(out)@ == old(out)@ + spec_escape_code(v as int),
{
    push_char(out, '\\');
    push_char(out, 'u');
    push_char(out, hex_digit(v / 4096 % 16));
    push_char(out, hex_digit(v / 256 % 16));
    push_char(out, hex_digit(v / 16 % 16));
    push_char(out, hex_digit(v % 16));
    proof {
        assert(final(out)@ =~= old(out)@ + spec_escape_code(v as int));
    }
}

/// `text` as a double-quoted script string literal in which every UTF-16 code
/// unit of the text appears as a fixed-width numeric escape.
pub fn escape_js_string(text: &str) -> (r: String)
    ensures
        r@ == spec_js_string_literal(text@),
{
    let n = text.unicode_len();
    let mut out = String::new();
    push_char(&mut out, '"');
    proof {
        assert(text@.take(0) =~= Seq::<char>::empty());
        assert(out@ =~= seq!['"'] + spec_escape_chars(text@.take(0)));
    }
    let mut i: usize = 0;
    while i < n
        invariant
            n == text@.len(),
            i <= n,
            out@ == seq!['"'] + spec_escape_chars(text@.take(i as int)),
        decreases n - i,
    {
        let c = text.get_char(i);
        let v = c as u32;
        proof {
            char_is_scalar(c);
        }
        if v < 0x10000 {
            push_escape_code(&mut out, v);
        } else {
            push_escape_code(&mut out, 0xD800 + (v - 0x10000) / 0x400);
            push_escape_code(&mut out, 0xDC00 + (v - 0x10000) % 0x400);
        }
        proof {
            assert(text@.take(i + 1) =~= text@.take(i as int).push(c));
            lemma_escape_chars_push(text@.take(i as int), c);
            assert(out@ =~= seq!['"'] + spec_escape_chars(text@.take(i + 1)));
        }
        i += 1;
    }
    push_char(&mut out, '"');
    proof {
        assert(text@.take(n as int) =~= text@);
        assert(out@ =~= spec_js_string_literal(text@));
    }
    out
}

} // verus!
