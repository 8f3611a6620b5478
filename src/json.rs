//! JSON string literals: how serde_json writes them, and how a reader takes
//! them back.
use crate::text::digit_char;
use vstd::prelude::*;

verus! {

/// A lower-case hexadecimal digit.
pub open spec fn hex_digit(d: nat) -> char {
    if d < 10 {
        digit_char(d)
    } else {
        ((d + 87) as u8) as char
    }
}

/// How one character is written inside a JSON string: quote and backslash
/// escaped, the five usual control characters by letter, the other control
/// characters as `\u00XX`, everything else unchanged.
pub open spec fn escape_char(c: char) -> Seq<char> {
    if c == '"' {
        seq!['\\', '"']
    } else if c == '\\' {
        seq!['\\', '\\']
    } else if c == '\u{8}' {
        seq!['\\', 'b']
    } else if c == '\t' {
        seq!['\\', 't']
    } else if c == '\n' {
        seq!['\\', 'n']
    } else if c == '\u{c}' {
        seq!['\\', 'f']
    } else if c == '\r' {
        seq!['\\', 'r']
    } else if (c as u32) < 32 {
        seq!['\\', 'u', '0', '0', hex_digit((c as u32 / 16) as nat), hex_digit((c as u32 % 16) as nat)]
    } else {
        seq![c]
    }
}

/// The escaped characters of a string, in order.
pub open spec fn escape_chars(s: Seq<char>) -> Seq<char>
    decreases s.len(),
{
    if s.len() == 0 {
        Seq::empty()
    } else {
        escape_char(s[0]) + escape_chars(s.drop_first())
    }
}

/// The JSON string literal of `s`.
pub open spec fn json_string_of(s: Seq<char>) -> Seq<char> {
    seq!['"'] + escape_chars(s) + seq!['"']
}

/// The character that a one-letter escape stands for.
pub open spec fn unescaped(c: char) -> Option<char> {
    if c == '"' {
        Some('"')
    } else if c == '\\' {
        Some('\\')
    } else if c == '/' {
        Some('/')
    } else if c == 'b' {
        Some('\u{8}')
    } else if c == 't' {
        Some('\t')
    } else if c == 'n' {
        Some('\n')
    } else if c == 'f' {
        Some('\u{c}')
    } else if c == 'r' {
        Some('\r')
    } else {
        None
    }
}

/// The value of a hexadecimal digit.
pub open spec fn hex_value(c: char) -> Option<nat> {
    if '0' <= c && c <= '9' {
        Some((c as u32 - 48) as nat)
    } else if 'a' <= c && c <= 'f' {
        Some((c as u32 - 87) as nat)
    } else if 'A' <= c && c <= 'F' {
        Some((c as u32 - 55) as nat)
    } else {
        None
    }
}

/// Reads the rest of a JSON string literal whose opening quote has been read:
/// the characters it stands for, and how many characters of `t` it takes,
/// closing quote included. `\u` escapes are read up to `ÿ`; a literal
/// that is not closed, holds a raw control character or an unknown escape
/// gives `None`.
pub open spec fn scan_string(t: Seq<char>) -> Option<(Seq<char>, int)>
    decreases t.len(),
{
    if t.len() == 0 {
        None
    } else if t[0] == '"' {
        Some((Seq::empty(), 1))
    } else if t[0] == '\\' {
        if t.len() >= 2 && unescaped(t[1]) is Some {
            match scan_string(t.subrange(2, t.len() as int)) {
                Some((s, n)) => Some((seq![unescaped(t[1])->0] + s, n + 2)),
                None => None,
            }
        } else if t.len() >= 6 && t[1] == 'u' && t[2] == '0' && t[3] == '0' && hex_value(t[4]) is Some
            && hex_value(t[5]) is Some {
            let v = hex_value(t[4])->0 * 16 + hex_value(t[5])->0;
            match scan_string(t.subrange(6, t.len() as int)) {
                Some((s, n)) => Some((seq![(v as u32) as char] + s, n + 6)),
                None => None,
            }
        } else {
            None
        }
    } else if (t[0] as u32) < 32 {
        None
    } else {
        match scan_string(t.drop_first()) {
            Some((s, n)) => Some((seq![t[0]] + s, n + 1)),
            None => None,
        }
    }
}

proof fn lemma_hex_round_trip(d: nat)
    requires
        d < 16,
    ensures
        hex_value(hex_digit(d)) == Some(d),
{
}

/// A reader takes back what the escaping wrote: the escaped text of `s`,
/// closed by a quote, reads as `s`, and whatever follows the quote is left.
pub proof fn lemma_escape_round_trip(s: Seq<char>, rest: Seq<char>)
    ensures
        scan_string(escape_chars(s) + seq!['"'] + rest) == Some((s, escape_chars(s).len() + 1 as int)),
    decreases s.len(),
{
    let t = escape_chars(s) + seq!['"'] + rest;
    if s.len() == 0 {
        assert(t[0] == '"');
    } else {
        let c = s[0];
        let e = escape_char(c);
        let tail = escape_chars(s.drop_first()) + seq!['"'] + rest;
        lemma_escape_round_trip(s.drop_first(), rest);
        assert(t =~= e + tail);
        assert(seq![c] + s.drop_first() =~= s);
        if e.len() == 2 {
            assert(t.subrange(2, t.len() as int) =~= tail);
        } else if e.len() == 6 {
            let v = c as u32;
            lemma_hex_round_trip((v / 16) as nat);
            lemma_hex_round_trip((v % 16) as nat);
            assert(t.subrange(6, t.len() as int) =~= tail);
            assert((v / 16) * 16 + v % 16 == v);
            vstd::utf8::char_u32_cast(c, v);
        } else {
            assert(t.drop_first() =~= tail);
        }
    }
}

} // verus!
