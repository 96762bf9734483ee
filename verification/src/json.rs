//! The JSON facts the bot needs from `serde_json`: whether a text is a
//! complete JSON document, the scalar found under a JSON pointer, and the
//! quoted form of a string.

use vstd::prelude::*;

verus! {

/// Whether `serde_json` parses `text` as one JSON value.
pub uninterp spec fn json_valid(text: Seq<char>) -> bool;

/// The unsigned integer that `serde_json` finds under `pointer` in `text`.
pub uninterp spec fn json_u64_at(text: Seq<char>, pointer: Seq<char>) -> Option<u64>;

/// The string that `serde_json` finds under `pointer` in `text`.
pub uninterp spec fn json_str_at(text: Seq<char>, pointer: Seq<char>) -> Option<Seq<char>>;

/// The boolean that `serde_json` finds under `pointer` in `text`.
pub uninterp spec fn json_bool_at(text: Seq<char>, pointer: Seq<char>) -> Option<bool>;

/// A lower-case hexadecimal digit, for `d < 16`.
pub open spec fn hex_digit(d: nat) -> char {
    if d < 10 {
        ((d + 48) as u8) as char
    } else {
        ((d + 87) as u8) as char
    }
}

/// How `serde_json` writes one character inside a string literal: `"` and
/// `\` behind a backslash; backspace, tab, line feed, form feed and carriage
/// return as `\b`, `\t`, `\n`, `\f`, `\r`; the other characters below
/// U+0020 as `\u00xx` in lower-case hexadecimal; everything else as itself.
pub open spec fn escape_char(c: char) -> Seq<char> {
    let u = c as u32;
    if c == '"' {
        seq!['\\', '"']
    } else if c == '\\' {
        seq!['\\', '\\']
    } else if u == 0x08 {
        seq!['\\', 'b']
    } else if u == 0x09 {
        seq!['\\', 't']
    } else if u == 0x0a {
        seq!['\\', 'n']
    } else if u == 0x0c {
        seq!['\\', 'f']
    } else if u == 0x0d {
        seq!['\\', 'r']
    } else if u < 0x20 {
        seq!['\\', 'u', '0', '0', hex_digit((u / 16) as nat), hex_digit((u % 16) as nat)]
    } else {
        seq![c]
    }
}

/// The escaped form of a character sequence, character by character.
pub open spec fn escape_chars(s: Seq<char>) -> Seq<char>
    decreases s.len(),
{
    if s.len() == 0 {
        seq![]
    } else {
        escape_char(s[0]) + escape_chars(s.drop_first())
    }
}

/// The JSON string literal that `serde_json` writes for `s`: its escaped
/// form between double quotes.
pub open spec fn json_quoted(s: Seq<char>) -> Seq<char> {
    seq!['"'] + escape_chars(s) + seq!['"']
}

/// The value of a hexadecimal digit of either case.
pub open spec fn hex_value(c: char) -> Option<u32> {
    let u = c as u32;
    if 0x30 <= u <= 0x39 {
        Some((u - 0x30) as u32)
    } else if 0x61 <= u <= 0x66 {
        Some((u - 0x61 + 10) as u32)
    } else if 0x41 <= u <= 0x46 {
        Some((u - 0x41 + 10) as u32)
    } else {
        None
    }
}

/// The character that the four hexadecimal digits of a `\u` escape name,
/// when they name one outside the surrogate range.
pub open spec fn unicode_escape(a: char, b: char, c: char, d: char) -> Option<char> {
    match (hex_value(a), hex_value(b), hex_value(c), hex_value(d)) {
        (Some(w), Some(x), Some(y), Some(z)) => {
            let v = w * 4096 + x * 256 + y * 16 + z;
            if 0xd800 <= v <= 0xdfff {
                None
            } else {
                Some((v as u32) as char)
            }
        },
        _ => None,
    }
}

/// The text that the body of a JSON string literal stands for (RFC 8259,
/// section 7), or `None` when it is not the body of one: it holds a bare
/// `"`, a bare control character, or an unknown or incomplete escape.
/// Escaped surrogate pairs are not decoded.
pub open spec fn unescape(t: Seq<char>) -> Option<Seq<char>>
    decreases t.len(),
{
    if t.len() == 0 {
        Some(seq![])
    } else if t[0] == '"' || (t[0] as u32) < 0x20 {
        None
    } else if t[0] != '\\' {
        match unescape(t.drop_first()) {
            Some(r) => Some(seq![t[0]] + r),
            None => None,
        }
    } else if t.len() < 2 {
        None
    } else {
        let e = t[1];
        let decoded: Option<char> = if e == '"' || e == '\\' || e == '/' {
            Some(e)
        } else if e == 'b' {
            Some('\u{8}')
        } else if e == 't' {
            Some('\t')
        } else if e == 'n' {
            Some('\n')
        } else if e == 'f' {
            Some('\u{c}')
        } else if e == 'r' {
            Some('\r')
        } else {
            None
        };
        if e == 'u' {
            if t.len() < 6 {
                None
            } else {
                match (unicode_escape(t[2], t[3], t[4], t[5]), unescape(t.subrange(6, t.len() as int))) {
                    (Some(ch), Some(r)) => Some(seq![ch] + r),
                    _ => None,
                }
            }
        } else {
            match (decoded, unescape(t.subrange(2, t.len() as int))) {
                (Some(ch), Some(r)) => Some(seq![ch] + r),
                _ => None,
            }
        }
    }
}

proof fn lemma_hex_digit(d: nat)
    requires
        d < 16,
    ensures
        hex_value(hex_digit(d)) == Some(d as u32),
{
    assert((((d + 48) as u8) as char) as u32 == d + 48) by {
        assert(d + 48 < 256);
    }
    assert((((d + 87) as u8) as char) as u32 == d + 87) by {
        assert(d + 87 < 256);
    }
}

proof fn lemma_unescape_one(c: char, tail: Seq<char>)
    requires
        unescape(tail) is Some,
    ensures
        unescape(escape_char(c) + tail) == Some(seq![c] + unescape(tail)->0),
{
    let u = c as u32;
    let t = escape_char(c) + tail;
    let e = escape_char(c);
    if c == '"' || c == '\\' || u == 0x08 || u == 0x09 || u == 0x0a || u == 0x0c || u == 0x0d {
        assert(t.subrange(2, t.len() as int) =~= tail);
        assert(t[0] == '\\');
        assert(t[1] == e[1]);
    } else if u < 0x20 {
        assert(t.subrange(6, t.len() as int) =~= tail);
        assert(t[0] == '\\' && t[1] == 'u' && t[2] == '0' && t[3] == '0');
        assert(t[4] == hex_digit((u / 16) as nat));
        assert(t[5] == hex_digit((u % 16) as nat));
        lemma_hex_digit((u / 16) as nat);
        lemma_hex_digit((u % 16) as nat);
        assert(hex_value('0') == Some(0u32));
        assert((u / 16) * 16 + u % 16 == u);
        assert(((u as u32) as char) == c);
    } else {
        assert(t[0] == c);
        assert(t.drop_first() =~= tail);
    }
}

/// The escaped form of any text stands for that text: what `serde_json`
/// quotes comes back unchanged when the literal is read.
pub proof fn escape_round_trips(s: Seq<char>)
    ensures
        unescape(escape_chars(s)) == Some(s),
    decreases s.len(),
{
    if s.len() > 0 {
        escape_round_trips(s.drop_first());
        lemma_unescape_one(s[0], escape_chars(s.drop_first()));
        assert(seq![s[0]] + s.drop_first() =~= s);
    }
}

/// Calls `serde_json::from_str::<serde_json::Value>` and reports whether it
/// succeeded. The contract names the answer `json_valid` of the text; the
/// JSON grammar itself is not stated.
#[verifier::external_body]
pub(crate) fn parses_as_json(text: &str) -> (r: bool)
    ensures
        r == json_valid(text@),
{
    serde_json::from_str::<serde_json::Value>(text).is_ok()
}

/// Parses `text` with `serde_json::from_str`, looks `pointer` up with
/// `Value::pointer` and reads it with `Value::as_u64`. The contract names
/// the result `json_u64_at`; besides, nothing is found in a text that does
/// not parse.
#[verifier::external_body]
pub(crate) fn u64_at(text: &str, pointer: &str) -> (r: Option<u64>)
    ensures
        r == json_u64_at(text@, pointer@),
        !json_valid(text@) ==> r is None,
{
    serde_json::from_str::<serde_json::Value>(text).ok()?.pointer(pointer)?.as_u64()
}

/// As `u64_at`, reading with `Value::as_str`.
#[verifier::external_body]
pub(crate) fn str_at(text: &str, pointer: &str) -> (r: Option<String>)
    ensures
        r.deep_view() == json_str_at(text@, pointer@),
        !json_valid(text@) ==> r is None,
{
    serde_json::from_str::<serde_json::Value>(text).ok()?.pointer(pointer)?.as_str().map(String::from)
}

/// As `u64_at`, reading with `Value::as_bool`.
#[verifier::external_body]
pub(crate) fn bool_at(text: &str, pointer: &str) -> (r: Option<bool>)
    ensures
        r == json_bool_at(text@, pointer@),
        !json_valid(text@) ==> r is None,
{
    serde_json::from_str::<serde_json::Value>(text).ok()?.pointer(pointer)?.as_bool()
}

/// Calls `serde_json::to_string` on a string slice. For a `str` that call
/// cannot fail (the serializer writes into a `Vec`); the contract claims
/// that it writes the escaped text between double quotes (`json_quoted`),
/// as serde_json's escape table has it.
#[verifier::external_body]
pub(crate) fn quote(s: &str) -> (r: String)
    ensures
        r@ == json_quoted(s@),
{
    match serde_json::to_string(s) {
        Ok(t) => t,
        Err(_) => String::new(),
    }
}

} // verus!
