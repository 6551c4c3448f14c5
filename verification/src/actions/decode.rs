//! Decoding of command output and recognition of progress lines.
use vstd::prelude::*;
use vstd::utf8::{decode_utf8, encode_utf8, valid_utf8};

use crate::text::{chars_of, has_char, owned, string_of, trim, trim_chars, utf8_len, utf8_len_below};

verus! {

// ---------------------------------------------------------------------------
// std wrappers
// ---------------------------------------------------------------------------

/// `std::str::from_utf8`: succeeds exactly when `bytes` is valid UTF-8, and
/// the string it returns is made of those same bytes.
#[verifier::external_body]
fn utf8_str(bytes: &[u8]) -> (r: Option<&str>)
    ensures
        r is Some <==> valid_utf8(bytes@),
        r matches Some(s) ==> encode_utf8(s@) == bytes@,
{
    match std::str::from_utf8(bytes) {
        Ok(s) => Some(s),
        Err(_) => None,
    }
}

/// What `String::from_utf8_lossy` returns for the given bytes.
pub uninterp spec fn utf8_lossy(bytes: Seq<u8>) -> Seq<char>;

/// `String::from_utf8_lossy`: the documented result is the decoded text
/// when the bytes are valid UTF-8; otherwise every invalid sequence is
/// replaced by U+FFFD, so the result holds at least one U+FFFD. How the
/// invalid sequences are delimited is not stated here.
#[verifier::external_body]
fn lossy_string(bytes: &[u8]) -> (r: String)
    ensures
        r@ == utf8_lossy(bytes@),
        valid_utf8(bytes@) ==> r@ == decode_utf8(bytes@),
        !valid_utf8(bytes@) ==> r@.contains('\u{FFFD}'),
{
    String::from_utf8_lossy(bytes).into_owned()
}

// ---------------------------------------------------------------------------
// code page 1254 (Turkish ANSI)
// ---------------------------------------------------------------------------

/// The characters of bytes 0x80..=0xFF in code page 1254; U+FFFD marks the
/// bytes that the code page leaves undefined.
pub const CP1254_HIGH: [char; 128] = [
    '\u{20AC}', '\u{FFFD}', '\u{201A}', '\u{0192}', '\u{201E}', '\u{2026}', '\u{2020}', '\u{2021}',
    '\u{02C6}', '\u{2030}', '\u{0160}', '\u{2039}', '\u{0152}', '\u{FFFD}', '\u{FFFD}', '\u{FFFD}',
    '\u{FFFD}', '\u{2018}', '\u{2019}', '\u{201C}', '\u{201D}', '\u{2022}', '\u{2013}', '\u{2014}',
    '\u{02DC}', '\u{2122}', '\u{0161}', '\u{203A}', '\u{0153}', '\u{FFFD}', '\u{FFFD}', '\u{0178}',
    '\u{00A0}', '\u{00A1}', '\u{00A2}', '\u{00A3}', '\u{00A4}', '\u{00A5}', '\u{00A6}', '\u{00A7}',
    '\u{00A8}', '\u{00A9}', '\u{00AA}', '\u{00AB}', '\u{00AC}', '\u{00AD}', '\u{00AE}', '\u{00AF}',
    '\u{00B0}', '\u{00B1}', '\u{00B2}', '\u{00B3}', '\u{00B4}', '\u{00B5}', '\u{00B6}', '\u{00B7}',
    '\u{00B8}', '\u{00B9}', '\u{00BA}', '\u{00BB}', '\u{00BC}', '\u{00BD}', '\u{00BE}', '\u{00BF}',
    '\u{00C0}', '\u{00C1}', '\u{00C2}', '\u{00C3}', '\u{00C4}', '\u{00C5}', '\u{00C6}', '\u{00C7}',
    '\u{00C8}', '\u{00C9}', '\u{00CA}', '\u{00CB}', '\u{00CC}', '\u{00CD}', '\u{00CE}', '\u{00CF}',
    '\u{011E}', '\u{00D1}', '\u{00D2}', '\u{00D3}', '\u{00D4}', '\u{00D5}', '\u{00D6}', '\u{00D7}',
    '\u{00D8}', '\u{00D9}', '\u{00DA}', '\u{00DB}', '\u{00DC}', '\u{0130}', '\u{015E}', '\u{00DF}',
    '\u{00E0}', '\u{00E1}', '\u{00E2}', '\u{00E3}', '\u{00E4}', '\u{00E5}', '\u{00E6}', '\u{00E7}',
    '\u{00E8}', '\u{00E9}', '\u{00EA}', '\u{00EB}', '\u{00EC}', '\u{00ED}', '\u{00EE}', '\u{00EF}',
    '\u{011F}', '\u{00F1}', '\u{00F2}', '\u{00F3}', '\u{00F4}', '\u{00F5}', '\u{00F6}', '\u{00F7}',
    '\u{00F8}', '\u{00F9}', '\u{00FA}', '\u{00FB}', '\u{00FC}', '\u{0131}', '\u{015F}', '\u{00FF}',
];

/// The character of byte `b` in code page 1254.
pub open spec fn cp1254_char(b: u8) -> char {
    if b < 0x80 {
        b as char
    } else {
        CP1254_HIGH@[b - 0x80]
    }
}

/// The text of `bytes` read byte by byte as code page 1254.
pub open spec fn cp1254_text(bytes: Seq<u8>) -> Seq<char> {
    bytes.map_values(|b: u8| cp1254_char(b))
}

/// The text that `decode` gives for `bytes`: UTF-8 when the bytes are valid
/// UTF-8, code page 1254 otherwise.
pub open spec fn decoded(bytes: Seq<u8>) -> Seq<char> {
    if valid_utf8(bytes) {
        decode_utf8(bytes)
    } else {
        cp1254_text(bytes)
    }
}

/// The code page 1254 character of a byte.
pub fn cp1254(b: u8) -> (c: char)
    ensures
        c == cp1254_char(b),
{
    if b < 0x80 {
        return b as char;
    }
    CP1254_HIGH[(b - 0x80) as usize]
}

/// Decodes command output: UTF-8 first, then code page 1254; the lossy
/// UTF-8 reading is used only if it has no replacement character while the
/// code page reading has one.
pub fn decode(bytes: &[u8]) -> (s: String)
    ensures
        s@ == decoded(bytes@),
{
    if let Some(s) = utf8_str(bytes) {
        proof {
            vstd::utf8::encode_utf8_decode_utf8(s@);
        }
        return owned(s);
    }
    let mut mapped: Vec<char> = Vec::new();
    let mut i: usize = 0;
    while i < bytes.len()
        invariant
            i <= bytes.len(),
            mapped@ == cp1254_text(bytes@.subrange(0, i as int)),
        decreases bytes.len() - i,
    {
        mapped.push(cp1254(bytes[i]));
        i = i + 1;
        assert(mapped@ =~= cp1254_text(bytes@.subrange(0, i as int)));
    }
    assert(bytes@.subrange(0, bytes.len() as int) =~= bytes@);
    let lossy = lossy_string(bytes);
    let lossy_chars = chars_of(lossy.as_str());
    if has_char(&mapped, '\u{FFFD}') && !has_char(&lossy_chars, '\u{FFFD}') {
        lossy
    } else {
        string_of(&mapped)
    }
}

// ---------------------------------------------------------------------------
// progress lines
// ---------------------------------------------------------------------------

/// A progress line, such as DISM's `[=====  42.0%  ]`: after trimming it is
/// shorter than 80 bytes, starts with `[`, ends with `]` and holds a `%`.
pub open spec fn is_progress_text(s: Seq<char>) -> bool {
    let t = trim(s);
    &&& utf8_len(t) < 80
    &&& t.len() > 0
    &&& t[0] == '['
    &&& t.last() == ']'
    &&& t.contains('%')
}

/// Whether `s` is a progress line (see `is_progress_text`).
pub fn is_progress(s: &str) -> (r: bool)
    ensures
        r == is_progress_text(s@),
{
    let all = chars_of(s);
    let t = trim_chars(&all);
    if !utf8_len_below(&t, 80) {
        return false;
    }
    t.len() > 0 && t[0] == '[' && t[t.len() - 1] == ']' && has_char(&t, '%')
}

} // verus!
