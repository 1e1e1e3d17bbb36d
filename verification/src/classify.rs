//! Payload classification: decide whether a payload is shown as text or as a
//! hexadecimal byte dump.
//!
//! A payload counts as binary when it is not valid UTF-8, or when its decoded
//! text contains a character that the canonical escaped display form would
//! render as a numeric `\u{...}` escape — such a character signals content
//! that is not meant to be read as text. The five characters with short
//! escapes (backslash, double quote, newline, carriage return, tab) do not
//! make a payload binary.

use vstd::prelude::*;
use vstd::utf8::{decode_utf8, valid_utf8};
use crate::hexcode::{bytes_message, bytes_message_chars};

verus! {

/// The escape sequence that the canonical escaped display form uses for one
/// character: the character itself if it is ordinarily printable, a
/// two-character short escape for the few specially treated characters, and
/// `\u{...}` for everything else.
pub uninterp spec fn escape_debug_of(c: char) -> Seq<char>;

/// Relies on `char::escape_debug`: it yields the escape sequence of the
/// character — the character itself, a short `\x` escape, or `\u{...}` — as
/// a function of the character alone.
#[verifier::external_body]
fn escape_debug_chars(c: char) -> (r: Vec<char>)
    ensures
        r@ == escape_debug_of(c),
{
    c.escape_debug().collect()
}

/// A character that the escaped display form renders as a numeric `\u{...}`
/// escape: its escape sequence starts with a backslash followed by `u`.
/// Short escapes put `\\`, `"`, `'`, `n`, `r` or `t` after the backslash, and
/// an ordinarily printable character stands alone, so neither matches this.
pub open spec fn char_unprintable(c: char) -> bool {
    escape_debug_of(c).len() >= 2 && escape_debug_of(c)[1] == 'u'
}

/// Executable form of `char_unprintable`.
pub fn char_is_unprintable(c: char) -> (r: bool)
    ensures
        r == char_unprintable(c),
{
    let e = escape_debug_chars(c);
    if e.len() >= 2 {
        e[1] == 'u'
    } else {
        false
    }
}

/// True when some character of `s` is rendered as a numeric escape.
pub open spec fn contains_unprintable(s: Seq<char>) -> bool {
    exists|i: int| 0 <= i < s.len() && char_unprintable(s[i])
}

/// Executable scan for a character that is rendered as a numeric escape.
pub fn has_unprintable(chars: &Vec<char>) -> (r: bool)
    ensures
        r == contains_unprintable(chars@),
{
    let n = chars.len();
    let mut i: usize = 0;
    while i < n
        invariant
            i <= n,
            n == chars@.len(),
            forall|j: int| 0 <= j < i ==> !char_unprintable(chars@[j]),
        decreases n - i,
    {
        if char_is_unprintable(chars[i]) {
            return true;
        }
        i = i + 1;
    }
    false
}

/// True when the payload is shown as binary rather than as text.
pub open spec fn payload_is_binary(b: Seq<u8>) -> bool {
    !valid_utf8(b) || contains_unprintable(decode_utf8(b))
}

/// The display message of a payload: the decoded text itself when the payload
/// is valid UTF-8 with no numerically escaped character, and the binary
/// rendering otherwise.
pub open spec fn spec_message(b: Seq<u8>) -> Seq<char> {
    if payload_is_binary(b) {
        bytes_message(b)
    } else {
        decode_utf8(b)
    }
}

/// Relies on `core::str::from_utf8`: it returns `Ok` exactly when the bytes
/// are a valid UTF-8 encoding, and the returned `str` consists of the decoded
/// characters of those bytes.
#[verifier::external_body]
fn utf8_chars(bytes: &[u8]) -> (r: Option<Vec<char>>)
    ensures
        match r {
            Some(v) => valid_utf8(bytes@) && v@ == decode_utf8(bytes@),
            None => !valid_utf8(bytes@),
        },
{
    match core::str::from_utf8(bytes) {
        Ok(s) => Some(s.chars().collect()),
        Err(_) => None,
    }
}

/// Renders the payload's display message as characters.
pub fn render_message(bytes: &[u8]) -> (r: Vec<char>)
    ensures
        r@ == spec_message(bytes@),
{
    match utf8_chars(bytes) {
        Some(chars) => {
            if has_unprintable(&chars) {
                bytes_message_chars(bytes)
            } else {
                chars
            }
        },
        None => bytes_message_chars(bytes),
    }
}

} // verus!
