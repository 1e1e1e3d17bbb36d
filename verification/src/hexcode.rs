//! The binary rendering of a payload: a `(bytes) 0x` prefix followed by the
//! lowercase hexadecimal encoding of the bytes.

use vstd::prelude::*;
use crate::chars::chars_to_string;

verus! {

/// The character for one hexadecimal digit, lowercase.
pub open spec fn hex_digit(d: int) -> char
    recommends
        0 <= d < 16,
{
    seq!['0', '1', '2', '3', '4', '5', '6', '7', '8', '9', 'a', 'b', 'c', 'd', 'e', 'f'][d]
}

/// The lowercase hexadecimal encoding of a byte sequence: two digits per
/// byte, high nibble first, in input order, with nothing in between.
pub open spec fn hex_of(b: Seq<u8>) -> Seq<char> {
    Seq::new(
        b.len() * 2,
        |i: int|
            if i % 2 == 0 {
                hex_digit(b[i / 2] as int / 16)
            } else {
                hex_digit(b[i / 2] as int % 16)
            },
    )
}

/// The display message used for a payload shown as binary.
pub open spec fn bytes_message(b: Seq<u8>) -> Seq<char> {
    seq!['(', 'b', 'y', 't', 'e', 's', ')', ' ', '0', 'x'] + hex_of(b)
}

/// Relies on `hex::encode`: it renders each input byte as two lowercase
/// hexadecimal digits, high nibble first, in input order, with no separator.
#[verifier::external_body]
fn hex_chars(bytes: &[u8]) -> (r: Vec<char>)
    ensures
        r@ == hex_of(bytes@),
{
    hex::encode(bytes).chars().collect()
}

/// The binary rendering of `bytes`, as characters.
pub fn bytes_message_chars(bytes: &[u8]) -> (r: Vec<char>)
    ensures
        r@ == bytes_message(bytes@),
{
    let mut v: Vec<char> = Vec::new();
    v.push('(');
    v.push('b');
    v.push('y');
    v.push('t');
    v.push('e');
    v.push('s');
    v.push(')');
    v.push(' ');
    v.push('0');
    v.push('x');
    let hexed = hex_chars(bytes);
    crate::chars::extend_chars(&mut v, &hexed);
    assert(v@ =~= bytes_message(bytes@));
    v
}

/// The binary rendering of `bytes`, as a `String`:
/// `(bytes) 0x` followed by the lowercase hex encoding of the bytes.
pub fn format_bytes(bytes: &[u8]) -> (r: String)
    ensures
        r@ == bytes_message(bytes@),
{
    let v = bytes_message_chars(bytes);
    chars_to_string(&v)
}

} // verus!
