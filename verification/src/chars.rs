//! Character-sequence building blocks: decimal digit rendering (plain and
//! zero-padded) and small helpers for assembling lines as `Vec<char>`.

use vstd::prelude::*;

verus! {

/// The character for one decimal digit.
pub open spec fn dec_digit(d: int) -> char
    recommends
        0 <= d < 10,
{
    seq!['0', '1', '2', '3', '4', '5', '6', '7', '8', '9'][d]
}

/// The decimal rendering of a natural number, without padding and without a
/// sign: most significant digit first, a single '0' for zero.
pub open spec fn dec_nat(n: nat) -> Seq<char>
    decreases n,
{
    if n < 10 {
        seq![dec_digit(n as int)]
    } else {
        dec_nat(n / 10) + seq![dec_digit((n % 10) as int)]
    }
}

/// Two-digit zero-padded decimal rendering, for 0 <= v < 100.
pub open spec fn pad2(v: int) -> Seq<char>
    recommends
        0 <= v < 100,
{
    seq![dec_digit(v / 10), dec_digit(v % 10)]
}

/// Three-digit zero-padded decimal rendering, for 0 <= v < 1000.
pub open spec fn pad3(v: int) -> Seq<char>
    recommends
        0 <= v < 1000,
{
    seq![dec_digit(v / 100), dec_digit((v / 10) % 10), dec_digit(v % 10)]
}

/// Four-digit zero-padded decimal rendering, for 0 <= v < 10000.
pub open spec fn pad4(v: int) -> Seq<char>
    recommends
        0 <= v < 10000,
{
    seq![dec_digit(v / 1000), dec_digit((v / 100) % 10), dec_digit((v / 10) % 10), dec_digit(
        v % 10,
    )]
}

/// The character for one decimal digit, executable form.
pub fn digit_char(d: u32) -> (c: char)
    requires
        d < 10,
    ensures
        c == dec_digit(d as int),
{
    if d == 0 {
        '0'
    } else if d == 1 {
        '1'
    } else if d == 2 {
        '2'
    } else if d == 3 {
        '3'
    } else if d == 4 {
        '4'
    } else if d == 5 {
        '5'
    } else if d == 6 {
        '6'
    } else if d == 7 {
        '7'
    } else if d == 8 {
        '8'
    } else {
        '9'
    }
}

/// Appends the unpadded decimal rendering of `n` to `out`.
pub fn push_dec_u64(out: &mut Vec<char>, n: u64)
    ensures
        final(out)@ == old(out)@ + dec_nat(n as nat),
    decreases n,
{
    if n < 10 {
        out.push(digit_char(n as u32));
        assert(out@ =~= old(out)@ + dec_nat(n as nat));
    } else {
        push_dec_u64(out, n / 10);
        out.push(digit_char((n % 10) as u32));
        assert(out@ =~= old(out)@ + dec_nat(n as nat));
    }
}

/// Appends the two-digit zero-padded rendering of `v` to `out`.
pub fn push_pad2(out: &mut Vec<char>, v: u32)
    requires
        v < 100,
    ensures
        final(out)@ == old(out)@ + pad2(v as int),
{
    assert(v / 10 < 10 && v % 10 < 10) by (nonlinear_arith)
        requires
            v < 100,
    ;
    out.push(digit_char(v / 10));
    out.push(digit_char(v % 10));
    assert(out@ =~= old(out)@ + pad2(v as int));
}

/// Appends the three-digit zero-padded rendering of `v` to `out`.
pub fn push_pad3(out: &mut Vec<char>, v: u32)
    requires
        v < 1000,
    ensures
        final(out)@ == old(out)@ + pad3(v as int),
{
    assert(v / 100 < 10 && (v / 10) % 10 < 10 && v % 10 < 10) by (nonlinear_arith)
        requires
            v < 1000,
    ;
    out.push(digit_char(v / 100));
    out.push(digit_char((v / 10) % 10));
    out.push(digit_char(v % 10));
    assert(out@ =~= old(out)@ + pad3(v as int));
}

/// Appends the four-digit zero-padded rendering of `v` to `out`.
pub fn push_pad4(out: &mut Vec<char>, v: u32)
    requires
        v < 10000,
    ensures
        final(out)@ == old(out)@ + pad4(v as int),
{
    assert(v / 1000 < 10 && (v / 100) % 10 < 10 && (v / 10) % 10 < 10 && v % 10 < 10)
        by (nonlinear_arith)
        requires
            v < 10000,
    ;
    out.push(digit_char(v / 1000));
    out.push(digit_char((v / 100) % 10));
    out.push(digit_char((v / 10) % 10));
    out.push(digit_char(v % 10));
    assert(out@ =~= old(out)@ + pad4(v as int));
}

/// Appends every character of `src` to `dst`, in order.
pub fn extend_chars(dst: &mut Vec<char>, src: &Vec<char>)
    ensures
        final(dst)@ == old(dst)@ + src@,
{
    let n = src.len();
    let mut i: usize = 0;
    while i < n
        invariant
            i <= n,
            n == src@.len(),
            dst@ == old(dst)@ + src@.subrange(0, i as int),
        decreases n - i,
    {
        dst.push(src[i]);
        assert(dst@ =~= old(dst)@ + src@.subrange(0, i + 1));
        i = i + 1;
    }
    assert(dst@ =~= old(dst)@ + src@);
}

/// Relies on `String`'s `FromIterator<char>` implementation: collecting
/// characters yields the string whose characters are exactly those characters
/// in the same order.
#[verifier::external_body]
pub fn chars_to_string(v: &Vec<char>) -> (r: String)
    ensures
        r@ == v@,
{
    v.iter().collect()
}

} // verus!
