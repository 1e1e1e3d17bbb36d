//! The library's stated laws, proved once and for all: line count, order
//! preservation, the text round-trip, the binary fallback, determinism, and
//! the empty batch.

use vstd::prelude::*;
use vstd::arithmetic::div_mod::lemma_fundamental_div_mod;
use vstd::utf8::{decode_utf8, valid_utf8};
use crate::chars::{dec_digit, dec_nat};
use crate::classify::{char_unprintable, contains_unprintable, spec_message};
use crate::hexcode::{bytes_message, hex_of};
use crate::records::CanisterLogRecord;
use crate::render::spec_format_batch;

verus! {

/// Line-count invariant: a batch that renders at all renders to exactly one
/// display line per input record.
pub proof fn lemma_line_count(recs: Seq<CanisterLogRecord>)
    requires
        spec_format_batch(recs) is Some,
    ensures
        spec_format_batch(recs).unwrap().len() == recs.len(),
{
}

/// A decimal rendering is never empty, and has at least two digits for
/// numbers of ten and above.
pub proof fn lemma_dec_nat_nonempty(n: nat)
    ensures
        dec_nat(n).len() >= 1,
        n >= 10 ==> dec_nat(n).len() >= 2,
    decreases n,
{
    if n >= 10 {
        lemma_dec_nat_nonempty(n / 10);
    }
}

/// The ten decimal digit characters are pairwise distinct.
pub proof fn lemma_dec_digit_injective(a: int, b: int)
    requires
        0 <= a < 10,
        0 <= b < 10,
        dec_digit(a) == dec_digit(b),
    ensures
        a == b,
{
    assert(dec_digit(0) == '0');
    assert(dec_digit(1) == '1');
    assert(dec_digit(2) == '2');
    assert(dec_digit(3) == '3');
    assert(dec_digit(4) == '4');
    assert(dec_digit(5) == '5');
    assert(dec_digit(6) == '6');
    assert(dec_digit(7) == '7');
    assert(dec_digit(8) == '8');
    assert(dec_digit(9) == '9');
}

/// A decimal rendering consists of digit characters only. Together with the
/// `. ` that follows the index in a display line — and `.` is no digit — the
/// digits embedded after the opening `[` are delimited unambiguously.
pub proof fn lemma_dec_digit_range(d: int)
    requires
        0 <= d < 10,
    ensures
        '0' as u32 <= dec_digit(d) as u32 <= '9' as u32,
{
    assert(dec_digit(0) == '0');
    assert(dec_digit(1) == '1');
    assert(dec_digit(2) == '2');
    assert(dec_digit(3) == '3');
    assert(dec_digit(4) == '4');
    assert(dec_digit(5) == '5');
    assert(dec_digit(6) == '6');
    assert(dec_digit(7) == '7');
    assert(dec_digit(8) == '8');
    assert(dec_digit(9) == '9');
}

pub proof fn lemma_dec_nat_digits(n: nat)
    ensures
        forall|k: int|
            0 <= k < dec_nat(n).len() ==> '0' as u32 <= (#[trigger] dec_nat(n)[k]) as u32
                <= '9' as u32,
    decreases n,
{
    if n < 10 {
        lemma_dec_digit_range(n as int);
        assert(dec_nat(n)[0] == dec_digit(n as int));
    } else {
        lemma_dec_nat_digits(n / 10);
        lemma_dec_digit_range((n % 10) as int);
        assert forall|k: int| 0 <= k < dec_nat(n).len() implies '0' as u32 <= (#[trigger] dec_nat(
            n,
        )[k]) as u32 <= '9' as u32 by {
            if k < dec_nat(n / 10).len() {
                assert(dec_nat(n)[k] == dec_nat(n / 10)[k]);
            } else {
                assert(dec_nat(n)[k] == dec_digit((n % 10) as int));
            }
        }
    }
}

/// Two numbers with the same decimal rendering are equal, so a display line
/// embeds the index of its record unambiguously.
pub proof fn lemma_dec_nat_injective(a: nat, b: nat)
    requires
        dec_nat(a) == dec_nat(b),
    ensures
        a == b,
    decreases a,
{
    lemma_dec_nat_nonempty(a);
    lemma_dec_nat_nonempty(b);
    if a < 10 && b < 10 {
        assert(dec_nat(a)[0] == dec_digit(a as int));
        assert(dec_nat(b)[0] == dec_digit(b as int));
        lemma_dec_digit_injective(a as int, b as int);
    } else if a < 10 || b < 10 {
        assert(dec_nat(a).len() == dec_nat(b).len());
        assert(false);
    } else {
        assert(dec_nat(a).last() == dec_digit((a % 10) as int));
        assert(dec_nat(b).last() == dec_digit((b % 10) as int));
        lemma_dec_digit_injective((a % 10) as int, (b % 10) as int);
        assert(dec_nat(a).drop_last() =~= dec_nat(a / 10));
        assert(dec_nat(b).drop_last() =~= dec_nat(b / 10));
        lemma_dec_nat_injective(a / 10, b / 10);
        lemma_fundamental_div_mod(a as int, 10);
        lemma_fundamental_div_mod(b as int, 10);
    }
}

/// Order preservation: the i-th display line of a rendered batch embeds the
/// i-th input record's index — the line opens with `[`, then exactly the
/// decimal digits of that index, then `. `.
pub proof fn lemma_order_preservation(recs: Seq<CanisterLogRecord>, i: int)
    requires
        spec_format_batch(recs) is Some,
        0 <= i < recs.len(),
    ensures
        ({
            let line = spec_format_batch(recs).unwrap()[i];
            let digits = dec_nat(recs[i].idx as nat);
            &&& line.len() > 2 + digits.len()
            &&& line[0] == '['
            &&& line.subrange(1, 1 + digits.len() as int) == digits
            &&& line[1 + digits.len() as int] == '.'
            &&& line[2 + digits.len() as int] == ' '
        }),
{
    let line = spec_format_batch(recs).unwrap()[i];
    let digits = dec_nat(recs[i].idx as nat);
    assert(line.subrange(1, 1 + digits.len() as int) =~= digits);
}

/// Text round-trip: a payload that decodes as UTF-8 and whose characters are
/// all ordinarily printable (none needs a numeric escape) is shown verbatim
/// as the message.
pub proof fn lemma_text_round_trip(b: Seq<u8>, s: Seq<char>)
    requires
        valid_utf8(b),
        decode_utf8(b) == s,
        forall|i: int| 0 <= i < s.len() ==> !char_unprintable(s[i]),
    ensures
        spec_message(b) == s,
{
}

/// Binary fallback: a payload that is not valid UTF-8, or whose decoded text
/// contains a character needing a numeric escape, is shown as `(bytes) 0x`
/// followed by the lowercase hex encoding of the exact input bytes.
pub proof fn lemma_binary_fallback(b: Seq<u8>)
    requires
        !valid_utf8(b) || contains_unprintable(decode_utf8(b)),
    ensures
        spec_message(b) == bytes_message(b),
        spec_message(b) == seq!['(', 'b', 'y', 't', 'e', 's', ')', ' ', '0', 'x'] + hex_of(b),
{
}

/// Idempotence: what a batch renders to is a function of the records alone,
/// so two formatting results for the same batch are equal.
pub proof fn lemma_format_deterministic(
    recs: Seq<CanisterLogRecord>,
    r1: Option<Seq<Seq<char>>>,
    r2: Option<Seq<Seq<char>>>,
)
    requires
        r1 == spec_format_batch(recs),
        r2 == spec_format_batch(recs),
    ensures
        r1 == r2,
{
}

/// The empty batch renders to the empty sequence of lines.
pub proof fn lemma_empty_batch()
    ensures
        spec_format_batch(Seq::empty()) == Some(Seq::<Seq<char>>::empty()),
{
    assert(spec_format_batch(Seq::empty()).unwrap() =~= Seq::<Seq<char>>::empty());
}

} // verus!
