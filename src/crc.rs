//! The sensor vendor's CRC-8 checksum (polynomial 0x31, seed 0xFF), which
//! protects every 16-bit word on the wire.
use vstd::prelude::*;

verus! {

/// One of the eight shift steps that follow each input byte.
pub open spec fn crc8_shift(crc: u8) -> u8 {
    if crc & 0x80 != 0 {
        ((crc << 1u8) ^ 0x31u8) as u8
    } else {
        (crc << 1u8) as u8
    }
}

/// The running checksum after `n` shift steps.
pub open spec fn crc8_shifts(crc: u8, n: nat) -> u8
    decreases n,
{
    if n == 0 {
        crc
    } else {
        crc8_shift(crc8_shifts(crc, (n - 1) as nat))
    }
}

/// The running checksum after one more input byte.
pub open spec fn crc8_feed(crc: u8, byte: u8) -> u8 {
    crc8_shifts(crc ^ byte, 8)
}

/// CRC-8 of `data`: seed 0xFF; each byte is xored in and followed by eight
/// shift steps.
pub open spec fn crc8_spec(data: Seq<u8>) -> u8
    decreases data.len(),
{
    if data.len() == 0 {
        0xFFu8
    } else {
        crc8_feed(crc8_spec(data.drop_last()), data.last())
    }
}

/// CRC-8 of the word made of the bytes `hi` and `lo`.
pub open spec fn crc8_word(hi: u8, lo: u8) -> u8 {
    crc8_spec(seq![hi, lo])
}

/// Relies on sensirion_i2c::crc8::calculate: the vendor CRC-8 of `data`.
#[verifier::external_body]
pub(crate) fn crc8(data: &[u8]) -> (r: u8)
    ensures
        r == crc8_spec(data@),
{
    sensirion_i2c::crc8::calculate(data)
}

/// Whether group `g` of `buf` (bytes `3g`, `3g+1`, `3g+2`) ends in the CRC-8
/// of its first two bytes.
pub open spec fn group_valid(buf: Seq<u8>, g: int) -> bool {
    crc8_word(buf[3 * g], buf[3 * g + 1]) == buf[3 * g + 2]
}

/// Whether each of the first `n` groups of `buf` carries a correct checksum.
pub open spec fn groups_valid(buf: Seq<u8>, n: int) -> bool {
    forall|g: int| 0 <= g < n ==> #[trigger] group_valid(buf, g)
}

/// Relies on sensirion_i2c::crc8::validate: it succeeds exactly when every
/// third byte of `buf` is the CRC-8 of the two bytes before it; it panics on
/// a length that is not a multiple of three.
#[verifier::external_body]
pub(crate) fn validate(buf: &[u8]) -> (r: bool)
    requires
        buf@.len() % 3 == 0,
    ensures
        r == groups_valid(buf@, buf@.len() as int / 3),
{
    sensirion_i2c::crc8::validate(buf).is_ok()
}

proof fn lemma_shift_injective(x: u8, y: u8)
    requires
        crc8_shift(x) == crc8_shift(y),
    ensures
        x == y,
{
    assert(((if x & 0x80 != 0 { ((x << 1u8) ^ 0x31u8) as u8 } else { (x << 1u8) as u8 })
        == (if y & 0x80 != 0 { ((y << 1u8) ^ 0x31u8) as u8 } else { (y << 1u8) as u8 }))
        ==> x == y) by (bit_vector);
}

proof fn lemma_shifts_injective(x: u8, y: u8, n: nat)
    requires
        crc8_shifts(x, n) == crc8_shifts(y, n),
    ensures
        x == y,
    decreases n,
{
    if n > 0 {
        lemma_shift_injective(crc8_shifts(x, (n - 1) as nat), crc8_shifts(y, (n - 1) as nat));
        lemma_shifts_injective(x, y, (n - 1) as nat);
    }
}

/// Feeding one byte into the checksum loses nothing: the running value
/// before it and the byte itself can each be told from the result.
pub proof fn lemma_feed_injective(c1: u8, b1: u8, c2: u8, b2: u8)
    requires
        crc8_feed(c1, b1) == crc8_feed(c2, b2),
        c1 == c2 || b1 == b2,
    ensures
        c1 == c2 && b1 == b2,
{
    lemma_shifts_injective(c1 ^ b1, c2 ^ b2, 8);
    assert((c1 ^ b1) == (c2 ^ b2) && (c1 == c2 || b1 == b2) ==> c1 == c2 && b1 == b2)
        by (bit_vector);
}

/// Two words that differ in exactly one of their two bytes have different
/// checksums.
pub proof fn lemma_word_checksum_detects_byte_change(hi1: u8, lo1: u8, hi2: u8, lo2: u8)
    requires
        (hi1 == hi2) != (lo1 == lo2),
    ensures
        crc8_word(hi1, lo1) != crc8_word(hi2, lo2),
{
    let s1 = seq![hi1, lo1];
    let s2 = seq![hi2, lo2];
    assert(s1.drop_last() =~= seq![hi1]);
    assert(s2.drop_last() =~= seq![hi2]);
    assert(seq![hi1].drop_last() =~= Seq::<u8>::empty());
    assert(seq![hi2].drop_last() =~= Seq::<u8>::empty());
    assert(crc8_spec(Seq::<u8>::empty()) == 0xFFu8);
    assert(seq![hi1].last() == hi1 && seq![hi2].last() == hi2);
    let a1 = crc8_spec(seq![hi1]);
    let a2 = crc8_spec(seq![hi2]);
    assert(a1 == crc8_feed(0xFFu8, hi1));
    assert(a2 == crc8_feed(0xFFu8, hi2));
    if crc8_word(hi1, lo1) == crc8_word(hi2, lo2) {
        if hi1 == hi2 {
            lemma_feed_injective(a1, lo1, a2, lo2);
        } else {
            lemma_feed_injective(a1, lo1, a2, lo2);
            lemma_feed_injective(0xFFu8, hi1, 0xFFu8, hi2);
        }
    }
}

/// Flipping any single bit of a two-byte word changes its checksum.
pub proof fn lemma_single_bit_flip_detected(hi: u8, lo: u8, bit: u8, in_hi: bool)
    requires
        bit < 8,
    ensures
        in_hi ==> crc8_word(hi, lo) != crc8_word(hi ^ (1u8 << bit), lo),
        !in_hi ==> crc8_word(hi, lo) != crc8_word(hi, lo ^ (1u8 << bit)),
{
    assert(bit < 8 ==> hi != hi ^ (1u8 << bit)) by (bit_vector);
    assert(bit < 8 ==> lo != lo ^ (1u8 << bit)) by (bit_vector);
    if in_hi {
        lemma_word_checksum_detects_byte_change(hi, lo, hi ^ (1u8 << bit), lo);
    } else {
        lemma_word_checksum_detects_byte_change(hi, lo, hi, lo ^ (1u8 << bit));
    }
}

} // verus!
