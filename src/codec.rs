//! The wire format: command opcodes, request payloads with their checksums,
//! and the validation of replies made of 3-byte word groups.
use vstd::prelude::*;

use crate::crc::{crc8, crc8_word, group_valid, groups_valid, validate};

verus! {

/// A command the sensor accepts.
#[derive(Debug, Clone, Copy, PartialEq, Eq, Structural)]
pub enum Command {
    /// Return the serial number.
    GetSerial,
    /// Run an on-chip self-test.
    SelfTest,
    /// Initialize air quality measurements.
    InitAirQuality,
    /// Get a current air quality measurement.
    MeasureAirQuality,
    /// Measure raw signals.
    MeasureRawSignals,
    /// Return the baseline value.
    GetBaseline,
    /// Set the baseline value.
    SetBaseline,
    /// Set the current absolute humidity.
    SetHumidity,
    /// Get the feature set.
    GetFeatureSet,
}

impl Command {
    /// The two opcode bytes of this command.
    pub open spec fn code(self) -> Seq<u8> {
        match self {
            Command::GetSerial => seq![0x36u8, 0x82u8],
            Command::SelfTest => seq![0x20u8, 0x32u8],
            Command::InitAirQuality => seq![0x20u8, 0x03u8],
            Command::MeasureAirQuality => seq![0x20u8, 0x08u8],
            Command::MeasureRawSignals => seq![0x20u8, 0x50u8],
            Command::GetBaseline => seq![0x20u8, 0x15u8],
            Command::SetBaseline => seq![0x20u8, 0x1Eu8],
            Command::SetHumidity => seq![0x20u8, 0x61u8],
            Command::GetFeatureSet => seq![0x20u8, 0x2Fu8],
        }
    }

    /// The opcode of this command, as sent on the bus.
    pub fn as_bytes(self) -> (r: [u8; 2])
        ensures
            r@ == self.code(),
    {
        let r = match self {
            Command::GetSerial => [0x36u8, 0x82u8],
            Command::SelfTest => [0x20u8, 0x32u8],
            Command::InitAirQuality => [0x20u8, 0x03u8],
            Command::MeasureAirQuality => [0x20u8, 0x08u8],
            Command::MeasureRawSignals => [0x20u8, 0x50u8],
            Command::GetBaseline => [0x20u8, 0x15u8],
            Command::SetBaseline => [0x20u8, 0x1Eu8],
            Command::SetHumidity => [0x20u8, 0x61u8],
            Command::GetFeatureSet => [0x20u8, 0x2Fu8],
        };
        assert(r@ =~= self.code());
        r
    }

    /// This command followed by `data`, each 2-byte word of it followed by
    /// its checksum. `data` holds one or two words.
    pub fn as_bytes_with_data(self, data: &[u8]) -> (r: Vec<u8>)
        requires
            data@.len() == 2 || data@.len() == 4,
        ensures
            r@ == request_bytes(self, data@),
            r@.len() == 2 + data@.len() / 2 * 3,
    {
        let code = self.as_bytes();
        let mut r: Vec<u8> = Vec::new();
        r.push(code[0]);
        r.push(code[1]);
        r.push(data[0]);
        r.push(data[1]);
        r.push(crc8(&data[0..2]));
        assert(data@.subrange(0, 2) =~= seq![data@[0], data@[1]]);
        if data.len() > 2 {
            r.push(data[2]);
            r.push(data[3]);
            r.push(crc8(&data[2..4]));
            assert(data@.subrange(2, 4) =~= seq![data@[2], data@[3]]);
        }
        proof {
            lemma_framed_unfold(data@);
            if data@.len() > 2 {
                lemma_framed_unfold(data@.skip(2));
                assert(data@.skip(2).skip(2) =~= Seq::<u8>::empty());
            } else {
                assert(data@.skip(2) =~= Seq::<u8>::empty());
            }
            assert(r@ =~= request_bytes(self, data@));
        }
        r
    }
}

/// `data` cut into 2-byte words, each followed by its checksum; a last odd
/// byte is dropped.
pub open spec fn framed(data: Seq<u8>) -> Seq<u8>
    decreases data.len(),
{
    if data.len() < 2 {
        Seq::empty()
    } else {
        seq![data[0], data[1], crc8_word(data[0], data[1])] + framed(data.skip(2))
    }
}

proof fn lemma_framed_unfold(data: Seq<u8>)
    requires
        data.len() >= 2,
    ensures
        framed(data) == seq![data[0], data[1], crc8_word(data[0], data[1])] + framed(data.skip(2)),
{
}

/// The bytes of a request: the opcode, then the framed data.
pub open spec fn request_bytes(command: Command, data: Seq<u8>) -> Seq<u8> {
    command.code() + framed(data)
}

/// The 16-bit value of the big-endian byte pair `hi`, `lo`.
pub open spec fn be_word(hi: u8, lo: u8) -> u16 {
    (hi as int * 256 + lo as int) as u16
}

/// The big-endian bytes of `v`.
pub open spec fn be_bytes(v: u16) -> Seq<u8> {
    seq![(v / 256) as u8, (v % 256) as u8]
}

/// The 16-bit words that `data` holds, two bytes each, big-endian.
pub open spec fn words_of(data: Seq<u8>) -> Seq<u16> {
    Seq::new(data.len() / 2, |i: int| be_word(data[2 * i], data[2 * i + 1]))
}

/// The word carried by group `g` of a reply.
pub open spec fn group_word(buf: Seq<u8>, g: int) -> u16 {
    be_word(buf[3 * g], buf[3 * g + 1])
}

/// The words of a reply, one per whole 3-byte group (a shorter tail is not a
/// group), or `None` when any group's checksum is wrong.
pub open spec fn decoded_words(buf: Seq<u8>) -> Option<Seq<u16>> {
    let n = buf.len() / 3;
    if groups_valid(buf, n as int) {
        Some(Seq::new(n, |g: int| group_word(buf, g)))
    } else {
        None
    }
}

/// A reply group whose checksum does not match its two data bytes.
#[derive(Debug, Clone, Copy, PartialEq, Eq, Structural)]
pub struct ChecksumError;

/// The big-endian bytes of `v`.
pub(crate) fn u16_to_be(v: u16) -> (r: [u8; 2])
    ensures
        r@ == be_bytes(v),
        be_word(r@[0], r@[1]) == v,
{
    let r = [(v / 256) as u8, (v % 256) as u8];
    assert(r@ =~= be_bytes(v));
    r
}

/// The big-endian value of the bytes `hi`, `lo`.
fn be_to_u16(hi: u8, lo: u8) -> (r: u16)
    ensures
        r == be_word(hi, lo),
{
    hi as u16 * 256 + lo as u16
}

/// Checks each whole 3-byte group of `buf` against its checksum and returns
/// the words they carry; bytes after the last whole group are ignored.
pub fn decode_words_with_crc(buf: &[u8]) -> (r: Result<Vec<u16>, ChecksumError>)
    ensures
        match decoded_words(buf@) {
            Some(w) => r is Ok && r->Ok_0@ == w,
            None => r == Err::<Vec<u16>, ChecksumError>(ChecksumError),
        },
{
    let len: usize = buf.len();
    let n: usize = len / 3;
    let whole: usize = n * 3;
    let groups = &buf[0..whole];
    proof {
        assert forall|g: int| 0 <= g < n implies group_valid(groups@, g) == group_valid(buf@, g) by {
            assert(3 * g + 2 < whole);
        }
        assert(groups@.len() as int / 3 == n);
    }
    if !validate(groups) {
        return Err(ChecksumError);
    }
    let mut words: Vec<u16> = Vec::new();
    let mut g: usize = 0;
    while g < n
        invariant
            len == buf@.len(),
            n == buf@.len() / 3,
            g <= n,
            words@ =~= Seq::new(g as nat, |i: int| group_word(buf@, i)),
        decreases n - g,
    {
        assert(3 * g + 2 < buf@.len()) by (nonlinear_arith)
            requires
                g < n,
                n == buf@.len() / 3,
        ;
        let w = be_to_u16(buf[3 * g], buf[3 * g + 1]);
        words.push(w);
        g += 1;
    }
    Ok(words)
}

/// Decoding the data groups of a request gives back the words it was built
/// from: every checksum that encoding appended matches the one recomputed
/// from its data bytes.
pub proof fn lemma_request_round_trip(command: Command, data: Seq<u8>)
    requires
        data.len() == 2 || data.len() == 4,
    ensures
        decoded_words(request_bytes(command, data).skip(2)) == Some(words_of(data)),
{
    let body = request_bytes(command, data).skip(2);
    assert(body =~= framed(data));
    lemma_framed_unfold(data);
    if data.len() == 4 {
        lemma_framed_unfold(data.skip(2));
        assert(data.skip(2).skip(2) =~= Seq::<u8>::empty());
        assert(body =~= seq![data[0], data[1], crc8_word(data[0], data[1]), data[2], data[3], crc8_word(data[2], data[3])]);
        assert(group_valid(body, 0));
        assert(group_valid(body, 1));
    } else {
        assert(data.skip(2) =~= Seq::<u8>::empty());
        assert(body =~= seq![data[0], data[1], crc8_word(data[0], data[1])]);
        assert(group_valid(body, 0));
    }
    assert(groups_valid(body, body.len() as int / 3));
    assert(Seq::new(body.len() / 3, |g: int| group_word(body, g)) =~= words_of(data));
}

} // verus!
