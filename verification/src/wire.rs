//! The wire layout of a single-precision register value. A value whose
//! little-endian byte sequence is `[a, b, c, d]` travels as the byte
//! sequence `[c, d, a, b]`: two 16-bit words, the low-order word first,
//! each word itself in big-endian byte order. Encoding is a pure byte
//! permutation, so a round trip loses nothing.

use vstd::prelude::*;

verus! {

/// The low byte of a bit pattern.
pub open spec fn byte0(bits: u32) -> u8 {
    (bits & 0xFF) as u8
}

/// The second byte of a bit pattern.
pub open spec fn byte1(bits: u32) -> u8 {
    ((bits >> 8) & 0xFF) as u8
}

/// The third byte of a bit pattern.
pub open spec fn byte2(bits: u32) -> u8 {
    ((bits >> 16) & 0xFF) as u8
}

/// The high byte of a bit pattern.
pub open spec fn byte3(bits: u32) -> u8 {
    ((bits >> 24) & 0xFF) as u8
}

/// The bit pattern whose wire byte sequence is `[c, d, a, b]`, that is,
/// whose little-endian byte sequence is `[a, b, c, d]`.
pub open spec fn bits_of_cdab(c: u8, d: u8, a: u8, b: u8) -> u32 {
    a as u32 | (b as u32) << 8 | (c as u32) << 16 | (d as u32) << 24
}

/// The 16-bit wire word transmitted first: bytes `[c, d]` in big-endian
/// word order, where `[a, b, c, d]` is the value's little-endian sequence.
pub open spec fn wire_word_first(bits: u32) -> u16 {
    ((byte2(bits) as u16) << 8 | byte3(bits) as u16) as u16
}

/// The 16-bit wire word transmitted second: bytes `[a, b]` in big-endian
/// word order.
pub open spec fn wire_word_second(bits: u32) -> u16 {
    ((byte0(bits) as u16) << 8 | byte1(bits) as u16) as u16
}

/// The bit pattern read back from the two wire words, first word first.
pub open spec fn bits_of_wire_words(first: u16, second: u16) -> u32 {
    bits_of_cdab((first >> 8) as u8, (first & 0xFF) as u8, (second >> 8) as u8, (
    second & 0xFF) as u8)
}

/// A register value in its wire byte order.
#[derive(Clone, Copy)]
pub struct FloatCDAB {
    raw: [u8; 4],
}

impl FloatCDAB {
    /// The bit pattern this wire value stands for.
    pub closed spec fn spec_bits(self) -> u32 {
        bits_of_cdab(self.raw[0], self.raw[1], self.raw[2], self.raw[3])
    }

    /// Permutes a value's bytes into wire order.
    pub fn from_bits(bits: u32) -> (r: FloatCDAB)
        ensures
            r.spec_bits() == bits,
            r.raw_view() == seq![byte2(bits), byte3(bits), byte0(bits), byte1(bits)],
    {
        let a: u8 = (bits & 0xFF) as u8;
        let b: u8 = ((bits >> 8u32) & 0xFF) as u8;
        let c: u8 = ((bits >> 16u32) & 0xFF) as u8;
        let d: u8 = ((bits >> 24u32) & 0xFF) as u8;
        let r = FloatCDAB { raw: [c, d, a, b] };
        proof {
            lemma_cdab_round_trip(bits);
        }
        r
    }

    /// The wire bytes in transmission order, as a sequence.
    pub closed spec fn raw_view(self) -> Seq<u8> {
        self.raw@
    }

    /// Reads the value's bit pattern back out of wire order.
    pub fn to_bits(&self) -> (r: u32)
        ensures
            r == self.spec_bits(),
    {
        (self.raw[2] as u32) | ((self.raw[3] as u32) << 8u32) | ((self.raw[0] as u32) << 16u32) | (
        (self.raw[1] as u32) << 24u32)
    }

    /// The wire value as its four raw bytes, in transmission order.
    pub fn raw_bytes(&self) -> (r: [u8; 4])
        ensures
            r@ == self.raw_view(),
    {
        self.raw
    }

    /// Rebuilds a wire value from its four raw bytes, in transmission order.
    pub fn from_raw_bytes(raw: [u8; 4]) -> (r: FloatCDAB)
        ensures
            r.raw_view() == raw@,
            r.spec_bits() == bits_of_cdab(raw[0], raw[1], raw[2], raw[3]),
    {
        FloatCDAB { raw }
    }
}

/// Round trip through the wire byte order: permuting a value's bytes into
/// wire order and reading them back yields the value, for every bit
/// pattern, so the encoding is lossless.
pub proof fn lemma_cdab_round_trip(bits: u32)
    by (bit_vector)
    ensures
        bits_of_cdab(byte2(bits), byte3(bits), byte0(bits), byte1(bits)) == bits,
{
}

/// Splits a bit pattern into its two wire words, low-order word first.
pub fn encode_wire_words(bits: u32) -> (r: (u16, u16))
    ensures
        r.0 == wire_word_first(bits),
        r.1 == wire_word_second(bits),
{
    let c: u16 = ((bits >> 16u32) & 0xFF) as u16;
    let d: u16 = ((bits >> 24u32) & 0xFF) as u16;
    let a: u16 = (bits & 0xFF) as u16;
    let b: u16 = ((bits >> 8u32) & 0xFF) as u16;
    assert(((bits >> 16) & 0xFF) as u16 == ((bits >> 16) & 0xFF) as u8 as u16) by (bit_vector);
    assert(((bits >> 24) & 0xFF) as u16 == ((bits >> 24) & 0xFF) as u8 as u16) by (bit_vector);
    assert((bits & 0xFF) as u16 == (bits & 0xFF) as u8 as u16) by (bit_vector);
    assert(((bits >> 8) & 0xFF) as u16 == ((bits >> 8) & 0xFF) as u8 as u16) by (bit_vector);
    ((c << 8u16) | d, (a << 8u16) | b)
}

/// Joins two wire words, low-order word first, back into a bit pattern.
pub fn decode_wire_words(first: u16, second: u16) -> (r: u32)
    ensures
        r == bits_of_wire_words(first, second),
{
    let c: u32 = (first >> 8u16) as u32;
    let d: u32 = (first & 0xFF) as u32;
    let a: u32 = (second >> 8u16) as u32;
    let b: u32 = (second & 0xFF) as u32;
    assert((first >> 8) as u32 == (first >> 8) as u8 as u32) by (bit_vector);
    assert((first & 0xFF) as u32 == (first & 0xFF) as u8 as u32) by (bit_vector);
    assert((second >> 8) as u32 == (second >> 8) as u8 as u32) by (bit_vector);
    assert((second & 0xFF) as u32 == (second & 0xFF) as u8 as u32) by (bit_vector);
    a | (b << 8u32) | (c << 16u32) | (d << 24u32)
}

/// Round trip through the wire words: splitting a bit pattern into its two
/// wire words and joining them back yields the pattern, for every pattern.
pub proof fn lemma_wire_words_round_trip(bits: u32)
    by (bit_vector)
    ensures
        bits_of_wire_words(wire_word_first(bits), wire_word_second(bits)) == bits,
{
}

/// Joining any two wire words and splitting the result again yields the
/// same two words: the wire pairing misses no 16-bit word values.
pub proof fn lemma_wire_words_complete(first: u16, second: u16)
    by (bit_vector)
    ensures
        wire_word_first(bits_of_wire_words(first, second)) == first,
        wire_word_second(bits_of_wire_words(first, second)) == second,
{
}

} // verus!
