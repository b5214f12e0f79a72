//! The five-byte DWI frame, shared by every device of the protocol.
//!
//! Layout: `[0] identification  [1] command  [2] data low  [3] data high  [4] checksum`.
//! A frame is intact when its five bytes sum to zero modulo 256.

use vstd::prelude::*;

verus! {

/// Identification byte of a request (master to inverter).
pub const REQ_ID: u8 = 0xA5;

/// Identification byte of a response (inverter to master).
pub const RESP_ID: u8 = 0x5A;

/// Sum of the five bytes of a frame, as a mathematical integer.
pub open spec fn frame_sum(f: Seq<u8>) -> int {
    f[0] + f[1] + f[2] + f[3] + f[4]
}

/// A frame is intact when its bytes sum to zero modulo 256.
pub open spec fn intact(f: Seq<u8>) -> bool {
    f.len() == 5 && frame_sum(f) % 256 == 0
}

/// The checksum byte that makes `id + cmd + lo + hi + ck` vanish modulo 256.
pub open spec fn checksum_of(id: u8, cmd: u8, lo: u8, hi: u8) -> u8 {
    ((256 - (id + cmd + lo + hi) % 256) % 256) as u8
}

/// Low byte of a little-endian data word.
pub open spec fn low_byte(data: u16) -> u8 {
    (data % 256) as u8
}

/// High byte of a little-endian data word.
pub open spec fn high_byte(data: u16) -> u8 {
    (data / 256) as u8
}

/// The unsigned word carried by a little-endian byte pair.
pub open spec fn word_of(lo: u8, hi: u8) -> u16 {
    (lo + 256 * hi) as u16
}

/// The two's-complement reading of a 16-bit word.
pub open spec fn signed_of(w: u16) -> int {
    if w < 0x8000 {
        w as int
    } else {
        w - 0x1_0000
    }
}

/// Checksum byte of a request or response frame: the two's complement of the
/// sum of the four bytes before it.
pub fn checksum(id: u8, cmd: u8, lo: u8, hi: u8) -> (ck: u8)
    ensures
        ck == checksum_of(id, cmd, lo, hi),
        (id + cmd + lo + hi + ck) % 256 == 0,
{
    let sum = id.wrapping_add(cmd).wrapping_add(lo).wrapping_add(hi);
    assert(sum == (id + cmd + lo + hi) % 256);
    0u8.wrapping_sub(sum)
}

/// Unsigned word from a little-endian byte pair.
pub fn le_u16(bytes: [u8; 2]) -> (w: u16)
    ensures
        w == word_of(bytes[0], bytes[1]),
{
    let lo = bytes[0];
    let hi = bytes[1];
    let w = (lo as u16) | ((hi as u16) << 8);
    assert((lo as u16) | ((hi as u16) << 8) == lo + 256 * hi) by (bit_vector);
    w
}

/// Signed word from a little-endian byte pair.
pub fn le_i16(bytes: [u8; 2]) -> (v: i16)
    ensures
        v == signed_of(word_of(bytes[0], bytes[1])),
{
    to_signed(le_u16(bytes))
}

/// Reinterpret a 16-bit word as two's complement.
pub fn to_signed(w: u16) -> (v: i16)
    ensures
        v == signed_of(w),
{
    let v = w as i16;
    assert(w < 0x8000 ==> (w as i16) == w) by (bit_vector);
    assert(w >= 0x8000 ==> (w as i16) == w - 0x1_0000) by (bit_vector);
    v
}

/// A frame is intact exactly when its five bytes add up to a multiple of 256.
pub proof fn lemma_intact_is_zero_sum(f: Seq<u8>)
    requires
        f.len() == 5,
    ensures
        intact(f) <==> (f[0] as int + f[1] as int + f[2] as int + f[3] as int + f[4] as int) % 256
            == 0,
{
}

/// The byte and word helpers, stated as arithmetic: the low byte is the
/// remainder by 256, the high byte the quotient, a byte pair weighs its high
/// byte by 256, and the signed reading agrees with the word modulo 2^16.
pub proof fn lemma_word_arithmetic(w: u16, lo: u8, hi: u8)
    ensures
        low_byte(w) as int == w as int % 256,
        high_byte(w) as int == w as int / 256,
        word_of(lo, hi) as int == lo as int + 256 * hi as int,
        -0x8000 <= signed_of(w) < 0x8000,
        (signed_of(w) - w as int) % 0x1_0000 == 0,
{
}

/// The checksum byte is the one byte that cancels the sum of the four bytes
/// before it modulo 256.
pub proof fn lemma_checksum_cancels(id: u8, cmd: u8, lo: u8, hi: u8, ck: u8)
    ensures
        (id as int + cmd as int + lo as int + hi as int + checksum_of(id, cmd, lo, hi) as int) % 256
            == 0,
        (id as int + cmd as int + lo as int + hi as int + ck as int) % 256 == 0 ==> ck
            == checksum_of(id, cmd, lo, hi),
{
}

/// Splitting a word into its little-endian bytes and joining them again
/// gives the word back.
pub proof fn lemma_word_round_trip(w: u16)
    ensures
        word_of(low_byte(w), high_byte(w)) == w,
{
}

/// A byte with bit `b` flipped differs from the original by exactly `2^b`,
/// up or down.
proof fn lemma_bit_flip_delta(x: u8, b: u8)
    requires
        b < 8,
    ensures
        (x ^ (1u8 << b)) == x + (1u8 << b) || (x ^ (1u8 << b)) == x - (1u8 << b),
        1 <= (1u8 << b) <= 128,
{
    assert(b < 8 ==> ((x ^ (1u8 << b)) == x + (1u8 << b) || (x ^ (1u8 << b)) == x - (1u8 << b)))
        by (bit_vector);
    assert(b < 8 ==> 1 <= (1u8 << b) <= 128) by (bit_vector);
}

/// Flipping any single bit of an intact frame breaks its checksum: a
/// one-bit transmission error is always detected.
pub proof fn lemma_single_bit_error_detected(f: Seq<u8>, i: int, b: u8)
    requires
        intact(f),
        0 <= i < 5,
        b < 8,
    ensures
        !intact(f.update(i, f[i] ^ (1u8 << b))),
{
    let g = f.update(i, f[i] ^ (1u8 << b));
    lemma_bit_flip_delta(f[i], b);
    let d = (1u8 << b) as int;
    assert(frame_sum(g) == frame_sum(f) + d || frame_sum(g) == frame_sum(f) - d);
    let s = frame_sum(f);
    assert(s % 256 == 0 && 1 <= d <= 128 ==> (s + d) % 256 != 0 && (s - d) % 256 != 0)
        by (nonlinear_arith);
}

} // verus!
