//! Fixed-width unsigned integers as bytes, in either byte order.
//!
//! Records on disk are little-endian. A decoded buffer holds its values in an
//! order that the caller names, which for a buffer read back as native values
//! is the order of the machine. Signed integers and floating-point values travel
//! as their bit patterns: two's complement, binary32 and binary64.

use byteorder::{BigEndian, ByteOrder, LittleEndian, NativeEndian};
use vstd::prelude::*;
use vstd::slice::slice_subrange;

verus! {

/// Order of the bytes of a multi-byte value.
#[derive(Clone, Copy, Debug, PartialEq, Eq, Structural)]
pub enum Endianness {
    Little,
    Big,
}

/// The 16-bit value whose little-endian bytes stand at `at`.
#[verifier::opaque]
pub open spec fn le_value_u16(bytes: Seq<u8>, at: int) -> u16 {
    (bytes[at] + 0x100 * bytes[at + 1]) as u16
}

/// The 32-bit value whose little-endian bytes stand at `at`.
#[verifier::opaque]
pub open spec fn le_value_u32(bytes: Seq<u8>, at: int) -> u32 {
    (bytes[at] + 0x100 * bytes[at + 1] + 0x1_0000 * bytes[at + 2] + 0x100_0000 * bytes[at + 3]) as u32
}

/// The 64-bit value whose little-endian bytes stand at `at`.
#[verifier::opaque]
pub open spec fn le_value_u64(bytes: Seq<u8>, at: int) -> u64 {
    (bytes[at] + 0x100 * bytes[at + 1] + 0x1_0000 * bytes[at + 2] + 0x100_0000 * bytes[at + 3]
        + 0x1_0000_0000 * bytes[at + 4] + 0x100_0000_0000 * bytes[at + 5] + 0x1_0000_0000_0000
        * bytes[at + 6] + 0x100_0000_0000_0000 * bytes[at + 7]) as u64
}

/// The 16-bit value whose big-endian bytes stand at `at`.
pub open spec fn be_value_u16(bytes: Seq<u8>, at: int) -> u16 {
    (0x100 * bytes[at] + bytes[at + 1]) as u16
}

/// The little-endian bytes of a 16-bit value.
pub open spec fn le_bytes_u16(v: u16) -> Seq<u8> {
    seq![(v % 0x100) as u8, (v / 0x100) as u8]
}

/// The little-endian bytes of a 32-bit value.
pub open spec fn le_bytes_u32(v: u32) -> Seq<u8> {
    seq![
        (v % 0x100) as u8,
        (v / 0x100 % 0x100) as u8,
        (v / 0x1_0000 % 0x100) as u8,
        (v / 0x100_0000) as u8,
    ]
}

/// The little-endian bytes of a 64-bit value.
pub open spec fn le_bytes_u64(v: u64) -> Seq<u8> {
    seq![
        (v % 0x100) as u8,
        (v / 0x100 % 0x100) as u8,
        (v / 0x1_0000 % 0x100) as u8,
        (v / 0x100_0000 % 0x100) as u8,
        (v / 0x1_0000_0000 % 0x100) as u8,
        (v / 0x100_0000_0000 % 0x100) as u8,
        (v / 0x1_0000_0000_0000 % 0x100) as u8,
        (v / 0x100_0000_0000_0000) as u8,
    ]
}

/// Little-endian bytes put into the given order.
pub open spec fn in_order(order: Endianness, little: Seq<u8>) -> Seq<u8> {
    match order {
        Endianness::Little => little,
        Endianness::Big => little.reverse(),
    }
}

/// The bytes of a 16-bit value in the given order.
pub open spec fn bytes_u16(order: Endianness, v: u16) -> Seq<u8> {
    in_order(order, le_bytes_u16(v))
}

/// The bytes of a 32-bit value in the given order.
pub open spec fn bytes_u32(order: Endianness, v: u32) -> Seq<u8> {
    in_order(order, le_bytes_u32(v))
}

/// The bytes of a 64-bit value in the given order.
pub open spec fn bytes_u64(order: Endianness, v: u64) -> Seq<u8> {
    in_order(order, le_bytes_u64(v))
}

/// Calls `byteorder::LittleEndian::read_u16`, which reads the first two bytes
/// of the slice as a little-endian value and panics on a shorter slice.
#[verifier::external_body]
fn little_endian_read_u16(bytes: &[u8]) -> (v: u16)
    requires
        bytes@.len() >= 2,
    ensures
        v == le_value_u16(bytes@, 0),
{
    LittleEndian::read_u16(bytes)
}

/// Calls `byteorder::LittleEndian::read_u32`, which reads the first four bytes
/// of the slice as a little-endian value and panics on a shorter slice.
#[verifier::external_body]
fn little_endian_read_u32(bytes: &[u8]) -> (v: u32)
    requires
        bytes@.len() >= 4,
    ensures
        v == le_value_u32(bytes@, 0),
{
    LittleEndian::read_u32(bytes)
}

/// Calls `byteorder::LittleEndian::read_u64`, which reads the first eight bytes
/// of the slice as a little-endian value and panics on a shorter slice.
#[verifier::external_body]
fn little_endian_read_u64(bytes: &[u8]) -> (v: u64)
    requires
        bytes@.len() >= 8,
    ensures
        v == le_value_u64(bytes@, 0),
{
    LittleEndian::read_u64(bytes)
}

/// Calls `byteorder::NativeEndian::read_u16`, which is the little-endian or the
/// big-endian reader, whichever the machine's byte order is.
#[verifier::external_body]
fn native_endian_read_u16(bytes: &[u8]) -> (v: u16)
    requires
        bytes@.len() >= 2,
    ensures
        v == le_value_u16(bytes@, 0) || v == be_value_u16(bytes@, 0),
{
    NativeEndian::read_u16(bytes)
}

/// Calls `byteorder::LittleEndian::write_u16` on a buffer of two bytes, which
/// it fills with the value's little-endian bytes.
#[verifier::external_body]
fn little_endian_write_u16(v: u16) -> (out: Vec<u8>)
    ensures
        out@ == le_bytes_u16(v),
{
    let mut out = vec![0u8; 2];
    LittleEndian::write_u16(&mut out, v);
    out
}

/// Calls `byteorder::LittleEndian::write_u32` on a buffer of four bytes, which
/// it fills with the value's little-endian bytes.
#[verifier::external_body]
fn little_endian_write_u32(v: u32) -> (out: Vec<u8>)
    ensures
        out@ == le_bytes_u32(v),
{
    let mut out = vec![0u8; 4];
    LittleEndian::write_u32(&mut out, v);
    out
}

/// Calls `byteorder::LittleEndian::write_u64` on a buffer of eight bytes, which
/// it fills with the value's little-endian bytes.
#[verifier::external_body]
fn little_endian_write_u64(v: u64) -> (out: Vec<u8>)
    ensures
        out@ == le_bytes_u64(v),
{
    let mut out = vec![0u8; 8];
    LittleEndian::write_u64(&mut out, v);
    out
}

/// Calls `byteorder::BigEndian::write_u16` on a buffer of two bytes, which it
/// fills with the value's bytes, most significant first.
#[verifier::external_body]
fn big_endian_write_u16(v: u16) -> (out: Vec<u8>)
    ensures
        out@ == le_bytes_u16(v).reverse(),
{
    let mut out = vec![0u8; 2];
    BigEndian::write_u16(&mut out, v);
    out
}

/// Calls `byteorder::BigEndian::write_u32` on a buffer of four bytes, which it
/// fills with the value's bytes, most significant first.
#[verifier::external_body]
fn big_endian_write_u32(v: u32) -> (out: Vec<u8>)
    ensures
        out@ == le_bytes_u32(v).reverse(),
{
    let mut out = vec![0u8; 4];
    BigEndian::write_u32(&mut out, v);
    out
}

/// Calls `byteorder::BigEndian::write_u64` on a buffer of eight bytes, which it
/// fills with the value's bytes, most significant first.
#[verifier::external_body]
fn big_endian_write_u64(v: u64) -> (out: Vec<u8>)
    ensures
        out@ == le_bytes_u64(v).reverse(),
{
    let mut out = vec![0u8; 8];
    BigEndian::write_u64(&mut out, v);
    out
}

impl Endianness {
    /// The byte order of the machine that runs this code, which is the order
    /// of buffers that are read back as native values. It is found by reading
    /// the bytes 1, 0 as a native 16-bit value.
    pub fn native() -> (order: Endianness) {
        let mut probe: Vec<u8> = Vec::new();
        probe.push(1);
        probe.push(0);
        let seen = native_endian_read_u16(probe.as_slice());
        assert(seen == 1 || seen == 0x100) by {
            reveal(le_value_u16);
        }
        // The probe reads as 1 where the low byte stands first.
        Endianness::order_of_probe(seen)
    }

    /// The byte order in which the bytes 1, 0 read as the 16-bit value `seen`:
    /// little-endian where they read as 1, else big-endian.
    pub open spec fn spec_order_of_probe(seen: u16) -> Endianness {
        if seen == 1 {
            Endianness::Little
        } else {
            Endianness::Big
        }
    }

    /// The byte order of a machine on which the bytes 1, 0 read as the native
    /// 16-bit value `seen`: little-endian where the low byte stands first, so
    /// that they read as 1, and big-endian where they read as 256.
    pub fn order_of_probe(seen: u16) -> (order: Endianness)
        ensures
            order == Self::spec_order_of_probe(seen),
            seen == le_value_u16(seq![1u8, 0u8], 0) ==> order == Endianness::Little,
            seen == be_value_u16(seq![1u8, 0u8], 0) ==> order == Endianness::Big,
    {
        proof {
            reveal(le_value_u16);
        }
        if seen == 1 {
            Endianness::Little
        } else {
            Endianness::Big
        }
    }
}

/// Reads the little-endian 16-bit value at `at`.
pub fn read_u16_at(source: &[u8], at: usize) -> (v: u16)
    requires
        at + 2 <= source.len(),
    ensures
        v == le_value_u16(source@, at as int),
{
    reveal(le_value_u16);
    little_endian_read_u16(slice_subrange(source, at, at + 2))
}

/// Reads the little-endian 32-bit value at `at`.
pub fn read_u32_at(source: &[u8], at: usize) -> (v: u32)
    requires
        at + 4 <= source.len(),
    ensures
        v == le_value_u32(source@, at as int),
{
    reveal(le_value_u32);
    little_endian_read_u32(slice_subrange(source, at, at + 4))
}

/// Reads the little-endian 64-bit value at `at`.
pub fn read_u64_at(source: &[u8], at: usize) -> (v: u64)
    requires
        at + 8 <= source.len(),
    ensures
        v == le_value_u64(source@, at as int),
{
    reveal(le_value_u64);
    little_endian_read_u64(slice_subrange(source, at, at + 8))
}

/// The bytes of a 16-bit value in the given order.
pub fn encode_u16(order: Endianness, v: u16) -> (out: Vec<u8>)
    ensures
        out@ == bytes_u16(order, v),
        out@.len() == 2,
{
    match order {
        Endianness::Little => little_endian_write_u16(v),
        Endianness::Big => big_endian_write_u16(v),
    }
}

/// The bytes of a 32-bit value in the given order.
pub fn encode_u32(order: Endianness, v: u32) -> (out: Vec<u8>)
    ensures
        out@ == bytes_u32(order, v),
        out@.len() == 4,
{
    match order {
        Endianness::Little => little_endian_write_u32(v),
        Endianness::Big => big_endian_write_u32(v),
    }
}

/// The bytes of a 64-bit value in the given order.
pub fn encode_u64(order: Endianness, v: u64) -> (out: Vec<u8>)
    ensures
        out@ == bytes_u64(order, v),
        out@.len() == 8,
{
    match order {
        Endianness::Little => little_endian_write_u64(v),
        Endianness::Big => big_endian_write_u64(v),
    }
}

/// The little-endian bytes of a 16-bit value hold that value.
pub proof fn lemma_u16_round_trip(v: u16)
    ensures
        le_value_u16(le_bytes_u16(v), 0) == v,
{
    reveal(le_value_u16);
}

/// The little-endian bytes of a 32-bit value hold that value.
pub proof fn lemma_u32_round_trip(v: u32)
    ensures
        le_value_u32(le_bytes_u32(v), 0) == v,
{
    reveal(le_value_u32);
}

/// The little-endian bytes of a 64-bit value hold that value.
pub proof fn lemma_u64_round_trip(v: u64)
    ensures
        le_value_u64(le_bytes_u64(v), 0) == v,
{
    let low = (v % 0x1_0000_0000) as u32;
    let high = (v / 0x1_0000_0000) as u32;
    assert(v % 0x100 == (v % 0x1_0000_0000) as u32 % 0x100) by (bit_vector);
    assert(v / 0x100 % 0x100 == (v % 0x1_0000_0000) as u32 / 0x100 % 0x100) by (bit_vector);
    assert(v / 0x1_0000 % 0x100 == (v % 0x1_0000_0000) as u32 / 0x1_0000 % 0x100)
        by (bit_vector);
    assert(v / 0x100_0000 % 0x100 == (v % 0x1_0000_0000) as u32 / 0x100_0000) by (bit_vector);
    assert(v / 0x1_0000_0000 % 0x100 == (v / 0x1_0000_0000) as u32 % 0x100) by (bit_vector);
    assert(v / 0x100_0000_0000 % 0x100 == (v / 0x1_0000_0000) as u32 / 0x100 % 0x100)
        by (bit_vector);
    assert(v / 0x1_0000_0000_0000 % 0x100 == (v / 0x1_0000_0000) as u32 / 0x1_0000 % 0x100)
        by (bit_vector);
    assert(v / 0x100_0000_0000_0000 == (v / 0x1_0000_0000) as u32 / 0x100_0000) by (bit_vector);
    lemma_u32_round_trip(low);
    lemma_u32_round_trip(high);
    let bytes = le_bytes_u64(v);
    assert(le_value_u64(bytes, 0) == le_value_u32(le_bytes_u32(low), 0) + 0x1_0000_0000
        * le_value_u32(le_bytes_u32(high), 0)) by {
        reveal(le_value_u64);
        reveal(le_value_u32);
    }
}

} // verus!
