//! What the widening of integers means for their values: a widened slot holds
//! the value of its source, in the wider type.

use crate::byte_order::{bytes_u16, bytes_u32, bytes_u64, Endianness};
use crate::convert::{widened, Fill};
use vstd::prelude::*;

verus! {

/// The value of an 8-bit two's-complement pattern.
pub open spec fn signed_8(pattern: u8) -> int {
    if pattern >= 0x80 {
        pattern - 0x100
    } else {
        pattern as int
    }
}

/// The value of a 16-bit two's-complement pattern.
pub open spec fn signed_16(pattern: u16) -> int {
    if pattern >= 0x8000 {
        pattern - 0x1_0000
    } else {
        pattern as int
    }
}

/// The value of a 32-bit two's-complement pattern.
pub open spec fn signed_32(pattern: u32) -> int {
    if pattern >= 0x8000_0000 {
        pattern - 0x1_0000_0000
    } else {
        pattern as int
    }
}

/// The value of a 64-bit two's-complement pattern.
pub open spec fn signed_64(pattern: u64) -> int {
    if pattern >= 0x8000_0000_0000_0000 {
        pattern - 0x1_0000_0000_0000_0000
    } else {
        pattern as int
    }
}

/// An unsigned byte widens to the integer of the same value.
pub proof fn lemma_widen_u8(order: Endianness, v: u8)
    ensures
        widened(Fill::WidenUnsigned, order, seq![v], 2) == bytes_u16(order, v as u16),
        widened(Fill::WidenUnsigned, order, seq![v], 4) == bytes_u32(order, v as u32),
        widened(Fill::WidenUnsigned, order, seq![v], 8) == bytes_u64(order, v as u64),
{
    let source = seq![v];
    assert(widened(Fill::WidenUnsigned, order, source, 2) =~= bytes_u16(order, v as u16));
    assert(widened(Fill::WidenUnsigned, order, source, 4) =~= bytes_u32(order, v as u32));
    assert(widened(Fill::WidenUnsigned, order, source, 8) =~= bytes_u64(order, v as u64));
}

/// An unsigned 16-bit integer widens to the integer of the same value.
pub proof fn lemma_widen_u16(order: Endianness, v: u16)
    ensures
        widened(Fill::WidenUnsigned, order, bytes_u16(order, v), 4) == bytes_u32(order, v as u32),
        widened(Fill::WidenUnsigned, order, bytes_u16(order, v), 8) == bytes_u64(order, v as u64),
{
    let source = bytes_u16(order, v);
    assert(widened(Fill::WidenUnsigned, order, source, 4) =~= bytes_u32(order, v as u32));
    assert(widened(Fill::WidenUnsigned, order, source, 8) =~= bytes_u64(order, v as u64));
}

/// An unsigned 32-bit integer widens to the integer of the same value.
pub proof fn lemma_widen_u32(order: Endianness, v: u32)
    ensures
        widened(Fill::WidenUnsigned, order, bytes_u32(order, v), 8) == bytes_u64(order, v as u64),
{
    let source = bytes_u32(order, v);
    assert(widened(Fill::WidenUnsigned, order, source, 8) =~= bytes_u64(order, v as u64));
}

/// A signed byte widens to the 16-bit integer of the same value.
pub proof fn lemma_widen_i8_to_i16(order: Endianness, v: u8, wide: u16)
    requires
        signed_16(wide) == signed_8(v),
    ensures
        widened(Fill::WidenSigned, order, seq![v], 2) == bytes_u16(order, wide),
{
    assert(widened(Fill::WidenSigned, order, seq![v], 2) =~= bytes_u16(order, wide));
}

/// A signed byte widens to the 32-bit integer of the same value.
pub proof fn lemma_widen_i8_to_i32(order: Endianness, v: u8, wide: u32)
    requires
        signed_32(wide) == signed_8(v),
    ensures
        widened(Fill::WidenSigned, order, seq![v], 4) == bytes_u32(order, wide),
{
    assert(widened(Fill::WidenSigned, order, seq![v], 4) =~= bytes_u32(order, wide));
}

/// A signed byte widens to the 64-bit integer of the same value.
pub proof fn lemma_widen_i8_to_i64(order: Endianness, v: u8, wide: u64)
    requires
        signed_64(wide) == signed_8(v),
    ensures
        widened(Fill::WidenSigned, order, seq![v], 8) == bytes_u64(order, wide),
{
    assert(widened(Fill::WidenSigned, order, seq![v], 8) =~= bytes_u64(order, wide));
}

/// A signed 16-bit integer widens to the 32-bit integer of the same value.
pub proof fn lemma_widen_i16_to_i32(order: Endianness, v: u16, wide: u32)
    requires
        signed_32(wide) == signed_16(v),
    ensures
        widened(Fill::WidenSigned, order, bytes_u16(order, v), 4) == bytes_u32(order, wide),
{
    assert(widened(Fill::WidenSigned, order, bytes_u16(order, v), 4) =~= bytes_u32(order, wide));
}

/// A signed 16-bit integer widens to the 64-bit integer of the same value.
pub proof fn lemma_widen_i16_to_i64(order: Endianness, v: u16, wide: u64)
    requires
        signed_64(wide) == signed_16(v),
    ensures
        widened(Fill::WidenSigned, order, bytes_u16(order, v), 8) == bytes_u64(order, wide),
{
    assert(widened(Fill::WidenSigned, order, bytes_u16(order, v), 8) =~= bytes_u64(order, wide));
}

} // verus!
