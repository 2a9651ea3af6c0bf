//! The scalar and vector types an attribute of a point can be stored in.

use vstd::prelude::*;

verus! {

/// Storage type of one attribute.
#[derive(Clone, Copy, Debug, PartialEq, Eq, Structural)]
pub enum DataType {
    U8,
    I8,
    U16,
    I16,
    U32,
    I32,
    U64,
    I64,
    F32,
    F64,
    Bool,
    Vec3u8,
    Vec3u16,
    Vec3f32,
    Vec3f64,
}

impl DataType {
    /// Bytes that one value of the type occupies.
    pub open spec fn spec_size(self) -> nat {
        match self {
            DataType::U8 | DataType::I8 | DataType::Bool => 1,
            DataType::U16 | DataType::I16 => 2,
            DataType::U32 | DataType::I32 | DataType::F32 => 4,
            DataType::U64 | DataType::I64 | DataType::F64 => 8,
            DataType::Vec3u8 => 3,
            DataType::Vec3u16 => 6,
            DataType::Vec3f32 => 12,
            DataType::Vec3f64 => 24,
        }
    }

    /// Whether the type is an unsigned integer.
    pub open spec fn spec_is_unsigned(self) -> bool {
        self == DataType::U8 || self == DataType::U16 || self == DataType::U32 || self
            == DataType::U64
    }

    /// Whether the type is a signed integer.
    pub open spec fn spec_is_signed(self) -> bool {
        self == DataType::I8 || self == DataType::I16 || self == DataType::I32 || self
            == DataType::I64
    }

    /// Place of the type in the list of types, which starts at `U8` and ends
    /// at `Vec3f64`.
    pub open spec fn spec_ordinal(self) -> int {
        match self {
            DataType::U8 => 0,
            DataType::I8 => 1,
            DataType::U16 => 2,
            DataType::I16 => 3,
            DataType::U32 => 4,
            DataType::I32 => 5,
            DataType::U64 => 6,
            DataType::I64 => 7,
            DataType::F32 => 8,
            DataType::F64 => 9,
            DataType::Bool => 10,
            DataType::Vec3u8 => 11,
            DataType::Vec3u16 => 12,
            DataType::Vec3f32 => 13,
            DataType::Vec3f64 => 14,
        }
    }

    /// Place of the type in the list of types.
    pub fn ordinal(self) -> (place: usize)
        ensures
            place == self.spec_ordinal(),
            place < 15,
    {
        match self {
            DataType::U8 => 0,
            DataType::I8 => 1,
            DataType::U16 => 2,
            DataType::I16 => 3,
            DataType::U32 => 4,
            DataType::I32 => 5,
            DataType::U64 => 6,
            DataType::I64 => 7,
            DataType::F32 => 8,
            DataType::F64 => 9,
            DataType::Bool => 10,
            DataType::Vec3u8 => 11,
            DataType::Vec3u16 => 12,
            DataType::Vec3f32 => 13,
            DataType::Vec3f64 => 14,
        }
    }

    /// Whether the type is an unsigned integer.
    pub fn is_unsigned(self) -> (unsigned: bool)
        ensures
            unsigned == self.spec_is_unsigned(),
    {
        match self {
            DataType::U8 | DataType::U16 | DataType::U32 | DataType::U64 => true,
            _ => false,
        }
    }

    /// Whether the type is a signed integer.
    pub fn is_signed(self) -> (signed: bool)
        ensures
            signed == self.spec_is_signed(),
    {
        match self {
            DataType::I8 | DataType::I16 | DataType::I32 | DataType::I64 => true,
            _ => false,
        }
    }

    /// Bytes that one value of the type occupies.
    pub fn size(self) -> (bytes: usize)
        ensures
            bytes == self.spec_size(),
            1 <= bytes <= 24,
    {
        match self {
            DataType::U8 | DataType::I8 | DataType::Bool => 1,
            DataType::U16 | DataType::I16 => 2,
            DataType::U32 | DataType::I32 | DataType::F32 => 4,
            DataType::U64 | DataType::I64 | DataType::F64 => 8,
            DataType::Vec3u8 => 3,
            DataType::Vec3u16 => 6,
            DataType::Vec3f32 => 12,
            DataType::Vec3f64 => 24,
        }
    }
}

} // verus!
