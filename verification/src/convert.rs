//! Conversions between the source type of an attribute and the type in which
//! a buffer stores it.
//!
//! Which pairs of types convert is the answer of the conversion registry of
//! `pasture_core`. What a conversion writes is stated here on bytes: integers
//! widen, colours lose their low byte, positions change precision.

use crate::attribute::Attribute;
use crate::byte_order::Endianness;
use crate::datatype::DataType;
use crate::record::PointRecord;
use pasture_core::layout::conversion::get_converter_for_attributes;
use pasture_core::layout::PointAttributeDataType as Stored;
use pasture_core::layout::PointAttributeDefinition;
use vstd::prelude::*;

verus! {

/// Whether the second type is a wider integer of the signedness of the first.
pub open spec fn widening(from: DataType, to: DataType) -> bool {
    ||| from.spec_is_unsigned() && to.spec_is_unsigned() && from.spec_size() < to.spec_size()
    ||| from.spec_is_signed() && to.spec_is_signed() && from.spec_size() < to.spec_size()
}

/// The pairs of types on which the registry answers. On any other pair it
/// ends the process.
pub open spec fn registry_defined(attribute: Attribute, from: DataType, to: DataType) -> bool {
    from == to || attribute == Attribute::Position || attribute == Attribute::Color || widening(
        from,
        to,
    )
}

/// Whether the registry holds a converter for the attribute from the first
/// type to the second: never between equal types; for positions between the
/// two vectors of floating-point numbers; for colours between the two vectors
/// of unsigned integers; for every other attribute on a widening of integers.
pub open spec fn registry_converts(attribute: Attribute, from: DataType, to: DataType) -> bool {
    from != to && match attribute {
        Attribute::Position => (from == DataType::Vec3f64 && to == DataType::Vec3f32) || (from
            == DataType::Vec3f32 && to == DataType::Vec3f64),
        Attribute::Color => (from == DataType::Vec3u16 && to == DataType::Vec3u8) || (from
            == DataType::Vec3u8 && to == DataType::Vec3u16),
        _ => widening(from, to),
    }
}

/// Whether the type at the second place of the list of types is a wider
/// integer of the signedness of the type at the first place. The list starts
/// with the integers, unsigned and signed in turn, from 8 to 64 bits.
pub open spec fn widening_at(from: int, to: int) -> bool {
    0 <= from < to <= 7 && from % 2 == to % 2
}

/// The names and places on which the registry answers.
pub open spec fn registry_defined_at(name: Seq<char>, from: int, to: int) -> bool {
    from == to || name == "Position3D"@ || name == "ColorRGB"@ || widening_at(from, to)
}

/// Whether the registry holds a converter for an attribute of a name, from the
/// type at one place of the list of types to the type at another.
pub open spec fn registry_converts_at(name: Seq<char>, from: int, to: int) -> bool {
    from != to && if name == "Position3D"@ {
        (from == 14 && to == 13) || (from == 13 && to == 14)
    } else if name == "ColorRGB"@ {
        (from == 12 && to == 11) || (from == 11 && to == 12)
    } else {
        widening_at(from, to)
    }
}

/// Calls `pasture_core::layout::conversion::get_converter_for_attributes` on
/// two definitions of an attribute of the given name, one in the type at each
/// of the two places of the list of types, and says whether it returned a
/// converter.
///
/// That function returns none for equal types. For the names `Position3D` and
/// `ColorRGB` it looks the pair up in a table of two entries each: the two
/// vectors of floating-point numbers, at places 13 and 14, and the two vectors
/// of unsigned integers, at places 11 and 12. For any other name it looks the
/// pair up among the widenings of integers and panics where the pair is not one
/// of them.
#[verifier::external_body]
fn registry_has_converter(name: &'static str, from: usize, to: usize) -> (found: bool)
    requires
        from < 15,
        to < 15,
        registry_defined_at(name@, from as int, to as int),
    ensures
        found == registry_converts_at(name@, from as int, to as int),
{
    let types = [
        Stored::U8, Stored::I8, Stored::U16, Stored::I16, Stored::U32,
        Stored::I32, Stored::U64, Stored::I64, Stored::F32, Stored::F64,
        Stored::Bool, Stored::Vec3u8, Stored::Vec3u16, Stored::Vec3f32, Stored::Vec3f64,
    ];
    let source = PointAttributeDefinition::custom(name, types[from]);
    let target = PointAttributeDefinition::custom(name, types[to]);
    get_converter_for_attributes(&source, &target).is_some()
}

/// Only the position is called `Position3D`, and only the colour `ColorRGB`.
proof fn lemma_registry_names(attribute: Attribute)
    ensures
        attribute.spec_name() == "Position3D"@ <==> attribute == Attribute::Position,
        attribute.spec_name() == "ColorRGB"@ <==> attribute == Attribute::Color,
{
    reveal_strlit("Position3D");
    reveal_strlit("Intensity");
    reveal_strlit("ReturnNumber");
    reveal_strlit("NumberOfReturns");
    reveal_strlit("ClassificationFlags");
    reveal_strlit("ScannerChannel");
    reveal_strlit("ScanDirectionFlag");
    reveal_strlit("EdgeOfFlightLine");
    reveal_strlit("Classification");
    reveal_strlit("ScanAngleRank");
    reveal_strlit("UserData");
    reveal_strlit("PointSourceID");
    reveal_strlit("GpsTime");
    reveal_strlit("ColorRGB");
    reveal_strlit("NIR");
    reveal_strlit("WavePacketDescriptorIndex");
    reveal_strlit("WaveformDataOffset");
    reveal_strlit("WaveformPacketSize");
    reveal_strlit("ReturnPointWaveformLocation");
    reveal_strlit("WaveformParameters");
    let name = attribute.spec_name();
    if attribute != Attribute::Position {
        assert(name.len() != 10 || name[0] != 'P');
    }
    if attribute != Attribute::Color {
        assert(name.len() != 8 || name[0] != 'C');
    }
}

/// The registry's answer on names and places is its answer on attributes and
/// types.
proof fn lemma_registry_places(attribute: Attribute, from: DataType, to: DataType)
    ensures
        registry_defined_at(attribute.spec_name(), from.spec_ordinal(), to.spec_ordinal())
            == registry_defined(attribute, from, to),
        registry_converts_at(attribute.spec_name(), from.spec_ordinal(), to.spec_ordinal())
            == registry_converts(attribute, from, to),
{
    lemma_registry_names(attribute);
}

/// Whether the second type is a wider integer of the signedness of the first.
pub fn is_widening(from: DataType, to: DataType) -> (wider: bool)
    ensures
        wider == widening(from, to),
{
    (from.is_unsigned() && to.is_unsigned() && from.size() < to.size()) || (from.is_signed()
        && to.is_signed() && from.size() < to.size())
}

/// How the bytes of a slot come about.
#[derive(Clone, Copy, Debug, PartialEq, Eq, Structural)]
pub enum Fill {
    /// The format lacks the attribute: the slot holds the zero of its type.
    Zero,
    /// The slot has the source type: the source bytes are copied.
    Copy,
    /// An unsigned integer widens.
    WidenUnsigned,
    /// A signed integer widens.
    WidenSigned,
    /// A position in double precision is stored in single precision.
    NarrowPosition,
    /// A colour of 16-bit channels is stored in 8-bit channels.
    NarrowColor,
}

/// The conversion that the registry holds for an attribute in its source type.
pub open spec fn conversion_fill(attribute: Attribute, from: DataType) -> Fill {
    match attribute {
        Attribute::Position => Fill::NarrowPosition,
        Attribute::Color => Fill::NarrowColor,
        _ => if from.spec_is_unsigned() {
            Fill::WidenUnsigned
        } else {
            Fill::WidenSigned
        },
    }
}

/// How a slot of type `to` is filled from an attribute that the format holds in
/// type `from`; none where the registry has no converter for the pair.
pub open spec fn fill_between(attribute: Attribute, from: DataType, to: DataType) -> Option<Fill> {
    if from == to {
        Some(Fill::Copy)
    } else if registry_defined(attribute, from, to) && registry_converts(attribute, from, to) {
        Some(conversion_fill(attribute, from))
    } else {
        None
    }
}

/// Asks the registry how a slot of type `to` is filled from an attribute held
/// in type `from`.
pub fn choose_fill(attribute: Attribute, from: DataType, to: DataType) -> (fill: Option<Fill>)
    ensures
        fill == fill_between(attribute, from, to),
{
    let defined = from == to || attribute == Attribute::Position || attribute == Attribute::Color
        || is_widening(from, to);
    if !defined {
        return None;
    }
    proof {
        lemma_registry_places(attribute, from, to);
    }
    if registry_has_converter(attribute.name(), from.ordinal(), to.ordinal()) {
        match attribute {
            Attribute::Position => Some(Fill::NarrowPosition),
            Attribute::Color => Some(Fill::NarrowColor),
            _ => if from.is_unsigned() {
                Some(Fill::WidenUnsigned)
            } else {
                Some(Fill::WidenSigned)
            },
        }
    } else if from == to {
        Some(Fill::Copy)
    } else {
        None
    }
}

/// `n` bytes of the same value.
pub open spec fn repeated(byte: u8, n: nat) -> Seq<u8> {
    Seq::new(n, |i: int| byte)
}

/// The byte that pads a widened integer: zero, or all ones behind a negative
/// signed value.
pub open spec fn padding(fill: Fill, order: Endianness, source: Seq<u8>) -> u8 {
    let top = match order {
        Endianness::Little => source.last(),
        Endianness::Big => source.first(),
    };
    if fill == Fill::WidenSigned && top >= 0x80 {
        0xFF
    } else {
        0
    }
}

/// An integer widened to `size` bytes: the padding stands where the order
/// puts the most significant bytes.
pub open spec fn widened(fill: Fill, order: Endianness, source: Seq<u8>, size: nat) -> Seq<u8> {
    let pad = repeated(padding(fill, order, source), (size - source.len()) as nat);
    match order {
        Endianness::Little => source + pad,
        Endianness::Big => pad + source,
    }
}

/// A colour in 8-bit channels: the high byte of each 16-bit channel.
pub open spec fn narrow_color(record: PointRecord) -> Seq<u8> {
    seq![(record.red / 0x100) as u8, (record.green / 0x100) as u8, (record.blue / 0x100) as u8]
}

/// `n` bytes of the same value.
pub fn repeat_byte(byte: u8, n: usize) -> (out: Vec<u8>)
    ensures
        out@ == repeated(byte, n as nat),
{
    let mut out: Vec<u8> = Vec::new();
    let mut i: usize = 0;
    while i < n
        invariant
            i <= n,
            out@ == repeated(byte, i as nat),
        decreases n - i,
    {
        out.push(byte);
        i = i + 1;
        assert(out@ =~= repeated(byte, i as nat));
    }
    out
}

/// Widens an integer to `size` bytes.
pub fn widen(fill: Fill, order: Endianness, source: Vec<u8>, size: usize) -> (out: Vec<u8>)
    requires
        0 < source@.len() <= size,
    ensures
        out@ == widened(fill, order, source@, size as nat),
        out@.len() == size,
{
    let mut source = source;
    let top = match order {
        Endianness::Little => source[source.len() - 1],
        Endianness::Big => source[0],
    };
    let byte: u8 = if fill == Fill::WidenSigned && top >= 0x80 {
        0xFF
    } else {
        0
    };
    let mut pad = repeat_byte(byte, size - source.len());
    match order {
        Endianness::Little => {
            source.append(&mut pad);
            source
        },
        Endianness::Big => {
            pad.append(&mut source);
            pad
        },
    }
}

/// Stores a colour in 8-bit channels.
pub fn encode_narrow_color(record: &PointRecord) -> (out: Vec<u8>)
    ensures
        out@ == narrow_color(*record),
        out@.len() == 3,
{
    let mut out: Vec<u8> = Vec::new();
    out.push((record.red / 0x100) as u8);
    out.push((record.green / 0x100) as u8);
    out.push((record.blue / 0x100) as u8);
    assert(out@ =~= narrow_color(*record));
    out
}

} // verus!
