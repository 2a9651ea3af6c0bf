//! The natural layout of a format: the point entry that mirrors the fields of
//! a record, packed in the order of the fields, each in the type in which the
//! decoder holds it.

use crate::attribute::Attribute;
use crate::datatype::DataType;
use crate::format::FormatDescriptor;
use crate::layout::{PointLayout, Slot};
use vstd::prelude::*;

verus! {

/// Offset behind the attributes that every record of the packing has.
pub open spec fn natural_fixed_size(format: FormatDescriptor) -> nat {
    if format.is_extended {
        38
    } else {
        35
    }
}

/// Offset of the waveform group in the natural layout.
pub open spec fn natural_waveform_offset(format: FormatDescriptor) -> nat {
    natural_fixed_size(format) + (if format.has_gps_time { 8nat } else { 0nat }) + (
    if format.has_color { 6nat } else { 0nat }) + (if format.has_nir { 2nat } else { 0nat })
}

/// Width of a point entry in the natural layout.
pub open spec fn natural_size(format: FormatDescriptor) -> nat {
    natural_waveform_offset(format) + (if format.has_waveform { 29nat } else { 0nat })
}

/// Offset of an attribute in the natural layout of a format that holds it.
pub open spec fn natural_offset(format: FormatDescriptor, attribute: Attribute) -> nat {
    let shift: nat = if format.is_extended { 2 } else { 0 };
    let gps = natural_fixed_size(format);
    let color = gps + (if format.has_gps_time { 8nat } else { 0nat });
    let nir = color + (if format.has_color { 6nat } else { 0nat });
    let wave = natural_waveform_offset(format);
    match attribute {
        Attribute::Position => 0,
        Attribute::Intensity => 24,
        Attribute::ReturnNumber => 26,
        Attribute::NumberOfReturns => 27,
        Attribute::ClassificationFlags => 28,
        Attribute::ScannerChannel => 29,
        Attribute::ScanDirectionFlag => 28 + shift,
        Attribute::EdgeOfFlightLine => 29 + shift,
        Attribute::Classification => 30 + shift,
        Attribute::ScanAngle => if format.is_extended {
            34
        } else {
            31
        },
        Attribute::UserData => if format.is_extended {
            33
        } else {
            32
        },
        Attribute::PointSourceId => (gps - 2) as nat,
        Attribute::GpsTime => gps,
        Attribute::Color => color,
        Attribute::Nir => nir,
        Attribute::WavePacketIndex => wave,
        Attribute::WaveformByteOffset => wave + 1,
        Attribute::WaveformPacketSize => wave + 9,
        Attribute::WaveformReturnPoint => wave + 13,
        Attribute::WaveformParameters => wave + 17,
    }
}

/// The slot of an attribute in the natural layout: none where the format does
/// not hold the attribute.
pub open spec fn natural_slot(format: FormatDescriptor, attribute: Attribute) -> Option<Slot> {
    if attribute.spec_in_format(format) {
        Some(
            Slot {
                datatype: attribute.spec_source_type(format),
                offset: natural_offset(format, attribute) as usize,
            },
        )
    } else {
        None
    }
}

/// Whether a layout is the natural layout of the format.
pub open spec fn is_natural(format: FormatDescriptor, layout: PointLayout) -> bool {
    &&& layout.spec_size_of_point_entry() == natural_size(format)
    &&& forall|a: Attribute| #[trigger] layout.slot(a) == natural_slot(format, a)
}

/// Appends an attribute that the layout does not hold yet.
fn append_natural(layout: &mut PointLayout, attribute: Attribute, datatype: DataType)
    requires
        old(layout).wf(),
        !old(layout).declares(attribute),
        old(layout).spec_size_of_point_entry() <= 100,
    ensures
        final(layout).wf(),
        final(layout).spec_size_of_point_entry() == old(layout).spec_size_of_point_entry()
            + datatype.spec_size(),
        final(layout).slot(attribute) == Some(
            Slot { datatype, offset: old(layout).spec_size_of_point_entry() as usize },
        ),
        forall|a: Attribute| a != attribute ==> #[trigger] final(layout).slot(a) == old(layout).slot(a),
{
    let _ = layout.append(attribute, datatype);
}

/// Builds the natural layout of a format.
pub fn natural_layout(format: &FormatDescriptor) -> (layout: PointLayout)
    ensures
        layout.wf(),
        is_natural(*format, layout),
{
    let mut layout = PointLayout::new(0);
    append_natural(&mut layout, Attribute::Position, DataType::Vec3f64);
    append_natural(&mut layout, Attribute::Intensity, DataType::U16);
    append_natural(&mut layout, Attribute::ReturnNumber, DataType::U8);
    append_natural(&mut layout, Attribute::NumberOfReturns, DataType::U8);
    if format.is_extended {
        append_natural(&mut layout, Attribute::ClassificationFlags, DataType::U8);
        append_natural(&mut layout, Attribute::ScannerChannel, DataType::U8);
    }
    append_natural(&mut layout, Attribute::ScanDirectionFlag, DataType::Bool);
    append_natural(&mut layout, Attribute::EdgeOfFlightLine, DataType::Bool);
    append_natural(&mut layout, Attribute::Classification, DataType::U8);
    if format.is_extended {
        append_natural(&mut layout, Attribute::UserData, DataType::U8);
        append_natural(&mut layout, Attribute::ScanAngle, DataType::I16);
    } else {
        append_natural(&mut layout, Attribute::ScanAngle, DataType::I8);
        append_natural(&mut layout, Attribute::UserData, DataType::U8);
    }
    append_natural(&mut layout, Attribute::PointSourceId, DataType::U16);
    if format.has_gps_time {
        append_natural(&mut layout, Attribute::GpsTime, DataType::F64);
    }
    if format.has_color {
        append_natural(&mut layout, Attribute::Color, DataType::Vec3u16);
    }
    if format.has_nir {
        append_natural(&mut layout, Attribute::Nir, DataType::U16);
    }
    if format.has_waveform {
        append_natural(&mut layout, Attribute::WavePacketIndex, DataType::U8);
        append_natural(&mut layout, Attribute::WaveformByteOffset, DataType::U64);
        append_natural(&mut layout, Attribute::WaveformPacketSize, DataType::U32);
        append_natural(&mut layout, Attribute::WaveformReturnPoint, DataType::F32);
        append_natural(&mut layout, Attribute::WaveformParameters, DataType::Vec3f32);
    }
    layout
}

} // verus!
