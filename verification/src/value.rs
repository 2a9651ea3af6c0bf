//! The bytes of one attribute of one point, as the decoder holds it before
//! any conversion: a value of the attribute's source type in the byte order of
//! the buffer.

use crate::attribute::Attribute;
use crate::byte_order::{
    bytes_u16, bytes_u32, bytes_u64, encode_u16, encode_u32, encode_u64, Endianness,
};
use crate::format::FormatDescriptor;
use crate::record::PointRecord;
use vstd::prelude::*;

verus! {

/// A position in world space, which is the record's integer position scaled
/// and shifted per axis. The library carries it as bit patterns: the three
/// coordinates in double precision (binary64), and the same coordinates rounded
/// to single precision (binary32) for buffers that store positions that way.
#[derive(Clone, Copy, Debug, PartialEq, Eq, Structural)]
pub struct WorldPosition {
    pub x: u64,
    pub y: u64,
    pub z: u64,
    pub single_x: u32,
    pub single_y: u32,
    pub single_z: u32,
}

/// The source bytes of an attribute. An attribute that the format lacks has
/// zero fields in the record, so its source bytes are zero.
pub open spec fn source_bytes(
    format: FormatDescriptor,
    order: Endianness,
    record: PointRecord,
    position: WorldPosition,
    attribute: Attribute,
) -> Seq<u8> {
    match attribute {
        Attribute::Position => bytes_u64(order, position.x) + bytes_u64(order, position.y)
            + bytes_u64(order, position.z),
        Attribute::Intensity => bytes_u16(order, record.intensity),
        Attribute::ReturnNumber => seq![record.bit_attributes.spec_return_number()],
        Attribute::NumberOfReturns => seq![record.bit_attributes.spec_number_of_returns()],
        Attribute::ClassificationFlags => seq![
            record.bit_attributes.spec_classification_flags_or_default(),
        ],
        Attribute::ScannerChannel => seq![record.bit_attributes.spec_scanner_channel_or_default()],
        Attribute::ScanDirectionFlag => seq![record.bit_attributes.spec_scan_direction_flag()],
        Attribute::EdgeOfFlightLine => seq![record.bit_attributes.spec_edge_of_flight_line()],
        Attribute::Classification => seq![record.classification],
        Attribute::ScanAngle => if format.is_extended {
            bytes_u16(order, record.scan_angle)
        } else {
            seq![(record.scan_angle % 0x100) as u8]
        },
        Attribute::UserData => seq![record.user_data],
        Attribute::PointSourceId => bytes_u16(order, record.point_source_id),
        Attribute::GpsTime => bytes_u64(order, record.gps_time),
        Attribute::Color => bytes_u16(order, record.red) + bytes_u16(order, record.green)
            + bytes_u16(order, record.blue),
        Attribute::Nir => bytes_u16(order, record.nir),
        Attribute::WavePacketIndex => seq![record.wave_packet_index],
        Attribute::WaveformByteOffset => bytes_u64(order, record.waveform_byte_offset),
        Attribute::WaveformPacketSize => bytes_u32(order, record.waveform_packet_size),
        Attribute::WaveformReturnPoint => bytes_u32(order, record.waveform_location),
        Attribute::WaveformParameters => bytes_u32(order, record.waveform_parameter_x) + bytes_u32(
            order,
            record.waveform_parameter_y,
        ) + bytes_u32(order, record.waveform_parameter_z),
    }
}

/// The position in single precision, in the byte order of the buffer.
pub open spec fn single_position_bytes(order: Endianness, position: WorldPosition) -> Seq<u8> {
    bytes_u32(order, position.single_x) + bytes_u32(order, position.single_y) + bytes_u32(
        order,
        position.single_z,
    )
}

/// Source bytes are as many as the attribute's source type is wide.
pub proof fn lemma_source_bytes_len(
    format: FormatDescriptor,
    order: Endianness,
    record: PointRecord,
    position: WorldPosition,
    attribute: Attribute,
)
    ensures
        source_bytes(format, order, record, position, attribute).len()
            == attribute.spec_source_type(format).spec_size(),
        single_position_bytes(order, position).len() == 12,
{
}

/// One byte as a buffer.
fn single_byte(v: u8) -> (out: Vec<u8>)
    ensures
        out@ == seq![v],
{
    let mut out: Vec<u8> = Vec::new();
    out.push(v);
    out
}

/// Three 16-bit values in a row.
fn encode_three_u16(order: Endianness, a: u16, b: u16, c: u16) -> (out: Vec<u8>)
    ensures
        out@ == bytes_u16(order, a) + bytes_u16(order, b) + bytes_u16(order, c),
{
    let mut out = encode_u16(order, a);
    let mut second = encode_u16(order, b);
    let mut third = encode_u16(order, c);
    out.append(&mut second);
    out.append(&mut third);
    out
}

/// Three 32-bit values in a row.
fn encode_three_u32(order: Endianness, a: u32, b: u32, c: u32) -> (out: Vec<u8>)
    ensures
        out@ == bytes_u32(order, a) + bytes_u32(order, b) + bytes_u32(order, c),
{
    let mut out = encode_u32(order, a);
    let mut second = encode_u32(order, b);
    let mut third = encode_u32(order, c);
    out.append(&mut second);
    out.append(&mut third);
    out
}

/// Three 64-bit values in a row.
fn encode_three_u64(order: Endianness, a: u64, b: u64, c: u64) -> (out: Vec<u8>)
    ensures
        out@ == bytes_u64(order, a) + bytes_u64(order, b) + bytes_u64(order, c),
{
    let mut out = encode_u64(order, a);
    let mut second = encode_u64(order, b);
    let mut third = encode_u64(order, c);
    out.append(&mut second);
    out.append(&mut third);
    out
}

/// The position in single precision, in the byte order of the buffer.
pub fn encode_single_position(order: Endianness, position: &WorldPosition) -> (out: Vec<u8>)
    ensures
        out@ == single_position_bytes(order, *position),
        out@.len() == 12,
{
    encode_three_u32(order, position.single_x, position.single_y, position.single_z)
}

/// The source bytes of an attribute.
pub fn encode_attribute(
    format: &FormatDescriptor,
    order: Endianness,
    record: &PointRecord,
    position: &WorldPosition,
    attribute: Attribute,
) -> (out: Vec<u8>)
    ensures
        out@ == source_bytes(*format, order, *record, *position, attribute),
        out@.len() == attribute.spec_source_type(*format).spec_size(),
{
    match attribute {
        Attribute::Position => encode_three_u64(order, position.x, position.y, position.z),
        Attribute::Intensity => encode_u16(order, record.intensity),
        Attribute::ReturnNumber => single_byte(record.bit_attributes.return_number()),
        Attribute::NumberOfReturns => single_byte(record.bit_attributes.number_of_returns()),
        Attribute::ClassificationFlags => single_byte(
            record.bit_attributes.classification_flags_or_default(),
        ),
        Attribute::ScannerChannel => single_byte(
            record.bit_attributes.scanner_channel_or_default(),
        ),
        Attribute::ScanDirectionFlag => single_byte(record.bit_attributes.scan_direction_flag()),
        Attribute::EdgeOfFlightLine => single_byte(record.bit_attributes.edge_of_flight_line()),
        Attribute::Classification => single_byte(record.classification),
        Attribute::ScanAngle => if format.is_extended {
            encode_u16(order, record.scan_angle)
        } else {
            single_byte((record.scan_angle % 0x100) as u8)
        },
        Attribute::UserData => single_byte(record.user_data),
        Attribute::PointSourceId => encode_u16(order, record.point_source_id),
        Attribute::GpsTime => encode_u64(order, record.gps_time),
        Attribute::Color => encode_three_u16(order, record.red, record.green, record.blue),
        Attribute::Nir => encode_u16(order, record.nir),
        Attribute::WavePacketIndex => single_byte(record.wave_packet_index),
        Attribute::WaveformByteOffset => encode_u64(order, record.waveform_byte_offset),
        Attribute::WaveformPacketSize => encode_u32(order, record.waveform_packet_size),
        Attribute::WaveformReturnPoint => encode_u32(order, record.waveform_location),
        Attribute::WaveformParameters => encode_three_u32(
            order,
            record.waveform_parameter_x,
            record.waveform_parameter_y,
            record.waveform_parameter_z,
        ),
    }
}

} // verus!
