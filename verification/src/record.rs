//! One point record as it stands on disk, field by field.
//!
//! The fields follow each other without gaps: position (three 32-bit
//! integers), intensity, the packed sub-fields, classification, then scan angle
//! and user data in an order that depends on the packing, the point source id,
//! and the optional groups that the format switches on: GPS time, colour, near
//! infrared, waveform.

use crate::bit_attributes::{bit_attributes_at, bit_attributes_width, BitAttributes};
use crate::byte_order::{
    le_value_u16, le_value_u32, le_value_u64, read_u16_at, read_u32_at, read_u64_at,
};
use crate::format::{record_width, FormatDescriptor};
use vstd::prelude::*;

verus! {

/// The fields of one record. What the format does not hold is zero. The scan
/// angle is the two's-complement pattern read from disk, one byte wide in the
/// regular packing and two bytes wide in the extended one; GPS time and the
/// waveform location and parameters are binary64 and binary32 patterns.
#[derive(Clone, Copy, Debug, PartialEq, Eq, Structural)]
pub struct PointRecord {
    pub x: u32,
    pub y: u32,
    pub z: u32,
    pub intensity: u16,
    pub bit_attributes: BitAttributes,
    pub classification: u8,
    pub scan_angle: u16,
    pub user_data: u8,
    pub point_source_id: u16,
    pub gps_time: u64,
    pub red: u16,
    pub green: u16,
    pub blue: u16,
    pub nir: u16,
    pub wave_packet_index: u8,
    pub waveform_byte_offset: u64,
    pub waveform_packet_size: u32,
    pub waveform_location: u32,
    pub waveform_parameter_x: u32,
    pub waveform_parameter_y: u32,
    pub waveform_parameter_z: u32,
}

/// Offset of the classification byte, which follows the packed sub-fields.
pub open spec fn classification_offset(format: FormatDescriptor) -> int {
    14 + bit_attributes_width(format.is_extended) as int
}

/// Offset of the first optional group, which is also the width of the fields
/// that every record of the packing has.
pub open spec fn optional_offset(format: FormatDescriptor) -> int {
    classification_offset(format) + (if format.is_extended { 6int } else { 5int })
}

/// Offset of the colour group.
pub open spec fn color_offset(format: FormatDescriptor) -> int {
    optional_offset(format) + (if format.has_gps_time { 8int } else { 0int })
}

/// Offset of the near-infrared value.
pub open spec fn nir_offset(format: FormatDescriptor) -> int {
    color_offset(format) + (if format.has_color { 6int } else { 0int })
}

/// Offset of the waveform group.
pub open spec fn waveform_offset(format: FormatDescriptor) -> int {
    nir_offset(format) + (if format.has_nir { 2int } else { 0int })
}

/// The record whose first byte stands at `start`.
pub open spec fn record_at(format: FormatDescriptor, bytes: Seq<u8>, start: int) -> PointRecord {
    let class = start + classification_offset(format);
    let gps = start + optional_offset(format);
    let color = start + color_offset(format);
    let nir = start + nir_offset(format);
    let wave = start + waveform_offset(format);
    PointRecord {
        x: le_value_u32(bytes, start),
        y: le_value_u32(bytes, start + 4),
        z: le_value_u32(bytes, start + 8),
        intensity: le_value_u16(bytes, start + 12),
        bit_attributes: bit_attributes_at(format.is_extended, bytes, start + 14),
        classification: bytes[class],
        scan_angle: if format.is_extended {
            le_value_u16(bytes, class + 2)
        } else {
            bytes[class + 1] as u16
        },
        user_data: if format.is_extended {
            bytes[class + 1]
        } else {
            bytes[class + 2]
        },
        point_source_id: le_value_u16(bytes, gps - 2),
        gps_time: if format.has_gps_time {
            le_value_u64(bytes, gps)
        } else {
            0
        },
        red: if format.has_color {
            le_value_u16(bytes, color)
        } else {
            0
        },
        green: if format.has_color {
            le_value_u16(bytes, color + 2)
        } else {
            0
        },
        blue: if format.has_color {
            le_value_u16(bytes, color + 4)
        } else {
            0
        },
        nir: if format.has_nir {
            le_value_u16(bytes, nir)
        } else {
            0
        },
        wave_packet_index: if format.has_waveform {
            bytes[wave]
        } else {
            0
        },
        waveform_byte_offset: if format.has_waveform {
            le_value_u64(bytes, wave + 1)
        } else {
            0
        },
        waveform_packet_size: if format.has_waveform {
            le_value_u32(bytes, wave + 9)
        } else {
            0
        },
        waveform_location: if format.has_waveform {
            le_value_u32(bytes, wave + 13)
        } else {
            0
        },
        waveform_parameter_x: if format.has_waveform {
            le_value_u32(bytes, wave + 17)
        } else {
            0
        },
        waveform_parameter_y: if format.has_waveform {
            le_value_u32(bytes, wave + 21)
        } else {
            0
        },
        waveform_parameter_z: if format.has_waveform {
            le_value_u32(bytes, wave + 25)
        } else {
            0
        },
    }
}

/// The fields end where the record's width says.
pub proof fn lemma_fields_fill_width(format: FormatDescriptor)
    ensures
        waveform_offset(format) + (if format.has_waveform { 29int } else { 0int })
            == record_width(format),
{
}

/// Reads the integer position at `at`: the coordinates of the point before
/// they are scaled and shifted into world space.
pub fn read_next_local_position(source: &[u8], at: usize) -> (local: (u32, u32, u32))
    requires
        at + 12 <= source.len(),
    ensures
        local == (
            le_value_u32(source@, at as int),
            le_value_u32(source@, at + 4),
            le_value_u32(source@, at + 8),
        ),
{
    let x = read_u32_at(source, at);
    let y = read_u32_at(source, at + 4);
    let z = read_u32_at(source, at + 8);
    (x, y, z)
}

/// Reads the GPS time at `at`, or gives zero where the format has none.
pub fn read_next_gps_time_or_default(format: &FormatDescriptor, source: &[u8], at: usize) -> (time:
    u64)
    requires
        format.has_gps_time ==> at + 8 <= source.len(),
    ensures
        time == if format.has_gps_time {
            le_value_u64(source@, at as int)
        } else {
            0
        },
{
    if !format.has_gps_time {
        0
    } else {
        read_u64_at(source, at)
    }
}

/// Reads the colour at `at`, or gives black where the format has none.
pub fn read_next_color_or_default(format: &FormatDescriptor, source: &[u8], at: usize) -> (color: (
    u16,
    u16,
    u16,
))
    requires
        format.has_color ==> at + 6 <= source.len(),
    ensures
        color == if format.has_color {
            (
                le_value_u16(source@, at as int),
                le_value_u16(source@, at + 2),
                le_value_u16(source@, at + 4),
            )
        } else {
            (0u16, 0u16, 0u16)
        },
{
    if !format.has_color {
        (0, 0, 0)
    } else {
        let r = read_u16_at(source, at);
        let g = read_u16_at(source, at + 2);
        let b = read_u16_at(source, at + 4);
        (r, g, b)
    }
}

/// Reads the near-infrared value at `at`, or gives zero where the format has
/// none.
pub fn read_next_nir_or_default(format: &FormatDescriptor, source: &[u8], at: usize) -> (nir: u16)
    requires
        format.has_nir ==> at + 2 <= source.len(),
    ensures
        nir == if format.has_nir {
            le_value_u16(source@, at as int)
        } else {
            0
        },
{
    if !format.has_nir {
        0
    } else {
        read_u16_at(source, at)
    }
}

/// The waveform group of a record.
#[derive(Clone, Copy, Debug, PartialEq, Eq, Structural)]
pub struct WaveformFields {
    pub wave_packet_index: u8,
    pub waveform_byte_offset: u64,
    pub waveform_packet_size: u32,
    pub waveform_location: u32,
    pub waveform_parameter_x: u32,
    pub waveform_parameter_y: u32,
    pub waveform_parameter_z: u32,
}

/// The waveform group that stands at `at`; zeros where the format has none.
pub open spec fn waveform_at(format: FormatDescriptor, bytes: Seq<u8>, at: int) -> WaveformFields {
    if format.has_waveform {
        WaveformFields {
            wave_packet_index: bytes[at],
            waveform_byte_offset: le_value_u64(bytes, at + 1),
            waveform_packet_size: le_value_u32(bytes, at + 9),
            waveform_location: le_value_u32(bytes, at + 13),
            waveform_parameter_x: le_value_u32(bytes, at + 17),
            waveform_parameter_y: le_value_u32(bytes, at + 21),
            waveform_parameter_z: le_value_u32(bytes, at + 25),
        }
    } else {
        WaveformFields {
            wave_packet_index: 0,
            waveform_byte_offset: 0,
            waveform_packet_size: 0,
            waveform_location: 0,
            waveform_parameter_x: 0,
            waveform_parameter_y: 0,
            waveform_parameter_z: 0,
        }
    }
}

/// Reads the waveform group at `at`, or gives zeros where the format has none.
pub fn read_next_waveform_or_default(format: &FormatDescriptor, source: &[u8], at: usize) -> (wave:
    WaveformFields)
    requires
        format.has_waveform ==> at + 29 <= source.len(),
    ensures
        wave == waveform_at(*format, source@, at as int),
{
    if !format.has_waveform {
        WaveformFields {
            wave_packet_index: 0,
            waveform_byte_offset: 0,
            waveform_packet_size: 0,
            waveform_location: 0,
            waveform_parameter_x: 0,
            waveform_parameter_y: 0,
            waveform_parameter_z: 0,
        }
    } else {
        WaveformFields {
            wave_packet_index: source[at],
            waveform_byte_offset: read_u64_at(source, at + 1),
            waveform_packet_size: read_u32_at(source, at + 9),
            waveform_location: read_u32_at(source, at + 13),
            waveform_parameter_x: read_u32_at(source, at + 17),
            waveform_parameter_y: read_u32_at(source, at + 21),
            waveform_parameter_z: read_u32_at(source, at + 25),
        }
    }
}

/// Reads the record that starts at `start`, walking its fields in their order
/// on disk. The second result is the offset behind the record's last field.
pub fn read_record(format: &FormatDescriptor, source: &[u8], start: usize) -> (read: (
    PointRecord,
    usize,
))
    requires
        start + record_width(*format) <= source.len(),
    ensures
        read.0 == record_at(*format, source@, start as int),
        read.1 == start + record_width(*format),
{
    let mut cursor: usize = start;
    let (x, y, z) = read_next_local_position(source, cursor);
    cursor = cursor + 12;
    let intensity = read_u16_at(source, cursor);
    cursor = cursor + 2;
    let (bit_attributes, taken) = BitAttributes::decode(format.is_extended, source, cursor);
    cursor = cursor + taken;
    let classification = source[cursor];
    cursor = cursor + 1;
    let scan_angle: u16;
    let user_data: u8;
    if format.is_extended {
        user_data = source[cursor];
        scan_angle = read_u16_at(source, cursor + 1);
        cursor = cursor + 3;
    } else {
        scan_angle = source[cursor] as u16;
        user_data = source[cursor + 1];
        cursor = cursor + 2;
    }
    let point_source_id = read_u16_at(source, cursor);
    cursor = cursor + 2;
    let gps_time = read_next_gps_time_or_default(format, source, cursor);
    if format.has_gps_time {
        cursor = cursor + 8;
    }
    let (red, green, blue) = read_next_color_or_default(format, source, cursor);
    if format.has_color {
        cursor = cursor + 6;
    }
    let nir = read_next_nir_or_default(format, source, cursor);
    if format.has_nir {
        cursor = cursor + 2;
    }
    let wave = read_next_waveform_or_default(format, source, cursor);
    if format.has_waveform {
        cursor = cursor + 29;
    }
    (
        PointRecord {
            x,
            y,
            z,
            intensity,
            bit_attributes,
            classification,
            scan_angle,
            user_data,
            point_source_id,
            gps_time,
            red,
            green,
            blue,
            nir,
            wave_packet_index: wave.wave_packet_index,
            waveform_byte_offset: wave.waveform_byte_offset,
            waveform_packet_size: wave.waveform_packet_size,
            waveform_location: wave.waveform_location,
            waveform_parameter_x: wave.waveform_parameter_x,
            waveform_parameter_y: wave.waveform_parameter_y,
            waveform_parameter_z: wave.waveform_parameter_z,
        },
        cursor,
    )
}

} // verus!
