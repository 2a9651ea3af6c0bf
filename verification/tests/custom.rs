use las_points::attribute::Attribute;
use las_points::bit_attributes::{BitAttributes, BitAttributesExtended, BitAttributesRegular};
use las_points::byte_order::Endianness;
use las_points::convert::{choose_fill, is_widening, repeat_byte, widen, Fill};
use las_points::datatype::DataType;
use las_points::decode::{encode_natural, encode_planned, encode_planned_record, write_at};
use las_points::format::FormatDescriptor;
use las_points::layout::PointLayout;
use las_points::natural::natural_layout;
use las_points::plan::{get_attribute_parser, ParsePlan, PlanEntry, PlanError};
use las_points::record::PointRecord;
use las_points::value::{encode_attribute, WorldPosition};

fn sample(format: &FormatDescriptor) -> PointRecord {
    let bit_attributes = if format.is_extended {
        BitAttributes::Extended(BitAttributesExtended {
            return_number: 13,
            number_of_returns: 14,
            classification_flags: 9,
            scanner_channel: 2,
            scan_direction_flag: 1,
            edge_of_flight_line: 0,
        })
    } else {
        BitAttributes::Regular(BitAttributesRegular {
            return_number: 5,
            number_of_returns: 6,
            scan_direction_flag: 1,
            edge_of_flight_line: 0,
        })
    };
    let wave = format.has_waveform;
    PointRecord {
        x: 100,
        y: 200,
        z: 300,
        intensity: 0xBEEF,
        bit_attributes,
        classification: 0xC1,
        scan_angle: if format.is_extended { (-500i16) as u16 } else { ((-3i8) as u8) as u16 },
        user_data: 0x7D,
        point_source_id: 0x1234,
        gps_time: if format.has_gps_time { 123456.789f64.to_bits() } else { 0 },
        red: if format.has_color { 0xABCD } else { 0 },
        green: if format.has_color { 0x1234 } else { 0 },
        blue: if format.has_color { 0xFF00 } else { 0 },
        nir: if format.has_nir { 0x0102 } else { 0 },
        wave_packet_index: if wave { 3 } else { 0 },
        waveform_byte_offset: if wave { 0x0102_0304_0506_0708 } else { 0 },
        waveform_packet_size: if wave { 0x0A0B_0C0D } else { 0 },
        waveform_location: if wave { 1.5f32.to_bits() } else { 0 },
        waveform_parameter_x: if wave { 0.5f32.to_bits() } else { 0 },
        waveform_parameter_y: if wave { (-2.0f32).to_bits() } else { 0 },
        waveform_parameter_z: if wave { 8.25f32.to_bits() } else { 0 },
    }
}

fn position() -> WorldPosition {
    let (x, y, z) = (1.125f64, -2.5f64, 1.0e10f64 / 3.0);
    WorldPosition {
        x: x.to_bits(),
        y: y.to_bits(),
        z: z.to_bits(),
        single_x: (x as f32).to_bits(),
        single_y: (y as f32).to_bits(),
        single_z: (z as f32).to_bits(),
    }
}

fn entry(offset: usize, size: usize, fill: Fill) -> Option<PlanEntry> {
    Some(PlanEntry { offset, size, fill })
}

#[test]
fn the_registry_converts_widening_integers() {
    let unsigned = [DataType::U8, DataType::U16, DataType::U32, DataType::U64];
    let signed = [DataType::I8, DataType::I16, DataType::I32, DataType::I64];
    for from in 0..4 {
        for to in 0..4 {
            let expected_unsigned = if from == to {
                Some(Fill::Copy)
            } else if from < to {
                Some(Fill::WidenUnsigned)
            } else {
                None
            };
            assert_eq!(
                choose_fill(Attribute::Intensity, unsigned[from], unsigned[to]),
                expected_unsigned
            );
            let expected_signed = if from == to {
                Some(Fill::Copy)
            } else if from < to {
                Some(Fill::WidenSigned)
            } else {
                None
            };
            assert_eq!(choose_fill(Attribute::ScanAngle, signed[from], signed[to]), expected_signed);
            assert_eq!(is_widening(unsigned[from], unsigned[to]), from < to);
            assert_eq!(is_widening(signed[from], signed[to]), from < to);
            assert!(!is_widening(unsigned[from], signed[to]));
            assert_eq!(
                choose_fill(Attribute::Classification, unsigned[from], signed[to]),
                None
            );
        }
    }
}

#[test]
fn the_registry_converts_positions_and_colours() {
    assert_eq!(
        choose_fill(Attribute::Position, DataType::Vec3f64, DataType::Vec3f32),
        Some(Fill::NarrowPosition)
    );
    assert_eq!(
        choose_fill(Attribute::Position, DataType::Vec3f64, DataType::Vec3f64),
        Some(Fill::Copy)
    );
    assert_eq!(choose_fill(Attribute::Position, DataType::Vec3f64, DataType::Vec3u16), None);
    assert_eq!(choose_fill(Attribute::Position, DataType::Vec3f64, DataType::F64), None);
    assert_eq!(
        choose_fill(Attribute::Color, DataType::Vec3u16, DataType::Vec3u8),
        Some(Fill::NarrowColor)
    );
    assert_eq!(choose_fill(Attribute::Color, DataType::Vec3u16, DataType::Vec3u16), Some(Fill::Copy));
    assert_eq!(choose_fill(Attribute::Color, DataType::Vec3u16, DataType::Vec3f32), None);
    assert_eq!(choose_fill(Attribute::Color, DataType::Vec3u16, DataType::U16), None);
}

#[test]
fn other_pairs_of_types_do_not_convert() {
    assert_eq!(choose_fill(Attribute::GpsTime, DataType::F64, DataType::F64), Some(Fill::Copy));
    assert_eq!(choose_fill(Attribute::GpsTime, DataType::F64, DataType::F32), None);
    assert_eq!(choose_fill(Attribute::GpsTime, DataType::F64, DataType::U64), None);
    assert_eq!(choose_fill(Attribute::ScanDirectionFlag, DataType::Bool, DataType::U8), None);
    assert_eq!(choose_fill(Attribute::ScanDirectionFlag, DataType::Bool, DataType::Bool), Some(Fill::Copy));
    assert_eq!(choose_fill(Attribute::Nir, DataType::U16, DataType::Vec3u16), None);
    assert_eq!(choose_fill(Attribute::Intensity, DataType::U16, DataType::F32), None);
    assert_eq!(choose_fill(Attribute::WaveformParameters, DataType::Vec3f32, DataType::Vec3f64), None);
}

#[test]
fn integers_widen_in_both_orders() {
    assert_eq!(
        widen(Fill::WidenUnsigned, Endianness::Little, vec![0xEF, 0xBE], 4),
        vec![0xEF, 0xBE, 0, 0]
    );
    assert_eq!(
        widen(Fill::WidenUnsigned, Endianness::Big, vec![0xBE, 0xEF], 4),
        vec![0, 0, 0xBE, 0xEF]
    );
    assert_eq!(
        widen(Fill::WidenSigned, Endianness::Little, vec![0xFD], 4),
        (-3i32).to_le_bytes().to_vec()
    );
    assert_eq!(
        widen(Fill::WidenSigned, Endianness::Big, vec![0xFD], 8),
        (-3i64).to_be_bytes().to_vec()
    );
    assert_eq!(
        widen(Fill::WidenSigned, Endianness::Little, vec![0x7F], 2),
        127i16.to_le_bytes().to_vec()
    );
    assert_eq!(
        widen(Fill::WidenSigned, Endianness::Little, (-500i16).to_le_bytes().to_vec(), 8),
        (-500i64).to_le_bytes().to_vec()
    );
    assert_eq!(
        widen(Fill::WidenSigned, Endianness::Big, (-500i16).to_be_bytes().to_vec(), 4),
        (-500i32).to_be_bytes().to_vec()
    );
    assert_eq!(widen(Fill::WidenUnsigned, Endianness::Little, vec![0xFD], 1), vec![0xFD]);
    assert_eq!(repeat_byte(7, 3), vec![7, 7, 7]);
    assert_eq!(repeat_byte(7, 0), Vec::<u8>::new());
}

#[test]
fn bytes_are_written_over_a_range() {
    let mut buffer: Vec<u8> = vec![1, 2, 3, 4, 5, 6];
    write_at(&mut buffer, 2, &vec![9, 8, 7]);
    assert_eq!(buffer, vec![1, 2, 9, 8, 7, 6]);
    write_at(&mut buffer, 6, &vec![]);
    assert_eq!(buffer, vec![1, 2, 9, 8, 7, 6]);
    write_at(&mut buffer, 0, &vec![0]);
    assert_eq!(buffer, vec![0, 2, 9, 8, 7, 6]);
}

#[test]
fn attributes_encode_in_their_source_types() {
    let format = FormatDescriptor::new(3).unwrap();
    let record = sample(&format);
    let p = position();
    let little = |a| encode_attribute(&format, Endianness::Little, &record, &p, a);
    assert_eq!(little(Attribute::Intensity), vec![0xEF, 0xBE]);
    assert_eq!(little(Attribute::ReturnNumber), vec![5]);
    assert_eq!(little(Attribute::NumberOfReturns), vec![6]);
    assert_eq!(little(Attribute::ClassificationFlags), vec![0]);
    assert_eq!(little(Attribute::ScannerChannel), vec![0]);
    assert_eq!(little(Attribute::ScanDirectionFlag), vec![1]);
    assert_eq!(little(Attribute::EdgeOfFlightLine), vec![0]);
    assert_eq!(little(Attribute::Classification), vec![0xC1]);
    assert_eq!(little(Attribute::ScanAngle), vec![0xFD]);
    assert_eq!(little(Attribute::UserData), vec![0x7D]);
    assert_eq!(little(Attribute::PointSourceId), vec![0x34, 0x12]);
    assert_eq!(little(Attribute::GpsTime), 123456.789f64.to_le_bytes().to_vec());
    assert_eq!(little(Attribute::Color), vec![0xCD, 0xAB, 0x34, 0x12, 0x00, 0xFF]);
    assert_eq!(little(Attribute::Nir), vec![0, 0]);
    assert_eq!(little(Attribute::WaveformParameters), vec![0; 12]);
    let mut expected = Vec::new();
    expected.extend_from_slice(&1.125f64.to_be_bytes());
    expected.extend_from_slice(&(-2.5f64).to_be_bytes());
    expected.extend_from_slice(&(1.0e10f64 / 3.0).to_be_bytes());
    assert_eq!(encode_attribute(&format, Endianness::Big, &record, &p, Attribute::Position), expected);
    let extended = FormatDescriptor::new(6).unwrap();
    let wide = sample(&extended);
    assert_eq!(
        encode_attribute(&extended, Endianness::Big, &wide, &p, Attribute::ScanAngle),
        (-500i16).to_be_bytes().to_vec()
    );
    assert_eq!(
        encode_attribute(&extended, Endianness::Little, &wide, &p, Attribute::ClassificationFlags),
        vec![9]
    );
}

#[test]
fn a_plan_holds_what_the_target_declares() {
    let format = FormatDescriptor::new(1).unwrap();
    let mut target = PointLayout::new(40);
    target.declare(Attribute::Position, DataType::Vec3f32, 0).unwrap();
    target.declare(Attribute::Classification, DataType::U32, 12).unwrap();
    target.declare(Attribute::PointSourceId, DataType::U16, 16).unwrap();
    target.declare(Attribute::WaveformParameters, DataType::Vec3f32, 20).unwrap();
    target.declare(Attribute::ScanAngle, DataType::I16, 32).unwrap();
    target.declare(Attribute::Color, DataType::Vec3u8, 34).unwrap();
    let plan = ParsePlan::resolve(&format, &target).unwrap();
    assert_eq!(plan.point_size(), 40);
    assert_eq!(plan.get(Attribute::Position), entry(0, 12, Fill::NarrowPosition));
    assert_eq!(plan.get(Attribute::Classification), entry(12, 4, Fill::WidenUnsigned));
    assert_eq!(plan.get(Attribute::PointSourceId), entry(16, 2, Fill::Copy));
    assert_eq!(plan.get(Attribute::WaveformParameters), entry(20, 12, Fill::Zero));
    assert_eq!(plan.get(Attribute::ScanAngle), entry(32, 2, Fill::WidenSigned));
    assert_eq!(plan.get(Attribute::Color), entry(34, 3, Fill::Zero));
    assert_eq!(plan.get(Attribute::Intensity), None);
    assert_eq!(plan.get(Attribute::GpsTime), None);
    assert_eq!(
        get_attribute_parser(&format, &target, Attribute::Classification),
        Ok(entry(12, 4, Fill::WidenUnsigned))
    );
    assert_eq!(get_attribute_parser(&format, &target, Attribute::Nir), Ok(None));
    let colored = FormatDescriptor::new(2).unwrap();
    let plan = ParsePlan::resolve(&colored, &target).unwrap();
    assert_eq!(plan.get(Attribute::Color), entry(34, 3, Fill::NarrowColor));
}

#[test]
fn a_plan_fails_at_the_first_attribute_that_cannot_be_filled() {
    let format = FormatDescriptor::new(1).unwrap();
    let mut target = PointLayout::new(40);
    target.declare(Attribute::GpsTime, DataType::U64, 0).unwrap();
    target.declare(Attribute::PointSourceId, DataType::U8, 8).unwrap();
    target.declare(Attribute::Position, DataType::Vec3f32, 12).unwrap();
    assert_eq!(
        ParsePlan::resolve(&format, &target).err(),
        Some(PlanError::UnsupportedConversion { attribute: Attribute::PointSourceId })
    );
    assert_eq!(
        get_attribute_parser(&format, &target, Attribute::GpsTime),
        Err(PlanError::UnsupportedConversion { attribute: Attribute::GpsTime })
    );
    let without_time = FormatDescriptor::new(0).unwrap();
    assert_eq!(
        ParsePlan::resolve(&without_time, &target).err(),
        Some(PlanError::UnsupportedConversion { attribute: Attribute::PointSourceId })
    );
    assert_eq!(
        get_attribute_parser(&without_time, &target, Attribute::GpsTime),
        Ok(entry(0, 8, Fill::Zero))
    );
}

#[test]
fn a_custom_entry_holds_each_attribute_in_its_slot() {
    for id in 0..=10u8 {
        let format = FormatDescriptor::new(id).unwrap();
        let record = sample(&format);
        let p = position();
        let mut target = PointLayout::new(40);
        target.declare(Attribute::Position, DataType::Vec3f32, 0).unwrap();
        target.declare(Attribute::Classification, DataType::U32, 12).unwrap();
        target.declare(Attribute::PointSourceId, DataType::U16, 16).unwrap();
        target.declare(Attribute::WaveformParameters, DataType::Vec3f32, 20).unwrap();
        target.declare(Attribute::ScanAngle, DataType::I32, 33).unwrap();
        target.declare(Attribute::Color, DataType::Vec3u8, 37).unwrap();
        let plan = ParsePlan::resolve(&format, &target).unwrap();
        let found = encode_planned_record(&format, &plan, Endianness::Little, &record, &p);
        let mut expected: Vec<u8> = Vec::new();
        expected.extend_from_slice(&1.125f32.to_le_bytes());
        expected.extend_from_slice(&(-2.5f32).to_le_bytes());
        expected.extend_from_slice(&((1.0e10f64 / 3.0) as f32).to_le_bytes());
        expected.extend_from_slice(&0xC1u32.to_le_bytes());
        expected.extend_from_slice(&0x1234u16.to_le_bytes());
        expected.extend_from_slice(&[0, 0]);
        if format.has_waveform {
            expected.extend_from_slice(&0.5f32.to_le_bytes());
            expected.extend_from_slice(&(-2.0f32).to_le_bytes());
            expected.extend_from_slice(&8.25f32.to_le_bytes());
        } else {
            expected.extend_from_slice(&[0; 12]);
        }
        expected.push(0);
        let angle: i32 = if format.is_extended { -500 } else { -3 };
        expected.extend_from_slice(&angle.to_le_bytes());
        if format.has_color {
            expected.extend_from_slice(&[0xAB, 0x12, 0xFF]);
        } else {
            expected.extend_from_slice(&[0, 0, 0]);
        }
        assert_eq!(found, expected, "format {}", id);
    }
}

#[test]
fn a_custom_entry_in_big_endian_order() {
    let format = FormatDescriptor::new(8).unwrap();
    let record = sample(&format);
    let p = position();
    let mut target = PointLayout::new(24);
    target.declare(Attribute::Nir, DataType::U64, 0).unwrap();
    target.declare(Attribute::ScanAngle, DataType::I64, 8).unwrap();
    target.declare(Attribute::GpsTime, DataType::F64, 16).unwrap();
    let plan = ParsePlan::resolve(&format, &target).unwrap();
    let found = encode_planned_record(&format, &plan, Endianness::Big, &record, &p);
    let mut expected: Vec<u8> = Vec::new();
    expected.extend_from_slice(&0x0102u64.to_be_bytes());
    expected.extend_from_slice(&(-500i64).to_be_bytes());
    expected.extend_from_slice(&123456.789f64.to_be_bytes());
    assert_eq!(found, expected);
}

#[test]
fn attributes_that_the_format_lacks_come_out_as_zero() {
    let format = FormatDescriptor::new(0).unwrap();
    let record = sample(&format);
    let p = position();
    let mut target = PointLayout::new(64);
    target.declare(Attribute::GpsTime, DataType::F64, 0).unwrap();
    target.declare(Attribute::Color, DataType::Vec3u16, 8).unwrap();
    target.declare(Attribute::Nir, DataType::U32, 14).unwrap();
    target.declare(Attribute::Intensity, DataType::U16, 18).unwrap();
    target.declare(Attribute::WavePacketIndex, DataType::U8, 20).unwrap();
    target.declare(Attribute::WaveformByteOffset, DataType::F32, 21).unwrap();
    target.declare(Attribute::WaveformPacketSize, DataType::Vec3f64, 25).unwrap();
    target.declare(Attribute::WaveformReturnPoint, DataType::Bool, 49).unwrap();
    target.declare(Attribute::ClassificationFlags, DataType::I16, 50).unwrap();
    target.declare(Attribute::ScannerChannel, DataType::Vec3u8, 52).unwrap();
    let plan = ParsePlan::resolve(&format, &target).unwrap();
    let found = encode_planned_record(&format, &plan, Endianness::Little, &record, &p);
    let mut expected: Vec<u8> = vec![0; 64];
    expected[18] = 0xEF;
    expected[19] = 0xBE;
    assert_eq!(found, expected);
    let zero = PlanEntry { offset: 3, size: 5, fill: Fill::Zero };
    assert_eq!(
        encode_planned(&format, Endianness::Little, &record, &p, Attribute::GpsTime, &zero),
        vec![0; 5]
    );
}

#[test]
fn a_target_of_the_natural_layout_gets_the_natural_entry() {
    for id in 0..=10u8 {
        let format = FormatDescriptor::new(id).unwrap();
        let record = sample(&format);
        let p = position();
        let plan = ParsePlan::resolve(&format, &natural_layout(&format)).unwrap();
        for order in [Endianness::Little, Endianness::Big] {
            assert_eq!(
                encode_planned_record(&format, &plan, order, &record, &p),
                encode_natural(&format, order, &record, &p),
                "format {}",
                id
            );
        }
    }
}

#[test]
fn an_empty_target_gets_entries_of_zero_bytes() {
    let format = FormatDescriptor::new(5).unwrap();
    let record = sample(&format);
    let plan = ParsePlan::resolve(&format, &PointLayout::new(9)).unwrap();
    assert_eq!(
        encode_planned_record(&format, &plan, Endianness::Little, &record, &position()),
        vec![0; 9]
    );
    let none = ParsePlan::resolve(&format, &PointLayout::new(0)).unwrap();
    assert_eq!(
        encode_planned_record(&format, &none, Endianness::Little, &record, &position()),
        Vec::<u8>::new()
    );
}
