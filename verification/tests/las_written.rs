use las::point::{Format, ScanDirection};
use las::raw::point::{Flags, ScanAngle, Waveform};
use las::raw::Point;
use las::Color;
use las_points::format::FormatDescriptor;
use las_points::record::read_record;

/// Point `i` of a sample stream, as the `las` crate holds a raw point.
fn sample(format: &Format, i: usize) -> Point {
    let n = i as i32;
    let bits = (37 * i + 11) as u8;
    let more = (91 * i + 5) as u8;
    let classification = (3 + i) as u8;
    Point {
        x: 100_000 + n,
        y: 2_000_000_000 - n,
        z: 7 * n,
        intensity: 1000 * i as u16 + 7,
        flags: if format.is_extended {
            Flags::ThreeByte(bits, more, classification)
        } else {
            Flags::TwoByte(bits, classification)
        },
        scan_angle: if format.is_extended {
            ScanAngle::Scaled(-15000 + 3333 * i as i16)
        } else {
            ScanAngle::Rank(-90 + 20 * i as i8)
        },
        user_data: 200 + i as u8,
        point_source_id: 65000 + i as u16,
        gps_time: Some(1.0e8 + 0.125 * i as f64),
        color: Some(Color::new(i as u16, 256 * i as u16, 65535 - i as u16)),
        waveform: Some(Waveform {
            wave_packet_descriptor_index: 1 + i as u8,
            byte_offset_to_waveform_data: 1 << (33 + i),
            waveform_packet_size_in_bytes: 1 << (20 + i),
            return_point_waveform_location: 12.5 * i as f32,
            x_t: 0.001 * i as f32,
            y_t: -1.0 * i as f32,
            z_t: 1.0e6 * i as f32,
        }),
        nir: Some(31000 + i as u16),
        extra_bytes: Vec::new(),
    }
}

#[test]
fn records_written_by_the_las_crate_read_field_by_field() {
    for id in 0..=10u8 {
        let format = Format::new(id).unwrap();
        let descriptor = FormatDescriptor::new(id).unwrap();
        assert_eq!(descriptor.record_width(), format.len() as usize);
        assert_eq!(descriptor.has_gps_time, format.has_gps_time);
        assert_eq!(descriptor.has_color, format.has_color);
        assert_eq!(descriptor.has_nir, format.has_nir);
        assert_eq!(descriptor.has_waveform, format.has_waveform);
        assert_eq!(descriptor.is_extended, format.is_extended);
        let mut source: Vec<u8> = Vec::new();
        for i in 0..10 {
            sample(&format, i).write_to(&mut source, &format).unwrap();
        }
        assert_eq!(source.len(), 10 * descriptor.record_width());
        for i in 0..10 {
            let expected = sample(&format, i);
            let start = i * descriptor.record_width();
            let (record, end) = read_record(&descriptor, &source, start);
            assert_eq!(end, start + descriptor.record_width());
            assert_eq!(record.x, expected.x as u32);
            assert_eq!(record.y, expected.y as u32);
            assert_eq!(record.z, expected.z as u32);
            assert_eq!(record.intensity, expected.intensity);
            let bits = record.bit_attributes;
            assert_eq!(bits.return_number(), expected.flags.return_number());
            assert_eq!(bits.number_of_returns(), expected.flags.number_of_returns());
            assert_eq!(
                bits.scan_direction_flag() == 1,
                expected.flags.scan_direction() == ScanDirection::LeftToRight
            );
            assert_eq!(bits.edge_of_flight_line() == 1, expected.flags.is_edge_of_flight_line());
            if format.is_extended {
                assert_eq!(bits.scanner_channel_or_default(), expected.flags.scanner_channel());
                let flags = bits.classification_flags_or_default();
                assert_eq!(flags & 1 == 1, expected.flags.is_synthetic());
                assert_eq!(flags & 2 == 2, expected.flags.is_key_point());
                assert_eq!(flags & 4 == 4, expected.flags.is_withheld());
                assert_eq!(flags & 8 == 8, expected.flags.is_overlap());
            } else {
                assert_eq!(bits.scanner_channel_or_default(), 0);
                assert_eq!(bits.classification_flags_or_default(), 0);
            }
            assert_eq!(record.classification, (3 + i) as u8);
            match expected.scan_angle {
                ScanAngle::Rank(rank) => assert_eq!(record.scan_angle, (rank as u8) as u16),
                ScanAngle::Scaled(scaled) => assert_eq!(record.scan_angle, scaled as u16),
            }
            assert_eq!(record.user_data, expected.user_data);
            assert_eq!(record.point_source_id, expected.point_source_id);
            if format.has_gps_time {
                assert_eq!(f64::from_bits(record.gps_time), expected.gps_time.unwrap());
            } else {
                assert_eq!(record.gps_time, 0);
            }
            if format.has_color {
                let color = expected.color.unwrap();
                assert_eq!((record.red, record.green, record.blue), (color.red, color.green, color.blue));
            } else {
                assert_eq!((record.red, record.green, record.blue), (0, 0, 0));
            }
            if format.has_nir {
                assert_eq!(record.nir, expected.nir.unwrap());
            } else {
                assert_eq!(record.nir, 0);
            }
            if format.has_waveform {
                let waveform = expected.waveform.unwrap();
                assert_eq!(record.wave_packet_index, waveform.wave_packet_descriptor_index);
                assert_eq!(record.waveform_byte_offset, waveform.byte_offset_to_waveform_data);
                assert_eq!(record.waveform_packet_size, waveform.waveform_packet_size_in_bytes);
                assert_eq!(
                    f32::from_bits(record.waveform_location),
                    waveform.return_point_waveform_location
                );
                assert_eq!(f32::from_bits(record.waveform_parameter_x), waveform.x_t);
                assert_eq!(f32::from_bits(record.waveform_parameter_y), waveform.y_t);
                assert_eq!(f32::from_bits(record.waveform_parameter_z), waveform.z_t);
            } else {
                assert_eq!(record.wave_packet_index, 0);
                assert_eq!(record.waveform_byte_offset, 0);
                assert_eq!(record.waveform_packet_size, 0);
                assert_eq!(record.waveform_location, 0);
                assert_eq!(record.waveform_parameter_x, 0);
                assert_eq!(record.waveform_parameter_y, 0);
                assert_eq!(record.waveform_parameter_z, 0);
            }
        }
    }
}
