use las_points::attribute::{Attribute, ATTRIBUTE_COUNT};
use las_points::datatype::DataType;
use las_points::format::FormatDescriptor;
use las_points::layout::{LayoutError, PointLayout, Slot};
use las_points::natural::natural_layout;

fn slot(datatype: DataType, offset: usize) -> Option<Slot> {
    Some(Slot { datatype, offset })
}

#[test]
fn datatype_sizes() {
    let sizes = [
        (DataType::U8, 1),
        (DataType::I8, 1),
        (DataType::U16, 2),
        (DataType::I16, 2),
        (DataType::U32, 4),
        (DataType::I32, 4),
        (DataType::U64, 8),
        (DataType::I64, 8),
        (DataType::F32, 4),
        (DataType::F64, 8),
        (DataType::Bool, 1),
        (DataType::Vec3u8, 3),
        (DataType::Vec3u16, 6),
        (DataType::Vec3f32, 12),
        (DataType::Vec3f64, 24),
    ];
    for (place, (datatype, size)) in sizes.iter().enumerate() {
        assert_eq!(datatype.size(), *size);
        assert_eq!(datatype.ordinal(), place);
    }
    assert!(DataType::U32.is_unsigned() && !DataType::U32.is_signed());
    assert!(DataType::I64.is_signed() && !DataType::I64.is_unsigned());
    assert!(!DataType::F32.is_signed() && !DataType::Bool.is_unsigned());
}

#[test]
fn the_catalogue_has_twenty_attributes_in_visiting_order() {
    assert_eq!(ATTRIBUTE_COUNT, 20);
    let names = [
        "Position3D",
        "Intensity",
        "ReturnNumber",
        "NumberOfReturns",
        "ClassificationFlags",
        "ScannerChannel",
        "ScanDirectionFlag",
        "EdgeOfFlightLine",
        "Classification",
        "ScanAngleRank",
        "UserData",
        "PointSourceID",
        "GpsTime",
        "ColorRGB",
        "NIR",
        "WavePacketDescriptorIndex",
        "WaveformDataOffset",
        "WaveformPacketSize",
        "ReturnPointWaveformLocation",
        "WaveformParameters",
    ];
    for place in 0..ATTRIBUTE_COUNT {
        let attribute = Attribute::from_index(place);
        assert_eq!(attribute.ordinal(), place);
        assert_eq!(attribute.name(), names[place]);
    }
    assert_eq!(Attribute::Position.ordinal(), 0);
    assert_eq!(Attribute::WaveformParameters.ordinal(), 19);
}

#[test]
fn source_types_follow_the_format() {
    let regular = FormatDescriptor::new(3).unwrap();
    let extended = FormatDescriptor::new(10).unwrap();
    assert_eq!(Attribute::Position.source_type(&regular), DataType::Vec3f64);
    assert_eq!(Attribute::ScanAngle.source_type(&regular), DataType::I8);
    assert_eq!(Attribute::ScanAngle.source_type(&extended), DataType::I16);
    assert_eq!(Attribute::ScanDirectionFlag.source_type(&regular), DataType::Bool);
    assert_eq!(Attribute::GpsTime.source_type(&regular), DataType::F64);
    assert_eq!(Attribute::Color.source_type(&regular), DataType::Vec3u16);
    assert_eq!(Attribute::WaveformParameters.source_type(&extended), DataType::Vec3f32);
    assert_eq!(Attribute::WaveformReturnPoint.source_type(&extended), DataType::F32);
    assert!(Attribute::GpsTime.in_format(&regular));
    assert!(!Attribute::Nir.in_format(&regular));
    assert!(!Attribute::ClassificationFlags.in_format(&regular));
    assert!(Attribute::ClassificationFlags.in_format(&extended));
    assert!(Attribute::WavePacketIndex.in_format(&extended));
    assert!(!Attribute::WavePacketIndex.in_format(&regular));
}

#[test]
fn a_new_layout_declares_nothing() {
    let layout = PointLayout::new(12);
    assert_eq!(layout.size_of_point_entry(), 12);
    for place in 0..ATTRIBUTE_COUNT {
        assert_eq!(layout.get(Attribute::from_index(place)), None);
    }
}

#[test]
fn appended_attributes_are_packed() {
    let mut layout = PointLayout::new(0);
    assert_eq!(layout.append(Attribute::Intensity, DataType::U16), Ok(()));
    assert_eq!(layout.append(Attribute::Position, DataType::Vec3f64), Ok(()));
    assert_eq!(layout.append(Attribute::Classification, DataType::U8), Ok(()));
    assert_eq!(layout.get(Attribute::Intensity), slot(DataType::U16, 0));
    assert_eq!(layout.get(Attribute::Position), slot(DataType::Vec3f64, 2));
    assert_eq!(layout.get(Attribute::Classification), slot(DataType::U8, 26));
    assert_eq!(layout.size_of_point_entry(), 27);
    assert_eq!(
        layout.append(Attribute::Position, DataType::Vec3f32),
        Err(LayoutError::Duplicate)
    );
    assert_eq!(layout.size_of_point_entry(), 27);
    assert_eq!(layout.get(Attribute::Position), slot(DataType::Vec3f64, 2));
}

#[test]
fn declared_attributes_must_fit_and_stay_apart() {
    let mut layout = PointLayout::new(32);
    assert_eq!(layout.declare(Attribute::Position, DataType::Vec3f32, 0), Ok(()));
    assert_eq!(layout.declare(Attribute::Intensity, DataType::U16, 16), Ok(()));
    assert_eq!(
        layout.declare(Attribute::Intensity, DataType::U16, 20),
        Err(LayoutError::Duplicate)
    );
    assert_eq!(
        layout.declare(Attribute::GpsTime, DataType::F64, 25),
        Err(LayoutError::OutOfBounds)
    );
    assert_eq!(
        layout.declare(Attribute::GpsTime, DataType::F64, usize::MAX),
        Err(LayoutError::OutOfBounds)
    );
    assert_eq!(
        layout.declare(Attribute::GpsTime, DataType::F64, 11),
        Err(LayoutError::Overlap)
    );
    assert_eq!(
        layout.declare(Attribute::GpsTime, DataType::F64, 17),
        Err(LayoutError::Overlap)
    );
    assert_eq!(layout.declare(Attribute::Nir, DataType::U16, 14), Ok(()));
    assert_eq!(layout.declare(Attribute::GpsTime, DataType::F64, 24), Ok(()));
    assert_eq!(layout.get(Attribute::GpsTime), slot(DataType::F64, 24));
    assert_eq!(layout.get(Attribute::Nir), slot(DataType::U16, 14));
    assert_eq!(layout.get(Attribute::Color), None);
    assert_eq!(layout.size_of_point_entry(), 32);
}

#[test]
fn layouts_compare_by_width_and_slots() {
    let mut first = PointLayout::new(16);
    let mut second = PointLayout::new(16);
    assert!(first.equals(&second));
    first.declare(Attribute::Intensity, DataType::U16, 0).unwrap();
    assert!(!first.equals(&second));
    second.declare(Attribute::Classification, DataType::U8, 4).unwrap();
    second.declare(Attribute::Intensity, DataType::U16, 0).unwrap();
    first.declare(Attribute::Classification, DataType::U8, 4).unwrap();
    assert!(first.equals(&second));
    assert!(second.equals(&first));
    let mut moved = PointLayout::new(16);
    moved.declare(Attribute::Intensity, DataType::U16, 2).unwrap();
    moved.declare(Attribute::Classification, DataType::U8, 4).unwrap();
    assert!(!first.equals(&moved));
    let mut retyped = PointLayout::new(16);
    retyped.declare(Attribute::Intensity, DataType::I16, 0).unwrap();
    retyped.declare(Attribute::Classification, DataType::U8, 4).unwrap();
    assert!(!first.equals(&retyped));
    let mut wider = PointLayout::new(17);
    wider.declare(Attribute::Intensity, DataType::U16, 0).unwrap();
    wider.declare(Attribute::Classification, DataType::U8, 4).unwrap();
    assert!(!first.equals(&wider));
}

#[test]
fn natural_layout_of_format_zero() {
    let layout = natural_layout(&FormatDescriptor::new(0).unwrap());
    assert_eq!(layout.size_of_point_entry(), 35);
    assert_eq!(layout.get(Attribute::Position), slot(DataType::Vec3f64, 0));
    assert_eq!(layout.get(Attribute::Intensity), slot(DataType::U16, 24));
    assert_eq!(layout.get(Attribute::ReturnNumber), slot(DataType::U8, 26));
    assert_eq!(layout.get(Attribute::NumberOfReturns), slot(DataType::U8, 27));
    assert_eq!(layout.get(Attribute::ClassificationFlags), None);
    assert_eq!(layout.get(Attribute::ScannerChannel), None);
    assert_eq!(layout.get(Attribute::ScanDirectionFlag), slot(DataType::Bool, 28));
    assert_eq!(layout.get(Attribute::EdgeOfFlightLine), slot(DataType::Bool, 29));
    assert_eq!(layout.get(Attribute::Classification), slot(DataType::U8, 30));
    assert_eq!(layout.get(Attribute::ScanAngle), slot(DataType::I8, 31));
    assert_eq!(layout.get(Attribute::UserData), slot(DataType::U8, 32));
    assert_eq!(layout.get(Attribute::PointSourceId), slot(DataType::U16, 33));
    assert_eq!(layout.get(Attribute::GpsTime), None);
    assert_eq!(layout.get(Attribute::Color), None);
    assert_eq!(layout.get(Attribute::Nir), None);
    assert_eq!(layout.get(Attribute::WaveformParameters), None);
}

#[test]
fn natural_layout_of_format_ten() {
    let layout = natural_layout(&FormatDescriptor::new(10).unwrap());
    assert_eq!(layout.size_of_point_entry(), 83);
    assert_eq!(layout.get(Attribute::ClassificationFlags), slot(DataType::U8, 28));
    assert_eq!(layout.get(Attribute::ScannerChannel), slot(DataType::U8, 29));
    assert_eq!(layout.get(Attribute::ScanDirectionFlag), slot(DataType::Bool, 30));
    assert_eq!(layout.get(Attribute::EdgeOfFlightLine), slot(DataType::Bool, 31));
    assert_eq!(layout.get(Attribute::Classification), slot(DataType::U8, 32));
    assert_eq!(layout.get(Attribute::UserData), slot(DataType::U8, 33));
    assert_eq!(layout.get(Attribute::ScanAngle), slot(DataType::I16, 34));
    assert_eq!(layout.get(Attribute::PointSourceId), slot(DataType::U16, 36));
    assert_eq!(layout.get(Attribute::GpsTime), slot(DataType::F64, 38));
    assert_eq!(layout.get(Attribute::Color), slot(DataType::Vec3u16, 46));
    assert_eq!(layout.get(Attribute::Nir), slot(DataType::U16, 52));
    assert_eq!(layout.get(Attribute::WavePacketIndex), slot(DataType::U8, 54));
    assert_eq!(layout.get(Attribute::WaveformByteOffset), slot(DataType::U64, 55));
    assert_eq!(layout.get(Attribute::WaveformPacketSize), slot(DataType::U32, 63));
    assert_eq!(layout.get(Attribute::WaveformReturnPoint), slot(DataType::F32, 67));
    assert_eq!(layout.get(Attribute::WaveformParameters), slot(DataType::Vec3f32, 71));
}

#[test]
fn natural_layout_widths_of_all_formats() {
    let expected: [usize; 11] = [35, 43, 41, 49, 72, 78, 46, 52, 54, 75, 83];
    for id in 0..=10u8 {
        let format = FormatDescriptor::new(id).unwrap();
        let layout = natural_layout(&format);
        assert_eq!(layout.size_of_point_entry(), expected[id as usize], "format {}", id);
        assert!(layout.equals(&natural_layout(&format)));
        for place in 0..ATTRIBUTE_COUNT {
            let attribute = Attribute::from_index(place);
            match layout.get(attribute) {
                None => assert!(!attribute.in_format(&format)),
                Some(found) => {
                    assert!(attribute.in_format(&format));
                    assert_eq!(found.datatype, attribute.source_type(&format));
                }
            }
        }
    }
}
