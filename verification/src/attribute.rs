//! The catalogue of attributes that a record can feed.

use crate::datatype::DataType;
use crate::format::FormatDescriptor;
use vstd::prelude::*;

verus! {

/// Number of attributes in the catalogue.
pub const ATTRIBUTE_COUNT: usize = 20;

/// A well-known attribute of a point. The order is the order in which a
/// decoder visits the attributes of one record.
#[derive(Clone, Copy, Debug, PartialEq, Eq, Structural)]
pub enum Attribute {
    Position,
    Intensity,
    ReturnNumber,
    NumberOfReturns,
    ClassificationFlags,
    ScannerChannel,
    ScanDirectionFlag,
    EdgeOfFlightLine,
    Classification,
    ScanAngle,
    UserData,
    PointSourceId,
    GpsTime,
    Color,
    Nir,
    WavePacketIndex,
    WaveformByteOffset,
    WaveformPacketSize,
    WaveformReturnPoint,
    WaveformParameters,
}

/// The attribute at a place of the catalogue.
pub open spec fn attribute_at(index: int) -> Attribute {
    if index == 0 {
        Attribute::Position
    } else if index == 1 {
        Attribute::Intensity
    } else if index == 2 {
        Attribute::ReturnNumber
    } else if index == 3 {
        Attribute::NumberOfReturns
    } else if index == 4 {
        Attribute::ClassificationFlags
    } else if index == 5 {
        Attribute::ScannerChannel
    } else if index == 6 {
        Attribute::ScanDirectionFlag
    } else if index == 7 {
        Attribute::EdgeOfFlightLine
    } else if index == 8 {
        Attribute::Classification
    } else if index == 9 {
        Attribute::ScanAngle
    } else if index == 10 {
        Attribute::UserData
    } else if index == 11 {
        Attribute::PointSourceId
    } else if index == 12 {
        Attribute::GpsTime
    } else if index == 13 {
        Attribute::Color
    } else if index == 14 {
        Attribute::Nir
    } else if index == 15 {
        Attribute::WavePacketIndex
    } else if index == 16 {
        Attribute::WaveformByteOffset
    } else if index == 17 {
        Attribute::WaveformPacketSize
    } else if index == 18 {
        Attribute::WaveformReturnPoint
    } else {
        Attribute::WaveformParameters
    }
}

impl Attribute {
    /// Place of the attribute in the catalogue.
    pub open spec fn spec_ordinal(self) -> int {
        match self {
            Attribute::Position => 0,
            Attribute::Intensity => 1,
            Attribute::ReturnNumber => 2,
            Attribute::NumberOfReturns => 3,
            Attribute::ClassificationFlags => 4,
            Attribute::ScannerChannel => 5,
            Attribute::ScanDirectionFlag => 6,
            Attribute::EdgeOfFlightLine => 7,
            Attribute::Classification => 8,
            Attribute::ScanAngle => 9,
            Attribute::UserData => 10,
            Attribute::PointSourceId => 11,
            Attribute::GpsTime => 12,
            Attribute::Color => 13,
            Attribute::Nir => 14,
            Attribute::WavePacketIndex => 15,
            Attribute::WaveformByteOffset => 16,
            Attribute::WaveformPacketSize => 17,
            Attribute::WaveformReturnPoint => 18,
            Attribute::WaveformParameters => 19,
        }
    }

    /// Name under which point buffers know the attribute.
    pub open spec fn spec_name(self) -> Seq<char> {
        match self {
            Attribute::Position => "Position3D"@,
            Attribute::Intensity => "Intensity"@,
            Attribute::ReturnNumber => "ReturnNumber"@,
            Attribute::NumberOfReturns => "NumberOfReturns"@,
            Attribute::ClassificationFlags => "ClassificationFlags"@,
            Attribute::ScannerChannel => "ScannerChannel"@,
            Attribute::ScanDirectionFlag => "ScanDirectionFlag"@,
            Attribute::EdgeOfFlightLine => "EdgeOfFlightLine"@,
            Attribute::Classification => "Classification"@,
            Attribute::ScanAngle => "ScanAngleRank"@,
            Attribute::UserData => "UserData"@,
            Attribute::PointSourceId => "PointSourceID"@,
            Attribute::GpsTime => "GpsTime"@,
            Attribute::Color => "ColorRGB"@,
            Attribute::Nir => "NIR"@,
            Attribute::WavePacketIndex => "WavePacketDescriptorIndex"@,
            Attribute::WaveformByteOffset => "WaveformDataOffset"@,
            Attribute::WaveformPacketSize => "WaveformPacketSize"@,
            Attribute::WaveformReturnPoint => "ReturnPointWaveformLocation"@,
            Attribute::WaveformParameters => "WaveformParameters"@,
        }
    }

    /// Whether records of the format hold the attribute.
    pub open spec fn spec_in_format(self, format: FormatDescriptor) -> bool {
        match self {
            Attribute::ClassificationFlags | Attribute::ScannerChannel => format.is_extended,
            Attribute::GpsTime => format.has_gps_time,
            Attribute::Color => format.has_color,
            Attribute::Nir => format.has_nir,
            Attribute::WavePacketIndex
            | Attribute::WaveformByteOffset
            | Attribute::WaveformPacketSize
            | Attribute::WaveformReturnPoint
            | Attribute::WaveformParameters => format.has_waveform,
            _ => true,
        }
    }

    /// Type in which a decoder holds the attribute before any conversion.
    pub open spec fn spec_source_type(self, format: FormatDescriptor) -> DataType {
        match self {
            Attribute::Position => DataType::Vec3f64,
            Attribute::Intensity | Attribute::PointSourceId | Attribute::Nir => DataType::U16,
            Attribute::ScanDirectionFlag | Attribute::EdgeOfFlightLine => DataType::Bool,
            Attribute::ScanAngle => if format.is_extended {
                DataType::I16
            } else {
                DataType::I8
            },
            Attribute::GpsTime => DataType::F64,
            Attribute::Color => DataType::Vec3u16,
            Attribute::WaveformByteOffset => DataType::U64,
            Attribute::WaveformPacketSize => DataType::U32,
            Attribute::WaveformReturnPoint => DataType::F32,
            Attribute::WaveformParameters => DataType::Vec3f32,
            _ => DataType::U8,
        }
    }

    /// Place of the attribute in the catalogue.
    pub fn ordinal(self) -> (index: usize)
        ensures
            index == self.spec_ordinal(),
            index < ATTRIBUTE_COUNT,
            attribute_at(index as int) == self,
    {
        match self {
            Attribute::Position => 0,
            Attribute::Intensity => 1,
            Attribute::ReturnNumber => 2,
            Attribute::NumberOfReturns => 3,
            Attribute::ClassificationFlags => 4,
            Attribute::ScannerChannel => 5,
            Attribute::ScanDirectionFlag => 6,
            Attribute::EdgeOfFlightLine => 7,
            Attribute::Classification => 8,
            Attribute::ScanAngle => 9,
            Attribute::UserData => 10,
            Attribute::PointSourceId => 11,
            Attribute::GpsTime => 12,
            Attribute::Color => 13,
            Attribute::Nir => 14,
            Attribute::WavePacketIndex => 15,
            Attribute::WaveformByteOffset => 16,
            Attribute::WaveformPacketSize => 17,
            Attribute::WaveformReturnPoint => 18,
            Attribute::WaveformParameters => 19,
        }
    }

    /// The attribute at a place of the catalogue.
    pub fn from_index(index: usize) -> (attribute: Attribute)
        requires
            index < ATTRIBUTE_COUNT,
        ensures
            attribute == attribute_at(index as int),
            attribute.spec_ordinal() == index,
    {
        if index == 0 {
            Attribute::Position
        } else if index == 1 {
            Attribute::Intensity
        } else if index == 2 {
            Attribute::ReturnNumber
        } else if index == 3 {
            Attribute::NumberOfReturns
        } else if index == 4 {
            Attribute::ClassificationFlags
        } else if index == 5 {
            Attribute::ScannerChannel
        } else if index == 6 {
            Attribute::ScanDirectionFlag
        } else if index == 7 {
            Attribute::EdgeOfFlightLine
        } else if index == 8 {
            Attribute::Classification
        } else if index == 9 {
            Attribute::ScanAngle
        } else if index == 10 {
            Attribute::UserData
        } else if index == 11 {
            Attribute::PointSourceId
        } else if index == 12 {
            Attribute::GpsTime
        } else if index == 13 {
            Attribute::Color
        } else if index == 14 {
            Attribute::Nir
        } else if index == 15 {
            Attribute::WavePacketIndex
        } else if index == 16 {
            Attribute::WaveformByteOffset
        } else if index == 17 {
            Attribute::WaveformPacketSize
        } else if index == 18 {
            Attribute::WaveformReturnPoint
        } else {
            Attribute::WaveformParameters
        }
    }

    /// Name under which point buffers know the attribute.
    pub fn name(self) -> (name: &'static str)
        ensures
            name@ == self.spec_name(),
    {
        match self {
            Attribute::Position => "Position3D",
            Attribute::Intensity => "Intensity",
            Attribute::ReturnNumber => "ReturnNumber",
            Attribute::NumberOfReturns => "NumberOfReturns",
            Attribute::ClassificationFlags => "ClassificationFlags",
            Attribute::ScannerChannel => "ScannerChannel",
            Attribute::ScanDirectionFlag => "ScanDirectionFlag",
            Attribute::EdgeOfFlightLine => "EdgeOfFlightLine",
            Attribute::Classification => "Classification",
            Attribute::ScanAngle => "ScanAngleRank",
            Attribute::UserData => "UserData",
            Attribute::PointSourceId => "PointSourceID",
            Attribute::GpsTime => "GpsTime",
            Attribute::Color => "ColorRGB",
            Attribute::Nir => "NIR",
            Attribute::WavePacketIndex => "WavePacketDescriptorIndex",
            Attribute::WaveformByteOffset => "WaveformDataOffset",
            Attribute::WaveformPacketSize => "WaveformPacketSize",
            Attribute::WaveformReturnPoint => "ReturnPointWaveformLocation",
            Attribute::WaveformParameters => "WaveformParameters",
        }
    }

    /// Whether records of the format hold the attribute.
    pub fn in_format(self, format: &FormatDescriptor) -> (held: bool)
        ensures
            held == self.spec_in_format(*format),
    {
        match self {
            Attribute::ClassificationFlags | Attribute::ScannerChannel => format.is_extended,
            Attribute::GpsTime => format.has_gps_time,
            Attribute::Color => format.has_color,
            Attribute::Nir => format.has_nir,
            Attribute::WavePacketIndex
            | Attribute::WaveformByteOffset
            | Attribute::WaveformPacketSize
            | Attribute::WaveformReturnPoint
            | Attribute::WaveformParameters => format.has_waveform,
            _ => true,
        }
    }

    /// Type in which a decoder holds the attribute before any conversion.
    pub fn source_type(self, format: &FormatDescriptor) -> (datatype: DataType)
        ensures
            datatype == self.spec_source_type(*format),
    {
        match self {
            Attribute::Position => DataType::Vec3f64,
            Attribute::Intensity | Attribute::PointSourceId | Attribute::Nir => DataType::U16,
            Attribute::ScanDirectionFlag | Attribute::EdgeOfFlightLine => DataType::Bool,
            Attribute::ScanAngle => if format.is_extended {
                DataType::I16
            } else {
                DataType::I8
            },
            Attribute::GpsTime => DataType::F64,
            Attribute::Color => DataType::Vec3u16,
            Attribute::WaveformByteOffset => DataType::U64,
            Attribute::WaveformPacketSize => DataType::U32,
            Attribute::WaveformReturnPoint => DataType::F32,
            Attribute::WaveformParameters => DataType::Vec3f32,
            _ => DataType::U8,
        }
    }
}

} // verus!
