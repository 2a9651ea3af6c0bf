//! Point formats: which optional field groups a record holds and how wide it is.

use vstd::prelude::*;

verus! {

/// Why a stream cannot be opened.
#[derive(Clone, Copy, Debug, PartialEq, Eq, Structural)]
pub enum OpenError {
    /// The header is unusable: the format id is not one of 0 to 10, the record
    /// length is shorter than the format's fields, the point data does not fit
    /// the address range, or a compressed stream lacks its parameter block.
    Format,
    /// A compressed stream uses the extended bit layout or waveform fields.
    UnsupportedFeature,
}

/// What a format id says about a record.
#[derive(Clone, Copy, Debug, PartialEq, Eq, Structural)]
pub struct FormatDescriptor {
    pub id: u8,
    pub has_gps_time: bool,
    pub has_color: bool,
    pub has_nir: bool,
    pub has_waveform: bool,
    pub is_extended: bool,
}

/// The descriptor that belongs to a format id.
pub open spec fn descriptor_of(id: u8) -> FormatDescriptor {
    FormatDescriptor {
        id,
        has_gps_time: id == 1 || (3 <= id && id <= 10),
        has_color: id == 2 || id == 3 || id == 5 || id == 7 || id == 8 || id == 10,
        has_nir: id == 8 || id == 10,
        has_waveform: id == 4 || id == 5 || id == 9 || id == 10,
        is_extended: 6 <= id && id <= 10,
    }
}

/// Width in bytes of the fields that a record of this format holds on disk.
pub open spec fn record_width(format: FormatDescriptor) -> nat {
    (if format.is_extended { 22nat } else { 20nat }) + (if format.has_gps_time { 8nat } else { 0nat })
        + (if format.has_color { 6nat } else { 0nat }) + (if format.has_nir { 2nat } else { 0nat })
        + (if format.has_waveform { 29nat } else { 0nat })
}

/// Calls `las::point::Format::new` and copies the flags it returns.
///
/// For an id of at most 10 that function succeeds, and its flags are read off
/// four fixed lists of ids: time in all formats but 0 and 2, colour in 2, 3, 5,
/// 7, 8 and 10, waveforms in 4, 5, 9 and 10, near infrared in 8 and 10; the
/// extended layout starts at 6.
#[verifier::external_body]
fn las_format(id: u8) -> (found: Option<FormatDescriptor>)
    requires
        id <= 10,
    ensures
        found == Some(descriptor_of(id)),
{
    match las::point::Format::new(id) {
        Ok(f) => Some(FormatDescriptor {
            id,
            has_gps_time: f.has_gps_time,
            has_color: f.has_color,
            has_nir: f.has_nir,
            has_waveform: f.has_waveform,
            is_extended: f.is_extended,
        }),
        Err(_) => None,
    }
}

impl FormatDescriptor {
    /// A descriptor as `new` derives it from its id.
    pub open spec fn valid(self) -> bool {
        self.id <= 10 && self == descriptor_of(self.id)
    }

    /// Derives the descriptor of a format id; ids above 10 are not formats.
    pub fn new(id: u8) -> (made: Result<FormatDescriptor, OpenError>)
        ensures
            id <= 10 ==> made == Ok::<FormatDescriptor, OpenError>(descriptor_of(id)),
            id > 10 ==> made == Err::<FormatDescriptor, OpenError>(OpenError::Format),
    {
        if id > 10 {
            return Err(OpenError::Format);
        }
        match las_format(id) {
            Some(descriptor) => Ok(descriptor),
            None => Err(OpenError::Format),
        }
    }

    /// Width in bytes of one record's fields on disk.
    pub fn record_width(&self) -> (width: usize)
        ensures
            width == record_width(*self),
            20 <= width <= 67,
    {
        let mut width: usize = if self.is_extended { 22 } else { 20 };
        if self.has_gps_time {
            width = width + 8;
        }
        if self.has_color {
            width = width + 6;
        }
        if self.has_nir {
            width = width + 2;
        }
        if self.has_waveform {
            width = width + 29;
        }
        width
    }
}

} // verus!
