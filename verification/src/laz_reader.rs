//! The reader of a compressed stream. A decompressor outside this library
//! turns the stream into chunks of records; from there on a compressed stream
//! is decoded like an uncompressed one.

use crate::buffer::PointBuffer;
use crate::byte_order::Endianness;
use crate::cursor::{clamped_index, seek_target, SeekError, SeekFrom, SeekOutcome};
use crate::format::{descriptor_of, record_width, FormatDescriptor, OpenError};
use crate::plan::PlanError;
use crate::reader::ReaderState;
use crate::value::WorldPosition;
use laz::las::laszip::{LASZIP_RECORD_ID, LASZIP_USER_ID};
use vstd::prelude::*;

verus! {

/// What identifies a variable length record of a header.
#[derive(Clone, Debug)]
pub struct VlrKey {
    pub user_id: String,
    pub record_id: u16,
}

/// Record id of the record that holds the compression parameters.
pub open spec fn laszip_record_id() -> u16 {
    22204
}

/// User id of the record that holds the compression parameters.
pub open spec fn laszip_user_id() -> Seq<char> {
    "laszip encoded"@
}

/// Reads `laz::las::laszip::LASZIP_USER_ID`, the text `laszip encoded`.
#[verifier::external_body]
fn compression_user_id() -> (id: String)
    ensures
        id@ == laszip_user_id(),
{
    LASZIP_USER_ID.to_string()
}

/// Reads `laz::las::laszip::LASZIP_RECORD_ID`, the number 22204.
#[verifier::external_body]
fn compression_record_id() -> (id: u16)
    ensures
        id == laszip_record_id(),
{
    LASZIP_RECORD_ID
}

/// Whether a record with this key holds the compression parameters.
pub open spec fn spec_is_laszip_vlr(vlr: VlrKey) -> bool {
    vlr.user_id@ == laszip_user_id() && vlr.record_id == laszip_record_id()
}

/// Whether a record with this key holds the compression parameters.
pub fn is_laszip_vlr(vlr: &VlrKey) -> (is: bool)
    ensures
        is == spec_is_laszip_vlr(*vlr),
{
    let user_id = compression_user_id();
    vlr.user_id == user_id && vlr.record_id == compression_record_id()
}

/// Index of the first record that holds the compression parameters.
pub fn find_laszip_vlr(vlrs: &Vec<VlrKey>) -> (found: Option<usize>)
    ensures
        found matches Some(index) ==> index < vlrs@.len() && spec_is_laszip_vlr(vlrs@[index as int])
            && forall|j: int| 0 <= j < index ==> !spec_is_laszip_vlr(#[trigger] vlrs@[j]),
        found is None ==> forall|j: int| 0 <= j < vlrs@.len() ==> !spec_is_laszip_vlr(
            #[trigger] vlrs@[j],
        ),
{
    let mut i: usize = 0;
    while i < vlrs.len()
        invariant
            i <= vlrs@.len(),
            forall|j: int| 0 <= j < i ==> !spec_is_laszip_vlr(#[trigger] vlrs@[j]),
        decreases vlrs@.len() - i,
    {
        if is_laszip_vlr(&vlrs[i]) {
            return Some(i);
        }
        i = i + 1;
    }
    None
}

/// Reader of a compressed stream of points.
#[derive(Debug)]
pub struct RawLAZReader {
    state: ReaderState,
}

impl RawLAZReader {
    /// What the reader shares with every reader.
    pub closed spec fn spec_state(self) -> ReaderState {
        self.state
    }

    /// The state is well formed, and the format is one that the decompressor
    /// takes: neither extended nor with waveforms.
    pub open spec fn wf(self) -> bool {
        &&& self.spec_state().wf()
        &&& !self.spec_state().spec_format().is_extended
        &&& !self.spec_state().spec_format().has_waveform
    }

    /// What opening a compressed stream comes to. An id above 10 is no
    /// format. A format with waveforms or of the extended layout is one that
    /// the decompressor does not take. Records that start closer to each other
    /// than the format's fields are wide, and a header without the record of
    /// compression parameters, are malformed.
    pub open spec fn open_outcome(
        format_id: u8,
        size_of_point_in_file: u16,
        vlrs: Seq<VlrKey>,
    ) -> Option<OpenError> {
        let format = descriptor_of(format_id);
        if format_id > 10 {
            Some(OpenError::Format)
        } else if format.has_waveform || format.is_extended {
            Some(OpenError::UnsupportedFeature)
        } else if size_of_point_in_file < record_width(format) {
            Some(OpenError::Format)
        } else if forall|j: int| 0 <= j < vlrs.len() ==> !spec_is_laszip_vlr(#[trigger] vlrs[j]) {
            Some(OpenError::Format)
        } else {
            None
        }
    }

    /// Opens a reader on what the header of a stream says. It stands at the
    /// first point. The second result is the index of the variable length
    /// record that holds the compression parameters: the first with the key of
    /// such a record.
    pub fn new(
        format_id: u8,
        byte_order: Endianness,
        point_count: usize,
        size_of_point_in_file: u16,
        vlrs: &Vec<VlrKey>,
    ) -> (made: Result<(RawLAZReader, usize), OpenError>)
        ensures
            Self::open_outcome(format_id, size_of_point_in_file, vlrs@) matches Some(error)
                ==> made == Err::<(RawLAZReader, usize), OpenError>(error),
            Self::open_outcome(format_id, size_of_point_in_file, vlrs@) is None ==> made is Ok,
            made matches Ok((reader, index)) ==> {
                &&& reader.wf()
                &&& reader.spec_state().spec_format() == descriptor_of(format_id)
                &&& reader.spec_state().spec_byte_order() == byte_order
                &&& reader.spec_state().spec_point_count() == point_count
                &&& reader.spec_state().spec_point_index() == 0
                &&& reader.spec_state().spec_size_of_point_in_file() == size_of_point_in_file
                &&& index < vlrs@.len()
                &&& spec_is_laszip_vlr(vlrs@[index as int])
                &&& forall|j: int| 0 <= j < index ==> !spec_is_laszip_vlr(#[trigger] vlrs@[j])
            },
    {
        let format = match FormatDescriptor::new(format_id) {
            Ok(format) => format,
            Err(error) => {
                return Err(error);
            },
        };
        if format.has_waveform {
            return Err(OpenError::UnsupportedFeature);
        }
        if format.is_extended {
            return Err(OpenError::UnsupportedFeature);
        }
        let state = match ReaderState::new(format, byte_order, point_count, size_of_point_in_file) {
            Ok(state) => state,
            Err(error) => {
                return Err(error);
            },
        };
        match find_laszip_vlr(vlrs) {
            None => Err(OpenError::Format),
            Some(index) => Ok((RawLAZReader { state }, index)),
        }
    }

    /// What the reader shares with every reader: its state, and the decoding
    /// of chunks.
    pub fn state(&self) -> (state: &ReaderState)
        ensures
            *state == self.spec_state(),
    {
        &self.state
    }

    /// Number of points between the reader and the end of the stream.
    pub fn remaining_points(&self) -> (remaining: usize)
        requires
            self.wf(),
        ensures
            remaining == self.spec_state().spec_remaining_points(),
    {
        self.state.remaining_points()
    }

    /// Sets the number of records decoded in one pass.
    pub fn set_chunk_size(&mut self, chunk_size: usize)
        requires
            old(self).wf(),
            chunk_size > 0,
        ensures
            final(self).wf(),
            final(self).spec_state().spec_chunk_size() == chunk_size,
            final(self).spec_state().spec_format() == old(self).spec_state().spec_format(),
            final(self).spec_state().spec_byte_order() == old(self).spec_state().spec_byte_order(),
            final(self).spec_state().spec_layout() == old(self).spec_state().spec_layout(),
            final(self).spec_state().spec_point_count() == old(
                self,
            ).spec_state().spec_point_count(),
            final(self).spec_state().spec_point_index() == old(
                self,
            ).spec_state().spec_point_index(),
            final(self).spec_state().spec_size_of_point_in_file() == old(
                self,
            ).spec_state().spec_size_of_point_in_file(),
    {
        self.state.set_chunk_size(chunk_size);
    }

    /// Moves the reader behind `points` points that a caller has decoded chunk
    /// by chunk.
    pub fn advance(&mut self, points: usize)
        requires
            old(self).wf(),
            points <= old(self).spec_state().spec_remaining_points(),
        ensures
            final(self).wf(),
            final(self).spec_state().same_stream(old(self).spec_state()),
            final(self).spec_state().spec_point_index() == old(self).spec_state().spec_point_index()
                + points,
    {
        self.state.advance(points);
    }

    /// Moves the reader to a position, held to the range of the stream, and
    /// returns the index at which it stands then. Where that differs from the
    /// index before, the outcome names the point to which the decompressor has
    /// to seek: the one with the new index. A position before the first point
    /// is refused and leaves the reader where it stands.
    pub fn seek_point(&mut self, position: SeekFrom) -> (sought: Result<SeekOutcome, SeekError>)
        requires
            old(self).wf(),
        ensures
            final(self).wf(),
            final(self).spec_state().same_stream(old(self).spec_state()),
            seek_target(
                old(self).spec_state().spec_point_count(),
                old(self).spec_state().spec_point_index(),
                position,
            ) < 0 ==> sought == Err::<SeekOutcome, SeekError>(SeekError::InvalidSeek)
                && final(self).spec_state().spec_point_index() == old(
                self,
            ).spec_state().spec_point_index(),
            seek_target(
                old(self).spec_state().spec_point_count(),
                old(self).spec_state().spec_point_index(),
                position,
            ) >= 0 ==> {
                &&& final(self).spec_state().spec_point_index() == clamped_index(
                    old(self).spec_state().spec_point_count(),
                    seek_target(
                        old(self).spec_state().spec_point_count(),
                        old(self).spec_state().spec_point_index(),
                        position,
                    ),
                )
                &&& sought == Ok::<SeekOutcome, SeekError>(
                    SeekOutcome {
                        index: final(self).spec_state().spec_point_index() as usize,
                        reposition: if final(self).spec_state().spec_point_index() == old(
                            self,
                        ).spec_state().spec_point_index() {
                            None
                        } else {
                            Some(final(self).spec_state().spec_point_index() as u64)
                        },
                    },
                )
            },
    {
        match self.state.seek(position) {
            Err(error) => Err(error),
            Ok((index, moved)) => {
                let reposition = if moved {
                    Some(index as u64)
                } else {
                    None
                };
                Ok(SeekOutcome { index, reposition })
            },
        }
    }

    /// Reads up to `count` points into a buffer: along the default path where
    /// the buffer has the natural layout, else along the custom path. `data`
    /// holds the decompressed records of every point of the stream, and
    /// `positions` their positions.
    pub fn read_into(
        &mut self,
        data: &[u8],
        positions: &[WorldPosition],
        point_buffer: &mut PointBuffer,
        count: usize,
    ) -> (read: Result<usize, PlanError>)
        requires
            old(self).wf(),
            old(self).spec_state().holds(data@, positions@),
            old(point_buffer).wf(),
            old(point_buffer).spec_len() + old(self).spec_state().spec_remaining_points()
                <= usize::MAX,
        ensures
            final(self).wf(),
            final(point_buffer).wf(),
            old(self).spec_state().reads_into(
                final(self).spec_state(),
                data@,
                positions@,
                *old(point_buffer),
                *final(point_buffer),
                count as nat,
                read,
            ),
    {
        self.state.read_into(data, positions, point_buffer, count)
    }

    /// Reads up to `count` points into a new buffer of the natural layout.
    pub fn read(&mut self, data: &[u8], positions: &[WorldPosition], count: usize) -> (read: (
        PointBuffer,
        usize,
    ))
        requires
            old(self).wf(),
            old(self).spec_state().holds(data@, positions@),
        ensures
            final(self).wf(),
            old(self).spec_state().reads(
                final(self).spec_state(),
                data@,
                positions@,
                count as nat,
                read.0,
                read.1 as nat,
            ),
    {
        self.state.read(data, positions, count)
    }
}

} // verus!
