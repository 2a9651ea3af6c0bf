//! The read cursor of a stream of points, and the split of a read into chunks.

use vstd::prelude::*;

verus! {

/// Number of records that a reader decodes in one pass unless told otherwise.
pub const DEFAULT_CHUNK_SIZE: usize = 50_000;

/// A position to seek to: a point index counted from the start of the stream,
/// from its end, or from the current point.
#[derive(Clone, Copy, Debug, PartialEq, Eq, Structural)]
pub enum SeekFrom {
    Start(u64),
    End(i64),
    Current(i64),
}

/// Why a seek was refused.
#[derive(Clone, Copy, Debug, PartialEq, Eq, Structural)]
pub enum SeekError {
    /// The position lies before the first point.
    InvalidSeek,
}

/// What a seek did: the index at which the cursor stands now and, if that is
/// not where it stood before, the place to which the stream has to move. For
/// an uncompressed stream the place is a byte offset in the file, for a
/// compressed one the index of the point.
#[derive(Clone, Copy, Debug, PartialEq, Eq, Structural)]
pub struct SeekOutcome {
    pub index: usize,
    pub reposition: Option<u64>,
}

/// The index that a position names, before it is held to the stream's range.
pub open spec fn seek_target(point_count: nat, current: nat, position: SeekFrom) -> int {
    match position {
        SeekFrom::Start(from_start) => from_start as int,
        SeekFrom::End(from_end) => point_count + from_end,
        SeekFrom::Current(from_current) => current + from_current,
    }
}

/// The index at which a seek to `target` leaves the cursor: the target, or the
/// point count where the target lies behind the last point.
pub open spec fn clamped_index(point_count: nat, target: int) -> nat {
    if target > point_count {
        point_count
    } else {
        target as nat
    }
}

/// Resolves a position to the index at which a seek leaves the cursor. A
/// position before the first point is refused.
pub fn resolve_seek(point_count: usize, current: usize, position: SeekFrom) -> (resolved: Result<
    usize,
    SeekError,
>)
    requires
        current <= point_count,
    ensures
        seek_target(point_count as nat, current as nat, position) < 0 ==> resolved == Err::<
            usize,
            SeekError,
        >(SeekError::InvalidSeek),
        seek_target(point_count as nat, current as nat, position) >= 0 ==> resolved == Ok::<
            usize,
            SeekError,
        >(
            clamped_index(
                point_count as nat,
                seek_target(point_count as nat, current as nat, position),
            ) as usize,
        ),
        resolved matches Ok(index) ==> index <= point_count,
{
    let target: i128 = match position {
        SeekFrom::Start(from_start) => from_start as i128,
        SeekFrom::End(from_end) => point_count as i128 + from_end as i128,
        SeekFrom::Current(from_current) => current as i128 + from_current as i128,
    };
    if target < 0 {
        Err(SeekError::InvalidSeek)
    } else if target > point_count as i128 {
        Ok(point_count)
    } else {
        Ok(target as usize)
    }
}

/// Number of points that a read of `count` points takes from a stream with
/// `remaining` points left.
pub open spec fn points_to_read(count: nat, remaining: nat) -> nat {
    if count <= remaining {
        count
    } else {
        remaining
    }
}

/// Number of points in the chunk that starts behind `done` points.
pub open spec fn spec_points_in_chunk(total: nat, chunk_size: nat, done: nat) -> nat {
    if total - done < chunk_size {
        (total - done) as nat
    } else {
        chunk_size
    }
}

/// Number of points in the next chunk of a read of `total` points of which
/// `done` are read: a full chunk, or what is left.
pub fn points_in_chunk(total: usize, chunk_size: usize, done: usize) -> (points: usize)
    requires
        done <= total,
    ensures
        points == spec_points_in_chunk(total as nat, chunk_size as nat, done as nat),
        points <= chunk_size,
        done + points <= total,
        chunk_size > 0 && done < total ==> points > 0,
{
    if total - done < chunk_size {
        total - done
    } else {
        chunk_size
    }
}

} // verus!
