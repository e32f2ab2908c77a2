//! Host-file access over semihosting: the cursor and byte-count arithmetic
//! of the protocol. The semihosting calls themselves — open, read, write,
//! seek — are the front end's job; it hands the raw call results here.

use vstd::prelude::*;

verus! {

/// Where a seek puts the read/write cursor.
#[derive(Clone, Copy, Debug, PartialEq, Eq, Structural)]
pub enum SeekFrom {
    /// This many bytes from the beginning; at most the file's length.
    Start(usize),
    /// The file's length plus this offset; the offset must range from the
    /// negated file length to zero, since the cursor cannot pass the end.
    End(isize),
}

/// An error that occurred during seeking.
#[derive(Clone, Copy, Debug, PartialEq, Eq, Structural)]
pub enum SeekError {
    /// The requested position lies outside the file.
    PositionOutOfBounds,
    /// The host reported a failure while reading the length or moving the
    /// cursor.
    Unknown,
}

/// The absolute cursor position a seek request denotes against a file of
/// `length` bytes: offsets from the end wrap through the address space,
/// exactly as the unchecked addition computes them.
pub open spec fn spec_seek_position(length: usize, from: SeekFrom) -> int {
    match from {
        SeekFrom::Start(offset) => offset as int,
        SeekFrom::End(offset) => {
            let sum = length as int + (offset as usize) as int;
            if sum > usize::MAX {
                sum - (usize::MAX as int + 1)
            } else {
                sum
            }
        },
    }
}

/// Resolve a seek request against a file of `length` bytes.
///
/// Returns the absolute position to hand to the host, or
/// `PositionOutOfBounds` exactly when the request denotes a position past
/// the end of the file.
pub fn seek_target(length: usize, from: SeekFrom) -> (r: Result<usize, SeekError>)
    ensures
        spec_seek_position(length, from) <= length <==> r == Result::<usize, SeekError>::Ok(
            spec_seek_position(length, from) as usize,
        ),
        spec_seek_position(length, from) > length <==> r == Result::<usize, SeekError>::Err(
            SeekError::PositionOutOfBounds,
        ),
{
    let pos = match from {
        SeekFrom::Start(offset) => offset,
        SeekFrom::End(offset) => length.wrapping_add(offset as usize),
    };

    if pos > length {
        return Err(SeekError::PositionOutOfBounds);
    }

    Ok(pos)
}

/// Interpret a semihosting transfer result: the host reports how many of
/// the requested bytes were *not* transferred.
///
/// Returns the number of bytes transferred, or an error exactly when the
/// report exceeds the request — a count no successful call can produce.
pub fn transferred(requested: usize, not_transferred: usize) -> (r: Result<usize, ()>)
    ensures
        not_transferred <= requested <==> r == Result::<usize, ()>::Ok(
            (requested - not_transferred) as usize,
        ),
        not_transferred > requested <==> r == Result::<usize, ()>::Err(()),
{
    if not_transferred > requested {
        return Err(());
    }

    Ok(requested - not_transferred)
}

} // verus!
