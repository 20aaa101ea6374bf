//! Height maps: raw sample data for terrain.

use vstd::prelude::*;

verus! {

#[verifier::external_type_specification]
#[verifier::external_body]
pub struct ExIoError(std::io::Error);

/// Why a height map could not be made.
#[derive(Debug)]
pub enum HeightMapError {
    /// The file could not be read.
    Io(std::io::Error),
    /// The data is not a whole number of samples: this many bytes are left
    /// over.
    InvalidSize(usize),
}

/// The number of bytes in one height sample (a 32-bit value).
pub const SAMPLE_BYTES: usize = 4;

/// The number of samples in `byte_len` bytes of height data, or the number
/// of bytes left over when they do not divide into whole samples.
pub fn height_sample_count(byte_len: usize) -> (r: Result<usize, HeightMapError>)
    ensures
        byte_len % 4 == 0 ==> (r matches Ok(n) && n == byte_len / 4),
        byte_len % 4 != 0 ==> (r matches Err(HeightMapError::InvalidSize(k)) && k == byte_len % 4),
{
    let remainder = byte_len % SAMPLE_BYTES;
    if remainder > 0 {
        return Err(HeightMapError::InvalidSize(remainder));
    }
    Ok(byte_len / SAMPLE_BYTES)
}

} // verus!
