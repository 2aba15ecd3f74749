use vstd::prelude::*;

use crate::error::CodecError;

verus! {

/// Length of the fixed frame header, in bytes.
pub const MIN_HEADER_LENGTH: usize = 16;

/// The only frame format version the engine reads.
pub const VERSION_FORMAT: u8 = 2;

/// Largest uncompressed size the engine accepts, in bytes.
pub const MAX_BUFFERSIZE: usize = 2147483631;

/// The little-endian unsigned 32-bit integer stored at `off`.
pub open spec fn le_u32_at(b: Seq<u8>, off: int) -> nat {
    (b[off] as nat) + 256 * (b[off + 1] as nat) + 65536 * (b[off + 2] as nat) + 16777216 * (
    b[off + 3] as nat)
}

/// The three sizes that a frame header declares.
#[derive(Clone, Copy, Debug, PartialEq, Eq, Structural)]
pub struct FrameSizes {
    /// Uncompressed length of the whole buffer.
    pub nbytes: usize,
    /// Compressed length of the whole frame, header included.
    pub cbytes: usize,
    /// Internal block size used by the engine.
    pub blocksize: usize,
}

/// The sizes that the header at the start of `b` declares. A header of any
/// other format version declares all three as zero.
pub open spec fn header_sizes(b: Seq<u8>) -> (nat, nat, nat) {
    if b[0] != VERSION_FORMAT {
        (0, 0, 0)
    } else {
        (le_u32_at(b, 4), le_u32_at(b, 12), le_u32_at(b, 8))
    }
}

/// `s` holds exactly the sizes that the header of `b` declares.
pub open spec fn sizes_match(s: FrameSizes, b: Seq<u8>) -> bool {
    &&& s.nbytes as nat == header_sizes(b).0
    &&& s.cbytes as nat == header_sizes(b).1
    &&& s.blocksize as nat == header_sizes(b).2
}

/// Reads the little-endian `u32` at `off`.
fn read_u32_le(src: &[u8], off: usize) -> (r: u32)
    requires
        off + 4 <= src@.len(),
    ensures
        r as nat == le_u32_at(src@, off as int),
{
    let b0 = src[off] as u32;
    let b1 = src[off + 1] as u32;
    let b2 = src[off + 2] as u32;
    let b3 = src[off + 3] as u32;
    b0 + 256 * b1 + 65536 * b2 + 16777216 * b3
}

impl FrameSizes {
    /// Reads the sizes declared by the header of a compressed frame, without
    /// touching its payload. Fails when `src` is shorter than the header.
    pub fn from_header(src: &[u8]) -> (r: Result<FrameSizes, CodecError>)
        ensures
            r is Err <==> src@.len() < MIN_HEADER_LENGTH,
            r is Err ==> r->Err_0 == CodecError::TruncatedHeader,
            r is Ok ==> sizes_match(r->Ok_0, src@),
    {
        if src.len() < MIN_HEADER_LENGTH {
            return Err(CodecError::TruncatedHeader);
        }
        if src[0] != VERSION_FORMAT {
            return Ok(FrameSizes { nbytes: 0, cbytes: 0, blocksize: 0 });
        }
        let nbytes = read_u32_le(src, 4) as usize;
        let blocksize = read_u32_le(src, 8) as usize;
        let cbytes = read_u32_le(src, 12) as usize;
        Ok(FrameSizes { nbytes, cbytes, blocksize })
    }
}

} // verus!
