use vstd::prelude::*;

use crate::error::{BloscError, CodecError};
use crate::frame::{header_sizes, sizes_match, FrameSizes, MAX_BUFFERSIZE, MIN_HEADER_LENGTH, VERSION_FORMAT};
use crate::params::BloscCompression;

verus! {

/// Why a frame is refused before the engine is called, if it is.
pub open spec fn frame_refusal(src: Seq<u8>) -> Option<CodecError> {
    if src.len() < MIN_HEADER_LENGTH {
        Some(CodecError::TruncatedHeader)
    } else if src[0] != VERSION_FORMAT || header_sizes(src).1 > src.len() || header_sizes(src).0
        > MAX_BUFFERSIZE {
        Some(CodecError::Decompression(BloscError))
    } else {
        None
    }
}

/// Number of bytes kept from `rsize` decompressed bytes: the whole elements only.
pub open spec fn whole_element_bytes(rsize: int, typesize: int) -> int {
    (rsize / typesize) * typesize
}

/// What is kept of a decompression into `dest` that reported `rsize` bytes,
/// for a frame declaring `nbytes` uncompressed bytes: nothing when the report
/// is not positive or exceeds the declared length or the buffer, else the
/// reported bytes cut down to whole elements of `typesize` bytes.
pub open spec fn decoded_output(nbytes: int, typesize: int, rsize: int, dest: Seq<u8>) -> Option<
    Seq<u8>,
> {
    if 0 < rsize && rsize <= nbytes && rsize <= dest.len() {
        Some(dest.subrange(0, whole_element_bytes(rsize, typesize)))
    } else {
        None
    }
}

/// For a frame that passes the checks before the engine runs, whenever the
/// engine reports `rsize` bytes written, within the declared length and the
/// buffer it filled, the output is the prefix of what it wrote and holds
/// exactly `rsize / typesize` whole elements, never more bytes than `rsize`.
pub proof fn lemma_exact_sizing(src: Seq<u8>, typesize: int, rsize: int, dest: Seq<u8>)
    requires
        frame_refusal(src) is None,
        typesize > 0,
        0 < rsize <= header_sizes(src).0,
        rsize <= dest.len(),
    ensures
        decoded_output(header_sizes(src).0 as int, typesize, rsize, dest) is Some,
        ({
            let out = decoded_output(header_sizes(src).0 as int, typesize, rsize, dest)->Some_0;
            &&& (out.len() as int) / typesize == rsize / typesize
            &&& (out.len() as int) % typesize == 0
            &&& out.len() <= rsize
            &&& out == dest.subrange(0, out.len() as int)
        }),
{
    let k = whole_element_bytes(rsize, typesize);
    assert(0 <= k <= rsize && k / typesize == rsize / typesize && k % typesize == 0)
        by (nonlinear_arith)
        requires
            typesize > 0,
            rsize > 0,
            k == (rsize / typesize) * typesize,
    {
        vstd::arithmetic::div_mod::lemma_div_multiples_vanish(rsize / typesize, typesize);
        vstd::arithmetic::div_mod::lemma_mod_multiples_basic(rsize / typesize, typesize);
        vstd::arithmetic::div_mod::lemma_fundamental_div_mod(rsize, typesize);
        vstd::arithmetic::div_mod::lemma_mod_bound(rsize, typesize);
        vstd::arithmetic::div_mod::lemma_div_pos_is_pos(rsize, typesize);
    }
}

/// What is known about a frame before the engine decompresses it.
#[derive(Clone, Copy, Debug, PartialEq, Eq, Structural)]
pub struct DecodePlan {
    /// The sizes that the frame's header declares.
    pub sizes: FrameSizes,
    /// Byte width of one output element.
    pub typesize: usize,
    /// Number of elements that the declared uncompressed length holds.
    pub element_count: usize,
}

impl DecodePlan {
    /// A positive element width, sizes the engine accepts, and the element
    /// count that the declared length holds.
    pub open spec fn wf(&self) -> bool {
        &&& self.typesize > 0
        &&& self.sizes.nbytes <= MAX_BUFFERSIZE
        &&& self.sizes.blocksize <= u32::MAX
        &&& self.element_count == self.sizes.nbytes / self.typesize
    }

    /// Byte capacity of the destination buffer that the engine may fill: the
    /// whole declared uncompressed length.
    pub fn capacity(&self) -> (r: usize)
        ensures
            r == self.sizes.nbytes,
    {
        self.sizes.nbytes
    }
}

/// Relies on `Vec::shrink_to_fit`: it releases spare capacity and leaves the
/// contents as they are.
#[verifier::external_body]
fn release_spare_capacity(v: &mut Vec<u8>)
    ensures
        final(v)@ == old(v)@,
{
    v.shrink_to_fit()
}

impl BloscCompression {
    /// Checks a compressed frame before decompression and sizes its
    /// destination. The destination's capacity is the uncompressed length
    /// that the header declares, so the engine is never asked to write
    /// past it; a frame that declares more compressed bytes than it holds,
    /// a length over the engine's maximum or an unknown format is refused.
    pub fn plan_decompress(src: &[u8], typesize: usize) -> (r: Result<DecodePlan, CodecError>)
        requires
            typesize > 0,
        ensures
            r is Err <==> frame_refusal(src@) is Some,
            r is Err ==> r->Err_0 == frame_refusal(src@)->Some_0,
            r is Ok ==> {
                let p = r->Ok_0;
                &&& p.wf()
                &&& p.typesize == typesize
                &&& sizes_match(p.sizes, src@)
                &&& p.sizes.cbytes <= src@.len()
                &&& p.sizes.nbytes as nat == header_sizes(src@).0
            },
    {
        let sizes = match FrameSizes::from_header(src) {
            Ok(s) => s,
            Err(e) => return Err(e),
        };
        if src[0] != VERSION_FORMAT || sizes.cbytes > src.len() || sizes.nbytes > MAX_BUFFERSIZE {
            return Err(CodecError::Decompression(BloscError));
        }
        Ok(DecodePlan { sizes, typesize, element_count: sizes.nbytes / typesize })
    }

    /// Accepts or refuses what the engine reported for a planned frame.
    /// `rsize` is the engine's result and `dest` the destination buffer whose
    /// first bytes it wrote. A result that is not positive, or that exceeds
    /// the planned capacity or the buffer, is a failure. Otherwise the output
    /// holds the first `rsize` bytes cut down to whole elements, so its
    /// element count is `rsize / typesize`.
    pub fn finish_decompress(plan: &DecodePlan, rsize: i32, dest: Vec<u8>) -> (r: Result<
        Vec<u8>,
        CodecError,
    >)
        requires
            plan.wf(),
        ensures
            r is Ok <==> (0 < rsize && rsize as int <= plan.sizes.nbytes && rsize as int
                <= dest@.len()),
            r is Err ==> r->Err_0 == CodecError::Decompression(BloscError),
            r is Ok ==> r->Ok_0@ == dest@.subrange(
                0,
                whole_element_bytes(rsize as int, plan.typesize as int),
            ),
            r is Ok ==> (r->Ok_0@.len() as int) / (plan.typesize as int) == rsize as int / (
            plan.typesize as int),
            r is Ok ==> (r->Ok_0@.len() as int) % (plan.typesize as int) == 0,
            match r {
                Ok(v) => decoded_output(
                    plan.sizes.nbytes as int,
                    plan.typesize as int,
                    rsize as int,
                    dest@,
                ) == Some(v@),
                Err(_) => decoded_output(
                    plan.sizes.nbytes as int,
                    plan.typesize as int,
                    rsize as int,
                    dest@,
                ) is None,
            },
    {
        if rsize <= 0 {
            return Err(CodecError::Decompression(BloscError));
        }
        let written = rsize as usize;
        if written > plan.capacity() || written > dest.len() {
            return Err(CodecError::Decompression(BloscError));
        }
        let ts = plan.typesize;
        assert(written % ts <= written) by (nonlinear_arith)
            requires
                ts > 0,
        ;
        let kept = written - written % ts;
        proof {
            let w = written as int;
            let t = ts as int;
            assert(kept as int == whole_element_bytes(w, t)) by (nonlinear_arith)
                requires
                    t > 0,
                    kept as int == w - w % t,
            {
            }
            assert(whole_element_bytes(w, t) / t == w / t && whole_element_bytes(w, t) % t == 0)
                by (nonlinear_arith)
                requires
                    t > 0,
                    w >= 0,
            {
                vstd::arithmetic::div_mod::lemma_div_multiples_vanish(w / t, t);
                vstd::arithmetic::div_mod::lemma_mod_multiples_basic(w / t, t);
            }
        }
        let mut out = dest;
        out.truncate(kept);
        release_spare_capacity(&mut out);
        Ok(out)
    }
}

} // verus!
