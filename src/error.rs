use vstd::prelude::*;

verus! {

/// The engine's single failure marker: it carries no detail.
#[derive(Clone, Copy, Debug, PartialEq, Eq, Structural)]
pub struct BloscError;

impl BloscError {
    /// Human-readable text for the failure marker.
    pub fn message(&self) -> (r: &'static str)
        ensures
            r@ == "unspecified error from c-Blosc"@,
    {
        "unspecified error from c-Blosc"
    }
}

/// Recoverable failures of the codec layer.
#[derive(Clone, Copy, Debug, PartialEq, Eq, Structural)]
pub enum CodecError {
    /// The algorithm name is missing or not one of the recognised ones.
    Configuration,
    /// The input is shorter than the fixed frame header.
    TruncatedHeader,
    /// The engine failed, or the header declares sizes that cannot be honoured.
    Decompression(BloscError),
}

} // verus!
