//! Blosc block codec: parameter sets, frame header sizing and the checks
//! that surround a native decompression call.

pub mod error;
pub mod frame;
pub mod params;
pub mod decode;

pub use error::{BloscError, CodecError};
pub use frame::FrameSizes;
pub use params::{BloscCompression, Compressor};
pub use decode::DecodePlan;
