use vstd::prelude::*;

mod decoder;
mod encoder;
mod model;
mod range;

pub use decoder::Ppmd7Decoder;
pub use encoder::Ppmd7Encoder;
pub use model::rescale_freqs;
pub use model::Pppmd7;
pub use model::See;
pub use model::SeeSource;
pub use model::StateRec;
pub use range::RangeDecoder;
pub use range::RangeEncoder;

verus! {

/// Smallest model order the format allows.
pub const PPMD7_MIN_ORDER: u32 = 2;

/// Largest model order the format allows.
pub const PPMD7_MAX_ORDER: u32 = 64;

/// Smallest arena size the format allows.
pub const PPMD7_MIN_MEM_SIZE: u32 = 2048;

/// Largest arena size the format allows.
pub const PPMD7_MAX_MEM_SIZE: u32 = 4294967259;

/// The decoder's end-of-stream marker.
pub const PPMD7_SYM_END: i32 = -1;

/// The decoder's corrupt-data marker.
pub const PPMD7_SYM_ERROR: i32 = -2;

/// Errors of the statistical coder.
#[derive(Debug)]
pub enum Error {
    /// The range decoder's first bytes were not a valid initial state.
    RangeDecoderInitialization,
    /// Order or memory size out of range.
    InvalidParameter,
    /// The compressed input ran out or the output sink failed.
    IoError,
    /// The model reached an inconsistent state.
    InternalError,
}

} // verus!
