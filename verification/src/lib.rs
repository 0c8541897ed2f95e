//! A library for reading and writing archives in the 7z container format.
//!
//! The container holds packed streams produced by chains of coders
//! (compression methods, reversible byte filters and symmetric encryption),
//! described by a structured header that lists files, sizes, checksums,
//! timestamps and per-block coder pipelines.

use vstd::prelude::*;

mod archive;
mod bcj;
mod bitset;
mod block;
mod bytes;
pub mod coders;
mod crc32;
pub mod delta;
pub mod encoder_options;
pub mod encryption;
mod error;
pub mod lz;
pub mod method_options;
mod password;
pub mod ppmd7;
pub mod reader;
mod time;
pub mod writer;

pub use archive::Archive;
pub use archive::ArchiveEntry;
pub use archive::EncoderConfiguration;
pub use archive::EncoderMethod;
pub use archive::StartHeader;
pub use archive::StreamMap;
pub use archive::SubStreamsInfo;
pub use bcj::BCJFilter;
pub use bcj::BcjKind;
pub use bitset::write_bit_set;
pub use bitset::BitSet;
pub use block::BindPair;
pub use block::Block;
pub use block::Coder;
pub use block::OrderedCoderIter;
pub use bytes::ByteCursor;
pub use crc32::crc32;
pub use crc32::crc32_of;
pub use delta::Delta;
pub use delta::DeltaReader;
pub use delta::DeltaWriter;
pub use delta::delta_decode;
pub use delta::delta_encode;
pub use delta::lemma_delta_round_trip;
pub use error::Error;
pub use password::Password;
pub use reader::ArchiveReader;
pub use reader::BlockDecoder;
pub use reader::BoundedReader;
pub use reader::SeekableBoundedReader;
pub use time::NtTime;
pub use writer::write_u64;
pub use writer::ArchiveWriter;
pub use writer::BlockInfo;
pub use writer::PackInfo;
pub use writer::UnpackInfo;
pub use time::NtTimeError;

verus! {

} // verus!
