use vstd::prelude::*;

use crate::encoder_options::AesEncoderOptions;
use crate::encoder_options::BrotliOptions;
use crate::encoder_options::Bzip2Options;
use crate::encoder_options::DeflateOptions;
use crate::encoder_options::DeltaOptions;
use crate::encoder_options::LZMA2Options;
use crate::encoder_options::PPMDOptions;
use crate::encoder_options::ZStandardOptions;

verus! {

/// Method options in the looser shape older call sites used: either a
/// bare number or one of the option records.
#[derive(Debug, Clone)]
pub enum MethodOptions {
    /// A bare numeric option, read as a dictionary size where one is
    /// asked for.
    Num(u32),
    /// Delta filter options.
    Delta(DeltaOptions),
    /// LZMA2 compression options.
    LZMA2(LZMA2Options),
    /// Brotli compression options.
    BROTLI(BrotliOptions),
    /// BZip2 compression options.
    BZIP2(Bzip2Options),
    /// Deflate compression options.
    DEFLATE(DeflateOptions),
    /// PPMd compression options.
    PPMD(PPMDOptions),
    /// Zstandard compression options.
    ZSTD(ZStandardOptions),
    /// AES-256 encryption options.
    Aes(AesEncoderOptions),
}

impl MethodOptions {
    /// The LZMA2 dictionary size of this option: the bare number, the
    /// LZMA2 record's size, or zero for any other method.
    pub fn get_lzma2_dict_size(&self) -> (r: u32)
        ensures
            self matches MethodOptions::Num(n) ==> r == n,
            self matches MethodOptions::LZMA2(o) ==> r == o.options.dict_size,
    {
        match self {
            MethodOptions::Num(n) => *n,
            MethodOptions::LZMA2(o) => o.options.dict_size,
            _ => 0,
        }
    }
}

} // verus!
