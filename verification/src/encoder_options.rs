use vstd::prelude::*;

use crate::password::Password;
use crate::ppmd7::PPMD7_MAX_MEM_SIZE;
use crate::ppmd7::PPMD7_MAX_ORDER;
use crate::ppmd7::PPMD7_MIN_MEM_SIZE;
use crate::ppmd7::PPMD7_MIN_ORDER;

verus! {

/// Smallest accepted LZMA dictionary.
pub const DICT_SIZE_MIN: u32 = 4096;

/// Largest accepted LZMA dictionary.
pub const DICT_SIZE_MAX: u32 = 4294967280;

/// Frames smaller than this are not worth skipping.
pub const MINIMAL_SKIPPABLE_FRAME_SIZE: u32 = 65536;

/// Default uncompressed span of one skippable frame.
pub const DEFAULT_SKIPPABLE_FRAME_SIZE: u32 = 131072;

/// The preset dictionary size for a compression level.
pub open spec fn spec_preset_dict_size(level: u32) -> u32 {
    if level == 0 {
        0x40000
    } else if level == 1 {
        0x100000
    } else if level == 2 {
        0x200000
    } else if level <= 4 {
        0x400000
    } else if level <= 6 {
        0x800000
    } else if level == 7 {
        0x1000000
    } else if level == 8 {
        0x2000000
    } else {
        0x4000000
    }
}

/// Options for LZMA compression.
#[derive(Debug, Clone, Copy)]
pub struct LZMAOptions {
    /// Dictionary size in bytes.
    pub dict_size: u32,
    /// Literal context bits.
    pub lc: u32,
    /// Literal position bits.
    pub lp: u32,
    /// Position bits.
    pub pb: u32,
}

impl LZMAOptions {
    /// Creates LZMA options with the given compression level, clamped to
    /// the levels the presets define.
    pub fn from_level(level: u32) -> (r: LZMAOptions)
        ensures
            r.dict_size == spec_preset_dict_size(if level > 9 {
                9u32
            } else {
                level
            }),
            r.lc == 3 && r.lp == 0 && r.pb == 2,
    {
        let level = if level > 9 {
            9
        } else {
            level
        };
        let dict_size: u32 = if level == 0 {
            0x40000
        } else if level == 1 {
            0x100000
        } else if level == 2 {
            0x200000
        } else if level <= 4 {
            0x400000
        } else if level <= 6 {
            0x800000
        } else if level == 7 {
            0x1000000
        } else if level == 8 {
            0x2000000
        } else {
            0x4000000
        };
        LZMAOptions { dict_size, lc: 3, lp: 0, pb: 2 }
    }

    /// The packed properties byte `(pb * 5 + lp) * 9 + lc`.
    pub fn get_props(&self) -> (r: u8)
        requires
            self.lc <= 8,
            self.lp <= 4,
            self.pb <= 4,
        ensures
            r == (self.pb * 5 + self.lp) * 9 + self.lc,
    {
        (((self.pb * 5 + self.lp) * 9 + self.lc) % 0x100) as u8
    }
}

/// Options for LZMA2 compression.
#[derive(Debug, Clone, Copy)]
pub struct LZMA2Options {
    /// The underlying LZMA options.
    pub options: LZMAOptions,
    /// Worker threads the encoder may use.
    pub threads: u32,
    /// Size of each independent stream when encoding multi-threaded.
    pub stream_size: Option<u64>,
}

impl LZMA2Options {
    /// Creates single-threaded LZMA2 options for a compression level.
    pub fn from_level(level: u32) -> (r: LZMA2Options)
        ensures
            r.threads == 1,
            r.stream_size is None,
    {
        LZMA2Options { options: LZMAOptions::from_level(level), threads: 1, stream_size: None }
    }

    /// Creates multi-threaded LZMA2 options; the stream size is clamped to
    /// at least 256 KiB.
    pub fn from_level_mt(level: u32, threads: u32, stream_size: u64) -> (r: LZMA2Options)
        ensures
            r.threads == threads,
            r.stream_size matches Some(s) && s >= 262144,
    {
        let s = if stream_size < 262144 {
            262144
        } else {
            stream_size
        };
        LZMA2Options { options: LZMAOptions::from_level(level), threads, stream_size: Some(s) }
    }

    /// Sets the dictionary size, clamped to the accepted range.
    pub fn set_dictionary_size(&mut self, dict_size: u32)
        ensures
            final(self).options.dict_size == if dict_size < DICT_SIZE_MIN {
                DICT_SIZE_MIN
            } else if dict_size > DICT_SIZE_MAX {
                DICT_SIZE_MAX
            } else {
                dict_size
            },
    {
        let v = if dict_size < DICT_SIZE_MIN {
            DICT_SIZE_MIN
        } else if dict_size > DICT_SIZE_MAX {
            DICT_SIZE_MAX
        } else {
            dict_size
        };
        self.options.dict_size = v;
    }
}

/// Options for BZip2 compression.
#[derive(Debug, Clone, Copy)]
pub struct Bzip2Options(pub u32);

impl Bzip2Options {
    /// Creates BZip2 options with the given compression level.
    pub fn from_level(level: u32) -> (r: Bzip2Options)
        ensures
            r.0 == level,
    {
        Bzip2Options(level)
    }
}

impl Default for Bzip2Options {
    /// Level six.
    fn default() -> (r: Bzip2Options)
        ensures
            r.0 == 6,
    {
        Bzip2Options(6)
    }
}

/// Options for Brotli compression.
#[derive(Debug, Clone, Copy)]
pub struct BrotliOptions {
    /// Compression quality, at most eleven.
    pub quality: u32,
    /// Window size exponent, at most twenty-four.
    pub window: u32,
    /// Uncompressed span of one skippable frame; zero keeps the native
    /// bitstream.
    pub skippable_frame_size: u32,
}

impl BrotliOptions {
    /// Creates Brotli options with the given quality and window, clamped
    /// to their ranges.
    pub fn from_quality_window(quality: u32, window: u32) -> (r: BrotliOptions)
        ensures
            r.quality == if quality > 11 {
                11u32
            } else {
                quality
            },
            r.window == if window > 24 {
                24u32
            } else {
                window
            },
            r.skippable_frame_size == DEFAULT_SKIPPABLE_FRAME_SIZE,
    {
        let quality = if quality > 11 {
            11
        } else {
            quality
        };
        let window = if window > 24 {
            24
        } else {
            window
        };
        BrotliOptions { quality, window, skippable_frame_size: DEFAULT_SKIPPABLE_FRAME_SIZE }
    }

    /// Sets the skippable frame size: zero disables framing, any other
    /// value is raised to at least 64 KiB.
    pub fn with_skippable_frame_size(self, skippable_frame_size: u32) -> (r: BrotliOptions)
        ensures
            r.skippable_frame_size == if skippable_frame_size == 0 {
                0u32
            } else if skippable_frame_size < MINIMAL_SKIPPABLE_FRAME_SIZE {
                MINIMAL_SKIPPABLE_FRAME_SIZE
            } else {
                skippable_frame_size
            },
            r.quality == self.quality,
            r.window == self.window,
    {
        let v = if skippable_frame_size == 0 {
            0
        } else if skippable_frame_size < MINIMAL_SKIPPABLE_FRAME_SIZE {
            MINIMAL_SKIPPABLE_FRAME_SIZE
        } else {
            skippable_frame_size
        };
        BrotliOptions { quality: self.quality, window: self.window, skippable_frame_size: v }
    }
}

impl Default for BrotliOptions {
    /// Quality eleven, window twenty-two, default framing.
    fn default() -> (r: BrotliOptions)
        ensures
            r.quality == 11 && r.window == 22,
    {
        BrotliOptions { quality: 11, window: 22, skippable_frame_size: DEFAULT_SKIPPABLE_FRAME_SIZE }
    }
}

/// Options for the delta filter.
#[derive(Debug, Clone, Copy)]
pub struct DeltaOptions(pub u32);

impl DeltaOptions {
    /// Creates delta options for the given distance, clamped to one
    /// through 256.
    pub fn from_distance(distance: u32) -> (r: DeltaOptions)
        ensures
            r.0 == if distance == 0 {
                1u32
            } else if distance > 256 {
                256u32
            } else {
                distance
            },
            1 <= r.0 <= 256,
    {
        let d = if distance == 0 {
            1
        } else if distance > 256 {
            256
        } else {
            distance
        };
        DeltaOptions(d)
    }
}

impl Default for DeltaOptions {
    /// Distance one.
    fn default() -> (r: DeltaOptions)
        ensures
            r.0 == 1,
    {
        DeltaOptions(1)
    }
}

/// Options for Deflate compression.
#[derive(Debug, Clone, Copy)]
pub struct DeflateOptions(pub u32);

impl DeflateOptions {
    /// Creates Deflate options for the given level, clamped to nine.
    pub fn from_level(level: u32) -> (r: DeflateOptions)
        ensures
            r.0 == if level > 9 {
                9u32
            } else {
                level
            },
    {
        let v = if level > 9 {
            9
        } else {
            level
        };
        DeflateOptions(v)
    }
}

impl Default for DeflateOptions {
    /// Level six.
    fn default() -> (r: DeflateOptions)
        ensures
            r.0 == 6,
    {
        DeflateOptions(6)
    }
}

/// Options for LZ4 compression.
#[derive(Debug, Clone, Copy)]
pub struct LZ4Options {
    /// Uncompressed span of one skippable frame; zero keeps the native
    /// bitstream.
    pub skippable_frame_size: u32,
}

impl LZ4Options {
    /// Sets the skippable frame size: zero disables framing, any other
    /// value is raised to at least 64 KiB.
    pub fn with_skippable_frame_size(self, skippable_frame_size: u32) -> (r: LZ4Options)
        ensures
            r.skippable_frame_size == if skippable_frame_size == 0 {
                0u32
            } else if skippable_frame_size < MINIMAL_SKIPPABLE_FRAME_SIZE {
                MINIMAL_SKIPPABLE_FRAME_SIZE
            } else {
                skippable_frame_size
            },
    {
        let v = if skippable_frame_size == 0 {
            0
        } else if skippable_frame_size < MINIMAL_SKIPPABLE_FRAME_SIZE {
            MINIMAL_SKIPPABLE_FRAME_SIZE
        } else {
            skippable_frame_size
        };
        LZ4Options { skippable_frame_size: v }
    }
}

impl Default for LZ4Options {
    /// Native framing.
    fn default() -> (r: LZ4Options)
        ensures
            r.skippable_frame_size == 0,
    {
        LZ4Options { skippable_frame_size: 0 }
    }
}

/// The preset model order for a PPMd compression level.
pub open spec fn spec_ppmd_order(level: u32) -> u32 {
    if level == 0 {
        3
    } else if level <= 2 {
        4
    } else if level <= 4 {
        5
    } else if level == 5 {
        6
    } else if level == 6 {
        8
    } else if level == 7 {
        16
    } else if level == 8 {
        24
    } else {
        32
    }
}

/// Options for PPMd compression.
#[derive(Debug, Clone, Copy)]
pub struct PPMDOptions {
    /// Model order.
    pub order: u32,
    /// Arena size in bytes.
    pub memory_size: u32,
}

impl PPMDOptions {
    /// Creates PPMd options for a compression level: the preset order and
    /// one megabyte-scale arena per level step.
    pub fn from_level(level: u32) -> (r: PPMDOptions)
        ensures
            r.order == spec_ppmd_order(if level > 9 {
                9u32
            } else {
                level
            }),
            r.memory_size == (1u32 << (((if level > 9 {
                9u32
            } else {
                level
            }) + 19) as u32)),
    {
        let level = if level > 9 {
            9
        } else {
            level
        };
        let order: u32 = if level == 0 {
            3
        } else if level <= 2 {
            4
        } else if level <= 4 {
            5
        } else if level == 5 {
            6
        } else if level == 6 {
            8
        } else if level == 7 {
            16
        } else if level == 8 {
            24
        } else {
            32
        };
        let memory_size = 1u32 << ((level + 19) as u32);
        PPMDOptions { order, memory_size }
    }

    /// Creates PPMd options from explicit order and memory size, each
    /// clamped to the valid range of the format.
    pub fn from_order_memory_size(order: u32, memory_size: u32) -> (r: PPMDOptions)
        ensures
            r.order == if order > PPMD7_MAX_ORDER {
                PPMD7_MAX_ORDER
            } else if order < PPMD7_MIN_ORDER {
                PPMD7_MIN_ORDER
            } else {
                order
            },
            r.memory_size == if memory_size > PPMD7_MAX_MEM_SIZE {
                PPMD7_MAX_MEM_SIZE
            } else if memory_size < PPMD7_MIN_MEM_SIZE {
                PPMD7_MIN_MEM_SIZE
            } else {
                memory_size
            },
    {
        let order = if order > PPMD7_MAX_ORDER {
            PPMD7_MAX_ORDER
        } else if order < PPMD7_MIN_ORDER {
            PPMD7_MIN_ORDER
        } else {
            order
        };
        let memory_size = if memory_size > PPMD7_MAX_MEM_SIZE {
            PPMD7_MAX_MEM_SIZE
        } else if memory_size < PPMD7_MIN_MEM_SIZE {
            PPMD7_MIN_MEM_SIZE
        } else {
            memory_size
        };
        PPMDOptions { order, memory_size }
    }
}

impl Default for PPMDOptions {
    /// The level-six preset.
    fn default() -> (r: PPMDOptions)
        ensures
            r.order == 8,
            r.memory_size == 0x2000000,
    {
        PPMDOptions { order: 8, memory_size: 0x2000000 }
    }
}

/// Options for Zstandard compression.
#[derive(Debug, Clone, Copy)]
pub struct ZStandardOptions(pub u32);

impl ZStandardOptions {
    /// Creates Zstandard options for the given level, clamped to
    /// twenty-two.
    pub fn from_level(level: u32) -> (r: ZStandardOptions)
        ensures
            r.0 == if level > 22 {
                22u32
            } else {
                level
            },
    {
        let v = if level > 22 {
            22
        } else {
            level
        };
        ZStandardOptions(v)
    }
}

impl Default for ZStandardOptions {
    /// Level three.
    fn default() -> (r: ZStandardOptions)
        ensures
            r.0 == 3,
    {
        ZStandardOptions(3)
    }
}

/// Relies on getrandom::fill: fills a buffer from the system entropy
/// source. The result depends on that source, so only its length is
/// stated.
#[verifier::external_body]
fn random_bytes_16() -> (r: Vec<u8>)
    ensures
        r@.len() == 16,
{
    let mut b = [0u8; 16];
    let _ = getrandom::fill(&mut b);
    b.to_vec()
}

/// The 34 property bytes of an AES-256 coder: the cycles power with both
/// size flags set, a full-size marker, then the salt and the IV.
pub open spec fn spec_aes_properties(o: AesEncoderOptions) -> Seq<u8> {
    seq![(o.num_cycles_power & 0x3F) | 0xC0, 0xFFu8] + o.salt@ + o.iv@
}

/// Options for AES-256 encryption.
#[derive(Debug, Clone)]
pub struct AesEncoderOptions {
    /// Password for encryption.
    pub password: Password,
    /// Initialization vector, sixteen bytes.
    pub iv: Vec<u8>,
    /// Salt for key derivation, sixteen bytes.
    pub salt: Vec<u8>,
    /// Power-of-two count of key-derivation rounds.
    pub num_cycles_power: u8,
}

impl AesEncoderOptions {
    /// Creates AES options with the given password, a random IV and salt,
    /// and 256 derivation rounds.
    pub fn new(password: Password) -> (r: AesEncoderOptions)
        ensures
            r.num_cycles_power == 8,
            r.iv@.len() == 16,
            r.salt@.len() == 16,
    {
        AesEncoderOptions {
            password,
            iv: random_bytes_16(),
            salt: random_bytes_16(),
            num_cycles_power: 8,
        }
    }

    /// The 34 property bytes: the cycles power with both size flags set,
    /// a full-size marker, then the salt and the IV.
    pub fn properties(&self) -> (r: Vec<u8>)
        requires
            self.iv@.len() == 16,
            self.salt@.len() == 16,
        ensures
            r@ =~= spec_aes_properties(*self),
            r@.len() == 34,
            r@[0] == (self.num_cycles_power & 0x3F) | 0xC0,
            r@[1] == 0xFF,
            r@.subrange(2, 18) =~= self.salt@,
            r@.subrange(18, 34) =~= self.iv@,
    {
        let mut props: Vec<u8> = Vec::new();
        props.push((self.num_cycles_power & 0x3F) | 0xC0);
        props.push(0xFF);
        let mut i: usize = 0;
        while i < 16
            invariant
                self.iv@.len() == 16,
                self.salt@.len() == 16,
                props@.len() == 2 + i,
                i <= 16,
                props@[0] == (self.num_cycles_power & 0x3F) | 0xC0,
                props@[1] == 0xFF,
                forall|k: int| 0 <= k < i ==> props@[2 + k] == self.salt@[k],
            decreases 16 - i,
        {
            props.push(self.salt[i]);
            i = i + 1;
        }
        let mut j: usize = 0;
        while j < 16
            invariant
                self.iv@.len() == 16,
                self.salt@.len() == 16,
                props@.len() == 18 + j,
                j <= 16,
                props@[0] == (self.num_cycles_power & 0x3F) | 0xC0,
                props@[1] == 0xFF,
                forall|k: int| 0 <= k < 16 ==> props@[2 + k] == self.salt@[k],
                forall|k: int| 0 <= k < j ==> props@[18 + k] == self.iv@[k],
            decreases 16 - j,
        {
            props.push(self.iv[j]);
            j = j + 1;
        }
        proof {
            assert(props@.subrange(2, 18) =~= self.salt@);
            assert(props@.subrange(18, 34) =~= self.iv@);
            assert(props@ =~= spec_aes_properties(*self));
        }
        props
    }
}

/// Encoder-specific options for the supported methods.
#[derive(Debug, Clone)]
pub enum EncoderOptions {
    /// Delta filter options.
    Delta(DeltaOptions),
    /// LZMA compression options.
    LZMA(LZMAOptions),
    /// LZMA2 compression options.
    LZMA2(LZMA2Options),
    /// Brotli compression options.
    BROTLI(BrotliOptions),
    /// BZip2 compression options.
    BZIP2(Bzip2Options),
    /// Deflate compression options.
    DEFLATE(DeflateOptions),
    /// LZ4 compression options.
    LZ4(LZ4Options),
    /// PPMd compression options.
    PPMD(PPMDOptions),
    /// Zstandard compression options.
    ZSTD(ZStandardOptions),
    /// AES-256 encryption options.
    Aes(AesEncoderOptions),
}

impl EncoderOptions {
    /// The LZMA or LZMA2 dictionary size of this option, or zero for any
    /// other method.
    pub fn get_lzma_dict_size(&self) -> (r: u32)
        ensures
            self matches EncoderOptions::LZMA(o) ==> r == o.dict_size,
            self matches EncoderOptions::LZMA2(o) ==> r == o.options.dict_size,
    {
        match self {
            EncoderOptions::LZMA(o) => o.dict_size,
            EncoderOptions::LZMA2(o) => o.options.dict_size,
            _ => 0,
        }
    }
}

} // verus!
