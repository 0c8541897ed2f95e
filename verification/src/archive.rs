use vstd::prelude::*;

use crate::bitset::BitSet;
use crate::block::Block;
use crate::time::NtTime;

verus! {

/// Size of the fixed signature header at the start of every archive.
pub const SIGNATURE_HEADER_SIZE: u64 = 32;

/// Header tag bytes.
pub const K_END: u8 = 0x00;

pub const K_HEADER: u8 = 0x01;

pub const K_ARCHIVE_PROPERTIES: u8 = 0x02;

pub const K_ADDITIONAL_STREAMS_INFO: u8 = 0x03;

pub const K_MAIN_STREAMS_INFO: u8 = 0x04;

pub const K_FILES_INFO: u8 = 0x05;

pub const K_PACK_INFO: u8 = 0x06;

pub const K_UNPACK_INFO: u8 = 0x07;

pub const K_SUB_STREAMS_INFO: u8 = 0x08;

pub const K_SIZE: u8 = 0x09;

pub const K_CRC: u8 = 0x0A;

pub const K_FOLDER: u8 = 0x0B;

pub const K_CODERS_UNPACK_SIZE: u8 = 0x0C;

pub const K_NUM_UNPACK_STREAM: u8 = 0x0D;

pub const K_EMPTY_STREAM: u8 = 0x0E;

pub const K_EMPTY_FILE: u8 = 0x0F;

pub const K_ANTI: u8 = 0x10;

pub const K_NAME: u8 = 0x11;

pub const K_C_TIME: u8 = 0x12;

pub const K_A_TIME: u8 = 0x13;

pub const K_M_TIME: u8 = 0x14;

pub const K_WIN_ATTRIBUTES: u8 = 0x15;

pub const K_COMMENT: u8 = 0x16;

pub const K_ENCODED_HEADER: u8 = 0x17;

pub const K_START_POS: u8 = 0x18;

pub const K_DUMMY: u8 = 0x19;

/// A parsed 7z archive: its pack streams, compression blocks, file entries
/// and the cross-index between them.
pub struct Archive {
    /// Offset from the end of the signature header to the packed streams.
    pub pack_pos: u64,
    /// Compressed length of each pack stream, in file order.
    pub pack_sizes: Vec<u64>,
    /// Which pack streams carry a known checksum.
    pub pack_crcs_defined: BitSet,
    /// The checksums of the pack streams.
    pub pack_crcs: Vec<u64>,
    /// Per-file sizes and checksums when a block holds several files.
    pub sub_streams_info: Option<SubStreamsInfo>,
    /// Compression blocks in the archive.
    pub blocks: Vec<Block>,
    /// File and directory entries in the archive.
    pub files: Vec<ArchiveEntry>,
    /// Mapping between files, blocks, and pack streams.
    pub stream_map: StreamMap,
    /// Whether this is a solid archive (some block holds several files).
    pub is_solid: bool,
}

impl Archive {
    /// An empty archive description.
    pub fn new_empty() -> (r: Archive)
        ensures
            r.blocks@.len() == 0,
            r.files@.len() == 0,
    {
        Archive {
            pack_pos: 0,
            pack_sizes: Vec::new(),
            pack_crcs_defined: BitSet::new(),
            pack_crcs: Vec::new(),
            sub_streams_info: None,
            blocks: Vec::new(),
            files: Vec::new(),
            stream_map: StreamMap::new_empty(),
            is_solid: false,
        }
    }
}

/// Per-file uncompressed sizes and checksums of a solid block.
pub struct SubStreamsInfo {
    /// Uncompressed size of every substream.
    pub unpack_sizes: Vec<u64>,
    /// Which substreams carry a checksum.
    pub has_crc: BitSet,
    /// The substream checksums.
    pub crcs: Vec<u64>,
}

/// The twelve bytes that locate the main header.
#[derive(Clone, Copy)]
pub struct StartHeader {
    /// Offset of the main header, relative to the end of the signature
    /// header.
    pub next_header_offset: u64,
    /// Length of the main header in bytes.
    pub next_header_size: u64,
    /// CRC-32 of the main header bytes.
    pub next_header_crc: u64,
}

/// Cross-index between files, blocks and pack streams.
pub struct StreamMap {
    /// First pack stream index used by each block.
    pub block_first_pack_stream_index: Vec<usize>,
    /// Cumulative offset of each pack stream inside the pack region.
    pub pack_stream_offsets: Vec<u64>,
    /// Index of the first file each block produces.
    pub block_first_file_index: Vec<usize>,
    /// Block index for each file (absent for empty and directory entries).
    pub file_block_index: Vec<Option<usize>>,
}

impl StreamMap {
    /// An empty map.
    pub fn new_empty() -> (r: StreamMap)
        ensures
            r.block_first_pack_stream_index@.len() == 0,
            r.pack_stream_offsets@.len() == 0,
            r.block_first_file_index@.len() == 0,
            r.file_block_index@.len() == 0,
    {
        StreamMap {
            block_first_pack_stream_index: Vec::new(),
            pack_stream_offsets: Vec::new(),
            block_first_file_index: Vec::new(),
            file_block_index: Vec::new(),
        }
    }
}

/// A single file or directory entry of an archive.
#[derive(Clone, Debug)]
pub struct ArchiveEntry {
    /// Name of the entry inside the archive.
    pub name: String,
    /// Whether this entry has an associated data stream.
    pub has_stream: bool,
    /// Whether this entry is a directory.
    pub is_directory: bool,
    /// Whether this is an anti-item (used for deletion in updates).
    pub is_anti_item: bool,
    /// Whether a creation date is present.
    pub has_creation_date: bool,
    /// Whether a last-modified date is present.
    pub has_last_modified_date: bool,
    /// Whether an access date is present.
    pub has_access_date: bool,
    /// Creation date and time.
    pub creation_date: NtTime,
    /// Last modified date and time.
    pub last_modified_date: NtTime,
    /// Last access date and time.
    pub access_date: NtTime,
    /// Whether Windows file attributes are present.
    pub has_windows_attributes: bool,
    /// Windows file attributes.
    pub windows_attributes: u32,
    /// Whether a CRC is present.
    pub has_crc: bool,
    /// CRC-32 of the uncompressed data.
    pub crc: u64,
    /// CRC-32 of the compressed data.
    pub compressed_crc: u64,
    /// Uncompressed size in bytes.
    pub size: u64,
    /// Compressed size in bytes.
    pub compressed_size: u64,
}

impl ArchiveEntry {
    /// Creates a new default entry: empty name, no stream, no dates, no
    /// attributes, no checksum, every size zero.
    pub fn new() -> (r: ArchiveEntry)
        ensures
            r.name@.len() == 0,
            !r.has_stream,
            !r.is_directory,
            !r.is_anti_item,
            !r.has_creation_date,
            !r.has_last_modified_date,
            !r.has_access_date,
            r.creation_date.0 == 0,
            r.last_modified_date.0 == 0,
            r.access_date.0 == 0,
            !r.has_windows_attributes,
            r.windows_attributes == 0,
            !r.has_crc,
            r.crc == 0,
            r.compressed_crc == 0,
            r.size == 0,
            r.compressed_size == 0,
    {
        ArchiveEntry {
            name: String::new(),
            has_stream: false,
            is_directory: false,
            is_anti_item: false,
            has_creation_date: false,
            has_last_modified_date: false,
            has_access_date: false,
            creation_date: NtTime::new(0),
            last_modified_date: NtTime::new(0),
            access_date: NtTime::new(0),
            has_windows_attributes: false,
            windows_attributes: 0,
            has_crc: false,
            crc: 0,
            compressed_crc: 0,
            size: 0,
            compressed_size: 0,
        }
    }

    /// Creates an entry representing a file with the given name; every
    /// other field keeps its default.
    pub fn new_file(entry_name: &str) -> (r: ArchiveEntry)
        ensures
            r.name@ == entry_name@,
            r.has_stream,
            !r.is_directory,
            !r.is_anti_item,
            !r.has_creation_date && !r.has_last_modified_date && !r.has_access_date,
            !r.has_windows_attributes && r.windows_attributes == 0,
            !r.has_crc && r.crc == 0 && r.compressed_crc == 0,
            r.size == 0 && r.compressed_size == 0,
    {
        let mut e = ArchiveEntry::new();
        e.name = entry_name.to_owned();
        e.has_stream = true;
        e.is_directory = false;
        e
    }

    /// Creates an entry representing a directory with the given name;
    /// every other field keeps its default.
    pub fn new_directory(entry_name: &str) -> (r: ArchiveEntry)
        ensures
            r.name@ == entry_name@,
            !r.has_stream,
            r.is_directory,
            !r.is_anti_item,
            !r.has_creation_date && !r.has_last_modified_date && !r.has_access_date,
            !r.has_windows_attributes && r.windows_attributes == 0,
            !r.has_crc && r.crc == 0 && r.compressed_crc == 0,
            r.size == 0 && r.compressed_size == 0,
    {
        let mut e = ArchiveEntry::new();
        e.name = entry_name.to_owned();
        e.has_stream = false;
        e.is_directory = true;
        e
    }

    /// The entry's name inside the archive.
    pub fn name(&self) -> (r: &str)
        ensures
            r@ == self.name@,
    {
        self.name.as_str()
    }

    /// Whether this entry is a directory.
    pub fn is_directory(&self) -> (r: bool)
        ensures
            r == self.is_directory,
    {
        self.is_directory
    }

    /// Whether this entry has an associated data stream.
    pub fn has_stream(&self) -> (r: bool)
        ensures
            r == self.has_stream,
    {
        self.has_stream
    }

    /// The creation date of this entry.
    pub fn creation_date(&self) -> (r: NtTime)
        ensures
            r == self.creation_date,
    {
        self.creation_date
    }

    /// The last modified date of this entry.
    pub fn last_modified_date(&self) -> (r: NtTime)
        ensures
            r == self.last_modified_date,
    {
        self.last_modified_date
    }

    /// The uncompressed size of this entry in bytes.
    pub fn size(&self) -> (r: u64)
        ensures
            r == self.size,
    {
        self.size
    }

    /// The Windows file attributes of this entry.
    pub fn windows_attributes(&self) -> (r: u32)
        ensures
            r == self.windows_attributes,
    {
        self.windows_attributes
    }

    /// The last access date of this entry.
    pub fn access_date(&self) -> (r: NtTime)
        ensures
            r == self.access_date,
    {
        self.access_date
    }

    /// Whether this entry is an anti-item.
    pub fn is_anti_item(&self) -> (r: bool)
        ensures
            r == self.is_anti_item,
    {
        self.is_anti_item
    }
}

/// An encoder method together with optional method-specific options.
#[derive(Clone)]
pub struct EncoderConfiguration {
    /// The encoder method to use.
    pub method: EncoderMethod,
    /// Optional encoder-specific options.
    pub options: Option<crate::encoder_options::EncoderOptions>,
}

impl EncoderConfiguration {
    /// A configuration for `method` with no options.
    pub fn new(method: EncoderMethod) -> (r: EncoderConfiguration)
        ensures
            r.method == method,
            r.options is None,
    {
        EncoderConfiguration { method, options: None }
    }

    /// Adds method-specific options to this configuration.
    pub fn with_options(
        self,
        options: crate::encoder_options::EncoderOptions,
    ) -> (r: EncoderConfiguration)
        ensures
            r.method == self.method,
            r.options is Some,
    {
        EncoderConfiguration { method: self.method, options: Some(options) }
    }
}

/// An encoder method that can stand in a coder chain: a compression method,
/// a reversible byte filter or a symmetric cipher.
#[allow(non_camel_case_types)]
#[derive(Clone, Copy, Debug, PartialEq, Eq, Structural)]
pub enum EncoderMethod {
    /// Stored without compression.
    COPY,
    /// LZMA compression.
    LZMA,
    /// LZMA2 compression.
    LZMA2,
    /// PPMd order-N statistical compression.
    PPMD,
    /// BZip2 compression.
    BZIP2,
    /// Zstandard compression.
    ZSTD,
    /// Brotli compression.
    BROTLI,
    /// LZ4 compression.
    LZ4,
    /// LZS compression.
    LZS,
    /// Lizard compression.
    LIZARD,
    /// Deflate compression.
    DEFLATE,
    /// Deflate64 compression.
    DEFLATE64,
    /// AES-256 encryption with an SHA-256 derived key.
    AES256SHA256,
    /// BCJ x86 branch filter.
    BCJ_X86_FILTER,
    /// BCJ PowerPC branch filter.
    BCJ_PPC_FILTER,
    /// BCJ IA64 branch filter.
    BCJ_IA64_FILTER,
    /// BCJ ARM branch filter.
    BCJ_ARM_FILTER,
    /// BCJ ARM64 branch filter.
    BCJ_ARM64_FILTER,
    /// BCJ ARM Thumb branch filter.
    BCJ_ARM_THUMB_FILTER,
    /// BCJ SPARC branch filter.
    BCJ_SPARC_FILTER,
    /// Delta byte filter.
    DELTA_FILTER,
    /// BCJ2 four-stream x86 branch filter.
    BCJ2_FILTER,
}

/// The wire method identifier of an encoder method.
pub open spec fn spec_id(m: EncoderMethod) -> Seq<u8> {
    match m {
        EncoderMethod::COPY => seq![0x00u8],
        EncoderMethod::LZMA => seq![0x03u8, 0x01u8, 0x01u8],
        EncoderMethod::LZMA2 => seq![0x21u8],
        EncoderMethod::PPMD => seq![0x03u8, 0x04u8, 0x01u8],
        EncoderMethod::BZIP2 => seq![0x04u8, 0x02u8, 0x02u8],
        EncoderMethod::ZSTD => seq![0x04u8, 0xF7u8, 0x11u8, 0x01u8],
        EncoderMethod::BROTLI => seq![0x04u8, 0xF7u8, 0x11u8, 0x02u8],
        EncoderMethod::LZ4 => seq![0x04u8, 0xF7u8, 0x11u8, 0x04u8],
        EncoderMethod::LZS => seq![0x04u8, 0xF7u8, 0x11u8, 0x05u8],
        EncoderMethod::LIZARD => seq![0x04u8, 0xF7u8, 0x11u8, 0x06u8],
        EncoderMethod::DEFLATE => seq![0x04u8, 0x01u8, 0x08u8],
        EncoderMethod::DEFLATE64 => seq![0x04u8, 0x01u8, 0x09u8],
        EncoderMethod::AES256SHA256 => seq![0x06u8, 0xF1u8, 0x07u8, 0x01u8],
        EncoderMethod::BCJ_X86_FILTER => seq![0x03u8, 0x03u8, 0x01u8, 0x03u8],
        EncoderMethod::BCJ_PPC_FILTER => seq![0x03u8, 0x03u8, 0x02u8, 0x05u8],
        EncoderMethod::BCJ_IA64_FILTER => seq![0x03u8, 0x03u8, 0x04u8, 0x01u8],
        EncoderMethod::BCJ_ARM_FILTER => seq![0x03u8, 0x03u8, 0x05u8, 0x01u8],
        EncoderMethod::BCJ_ARM64_FILTER => seq![0x0Au8],
        EncoderMethod::BCJ_ARM_THUMB_FILTER => seq![0x03u8, 0x03u8, 0x07u8, 0x01u8],
        EncoderMethod::BCJ_SPARC_FILTER => seq![0x03u8, 0x03u8, 0x08u8, 0x05u8],
        EncoderMethod::DELTA_FILTER => seq![0x03u8],
        EncoderMethod::BCJ2_FILTER => seq![0x03u8, 0x03u8, 0x01u8, 0x1Bu8],
    }
}

/// The registry, in lookup order.
pub open spec fn spec_registry() -> Seq<EncoderMethod> {
    seq![
        EncoderMethod::COPY,
        EncoderMethod::LZMA,
        EncoderMethod::LZMA2,
        EncoderMethod::PPMD,
        EncoderMethod::BZIP2,
        EncoderMethod::ZSTD,
        EncoderMethod::BROTLI,
        EncoderMethod::LZ4,
        EncoderMethod::LZS,
        EncoderMethod::LIZARD,
        EncoderMethod::DEFLATE,
        EncoderMethod::DEFLATE64,
        EncoderMethod::AES256SHA256,
        EncoderMethod::BCJ_X86_FILTER,
        EncoderMethod::BCJ_PPC_FILTER,
        EncoderMethod::BCJ_IA64_FILTER,
        EncoderMethod::BCJ_ARM_FILTER,
        EncoderMethod::BCJ_ARM64_FILTER,
        EncoderMethod::BCJ_ARM_THUMB_FILTER,
        EncoderMethod::BCJ_SPARC_FILTER,
        EncoderMethod::DELTA_FILTER,
        EncoderMethod::BCJ2_FILTER,
    ]
}

/// The first registry entry whose identifier equals `id`, if any: what a
/// lookup by wire identifier returns.
pub open spec fn spec_lookup(id: Seq<u8>, i: int) -> Option<EncoderMethod>
    decreases spec_registry().len() - i,
{
    if i < 0 || i >= spec_registry().len() {
        None
    } else if spec_id(spec_registry()[i]) == id {
        Some(spec_registry()[i])
    } else {
        spec_lookup(id, i + 1)
    }
}

/// An identifier equal to a given method's identifier names that method:
/// the length and a byte or two tell the registry's entries apart.
pub proof fn lemma_id_tells_method(m: EncoderMethod)
    ensures
        m != EncoderMethod::DELTA_FILTER ==> spec_id(m) != spec_id(EncoderMethod::DELTA_FILTER),
        m != EncoderMethod::AES256SHA256 ==> spec_id(m) != spec_id(
            EncoderMethod::AES256SHA256,
        ),
        m != EncoderMethod::COPY ==> spec_id(m) != spec_id(EncoderMethod::COPY),
        m != EncoderMethod::BCJ_ARM_FILTER ==> spec_id(m) != spec_id(
            EncoderMethod::BCJ_ARM_FILTER,
        ),
        m != EncoderMethod::BCJ_ARM_THUMB_FILTER ==> spec_id(m) != spec_id(
            EncoderMethod::BCJ_ARM_THUMB_FILTER,
        ),
        m != EncoderMethod::BCJ_ARM64_FILTER ==> spec_id(m) != spec_id(
            EncoderMethod::BCJ_ARM64_FILTER,
        ),
{
    let d = spec_id(EncoderMethod::DELTA_FILTER);
    let a = spec_id(EncoderMethod::AES256SHA256);
    let c = spec_id(EncoderMethod::COPY);
    let ba = spec_id(EncoderMethod::BCJ_ARM_FILTER);
    let bt = spec_id(EncoderMethod::BCJ_ARM_THUMB_FILTER);
    let b6 = spec_id(EncoderMethod::BCJ_ARM64_FILTER);
    assert(d.len() == 1 && d[0] == 0x03u8);
    assert(a.len() == 4 && a[0] == 0x06u8 && a[2] == 0x07u8);
    assert(c.len() == 1 && c[0] == 0x00u8);
    assert(ba.len() == 4 && ba[0] == 0x03u8 && ba[2] == 0x05u8);
    assert(bt.len() == 4 && bt[0] == 0x03u8 && bt[2] == 0x07u8);
    assert(b6.len() == 1 && b6[0] == 0x0Au8);
    match m {
        EncoderMethod::COPY => {
            assert(spec_id(m).len() == 1 && spec_id(m)[0] == 0x00u8);
        },
        EncoderMethod::LZMA => {
            assert(spec_id(m).len() == 3 && spec_id(m)[0] == 0x03u8 && spec_id(m)[2] == 0x01u8);
        },
        EncoderMethod::LZMA2 => {
            assert(spec_id(m).len() == 1 && spec_id(m)[0] == 0x21u8);
        },
        EncoderMethod::PPMD => {
            assert(spec_id(m).len() == 3 && spec_id(m)[0] == 0x03u8 && spec_id(m)[2] == 0x01u8);
        },
        EncoderMethod::BZIP2 => {
            assert(spec_id(m).len() == 3 && spec_id(m)[0] == 0x04u8 && spec_id(m)[2] == 0x02u8);
        },
        EncoderMethod::ZSTD => {
            assert(spec_id(m).len() == 4 && spec_id(m)[0] == 0x04u8 && spec_id(m)[2] == 0x11u8);
        },
        EncoderMethod::BROTLI => {
            assert(spec_id(m).len() == 4 && spec_id(m)[0] == 0x04u8 && spec_id(m)[2] == 0x11u8);
        },
        EncoderMethod::LZ4 => {
            assert(spec_id(m).len() == 4 && spec_id(m)[0] == 0x04u8 && spec_id(m)[2] == 0x11u8);
        },
        EncoderMethod::LZS => {
            assert(spec_id(m).len() == 4 && spec_id(m)[0] == 0x04u8 && spec_id(m)[2] == 0x11u8);
        },
        EncoderMethod::LIZARD => {
            assert(spec_id(m).len() == 4 && spec_id(m)[0] == 0x04u8 && spec_id(m)[2] == 0x11u8);
        },
        EncoderMethod::DEFLATE => {
            assert(spec_id(m).len() == 3 && spec_id(m)[0] == 0x04u8 && spec_id(m)[2] == 0x08u8);
        },
        EncoderMethod::DEFLATE64 => {
            assert(spec_id(m).len() == 3 && spec_id(m)[0] == 0x04u8 && spec_id(m)[2] == 0x09u8);
        },
        EncoderMethod::AES256SHA256 => {
            assert(spec_id(m).len() == 4 && spec_id(m)[0] == 0x06u8 && spec_id(m)[2] == 0x07u8);
        },
        EncoderMethod::BCJ_X86_FILTER => {
            assert(spec_id(m).len() == 4 && spec_id(m)[0] == 0x03u8 && spec_id(m)[2] == 0x01u8);
        },
        EncoderMethod::BCJ_PPC_FILTER => {
            assert(spec_id(m).len() == 4 && spec_id(m)[0] == 0x03u8 && spec_id(m)[2] == 0x02u8);
        },
        EncoderMethod::BCJ_IA64_FILTER => {
            assert(spec_id(m).len() == 4 && spec_id(m)[0] == 0x03u8 && spec_id(m)[2] == 0x04u8);
        },
        EncoderMethod::BCJ_ARM_FILTER => {
            assert(spec_id(m).len() == 4 && spec_id(m)[0] == 0x03u8 && spec_id(m)[2] == 0x05u8);
        },
        EncoderMethod::BCJ_ARM64_FILTER => {
            assert(spec_id(m).len() == 1 && spec_id(m)[0] == 0x0Au8);
        },
        EncoderMethod::BCJ_ARM_THUMB_FILTER => {
            assert(spec_id(m).len() == 4 && spec_id(m)[0] == 0x03u8 && spec_id(m)[2] == 0x07u8);
        },
        EncoderMethod::BCJ_SPARC_FILTER => {
            assert(spec_id(m).len() == 4 && spec_id(m)[0] == 0x03u8 && spec_id(m)[2] == 0x08u8);
        },
        EncoderMethod::DELTA_FILTER => {
            assert(spec_id(m).len() == 1 && spec_id(m)[0] == 0x03u8);
        },
        EncoderMethod::BCJ2_FILTER => {
            assert(spec_id(m).len() == 4 && spec_id(m)[0] == 0x03u8 && spec_id(m)[2] == 0x01u8);
        },
    }
}

/// A registry scan that still has a matching entry ahead of it finds one.
pub proof fn lemma_lookup_finds(id: Seq<u8>, i: int)
    requires
        0 <= i <= spec_registry().len(),
        exists|j: int|
            i <= j < spec_registry().len() && spec_id(#[trigger] spec_registry()[j]) == id,
    ensures
        spec_lookup(id, i) is Some,
    decreases spec_registry().len() - i,
{
    let j = choose|j: int|
        i <= j < spec_registry().len() && spec_id(#[trigger] spec_registry()[j]) == id;
    if spec_id(spec_registry()[i]) == id {
    } else {
        assert(j != i);
        lemma_lookup_finds(id, i + 1);
    }
}

impl EncoderMethod {
    /// The human-readable name of this encoder method.
    pub fn name(&self) -> &'static str
    {
        match self {
            EncoderMethod::COPY => "COPY",
            EncoderMethod::LZMA => "LZMA",
            EncoderMethod::LZMA2 => "LZMA2",
            EncoderMethod::PPMD => "PPMD",
            EncoderMethod::BZIP2 => "BZIP2",
            EncoderMethod::ZSTD => "ZSTD",
            EncoderMethod::BROTLI => "BROTLI",
            EncoderMethod::LZ4 => "LZ4",
            EncoderMethod::LZS => "LZS",
            EncoderMethod::LIZARD => "LIZARD",
            EncoderMethod::DEFLATE => "DEFLATE",
            EncoderMethod::DEFLATE64 => "DEFLATE64",
            EncoderMethod::AES256SHA256 => "AES256SHA256",
            EncoderMethod::BCJ_X86_FILTER => "BCJ_X86",
            EncoderMethod::BCJ_PPC_FILTER => "BCJ_PPC",
            EncoderMethod::BCJ_IA64_FILTER => "BCJ_IA64",
            EncoderMethod::BCJ_ARM_FILTER => "BCJ_ARM",
            EncoderMethod::BCJ_ARM64_FILTER => "BCJ_ARM64",
            EncoderMethod::BCJ_ARM_THUMB_FILTER => "BCJ_ARM_THUMB",
            EncoderMethod::BCJ_SPARC_FILTER => "BCJ_SPARC",
            EncoderMethod::DELTA_FILTER => "DELTA",
            EncoderMethod::BCJ2_FILTER => "BCJ2",
        }
    }

    /// The wire identifier of this encoder method.
    pub fn id(&self) -> (r: Vec<u8>)
        ensures
            r@ == spec_id(*self),
    {
        let mut v: Vec<u8> = Vec::new();
        match self {
            EncoderMethod::COPY => {
                v.push(0x00);
            },
            EncoderMethod::LZMA => {
                v.push(0x03);
                v.push(0x01);
                v.push(0x01);
            },
            EncoderMethod::LZMA2 => {
                v.push(0x21);
            },
            EncoderMethod::PPMD => {
                v.push(0x03);
                v.push(0x04);
                v.push(0x01);
            },
            EncoderMethod::BZIP2 => {
                v.push(0x04);
                v.push(0x02);
                v.push(0x02);
            },
            EncoderMethod::ZSTD => {
                v.push(0x04);
                v.push(0xF7);
                v.push(0x11);
                v.push(0x01);
            },
            EncoderMethod::BROTLI => {
                v.push(0x04);
                v.push(0xF7);
                v.push(0x11);
                v.push(0x02);
            },
            EncoderMethod::LZ4 => {
                v.push(0x04);
                v.push(0xF7);
                v.push(0x11);
                v.push(0x04);
            },
            EncoderMethod::LZS => {
                v.push(0x04);
                v.push(0xF7);
                v.push(0x11);
                v.push(0x05);
            },
            EncoderMethod::LIZARD => {
                v.push(0x04);
                v.push(0xF7);
                v.push(0x11);
                v.push(0x06);
            },
            EncoderMethod::DEFLATE => {
                v.push(0x04);
                v.push(0x01);
                v.push(0x08);
            },
            EncoderMethod::DEFLATE64 => {
                v.push(0x04);
                v.push(0x01);
                v.push(0x09);
            },
            EncoderMethod::AES256SHA256 => {
                v.push(0x06);
                v.push(0xF1);
                v.push(0x07);
                v.push(0x01);
            },
            EncoderMethod::BCJ_X86_FILTER => {
                v.push(0x03);
                v.push(0x03);
                v.push(0x01);
                v.push(0x03);
            },
            EncoderMethod::BCJ_PPC_FILTER => {
                v.push(0x03);
                v.push(0x03);
                v.push(0x02);
                v.push(0x05);
            },
            EncoderMethod::BCJ_IA64_FILTER => {
                v.push(0x03);
                v.push(0x03);
                v.push(0x04);
                v.push(0x01);
            },
            EncoderMethod::BCJ_ARM_FILTER => {
                v.push(0x03);
                v.push(0x03);
                v.push(0x05);
                v.push(0x01);
            },
            EncoderMethod::BCJ_ARM64_FILTER => {
                v.push(0x0A);
            },
            EncoderMethod::BCJ_ARM_THUMB_FILTER => {
                v.push(0x03);
                v.push(0x03);
                v.push(0x07);
                v.push(0x01);
            },
            EncoderMethod::BCJ_SPARC_FILTER => {
                v.push(0x03);
                v.push(0x03);
                v.push(0x08);
                v.push(0x05);
            },
            EncoderMethod::DELTA_FILTER => {
                v.push(0x03);
            },
            EncoderMethod::BCJ2_FILTER => {
                v.push(0x03);
                v.push(0x03);
                v.push(0x01);
                v.push(0x1B);
            },
        }
        proof {
            assert(v@ =~= spec_id(*self));
        }
        v
    }

    /// Finds an encoder method by its wire identifier: the first registry
    /// entry with that identifier, or nothing when no method has it.
    pub fn by_id(id: &[u8]) -> (r: Option<EncoderMethod>)
        ensures
            r == spec_lookup(id@, 0),
            r matches Some(m) ==> spec_id(m) =~= id@,
    {
        let methods = EncoderMethod::all();
        let mut i: usize = 0;
        while i < methods.len()
            invariant
                i <= methods@.len(),
                methods@ =~= spec_registry(),
                spec_lookup(id@, 0) == spec_lookup(id@, i as int),
            decreases methods@.len() - i,
        {
            let candidate = methods[i].id();
            if slice_eq(id, &candidate) {
                return Some(methods[i]);
            }
            i = i + 1;
        }
        None
    }

    /// Every method, in registry order.
    fn all() -> (r: Vec<EncoderMethod>)
        ensures
            r@ =~= spec_registry(),
    {
        let mut v: Vec<EncoderMethod> = Vec::new();
        v.push(EncoderMethod::COPY);
        v.push(EncoderMethod::LZMA);
        v.push(EncoderMethod::LZMA2);
        v.push(EncoderMethod::PPMD);
        v.push(EncoderMethod::BZIP2);
        v.push(EncoderMethod::ZSTD);
        v.push(EncoderMethod::BROTLI);
        v.push(EncoderMethod::LZ4);
        v.push(EncoderMethod::LZS);
        v.push(EncoderMethod::LIZARD);
        v.push(EncoderMethod::DEFLATE);
        v.push(EncoderMethod::DEFLATE64);
        v.push(EncoderMethod::AES256SHA256);
        v.push(EncoderMethod::BCJ_X86_FILTER);
        v.push(EncoderMethod::BCJ_PPC_FILTER);
        v.push(EncoderMethod::BCJ_IA64_FILTER);
        v.push(EncoderMethod::BCJ_ARM_FILTER);
        v.push(EncoderMethod::BCJ_ARM64_FILTER);
        v.push(EncoderMethod::BCJ_ARM_THUMB_FILTER);
        v.push(EncoderMethod::BCJ_SPARC_FILTER);
        v.push(EncoderMethod::DELTA_FILTER);
        v.push(EncoderMethod::BCJ2_FILTER);
        v
    }
}

/// Byte-wise equality of a slice and a vector.
pub fn slice_eq(a: &[u8], b: &Vec<u8>) -> (r: bool)
    ensures
        r <==> a@ =~= b@,
{
    if a.len() != b.len() {
        return false;
    }
    let mut i: usize = 0;
    while i < a.len()
        invariant
            a@.len() == b@.len(),
            i <= a@.len(),
            forall|k: int| 0 <= k < i ==> a@[k] == b@[k],
        decreases a@.len() - i,
    {
        if a[i] != b[i] {
            return false;
        }
        i = i + 1;
    }
    proof {
        assert(a@ =~= b@);
    }
    true
}

} // verus!
