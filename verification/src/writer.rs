use vstd::prelude::*;

use crate::archive::ArchiveEntry;
use crate::archive::EncoderConfiguration;
use crate::archive::EncoderMethod;
use crate::archive::K_ANTI;
use crate::archive::K_A_TIME;
use crate::archive::K_CODERS_UNPACK_SIZE;
use crate::archive::K_CRC;
use crate::archive::K_C_TIME;
use crate::archive::K_EMPTY_FILE;
use crate::archive::K_EMPTY_STREAM;
use crate::archive::K_END;
use crate::archive::K_FILES_INFO;
use crate::archive::K_FOLDER;
use crate::archive::K_HEADER;
use crate::archive::K_MAIN_STREAMS_INFO;
use crate::archive::K_M_TIME;
use crate::archive::K_NAME;
use crate::archive::K_NUM_UNPACK_STREAM;
use crate::archive::K_PACK_INFO;
use crate::archive::K_SIZE;
use crate::archive::K_SUB_STREAMS_INFO;
use crate::archive::K_UNPACK_INFO;
use crate::archive::K_WIN_ATTRIBUTES;
use crate::bitset::write_bit_set;
use crate::bitset::BitSet;
use crate::coders::add_encoder;
use crate::coders::get_options_as_properties;
use crate::coders::push_u32_le;
use crate::crc32::crc32;
use crate::error::Error;
use crate::password::utf16le_bytes;

verus! {

/// Writes a 7z variable-length integer: the first byte's leading ones say
/// how many little-endian bytes follow.
pub fn write_u64(out: &mut Vec<u8>, value: u64)
    ensures
        final(out)@.len() >= old(out)@.len(),
        final(out)@.len() <= old(out)@.len() + 9,
        old(out)@.len() < usize::MAX - 16 ==> ({
            let base = old(out)@.len() as int;
            &&& final(out)@.len() == base + 1 + var_tail_len(value)
            &&& final(out)@.subrange(0, base) == old(out)@
            &&& crate::bytes::var_extra(final(out)@[base]) == var_tail_len(value)
            &&& crate::bytes::var_value(final(out)@[base], final(out)@, base + 1) == value
        }),
{
    let k: usize = if value < 0x80 {
        0
    } else if value < 0x4000 {
        1
    } else if value < 0x200000 {
        2
    } else if value < 0x10000000 {
        3
    } else if value < 0x800000000 {
        4
    } else if value < 0x40000000000 {
        5
    } else if value < 0x2000000000000 {
        6
    } else if value < 0x100000000000000 {
        7
    } else {
        8
    };
    let first: u64 = if k == 0 {
        value
    } else if k == 1 {
        0x80 | (value >> 8)
    } else if k == 2 {
        0xC0 | (value >> 16)
    } else if k == 3 {
        0xE0 | (value >> 24)
    } else if k == 4 {
        0xF0 | (value >> 32)
    } else if k == 5 {
        0xF8 | (value >> 40)
    } else if k == 6 {
        0xFC | (value >> 48)
    } else if k == 7 {
        0xFE | (value >> 56)
    } else {
        0xFF
    };
    proof {
        lemma_var_first_byte(value);
        assert(first == var_first_byte(value));
    }
    if out.len() >= usize::MAX - 16 {
        return ;
    }
    let ghost base = out@.len() as int;
    out.push((first % 0x100) as u8);
    let mut t: usize = 0;
    let mut v = value;
    while t < k
        invariant
            k <= 8,
            t <= k,
            out@.len() == base + 1 + t,
            base == old(out)@.len(),
            base < usize::MAX - 16,
            out@.subrange(0, base) =~= old(out)@,
            out@[base] == (first % 0x100) as u8,
            v == spec_shift_bytes(value, t as int),
            forall|j: int|
                0 <= j < t ==> out@[base + 1 + j] == (spec_shift_bytes(value, j) % 0x100) as u8,
        decreases k - t,
    {
        out.push((v % 0x100) as u8);
        v = v / 256;
        t = t + 1;
    }
    proof {
        lemma_var_round_trip(value, out@, base);
    }
}

/// How many tail bytes the variable-length encoding of `value` uses.
pub open spec fn var_tail_len(value: u64) -> int {
    if value < 0x80 {
        0
    } else if value < 0x4000 {
        1
    } else if value < 0x200000 {
        2
    } else if value < 0x10000000 {
        3
    } else if value < 0x800000000 {
        4
    } else if value < 0x40000000000 {
        5
    } else if value < 0x2000000000000 {
        6
    } else if value < 0x100000000000000 {
        7
    } else {
        8
    }
}

/// The first byte of the variable-length encoding of `value`: one
/// continuation mark per tail byte, then the value's high bits.
pub open spec fn var_first_byte(value: u64) -> u64 {
    let k = var_tail_len(value);
    if k == 0 {
        value
    } else if k == 1 {
        0x80u64 | (value >> 8)
    } else if k == 2 {
        0xC0u64 | (value >> 16)
    } else if k == 3 {
        0xE0u64 | (value >> 24)
    } else if k == 4 {
        0xF0u64 | (value >> 32)
    } else if k == 5 {
        0xF8u64 | (value >> 40)
    } else if k == 6 {
        0xFCu64 | (value >> 48)
    } else if k == 7 {
        0xFEu64 | (value >> 56)
    } else {
        0xFFu64
    }
}

/// What remains of `value` after `k` of its little-endian bytes were taken.
pub open spec fn spec_shift_bytes(value: u64, k: int) -> u64
    decreases k,
{
    if k <= 0 {
        value
    } else {
        spec_shift_bytes(value, k - 1) / 256
    }
}

/// The first byte of an encoding is a byte; the reader sees in it the tail
/// length and the value's high bits.
proof fn lemma_var_first_byte(value: u64)
    ensures
        ({
            let k = var_tail_len(value);
            let f = var_first_byte(value);
            &&& f < 0x100
            &&& crate::bytes::var_extra(f as u8) == k
            &&& k < 8 ==> (f as u8) as int % (vstd::arithmetic::power2::pow2((7 - k) as nat) as int)
                == value as int / (vstd::arithmetic::power2::pow2((8 * k) as nat) as int)
        }),
{
    vstd::arithmetic::power2::lemma2_to64();
    vstd::arithmetic::power2::lemma2_to64_rest();
    let k = var_tail_len(value);
    let f = var_first_byte(value);
    if k == 0 {
        vstd::bits::lemma_u64_shr_is_div(value, 0);
        assert(value as int % 128 == value) by (nonlinear_arith)
            requires
                value < 0x80,
        ;
    } else if k == 1 {
        assert(0x80 <= value < 0x4000 ==> ({
            let g = 0x80u64 | (value >> 8);
            0x80 <= g < 0xC0 && g % 0x40 == value >> 8
        })) by (bit_vector);
        vstd::bits::lemma_u64_shr_is_div(value, 8);
    } else if k == 2 {
        assert(0x4000 <= value < 0x200000 ==> ({
            let g = 0xC0u64 | (value >> 16);
            0xC0 <= g < 0xE0 && g % 0x20 == value >> 16
        })) by (bit_vector);
        vstd::bits::lemma_u64_shr_is_div(value, 16);
    } else if k == 3 {
        assert(0x200000 <= value < 0x10000000 ==> ({
            let g = 0xE0u64 | (value >> 24);
            0xE0 <= g < 0xF0 && g % 0x10 == value >> 24
        })) by (bit_vector);
        vstd::bits::lemma_u64_shr_is_div(value, 24);
    } else if k == 4 {
        assert(0x10000000 <= value < 0x800000000 ==> ({
            let g = 0xF0u64 | (value >> 32);
            0xF0 <= g < 0xF8 && g % 0x8 == value >> 32
        })) by (bit_vector);
        vstd::bits::lemma_u64_shr_is_div(value, 32);
    } else if k == 5 {
        assert(0x800000000 <= value < 0x40000000000 ==> ({
            let g = 0xF8u64 | (value >> 40);
            0xF8 <= g < 0xFC && g % 0x4 == value >> 40
        })) by (bit_vector);
        vstd::bits::lemma_u64_shr_is_div(value, 40);
    } else if k == 6 {
        assert(0x40000000000 <= value < 0x2000000000000 ==> ({
            let g = 0xFCu64 | (value >> 48);
            0xFC <= g < 0xFE && g % 0x2 == value >> 48
        })) by (bit_vector);
        vstd::bits::lemma_u64_shr_is_div(value, 48);
    } else if k == 7 {
        assert(0x2000000000000 <= value < 0x100000000000000 ==> ({
            let g = 0xFEu64 | (value >> 56);
            g == 0xFE && g % 0x1 == value >> 56
        })) by (bit_vector);
        vstd::bits::lemma_u64_shr_is_div(value, 56);
    }
}

/// What the writer emitted for `value` reads back as `value`.
#[verifier::rlimit(50)]
proof fn lemma_var_round_trip(value: u64, s: Seq<u8>, base: int)
    requires
        base >= 0,
        s.len() == base + 1 + var_tail_len(value),
        s[base] == (var_first_byte(value) % 0x100) as u8,
        forall|j: int|
            0 <= j < var_tail_len(value) ==> s[base + 1 + j] == (spec_shift_bytes(value, j)
                % 0x100) as u8,
    ensures
        crate::bytes::var_extra(s[base]) == var_tail_len(value),
        crate::bytes::var_value(s[base], s, base + 1) == value,
{
    vstd::arithmetic::power2::lemma2_to64();
    vstd::arithmetic::power2::lemma2_to64_rest();
    let k = var_tail_len(value);
    lemma_var_first_byte(value);
    lemma_le_of_shift_bytes(value, s, base + 1, k);
    assert(s[base] == var_first_byte(value) as u8);
    if k < 8 {
        let p8k = vstd::arithmetic::power2::pow2((8 * k) as nat) as int;
        let p7k = vstd::arithmetic::power2::pow2((7 - k) as nat) as int;
        vstd::arithmetic::power2::lemma_pow2_pos((8 * k) as nat);
        vstd::arithmetic::div_mod::lemma_fundamental_div_mod(value as int, p8k);
        assert(crate::bytes::var_extra(s[base]) == k);
        assert(crate::bytes::var_value(s[base], s, base + 1) == crate::bytes::le_value(
            s,
            base + 1,
            k,
        ) + ((s[base] as int) % p7k) * p8k);
        assert(crate::bytes::le_value(s, base + 1, k) == value as int % p8k);
        assert((s[base] as int) % p7k == value as int / p8k);
        assert(value as int % p8k + (value as int / p8k) * p8k == value as int);
    } else {
        assert(vstd::arithmetic::power2::pow2(64) as int > value as int);
        vstd::arithmetic::div_mod::lemma_small_mod(
            value as nat,
            vstd::arithmetic::power2::pow2(64),
        );
    }
}

/// The little-endian bytes written from `value` read back as its low part.
proof fn lemma_le_of_shift_bytes(value: u64, s: Seq<u8>, i: int, k: int)
    requires
        0 <= k <= 8,
        forall|j: int| 0 <= j < k ==> s[i + j] == (spec_shift_bytes(value, j) % 0x100) as u8,
    ensures
        crate::bytes::le_value(s, i, k) == value as int % (vstd::arithmetic::power2::pow2(
            (8 * k) as nat,
        ) as int),
    decreases k,
{
    vstd::arithmetic::power2::lemma2_to64();
    if k == 0 {
        assert(value as int % (vstd::arithmetic::power2::pow2(0) as int) == value as int % 1);
        assert(value as int % 1 == 0) by (nonlinear_arith);
    } else {
        let rest = (value / 256) as u64;
        assert forall|j: int| 0 <= j < k - 1 implies s[(i + 1) + j] == (spec_shift_bytes(
            rest,
            j,
        ) % 0x100) as u8 by {
            lemma_shift_bytes_step(value, j + 1);
            assert(s[i + (j + 1)] == (spec_shift_bytes(value, j + 1) % 0x100) as u8);
        }
        lemma_le_of_shift_bytes(rest, s, i + 1, k - 1);
        let p = vstd::arithmetic::power2::pow2((8 * (k - 1)) as nat) as int;
        vstd::arithmetic::power2::lemma_pow2_adds(8, (8 * (k - 1)) as nat);
        vstd::arithmetic::power2::lemma_pow2_pos((8 * (k - 1)) as nat);
        assert(s[i] == (spec_shift_bytes(value, 0) % 0x100) as u8);
        assert(crate::bytes::le_value(s, i, k) == (value as int % 256) + 256 * (rest as int % p));
        vstd::arithmetic::div_mod::lemma_mod_breakdown(value as int, 256, p);
        assert(value as int % (256 * p) == 256 * ((value as int / 256) % p) + value as int % 256);
    }
}

proof fn lemma_shift_bytes_step(value: u64, j: int)
    requires
        j >= 1,
    ensures
        spec_shift_bytes(value, j) == spec_shift_bytes((value / 256) as u64, j - 1),
    decreases j,
{
    if j == 1 {
        assert(spec_shift_bytes(value, 1) == spec_shift_bytes(value, 0) / 256);
        assert(spec_shift_bytes(value, 0) == value);
        assert(spec_shift_bytes((value / 256) as u64, 0) == (value / 256) as u64);
    } else {
        lemma_shift_bytes_step(value, j - 1);
        assert(spec_shift_bytes(value, j) == spec_shift_bytes(value, j - 1) / 256);
        assert(spec_shift_bytes((value / 256) as u64, j - 1) == spec_shift_bytes(
            (value / 256) as u64,
            j - 2,
        ) / 256);
    }
}

/// Appends a 64-bit little-endian value; the eight bytes read back as
/// the value.
pub fn push_u64_le(out: &mut Vec<u8>, v: u64)
    requires
        old(out)@.len() + 8 <= usize::MAX,
    ensures
        final(out)@.len() == old(out)@.len() + 8,
        final(out)@.subrange(0, old(out)@.len() as int) == old(out)@,
        forall|j: int| 0 <= j < old(out)@.len() ==> final(out)@[j] == old(out)@[j],
        crate::bytes::le_value(final(out)@, old(out)@.len() as int, 8) == v,
{
    let ghost base = out@.len() as int;
    let mut x = v;
    let mut k: usize = 0;
    while k < 8
        invariant
            k <= 8,
            out@.len() == base + k,
            base == old(out)@.len(),
            base + 8 <= usize::MAX,
            out@.subrange(0, base) =~= old(out)@,
            x == spec_shift_bytes(v, k as int),
            forall|j: int|
                0 <= j < k ==> out@[base + j] == (spec_shift_bytes(v, j) % 0x100) as u8,
        decreases 8 - k,
    {
        out.push((x % 0x100) as u8);
        x = x / 256;
        k = k + 1;
    }
    proof {
        lemma_le_of_shift_bytes(v, out@, base, 8);
        vstd::arithmetic::power2::lemma2_to64_rest();
        vstd::arithmetic::div_mod::lemma_small_mod(
            v as nat,
            vstd::arithmetic::power2::pow2(64),
        );
    }
}

/// The pack-streams record of an archive being written.
pub struct PackInfo {
    /// Offset of the first pack stream, relative to the end of the
    /// signature header.
    pub pos: u64,
    /// Compressed size of every stream written so far.
    pub sizes: Vec<u64>,
    /// Checksum of every stream written so far.
    pub crcs: Vec<u32>,
}

impl PackInfo {
    /// An empty record.
    pub fn new() -> (r: PackInfo)
        ensures
            r.sizes@.len() == 0,
            r.crcs@.len() == 0,
    {
        PackInfo { pos: 0, sizes: Vec::new(), crcs: Vec::new() }
    }

    /// Records one written pack stream.
    pub fn add_stream(&mut self, size: u64, crc: u32)
        ensures
            final(self).sizes@.len() == old(self).sizes@.len() + 1,
            final(self).crcs@.len() == old(self).crcs@.len() + 1,
    {
        self.sizes.push(size);
        self.crcs.push(crc);
    }

    /// How many pack streams were recorded.
    pub fn len(&self) -> (r: usize)
        ensures
            r == self.sizes@.len(),
    {
        self.sizes.len()
    }

    /// Serializes the pack info section.
    pub fn write_to(&self, header: &mut Vec<u8>) -> (r: Result<(), Error>)
    {
        if header.len() >= usize::MAX - 64 {
            return Err(Error::other("header too large".to_string()));
        }
        header.push(K_PACK_INFO);
        write_u64(header, self.pos);
        write_u64(header, self.sizes.len() as u64);
        header.push(K_SIZE);
        let mut i: usize = 0;
        while i < self.sizes.len()
            invariant
                i <= self.sizes@.len(),
            decreases self.sizes@.len() - i,
        {
            write_u64(header, self.sizes[i]);
            i = i + 1;
        }
        if header.len() >= usize::MAX - 64 {
            return Err(Error::other("header too large".to_string()));
        }
        header.push(K_CRC);
        header.push(1);
        let mut j: usize = 0;
        while j < self.crcs.len()
            invariant
                j <= self.crcs@.len(),
            decreases self.crcs@.len() - j,
        {
            if header.len() >= usize::MAX - 64 {
                return Err(Error::other("header too large".to_string()));
            }
            push_u32_le(header, self.crcs[j]);
            j = j + 1;
        }
        if header.len() >= usize::MAX - 64 {
            return Err(Error::other("header too large".to_string()));
        }
        header.push(K_END);
        Ok(())
    }
}

/// One written block: its encode chain, per-coder sizes, checksum and
/// substream accounting.
pub struct BlockInfo {
    /// The encode chain, in coder order.
    pub methods: Vec<EncoderConfiguration>,
    /// Unpacked size of every coder output.
    pub sizes: Vec<u64>,
    /// Checksum of the block's uncompressed data.
    pub crc: u32,
    /// How many files the block holds.
    pub num_sub_unpack_streams: u64,
    /// Per-file sizes for a solid block.
    pub sub_stream_sizes: Vec<u64>,
    /// Per-file checksums for a solid block.
    pub sub_stream_crcs: Vec<u32>,
}

/// The unpack-info record of an archive being written.
pub struct UnpackInfo {
    /// One entry per written block.
    pub blocks: Vec<BlockInfo>,
}

/// Total number of substreams over the recorded blocks.
pub open spec fn spec_total_substreams(blocks: Seq<BlockInfo>) -> int
    decreases blocks.len(),
{
    if blocks.len() == 0 {
        0
    } else {
        spec_total_substreams(blocks.drop_last()) + blocks.last().num_sub_unpack_streams
    }
}

impl UnpackInfo {
    /// An empty record.
    pub fn new() -> (r: UnpackInfo)
        ensures
            r.blocks@.len() == 0,
            spec_total_substreams(r.blocks@) == 0,
    {
        let r = UnpackInfo { blocks: Vec::new() };
        proof {
            assert(spec_total_substreams(r.blocks@) == 0);
        }
        r
    }

    /// Records one single-file block.
    pub fn add(&mut self, methods: Vec<EncoderConfiguration>, sizes: Vec<u64>, crc: u32)
        ensures
            spec_total_substreams(final(self).blocks@) == spec_total_substreams(
                old(self).blocks@,
            ) + 1,
    {
        let info = BlockInfo {
            methods,
            sizes,
            crc,
            num_sub_unpack_streams: 1,
            sub_stream_sizes: Vec::new(),
            sub_stream_crcs: Vec::new(),
        };
        self.blocks.push(info);
        proof {
            assert(final(self).blocks@.drop_last() =~= old(self).blocks@);
        }
    }

    /// Records one solid block holding several files.
    pub fn add_multiple(
        &mut self,
        methods: Vec<EncoderConfiguration>,
        sizes: Vec<u64>,
        crc: u32,
        num_sub_unpack_streams: u64,
        sub_stream_sizes: Vec<u64>,
        sub_stream_crcs: Vec<u32>,
    )
        ensures
            spec_total_substreams(final(self).blocks@) == spec_total_substreams(
                old(self).blocks@,
            ) + num_sub_unpack_streams,
    {
        let info = BlockInfo {
            methods,
            sizes,
            crc,
            num_sub_unpack_streams,
            sub_stream_sizes,
            sub_stream_crcs,
        };
        self.blocks.push(info);
        proof {
            assert(final(self).blocks@.drop_last() =~= old(self).blocks@);
        }
    }

    /// Serializes the unpack info section.
    pub fn write_to(&self, header: &mut Vec<u8>) -> (r: Result<(), Error>)
    {
        if header.len() >= usize::MAX - 64 {
            return Err(Error::other("header too large".to_string()));
        }
        header.push(K_UNPACK_INFO);
        header.push(K_FOLDER);
        write_u64(header, self.blocks.len() as u64);
        if header.len() >= usize::MAX - 64 {
            return Err(Error::other("header too large".to_string()));
        }
        header.push(0);
        let mut i: usize = 0;
        while i < self.blocks.len()
            invariant
                i <= self.blocks@.len(),
            decreases self.blocks@.len() - i,
        {
            self.blocks[i].write_to(header)?;
            i = i + 1;
        }
        if header.len() >= usize::MAX - 64 {
            return Err(Error::other("header too large".to_string()));
        }
        header.push(K_CODERS_UNPACK_SIZE);
        let mut b: usize = 0;
        while b < self.blocks.len()
            invariant
                b <= self.blocks@.len(),
            decreases self.blocks@.len() - b,
        {
            let mut s: usize = 0;
            while s < self.blocks[b].sizes.len()
                invariant
                    b < self.blocks@.len(),
                    s <= self.blocks@[b as int].sizes@.len(),
                decreases self.blocks@[b as int].sizes@.len() - s,
            {
                write_u64(header, self.blocks[b].sizes[s]);
                s = s + 1;
            }
            b = b + 1;
        }
        if header.len() >= usize::MAX - 64 {
            return Err(Error::other("header too large".to_string()));
        }
        header.push(K_CRC);
        header.push(1);
        let mut c: usize = 0;
        while c < self.blocks.len()
            invariant
                c <= self.blocks@.len(),
            decreases self.blocks@.len() - c,
        {
            if header.len() >= usize::MAX - 64 {
                return Err(Error::other("header too large".to_string()));
            }
            push_u32_le(header, self.blocks[c].crc);
            c = c + 1;
        }
        if header.len() >= usize::MAX - 64 {
            return Err(Error::other("header too large".to_string()));
        }
        header.push(K_END);
        Ok(())
    }

    /// Serializes the substreams section.
    pub fn write_substreams(&self, header: &mut Vec<u8>) -> (r: Result<(), Error>)
        ensures
            (self.blocks@.len() == 0 && old(header)@.len() + 1024 <= usize::MAX) ==> (r is Ok
                && final(header)@.len() <= old(header)@.len() + 16),
    {
        if header.len() >= usize::MAX - 64 {
            return Err(Error::other("header too large".to_string()));
        }
        header.push(K_SUB_STREAMS_INFO);
        header.push(K_NUM_UNPACK_STREAM);
        let mut i: usize = 0;
        while i < self.blocks.len()
            invariant
                i <= self.blocks@.len(),
                self.blocks@.len() == 0 ==> header@.len() == old(header)@.len() + 2,
            decreases self.blocks@.len() - i,
        {
            write_u64(header, self.blocks[i].num_sub_unpack_streams);
            i = i + 1;
        }
        if header.len() >= usize::MAX - 64 {
            return Err(Error::other("header too large".to_string()));
        }
        header.push(K_SIZE);
        let mut b: usize = 0;
        while b < self.blocks.len()
            invariant
                b <= self.blocks@.len(),
                self.blocks@.len() == 0 ==> header@.len() == old(header)@.len() + 3,
            decreases self.blocks@.len() - b,
        {
            let nss = self.blocks[b].sub_stream_sizes.len();
            if nss > 1 {
                let mut s: usize = 0;
                while s < nss - 1
                    invariant
                        b < self.blocks@.len(),
                        nss == self.blocks@[b as int].sub_stream_sizes@.len(),
                        s <= nss - 1,
                        nss >= 1,
                    decreases nss - 1 - s,
                {
                    write_u64(header, self.blocks[b].sub_stream_sizes[s]);
                    s = s + 1;
                }
            }
            b = b + 1;
        }
        if header.len() >= usize::MAX - 64 {
            return Err(Error::other("header too large".to_string()));
        }
        header.push(K_CRC);
        header.push(1);
        let mut c: usize = 0;
        while c < self.blocks.len()
            invariant
                c <= self.blocks@.len(),
                self.blocks@.len() == 0 ==> header@.len() == old(header)@.len() + 5,
            decreases self.blocks@.len() - c,
        {
            let ncrcs = self.blocks[c].sub_stream_crcs.len();
            if ncrcs <= 1 && self.blocks[c].crc != 0 {
                c = c + 1;
                continue ;
            }
            let mut s: usize = 0;
            while s < ncrcs
                invariant
                    c < self.blocks@.len(),
                    ncrcs == self.blocks@[c as int].sub_stream_crcs@.len(),
                    s <= ncrcs,
                decreases ncrcs - s,
            {
                if header.len() >= usize::MAX - 64 {
                    return Err(Error::other("header too large".to_string()));
                }
                push_u32_le(header, self.blocks[c].sub_stream_crcs[s]);
                s = s + 1;
            }
            c = c + 1;
        }
        if header.len() >= usize::MAX - 64 {
            return Err(Error::other("header too large".to_string()));
        }
        header.push(K_END);
        Ok(())
    }
}

impl BlockInfo {
    /// Serializes one block record: its coders and their bind pairs.
    pub fn write_to(&self, header: &mut Vec<u8>) -> (r: Result<(), Error>)
    {
        let num_coders = self.methods.len();
        if num_coders == 0 || num_coders > 32 {
            return Err(Error::other("unsupported coder chain length".to_string()));
        }
        write_u64(header, num_coders as u64);
        let mut i: usize = 0;
        while i < num_coders
            invariant
                i <= num_coders,
                num_coders == self.methods@.len(),
            decreases num_coders - i,
        {
            self.write_single_codec(i, header)?;
            i = i + 1;
        }
        let mut p: usize = 0;
        while p < num_coders - 1
            invariant
                p <= num_coders - 1,
                num_coders >= 1,
            decreases num_coders - 1 - p,
        {
            write_u64(header, (p + 1) as u64);
            write_u64(header, p as u64);
            p = p + 1;
        }
        Ok(())
    }

    /// Serializes one coder record: flags, identifier and properties.
    fn write_single_codec(&self, idx: usize, out: &mut Vec<u8>) -> (r: Result<(), Error>)
        requires
            idx < self.methods@.len(),
    {
        let mc = &self.methods[idx];
        let id = mc.method.id();
        let props = get_options_as_properties(mc.method, &mc.options);
        if id.len() > 15 || props.len() > 255 {
            return Err(Error::other("invalid coder record".to_string()));
        }
        let mut codec_flags = (id.len() % 0x100) as u8;
        if props.len() > 0 {
            codec_flags = codec_flags | 0x20;
        }
        if out.len() >= usize::MAX - 512 {
            return Err(Error::other("header too large".to_string()));
        }
        out.push(codec_flags);
        let mut k: usize = 0;
        while k < id.len()
            invariant
                k <= id@.len(),
                id@.len() <= 15,
                out@.len() <= old(out)@.len() + 1 + k,
                old(out)@.len() < usize::MAX - 512,
            decreases id@.len() - k,
        {
            out.push(id[k]);
            k = k + 1;
        }
        if props.len() > 0 {
            out.push((props.len() % 0x100) as u8);
            let mut q: usize = 0;
            while q < props.len()
                invariant
                    q <= props@.len(),
                    props@.len() <= 255,
                    out@.len() <= old(out)@.len() + 17 + q,
                    old(out)@.len() < usize::MAX - 512,
                decreases props@.len() - q,
            {
                out.push(props[q]);
                q = q + 1;
            }
        }
        Ok(())
    }
}

/// How many of the entries carry a data stream.
pub open spec fn spec_stream_files(files: Seq<ArchiveEntry>) -> int
    decreases files.len(),
{
    if files.len() == 0 {
        0
    } else {
        spec_stream_files(files.drop_last()) + if files.last().has_stream {
            1int
        } else {
            0int
        }
    }
}

/// The total byte count of the first `n` data streams.
pub open spec fn spec_total_size(rs: Seq<Vec<u8>>, n: int) -> int
    decreases n,
{
    if n <= 0 {
        0
    } else {
        spec_total_size(rs, n - 1) + rs[n - 1]@.len()
    }
}

/// A prefix total of stream sizes is never negative.
pub proof fn lemma_total_size_nonneg(rs: Seq<Vec<u8>>, n: int)
    requires
        0 <= n <= rs.len(),
    ensures
        spec_total_size(rs, n) >= 0,
    decreases n,
{
    if n > 0 {
        lemma_total_size_nonneg(rs, n - 1);
    }
}

/// Every prefix total is at most the whole total.
pub proof fn lemma_total_size_bounds(rs: Seq<Vec<u8>>, n: int)
    requires
        0 <= n <= rs.len(),
    ensures
        spec_total_size(rs, n) >= 0,
        spec_total_size(rs, n) <= spec_total_size(rs, rs.len() as int),
    decreases rs.len() - n,
{
    lemma_total_size_nonneg(rs, n);
    if n < rs.len() {
        lemma_total_size_bounds(rs, n + 1);
    }
}

/// Writes a 7z archive into an in-memory image.
pub struct ArchiveWriter {
    output: Vec<u8>,
    files: Vec<ArchiveEntry>,
    content_methods: Vec<EncoderConfiguration>,
    pack_info: PackInfo,
    unpack_info: UnpackInfo,
    encrypt_header: bool,
}

impl ArchiveWriter {
    /// The substream accounting balances: over all recorded blocks, the
    /// substreams number exactly the entries that carry a stream.
    pub closed spec fn substreams_balanced(&self) -> bool {
        spec_total_substreams(self.unpack_info.blocks@) == spec_stream_files(self.files@)
    }

    /// The entries recorded so far.
    pub closed spec fn spec_files(&self) -> Seq<ArchiveEntry> {
        self.files@
    }

    /// The bytes of the image written so far.
    pub closed spec fn spec_output(&self) -> Seq<u8> {
        self.output@
    }

    /// The configured encode chain.
    pub closed spec fn spec_content_methods(&self) -> Seq<EncoderConfiguration> {
        self.content_methods@
    }

    /// Whether header encryption was requested.
    pub closed spec fn spec_encrypt_header(&self) -> bool {
        self.encrypt_header
    }

    /// How many pack streams were recorded.
    pub closed spec fn spec_pack_count(&self) -> int {
        self.pack_info.sizes@.len() as int
    }

    /// How many blocks were recorded.
    pub closed spec fn spec_block_count(&self) -> int {
        self.unpack_info.blocks@.len() as int
    }

    /// Prepares a writer; the image starts with the signature header
    /// space.
    pub fn new() -> (r: ArchiveWriter)
        ensures
            r.substreams_balanced(),
            r.spec_files().len() == 0,
            r.spec_output().len() == 32,
            r.spec_pack_count() == 0,
            r.spec_block_count() == 0,
            !r.spec_encrypt_header(),
    {
        let mut output: Vec<u8> = Vec::new();
        let mut k: usize = 0;
        while k < 32
            invariant
                output@.len() == k <= 32,
            decreases 32 - k,
        {
            output.push(0);
            k = k + 1;
        }
        let mut content_methods: Vec<EncoderConfiguration> = Vec::new();
        content_methods.push(EncoderConfiguration::new(EncoderMethod::COPY));
        let r = ArchiveWriter {
            output,
            files: Vec::new(),
            content_methods,
            pack_info: PackInfo::new(),
            unpack_info: UnpackInfo::new(),
            encrypt_header: false,
        };
        proof {
            assert(spec_stream_files(r.files@) == 0);
        }
        r
    }

    /// Sets the compression methods used for entry data; an empty list is
    /// ignored.
    pub fn set_content_methods(&mut self, content_methods: Vec<EncoderConfiguration>)
        requires
            old(self).substreams_balanced(),
        ensures
            final(self).substreams_balanced(),
            content_methods@.len() > 0 ==> final(self).spec_content_methods()
                == content_methods@,
            content_methods@.len() == 0 ==> final(self).spec_content_methods() == old(
                self,
            ).spec_content_methods(),
            final(self).spec_files() == old(self).spec_files(),
            final(self).spec_output() == old(self).spec_output(),
    {
        if content_methods.len() == 0 {
            return ;
        }
        self.content_methods = content_methods;
    }

    /// Requests header encryption. Finishing an archive with this set and
    /// an AES step configured is refused: this writer does not produce
    /// encrypted headers, and refusing is honest where silently writing
    /// the header in clear would not be.
    pub fn set_encrypt_header(&mut self, enabled: bool)
        requires
            old(self).substreams_balanced(),
        ensures
            final(self).substreams_balanced(),
            final(self).spec_encrypt_header() == enabled,
            final(self).spec_files() == old(self).spec_files(),
            final(self).spec_output() == old(self).spec_output(),
            final(self).spec_content_methods() == old(self).spec_content_methods(),
    {
        self.encrypt_header = enabled;
    }

    /// Runs the configured encode chain over `data`, innermost method
    /// first, and reports the per-coder unpacked sizes. A chain of one
    /// Copy step always succeeds and hands the data back unchanged.
    fn encode_chain(&self, data: &Vec<u8>) -> (r: Result<(Vec<u8>, Vec<u64>), Error>)
        ensures
            (self.spec_content_methods().len() == 1 && self.spec_content_methods()[0].method
                == EncoderMethod::COPY) ==> (r matches Ok(p) && p.0@ == data@ && p.1@.len() == 1),
    {
        let n = self.content_methods.len();
        if n == 0 || n > 32 {
            return Err(Error::other("unsupported coder chain length".to_string()));
        }
        let ghost copy_single = self.content_methods@.len() == 1 && self.content_methods@[0].method
            == EncoderMethod::COPY;
        let mut sizes_rev: Vec<u64> = Vec::new();
        let mut cur: Vec<u8> = Vec::new();
        let mut ci: usize = 0;
        while ci < data.len()
            invariant
                cur@ =~= data@.subrange(0, ci as int),
                ci <= data@.len(),
            decreases data@.len() - ci,
        {
            cur.push(data[ci]);
            proof {
                assert(cur@ =~= data@.subrange(0, ci + 1));
            }
            ci = ci + 1;
        }
        proof {
            assert(cur@ =~= data@);
        }
        let mut j: usize = n;
        while j > 0
            invariant
                j <= n,
                n == self.content_methods@.len(),
                sizes_rev@.len() == n - j,
                copy_single == (self.content_methods@.len() == 1 && self.content_methods@[
                    0].method == EncoderMethod::COPY),
                copy_single ==> cur@ == data@,
            decreases j,
        {
            j = j - 1;
            sizes_rev.push(cur.len() as u64);
            cur = add_encoder(&cur, &self.content_methods[j])?;
        }
        let mut sizes: Vec<u64> = Vec::new();
        let mut t: usize = sizes_rev.len();
        while t > 0
            invariant
                t <= sizes_rev@.len(),
                sizes@.len() == sizes_rev@.len() - t,
            decreases t,
        {
            t = t - 1;
            sizes.push(sizes_rev[t]);
        }
        Ok((cur, sizes))
    }

    /// Adds one entry. A directory or an entry without data is recorded
    /// with no stream, zero size and no checksum; otherwise the data is
    /// encoded through the configured chain and recorded as a stream
    /// entry carrying the data's exact size and checksum. Either way the
    /// accounting stays balanced and the image only grows.
    pub fn push_archive_entry(&mut self, entry: ArchiveEntry, reader: Option<Vec<u8>>) -> (r:
        Result<(), Error>)
        requires
            old(self).substreams_balanced(),
        ensures
            final(self).substreams_balanced(),
            r is Ok ==> final(self).spec_files().len() == old(self).spec_files().len() + 1,
            r is Ok ==> ({
                let e = final(self).spec_files().last();
                &&& e.name@ == entry.name@
                &&& final(self).spec_files().drop_last() == old(self).spec_files()
                &&& ((!entry.is_directory && reader is Some) ==> e.has_stream && e.has_crc
                    && e.size == reader->Some_0@.len() && e.crc == crate::crc32::crc32_of(
                    reader->Some_0@,
                ) as u64)
                &&& ((entry.is_directory || reader is None) ==> !e.has_stream && e.size == 0
                    && !e.has_crc)
            }),
            final(self).spec_output().len() >= old(self).spec_output().len(),
            (entry.is_directory || reader is None) ==> r is Ok,
            (!entry.is_directory && (reader matches Some(d) && old(
                self,
            ).spec_content_methods().len() == 1 && old(self).spec_content_methods()[0].method
                == EncoderMethod::COPY && old(self).spec_output().len() + d@.len()
                <= usize::MAX)) ==> r is Ok,
    {
        let mut entry = entry;
        if !entry.is_directory {
            match reader {
                Some(data) => {
                    let encoded = self.encode_chain(&data)?;
                    let (compressed, sizes) = encoded;
                    let raw_crc = crc32(data.as_slice());
                    let compressed_crc = crc32(compressed.as_slice());
                    entry.has_stream = true;
                    entry.size = data.len() as u64;
                    entry.crc = raw_crc as u64;
                    entry.has_crc = true;
                    entry.compressed_crc = compressed_crc as u64;
                    entry.compressed_size = compressed.len() as u64;
                    if self.output.len() > usize::MAX - compressed.len() {
                        return Err(Error::other("archive too large".to_string()));
                    }
                    let mut w: usize = 0;
                    let ghost files0 = self.files@;
                    let ghost blocks0 = self.unpack_info.blocks@;
                    while w < compressed.len()
                        invariant
                            w <= compressed@.len(),
                            self.files@ == files0,
                            self.unpack_info.blocks@ == blocks0,
                            self.output@.len() >= old(self).spec_output().len(),
                        decreases compressed@.len() - w,
                    {
                        if self.output.len() < usize::MAX {
                            self.output.push(compressed[w]);
                        }
                        w = w + 1;
                    }
                    self.pack_info.add_stream(compressed.len() as u64, compressed_crc);
                    let methods = copy_methods(&self.content_methods);
                    self.unpack_info.add(methods, sizes, raw_crc);
                    let ghost pre = self.files@;
                    self.files.push(entry);
                    proof {
                        assert(self.files@.drop_last() =~= pre);
                    }
                    return Ok(());
                },
                None => {
                },
            }
        }
        entry.has_stream = false;
        entry.size = 0;
        entry.compressed_size = 0;
        entry.has_crc = false;
        let ghost pre = self.files@;
        self.files.push(entry);
        proof {
            assert(self.files@.drop_last() =~= pre);
        }
        Ok(())
    }

    /// Adds several entries as one solid block: the data streams are
    /// concatenated and encoded once. Each entry is recorded as a stream
    /// entry carrying its own data's size and checksum, the earlier
    /// entries are kept, and the accounting stays balanced.
    pub fn push_archive_entries(
        &mut self,
        entries: Vec<ArchiveEntry>,
        readers: Vec<Vec<u8>>,
    ) -> (r: Result<(), Error>)
        requires
            old(self).substreams_balanced(),
        ensures
            final(self).substreams_balanced(),
            r is Err ==> final(self).spec_files() == old(self).spec_files(),
            r is Err ==> final(self).spec_output() == old(self).spec_output(),
            r is Ok ==> entries@.len() == readers@.len(),
            r is Ok ==> final(self).spec_files().len() == old(self).spec_files().len()
                + entries@.len(),
            r is Ok ==> final(self).spec_files().subrange(
                0,
                old(self).spec_files().len() as int,
            ) == old(self).spec_files(),
            r is Ok ==> forall|k: int|
                0 <= k < entries@.len() ==> ({
                    let e = #[trigger] final(self).spec_files()[old(self).spec_files().len() + k];
                    &&& e.name@ == entries@[k].name@
                    &&& e.has_stream
                    &&& e.has_crc
                    &&& e.size == readers@[k]@.len()
                    &&& e.crc == crate::crc32::crc32_of(readers@[k]@) as u64
                }),
            final(self).spec_output().len() >= old(self).spec_output().len(),
            (entries@.len() == readers@.len() && entries@.len() <= 0xFFFF && old(
                self,
            ).spec_content_methods().len() == 1 && old(self).spec_content_methods()[0].method
                == EncoderMethod::COPY && old(self).spec_output().len() + spec_total_size(
                readers@,
                readers@.len() as int,
            ) <= usize::MAX) ==> r is Ok,
    {
        if entries.len() != readers.len() {
            return Err(Error::other("entry and reader counts differ".to_string()));
        }
        if entries.len() == 0 {
            return Ok(());
        }
        if entries.len() > 0xFFFF {
            return Err(Error::other("too many entries in one block".to_string()));
        }
        let ghost easy = entries@.len() == readers@.len() && entries@.len() <= 0xFFFF && old(
            self,
        ).spec_content_methods().len() == 1 && old(self).spec_content_methods()[0].method
            == EncoderMethod::COPY && old(self).spec_output().len() + spec_total_size(
            readers@,
            readers@.len() as int,
        ) <= usize::MAX;
        let mut all: Vec<u8> = Vec::new();
        let mut sub_sizes: Vec<u64> = Vec::new();
        let mut sub_crcs: Vec<u32> = Vec::new();
        let mut i: usize = 0;
        proof {
            lemma_total_size_bounds(readers@, 0);
        }
        while i < readers.len()
            invariant
                i <= readers@.len(),
                sub_sizes@.len() == i,
                sub_crcs@.len() == i,
                self.substreams_balanced(),
                self.files@ == old(self).files@,
                self.output@ == old(self).output@,
                self.content_methods@ == old(self).content_methods@,
                all@.len() <= spec_total_size(readers@, i as int),
                easy == (entries@.len() == readers@.len() && entries@.len() <= 0xFFFF && old(
                    self,
                ).spec_content_methods().len() == 1 && old(self).spec_content_methods()[0].method
                    == EncoderMethod::COPY && old(self).spec_output().len() + spec_total_size(
                    readers@,
                    readers@.len() as int,
                ) <= usize::MAX),
            decreases readers@.len() - i,
        {
            let d = &readers[i];
            proof {
                lemma_total_size_bounds(readers@, i + 1);
            }
            if all.len() > usize::MAX - d.len() {
                proof {
                    if easy {
                        assert(spec_total_size(readers@, i + 1) == spec_total_size(
                            readers@,
                            i as int,
                        ) + d@.len());
                        assert(all@.len() + d@.len() <= spec_total_size(readers@, i + 1));
                        assert(spec_total_size(readers@, i + 1) <= spec_total_size(
                            readers@,
                            readers@.len() as int,
                        ));
                        assert(false);
                    }
                }
                return Err(Error::other("archive too large".to_string()));
            }
            sub_sizes.push(d.len() as u64);
            sub_crcs.push(crc32(d.as_slice()));
            let ghost all0 = all@.len();
            let mut t: usize = 0;
            while t < d.len()
                invariant
                    t <= d@.len(),
                    all@.len() == all0 + t,
                    all0 + d@.len() <= usize::MAX,
                    all0 <= spec_total_size(readers@, i as int),
                    d == &readers[i as int],
                    sub_sizes@.len() == i + 1,
                    sub_crcs@.len() == i + 1,
                    i < readers@.len(),
                    self.substreams_balanced(),
                    self.files@ == old(self).files@,
                    self.output@ == old(self).output@,
                    self.content_methods@ == old(self).content_methods@,
                decreases d@.len() - t,
            {
                all.push(d[t]);
                t = t + 1;
            }
            proof {
                assert(spec_total_size(readers@, i + 1) == spec_total_size(readers@, i as int)
                    + readers@[i as int]@.len());
            }
            i = i + 1;
        }
        let encoded = self.encode_chain(&all)?;
        let (compressed, sizes) = encoded;
        let raw_crc = crc32(all.as_slice());
        let compressed_crc = crc32(compressed.as_slice());
        if self.output.len() > usize::MAX - compressed.len() {
            return Err(Error::other("archive too large".to_string()));
        }
        let ghost files0 = self.files@;
        let ghost blocks0 = self.unpack_info.blocks@;
        let mut w: usize = 0;
        while w < compressed.len()
            invariant
                w <= compressed@.len(),
                self.files@ == files0,
                self.unpack_info.blocks@ == blocks0,
                self.output@.len() >= old(self).spec_output().len(),
            decreases compressed@.len() - w,
        {
            if self.output.len() < usize::MAX {
                self.output.push(compressed[w]);
            }
            w = w + 1;
        }
        self.pack_info.add_stream(compressed.len() as u64, compressed_crc);
        let methods = copy_methods(&self.content_methods);
        self.unpack_info.add_multiple(
            methods,
            sizes,
            raw_crc,
            entries.len() as u64,
            sub_sizes,
            sub_crcs,
        );
        let mut k: usize = 0;
        let num = entries.len();
        let ghost filesmid = self.files@;
        let ghost blocksmid = self.unpack_info.blocks@;
        proof {
            assert(filesmid == old(self).spec_files());
        }
        while k < num
            invariant
                k <= num,
                num == entries@.len(),
                num == readers@.len(),
                filesmid == old(self).spec_files(),
                self.files@.len() == filesmid.len() + k,
                self.files@.subrange(0, filesmid.len() as int) =~= filesmid,
                forall|j: int|
                    0 <= j < k ==> ({
                        let e = #[trigger] self.files@[filesmid.len() + j];
                        &&& e.name@ == entries@[j].name@
                        &&& e.has_stream
                        &&& e.has_crc
                        &&& e.size == readers@[j]@.len()
                        &&& e.crc == crate::crc32::crc32_of(readers@[j]@) as u64
                    }),
                spec_stream_files(self.files@) == spec_stream_files(filesmid) + k,
                self.unpack_info.blocks@ == blocksmid,
                self.output@.len() >= old(self).spec_output().len(),
            decreases num - k,
        {
            let mut e = copy_entry(&entries[k]);
            e.has_stream = true;
            e.has_crc = true;
            e.size = readers[k].len() as u64;
            e.crc = crc32(readers[k].as_slice()) as u64;
            let ghost pre = self.files@;
            self.files.push(e);
            proof {
                assert(self.files@.drop_last() =~= pre);
                assert(self.files@.subrange(0, filesmid.len() as int) =~= filesmid);
            }
            k = k + 1;
        }
        Ok(())
    }

    /// Finishes the archive: serializes the header, then fills in the
    /// signature header with the corrected offsets and checksums, and
    /// hands back the complete image: it opens with the signature and
    /// version, its start header carries the checksummed offset and
    /// length of the main header, and the main header's checksum matches
    /// its bytes.
    pub fn finish(self) -> (r: Result<Vec<u8>, Error>)
        ensures
            (self.spec_encrypt_header() && (exists|i: int|
                0 <= i < self.spec_content_methods().len()
                    && self.spec_content_methods()[i].method
                    == EncoderMethod::AES256SHA256)) ==> (r matches Err(e)
                && (e is Unsupported)),
            (self.spec_files().len() == 0 && self.spec_pack_count() == 0
                && self.spec_block_count() == 0 && self.spec_output().len() == 32 && !(
            self.spec_encrypt_header() && (exists|i: int|
                0 <= i < self.spec_content_methods().len()
                    && self.spec_content_methods()[i].method
                    == EncoderMethod::AES256SHA256))) ==> r is Ok,
            r matches Ok(img) ==> ({
                let hoff = crate::bytes::le_value(img@, 12, 8);
                let hlen = crate::bytes::le_value(img@, 20, 8);
                &&& img@.len() >= 32
                &&& img@.subrange(0, 6) =~= crate::reader::spec_signature()
                &&& img@[6] == 0 && img@[7] == 2
                &&& crate::bytes::le_value(img@, 8, 4) == crate::crc32::crc32_of(
                    img@.subrange(12, 32),
                ) as int
                &&& 32 + hoff + hlen == img@.len()
                &&& crate::bytes::le_value(img@, 28, 4) == crate::crc32::crc32_of(
                    img@.subrange(32 + hoff, 32 + hoff + hlen),
                ) as int
            }),
    {
        if self.encrypt_header {
            let mut m: usize = 0;
            while m < self.content_methods.len()
                invariant
                    m <= self.content_methods@.len(),
                    self.encrypt_header,
                    forall|j: int|
                        0 <= j < m ==> (#[trigger] self.content_methods@[j]).method
                            != EncoderMethod::AES256SHA256,
                decreases self.content_methods@.len() - m,
            {
                if self.content_methods[m].method == EncoderMethod::AES256SHA256 {
                    proof {
                        assert(exists|i: int|
                            0 <= i < self.spec_content_methods().len()
                                && self.spec_content_methods()[i].method
                                == EncoderMethod::AES256SHA256);
                    }
                    return Err(
                        Error::unsupported("header encryption is not supported".to_string()),
                    );
                }
                m = m + 1;
            }
        }
        let mut out = self.output;
        let header_pos = out.len();
        if header_pos < 32 {
            return Err(Error::other("writer state corrupt".to_string()));
        }
        let mut header: Vec<u8> = Vec::new();
        Self::write_header_to(
            &self.files,
            &self.pack_info,
            &self.unpack_info,
            &mut header,
        )?;
        let header_crc = crc32(header.as_slice());
        if header.len() > usize::MAX - 40 || out.len() > usize::MAX - 8 - header.len() {
            return Err(Error::other("archive too large".to_string()));
        }
        let mut w: usize = 0;
        while w < header.len()
            invariant
                w <= header@.len(),
                out@.len() == header_pos + w,
                header_pos + header@.len() <= usize::MAX,
                32 <= header_pos,
                forall|t: int| 0 <= t < w ==> out@[header_pos + t] == header@[t],
                out@.subrange(0, header_pos as int) == self.output@,
            decreases header@.len() - w,
        {
            out.push(header[w]);
            proof {
                assert(out@.subrange(0, header_pos as int) =~= self.output@);
            }
            w = w + 1;
        }
        let mut hh: Vec<u8> = Vec::new();
        hh.push(0x37);
        hh.push(0x7A);
        hh.push(0xBC);
        hh.push(0xAF);
        hh.push(0x27);
        hh.push(0x1C);
        hh.push(0);
        hh.push(2);
        push_u32_le(&mut hh, 0);
        push_u64_le(&mut hh, (header_pos - 32) as u64);
        let ghost h20 = hh@;
        push_u64_le(&mut hh, header.len() as u64);
        let ghost h28 = hh@;
        push_u32_le(&mut hh, header_crc);
        proof {
            assert(hh@.len() == 32);
            assert(hh@[0] == 0x37 && hh@[1] == 0x7A && hh@[2] == 0xBC && hh@[3] == 0xAF && hh@[4]
                == 0x27 && hh@[5] == 0x1C && hh@[6] == 0 && hh@[7] == 2);
            crate::bytes::lemma_le_value_eq(h28, h20, 12, 8);
            crate::bytes::lemma_le_value_eq(hh@, h28, 12, 8);
            crate::bytes::lemma_le_value_eq(hh@, h28, 20, 8);
            assert(crate::bytes::le_value(hh@, 12, 8) == (header_pos - 32) as u64);
            assert(crate::bytes::le_value(hh@, 20, 8) == header@.len());
            crate::bytes::lemma_le4_of_u32(hh@, 28, header_crc);
        }
        let ghost hh_pre = hh@;
        let mut tail: Vec<u8> = Vec::new();
        let mut t: usize = 12;
        while t < 32
            invariant
                12 <= t <= 32,
                hh@.len() == 32,
                hh@ == hh_pre,
                tail@.len() == t - 12,
                forall|q: int| 0 <= q < t - 12 ==> tail@[q] == hh@[12 + q],
            decreases 32 - t,
        {
            tail.push(hh[t]);
            t = t + 1;
        }
        proof {
            assert(tail@ =~= hh@.subrange(12, 32));
        }
        let start_crc = crc32(tail.as_slice());
        let crc_bytes_0 = (start_crc % 0x100) as u8;
        let crc_bytes_1 = ((start_crc / 0x100) % 0x100) as u8;
        let crc_bytes_2 = ((start_crc / 0x10000) % 0x100) as u8;
        let crc_bytes_3 = (start_crc / 0x1000000) as u8;
        hh.set(8, crc_bytes_0);
        hh.set(9, crc_bytes_1);
        hh.set(10, crc_bytes_2);
        hh.set(11, crc_bytes_3);
        proof {
            crate::bytes::lemma_le4_of_u32(hh@, 8, start_crc);
            crate::bytes::lemma_le_value_eq(hh@, hh_pre, 12, 8);
            crate::bytes::lemma_le_value_eq(hh@, hh_pre, 20, 8);
            crate::bytes::lemma_le_value_eq(hh@, hh_pre, 28, 4);
            assert(hh@.subrange(12, 32) =~= hh_pre.subrange(12, 32));
        }
        let ghost before_patch = out@;
        let mut s: usize = 0;
        while s < 32
            invariant
                s <= 32,
                hh@.len() == 32,
                out@.len() == before_patch.len(),
                out@.len() >= 32,
                forall|q: int| 0 <= q < s ==> out@[q] == hh@[q],
                forall|q: int| s <= q < out@.len() ==> out@[q] == before_patch[q],
            decreases 32 - s,
        {
            out.set(s, hh[s]);
            s = s + 1;
        }
        proof {
            let img = out@;
            assert(img.subrange(0, 6) =~= crate::reader::spec_signature());
            assert(img.subrange(12, 32) =~= hh@.subrange(12, 32));
            assert(img.subrange(12, 32) =~= tail@);
            crate::bytes::lemma_le_value_eq(img, hh@, 8, 4);
            crate::bytes::lemma_le_value_eq(img, hh@, 12, 8);
            crate::bytes::lemma_le_value_eq(img, hh@, 20, 8);
            crate::bytes::lemma_le_value_eq(img, hh@, 28, 4);
            assert(img.subrange(header_pos as int, header_pos + header@.len()) =~= header@);
        }
        Ok(out)
    }

    /// Serializes the main header: streams info and files info.
    fn write_header_to(
        files: &Vec<ArchiveEntry>,
        pack_info: &PackInfo,
        unpack_info: &UnpackInfo,
        header: &mut Vec<u8>,
    ) -> (r: Result<(), Error>)
        ensures
            (files@.len() == 0 && pack_info.sizes@.len() == 0 && unpack_info.blocks@.len() == 0
                && old(header)@.len() + 8192 <= usize::MAX) ==> (r is Ok && final(header)@.len()
                <= old(header)@.len() + 128),
    {
        if header.len() >= usize::MAX - 64 {
            return Err(Error::other("header too large".to_string()));
        }
        header.push(K_HEADER);
        header.push(K_MAIN_STREAMS_INFO);
        if pack_info.len() > 0 {
            pack_info.write_to(header)?;
            unpack_info.write_to(header)?;
        }
        unpack_info.write_substreams(header)?;
        if header.len() >= usize::MAX - 64 {
            return Err(Error::other("header too large".to_string()));
        }
        header.push(K_END);
        Self::write_files_info(files, header)?;
        if header.len() >= usize::MAX - 64 {
            return Err(Error::other("header too large".to_string()));
        }
        header.push(K_END);
        Ok(())
    }

    /// Serializes the files info: flags, names, dates and attributes.
    fn write_files_info(files: &Vec<ArchiveEntry>, header: &mut Vec<u8>) -> (r: Result<(), Error>)
        ensures
            (files@.len() == 0 && old(header)@.len() + 4096 <= usize::MAX) ==> (r is Ok
                && final(header)@.len() <= old(header)@.len() + 64),
    {
        if header.len() >= usize::MAX - 64 {
            return Err(Error::other("header too large".to_string()));
        }
        header.push(K_FILES_INFO);
        write_u64(header, files.len() as u64);
        Self::write_file_empty_streams(files, header)?;
        Self::write_file_empty_files(files, header)?;
        Self::write_file_anti_items(files, header)?;
        Self::write_file_names(files, header)?;
        Self::write_file_times(files, header, K_C_TIME)?;
        Self::write_file_times(files, header, K_A_TIME)?;
        Self::write_file_times(files, header, K_M_TIME)?;
        Self::write_file_windows_attrs(files, header)?;
        if header.len() >= usize::MAX - 64 {
            return Err(Error::other("header too large".to_string()));
        }
        header.push(K_END);
        Ok(())
    }

    /// Serializes the empty-streams bit field, when any entry lacks a
    /// stream.
    fn write_file_empty_streams(files: &Vec<ArchiveEntry>, header: &mut Vec<u8>) -> (r: Result<
        (),
        Error,
    >)
        ensures
            files@.len() == 0 ==> (r is Ok && final(header)@ == old(header)@),
    {
        let mut has_empty = false;
        let mut i: usize = 0;
        while i < files.len()
            invariant
                i <= files@.len(),
                header@ == old(header)@,
                has_empty ==> files@.len() > 0,
            decreases files@.len() - i,
        {
            if !files[i].has_stream {
                has_empty = true;
            }
            i = i + 1;
        }
        if !has_empty {
            return Ok(());
        }
        if files.len() >= usize::MAX - 64 {
            return Err(Error::other("too many files".to_string()));
        }
        let mut bitset = BitSet::with_capacity(files.len());
        let mut j: usize = 0;
        while j < files.len()
            invariant
                j <= files@.len(),
                bitset.wf(),
                files@.len() < usize::MAX - 64,
                bitset.spec_capacity() == files@.len(),
            decreases files@.len() - j,
        {
            if !files[j].has_stream {
                bitset.insert(j);
            }
            j = j + 1;
        }
        let mut temp: Vec<u8> = Vec::new();
        write_bit_set(&mut temp, &bitset);
        if header.len() >= usize::MAX - 64 {
            return Err(Error::other("header too large".to_string()));
        }
        header.push(K_EMPTY_STREAM);
        write_u64(header, temp.len() as u64);
        append_all(header, &temp)?;
        Ok(())
    }

    /// Serializes the empty-files bit field over the entries without a
    /// stream.
    fn write_file_empty_files(files: &Vec<ArchiveEntry>, header: &mut Vec<u8>) -> (r: Result<
        (),
        Error,
    >)
        ensures
            files@.len() == 0 ==> (r is Ok && final(header)@ == old(header)@),
    {
        if files.len() >= usize::MAX - 64 {
            return Err(Error::other("too many files".to_string()));
        }
        let mut has_empty = false;
        let mut counter: usize = 0;
        let mut bitset = BitSet::new();
        let mut i: usize = 0;
        while i < files.len()
            invariant
                i <= files@.len(),
                files@.len() < usize::MAX - 64,
                bitset.wf(),
                counter <= i,
                bitset.spec_capacity() <= counter,
                header@ == old(header)@,
                has_empty ==> files@.len() > 0,
            decreases files@.len() - i,
        {
            if !files[i].has_stream {
                let is_dir = files[i].is_directory;
                if !is_dir {
                    has_empty = true;
                    if counter < usize::MAX {
                        bitset.insert(counter);
                    }
                }
                counter = counter + 1;
            }
            i = i + 1;
        }
        if !has_empty {
            return Ok(());
        }
        let mut temp: Vec<u8> = Vec::new();
        write_bit_set(&mut temp, &bitset);
        if header.len() >= usize::MAX - 64 {
            return Err(Error::other("header too large".to_string()));
        }
        header.push(K_EMPTY_FILE);
        write_u64(header, temp.len() as u64);
        append_all(header, &temp)?;
        Ok(())
    }

    /// Serializes the anti-item bit field over the entries without a
    /// stream.
    fn write_file_anti_items(files: &Vec<ArchiveEntry>, header: &mut Vec<u8>) -> (r: Result<
        (),
        Error,
    >)
        ensures
            files@.len() == 0 ==> (r is Ok && final(header)@ == old(header)@),
    {
        if files.len() >= usize::MAX - 64 {
            return Err(Error::other("too many files".to_string()));
        }
        let mut has_anti = false;
        let mut counter: usize = 0;
        let mut bitset = BitSet::new();
        let mut i: usize = 0;
        while i < files.len()
            invariant
                i <= files@.len(),
                files@.len() < usize::MAX - 64,
                bitset.wf(),
                counter <= i,
                bitset.spec_capacity() <= counter,
                header@ == old(header)@,
                has_anti ==> files@.len() > 0,
            decreases files@.len() - i,
        {
            if !files[i].has_stream {
                let is_anti = files[i].is_anti_item;
                if is_anti {
                    has_anti = true;
                    if counter < usize::MAX {
                        bitset.insert(counter);
                    }
                }
                counter = counter + 1;
            }
            i = i + 1;
        }
        if !has_anti {
            return Ok(());
        }
        let mut temp: Vec<u8> = Vec::new();
        write_bit_set(&mut temp, &bitset);
        if header.len() >= usize::MAX - 64 {
            return Err(Error::other("header too large".to_string()));
        }
        header.push(K_ANTI);
        write_u64(header, temp.len() as u64);
        append_all(header, &temp)?;
        Ok(())
    }

    /// Serializes the NUL-separated UTF-16LE file names.
    fn write_file_names(files: &Vec<ArchiveEntry>, header: &mut Vec<u8>) -> (r: Result<(), Error>)
        ensures
            (files@.len() == 0 && old(header)@.len() + 1024 <= usize::MAX) ==> (r is Ok
                && final(header)@.len() <= old(header)@.len() + 16),
    {
        let mut temp: Vec<u8> = Vec::new();
        temp.push(0);
        let mut i: usize = 0;
        while i < files.len()
            invariant
                i <= files@.len(),
                files@.len() == 0 ==> temp@.len() == 1,
                header@ == old(header)@,
            decreases files@.len() - i,
        {
            let encoded = utf16le_bytes(files[i].name.as_str());
            append_all(&mut temp, &encoded)?;
            if temp.len() >= usize::MAX - 2 {
                return Err(Error::other("names too long".to_string()));
            }
            temp.push(0);
            temp.push(0);
            i = i + 1;
        }
        if header.len() >= usize::MAX - 64 {
            return Err(Error::other("header too large".to_string()));
        }
        header.push(K_NAME);
        write_u64(header, temp.len() as u64);
        append_all(header, &temp)?;
        Ok(())
    }

    /// Serializes one timestamp record: the defined bit field and the
    /// filetimes of the entries that carry one.
    fn write_file_times(files: &Vec<ArchiveEntry>, header: &mut Vec<u8>, kind: u8) -> (r: Result<
        (),
        Error,
    >)
        ensures
            files@.len() == 0 ==> (r is Ok && final(header)@ == old(header)@),
    {
        let mut num: usize = 0;
        let mut i: usize = 0;
        while i < files.len()
            invariant
                i <= files@.len(),
                num <= i,
                header@ == old(header)@,
            decreases files@.len() - i,
        {
            if Self::has_time(&files[i], kind) {
                num = num + 1;
            }
            i = i + 1;
        }
        if num == 0 {
            return Ok(());
        }
        if files.len() >= usize::MAX - 64 {
            return Err(Error::other("too many files".to_string()));
        }
        let mut temp: Vec<u8> = Vec::new();
        if num != files.len() {
            temp.push(0);
            let mut times = BitSet::with_capacity(files.len());
            let mut j: usize = 0;
            while j < files.len()
                invariant
                    j <= files@.len(),
                    times.wf(),
                    files@.len() < usize::MAX - 64,
                    times.spec_capacity() == files@.len(),
                decreases files@.len() - j,
            {
                if Self::has_time(&files[j], kind) {
                    times.insert(j);
                }
                j = j + 1;
            }
            write_bit_set(&mut temp, &times);
        } else {
            temp.push(1);
        }
        if temp.len() >= usize::MAX - 64 {
            return Err(Error::other("header too large".to_string()));
        }
        temp.push(0);
        let mut k: usize = 0;
        while k < files.len()
            invariant
                k <= files@.len(),
            decreases files@.len() - k,
        {
            if Self::has_time(&files[k], kind) {
                if temp.len() >= usize::MAX - 16 {
                    return Err(Error::other("header too large".to_string()));
                }
                push_u64_le(&mut temp, Self::time_of(&files[k], kind));
            }
            k = k + 1;
        }
        if header.len() >= usize::MAX - 64 {
            return Err(Error::other("header too large".to_string()));
        }
        header.push(kind);
        write_u64(header, temp.len() as u64);
        append_all(header, &temp)?;
        Ok(())
    }

    /// Whether the entry carries the timestamp of the given kind.
    fn has_time(e: &ArchiveEntry, kind: u8) -> bool
    {
        if kind == K_C_TIME {
            e.has_creation_date
        } else if kind == K_A_TIME {
            e.has_access_date
        } else {
            e.has_last_modified_date
        }
    }

    /// The timestamp of the given kind.
    fn time_of(e: &ArchiveEntry, kind: u8) -> u64
    {
        if kind == K_C_TIME {
            e.creation_date.0
        } else if kind == K_A_TIME {
            e.access_date.0
        } else {
            e.last_modified_date.0
        }
    }

    /// Serializes the Windows-attributes record.
    fn write_file_windows_attrs(files: &Vec<ArchiveEntry>, header: &mut Vec<u8>) -> (r: Result<
        (),
        Error,
    >)
        ensures
            files@.len() == 0 ==> (r is Ok && final(header)@ == old(header)@),
    {
        let mut num: usize = 0;
        let mut i: usize = 0;
        while i < files.len()
            invariant
                i <= files@.len(),
                num <= i,
                header@ == old(header)@,
            decreases files@.len() - i,
        {
            if files[i].has_windows_attributes {
                num = num + 1;
            }
            i = i + 1;
        }
        if num == 0 {
            return Ok(());
        }
        if files.len() >= usize::MAX - 64 {
            return Err(Error::other("too many files".to_string()));
        }
        let mut temp: Vec<u8> = Vec::new();
        if num != files.len() {
            temp.push(0);
            let mut defined = BitSet::with_capacity(files.len());
            let mut j: usize = 0;
            while j < files.len()
                invariant
                    j <= files@.len(),
                    defined.wf(),
                    files@.len() < usize::MAX - 64,
                    defined.spec_capacity() == files@.len(),
                decreases files@.len() - j,
            {
                if files[j].has_windows_attributes {
                    defined.insert(j);
                }
                j = j + 1;
            }
            write_bit_set(&mut temp, &defined);
        } else {
            temp.push(1);
        }
        if temp.len() >= usize::MAX - 64 {
            return Err(Error::other("header too large".to_string()));
        }
        temp.push(0);
        let mut k: usize = 0;
        while k < files.len()
            invariant
                k <= files@.len(),
            decreases files@.len() - k,
        {
            if files[k].has_windows_attributes {
                if temp.len() >= usize::MAX - 16 {
                    return Err(Error::other("header too large".to_string()));
                }
                push_u32_le(&mut temp, files[k].windows_attributes);
            }
            k = k + 1;
        }
        if header.len() >= usize::MAX - 64 {
            return Err(Error::other("header too large".to_string()));
        }
        header.push(K_WIN_ATTRIBUTES);
        write_u64(header, temp.len() as u64);
        append_all(header, &temp)?;
        Ok(())
    }
}

/// Appends all of `src`, guarding against overflow.
fn append_all(dst: &mut Vec<u8>, src: &Vec<u8>) -> (r: Result<(), Error>)
    ensures
        r is Ok <==> old(dst)@.len() + src@.len() <= usize::MAX,
        r is Ok ==> final(dst)@ == old(dst)@ + src@,
        r is Err ==> final(dst)@ == old(dst)@,
{
    if dst.len() > usize::MAX - src.len() {
        return Err(Error::other("output too large".to_string()));
    }
    let mut i: usize = 0;
    while i < src.len()
        invariant
            i <= src@.len(),
            dst@ =~= old(dst)@ + src@.subrange(0, i as int),
            old(dst)@.len() + src@.len() <= usize::MAX,
        decreases src@.len() - i,
    {
        dst.push(src[i]);
        proof {
            assert(dst@ =~= old(dst)@ + src@.subrange(0, i + 1));
        }
        i = i + 1;
    }
    proof {
        assert(dst@ =~= old(dst)@ + src@);
    }
    Ok(())
}

/// Copies an encode-chain configuration.
fn copy_methods(methods: &Vec<EncoderConfiguration>) -> (r: Vec<EncoderConfiguration>)
    ensures
        r@.len() == methods@.len(),
{
    let mut out: Vec<EncoderConfiguration> = Vec::new();
    let mut i: usize = 0;
    while i < methods.len()
        invariant
            out@.len() == i,
            i <= methods@.len(),
        decreases methods@.len() - i,
    {
        out.push(methods[i].clone());
        i = i + 1;
    }
    out
}

/// Copies an archive entry field by field, so that callers keep exact
/// knowledge of the copy's contents.
pub(crate) fn copy_entry(e: &ArchiveEntry) -> (r: ArchiveEntry)
    ensures
        r.name@ == e.name@,
        r.has_stream == e.has_stream,
        r.is_directory == e.is_directory,
        r.is_anti_item == e.is_anti_item,
        r.has_creation_date == e.has_creation_date,
        r.has_last_modified_date == e.has_last_modified_date,
        r.has_access_date == e.has_access_date,
        r.creation_date == e.creation_date,
        r.last_modified_date == e.last_modified_date,
        r.access_date == e.access_date,
        r.has_windows_attributes == e.has_windows_attributes,
        r.windows_attributes == e.windows_attributes,
        r.has_crc == e.has_crc,
        r.crc == e.crc,
        r.compressed_crc == e.compressed_crc,
        r.size == e.size,
        r.compressed_size == e.compressed_size,
{
    ArchiveEntry {
        name: clone_string(&e.name),
        has_stream: e.has_stream,
        is_directory: e.is_directory,
        is_anti_item: e.is_anti_item,
        has_creation_date: e.has_creation_date,
        has_last_modified_date: e.has_last_modified_date,
        has_access_date: e.has_access_date,
        creation_date: e.creation_date,
        last_modified_date: e.last_modified_date,
        access_date: e.access_date,
        has_windows_attributes: e.has_windows_attributes,
        windows_attributes: e.windows_attributes,
        has_crc: e.has_crc,
        crc: e.crc,
        compressed_crc: e.compressed_crc,
        size: e.size,
        compressed_size: e.compressed_size,
    }
}

/// Relies on String::clone: the copy holds the same characters.
#[verifier::external_body]
fn clone_string(s: &String) -> (r: String)
    ensures
        r@ == s@,
{
    s.clone()
}

} // verus!
