use vstd::prelude::*;

use crate::archive::EncoderConfiguration;
use crate::archive::EncoderMethod;
use crate::bcj::BCJFilter;
use crate::block::Coder;
use crate::delta::Delta;
use crate::encoder_options::Bzip2Options;
use crate::encoder_options::DeflateOptions;
use crate::encoder_options::DeltaOptions;
use crate::encoder_options::EncoderOptions;
use crate::encoder_options::LZ4Options;
use crate::encoder_options::PPMDOptions;
use crate::encoder_options::ZStandardOptions;
use crate::encryption::aes_decrypt_buffer;
use crate::encryption::aes_encrypt_buffer;
use crate::error::Error;
use crate::password::Password;
use crate::ppmd7::Ppmd7Decoder;
use crate::ppmd7::Ppmd7Encoder;
use crate::ppmd7::PPMD7_MAX_MEM_SIZE;
use crate::ppmd7::PPMD7_MAX_ORDER;
use crate::ppmd7::PPMD7_MIN_MEM_SIZE;
use crate::ppmd7::PPMD7_MIN_ORDER;

verus! {

/// A name for what BZip2 decompression yields on a byte sequence: a
/// function of the bytes alone.
pub uninterp spec fn bzip2_decode_of(data: Seq<u8>) -> Seq<u8>;

/// Relies on bzip2::read::BzDecoder and std's Read::read_to_end: inflates
/// a whole BZip2 stream. The result depends on the input bytes alone.
#[verifier::external_body]
fn bzip2_decompress(data: &Vec<u8>) -> (r: Result<Vec<u8>, ()>)
    ensures
        r matches Ok(v) ==> v@ == bzip2_decode_of(data@),
{
    let mut out = Vec::new();
    let mut dec = bzip2::read::BzDecoder::new(data.as_slice());
    match std::io::Read::read_to_end(&mut dec, &mut out) {
        Ok(_) => Ok(out),
        Err(_) => Err(()),
    }
}

/// A name for what BZip2 compression at a given level yields: a function
/// of the bytes and the level alone.
pub uninterp spec fn bzip2_encode_of(data: Seq<u8>, level: u32) -> Seq<u8>;

/// Relies on bzip2::read::BzEncoder and std's Read::read_to_end:
/// compresses a whole stream at the given level. bzip2's Compression::new
/// panics outside one through nine, so that range is required here.
/// BZip2 is documented lossless: decompressing the produced stream
/// returns the input.
#[verifier::external_body]
fn bzip2_compress(data: &Vec<u8>, level: u32) -> (r: Result<Vec<u8>, ()>)
    requires
        1 <= level <= 9,
    ensures
        r matches Ok(v) ==> v@ == bzip2_encode_of(data@, level),
        r matches Ok(v) ==> bzip2_decode_of(v@) == data@,
{
    let mut out = Vec::new();
    let mut enc = bzip2::read::BzEncoder::new(data.as_slice(), bzip2::Compression::new(level));
    match std::io::Read::read_to_end(&mut enc, &mut out) {
        Ok(_) => Ok(out),
        Err(_) => Err(()),
    }
}

/// A name for what raw-Deflate decompression yields: a function of the
/// bytes alone.
pub uninterp spec fn deflate_decode_of(data: Seq<u8>) -> Seq<u8>;

/// Relies on flate2::bufread::DeflateDecoder and std's Read::read_to_end:
/// inflates a whole raw-Deflate stream.
#[verifier::external_body]
fn deflate_decompress(data: &Vec<u8>) -> (r: Result<Vec<u8>, ()>)
    ensures
        r matches Ok(v) ==> v@ == deflate_decode_of(data@),
{
    let mut out = Vec::new();
    let mut dec = flate2::bufread::DeflateDecoder::new(data.as_slice());
    match std::io::Read::read_to_end(&mut dec, &mut out) {
        Ok(_) => Ok(out),
        Err(_) => Err(()),
    }
}

/// A name for what raw-Deflate compression at a given level yields: a
/// function of the bytes and the level alone.
pub uninterp spec fn deflate_encode_of(data: Seq<u8>, level: u32) -> Seq<u8>;

/// Relies on flate2::bufread::DeflateEncoder and std's Read::read_to_end:
/// compresses a whole stream at the given level. Deflate is documented
/// lossless: decompressing the produced stream returns the input.
#[verifier::external_body]
fn deflate_compress(data: &Vec<u8>, level: u32) -> (r: Result<Vec<u8>, ()>)
    ensures
        r matches Ok(v) ==> v@ == deflate_encode_of(data@, level),
        r matches Ok(v) ==> deflate_decode_of(v@) == data@,
{
    let mut out = Vec::new();
    let mut enc = flate2::bufread::DeflateEncoder::new(
        data.as_slice(),
        flate2::Compression::new(level),
    );
    match std::io::Read::read_to_end(&mut enc, &mut out) {
        Ok(_) => Ok(out),
        Err(_) => Err(()),
    }
}

/// A name for what Zstandard decompression yields: a function of the
/// bytes alone.
pub uninterp spec fn zstd_decode_of(data: Seq<u8>) -> Seq<u8>;

/// Relies on zstd::stream::decode_all: inflates a whole Zstandard stream.
#[verifier::external_body]
fn zstd_decompress(data: &Vec<u8>) -> (r: Result<Vec<u8>, ()>)
    ensures
        r matches Ok(v) ==> v@ == zstd_decode_of(data@),
{
    match zstd::stream::decode_all(data.as_slice()) {
        Ok(v) => Ok(v),
        Err(_) => Err(()),
    }
}

/// A name for what Zstandard compression at a given level yields: a
/// function of the bytes and the level alone.
pub uninterp spec fn zstd_encode_of(data: Seq<u8>, level: u32) -> Seq<u8>;

/// Relies on zstd::stream::encode_all: compresses a whole stream at the
/// given level. Zstandard is documented lossless: decompressing the
/// produced stream returns the input.
#[verifier::external_body]
fn zstd_compress(data: &Vec<u8>, level: u32) -> (r: Result<Vec<u8>, ()>)
    requires
        level <= 22,
    ensures
        r matches Ok(v) ==> v@ == zstd_encode_of(data@, level),
        r matches Ok(v) ==> zstd_decode_of(v@) == data@,
{
    match zstd::stream::encode_all(data.as_slice(), level as i32) {
        Ok(v) => Ok(v),
        Err(_) => Err(()),
    }
}

/// A name for what LZ4 frame decompression yields: a function of the
/// bytes alone.
pub uninterp spec fn lz4_decode_of(data: Seq<u8>) -> Seq<u8>;

/// Relies on lz4_flex::frame::FrameDecoder and std's Read::read_to_end:
/// inflates one LZ4 frame stream.
#[verifier::external_body]
fn lz4_frame_decompress(data: &Vec<u8>) -> (r: Result<Vec<u8>, ()>)
    ensures
        r matches Ok(v) ==> v@ == lz4_decode_of(data@),
{
    let mut out = Vec::new();
    let mut dec = lz4_flex::frame::FrameDecoder::new(data.as_slice());
    match std::io::Read::read_to_end(&mut dec, &mut out) {
        Ok(_) => Ok(out),
        Err(_) => Err(()),
    }
}

/// A name for what LZ4 frame compression yields, with the content size
/// recorded in the header: a function of the bytes alone.
pub uninterp spec fn lz4_encode_of(data: Seq<u8>) -> Seq<u8>;

/// Relies on lz4_flex::frame::FrameEncoder with a FrameInfo carrying the
/// content size, std's Write::write_all, and FrameEncoder::finish:
/// compresses a whole stream into one LZ4 frame. LZ4 is documented
/// lossless: decompressing the produced frame returns the input.
#[verifier::external_body]
fn lz4_frame_compress(data: &Vec<u8>) -> (r: Result<Vec<u8>, ()>)
    ensures
        r matches Ok(v) ==> v@ == lz4_encode_of(data@),
        r matches Ok(v) ==> lz4_decode_of(v@) == data@,
{
    let info = lz4_flex::frame::FrameInfo::new().content_size(Some(data.len() as u64));
    let mut enc = lz4_flex::frame::FrameEncoder::with_frame_info(info, Vec::new());
    if std::io::Write::write_all(&mut enc, data.as_slice()).is_err() {
        return Err(());
    }
    match enc.finish() {
        Ok(v) => Ok(v),
        Err(_) => Err(()),
    }
}

/// The magic number of a skippable frame, as zstdmt first used for LZ4
/// payloads.
pub const SKIPPABLE_FRAME_MAGIC: u32 = 0x184D2A50;

/// Joins a prefix onto a parse of the remaining frames, keeping a layout
/// failure a failure.
pub open spec fn spec_join_frames(prefix: Seq<u8>, rest: Option<Seq<u8>>) -> Option<Seq<u8>> {
    match rest {
        Some(t) => Some(prefix + t),
        None => None,
    }
}

/// The decoded content of a chain of skippable frames starting at `pos`:
/// each frame is the magic, the fixed header size 4, a compressed length
/// and that many bytes of one LZ4 frame. `None` is a layout error; a
/// boundary that does not open with the magic ends the chain.
pub open spec fn spec_lz4_frames(data: Seq<u8>, pos: int) -> Option<Seq<u8>>
    decreases data.len() - pos,
{
    if pos < 0 || pos + 4 > data.len() {
        Some(Seq::empty())
    } else if crate::bytes::le_value(data, pos, 4) != SKIPPABLE_FRAME_MAGIC as int {
        Some(Seq::empty())
    } else if pos + 8 > data.len() {
        None
    } else if crate::bytes::le_value(data, pos + 4, 4) != 4int {
        None
    } else if pos + 12 > data.len() {
        None
    } else {
        let cs = crate::bytes::le_value(data, pos + 8, 4);
        if cs < 0 || pos + 12 + cs > data.len() {
            None
        } else {
            let part = lz4_decode_of(data.subrange(pos + 12, pos + 12 + cs));
            if cs == 0 {
                Some(part)
            } else {
                spec_join_frames(part, spec_lz4_frames(data, pos + 12 + cs))
            }
        }
    }
}

/// The four little-endian bytes of a 32-bit value.
pub open spec fn spec_u32_le_bytes(v: int) -> Seq<u8> {
    seq![
        (v % 0x100) as u8,
        ((v / 0x100) % 0x100) as u8,
        ((v / 0x10000) % 0x100) as u8,
        ((v / 0x1000000) % 0x100) as u8,
    ]
}

/// The image of a payload split into skippable frames of span `fs`: each
/// chunk of up to `fs` bytes becomes a frame header and that chunk's LZ4
/// encoding.
pub open spec fn spec_lz4_chunks(data: Seq<u8>, fs: int, start: int) -> Seq<u8>
    decreases data.len() - start,
{
    if start < 0 || start >= data.len() || fs < 1 {
        Seq::empty()
    } else {
        let end = if data.len() - start > fs {
            start + fs
        } else {
            data.len() as int
        };
        let part = lz4_encode_of(data.subrange(start, end));
        spec_u32_le_bytes(SKIPPABLE_FRAME_MAGIC as int) + spec_u32_le_bytes(4)
            + spec_u32_le_bytes(part.len() as int) + part + spec_lz4_chunks(data, fs, end)
    }
}

/// Reads a 32-bit little-endian value at `pos`, if four bytes are there.
fn read_u32_at(data: &Vec<u8>, pos: usize) -> (r: Option<u32>)
    ensures
        r is Some <==> pos + 4 <= data@.len(),
        r matches Some(m) ==> m == crate::bytes::le_value(data@, pos as int, 4),
{
    if pos < data.len() && data.len() - pos >= 4 {
        let m = (data[pos] as u32) + (data[pos + 1] as u32) * 0x100 + (data[pos + 2] as u32)
            * 0x10000 + (data[pos + 3] as u32) * 0x1000000;
        proof {
            reveal_with_fuel(crate::bytes::le_value, 5);
        }
        Some(m)
    } else {
        None
    }
}

/// Copies `len` bytes starting at `start`, if they are there.
fn slice_range(data: &Vec<u8>, start: usize, len: usize) -> (r: Option<Vec<u8>>)
    ensures
        r matches Some(v) ==> v@.len() == len && start + len <= data@.len() && v@ == data@.subrange(
            start as int,
            start + len,
        ),
{
    if start <= data.len() && data.len() - start >= len {
        let end = start + len;
        let mut out: Vec<u8> = Vec::new();
        let mut idx = start;
        while idx < end
            invariant
                out@ =~= data@.subrange(start as int, idx as int),
                start <= idx <= end,
                end <= data@.len(),
            decreases end - idx,
        {
            out.push(data[idx]);
            proof {
                assert(out@ =~= data@.subrange(start as int, idx + 1));
            }
            idx = idx + 1;
        }
        proof {
            assert(out@ =~= data@.subrange(start as int, end as int));
        }
        Some(out)
    } else {
        None
    }
}

/// Appends all of `src` to `dst`.
fn append_bytes(dst: &mut Vec<u8>, src: &Vec<u8>)
    requires
        old(dst)@.len() + src@.len() <= usize::MAX,
    ensures
        final(dst)@ == old(dst)@ + src@,
{
    let mut i: usize = 0;
    while i < src.len()
        invariant
            dst@ =~= old(dst)@ + src@.subrange(0, i as int),
            i <= src@.len(),
            old(dst)@.len() + src@.len() <= usize::MAX,
        decreases src@.len() - i,
    {
        dst.push(src[i]);
        proof {
            assert(dst@ =~= old(dst)@ + src@.subrange(0, i + 1));
        }
        i = i + 1;
    }
    proof {
        assert(dst@ =~= old(dst)@ + src@);
    }
}

/// Copies a byte vector.
pub(crate) fn copy_bytes(data: &Vec<u8>) -> (r: Vec<u8>)
    ensures
        r@ =~= data@,
{
    let mut out: Vec<u8> = Vec::new();
    let mut i: usize = 0;
    while i < data.len()
        invariant
            out@ =~= data@.subrange(0, i as int),
            i <= data@.len(),
        decreases data@.len() - i,
    {
        out.push(data[i]);
        proof {
            assert(out@ =~= data@.subrange(0, i + 1));
        }
        i = i + 1;
    }
    proof {
        assert(out@ =~= data@);
    }
    out
}

/// Decodes an LZ4 payload that may be wrapped in skippable frames: each
/// frame carries the magic, a fixed header size, a compressed length and
/// one LZ4 frame.
pub fn lz4_decode(data: &Vec<u8>) -> (r: Result<Vec<u8>, Error>)
    ensures
        data@.len() < 4 ==> r is Err,
        (data@.len() >= 4 && crate::bytes::le_value(data@, 0, 4) != SKIPPABLE_FRAME_MAGIC as int)
            ==> (r matches Ok(v) ==> v@ == lz4_decode_of(data@)),
        (data@.len() >= 4 && crate::bytes::le_value(data@, 0, 4) == SKIPPABLE_FRAME_MAGIC as int)
            ==> (r matches Ok(v) ==> spec_lz4_frames(data@, 0) == Some(v@)),
        r matches Err(e) ==> e is Other,
{
    let first = match read_u32_at(data, 0) {
        Some(m) => m,
        None => {
            return Err(Error::other("Input too short".to_string()));
        },
    };
    if first != SKIPPABLE_FRAME_MAGIC {
        return match lz4_frame_decompress(data) {
            Ok(v) => Ok(v),
            Err(_) => Err(Error::other("invalid LZ4 stream".to_string())),
        };
    }
    let mut out: Vec<u8> = Vec::new();
    let mut pos: usize = 0;
    proof {
        match spec_lz4_frames(data@, 0) {
            Some(t) => {
                assert(Seq::<u8>::empty() + t =~= t);
            },
            None => {},
        }
    }
    loop
        invariant_except_break
            pos <= data@.len(),
            spec_lz4_frames(data@, 0) == spec_join_frames(
                out@,
                spec_lz4_frames(data@, pos as int),
            ),
        ensures
            spec_lz4_frames(data@, 0) == Some(out@),
        decreases data@.len() - pos,
    {
        let dlen = data.len();
        proof {
            assert(data@.len() == dlen);
        }
        let magic = match read_u32_at(data, pos) {
            Some(m) => m,
            None => {
                proof {
                    assert(out@ + Seq::<u8>::empty() =~= out@);
                }
                break ;
            },
        };
        if magic != SKIPPABLE_FRAME_MAGIC {
            proof {
                assert(out@ + Seq::<u8>::empty() =~= out@);
            }
            break ;
        }
        let skippable_size = match read_u32_at(data, pos + 4) {
            Some(m) => m,
            None => {
                return Err(Error::other("Invalid lz4 skippable frame".to_string()));
            },
        };
        if skippable_size != 4 {
            return Err(Error::other("Invalid lz4 skippable frame size".to_string()));
        }
        let compressed_size = match read_u32_at(data, pos + 8) {
            Some(m) => m,
            None => {
                return Err(Error::other("Invalid lz4 skippable frame".to_string()));
            },
        };
        let frame = match slice_range(data, pos + 12, compressed_size as usize) {
            Some(f) => f,
            None => {
                return Err(Error::other("lz4 frame truncated".to_string()));
            },
        };
        let part = match lz4_frame_decompress(&frame) {
            Ok(v) => v,
            Err(_) => {
                return Err(Error::other("invalid LZ4 frame".to_string()));
            },
        };
        if out.len() > usize::MAX - part.len() {
            return Err(Error::other("output too large".to_string()));
        }
        let ghost out0 = out@;
        append_bytes(&mut out, &part);
        if compressed_size == 0 {
            proof {
                assert(spec_lz4_frames(data@, pos as int) == Some(part@));
                assert(out@ + Seq::<u8>::empty() =~= out@);
            }
            break ;
        }
        proof {
            let nx = pos + 12 + compressed_size as int;
            assert(spec_lz4_frames(data@, pos as int) == spec_join_frames(
                part@,
                spec_lz4_frames(data@, nx),
            ));
            match spec_lz4_frames(data@, nx) {
                Some(t) => {
                    assert(out0 + (part@ + t) =~= out@ + t);
                },
                None => {},
            }
        }
        pos = pos + 12 + compressed_size as usize;
    }
    Ok(out)
}

/// Encodes a payload as LZ4, optionally split into skippable frames of
/// the configured uncompressed span.
pub fn lz4_encode(data: &Vec<u8>, options: &LZ4Options) -> (r: Result<Vec<u8>, Error>)
    ensures
        options.skippable_frame_size == 0 ==> (r matches Ok(v) ==> v@ == lz4_encode_of(data@)
            && lz4_decode_of(v@) == data@),
        options.skippable_frame_size > 0 ==> (r matches Ok(v) ==> v@ == spec_lz4_chunks(
            data@,
            options.skippable_frame_size as int,
            0,
        )),
        r matches Err(e) ==> e is Other,
{
    if options.skippable_frame_size == 0 {
        return match lz4_frame_compress(data) {
            Ok(v) => Ok(v),
            Err(_) => Err(Error::other("LZ4 compression failed".to_string())),
        };
    }
    let frame_size = options.skippable_frame_size as usize;
    let ghost fsi = frame_size as int;
    let mut out: Vec<u8> = Vec::new();
    let n = data.len();
    let mut start: usize = 0;
    loop
        invariant_except_break
            frame_size >= 1,
            fsi == frame_size,
            start <= n,
            n == data@.len(),
            spec_lz4_chunks(data@, fsi, 0) =~= out@ + spec_lz4_chunks(data@, fsi, start as int),
        ensures
            out@ == spec_lz4_chunks(data@, fsi, 0),
        decreases n - start + 1,
    {
        let end: usize = if n - start > frame_size {
            start + frame_size
        } else {
            n
        };
        let mut chunk: Vec<u8> = Vec::new();
        let mut t: usize = start;
        while t < end
            invariant
                start <= t <= end <= n,
                n == data@.len(),
                chunk@ =~= data@.subrange(start as int, t as int),
            decreases end - t,
        {
            chunk.push(data[t]);
            proof {
                assert(chunk@ =~= data@.subrange(start as int, t + 1));
            }
            t = t + 1;
        }
        if chunk.len() == 0 {
            proof {
                assert(out@ + Seq::<u8>::empty() =~= out@);
            }
            break ;
        }
        let part = match lz4_frame_compress(&chunk) {
            Ok(v) => v,
            Err(_) => {
                return Err(Error::other("LZ4 compression failed".to_string()));
            },
        };
        if part.len() > u32::MAX as usize {
            return Err(Error::other("frame too large".to_string()));
        }
        if part.len() > usize::MAX - 12 || out.len() > usize::MAX - 12 - part.len() {
            return Err(Error::other("output too large".to_string()));
        }
        let ghost out0 = out@;
        push_u32_le(&mut out, SKIPPABLE_FRAME_MAGIC);
        push_u32_le(&mut out, 4);
        push_u32_le(&mut out, part.len() as u32);
        append_bytes(&mut out, &part);
        proof {
            let parts = lz4_encode_of(data@.subrange(start as int, end as int));
            assert(parts == part@);
            assert(out@ =~= out0 + spec_u32_le_bytes(SKIPPABLE_FRAME_MAGIC as int)
                + spec_u32_le_bytes(4) + spec_u32_le_bytes(parts.len() as int) + parts);
            assert(spec_lz4_chunks(data@, fsi, start as int) =~= spec_u32_le_bytes(
                SKIPPABLE_FRAME_MAGIC as int,
            ) + spec_u32_le_bytes(4) + spec_u32_le_bytes(parts.len() as int) + parts
                + spec_lz4_chunks(data@, fsi, end as int));
            assert(spec_lz4_chunks(data@, fsi, 0) =~= out@ + spec_lz4_chunks(
                data@,
                fsi,
                end as int,
            ));
        }
        if end >= n {
            proof {
                assert(out@ + Seq::<u8>::empty() =~= out@);
            }
            break ;
        }
        start = end;
    }
    Ok(out)
}

/// Appends a 32-bit little-endian value.
pub fn push_u32_le(out: &mut Vec<u8>, v: u32)
    requires
        old(out)@.len() + 4 <= usize::MAX,
    ensures
        final(out)@.len() == old(out)@.len() + 4,
        final(out)@ =~= old(out)@ + seq![
            (v % 0x100) as u8,
            ((v / 0x100) % 0x100) as u8,
            ((v / 0x10000) % 0x100) as u8,
            (v / 0x1000000) as u8,
        ],
{
    out.push((v % 0x100) as u8);
    out.push(((v / 0x100) % 0x100) as u8);
    out.push(((v / 0x10000) % 0x100) as u8);
    out.push((v / 0x1000000) as u8);
}

/// Reads the PPMd order and memory size from coder properties, checking
/// the format's ranges and the memory limit. The memory size is in
/// bytes; the limit is in kibibytes, and the size is converted before
/// the comparison.
pub fn get_ppmd_order_memory_size(coder: &Coder, max_mem_limit_kb: usize) -> (r: Result<
    (u32, u32),
    Error,
>)
    ensures
        r matches Ok(p) ==> PPMD7_MIN_ORDER <= p.0 <= PPMD7_MAX_ORDER && PPMD7_MIN_MEM_SIZE <= p.1
            <= PPMD7_MAX_MEM_SIZE && p.1 / 1024 <= max_mem_limit_kb,
        coder.properties@.len() < 5 ==> r is Err,
        r matches Err(e) ==> !(e is FileNotFound),
{
    if coder.properties.len() < 5 {
        return Err(Error::other("PPMD properties too short".to_string()));
    }
    let order = coder.properties[0] as u32;
    let memory_size = (coder.properties[1] as u32) + (coder.properties[2] as u32) * 0x100 + (
    coder.properties[3] as u32) * 0x10000 + (coder.properties[4] as u32) * 0x1000000;
    if order < PPMD7_MIN_ORDER {
        return Err(Error::other("PPMD order smaller than PPMD7_MIN_ORDER".to_string()));
    }
    if order > PPMD7_MAX_ORDER {
        return Err(Error::other("PPMD order larger than PPMD7_MAX_ORDER".to_string()));
    }
    if memory_size < PPMD7_MIN_MEM_SIZE {
        return Err(Error::other("PPMD memory size smaller than PPMD7_MIN_MEM_SIZE".to_string()));
    }
    if memory_size > PPMD7_MAX_MEM_SIZE {
        return Err(Error::other("PPMD memory size larger than PPMD7_MAX_MEM_SIZE".to_string()));
    }
    let mem_kb = (memory_size / 1024) as usize;
    if mem_kb > max_mem_limit_kb {
        return Err(Error::MaxMemLimited { max_kb: max_mem_limit_kb, actaul_kb: mem_kb });
    }
    Ok((order, memory_size))
}

/// Reads the LZMA2 dictionary size from its packed property byte.
pub fn get_lzma2_dic_size(coder: &Coder) -> (r: Result<u32, Error>)
    ensures
        coder.properties@.len() == 0 ==> r is Err,
{
    if coder.properties.len() == 0 {
        return Err(Error::other("LZMA2 properties too short".to_string()));
    }
    let dict_size_bits = (coder.properties[0] as u32) & 0xFF;
    if dict_size_bits & 0xC0 != 0 {
        return Err(Error::other("Unsupported LZMA2 property bits".to_string()));
    }
    if dict_size_bits > 40 {
        return Err(Error::other("Dictionary larger than 4GiB maximum size".to_string()));
    }
    if dict_size_bits == 40 {
        return Ok(0xFFFFFFFF);
    }
    proof {
        assert(forall|x: u32| x & 0xC0 == 0 ==> (2u32 | (x & 0x1)) <= 3) by (bit_vector);
    }
    let base = 2u32 | (dict_size_bits & 0x1);
    let shift = dict_size_bits / 2 + 11;
    if shift >= 31 {
        return Ok(0xFFFFFFFF);
    }
    Ok(base << shift)
}

/// A byte sequence cut down to at most `n` bytes.
pub open spec fn spec_truncated(s: Seq<u8>, n: int) -> Seq<u8> {
    if s.len() <= n {
        s
    } else {
        s.subrange(0, n)
    }
}

/// The delta distance a coder's property bytes carry: one more than the
/// first byte, or one when no properties were written.
pub open spec fn spec_delta_distance(props: Seq<u8>) -> int {
    if props.len() == 0 {
        1
    } else {
        props[0] + 1
    }
}

/// The decoded content of an LZ4 payload: a chain of skippable frames
/// when it opens with the magic, otherwise one native frame; `None` is a
/// layout error.
pub open spec fn spec_lz4_payload(data: Seq<u8>) -> Option<Seq<u8>> {
    if data.len() < 4 {
        None
    } else if crate::bytes::le_value(data, 0, 4) == SKIPPABLE_FRAME_MAGIC as int {
        spec_lz4_frames(data, 0)
    } else {
        Some(lz4_decode_of(data))
    }
}

/// The BZip2 level an encode configuration selects: the option clamped
/// into one through nine, or six by default.
pub open spec fn spec_bzip2_level(options: Option<EncoderOptions>) -> u32 {
    let raw = match options {
        Some(EncoderOptions::BZIP2(o)) => o.0,
        _ => 6u32,
    };
    if raw < 1 {
        1u32
    } else if raw > 9 {
        9u32
    } else {
        raw
    }
}

/// The Deflate level an encode configuration selects, or six by default.
pub open spec fn spec_deflate_level(options: Option<EncoderOptions>) -> u32 {
    match options {
        Some(EncoderOptions::DEFLATE(o)) => o.0,
        _ => 6u32,
    }
}

/// The Zstandard level an encode configuration selects: the option capped
/// at twenty-two, or three by default.
pub open spec fn spec_zstd_level(options: Option<EncoderOptions>) -> u32 {
    let raw = match options {
        Some(EncoderOptions::ZSTD(o)) => o.0,
        _ => 3u32,
    };
    if raw > 22 {
        22u32
    } else {
        raw
    }
}

/// The LZ4 skippable-frame span an encode configuration selects, zero
/// meaning one native frame.
pub open spec fn spec_lz4_frame_size(options: Option<EncoderOptions>) -> u32 {
    match options {
        Some(EncoderOptions::LZ4(o)) => o.skippable_frame_size,
        _ => 0u32,
    }
}

/// Decodes one coder's worth of data: `input` through the coder named by
/// its method identifier, producing at most `uncompressed_len` bytes.
pub fn add_decoder(
    input: Vec<u8>,
    uncompressed_len: usize,
    coder: &Coder,
    password: &Password,
    max_mem_limit_kb: usize,
    threads: u32,
) -> (r: Result<Vec<u8>, Error>)
    ensures
        r matches Ok(v) ==> v@.len() <= uncompressed_len,
        r matches Err(e) ==> !(e is FileNotFound),
        coder.encoder_method_id@ =~= crate::archive::spec_id(EncoderMethod::COPY) ==> (r matches
            Ok(v) && v@ == spec_truncated(input@, uncompressed_len as int)),
        coder.encoder_method_id@ =~= crate::archive::spec_id(EncoderMethod::DELTA_FILTER) ==> (
        r matches Ok(v) && v@ == spec_truncated(
            crate::delta::delta_decode(
                spec_delta_distance(coder.properties@),
                Seq::new(256, |i: int| 0u8),
                0,
                input@,
            ).0,
            uncompressed_len as int,
        )),
        coder.encoder_method_id@ =~= crate::archive::spec_id(EncoderMethod::BZIP2) ==> (r matches
            Ok(v) ==> v@ == spec_truncated(bzip2_decode_of(input@), uncompressed_len as int)),
        coder.encoder_method_id@ =~= crate::archive::spec_id(EncoderMethod::DEFLATE) ==> (
        r matches Ok(v) ==> v@ == spec_truncated(
            deflate_decode_of(input@),
            uncompressed_len as int,
        )),
        coder.encoder_method_id@ =~= crate::archive::spec_id(EncoderMethod::ZSTD) ==> (r matches
            Ok(v) ==> v@ == spec_truncated(zstd_decode_of(input@), uncompressed_len as int)),
        coder.encoder_method_id@ =~= crate::archive::spec_id(EncoderMethod::LZ4) ==> (r matches
            Ok(v) ==> (spec_lz4_payload(input@) matches Some(p) && v@ == spec_truncated(
            p,
            uncompressed_len as int,
        ))),
        coder.encoder_method_id@ =~= crate::archive::spec_id(EncoderMethod::AES256SHA256) ==> (
        r matches Ok(v) ==> v@ == spec_truncated(
            crate::encryption::aes_cbc_decrypt_of(
                crate::encryption::spec_aes_key(coder.properties@, password.spec_bytes()),
                crate::encryption::spec_parsed_iv(coder.properties@),
                input@,
            ),
            uncompressed_len as int,
        )),
        coder.encoder_method_id@ =~= crate::archive::spec_id(EncoderMethod::BCJ_ARM_FILTER) ==> (
        r matches Ok(v) && v@ == spec_truncated(
            crate::bcj::spec_arm_filtered(input@, 0, 8, false),
            uncompressed_len as int,
        )),
        coder.encoder_method_id@ =~= crate::archive::spec_id(
            EncoderMethod::BCJ_ARM_THUMB_FILTER,
        ) ==> (r matches Ok(v) && v@ == spec_truncated(
            crate::bcj::spec_arm_thumb_filtered(input@, 0, 4, false),
            uncompressed_len as int,
        )),
        coder.encoder_method_id@ =~= crate::archive::spec_id(EncoderMethod::BCJ_ARM64_FILTER)
            ==> (r matches Ok(v) && v@ == spec_truncated(
            crate::bcj::spec_arm64_filtered(input@, 0, 0, false),
            uncompressed_len as int,
        )),
{
    let method = match EncoderMethod::by_id(coder.encoder_method_id().as_slice()) {
        Some(m) => m,
        None => {
            proof {
                let id = coder.encoder_method_id@;
                if id =~= crate::archive::spec_id(EncoderMethod::DELTA_FILTER) {
                    assert(crate::archive::spec_registry()[20]
                        == EncoderMethod::DELTA_FILTER);
                    crate::archive::lemma_lookup_finds(id, 0);
                }
                if id =~= crate::archive::spec_id(EncoderMethod::AES256SHA256) {
                    assert(crate::archive::spec_registry()[12]
                        == EncoderMethod::AES256SHA256);
                    crate::archive::lemma_lookup_finds(id, 0);
                }
                if id =~= crate::archive::spec_id(EncoderMethod::BCJ_ARM_FILTER) {
                    assert(crate::archive::spec_registry()[16]
                        == EncoderMethod::BCJ_ARM_FILTER);
                    crate::archive::lemma_lookup_finds(id, 0);
                }
                if id =~= crate::archive::spec_id(EncoderMethod::BCJ_ARM64_FILTER) {
                    assert(crate::archive::spec_registry()[17]
                        == EncoderMethod::BCJ_ARM64_FILTER);
                    crate::archive::lemma_lookup_finds(id, 0);
                }
                if id =~= crate::archive::spec_id(EncoderMethod::BCJ_ARM_THUMB_FILTER) {
                    assert(crate::archive::spec_registry()[18]
                        == EncoderMethod::BCJ_ARM_THUMB_FILTER);
                    crate::archive::lemma_lookup_finds(id, 0);
                }
            }
            return Err(Error::UnsupportedCompressionMethod("unknown method".to_string()));
        },
    };
    proof {
        crate::archive::lemma_id_tells_method(method);
    }
    match method {
        EncoderMethod::COPY => Ok(truncate_to(input, uncompressed_len)),
        EncoderMethod::DELTA_FILTER => {
            let d: usize = if coder.properties.len() == 0 {
                1
            } else {
                coder.properties[0] as usize + 1
            };
            let mut delta = Delta::new(d);
            let mut buf = input;
            delta.decode(&mut buf);
            Ok(truncate_to(buf, uncompressed_len))
        },
        EncoderMethod::PPMD => {
            let om = get_ppmd_order_memory_size(coder, max_mem_limit_kb)?;
            let (order, memory_size) = om;
            let mut dec = match Ppmd7Decoder::new(input, order, memory_size) {
                Ok(d) => d,
                Err(_) => {
                    return Err(Error::other("cannot initialize the PPMd decoder".to_string()));
                },
            };
            match dec.read(uncompressed_len) {
                Ok(v) => Ok(v),
                Err(_) => Err(Error::io("PPMd decoding failed".to_string())),
            }
        },
        EncoderMethod::BZIP2 => {
            match bzip2_decompress(&input) {
                Ok(v) => Ok(truncate_to(v, uncompressed_len)),
                Err(_) => Err(Error::io("BZip2 decoding failed".to_string())),
            }
        },
        EncoderMethod::DEFLATE => {
            match deflate_decompress(&input) {
                Ok(v) => Ok(truncate_to(v, uncompressed_len)),
                Err(_) => Err(Error::io("Deflate decoding failed".to_string())),
            }
        },
        EncoderMethod::ZSTD => {
            match zstd_decompress(&input) {
                Ok(v) => Ok(truncate_to(v, uncompressed_len)),
                Err(_) => Err(Error::io("Zstandard decoding failed".to_string())),
            }
        },
        EncoderMethod::LZ4 => {
            let v = lz4_decode(&input)?;
            Ok(truncate_to(v, uncompressed_len))
        },
        EncoderMethod::BCJ_ARM_FILTER => {
            let mut f = BCJFilter::new_arm(0, false);
            let mut buf = input;
            f.code(&mut buf);
            Ok(truncate_to(buf, uncompressed_len))
        },
        EncoderMethod::BCJ_ARM_THUMB_FILTER => {
            let mut f = BCJFilter::new_arm_thumb(0, false);
            let mut buf = input;
            f.code(&mut buf);
            Ok(truncate_to(buf, uncompressed_len))
        },
        EncoderMethod::BCJ_ARM64_FILTER => {
            let mut f = BCJFilter::new_arm64(0, false);
            let mut buf = input;
            f.code(&mut buf);
            Ok(truncate_to(buf, uncompressed_len))
        },
        EncoderMethod::AES256SHA256 => {
            if password.is_empty() {
                return Err(Error::PasswordRequired);
            }
            let mut pw: Vec<u8> = Vec::new();
            let pws = password.as_slice();
            let mut i: usize = 0;
            while i < pws.len()
                invariant
                    pw@ =~= pws@.subrange(0, i as int),
                    i <= pws@.len(),
                    pws@ == password.spec_bytes(),
                decreases pws@.len() - i,
            {
                pw.push(pws[i]);
                proof {
                    assert(pw@ =~= pws@.subrange(0, i + 1));
                }
                i = i + 1;
            }
            proof {
                assert(pw@ =~= password.spec_bytes());
            }
            let v = aes_decrypt_buffer(&coder.properties, &pw, input)?;
            Ok(truncate_to(v, uncompressed_len))
        },
        _ => Err(Error::UnsupportedCompressionMethod(method.name().to_string())),
    }
}

/// Truncates a buffer to at most `n` bytes.
pub fn truncate_to(data: Vec<u8>, n: usize) -> (r: Vec<u8>)
    ensures
        r@.len() <= n,
        r@ =~= if data@.len() <= n {
            data@
        } else {
            data@.subrange(0, n as int)
        },
        r@ == spec_truncated(data@, n as int),
{
    if data.len() <= n {
        return data;
    }
    let mut out: Vec<u8> = Vec::new();
    let mut i: usize = 0;
    while i < n
        invariant
            out@ =~= data@.subrange(0, i as int),
            i <= n <= data@.len(),
        decreases n - i,
    {
        out.push(data[i]);
        proof {
            assert(out@ =~= data@.subrange(0, i + 1));
        }
        i = i + 1;
    }
    out
}

/// Encodes data with one coder of an encode chain.
pub fn add_encoder(data: &Vec<u8>, config: &EncoderConfiguration) -> (r: Result<Vec<u8>, Error>)
    ensures
        config.method == EncoderMethod::COPY ==> (r matches Ok(v) && v@ == data@),
        (config.method == EncoderMethod::DELTA_FILTER && (config.options matches Some(
            EncoderOptions::Delta(o),
        ) && 1 <= o.0 <= 256)) ==> (r matches Ok(v) && v@ == crate::delta::delta_encode(
            (config.options->Some_0->Delta_0).0 as int,
            Seq::new(256, |i: int| 0u8),
            0,
            data@,
        ).0),
        (config.method == EncoderMethod::DELTA_FILTER && !(config.options matches Some(
            EncoderOptions::Delta(_),
        ))) ==> (r matches Ok(v) && v@ == crate::delta::delta_encode(
            1,
            Seq::new(256, |i: int| 0u8),
            0,
            data@,
        ).0),
        config.method == EncoderMethod::BZIP2 ==> (r matches Ok(v) ==> v@ == bzip2_encode_of(
            data@,
            spec_bzip2_level(config.options),
        ) && bzip2_decode_of(v@) == data@),
        config.method == EncoderMethod::DEFLATE ==> (r matches Ok(v) ==> v@ == deflate_encode_of(
            data@,
            spec_deflate_level(config.options),
        ) && deflate_decode_of(v@) == data@),
        config.method == EncoderMethod::ZSTD ==> (r matches Ok(v) ==> v@ == zstd_encode_of(
            data@,
            spec_zstd_level(config.options),
        ) && zstd_decode_of(v@) == data@),
        (config.method == EncoderMethod::LZ4 && spec_lz4_frame_size(config.options) == 0) ==> (
        r matches Ok(v) ==> v@ == lz4_encode_of(data@) && lz4_decode_of(v@) == data@),
        (config.method == EncoderMethod::LZ4 && spec_lz4_frame_size(config.options) > 0) ==> (
        r matches Ok(v) ==> v@ == spec_lz4_chunks(
            data@,
            spec_lz4_frame_size(config.options) as int,
            0,
        )),
        config.method == EncoderMethod::BCJ_ARM_FILTER ==> (r matches Ok(v) && v@
            == crate::bcj::spec_arm_filtered(data@, 0, 8, true)),
        config.method == EncoderMethod::BCJ_ARM_THUMB_FILTER ==> (r matches Ok(v) && v@
            == crate::bcj::spec_arm_thumb_filtered(data@, 0, 4, true)),
        config.method == EncoderMethod::BCJ_ARM64_FILTER ==> (r matches Ok(v) && v@
            == crate::bcj::spec_arm64_filtered(data@, 0, 0, true)),
        (config.method == EncoderMethod::AES256SHA256 && (config.options matches Some(
            EncoderOptions::Aes(o),
        ) && o.iv@.len() == 16 && o.salt@.len() == 16) && data@.len() + 16 <= usize::MAX) ==> (
        r matches Ok(v) ==> ({
            let o = config.options->Some_0->Aes_0;
            let props = crate::encoder_options::spec_aes_properties(o);
            let padded = data@ + Seq::new(
                (((data@.len() + 15) / 16) * 16 - data@.len()) as nat,
                |i: int| 0u8,
            );
            &&& v@ == crate::encryption::aes_cbc_encrypt_of(
                crate::encryption::spec_aes_key(props, o.password.spec_bytes()),
                crate::encryption::spec_parsed_iv(props),
                padded,
            )
            &&& crate::encryption::aes_cbc_decrypt_of(
                crate::encryption::spec_aes_key(props, o.password.spec_bytes()),
                crate::encryption::spec_parsed_iv(props),
                v@,
            ) == padded
            &&& v@.len() == ((data@.len() + 15) / 16) * 16
        })),
{
    match config.method {
        EncoderMethod::COPY => {
            let mut out: Vec<u8> = Vec::new();
            let mut i: usize = 0;
            while i < data.len()
                invariant
                    out@ =~= data@.subrange(0, i as int),
                    i <= data@.len(),
                decreases data@.len() - i,
            {
                out.push(data[i]);
                proof {
                    assert(out@ =~= data@.subrange(0, i + 1));
                }
                i = i + 1;
            }
            Ok(out)
        },
        EncoderMethod::DELTA_FILTER => {
            let opts = match &config.options {
                Some(EncoderOptions::Delta(o)) => *o,
                _ => DeltaOptions::from_distance(1),
            };
            let d = opts.0 as usize;
            if d < 1 || d > 256 {
                return Err(Error::other("invalid delta distance".to_string()));
            }
            let mut delta = Delta::new(d);
            let mut buf: Vec<u8> = Vec::new();
            let mut i: usize = 0;
            while i < data.len()
                invariant
                    i <= data@.len(),
                    buf@ =~= data@.subrange(0, i as int),
                decreases data@.len() - i,
            {
                buf.push(data[i]);
                proof {
                    assert(buf@ =~= data@.subrange(0, i + 1));
                }
                i = i + 1;
            }
            proof {
                assert(buf@ =~= data@);
            }
            delta.encode(&mut buf);
            Ok(buf)
        },
        EncoderMethod::PPMD => {
            let opts = match &config.options {
                Some(EncoderOptions::PPMD(o)) => *o,
                _ => PPMDOptions::from_level(6),
            };
            let mut enc = match Ppmd7Encoder::new(opts.order, opts.memory_size) {
                Ok(e) => e,
                Err(_) => {
                    return Err(Error::other("cannot initialize the PPMd encoder".to_string()));
                },
            };
            if enc.write(data).is_err() {
                return Err(Error::io("PPMd encoding failed".to_string()));
            }
            enc.flush();
            Ok(enc.into_output())
        },
        EncoderMethod::BZIP2 => {
            let opts = match &config.options {
                Some(EncoderOptions::BZIP2(o)) => *o,
                _ => Bzip2Options::from_level(6),
            };
            let level = if opts.0 < 1 {
                1
            } else if opts.0 > 9 {
                9
            } else {
                opts.0
            };
            match bzip2_compress(data, level) {
                Ok(v) => Ok(v),
                Err(_) => Err(Error::io("BZip2 encoding failed".to_string())),
            }
        },
        EncoderMethod::DEFLATE => {
            let opts = match &config.options {
                Some(EncoderOptions::DEFLATE(o)) => *o,
                _ => DeflateOptions::from_level(6),
            };
            match deflate_compress(data, opts.0) {
                Ok(v) => Ok(v),
                Err(_) => Err(Error::io("Deflate encoding failed".to_string())),
            }
        },
        EncoderMethod::ZSTD => {
            let opts = match &config.options {
                Some(EncoderOptions::ZSTD(o)) => *o,
                _ => ZStandardOptions::from_level(3),
            };
            let level = if opts.0 > 22 {
                22
            } else {
                opts.0
            };
            match zstd_compress(data, level) {
                Ok(v) => Ok(v),
                Err(_) => Err(Error::io("Zstandard encoding failed".to_string())),
            }
        },
        EncoderMethod::LZ4 => {
            let opts = match &config.options {
                Some(EncoderOptions::LZ4(o)) => *o,
                _ => LZ4Options { skippable_frame_size: 0 },
            };
            lz4_encode(data, &opts)
        },
        EncoderMethod::BCJ_ARM_FILTER => {
            let mut f = BCJFilter::new_arm(0, true);
            let mut buf = copy_bytes(data);
            f.code(&mut buf);
            Ok(buf)
        },
        EncoderMethod::BCJ_ARM_THUMB_FILTER => {
            let mut f = BCJFilter::new_arm_thumb(0, true);
            let mut buf = copy_bytes(data);
            f.code(&mut buf);
            Ok(buf)
        },
        EncoderMethod::BCJ_ARM64_FILTER => {
            let mut f = BCJFilter::new_arm64(0, true);
            let mut buf = copy_bytes(data);
            f.code(&mut buf);
            Ok(buf)
        },
        EncoderMethod::AES256SHA256 => {
            let opts = match &config.options {
                Some(EncoderOptions::Aes(o)) => o,
                _ => {
                    return Err(Error::PasswordRequired);
                },
            };
            if opts.iv.len() != 16 || opts.salt.len() != 16 {
                return Err(Error::other("invalid AES options".to_string()));
            }
            if data.len() > usize::MAX - 16 {
                return Err(Error::other("input too large".to_string()));
            }
            aes_encrypt_buffer(opts, data)
        },
        _ => Err(Error::UnsupportedCompressionMethod(config.method.name().to_string())),
    }
}

/// The property bytes an encode chain writes into the header for one
/// method and its options: the delta distance less one; the PPMd order and
/// little-endian memory size; the full AES record; nothing for the rest.
pub fn get_options_as_properties(method: EncoderMethod, options: &Option<EncoderOptions>) -> (r:
    Vec<u8>)
    ensures
        (method == EncoderMethod::DELTA_FILTER && (options matches Some(EncoderOptions::Delta(o))
            && 1 <= o.0 <= 256)) ==> r@ =~= seq![
            ((options->Some_0->Delta_0.0 - 1) % 0x100) as u8,
        ],
        (method == EncoderMethod::DELTA_FILTER && !(options matches Some(EncoderOptions::Delta(
            _,
        )))) ==> r@ =~= seq![0u8],
        (method == EncoderMethod::PPMD && options matches Some(EncoderOptions::PPMD(o))) ==> ({
            let o = options->Some_0->PPMD_0;
            r@ =~= seq![
                (o.order % 0x100) as u8,
                (o.memory_size % 0x100) as u8,
                ((o.memory_size / 0x100) % 0x100) as u8,
                ((o.memory_size / 0x10000) % 0x100) as u8,
                (o.memory_size / 0x1000000) as u8,
            ]
        }),
        (method == EncoderMethod::AES256SHA256 && (options matches Some(EncoderOptions::Aes(o))
            && o.iv@.len() == 16 && o.salt@.len() == 16)) ==> r@
            =~= crate::encoder_options::spec_aes_properties(options->Some_0->Aes_0),
        (method != EncoderMethod::DELTA_FILTER && method != EncoderMethod::PPMD && method
            != EncoderMethod::AES256SHA256) ==> r@.len() == 0,
{
    let mut out: Vec<u8> = Vec::new();
    match method {
        EncoderMethod::DELTA_FILTER => {
            let opts = match options {
                Some(EncoderOptions::Delta(o)) => *o,
                _ => DeltaOptions::from_distance(1),
            };
            let d: u32 = if opts.0 >= 1 {
                opts.0 - 1
            } else {
                0
            };
            out.push((d % 0x100) as u8);
        },
        EncoderMethod::PPMD => {
            let opts = match options {
                Some(EncoderOptions::PPMD(o)) => *o,
                _ => PPMDOptions::from_level(6),
            };
            out.push((opts.order % 0x100) as u8);
            out.push((opts.memory_size % 0x100) as u8);
            out.push(((opts.memory_size / 0x100) % 0x100) as u8);
            out.push(((opts.memory_size / 0x10000) % 0x100) as u8);
            out.push((opts.memory_size / 0x1000000) as u8);
        },
        EncoderMethod::AES256SHA256 => {
            match options {
                Some(EncoderOptions::Aes(o)) => {
                    if o.iv.len() == 16 && o.salt.len() == 16 {
                        let props = o.properties();
                        let mut i: usize = 0;
                        while i < props.len()
                            invariant
                                i <= props@.len(),
                                out@ =~= props@.subrange(0, i as int),
                            decreases props@.len() - i,
                        {
                            out.push(props[i]);
                            proof {
                                assert(out@ =~= props@.subrange(0, i + 1));
                            }
                            i = i + 1;
                        }
                        proof {
                            assert(out@ =~= props@);
                        }
                    }
                },
                _ => {
                },
            }
        },
        _ => {
        },
    }
    out
}

} // verus!
