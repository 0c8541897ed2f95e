use vstd::prelude::*;

use crate::archive::Archive;
use crate::archive::ArchiveEntry;
use crate::archive::EncoderMethod;
use crate::archive::StartHeader;
use crate::archive::StreamMap;
use crate::archive::SubStreamsInfo;
use crate::archive::K_ANTI;
use crate::archive::K_A_TIME;
use crate::archive::K_CODERS_UNPACK_SIZE;
use crate::archive::K_CRC;
use crate::archive::K_C_TIME;
use crate::archive::K_EMPTY_FILE;
use crate::archive::K_EMPTY_STREAM;
use crate::archive::K_ENCODED_HEADER;
use crate::archive::K_END;
use crate::archive::K_FILES_INFO;
use crate::archive::K_FOLDER;
use crate::archive::K_HEADER;
use crate::archive::K_MAIN_STREAMS_INFO;
use crate::archive::K_M_TIME;
use crate::archive::K_NAME;
use crate::archive::K_NUM_UNPACK_STREAM;
use crate::archive::K_PACK_INFO;
use crate::archive::K_SIZE;
use crate::archive::K_START_POS;
use crate::archive::K_SUB_STREAMS_INFO;
use crate::archive::K_UNPACK_INFO;
use crate::archive::K_WIN_ATTRIBUTES;
use crate::archive::K_ADDITIONAL_STREAMS_INFO;
use crate::archive::K_ARCHIVE_PROPERTIES;
use crate::bitset::BitSet;
use crate::block::BindPair;
use crate::block::Block;
use crate::block::Coder;
use crate::bytes::ByteCursor;
use crate::coders::add_decoder;
use crate::coders::truncate_to;
use crate::crc32::crc32;
use crate::error::Error;
use crate::password::Password;
use crate::time::NtTime;

verus! {

/// The six signature bytes every archive starts with.
pub open spec fn spec_signature() -> Seq<u8> {
    seq![0x37u8, 0x7Au8, 0xBCu8, 0xAFu8, 0x27u8, 0x1Cu8]
}

/// A name for what String::from_utf16 decodes from UTF-16 code units: a
/// function of the units alone.
pub uninterp spec fn utf16_chars_of(units: Seq<u16>) -> Seq<char>;

/// Relies on String::from_utf16: decodes UTF-16 code units; the decoded
/// characters depend on the units alone.
#[verifier::external_body]
fn utf16_to_string(units: &Vec<u16>) -> (r: Result<String, ()>)
    ensures
        r matches Ok(s) ==> s@ == utf16_chars_of(units@),
{
    match String::from_utf16(units.as_slice()) {
        Ok(s) => Ok(s),
        Err(_) => Err(()),
    }
}

/// The memory limit the in-memory reader applies, in kibibytes.
pub const MAX_MEM_LIMIT_KB: usize = 0xFFFFFFFF;

/// Converts a parsed length to an index, rejecting what the platform
/// cannot address.
pub fn assert_usize(size: u64) -> (r: Result<usize, Error>)
    ensures
        r matches Ok(v) ==> v == size,
        r is Ok <==> size <= usize::MAX,
        r matches Err(e) ==> e is Other,
{
    if size > usize::MAX as u64 {
        return Err(Error::other("length out of range".to_string()));
    }
    Ok(size as usize)
}

/// Reads a variable-length integer and converts it to an index.
pub fn read_usize(c: &mut ByteCursor) -> (r: Result<usize, Error>)
    ensures
        final(c).data == old(c).data,
{
    let v = c.read_u64()?;
    assert_usize(v)
}

/// Reads either an all-set flag or an explicit bit field of `size`
/// positions.
pub fn read_all_or_bits(c: &mut ByteCursor, size: usize) -> (r: Result<BitSet, Error>)
    requires
        size < usize::MAX,
    ensures
        final(c).data == old(c).data,
        r matches Ok(b) ==> b.wf() && b.spec_capacity() == size,
{
    let all = c.read_u8()?;
    if all != 0 {
        let mut bits = BitSet::with_capacity(size);
        let mut i: usize = 0;
        while i < size
            invariant
                bits.wf(),
                i <= size,
                size < usize::MAX,
                bits.spec_capacity() == size,
            decreases size - i,
        {
            bits.insert(i);
            i = i + 1;
        }
        Ok(bits)
    } else {
        read_bits(c, size)
    }
}

/// Reads a bit field of `size` positions, most significant bit first.
pub fn read_bits(c: &mut ByteCursor, size: usize) -> (r: Result<BitSet, Error>)
    requires
        size < usize::MAX,
    ensures
        final(c).data == old(c).data,
        r matches Ok(b) ==> b.wf() && b.spec_capacity() == size,
{
    let mut bits = BitSet::with_capacity(size);
    let mut mask: u32 = 0;
    let mut cache: u32 = 0;
    let mut i: usize = 0;
    while i < size
        invariant
            c.data == old(c).data,
            bits.wf(),
            i <= size,
            size < usize::MAX,
            bits.spec_capacity() == size,
        decreases size - i,
    {
        if mask == 0 {
            mask = 0x80;
            cache = c.read_u8()? as u32;
        }
        if cache & mask != 0 {
            bits.insert(i);
        }
        mask = mask >> 1;
        i = i + 1;
    }
    Ok(bits)
}

/// A reader limited to a fixed number of remaining bytes.
pub struct BoundedReader {
    data: Vec<u8>,
    pos: usize,
    remain: usize,
}

impl BoundedReader {
    /// The wrapped bytes.
    pub closed spec fn spec_data(&self) -> Seq<u8> {
        self.data@
    }

    /// The read position.
    pub closed spec fn spec_pos(&self) -> int {
        self.pos as int
    }

    /// How many bytes the bound still admits.
    pub closed spec fn spec_remain(&self) -> int {
        self.remain as int
    }

    /// How many bytes one read yields: the request, the bound and the
    /// data left, whichever runs out first.
    pub open spec fn spec_take(&self, n: int) -> int {
        let avail = if self.spec_pos() <= self.spec_data().len() {
            self.spec_data().len() - self.spec_pos()
        } else {
            0
        };
        let lim = if self.spec_remain() <= avail {
            self.spec_remain()
        } else {
            avail
        };
        if n <= lim {
            n
        } else {
            lim
        }
    }

    /// Wraps `inner`, allowing at most `max_size` bytes to be read.
    pub fn new(inner: Vec<u8>, max_size: usize) -> (r: BoundedReader)
        ensures
            r.spec_data() == inner@,
            r.spec_pos() == 0,
            r.spec_remain() == max_size,
    {
        BoundedReader { data: inner, pos: 0, remain: max_size }
    }

    /// Reads up to `n` bytes, limited by the bound and the data left.
    pub fn read(&mut self, n: usize) -> (r: Vec<u8>)
        ensures
            final(self).spec_data() == old(self).spec_data(),
            r@.len() == old(self).spec_take(n as int),
            final(self).spec_pos() == old(self).spec_pos() + r@.len(),
            final(self).spec_remain() == old(self).spec_remain() - r@.len(),
            old(self).spec_pos() <= old(self).spec_data().len() ==> r@ == old(
                self,
            ).spec_data().subrange(old(self).spec_pos(), old(self).spec_pos() + r@.len()),
    {
        let mut out: Vec<u8> = Vec::new();
        let mut k: usize = 0;
        while k < n && self.remain > 0 && self.pos < self.data.len()
            invariant
                k <= n,
                self.data@ == old(self).data@,
                self.pos == old(self).pos + k,
                self.remain == old(self).remain - k,
                out@.len() == k,
                old(self).pos > self.data@.len() ==> k == 0,
                old(self).pos <= self.data@.len() ==> self.pos <= self.data@.len() && out@
                    =~= self.data@.subrange(old(self).pos as int, self.pos as int),
            decreases n - k,
        {
            out.push(self.data[self.pos]);
            self.pos = self.pos + 1;
            self.remain = self.remain - 1;
            k = k + 1;
        }
        out
    }
}

/// A reader over a window of a larger buffer, with seek support.
pub struct SeekableBoundedReader {
    data: Vec<u8>,
    cur: u64,
    bound_lo: u64,
    bound_hi: u64,
}

impl SeekableBoundedReader {
    /// The wrapped bytes.
    pub closed spec fn spec_data(&self) -> Seq<u8> {
        self.data@
    }

    /// The read position.
    pub closed spec fn spec_cur(&self) -> int {
        self.cur as int
    }

    /// The window's lower bound.
    pub closed spec fn spec_lo(&self) -> int {
        self.bound_lo as int
    }

    /// The window's upper bound.
    pub closed spec fn spec_hi(&self) -> int {
        self.bound_hi as int
    }

    /// How many bytes one read yields: the request, the window's end and
    /// the data's end, whichever comes first.
    pub open spec fn spec_take(&self, n: int) -> int {
        let stop = if self.spec_hi() <= self.spec_data().len() {
            self.spec_hi()
        } else {
            self.spec_data().len() as int
        };
        let avail = if self.spec_cur() <= stop {
            stop - self.spec_cur()
        } else {
            0
        };
        if n <= avail {
            n
        } else {
            avail
        }
    }

    /// Wraps `inner`, restricted to the byte window `bounds`.
    pub fn new(inner: Vec<u8>, bounds: (u64, u64)) -> (r: SeekableBoundedReader)
        ensures
            r.spec_data() == inner@,
            r.spec_cur() == bounds.0,
            r.spec_lo() == bounds.0,
            r.spec_hi() == bounds.1,
    {
        SeekableBoundedReader { data: inner, cur: bounds.0, bound_lo: bounds.0, bound_hi: bounds.1 }
    }

    /// Seeks to an absolute offset, clamped to the window's end.
    pub fn seek(&mut self, pos: u64) -> (r: u64)
        ensures
            final(self).spec_data() == old(self).spec_data(),
            final(self).spec_lo() == old(self).spec_lo(),
            final(self).spec_hi() == old(self).spec_hi(),
            final(self).spec_cur() == if pos > old(self).spec_hi() {
                old(self).spec_hi()
            } else {
                pos as int
            },
            r == final(self).spec_cur(),
    {
        let np = if pos > self.bound_hi {
            self.bound_hi
        } else {
            pos
        };
        self.cur = np;
        np
    }

    /// Reads up to `n` bytes from the current position.
    pub fn read(&mut self, n: usize) -> (r: Vec<u8>)
        ensures
            final(self).spec_data() == old(self).spec_data(),
            final(self).spec_lo() == old(self).spec_lo(),
            final(self).spec_hi() == old(self).spec_hi(),
            r@.len() == old(self).spec_take(n as int),
            final(self).spec_cur() == old(self).spec_cur() + r@.len(),
            old(self).spec_cur() <= old(self).spec_data().len() ==> r@ == old(
                self,
            ).spec_data().subrange(old(self).spec_cur(), old(self).spec_cur() + r@.len()),
    {
        let mut out: Vec<u8> = Vec::new();
        let mut k: usize = 0;
        while k < n && self.cur < self.bound_hi && self.cur < self.data.len() as u64
            invariant
                k <= n,
                self.data@ == old(self).data@,
                self.bound_lo == old(self).bound_lo,
                self.bound_hi == old(self).bound_hi,
                self.cur == old(self).cur + k,
                out@.len() == k,
                old(self).cur > self.data@.len() ==> k == 0,
                old(self).cur <= self.data@.len() ==> self.cur <= self.data@.len() && out@
                    =~= self.data@.subrange(old(self).cur as int, self.cur as int),
                old(self).cur > old(self).bound_hi ==> k == 0,
                old(self).cur <= old(self).bound_hi ==> self.cur <= old(self).bound_hi,
            decreases n - k,
        {
            out.push(self.data[self.cur as usize]);
            self.cur = self.cur + 1;
            k = k + 1;
        }
        out
    }
}

/// The stream map's tables cover the archive's blocks, pack streams and
/// files, one entry each.
pub open spec fn spec_map_consistent(a: &Archive) -> bool {
    &&& a.stream_map.block_first_pack_stream_index@.len() == a.blocks@.len()
    &&& a.stream_map.block_first_file_index@.len() == a.blocks@.len()
    &&& a.stream_map.pack_stream_offsets@.len() == a.pack_sizes@.len()
    &&& a.stream_map.file_block_index@.len() == a.files@.len()
}

impl Archive {
    /// Parses a whole archive image: signature, version, start header,
    /// then the main header, decoding an encoded header through its inner
    /// pipeline when one is present.
    pub fn read(data: &Vec<u8>, password: &Password) -> (r: Result<Archive, Error>)
        ensures
            data@.len() < 32 ==> r is Err,
            r is Ok ==> data@.len() >= 32 && data@.subrange(0, 6) =~= spec_signature()
                && data@[6] == 0,
            r matches Ok(a) ==> ({
                &&& forall|i: int|
                    0 <= i < a.blocks@.len() ==> crate::block::block_wf(&a.blocks@[i])
                &&& (a.is_solid <==> exists|i: int|
                    0 <= i < a.blocks@.len() && a.blocks@[i].num_unpack_sub_streams > 1)
            }),
            (data@.len() >= 32 && data@.subrange(0, 6) =~= spec_signature() && data@[6] == 0
                && crate::bytes::le_value(data@, 8, 4) == 0 && (forall|k: int|
                12 <= k < 32 ==> data@[k] == 0)) ==> ({
                &&& (r matches Ok(a) ==> a.files@.len() > 0)
                &&& (r matches Err(e) ==> e is Other)
            }),
    {
        if data.len() < 32 {
            return Err(Error::other("file too short for an archive".to_string()));
        }
        let sig_ok = data[0] == 0x37 && data[1] == 0x7A && data[2] == 0xBC && data[3] == 0xAF
            && data[4] == 0x27 && data[5] == 0x1C;
        if !sig_ok {
            let sig: [u8; 6] = [data[0], data[1], data[2], data[3], data[4], data[5]];
            return Err(Error::BadSignature(sig));
        }
        proof {
            assert(data@.subrange(0, 6) =~= spec_signature());
        }
        let version_major = data[6];
        let version_minor = data[7];
        if version_major != 0 {
            return Err(
                Error::UnsupportedVersion { major: version_major, minor: version_minor },
            );
        }
        let mut c = ByteCursor::new_at(copy_all(data), 8);
        let start_header_crc = c.read_u32()?;
        let mut header_valid = true;
        if start_header_crc == 0 {
            let mut all_zero = true;
            let mut k: usize = 12;
            while k < 32
                invariant
                    12 <= k <= 32,
                    data@.len() >= 32,
                    all_zero <==> (forall|q: int| 12 <= q < k ==> data@[q] == 0),
                decreases 32 - k,
            {
                if data[k] != 0 {
                    all_zero = false;
                }
                k = k + 1;
            }
            header_valid = !all_zero;
        }
        if header_valid {
            let start_header = Self::read_start_header(&mut c, start_header_crc)?;
            Self::init_archive(data, &start_header, password, true)
        } else {
            Self::try_to_locale_end_header(data, password)
        }
    }

    /// Reads and checksum-verifies the twelve-byte start header.
    fn read_start_header(c: &mut ByteCursor, start_header_crc: u32) -> (r: Result<
        StartHeader,
        Error,
    >)
    {
        let buf = c.read_bytes(20)?;
        let crc = crc32(buf.as_slice());
        if crc != start_header_crc {
            return Err(Error::ChecksumVerificationFailed);
        }
        let mut bc = ByteCursor::new(buf);
        let offset = bc.read_u64le()?;
        let size = bc.read_u64le()?;
        let crc2 = bc.read_u32()?;
        Ok(
            StartHeader {
                next_header_offset: offset,
                next_header_size: size,
                next_header_crc: crc2 as u64,
            },
        )
    }

    /// Scans backwards from the end of the image for a header tag, as the
    /// format's recovery path when the start header slot is zeroed.
    fn try_to_locale_end_header(data: &Vec<u8>, password: &Password) -> (r: Result<Archive, Error>)
        requires
            data@.len() >= 32,
        ensures
            r matches Ok(a) ==> ({
                &&& forall|i: int|
                    0 <= i < a.blocks@.len() ==> crate::block::block_wf(&a.blocks@[i])
                &&& (a.is_solid <==> exists|i: int|
                    0 <= i < a.blocks@.len() && a.blocks@[i].num_unpack_sub_streams > 1)
            }),
            r matches Ok(a) ==> a.files@.len() > 0,
            r matches Err(e) ==> e is Other,
    {
        let reader_len = data.len() as u64;
        let search_limit: u64 = 1048576;
        let min_pos: u64 = if 32 + search_limit > reader_len {
            32
        } else {
            reader_len - search_limit
        };
        let mut pos: u64 = reader_len - 1;
        while pos > min_pos
            invariant
                min_pos >= 32,
                pos <= data@.len(),
                data@.len() >= 32,
                reader_len == data@.len(),
            decreases pos,
        {
            pos = pos - 1;
            let nid = data[pos as usize];
            if nid == K_ENCODED_HEADER || nid == K_HEADER {
                if pos >= 32 {
                    let start_header = StartHeader {
                        next_header_offset: pos - 32,
                        next_header_size: reader_len - pos,
                        next_header_crc: 0,
                    };
                    let result = Self::init_archive(data, &start_header, password, false);
                    match result {
                        Ok(archive) => {
                            if archive.files.len() > 0 {
                                return Ok(archive);
                            }
                        },
                        Err(_) => {
                        },
                    }
                }
            }
        }
        Err(Error::other("Start header corrupt and unable to guess end header".to_string()))
    }

    /// Locates the main header region, verifies it, decodes it through an
    /// inner pipeline when it is an encoded header, and parses it.
    fn init_archive(
        data: &Vec<u8>,
        start_header: &StartHeader,
        password: &Password,
        verify_crc: bool,
    ) -> (r: Result<Archive, Error>)
        ensures
            r matches Ok(a) ==> ({
                &&& forall|i: int|
                    0 <= i < a.blocks@.len() ==> crate::block::block_wf(&a.blocks@[i])
                &&& (a.is_solid <==> exists|i: int|
                    0 <= i < a.blocks@.len() && a.blocks@[i].num_unpack_sub_streams > 1)
            }),
    {
        let next_header_size = assert_usize(start_header.next_header_size)?;
        if start_header.next_header_offset > u64::MAX - 32 {
            return Err(Error::other("header offset out of range".to_string()));
        }
        let header_start = 32 + start_header.next_header_offset;
        if header_start > data.len() as u64 || next_header_size as u64 > data.len() as u64
            - header_start {
            return Err(Error::other("header region out of range".to_string()));
        }
        let hs = header_start as usize;
        let hend = hs + next_header_size;
        let mut buf: Vec<u8> = Vec::new();
        let mut k: usize = hs;
        while k < hend
            invariant
                hs <= k <= hend,
                hend <= data@.len(),
            decreases hend - k,
        {
            buf.push(data[k]);
            k = k + 1;
        }
        if verify_crc {
            let crc = crc32(buf.as_slice());
            if crc as u64 != start_header.next_header_crc {
                return Err(Error::NextHeaderCrcMismatch);
            }
        }
        let mut archive = Archive::new_empty();
        let mut c = ByteCursor::new(buf);
        let mut nid = c.read_u8()?;
        if nid == K_ENCODED_HEADER {
            let decoded = Self::read_encoded_header(&mut c, data, &mut archive, password)?;
            archive = Archive::new_empty();
            c = ByteCursor::new(decoded);
            nid = c.read_u8()?;
        }
        if nid != K_HEADER {
            return Err(Error::other("Broken or unsupported archive: no Header".to_string()));
        }
        Self::read_header(&mut c, &mut archive)?;
        let ghost blocks_done = archive.blocks@;
        let mut is_solid = false;
        let mut b: usize = 0;
        while b < archive.blocks.len()
            invariant
                b <= archive.blocks@.len(),
                archive.blocks@ == blocks_done,
                forall|i: int|
                    0 <= i < archive.blocks@.len() ==> crate::block::block_wf(
                        &archive.blocks@[i],
                    ),
                is_solid <==> exists|i: int|
                    0 <= i < b && archive.blocks@[i].num_unpack_sub_streams > 1,
            decreases archive.blocks@.len() - b,
        {
            if archive.blocks[b].num_unpack_sub_streams > 1 {
                is_solid = true;
            }
            b = b + 1;
        }
        proof {
            assert(b == archive.blocks@.len());
            assert(is_solid <==> exists|i: int|
                0 <= i < archive.blocks@.len() && archive.blocks@[i].num_unpack_sub_streams
                    > 1);
        }
        archive.is_solid = is_solid;
        proof {
            assert(archive.blocks@ == blocks_done);
            assert(archive.is_solid == is_solid);
            assert(archive.is_solid <==> exists|i: int|
                0 <= i < archive.blocks@.len() && archive.blocks@[i].num_unpack_sub_streams
                    > 1);
            assert(forall|i: int|
                0 <= i < archive.blocks@.len() ==> crate::block::block_wf(
                    &archive.blocks@[i],
                ));
        }
        Ok(archive)
    }

    /// Parses the streams info of an encoded header and decodes the
    /// header bytes through that one block's pipeline.
    fn read_encoded_header(
        c: &mut ByteCursor,
        data: &Vec<u8>,
        archive: &mut Archive,
        password: &Password,
    ) -> (r: Result<Vec<u8>, Error>)
    {
        Self::read_streams_info(c, archive)?;
        if archive.blocks.len() == 0 {
            return Err(Error::other("no blocks, can't read encoded header".to_string()));
        }
        if archive.pack_sizes.len() == 0 {
            return Err(Error::other("no packed streams, can't read encoded header".to_string()));
        }
        let unpack_size = assert_usize(archive.blocks[0].get_unpack_size())?;
        let pack_size = assert_usize(archive.pack_sizes[0])?;
        if archive.pack_pos > u64::MAX - 32 {
            return Err(Error::other("pack region out of range".to_string()));
        }
        let block_offset = 32 + archive.pack_pos;
        if block_offset > data.len() as u64 || pack_size as u64 > data.len() as u64
            - block_offset {
            return Err(Error::other("pack region out of range".to_string()));
        }
        let bo = block_offset as usize;
        let bend = bo + pack_size;
        let mut packed: Vec<u8> = Vec::new();
        let mut k: usize = bo;
        while k < bend
            invariant
                bo <= k <= bend,
                bend <= data@.len(),
            decreases bend - k,
        {
            packed.push(data[k]);
            k = k + 1;
        }
        let decoded = decode_coder_chain(packed, &archive.blocks[0], unpack_size, password)?;
        if archive.blocks[0].has_crc {
            let crc = crc32(decoded.as_slice());
            if crc as u64 != archive.blocks[0].crc {
                return Err(Error::ChecksumVerificationFailed);
            }
        }
        Ok(decoded)
    }

    /// Parses the main header sections: optional archive properties, the
    /// main streams info and the files info, terminated by the end tag.
    pub fn read_header(c: &mut ByteCursor, archive: &mut Archive) -> (r: Result<(), Error>)
        ensures
            (old(archive).blocks@.len() == 0 && r is Ok) ==> forall|i: int|
                0 <= i < final(archive).blocks@.len() ==> crate::block::block_wf(
                    &final(archive).blocks@[i],
                ),
    {
        let mut nid = c.read_u8()?;
        if nid == K_ARCHIVE_PROPERTIES {
            Self::read_archive_properties(c)?;
            nid = c.read_u8()?;
        }
        if nid == K_ADDITIONAL_STREAMS_INFO {
            return Err(Error::other("Additional streams unsupported".to_string()));
        }
        if nid == K_MAIN_STREAMS_INFO {
            Self::read_streams_info(c, archive)?;
            nid = c.read_u8()?;
        }
        if nid == K_FILES_INFO {
            Self::read_files_info(c, archive)?;
            nid = c.read_u8()?;
        }
        if nid != K_END {
            return Err(Error::BadTerminatedHeader(nid));
        }
        Ok(())
    }

    /// Skips the archive-properties records.
    fn read_archive_properties(c: &mut ByteCursor) -> (r: Result<(), Error>)
    {
        let mut nid = c.read_u8()?;
        let mut guard: u32 = 0;
        while nid != K_END
            invariant
                guard <= 0x10000,
            decreases 0x10000 - guard,
        {
            if guard >= 0x10000 {
                return Err(Error::other("archive properties too long".to_string()));
            }
            guard = guard + 1;
            let property_size = read_usize(c)?;
            c.skip(property_size)?;
            nid = c.read_u8()?;
        }
        Ok(())
    }

    /// Parses a streams-info record: pack info, unpack info and substream
    /// info, each optional, terminated by the end tag.
    pub fn read_streams_info(c: &mut ByteCursor, archive: &mut Archive) -> (r: Result<(), Error>)
        ensures
            r is Ok ==> forall|i: int|
                0 <= i < final(archive).blocks@.len() ==> crate::block::block_wf(
                    &final(archive).blocks@[i],
                ),
            final(archive).files@ == old(archive).files@,
    {
        let mut nid = c.read_u8()?;
        if nid == K_PACK_INFO {
            Self::read_pack_info(c, archive)?;
            nid = c.read_u8()?;
        }
        if nid == K_UNPACK_INFO {
            Self::read_unpack_info(c, archive)?;
            nid = c.read_u8()?;
        } else {
            archive.blocks = Vec::new();
        }
        if nid == K_SUB_STREAMS_INFO {
            Self::read_sub_streams_info(c, archive)?;
            nid = c.read_u8()?;
        }
        if nid != K_END {
            return Err(Error::BadTerminatedStreamsInfo(nid));
        }
        Ok(())
    }

    /// Parses the pack info: the pack position, the pack sizes and the
    /// optional pack checksums.
    pub fn read_pack_info(c: &mut ByteCursor, archive: &mut Archive) -> (r: Result<(), Error>)
        ensures
            final(archive).blocks@ == old(archive).blocks@,
            final(archive).files@ == old(archive).files@,
    {
        archive.pack_pos = c.read_u64()?;
        let num_pack_streams = read_usize(c)?;
        if num_pack_streams >= 0x10000000 {
            return Err(Error::other("too many pack streams".to_string()));
        }
        let mut nid = c.read_u8()?;
        if nid == K_SIZE {
            let mut sizes: Vec<u64> = Vec::new();
            let mut i: usize = 0;
            while i < num_pack_streams
                invariant
                    sizes@.len() == i <= num_pack_streams,
                    archive.blocks@ == old(archive).blocks@,
                    archive.files@ == old(archive).files@,
                decreases num_pack_streams - i,
            {
                sizes.push(c.read_u64()?);
                i = i + 1;
            }
            archive.pack_sizes = sizes;
            nid = c.read_u8()?;
        }
        if nid == K_CRC {
            archive.pack_crcs_defined = read_all_or_bits(c, num_pack_streams)?;
            let mut crcs: Vec<u64> = Vec::new();
            let mut i: usize = 0;
            while i < num_pack_streams
                invariant
                    crcs@.len() == i <= num_pack_streams,
                    archive.pack_crcs_defined.wf(),
                    archive.blocks@ == old(archive).blocks@,
                    archive.files@ == old(archive).files@,
                decreases num_pack_streams - i,
            {
                if archive.pack_crcs_defined.contains(i) {
                    crcs.push(c.read_u32()? as u64);
                } else {
                    crcs.push(0);
                }
                i = i + 1;
            }
            archive.pack_crcs = crcs;
            nid = c.read_u8()?;
        }
        if nid != K_END {
            return Err(Error::BadTerminatedPackInfo(nid));
        }
        Ok(())
    }

    /// Parses the unpack info: the blocks, their per-output sizes and
    /// their optional checksums.
    pub fn read_unpack_info(c: &mut ByteCursor, archive: &mut Archive) -> (r: Result<(), Error>)
        ensures
            r is Ok ==> forall|i: int|
                0 <= i < final(archive).blocks@.len() ==> crate::block::block_wf(
                    &final(archive).blocks@[i],
                ),
            final(archive).files@ == old(archive).files@,
            r is Err ==> final(archive).blocks@ == old(archive).blocks@,
    {
        let nid = c.read_u8()?;
        if nid != K_FOLDER {
            return Err(Error::other("Expected kFolder".to_string()));
        }
        let num_blocks = read_usize(c)?;
        if num_blocks >= 0x1000000 {
            return Err(Error::other("too many blocks".to_string()));
        }
        let external = c.read_u8()?;
        if external != 0 {
            return Err(Error::ExternalUnsupported);
        }
        let mut blocks: Vec<Block> = Vec::new();
        let mut i: usize = 0;
        while i < num_blocks
            invariant
                blocks@.len() == i <= num_blocks,
                forall|j: int| 0 <= j < i ==> crate::block::block_wf(&blocks@[j]),
                archive.blocks@ == old(archive).blocks@,
                archive.files@ == old(archive).files@,
            decreases num_blocks - i,
        {
            blocks.push(Self::read_block(c)?);
            i = i + 1;
        }
        let nid2 = c.read_u8()?;
        if nid2 != K_CODERS_UNPACK_SIZE {
            return Err(Error::other("Expected kCodersUnpackSize".to_string()));
        }
        let mut b: usize = 0;
        while b < blocks.len()
            invariant
                b <= blocks@.len(),
                blocks@.len() == num_blocks,
                forall|j: int| 0 <= j < blocks@.len() ==> crate::block::block_wf(&blocks@[j]),
                archive.blocks@ == old(archive).blocks@,
                archive.files@ == old(archive).files@,
            decreases blocks@.len() - b,
        {
            let tos = blocks[b].total_output_streams;
            if tos >= 0x10000000 {
                return Err(Error::other("too many output streams".to_string()));
            }
            let mut sizes: Vec<u64> = Vec::new();
            let mut t: usize = 0;
            while t < tos
                invariant
                    sizes@.len() == t <= tos,
                decreases tos - t,
            {
                sizes.push(c.read_u64()?);
                t = t + 1;
            }
            let mut blk = blocks[b].duplicate();
            blk.unpack_sizes = sizes;
            blocks.set(b, blk);
            b = b + 1;
        }
        let mut nid3 = c.read_u8()?;
        if nid3 == K_CRC {
            let crcs_defined = read_all_or_bits(c, num_blocks)?;
            let mut j: usize = 0;
            while j < blocks.len()
                invariant
                    j <= blocks@.len(),
                    blocks@.len() == num_blocks,
                    crcs_defined.wf(),
                    forall|q: int| 0 <= q < blocks@.len() ==> crate::block::block_wf(&blocks@[q]),
                    archive.blocks@ == old(archive).blocks@,
                    archive.files@ == old(archive).files@,
                decreases blocks@.len() - j,
            {
                let mut blk = blocks[j].duplicate();
                if crcs_defined.contains(j) {
                    blk.has_crc = true;
                    blk.crc = c.read_u32()? as u64;
                } else {
                    blk.has_crc = false;
                }
                blocks.set(j, blk);
                j = j + 1;
            }
            nid3 = c.read_u8()?;
        }
        if nid3 != K_END {
            return Err(Error::BadTerminatedUnpackInfo);
        }
        archive.blocks = blocks;
        Ok(())
    }

    /// Parses one block: its coders, the bind pairs wiring them, and its
    /// packed stream indices. A parsed block satisfies the count
    /// invariant: the packed streams number the total inputs less the
    /// bind pairs, and the bind pairs number the outputs less one.
    pub fn read_block(c: &mut ByteCursor) -> (r: Result<Block, Error>)
        ensures
            r matches Ok(b) ==> crate::block::block_wf(&b),
    {
        let num_coders = read_usize(c)?;
        if num_coders == 0 || num_coders >= 64 {
            return Err(Error::other("unsupported number of coders".to_string()));
        }
        let mut coders: Vec<Coder> = Vec::new();
        let mut total_in_streams: u64 = 0;
        let mut total_out_streams: u64 = 0;
        let mut i: usize = 0;
        while i < num_coders
            invariant
                coders@.len() == i <= num_coders,
                num_coders < 64,
                total_in_streams <= i * 0x100000000,
                total_out_streams <= i * 0x100000000,
            decreases num_coders - i,
        {
            let bits = c.read_u8()?;
            let id_size = (bits & 0xF) as usize;
            let is_simple = bits & 0x10 == 0;
            let has_attributes = bits & 0x20 != 0;
            let more_alternative_methods = bits & 0x80 != 0;
            proof {
                assert(forall|x: u8| (x & 0xF) <= 15) by (bit_vector);
            }
            let id = c.read_bytes(id_size)?;
            let mut coder = Coder::new_default();
            coder.encoder_method_id = id;
            if !is_simple {
                let n_in = c.read_u64()?;
                let n_out = c.read_u64()?;
                if n_in > 0xFFFFFFFF || n_out > 0xFFFFFFFF {
                    return Err(Error::other("stream counts out of range".to_string()));
                }
                coder.num_in_streams = n_in;
                coder.num_out_streams = n_out;
            }
            total_in_streams = total_in_streams + coder.num_in_streams;
            total_out_streams = total_out_streams + coder.num_out_streams;
            if has_attributes {
                let properties_size = read_usize(c)?;
                let props = c.read_bytes(properties_size)?;
                coder.properties = props;
            }
            coders.push(coder);
            if more_alternative_methods {
                return Err(Error::other("Alternative methods are unsupported".to_string()));
            }
            i = i + 1;
        }
        let total_in = assert_usize(total_in_streams)?;
        let total_out = assert_usize(total_out_streams)?;
        if total_out == 0 {
            return Err(Error::other("Total output streams can't be 0".to_string()));
        }
        let num_bind_pairs = total_out - 1;
        let mut bind_pairs: Vec<BindPair> = Vec::new();
        let mut bp: usize = 0;
        while bp < num_bind_pairs
            invariant
                bind_pairs@.len() == bp <= num_bind_pairs,
            decreases num_bind_pairs - bp,
        {
            let in_index = c.read_u64()?;
            let out_index = c.read_u64()?;
            bind_pairs.push(BindPair { in_index, out_index });
            bp = bp + 1;
        }
        if total_in < num_bind_pairs {
            return Err(
                Error::other(
                    "Total input streams can't be less than the number of bind pairs".to_string(),
                ),
            );
        }
        let num_packed_streams = total_in - num_bind_pairs;
        let mut packed_streams: Vec<u64> = Vec::new();
        let mut block = Block::new_default();
        block.coders = coders;
        block.bind_pairs = bind_pairs;
        if num_packed_streams == 1 {
            let mut index: u64 = u64::MAX;
            let mut s: usize = 0;
            while s < total_in
                invariant
                    s <= total_in,
            decreases total_in - s,
            {
                if block.find_bind_pair_for_in_stream(s).is_none() {
                    index = s as u64;
                    break ;
                }
                s = s + 1;
            }
            if index == u64::MAX {
                return Err(Error::other("Couldn't find stream's bind pair index".to_string()));
            }
            packed_streams.push(index);
        } else {
            let mut p: usize = 0;
            while p < num_packed_streams
                invariant
                    packed_streams@.len() == p <= num_packed_streams,
                decreases num_packed_streams - p,
            {
                packed_streams.push(c.read_u64()?);
                p = p + 1;
            }
        }
        block.packed_streams = packed_streams;
        block.total_input_streams = total_in;
        block.total_output_streams = total_out;
        Ok(block)
    }

    /// Parses the substreams info: how many files each block produces,
    /// their sizes and their checksums.
    pub fn read_sub_streams_info(c: &mut ByteCursor, archive: &mut Archive) -> (r: Result<
        (),
        Error,
    >)
        ensures
            final(archive).files@ == old(archive).files@,
            final(archive).blocks@.len() == old(archive).blocks@.len(),
            forall|i: int|
                0 <= i < final(archive).blocks@.len() ==> (crate::block::block_wf(
                    &old(archive).blocks@[i],
                ) ==> crate::block::block_wf(&final(archive).blocks@[i])),
    {
        let nblocks = archive.blocks.len();
        if nblocks >= 0x10000 {
            return Err(Error::other("too many blocks".to_string()));
        }
        let mut num_sub_streams: Vec<usize> = Vec::new();
        let mut total_unpack_streams: usize = 0;
        let mut nid = c.read_u8()?;
        if nid == K_NUM_UNPACK_STREAM {
            let mut b: usize = 0;
            total_unpack_streams = 0;
            while b < nblocks
                invariant
                    num_sub_streams@.len() == b,
                    b <= nblocks,
                    nblocks < 0x10000,
                    total_unpack_streams <= b * 0x8000,
                    archive.files@ == old(archive).files@,
                    archive.blocks@.len() == old(archive).blocks@.len(),
                    forall|q2: int|
                        0 <= q2 < archive.blocks@.len() ==> (crate::block::block_wf(
                            &old(archive).blocks@[q2],
                        ) ==> crate::block::block_wf(&archive.blocks@[q2])),
                decreases nblocks - b,
            {
                let ns = read_usize(c)?;
                if ns >= 0x8000 {
                    return Err(Error::other("too many substreams".to_string()));
                }
                num_sub_streams.push(ns);
                total_unpack_streams = total_unpack_streams + ns;
                b = b + 1;
            }
            nid = c.read_u8()?;
        } else {
            let mut b: usize = 0;
            while b < nblocks
                invariant
                    num_sub_streams@.len() == b,
                    b <= nblocks,
                    nblocks < 0x10000,
                    total_unpack_streams == b,
                    archive.files@ == old(archive).files@,
                    archive.blocks@.len() == old(archive).blocks@.len(),
                    forall|q2: int|
                        0 <= q2 < archive.blocks@.len() ==> (crate::block::block_wf(
                            &old(archive).blocks@[q2],
                        ) ==> crate::block::block_wf(&archive.blocks@[q2])),
                decreases nblocks - b,
            {
                num_sub_streams.push(1);
                total_unpack_streams = total_unpack_streams + 1;
                b = b + 1;
            }
        }
        let mut blocks2: Vec<Block> = Vec::new();
        let mut t: usize = 0;
        while t < nblocks
            invariant
                t <= nblocks,
                num_sub_streams@.len() == nblocks,
                archive.blocks@.len() == nblocks,
                blocks2@.len() == t,
                archive.files@ == old(archive).files@,
                archive.blocks@.len() == old(archive).blocks@.len(),
                forall|q2: int|
                    0 <= q2 < archive.blocks@.len() ==> (crate::block::block_wf(
                        &old(archive).blocks@[q2],
                    ) ==> crate::block::block_wf(&archive.blocks@[q2])),
                forall|q3: int|
                    0 <= q3 < t ==> (crate::block::block_wf(&old(archive).blocks@[q3])
                        ==> crate::block::block_wf(&blocks2@[q3])),
            decreases nblocks - t,
        {
            let mut blk = archive.blocks[t].duplicate();
            blk.num_unpack_sub_streams = num_sub_streams[t];
            blocks2.push(blk);
            t = t + 1;
        }
        archive.blocks = blocks2;
        let mut unpack_sizes: Vec<u64> = Vec::new();
        let mut has_crc = BitSet::with_capacity(total_unpack_streams);
        let mut crcs: Vec<u64> = Vec::new();
        let mut z: usize = 0;
        while z < total_unpack_streams
            invariant
                crcs@.len() == z <= total_unpack_streams,
                archive.files@ == old(archive).files@,
                archive.blocks@.len() == old(archive).blocks@.len(),
                forall|q2: int|
                    0 <= q2 < archive.blocks@.len() ==> (crate::block::block_wf(
                        &old(archive).blocks@[q2],
                    ) ==> crate::block::block_wf(&archive.blocks@[q2])),
            decreases total_unpack_streams - z,
        {
            crcs.push(0);
            z = z + 1;
        }
        let mut bi: usize = 0;
        while bi < nblocks
            invariant
                bi <= nblocks,
                archive.blocks@.len() == nblocks,
                archive.files@ == old(archive).files@,
                archive.blocks@.len() == old(archive).blocks@.len(),
                forall|q2: int|
                    0 <= q2 < archive.blocks@.len() ==> (crate::block::block_wf(
                        &old(archive).blocks@[q2],
                    ) ==> crate::block::block_wf(&archive.blocks@[q2])),
            decreases nblocks - bi,
        {
            let nss = archive.blocks[bi].num_unpack_sub_streams;
            if nss == 0 {
                bi = bi + 1;
                continue ;
            }
            let mut sum: u64 = 0;
            if nid == K_SIZE {
                let mut q: usize = 0;
                while q < nss - 1
                    invariant
                        q <= nss - 1,
                        archive.files@ == old(archive).files@,
                        archive.blocks@.len() == old(archive).blocks@.len(),
                        forall|q2: int|
                            0 <= q2 < archive.blocks@.len() ==> (crate::block::block_wf(
                                &old(archive).blocks@[q2],
                            ) ==> crate::block::block_wf(&archive.blocks@[q2])),
                    decreases nss - 1 - q,
                {
                    let size = c.read_u64()?;
                    unpack_sizes.push(size);
                    sum = sum.wrapping_add(size);
                    q = q + 1;
                }
            }
            let total = archive.blocks[bi].get_unpack_size();
            if sum > total {
                return Err(
                    Error::other(
                        "sum of unpack sizes of block exceeds total unpack size".to_string(),
                    ),
                );
            }
            unpack_sizes.push(total - sum);
            bi = bi + 1;
        }
        if nid == K_SIZE {
            nid = c.read_u8()?;
        }
        let mut num_digests: usize = 0;
        let mut di: usize = 0;
        while di < nblocks
            invariant
                di <= nblocks,
                archive.blocks@.len() == nblocks,
                nblocks < 0x10000,
                num_digests <= di * 0x8000,
                di <= 0x10000,
                archive.files@ == old(archive).files@,
                archive.blocks@.len() == old(archive).blocks@.len(),
                forall|q2: int|
                    0 <= q2 < archive.blocks@.len() ==> (crate::block::block_wf(
                        &old(archive).blocks@[q2],
                    ) ==> crate::block::block_wf(&archive.blocks@[q2])),
            decreases nblocks - di,
        {
            let blk_nss = archive.blocks[di].num_unpack_sub_streams;
            if blk_nss >= 0x8000 {
                return Err(Error::other("too many substreams".to_string()));
            }
            if blk_nss != 1 || !archive.blocks[di].has_crc {
                num_digests = num_digests + blk_nss;
            }
            di = di + 1;
        }
        if nid == K_CRC {
            if num_digests >= usize::MAX {
                return Err(Error::other("too many digests".to_string()));
            }
            let has_missing_crc = read_all_or_bits(c, num_digests)?;
            let mut missing_crcs: Vec<u64> = Vec::new();
            let mut m: usize = 0;
            while m < num_digests
                invariant
                    missing_crcs@.len() == m <= num_digests,
                    has_missing_crc.wf(),
                    archive.files@ == old(archive).files@,
                    archive.blocks@.len() == old(archive).blocks@.len(),
                    forall|q2: int|
                        0 <= q2 < archive.blocks@.len() ==> (crate::block::block_wf(
                            &old(archive).blocks@[q2],
                        ) ==> crate::block::block_wf(&archive.blocks@[q2])),
                decreases num_digests - m,
            {
                if has_missing_crc.contains(m) {
                    missing_crcs.push(c.read_u32()? as u64);
                } else {
                    missing_crcs.push(0);
                }
                m = m + 1;
            }
            let mut next_crc: usize = 0;
            let mut next_missing_crc: usize = 0;
            let mut bj: usize = 0;
            while bj < nblocks
                invariant
                    bj <= nblocks,
                    archive.blocks@.len() == nblocks,
                    has_crc.wf(),
                    has_missing_crc.wf(),
                    crcs@.len() == total_unpack_streams,
                    archive.files@ == old(archive).files@,
                    archive.blocks@.len() == old(archive).blocks@.len(),
                    forall|q2: int|
                        0 <= q2 < archive.blocks@.len() ==> (crate::block::block_wf(
                            &old(archive).blocks@[q2],
                        ) ==> crate::block::block_wf(&archive.blocks@[q2])),
                decreases nblocks - bj,
            {
                let blk_nss = archive.blocks[bj].num_unpack_sub_streams;
                if blk_nss == 1 && archive.blocks[bj].has_crc {
                    if next_crc < usize::MAX {
                        has_crc.insert(next_crc);
                    }
                    if next_crc < crcs.len() {
                        let cv = archive.blocks[bj].crc;
                        crcs.set(next_crc, cv);
                    }
                    if next_crc < usize::MAX {
                        next_crc = next_crc + 1;
                    }
                } else {
                    let mut w: usize = 0;
                    while w < blk_nss
                        invariant
                            w <= blk_nss,
                            has_crc.wf(),
                            has_missing_crc.wf(),
                            crcs@.len() == total_unpack_streams,
                        decreases blk_nss - w,
                    {
                        if next_missing_crc < missing_crcs.len() {
                            if has_missing_crc.contains(next_missing_crc) {
                                if next_crc < usize::MAX {
                                    has_crc.insert(next_crc);
                                }
                            } else {
                                has_crc.remove(next_crc);
                            }
                            if next_crc < crcs.len() {
                                let mv = missing_crcs[next_missing_crc];
                                crcs.set(next_crc, mv);
                            }
                            if next_crc < usize::MAX {
                                next_crc = next_crc + 1;
                            }
                            if next_missing_crc < usize::MAX {
                                next_missing_crc = next_missing_crc + 1;
                            }
                        }
                        w = w + 1;
                    }
                }
                bj = bj + 1;
            }
            nid = c.read_u8()?;
        }
        if nid != K_END {
            return Err(Error::BadTerminatedSubStreamsInfo);
        }
        archive.sub_streams_info = Some(
            SubStreamsInfo { unpack_sizes, has_crc, crcs },
        );
        Ok(())
    }

    /// Parses the files info: names, empty-stream and empty-file flags,
    /// anti flags, timestamps and attributes, then wires the per-file
    /// sizes and checksums from the substreams info.
    pub fn read_files_info(c: &mut ByteCursor, archive: &mut Archive) -> (r: Result<(), Error>)
        ensures
            r is Ok ==> spec_map_consistent(&(*final(archive))),
            r is Ok ==> final(archive).blocks@ == old(archive).blocks@,
    {
        let num_files = read_usize(c)?;
        if num_files >= 0x1000000 {
            return Err(Error::other("too many files".to_string()));
        }
        let mut files: Vec<ArchiveEntry> = Vec::new();
        let mut f: usize = 0;
        while f < num_files
            invariant
                files@.len() == f <= num_files,
            decreases num_files - f,
        {
            files.push(ArchiveEntry::new());
            f = f + 1;
        }
        let mut is_empty_stream: Option<BitSet> = None;
        let mut is_empty_file: Option<BitSet> = None;
        let mut is_anti: Option<BitSet> = None;
        let mut guard: u32 = 0;
        loop
            invariant
                guard <= 0x10000,
                files@.len() == num_files,
                num_files < 0x1000000,
                archive.blocks@ == old(archive).blocks@,
                is_empty_stream matches Some(s) ==> s.wf(),
            decreases 0x10000 - guard,
        {
            if guard >= 0x10000 {
                return Err(Error::other("files info too long".to_string()));
            }
            guard = guard + 1;
            let prop_type = c.read_u8()?;
            if prop_type == 0 {
                break ;
            }
            let size = c.read_u64()?;
            if prop_type == K_EMPTY_STREAM {
                is_empty_stream = Some(read_bits(c, num_files)?);
            } else if prop_type == K_EMPTY_FILE {
                let n = match &is_empty_stream {
                    Some(s) => s.len(),
                    None => {
                        return Err(
                            Error::other(
                                "Header format error: kEmptyStream must appear before kEmptyFile".to_string(),
                            ),
                        );
                    },
                };
                if n >= usize::MAX {
                    return Err(Error::other("too many empty streams".to_string()));
                }
                is_empty_file = Some(read_bits(c, n)?);
            } else if prop_type == K_ANTI {
                let n = match &is_empty_stream {
                    Some(s) => s.len(),
                    None => {
                        return Err(
                            Error::other(
                                "Header format error: kEmptyStream must appear before kEmptyFile".to_string(),
                            ),
                        );
                    },
                };
                if n >= usize::MAX {
                    return Err(Error::other("too many empty streams".to_string()));
                }
                is_anti = Some(read_bits(c, n)?);
            } else if prop_type == K_NAME {
                let external = c.read_u8()?;
                if external != 0 {
                    return Err(Error::other("Not implemented:external != 0".to_string()));
                }
                if size < 1 || (size - 1) % 2 != 0 {
                    return Err(Error::other("file names length invalid".to_string()));
                }
                let names_len = assert_usize(size - 1)?;
                let names = Self::read_names(c, names_len, num_files)?;
                if names.len() != num_files {
                    return Err(Error::other("Error parsing file names".to_string()));
                }
                let mut k: usize = 0;
                let mut files2: Vec<ArchiveEntry> = Vec::new();
                while k < num_files
                    invariant
                        files2@.len() == k <= num_files,
                        files@.len() == num_files,
                        names@.len() == num_files,
                        archive.blocks@ == old(archive).blocks@,
                    decreases num_files - k,
                {
                    let mut e = files[k].clone();
                    e.name = names[k].clone();
                    files2.push(e);
                    k = k + 1;
                }
                files = files2;
            } else if prop_type == K_C_TIME || prop_type == K_A_TIME || prop_type == K_M_TIME {
                let times_defined = read_all_or_bits(c, num_files)?;
                let external = c.read_u8()?;
                if external != 0 {
                    return Err(Error::other("Unimplemented external".to_string()));
                }
                let mut k: usize = 0;
                let mut files2: Vec<ArchiveEntry> = Vec::new();
                while k < num_files
                    invariant
                        files2@.len() == k <= num_files,
                        files@.len() == num_files,
                        times_defined.wf(),
                        archive.blocks@ == old(archive).blocks@,
                    decreases num_files - k,
                {
                    let mut e = files[k].clone();
                    let has = times_defined.contains(k);
                    if prop_type == K_C_TIME {
                        e.has_creation_date = has;
                        if has {
                            e.creation_date = NtTime::new(c.read_u64le()?);
                        }
                    } else if prop_type == K_A_TIME {
                        e.has_access_date = has;
                        if has {
                            e.access_date = NtTime::new(c.read_u64le()?);
                        }
                    } else {
                        e.has_last_modified_date = has;
                        if has {
                            e.last_modified_date = NtTime::new(c.read_u64le()?);
                        }
                    }
                    files2.push(e);
                    k = k + 1;
                }
                files = files2;
            } else if prop_type == K_WIN_ATTRIBUTES {
                let attrs_defined = read_all_or_bits(c, num_files)?;
                let external = c.read_u8()?;
                if external != 0 {
                    return Err(Error::other("Unimplemented external".to_string()));
                }
                let mut k: usize = 0;
                let mut files2: Vec<ArchiveEntry> = Vec::new();
                while k < num_files
                    invariant
                        files2@.len() == k <= num_files,
                        files@.len() == num_files,
                        attrs_defined.wf(),
                        archive.blocks@ == old(archive).blocks@,
                    decreases num_files - k,
                {
                    let mut e = files[k].clone();
                    let has = attrs_defined.contains(k);
                    e.has_windows_attributes = has;
                    if has {
                        e.windows_attributes = c.read_u32()?;
                    }
                    files2.push(e);
                    k = k + 1;
                }
                files = files2;
            } else if prop_type == K_START_POS {
                return Err(Error::other("kStartPos is unsupported".to_string()));
            } else {
                let sk = assert_usize(size)?;
                c.skip(sk)?;
            }
        }
        let mut non_empty_file_counter: usize = 0;
        let mut empty_file_counter: usize = 0;
        let mut files3: Vec<ArchiveEntry> = Vec::new();
        let mut k: usize = 0;
        while k < num_files
            invariant
                files3@.len() == k <= num_files,
                files@.len() == num_files,
                num_files < 0x1000000,
                non_empty_file_counter <= k,
                empty_file_counter <= k,
                archive.blocks@ == old(archive).blocks@,
                is_empty_stream matches Some(s) ==> s.wf(),
            decreases num_files - k,
        {
            let mut e = files[k].clone();
            let has_stream = match &is_empty_stream {
                Some(s) => !s.contains(k),
                None => true,
            };
            e.has_stream = has_stream;
            if has_stream {
                let ssi_ok = match &archive.sub_streams_info {
                    Some(ssi) => non_empty_file_counter < ssi.crcs.len()
                        && non_empty_file_counter < ssi.unpack_sizes.len(),
                    None => false,
                };
                if !ssi_ok {
                    return Err(
                        Error::other(
                            "Archive contains file with streams but no subStreamsInfo".to_string(),
                        ),
                    );
                }
                e.is_directory = false;
                e.is_anti_item = false;
                match &archive.sub_streams_info {
                    Some(ssi) => {
                        e.has_crc = ssi.has_crc.contains(non_empty_file_counter);
                        e.crc = ssi.crcs[non_empty_file_counter];
                        e.size = ssi.unpack_sizes[non_empty_file_counter];
                    },
                    None => {
                    },
                }
                non_empty_file_counter = non_empty_file_counter + 1;
            } else {
                e.is_directory = match &is_empty_file {
                    Some(s) => !s.contains(empty_file_counter),
                    None => true,
                };
                e.is_anti_item = match &is_anti {
                    Some(s) => s.contains(empty_file_counter),
                    None => false,
                };
                e.has_crc = false;
                e.size = 0;
                empty_file_counter = empty_file_counter + 1;
            }
            files3.push(e);
            k = k + 1;
        }
        archive.files = files3;
        Self::calculate_stream_map(archive)
    }

    /// Reads the NUL-separated UTF-16LE file names.
    fn read_names(c: &mut ByteCursor, max_bytes: usize, num_files: usize) -> (r: Result<
        Vec<String>,
        Error,
    >)
        requires
            num_files < 0x1000000,
    {
        let mut names: Vec<String> = Vec::new();
        let mut read_bytes: usize = 0;
        if max_bytes % 2 != 0 {
            return Err(Error::other("file names length invalid".to_string()));
        }
        let mut units: Vec<u16> = Vec::new();
        while read_bytes < max_bytes
            invariant
                read_bytes <= max_bytes,
                read_bytes % 2 == 0,
                max_bytes % 2 == 0,
                names@.len() <= 0x1000001,
            decreases max_bytes - read_bytes,
        {
            let lo = c.read_u8()? as u16;
            let hi = c.read_u8()? as u16;
            read_bytes = read_bytes + 2;
            let u = lo + hi * 0x100;
            if u == 0 {
                match utf16_to_string(&units) {
                    Ok(s) => {
                        if names.len() <= 0x1000000 {
                            names.push(s);
                        }
                    },
                    Err(_) => {
                        return Err(Error::other("invalid file name encoding".to_string()));
                    },
                }
                units = Vec::new();
            } else {
                if units.len() < usize::MAX {
                    units.push(u);
                }
            }
        }
        if units.len() > 0 {
            match utf16_to_string(&units) {
                Ok(s) => {
                    if names.len() <= 0x1000000 {
                        names.push(s);
                    }
                },
                Err(_) => {
                    return Err(Error::other("invalid file name encoding".to_string()));
                },
            }
        }
        Ok(names)
    }

    /// Builds the cross-index between files, blocks and pack streams.
    pub fn calculate_stream_map(archive: &mut Archive) -> (r: Result<(), Error>)
        ensures
            r is Ok ==> spec_map_consistent(&(*final(archive))),
            final(archive).blocks@ == old(archive).blocks@,
    {
        let mut map = StreamMap::new_empty();
        let num_blocks = archive.blocks.len();
        let mut next_block_pack_stream_index: usize = 0;
        let mut i: usize = 0;
        while i < num_blocks
            invariant
                i <= num_blocks,
                archive.blocks@ == old(archive).blocks@,
                archive.blocks@.len() == num_blocks,
                map.block_first_pack_stream_index@.len() == i,
                map.pack_stream_offsets@.len() == 0,
                map.file_block_index@.len() == 0,
            decreases num_blocks - i,
        {
            map.block_first_pack_stream_index.push(next_block_pack_stream_index);
            let np = archive.blocks[i].packed_streams.len();
            if next_block_pack_stream_index > usize::MAX - np {
                return Err(Error::other("too many pack streams".to_string()));
            }
            next_block_pack_stream_index = next_block_pack_stream_index + np;
            i = i + 1;
        }
        let num_pack_sizes = archive.pack_sizes.len();
        let mut next_pack_stream_offset: u64 = 0;
        let mut p: usize = 0;
        while p < num_pack_sizes
            invariant
                p <= num_pack_sizes,
                archive.blocks@ == old(archive).blocks@,
                archive.blocks@.len() == num_blocks,
                archive.pack_sizes@.len() == num_pack_sizes,
                map.pack_stream_offsets@.len() == p,
                map.block_first_pack_stream_index@.len() == archive.blocks@.len(),
                map.file_block_index@.len() == 0,
            decreases num_pack_sizes - p,
        {
            map.pack_stream_offsets.push(next_pack_stream_offset);
            let sz = archive.pack_sizes[p];
            if next_pack_stream_offset > u64::MAX - sz {
                return Err(Error::other("pack region too large".to_string()));
            }
            next_pack_stream_offset = next_pack_stream_offset + sz;
            p = p + 1;
        }
        let mut bffi: Vec<usize> = Vec::new();
        let mut b: usize = 0;
        while b < num_blocks
            invariant
                b <= num_blocks,
                bffi@.len() == b,
                archive.blocks@ == old(archive).blocks@,
                archive.blocks@.len() == num_blocks,
                archive.pack_sizes@.len() == num_pack_sizes,
                map.pack_stream_offsets@.len() == num_pack_sizes,
                map.block_first_pack_stream_index@.len() == num_blocks,
                map.file_block_index@.len() == 0,
            decreases num_blocks - b,
        {
            bffi.push(0);
            b = b + 1;
        }
        map.block_first_file_index = bffi;
        let num_files = archive.files.len();
        let mut next_block_index: usize = 0;
        let mut next_block_unpack_stream_index: usize = 0;
        let mut fi: usize = 0;
        while fi < num_files
            invariant
                fi <= num_files,
                archive.blocks@ == old(archive).blocks@,
                archive.files@.len() == num_files,
                archive.blocks@.len() == num_blocks,
                archive.pack_sizes@.len() == num_pack_sizes,
                map.file_block_index@.len() == fi,
                map.block_first_file_index@.len() == num_blocks,
                map.block_first_pack_stream_index@.len() == num_blocks,
                map.pack_stream_offsets@.len() == num_pack_sizes,
                next_block_index <= num_blocks,
            decreases num_files - fi,
        {
            if !archive.files[fi].has_stream && next_block_unpack_stream_index == 0 {
                map.file_block_index.push(None);
                fi = fi + 1;
                continue ;
            }
            if next_block_unpack_stream_index == 0 {
                let mut found = false;
                while next_block_index < num_blocks
                    invariant
                        next_block_index <= num_blocks,
                        archive.blocks@ == old(archive).blocks@,
                        archive.blocks@.len() == num_blocks,
                        archive.pack_sizes@.len() == num_pack_sizes,
                        map.block_first_file_index@.len() == num_blocks,
                        map.file_block_index@.len() == fi,
                        map.block_first_pack_stream_index@.len() == num_blocks,
                        map.pack_stream_offsets@.len() == num_pack_sizes,
                        fi < num_files,
                        archive.files@.len() == num_files,
                    decreases num_blocks - next_block_index,
                {
                    map.block_first_file_index.set(next_block_index, fi);
                    if archive.blocks[next_block_index].num_unpack_sub_streams > 0 {
                        found = true;
                        break ;
                    }
                    next_block_index = next_block_index + 1;
                }
                if !found && next_block_index >= num_blocks {
                    return Err(Error::other("Too few blocks in archive".to_string()));
                }
            }
            map.file_block_index.push(Some(next_block_index));
            if archive.files[fi].has_stream && next_block_index < num_blocks {
                if map.block_first_file_index[next_block_index] == fi {
                    let fpsi = map.block_first_pack_stream_index[next_block_index];
                    if fpsi < archive.pack_sizes.len() {
                        let ps = archive.pack_sizes[fpsi];
                        let mut e = archive.files[fi].clone();
                        e.compressed_size = ps;
                        archive.files.set(fi, e);
                    }
                }
                if next_block_unpack_stream_index < usize::MAX {
                    next_block_unpack_stream_index = next_block_unpack_stream_index + 1;
                }
                if next_block_unpack_stream_index >= archive.blocks[
                    next_block_index].num_unpack_sub_streams {
                    next_block_index = next_block_index + 1;
                    next_block_unpack_stream_index = 0;
                }
            }
            fi = fi + 1;
        }
        archive.stream_map = map;
        Ok(())
    }
}

/// Copies a byte vector.
fn copy_all(data: &Vec<u8>) -> (r: Vec<u8>)
    ensures
        r@ =~= data@,
{
    let mut out: Vec<u8> = Vec::new();
    let mut i: usize = 0;
    while i < data.len()
        invariant
            out@ =~= data@.subrange(0, i as int),
            i <= data@.len(),
        decreases data@.len() - i,
    {
        out.push(data[i]);
        proof {
            assert(out@ =~= data@.subrange(0, i + 1));
        }
        i = i + 1;
    }
    proof {
        assert(out@ =~= data@);
    }
    out
}

/// Runs a block's ordered coder chain over its packed bytes.
pub fn decode_coder_chain(
    packed: Vec<u8>,
    block: &Block,
    unpack_size: usize,
    password: &Password,
) -> (r: Result<Vec<u8>, Error>)
    ensures
        r matches Ok(v) ==> v@.len() <= unpack_size,
        r matches Err(e) ==> !(e is FileNotFound),
{
    let mut current = packed;
    let mut iter = block.ordered_coder_iter();
    let mut steps: u32 = 0;
    loop
        invariant
            steps <= 0x100,
        decreases 0x100 - steps,
    {
        if steps >= 0x100 {
            return Err(Error::unsupported("coder chain too long".to_string()));
        }
        steps = steps + 1;
        let next = iter.next(block);
        match next {
            Some((index, coder)) => {
                if coder.num_in_streams != 1 || coder.num_out_streams != 1 {
                    return Err(
                        Error::other(
                            "Multi input/output stream coders are not yet supported".to_string(),
                        ),
                    );
                }
                let step_size = assert_usize(block.get_unpack_size_at_index(index))?;
                current = add_decoder(
                    current,
                    step_size,
                    &coder,
                    password,
                    MAX_MEM_LIMIT_KB,
                    1,
                )?;
            },
            None => {
                break ;
            },
        }
    }
    Ok(truncate_to(current, unpack_size))
}

/// The index of the first entry whose name matches, scanning from `i`.
pub open spec fn spec_find_entry(files: Seq<ArchiveEntry>, name: Seq<char>, i: int) -> Option<
    int,
>
    decreases files.len() - i,
{
    if i < 0 || i >= files.len() {
        None
    } else if files[i].name@ == name {
        Some(i)
    } else {
        spec_find_entry(files, name, i + 1)
    }
}

/// The encoder methods of a block's coders from position `i` on, in coder
/// order, skipping identifiers the registry does not know.
pub open spec fn spec_block_methods(coders: Seq<crate::block::Coder>, i: int) -> Seq<
    EncoderMethod,
>
    decreases coders.len() - i,
{
    if i < 0 || i >= coders.len() {
        Seq::empty()
    } else {
        let rest = spec_block_methods(coders, i + 1);
        match crate::archive::spec_lookup(coders[i].encoder_method_id@, 0) {
            Some(m) => seq![m] + rest,
            None => rest,
        }
    }
}

/// Reads entries of an in-memory 7z archive image.
pub struct ArchiveReader {
    data: Vec<u8>,
    archive: Archive,
    password: Password,
    thread_count: u32,
}

impl ArchiveReader {
    /// The worker thread count.
    pub closed spec fn spec_thread_count(&self) -> u32 {
        self.thread_count
    }

    /// The password bytes the reader decrypts with.
    pub closed spec fn spec_password_len(&self) -> int {
        self.password.spec_bytes().len() as int
    }

    /// The parsed archive description this reader serves entries from.
    pub closed spec fn spec_archive(&self) -> Archive {
        self.archive
    }

    /// Parses the image and creates a reader over it.
    pub fn new(source: Vec<u8>, password: Password) -> (r: Result<ArchiveReader, Error>)
    {
        let archive = Archive::read(&source, &password)?;
        Ok(ArchiveReader { data: source, archive, password, thread_count: 1 })
    }

    /// Creates a reader from an already parsed archive description.
    pub fn from_archive(archive: Archive, source: Vec<u8>, password: Password) -> (r:
        ArchiveReader)
        ensures
            r.spec_archive() == archive,
            r.spec_password_len() == password.spec_bytes().len(),
            r.spec_thread_count() == 1,
    {
        ArchiveReader { data: source, archive, password, thread_count: 1 }
    }

    /// Sets the worker thread count, clamped to the supported range.
    pub fn set_thread_count(&mut self, thread_count: u32)
        ensures
            final(self).spec_thread_count() == if thread_count < 1 {
                1u32
            } else if thread_count > 256 {
                256u32
            } else {
                thread_count
            },
            final(self).spec_archive() == old(self).spec_archive(),
    {
        self.thread_count = if thread_count < 1 {
            1
        } else if thread_count > 256 {
            256
        } else {
            thread_count
        };
    }

    /// The parsed archive description.
    pub fn archive(&self) -> (r: &Archive)
        ensures
            *r == self.spec_archive(),
    {
        &self.archive
    }

    /// Decodes the full uncompressed output of one block: at most the
    /// block's recorded unpacked size, and matching the block's checksum
    /// where one is recorded.
    pub fn decode_block(&self, block_index: usize) -> (r: Result<Vec<u8>, Error>)
        ensures
            block_index >= self.spec_archive().blocks@.len() ==> r is Err,
            r matches Ok(v) ==> block_index < self.spec_archive().blocks@.len() && ({
                let b = self.spec_archive().blocks@[block_index as int];
                &&& v@.len() <= b.spec_main_unpack_size(b.total_output_streams as int)
                &&& (b.has_crc ==> crate::crc32::crc32_of(v@) as u64 == b.crc)
            }),
            r matches Err(e) ==> !(e is FileNotFound),
    {
        if block_index >= self.archive.blocks.len() {
            return Err(Error::other("Block not found".to_string()));
        }
        let block = &self.archive.blocks[block_index];
        if block.total_input_streams > block.total_output_streams {
            return Err(Error::unsupported("multi-input blocks need the BCJ2 coder".to_string()));
        }
        if block_index >= self.archive.stream_map.block_first_pack_stream_index.len() {
            return Err(Error::other("stream map incomplete".to_string()));
        }
        let first_pack = self.archive.stream_map.block_first_pack_stream_index[block_index];
        if first_pack >= self.archive.pack_sizes.len() || first_pack
            >= self.archive.stream_map.pack_stream_offsets.len() {
            return Err(Error::other("stream map incomplete".to_string()));
        }
        let pack_offset = self.archive.stream_map.pack_stream_offsets[first_pack];
        if self.archive.pack_pos > u64::MAX - 32 || pack_offset > u64::MAX - 32
            - self.archive.pack_pos {
            return Err(Error::other("pack region out of range".to_string()));
        }
        let block_offset = 32 + self.archive.pack_pos + pack_offset;
        let pack_size = assert_usize(self.archive.pack_sizes[first_pack])?;
        if block_offset > self.data.len() as u64 || pack_size as u64 > self.data.len() as u64
            - block_offset {
            return Err(Error::other("pack region out of range".to_string()));
        }
        let bo = block_offset as usize;
        let bend = bo + pack_size;
        let mut packed: Vec<u8> = Vec::new();
        let mut k: usize = bo;
        while k < bend
            invariant
                bo <= k <= bend,
                bend <= self.data@.len(),
            decreases bend - k,
        {
            packed.push(self.data[k]);
            k = k + 1;
        }
        let unpack_size = assert_usize(block.get_unpack_size())?;
        let decoded = decode_coder_chain(packed, block, unpack_size, &self.password)?;
        if block.has_crc {
            let crc = crc32(decoded.as_slice());
            if crc as u64 != block.crc {
                return Err(Error::ChecksumVerificationFailed);
            }
        }
        Ok(decoded)
    }


    /// The index of the first entry with the given name, if one exists.
    fn find_file_index(&self, name: &str) -> (r: Option<usize>)
        ensures
            r matches Some(k) ==> k < self.archive.files@.len() && spec_find_entry(
                self.archive.files@,
                name@,
                0,
            ) == Some(k as int),
            r is None ==> spec_find_entry(self.archive.files@, name@, 0) is None,
    {
        let mut i: usize = 0;
        while i < self.archive.files.len()
            invariant
                i <= self.archive.files@.len(),
                spec_find_entry(self.archive.files@, name@, 0) == spec_find_entry(
                    self.archive.files@,
                    name@,
                    i as int,
                ),
            decreases self.archive.files@.len() - i,
        {
            if str_eq(self.archive.files[i].name.as_str(), name) {
                return Some(i);
            }
            i = i + 1;
        }
        None
    }

    /// The data of the file with the given path inside the archive. For a
    /// solid archive the whole hosting block is decoded first. The bytes
    /// returned for a stream entry number exactly the entry's recorded
    /// size and match its checksum where one is recorded; an entry
    /// without a stream yields no bytes. No entry of that name is
    /// reported as [`Error::FileNotFound`], and nothing else is.
    pub fn read_file(&self, name: &str) -> (r: Result<Vec<u8>, Error>)
        ensures
            spec_find_entry(self.spec_archive().files@, name@, 0) is None ==> (r matches Err(e)
                && e is FileNotFound),
            (r is Err && r->Err_0 is FileNotFound) ==> spec_find_entry(
                self.spec_archive().files@,
                name@,
                0,
            ) is None,
            r matches Ok(v) ==> ({
                let fk = spec_find_entry(self.spec_archive().files@, name@, 0);
                &&& fk is Some
                &&& ({
                    let f = self.spec_archive().files@[fk->0];
                    &&& (f.has_stream ==> v@.len() == f.size)
                    &&& (!f.has_stream ==> v@.len() == 0)
                    &&& (f.has_stream && f.has_crc ==> crate::crc32::crc32_of(v@) as u64 == f.crc)
                })
            }),
    {
        let file_index = match self.find_file_index(name) {
            Some(k) => k,
            None => {
                return Err(Error::FileNotFound);
            },
        };
        let file = &self.archive.files[file_index];
        if !file.has_stream {
            return Ok(Vec::new());
        }
        if file_index >= self.archive.stream_map.file_block_index.len() {
            return Err(Error::other("stream map incomplete".to_string()));
        }
        let block_index = match self.archive.stream_map.file_block_index[file_index] {
            Some(b) => b,
            None => {
                return Err(Error::other("File has no associated block".to_string()));
            },
        };
        if block_index >= self.archive.blocks.len() || block_index
            >= self.archive.stream_map.block_first_file_index.len() {
            return Err(Error::other("stream map incomplete".to_string()));
        }
        let block_output = self.decode_block(block_index)?;
        let first_file = self.archive.stream_map.block_first_file_index[block_index];
        let mut offset: u64 = 0;
        let mut j = if first_file > file_index {
            file_index
        } else {
            first_file
        };
        while j < file_index
            invariant
                j <= file_index,
                file_index < self.archive.files@.len(),
                spec_find_entry(self.archive.files@, name@, 0) == Some(file_index as int),
            decreases file_index - j,
        {
            if self.archive.files[j].has_stream {
                let s = self.archive.files[j].size;
                if offset > u64::MAX - s {
                    return Err(Error::other("sizes out of range".to_string()));
                }
                offset = offset + s;
            }
            j = j + 1;
        }
        let off = assert_usize(offset)?;
        let size = assert_usize(self.archive.files[file_index].size)?;
        if off > block_output.len() || size > block_output.len() - off {
            return Err(
                Error::bad_password(
                    "entry exceeds block output".to_string(),
                    self.password.as_slice().len() > 0,
                ),
            );
        }
        let oend = off + size;
        let mut out: Vec<u8> = Vec::new();
        let mut t: usize = off;
        while t < oend
            invariant
                off <= t <= oend,
                oend <= block_output@.len(),
                out@.len() == t - off,
            decreases oend - t,
        {
            out.push(block_output[t]);
            t = t + 1;
        }
        if self.archive.files[file_index].has_crc {
            let crc = crc32(out.as_slice());
            if crc as u64 != self.archive.files[file_index].crc {
                return Err(Error::ChecksumVerificationFailed);
            }
        }
        Ok(out)
    }

    /// The ordered coder methods of the block hosting the named entry.
    pub fn file_compression_methods(
        &self,
        file_name: &str,
        methods: &mut Vec<EncoderMethod>,
    ) -> (r: Result<(), Error>)
        ensures
            (spec_find_entry(self.spec_archive().files@, file_name@, 0) is None) <==> (r is Err
                && r->Err_0 is FileNotFound),
            final(methods)@.len() >= old(methods)@.len(),
            r is Ok ==> ({
                let fk = spec_find_entry(self.spec_archive().files@, file_name@, 0);
                &&& fk is Some
                &&& (!self.spec_archive().files@[fk->0].has_stream ==> final(methods)@ == old(
                    methods,
                )@)
                &&& (self.spec_archive().files@[fk->0].has_stream ==> ({
                    let fb = self.spec_archive().stream_map.file_block_index@[fk->0];
                    &&& fb is Some
                    &&& final(methods)@ == old(methods)@ + spec_block_methods(
                        self.spec_archive().blocks@[fb->0 as int].coders@,
                        0,
                    )
                }))
            }),
    {
        let file_index = match self.find_file_index(file_name) {
            Some(k) => k,
            None => {
                return Err(Error::FileNotFound);
            },
        };
        if !self.archive.files[file_index].has_stream {
            return Ok(());
        }
        if file_index >= self.archive.stream_map.file_block_index.len() {
            return Err(Error::other("stream map incomplete".to_string()));
        }
        let block_index = match self.archive.stream_map.file_block_index[file_index] {
            Some(b) => b,
            None => {
                return Err(Error::other("File has no associated block".to_string()));
            },
        };
        if block_index >= self.archive.blocks.len() {
            return Err(Error::other("Block not found".to_string()));
        }
        let block = &self.archive.blocks[block_index];
        if methods.len() > usize::MAX - block.coders.len() {
            return Err(Error::other("too many methods".to_string()));
        }
        proof {
            assert(old(methods)@ + Seq::<EncoderMethod>::empty() =~= old(methods)@);
        }
        let mut ci: usize = 0;
        while ci < block.coders.len()
            invariant
                ci <= block.coders@.len(),
                methods@.len() >= old(methods)@.len(),
                methods@.len() <= old(methods)@.len() + ci,
                old(methods)@ + spec_block_methods(block.coders@, 0) =~= methods@
                    + spec_block_methods(block.coders@, ci as int),
                spec_find_entry(self.archive.files@, file_name@, 0) == Some(file_index as int),
                file_index < self.archive.files@.len(),
                self.archive.files@[file_index as int].has_stream,
                file_index < self.archive.stream_map.file_block_index@.len(),
                self.archive.stream_map.file_block_index@[file_index as int] == Some(
                    block_index,
                ),
                block_index < self.archive.blocks@.len(),
                block == &self.archive.blocks[block_index as int],
            decreases block.coders@.len() - ci,
        {
            let ghost pre = methods@;
            match EncoderMethod::by_id(block.coders[ci].encoder_method_id().as_slice()) {
                Some(m) => {
                    methods.push(m);
                    proof {
                        assert(spec_block_methods(block.coders@, ci as int) =~= seq![m]
                            + spec_block_methods(block.coders@, ci + 1));
                        assert(pre + (seq![m] + spec_block_methods(block.coders@, ci + 1))
                            =~= methods@ + spec_block_methods(block.coders@, ci + 1));
                    }
                },
                None => {
                },
            }
            ci = ci + 1;
        }
        proof {
            assert(methods@ + Seq::<EncoderMethod>::empty() =~= methods@);
        }
        Ok(())
    }
}

/// Character-wise string equality.
fn str_eq(a: &str, b: &str) -> (r: bool)
    ensures
        r <==> a@ =~= b@,
{
    str_bytes_eq(a, b)
}

/// Relies on str's PartialEq: two string slices compare equal exactly
/// when their characters are equal.
#[verifier::external_body]
fn str_bytes_eq(a: &str, b: &str) -> (r: bool)
    ensures
        r <==> a@ =~= b@,
{
    a == b
}

/// Decodes the entries of one block of an archive image.
pub struct BlockDecoder {
    thread_count: u32,
    block_index: usize,
}

impl BlockDecoder {
    /// The block this decoder reads.
    pub closed spec fn spec_block_index(&self) -> usize {
        self.block_index
    }

    /// The worker thread count.
    pub closed spec fn spec_thread_count(&self) -> u32 {
        self.thread_count
    }

    /// A decoder for the block at `block_index`.
    pub fn new(thread_count: u32, block_index: usize) -> (r: BlockDecoder)
        ensures
            r.spec_block_index() == block_index,
            r.spec_thread_count() == thread_count,
    {
        BlockDecoder { thread_count, block_index }
    }

    /// Sets the worker thread count, clamped to the supported range.
    pub fn set_thread_count(&mut self, thread_count: u32)
        ensures
            final(self).spec_thread_count() == if thread_count < 1 {
                1u32
            } else if thread_count > 256 {
                256u32
            } else {
                thread_count
            },
            final(self).spec_block_index() == old(self).spec_block_index(),
    {
        self.thread_count = if thread_count < 1 {
            1
        } else if thread_count > 256 {
            256
        } else {
            thread_count
        };
    }

    /// The entries this block produces: the run of files starting at the
    /// block's first file index, one per substream.
    pub fn entries(&self, archive: &Archive) -> (r: Vec<ArchiveEntry>)
        ensures
            (self.spec_block_index() >= archive.blocks@.len() || self.spec_block_index()
                >= archive.stream_map.block_first_file_index@.len()) ==> r@.len() == 0,
            (self.spec_block_index() < archive.blocks@.len() && self.spec_block_index()
                < archive.stream_map.block_first_file_index@.len()) ==> ({
                let start =
                    archive.stream_map.block_first_file_index@[self.spec_block_index() as int];
                let count =
                    archive.blocks@[self.spec_block_index() as int].num_unpack_sub_streams;
                (start + count <= archive.files@.len()) ==> r@.len() == count && (forall|j: int|
                    0 <= j < count ==> (#[trigger] r@[j]).name@ == archive.files@[start + j].name@
                        && r@[j].has_stream == archive.files@[start + j].has_stream && r@[j].size
                        == archive.files@[start + j].size)
            }),
    {
        let mut out: Vec<ArchiveEntry> = Vec::new();
        if self.block_index >= archive.blocks.len() || self.block_index
            >= archive.stream_map.block_first_file_index.len() {
            return out;
        }
        let start = archive.stream_map.block_first_file_index[self.block_index];
        let count = archive.blocks[self.block_index].num_unpack_sub_streams;
        let nf = archive.files.len();
        let mut k: usize = 0;
        while k < count
            invariant
                k <= count,
                out@.len() <= k,
                nf == archive.files@.len(),
                start + count <= archive.files@.len() ==> out@.len() == k && (forall|j: int|
                    0 <= j < k ==> (#[trigger] out@[j]).name@ == archive.files@[start + j].name@
                        && out@[j].has_stream == archive.files@[start + j].has_stream
                        && out@[j].size == archive.files@[start + j].size),
            decreases count - k,
        {
            if start <= usize::MAX - k && start + k < nf {
                out.push(crate::writer::copy_entry(&archive.files[start + k]));
            }
            k = k + 1;
        }
        out
    }

    /// How many entries this block produces.
    pub fn entry_count(&self, archive: &Archive) -> (r: usize)
        ensures
            self.spec_block_index() < archive.blocks@.len() ==> r == archive.blocks@[
                self.spec_block_index() as int].num_unpack_sub_streams,
    {
        if self.block_index < archive.blocks.len() {
            archive.blocks[self.block_index].num_unpack_sub_streams
        } else {
            0
        }
    }
}

} // verus!
