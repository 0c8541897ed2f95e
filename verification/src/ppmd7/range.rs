use vstd::prelude::*;

verus! {

/// The bottom of the working interval: below it the coders renormalize.
pub const K_TOP_VALUE: u32 = 0x1000000;

/// The big-endian code value in bytes one through four of a stream.
pub open spec fn spec_initial_code(buf: Seq<u8>) -> int {
    (buf[1] as int) * 0x1000000 + (buf[2] as int) * 0x10000 + (buf[3] as int) * 0x100 + (
    buf[4] as int)
}

/// Whether a buffer opens with a valid range-coder start: a zero byte,
/// then four code bytes that are not all ones.
pub open spec fn spec_valid_start(buf: Seq<u8>) -> bool {
    buf.len() >= 5 && buf[0] == 0 && spec_initial_code(buf) != 0xFFFFFFFF
}

/// The 7z-flavoured range decoder, reading compressed bytes from a buffer.
pub struct RangeDecoder {
    /// The compressed input.
    pub(crate) buf: Vec<u8>,
    /// The next input position.
    pub(crate) pos: usize,
    /// The current interval width.
    pub(crate) range: u32,
    /// The current code value inside the interval.
    pub(crate) code: u32,
}

impl RangeDecoder {
    /// Initializes the decoder: one discarded byte that must be zero, then
    /// four big-endian code bytes that must not all be ones. `Err(true)`
    /// reports a short buffer, `Err(false)` an invalid start.
    pub fn new(buf: Vec<u8>) -> (r: Result<RangeDecoder, bool>)
        ensures
            r is Ok <==> spec_valid_start(buf@),
            r matches Ok(d) ==> d.spec_code() == spec_initial_code(buf@) && d.spec_range()
                == 0xFFFFFFFFu32,
    {
        let ghost bufv = buf@;
        let mut dec = RangeDecoder { buf, pos: 0, range: 0xFFFFFFFF, code: 0 };
        let first = match dec.read_byte() {
            Some(b) => b,
            None => {
                return Err(true);
            },
        };
        if first != 0 {
            return Err(false);
        }
        let mut k: usize = 0;
        while k < 4
            invariant
                dec.range == 0xFFFFFFFFu32,
                k <= 4,
                dec.buf@ == bufv,
                bufv == buf@,
                bufv[0] == 0,
                dec.pos == 1 + k,
                1 + k <= bufv.len(),
                dec.code as int == spec_partial_code(bufv, k as int),
                k == 0 ==> dec.code == 0,
                k == 1 ==> dec.code < 0x100,
                k == 2 ==> dec.code < 0x10000,
                k == 3 ==> dec.code < 0x1000000,
            decreases 4 - k,
        {
            let b = match dec.read_byte() {
                Some(b) => b,
                None => {
                    proof {
                        assert(bufv.len() <= 1 + k);
                        assert(bufv.len() < 5);
                        assert(!spec_valid_start(bufv));
                    }
                    return Err(true);
                },
            };
            dec.code = dec.code * 0x100 + (b as u32);
            k = k + 1;
        }
        proof {
            assert(spec_partial_code(bufv, 1) == bufv[1] as int);
            assert(spec_partial_code(bufv, 2) == (bufv[1] as int) * 0x100 + bufv[2] as int);
            assert(spec_partial_code(bufv, 3) == ((bufv[1] as int) * 0x100 + bufv[2] as int)
                * 0x100 + bufv[3] as int);
            assert(spec_partial_code(bufv, 4) == spec_initial_code(bufv));
        }
        if dec.code == 0xFFFFFFFF {
            return Err(false);
        }
        Ok(dec)
    }

    /// The buffer this decoder reads.
    pub closed spec fn spec_buf(&self) -> Seq<u8> {
        self.buf@
    }

    /// The current code value, for contracts.
    pub closed spec fn spec_code(&self) -> u32 {
        self.code
    }

    /// The current interval width, for contracts.
    pub closed spec fn spec_range(&self) -> u32 {
        self.range
    }

    /// The current code value.
    pub fn code(&self) -> (r: u32)
        ensures
            r == self.spec_code(),
    {
        self.code
    }

    /// The current interval width.
    pub fn range(&self) -> (r: u32)
        ensures
            r == self.spec_range(),
    {
        self.range
    }

    /// Reads the next compressed byte, if any is left; the buffer and the
    /// coder state are untouched.
    fn read_byte(&mut self) -> (r: Option<u8>)
        ensures
            final(self).range == old(self).range,
            final(self).code == old(self).code,
            final(self).buf@ == old(self).buf@,
            r matches Some(b) ==> old(self).pos < old(self).buf@.len() && b == old(self).buf@[
                old(self).pos as int] && final(self).pos == old(self).pos + 1,
            r is None ==> old(self).pos >= old(self).buf@.len() && final(self).pos == old(
                self,
            ).pos,
    {
        if self.pos < self.buf.len() {
            let b = self.buf[self.pos];
            self.pos = self.pos + 1;
            Some(b)
        } else {
            None
        }
    }

    /// Divides the interval by `total` and locates the code inside it.
    /// Fails when the interval has collapsed, which a valid stream never
    /// produces.
    pub fn get_threshold(&mut self, total: u32) -> (r: Option<u32>)
    {
        if total == 0 {
            return None;
        }
        self.range = self.range / total;
        if self.range == 0 {
            return None;
        }
        Some(self.code / self.range)
    }

    /// Narrows to the low branch of a binary split.
    pub fn decode_bit_0(&mut self, size: u32) -> (r: bool)
    {
        self.range = size;
        self.normalize_1()
    }

    /// Narrows to the high branch of a binary split.
    pub fn decode_bit_1(&mut self, size: u32)
    {
        self.code = self.code.wrapping_sub(size);
        self.range = self.range.wrapping_sub(size);
    }

    /// Narrows the interval to `[start, start + size)` slots.
    pub fn decode(&mut self, start: u32, size: u32)
    {
        self.code = self.code.wrapping_sub(start.wrapping_mul(self.range));
        self.range = self.range.wrapping_mul(size);
    }

    /// Narrows the interval and renormalizes. Returns `false` when the
    /// input ran out.
    pub fn decode_final(&mut self, start: u32, freq: u32) -> (r: bool)
    {
        self.decode(start, freq);
        self.normalize_remote()
    }

    /// Renormalizes until the interval is at least the top value again,
    /// reading at most two bytes.
    pub fn normalize_remote(&mut self) -> (r: bool)
    {
        if self.range < K_TOP_VALUE {
            match self.read_byte() {
                Some(b) => {
                    self.code = (self.code << 8) | (b as u32);
                    self.range = self.range << 8;
                },
                None => {
                    return false;
                },
            }
            if self.range < K_TOP_VALUE {
                match self.read_byte() {
                    Some(b) => {
                        self.code = (self.code << 8) | (b as u32);
                        self.range = self.range << 8;
                    },
                    None => {
                        return false;
                    },
                }
            }
        }
        true
    }

    /// Renormalizes once if needed.
    pub fn normalize_1(&mut self) -> (r: bool)
    {
        if self.range < K_TOP_VALUE {
            match self.read_byte() {
                Some(b) => {
                    self.code = (self.code << 8) | (b as u32);
                    self.range = self.range << 8;
                },
                None => {
                    return false;
                },
            }
        }
        true
    }
}

/// The code value assembled from the first `k` of the four code bytes.
pub open spec fn spec_partial_code(buf: Seq<u8>, k: int) -> int
    decreases k,
{
    if k <= 0 {
        0
    } else {
        spec_partial_code(buf, k - 1) * 0x100 + (buf[k] as int)
    }
}

/// The 7z-flavoured range encoder, emitting compressed bytes to a buffer.
pub struct RangeEncoder {
    /// The compressed output.
    pub(crate) out: Vec<u8>,
    /// The current interval width.
    pub(crate) range: u32,
    /// Pending carry byte.
    pub(crate) cache: u8,
    /// Low end of the interval, with pending carries above bit 32.
    pub(crate) low: u64,
    /// How many cache bytes are outstanding.
    pub(crate) cache_size: u64,
}

impl RangeEncoder {
    /// At least one cache byte is always outstanding.
    pub closed spec fn wf(&self) -> bool {
        self.cache_size >= 1
    }

    /// The bytes emitted so far.
    pub closed spec fn spec_out(&self) -> Seq<u8> {
        self.out@
    }

    /// Creates a fresh encoder.
    pub fn new() -> (r: RangeEncoder)
        ensures
            r.wf(),
            r.spec_out().len() == 0,
    {
        RangeEncoder { out: Vec::new(), range: 0xFFFFFFFF, cache: 0, low: 0, cache_size: 1 }
    }

    /// The current interval width.
    pub fn range(&self) -> u32
    {
        self.range
    }

    /// Divides the interval by a nonzero total.
    pub fn div_range(&mut self, d: u32)
        requires
            old(self).wf(),
            d > 0,
        ensures
            final(self).wf(),
            final(self).spec_out().len() >= old(self).spec_out().len(),
    {
        self.range = self.range / d;
    }

    /// Hands back the compressed bytes.
    pub fn into_output(self) -> (r: Vec<u8>)
        ensures
            r@ == self.spec_out(),
    {
        self.out
    }

    /// A copy of the bytes emitted so far.
    pub fn output_so_far(&self) -> (r: Vec<u8>)
        ensures
            r@ == self.spec_out(),
    {
        let mut out: Vec<u8> = Vec::new();
        let mut i: usize = 0;
        while i < self.out.len()
            invariant
                out@ =~= self.out@.subrange(0, i as int),
                i <= self.out@.len(),
            decreases self.out@.len() - i,
        {
            out.push(self.out[i]);
            proof {
                assert(out@ =~= self.out@.subrange(0, i + 1));
            }
            i = i + 1;
        }
        proof {
            assert(out@ =~= self.out@);
        }
        out
    }

    /// Emits stabilised top bytes of `low`, propagating carries.
    pub fn shift_low(&mut self)
        requires
            old(self).wf(),
        ensures
            final(self).wf(),
            final(self).spec_out().len() >= old(self).spec_out().len(),
    {
        if self.low < 0xFF000000 || (self.low >> 32) != 0 {
            let ghost len0 = self.out@.len();
            let mut temp: u8 = self.cache;
            loop
                invariant_except_break
                    self.cache_size >= 1,
                    self.out@.len() >= len0,
                ensures
                    self.cache_size >= 0,
                    self.out@.len() >= len0,
                decreases self.cache_size,
            {
                let carry = #[verifier::truncate] (((self.low >> 32) & 0xFF) as u8);
                let byte = #[verifier::truncate] (((temp as u16 + carry as u16) & 0xFF) as u8);
                self.out.push(byte);
                temp = 0xFF;
                self.cache_size = self.cache_size - 1;
                if self.cache_size == 0 {
                    break ;
                }
            }
            self.cache = #[verifier::truncate] ((((self.low & 0xFFFFFFFF) as u32 >> 24)
                & 0xFF) as u8);
        }
        if self.cache_size < 0xFFFFFFFFFFFFFFFF {
            self.cache_size = self.cache_size + 1;
        }
        self.low = ((#[verifier::truncate] ((self.low & 0xFFFFFFFF) as u32)) << 8) as u64;
    }

    /// Chooses the low branch of a binary split.
    pub fn encode_bit_0(&mut self, bound: u32)
        requires
            old(self).wf(),
        ensures
            final(self).wf(),
            final(self).spec_out().len() >= old(self).spec_out().len(),
    {
        self.range = bound;
        self.normalize_1();
    }

    /// Chooses the high branch of a binary split.
    pub fn encode_bit_1(&mut self, bound: u32)
        requires
            old(self).wf(),
        ensures
            final(self).wf(),
            final(self).spec_out().len() >= old(self).spec_out().len(),
    {
        self.low = self.low.wrapping_add(bound as u64);
        self.range = self.range.wrapping_sub(bound);
    }

    /// Narrows the interval to `[start, start + size)` slots.
    pub fn encode(&mut self, start: u32, size: u32)
        requires
            old(self).wf(),
        ensures
            final(self).wf(),
            final(self).spec_out().len() >= old(self).spec_out().len(),
    {
        self.low = self.low.wrapping_add(start.wrapping_mul(self.range) as u64);
        self.range = self.range.wrapping_mul(size);
    }

    /// Narrows the interval and renormalizes.
    pub fn encode_final(&mut self, start: u32, freq: u32)
        requires
            old(self).wf(),
        ensures
            final(self).wf(),
            final(self).spec_out().len() >= old(self).spec_out().len(),
    {
        self.encode(start, freq);
        self.normalize_remote();
    }

    /// Renormalizes until the interval is at least the top value again.
    pub fn normalize_remote(&mut self)
        requires
            old(self).wf(),
        ensures
            final(self).wf(),
            final(self).spec_out().len() >= old(self).spec_out().len(),
    {
        if self.range < K_TOP_VALUE {
            self.range = self.range << 8;
            self.shift_low();
            if self.range < K_TOP_VALUE {
                self.range = self.range << 8;
                self.shift_low();
            }
        }
    }

    /// Renormalizes once if needed.
    pub fn normalize_1(&mut self)
        requires
            old(self).wf(),
        ensures
            final(self).wf(),
            final(self).spec_out().len() >= old(self).spec_out().len(),
    {
        if self.range < K_TOP_VALUE {
            self.range = self.range << 8;
            self.shift_low();
        }
    }

    /// Flushes the five outstanding bytes that pin down the final interval.
    pub fn flush(&mut self)
        requires
            old(self).wf(),
        ensures
            final(self).wf(),
            final(self).spec_out().len() >= old(self).spec_out().len(),
    {
        let mut k: usize = 0;
        while k < 5
            invariant
                self.wf(),
                self.spec_out().len() >= old(self).spec_out().len(),
            decreases 5 - k,
        {
            self.shift_low();
            k = k + 1;
        }
    }
}

} // verus!
