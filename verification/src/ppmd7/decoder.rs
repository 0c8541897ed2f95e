use vstd::prelude::*;

use crate::ppmd7::model::Pppmd7;
use crate::ppmd7::range::spec_initial_code;
use crate::ppmd7::range::spec_valid_start;
use crate::ppmd7::range::RangeDecoder;
use crate::ppmd7::Error;
use crate::ppmd7::PPMD7_MAX_MEM_SIZE;
use crate::ppmd7::PPMD7_MAX_ORDER;
use crate::ppmd7::PPMD7_MIN_MEM_SIZE;
use crate::ppmd7::PPMD7_MIN_ORDER;
use crate::ppmd7::PPMD7_SYM_END;
use crate::ppmd7::PPMD7_SYM_ERROR;

verus! {

/// Smoothing step of the adaptive binary probabilities.
pub(crate) fn ppmd_get_mean_spec(summ: u32, shift: u32, round: u32) -> u32
    requires
        round <= shift < 32,
{
    (summ.wrapping_add(1u32 << (shift - round))) >> shift
}

/// The standard smoothing used by the byte-oriented coder.
pub(crate) fn ppmd_get_mean(summ: u32) -> u32
{
    ppmd_get_mean_spec(summ, 7, 2)
}

/// Lowers a binary probability after a miss.
pub(crate) fn ppmd_update_prob_1(prob: u32) -> u32
{
    prob.wrapping_sub(ppmd_get_mean(prob))
}

/// Builds the 256-entry symbol mask, all bits set.
pub(crate) fn fresh_mask() -> (r: Vec<u8>)
    ensures
        r@.len() == 256,
{
    let mut mask: Vec<u8> = Vec::new();
    let mut i: usize = 0;
    while i < 256
        invariant
            mask@.len() == i,
            i <= 256,
        decreases 256 - i,
    {
        mask.push(0xFF);
        i = i + 1;
    }
    mask
}

/// A decoder for PPMd7 (PPMdH) data framed by the 7z range coder.
pub struct Ppmd7Decoder {
    model: Pppmd7,
    rc: RangeDecoder,
    finished: bool,
}

impl Ppmd7Decoder {
    /// The model tables keep their shape.
    pub closed spec fn wf(&self) -> bool {
        self.model.wf()
    }

    /// Whether the decoder has reached the end of its stream.
    pub closed spec fn spec_finished(&self) -> bool {
        self.finished
    }

    /// The range coder's current code value.
    pub closed spec fn spec_code(&self) -> u32 {
        self.rc.spec_code()
    }

    /// Creates a new [`Ppmd7Decoder`] over the whole compressed buffer.
    ///
    /// Succeeds exactly when the order and memory size are in the
    /// format's ranges and the buffer opens with a valid range-coder
    /// start. Fails with `InvalidParameter` on out-of-range parameters,
    /// with `RangeDecoderInitialization` on an invalid start, and with
    /// `IoError` when fewer than five bytes are available.
    pub fn new(data: Vec<u8>, order: u32, mem_size: u32) -> (r: Result<Ppmd7Decoder, Error>)
        ensures
            r is Ok <==> PPMD7_MIN_ORDER <= order <= PPMD7_MAX_ORDER && PPMD7_MIN_MEM_SIZE
                <= mem_size <= PPMD7_MAX_MEM_SIZE && spec_valid_start(data@),
            r matches Ok(d) ==> d.wf() && !d.spec_finished() && d.spec_code() == spec_initial_code(
                data@,
            ),
            (order < PPMD7_MIN_ORDER || order > PPMD7_MAX_ORDER || mem_size < PPMD7_MIN_MEM_SIZE
                || mem_size > PPMD7_MAX_MEM_SIZE) ==> (r matches Err(e) && e
                == Error::InvalidParameter),
    {
        if order < PPMD7_MIN_ORDER || order > PPMD7_MAX_ORDER || mem_size < PPMD7_MIN_MEM_SIZE
            || mem_size > PPMD7_MAX_MEM_SIZE {
            return Err(Error::InvalidParameter);
        }
        let rc = match RangeDecoder::new(data) {
            Ok(rc) => rc,
            Err(eof) => {
                return Err(
                    if eof {
                        Error::IoError
                    } else {
                        Error::RangeDecoderInitialization
                    },
                );
            },
        };
        let model = Pppmd7::new(order, mem_size);
        Ok(Ppmd7Decoder { model, rc, finished: false })
    }

    /// The range decoder's current code value; it is zero after a clean
    /// end-of-stream symbol.
    pub fn range_decoder_code(&self) -> (r: u32)
        ensures
            r == self.spec_code(),
    {
        self.rc.code()
    }

    /// Decodes one symbol: a byte value, the end marker, or the corrupt
    /// marker.
    pub fn decode_symbol(&mut self) -> (r: Result<i32, Error>)
        requires
            old(self).wf(),
        ensures
            final(self).wf(),
            r matches Ok(v) ==> PPMD7_SYM_ERROR <= v < 256,
    {
        let mut char_mask: Vec<u8>;
        let mc = self.model.min_context;
        if self.model.ctx_num_stats(mc) != 1 {
            let mut s = self.model.get_stats(mc);
            let summ_freq = self.model.ctx_summ(mc) as u32;
            let hi_cnt = match self.rc.get_threshold(summ_freq) {
                Some(c) => c,
                None => {
                    return Ok(PPMD7_SYM_ERROR);
                },
            };
            let mut count = hi_cnt.wrapping_sub(self.model.st_freq(s) as u32);
            if count >= 0x80000000 {
                if !self.rc.decode_final(0, self.model.st_freq(s) as u32) {
                    return Err(Error::IoError);
                }
                self.model.set_found_state(s);
                let sym = self.model.st_sym(s);
                self.model.update1_0();
                return Ok(sym as i32);
            }
            self.model.set_prev_success(0);
            let num_stats = self.model.ctx_num_stats(mc) as u32;
            let mut i: u32 = 1;
            while i < num_stats
                invariant
                    self.wf(),
                    num_stats <= 0x10000,
                decreases num_stats - i,
            {
                s = s.wrapping_add(6);
                count = count.wrapping_sub(self.model.st_freq(s) as u32);
                if count >= 0x80000000 {
                    let freq = self.model.st_freq(s) as u32;
                    if !self.rc.decode_final(hi_cnt.wrapping_sub(count).wrapping_sub(freq), freq) {
                        return Err(Error::IoError);
                    }
                    self.model.set_found_state(s);
                    let sym = self.model.st_sym(s);
                    self.model.update1();
                    return Ok(sym as i32);
                }
                i = i + 1;
            }
            if hi_cnt >= summ_freq {
                return Ok(PPMD7_SYM_ERROR);
            }
            let hi2 = hi_cnt.wrapping_sub(count);
            self.rc.decode(hi2, summ_freq.wrapping_sub(hi2));
            let fsym = self.model.st_sym(self.model.found_state) as u32;
            let hb = Pppmd7::hi_bits_flag3(fsym);
            self.model.set_hi_bits_flag(hb);
            char_mask = fresh_mask();
            let s2 = self.model.get_stats(mc);
            self.mask_symbols(&mut char_mask, s, s2);
        } else {
            let s = self.model.get_one_state(mc);
            let (row, col) = self.model.get_bin_summ();
            let mut pr = self.model.bin_get(row, col) as u32;
            let size0 = (self.rc.range() >> 14).wrapping_mul(pr);
            let pr2 = ppmd_update_prob_1(pr);
            if self.rc.code() < size0 {
                self.model.bin_set(row, col, (pr2.wrapping_add(1u32 << 7) % 0x10000) as u16);
                if !self.rc.decode_bit_0(size0) {
                    return Err(Error::IoError);
                }
                let sym = self.model.st_sym(s);
                self.model.update_bin(s);
                return Ok(sym as i32);
            }
            self.model.bin_set(row, col, (pr2 % 0x10000) as u16);
            let esc0 = self.model.exp_escape_at(pr2 >> 10) as u32;
            self.model.set_init_esc(esc0);
            self.rc.decode_bit_1(size0);
            char_mask = fresh_mask();
            let msym = self.model.st_sym(self.model.get_one_state(mc));
            char_mask.set(msym as usize, 0);
            self.model.set_prev_success(0);
        }
        let mut rounds: u32 = 0;
        loop
            invariant
                self.wf(),
                char_mask@.len() == 256,
                rounds <= 0x10000,
            decreases 0x10000 - rounds,
        {
            if rounds >= 0x10000 {
                return Ok(PPMD7_SYM_ERROR);
            }
            rounds = rounds + 1;
            if !self.rc.normalize_remote() {
                return Err(Error::IoError);
            }
            let mut mc2 = self.model.min_context;
            let num_masked = self.model.ctx_num_stats(mc2) as u32;
            let mut walk: u32 = 0;
            while self.model.ctx_num_stats(mc2) as u32 == num_masked
                invariant
                    self.wf(),
                    walk <= 0x10000,
                decreases 0x10000 - walk,
            {
                if walk >= 0x10000 {
                    return Ok(PPMD7_SYM_ERROR);
                }
                walk = walk + 1;
                self.model.bump_order_fall();
                if self.model.ctx_suffix(mc2) == 0 {
                    return Ok(PPMD7_SYM_END);
                }
                mc2 = self.model.ctx_suffix(mc2);
            }
            let mut s = self.model.get_stats(mc2);
            let mut num = self.model.ctx_num_stats(mc2) as u32;
            let mut num2 = num / 2;
            num = num & 1;
            let first_freq = self.model.st_freq(s) as u32;
            let first_sym = self.model.st_sym(s);
            let masked = char_mask[first_sym as usize] as u32;
            let mut hi_cnt = (first_freq & masked) & 0u32.wrapping_sub(num);
            s = s.wrapping_add(6u32.wrapping_mul(num));
            self.model.set_min_context(mc2);
            while num2 != 0
                invariant
                    self.wf(),
                    char_mask@.len() == 256,
                decreases num2,
            {
                let sym0 = self.model.st_sym(s) as usize;
                let sym1 = self.model.st_sym(s.wrapping_add(6)) as usize;
                let f0 = self.model.st_freq(s);
                let f1 = self.model.st_freq(s.wrapping_add(6));
                s = s.wrapping_add(12);
                hi_cnt = hi_cnt.wrapping_add((f0 & char_mask[sym0]) as u32);
                hi_cnt = hi_cnt.wrapping_add((f1 & char_mask[sym1]) as u32);
                num2 = num2 - 1;
            }
            let (src, esc) = self.model.make_esc_freq(num_masked);
            let freq_sum = esc.wrapping_add(hi_cnt);
            let mut count = match self.rc.get_threshold(freq_sum) {
                Some(c) => c,
                None => {
                    return Ok(PPMD7_SYM_ERROR);
                },
            };
            if count < hi_cnt {
                let mut s3 = self.model.get_stats(self.model.min_context);
                let hi3 = count;
                let mut steps: u32 = 0;
                loop
                    invariant
                        self.wf(),
                        char_mask@.len() == 256,
                        steps <= 300,
                    decreases 300 - steps,
                {
                    if steps >= 300 {
                        return Ok(PPMD7_SYM_ERROR);
                    }
                    steps = steps + 1;
                    let sy = self.model.st_sym(s3) as usize;
                    let fr = (self.model.st_freq(s3) & char_mask[sy]) as u32;
                    count = count.wrapping_sub(fr);
                    s3 = s3.wrapping_add(6);
                    if count >= 0x80000000 {
                        break ;
                    }
                }
                s3 = s3.wrapping_sub(6);
                let freq = self.model.st_freq(s3) as u32;
                if !self.rc.decode_final(
                    hi3.wrapping_sub(count).wrapping_sub(freq),
                    freq,
                ) {
                    return Err(Error::IoError);
                }
                self.model.see_update(&src);
                self.model.set_found_state(s3);
                let sym = self.model.st_sym(s3);
                self.model.update2();
                return Ok(sym as i32);
            }
            if count >= freq_sum {
                return Ok(PPMD7_SYM_ERROR);
            }
            self.rc.decode(hi_cnt, freq_sum.wrapping_sub(hi_cnt));
            self.model.see_bump(&src, freq_sum);
            let mut s4 = self.model.get_stats(self.model.min_context);
            let nsym = self.model.ctx_num_stats(self.model.min_context) as u32;
            let mut m: u32 = 0;
            while m < nsym
                invariant
                    self.wf(),
                    char_mask@.len() == 256,
                    nsym <= 0x10000,
                decreases nsym - m,
            {
                let sy = self.model.st_sym(s4) as usize;
                char_mask.set(sy, 0);
                s4 = s4.wrapping_add(6);
                m = m + 1;
            }
        }
    }

    /// Clears the mask bits of every symbol from `s2` up to and including
    /// the one at `s`.
    fn mask_symbols(&self, mask: &mut Vec<u8>, s: u32, s2_start: u32)
        requires
            self.wf(),
            old(mask)@.len() == 256,
        ensures
            final(mask)@.len() == 256,
    {
        let sy = self.model.st_sym(s) as usize;
        mask.set(sy, 0);
        let mut s2 = s2_start;
        let mut g: u32 = 0;
        while s2 < s && g < 0x10000
            invariant
                self.wf(),
                mask@.len() == 256,
                g <= 0x10000,
            decreases 0x10000 - g,
        {
            let sym0 = self.model.st_sym(s2) as usize;
            let sym1 = self.model.st_sym(s2.wrapping_add(6)) as usize;
            s2 = s2.wrapping_add(12);
            mask.set(sym0, 0);
            mask.set(sym1, 0);
            g = g + 1;
        }
    }

    /// Decodes up to `max_len` bytes. After the end marker the decoder
    /// stays finished and returns what was decoded; a short read with an
    /// `Ok` result happens only at a clean end of stream, whose range
    /// coder finishes with code zero. A corrupt stream, a nonzero
    /// trailing code and an exhausted input are errors.
    pub fn read(&mut self, max_len: usize) -> (r: Result<Vec<u8>, Error>)
        requires
            old(self).wf(),
        ensures
            final(self).wf(),
            r matches Ok(v) ==> v@.len() <= max_len,
            (r matches Ok(v) && v@.len() < max_len && !old(self).spec_finished()) ==> (final(
                self).spec_finished() && final(self).spec_code() == 0),
            old(self).spec_finished() ==> (r matches Ok(v) && v@.len() == 0),
    {
        let mut out: Vec<u8> = Vec::new();
        if self.finished {
            return Ok(out);
        }
        let mut k: usize = 0;
        while k < max_len
            invariant
                self.wf(),
                out@.len() == k,
                k <= max_len,
                !old(self).spec_finished(),
            decreases max_len - k,
        {
            let sym = match self.decode_symbol() {
                Ok(sym) => sym,
                Err(e) => {
                    self.finished = true;
                    return Err(e);
                },
            };
            if sym < 0 {
                self.finished = true;
                if sym == PPMD7_SYM_END && self.rc.code() == 0 {
                    return Ok(out);
                }
                return Err(Error::IoError);
            }
            out.push((sym % 0x100) as u8);
            k = k + 1;
        }
        Ok(out)
    }
}

} // verus!
