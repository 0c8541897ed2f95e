use vstd::prelude::*;

use crate::ppmd7::decoder::fresh_mask;
use crate::ppmd7::decoder::ppmd_update_prob_1;
use crate::ppmd7::model::Pppmd7;
use crate::ppmd7::range::RangeEncoder;
use crate::ppmd7::Error;
use crate::ppmd7::PPMD7_MAX_MEM_SIZE;
use crate::ppmd7::PPMD7_MAX_ORDER;
use crate::ppmd7::PPMD7_MIN_MEM_SIZE;
use crate::ppmd7::PPMD7_MIN_ORDER;

verus! {

/// An encoder producing PPMd7 (PPMdH) data framed by the 7z range coder.
pub struct Ppmd7Encoder {
    model: Pppmd7,
    rc: RangeEncoder,
}

impl Ppmd7Encoder {
    /// The model tables keep their shape and the coder its pending byte.
    pub closed spec fn wf(&self) -> bool {
        self.model.wf() && self.rc.wf()
    }

    /// The compressed bytes emitted so far.
    pub closed spec fn spec_output(&self) -> Seq<u8> {
        self.rc.spec_out()
    }

    /// Creates a new [`Ppmd7Encoder`]: it succeeds exactly when the order
    /// and memory size are in the format's ranges, starting with an empty
    /// output; out of range it fails with `InvalidParameter`.
    pub fn new(order: u32, mem_size: u32) -> (r: Result<Ppmd7Encoder, Error>)
        ensures
            r is Ok <==> PPMD7_MIN_ORDER <= order <= PPMD7_MAX_ORDER && PPMD7_MIN_MEM_SIZE
                <= mem_size <= PPMD7_MAX_MEM_SIZE,
            r matches Ok(e) ==> e.wf() && e.spec_output().len() == 0,
            (order < PPMD7_MIN_ORDER || order > PPMD7_MAX_ORDER || mem_size < PPMD7_MIN_MEM_SIZE
                || mem_size > PPMD7_MAX_MEM_SIZE) ==> (r matches Err(e) && e
                == Error::InvalidParameter),
    {
        if order < PPMD7_MIN_ORDER || order > PPMD7_MAX_ORDER || mem_size < PPMD7_MIN_MEM_SIZE
            || mem_size > PPMD7_MAX_MEM_SIZE {
            return Err(Error::InvalidParameter);
        }
        let model = Pppmd7::new(order, mem_size);
        Ok(Ppmd7Encoder { model, rc: RangeEncoder::new() })
    }

    /// Encodes one symbol. Returns `false` when the model was found in an
    /// inconsistent state, which a correct encoding run never produces.
    fn encode_symbol(&mut self, symbol: u8) -> (r: bool)
        requires
            old(self).wf(),
        ensures
            final(self).wf(),
            final(self).spec_output().len() >= old(self).spec_output().len(),
    {
        let mut char_mask: Vec<u8>;
        let mc = self.model.min_context;
        if self.model.ctx_num_stats(mc) != 1 {
            let mut s = self.model.get_stats(mc);
            let summ_freq = self.model.ctx_summ(mc) as u32;
            if summ_freq == 0 {
                return false;
            }
            self.rc.div_range(summ_freq);
            if self.model.st_sym(s) == symbol {
                self.rc.encode_final(0, self.model.st_freq(s) as u32);
                self.model.set_found_state(s);
                self.model.update1_0();
                return true;
            }
            self.model.set_prev_success(0);
            let mut sum = self.model.st_freq(s) as u32;
            let num_stats = self.model.ctx_num_stats(mc) as u32;
            let mut i: u32 = 1;
            let mut found: bool = false;
            while i < num_stats
                invariant
                    self.wf(),
                    self.spec_output().len() >= old(self).spec_output().len(),
                    num_stats <= 0x10000,
                decreases num_stats - i,
            {
                s = s.wrapping_add(6);
                if self.model.st_sym(s) == symbol {
                    found = true;
                    break ;
                }
                sum = sum.wrapping_add(self.model.st_freq(s) as u32);
                i = i + 1;
            }
            if found {
                self.rc.encode_final(sum, self.model.st_freq(s) as u32);
                self.model.set_found_state(s);
                self.model.update1();
                return true;
            }
            self.rc.encode(sum, summ_freq.wrapping_sub(sum));
            let fsym = self.model.st_sym(self.model.found_state) as u32;
            let hb = Pppmd7::hi_bits_flag3(fsym);
            self.model.set_hi_bits_flag(hb);
            char_mask = fresh_mask();
            let s2 = self.model.get_stats(mc);
            self.mask_symbols(&mut char_mask, s, s2);
        } else {
            let s = self.model.get_one_state(mc);
            let (row, col) = self.model.get_bin_summ();
            let mut pr = self.model.bin_get(row, col) as u32;
            let bound = (self.rc.range() >> 14).wrapping_mul(pr);
            let pr2 = ppmd_update_prob_1(pr);
            if self.model.st_sym(s) == symbol {
                self.model.bin_set(row, col, (pr2.wrapping_add(1u32 << 7) % 0x10000) as u16);
                self.rc.encode_bit_0(bound);
                self.model.update_bin(s);
                return true;
            }
            self.model.bin_set(row, col, (pr2 % 0x10000) as u16);
            let esc0 = self.model.exp_escape_at(pr2 >> 10) as u32;
            self.model.set_init_esc(esc0);
            self.rc.encode_bit_1(bound);
            char_mask = fresh_mask();
            let msym = self.model.st_sym(s);
            char_mask.set(msym as usize, 0);
            self.model.set_prev_success(0);
        }
        let mut rounds: u32 = 0;
        loop
            invariant
                self.wf(),
                self.spec_output().len() >= old(self).spec_output().len(),
                char_mask@.len() == 256,
                rounds <= 0x10000,
            decreases 0x10000 - rounds,
        {
            if rounds >= 0x10000 {
                return false;
            }
            rounds = rounds + 1;
            self.rc.normalize_remote();
            let mut mc2 = self.model.min_context;
            let num_masked = self.model.ctx_num_stats(mc2) as u32;
            let mut i: u32;
            let mut walk: u32 = 0;
            loop
                invariant
                    self.wf(),
                    self.spec_output().len() >= old(self).spec_output().len(),
                    walk <= 0x10000,
                decreases 0x10000 - walk,
            {
                if walk >= 0x10000 {
                    return false;
                }
                walk = walk + 1;
                self.model.bump_order_fall();
                if self.model.ctx_suffix(mc2) == 0 {
                    return true;
                }
                mc2 = self.model.ctx_suffix(mc2);
                i = self.model.ctx_num_stats(mc2) as u32;
                if i != num_masked {
                    break ;
                }
            }
            self.model.set_min_context(mc2);
            let (src, esc_freq) = self.model.make_esc_freq(num_masked);
            let mut sum: u32 = 0;
            let mut s = self.model.get_stats(mc2);
            let mut steps: u32 = 0;
            while i != 0
                invariant
                    self.wf(),
                    self.spec_output().len() >= old(self).spec_output().len(),
                    char_mask@.len() == 256,
                    steps <= 0x10000,
                decreases 0x10000 - steps,
            {
                if steps >= 0x10000 {
                    return false;
                }
                steps = steps + 1;
                let cur = self.model.st_sym(s);
                if cur == symbol {
                    let low = sum;
                    let freq = self.model.st_freq(s) as u32;
                    self.model.see_update(&src);
                    self.model.set_found_state(s);
                    sum = sum.wrapping_add(esc_freq);
                    let mut num2 = i / 2;
                    i = i & 1;
                    sum = sum.wrapping_add(freq & 0u32.wrapping_sub(i));
                    if num2 != 0 {
                        s = s.wrapping_add(6u32.wrapping_mul(i));
                        while num2 != 0
                            invariant
                                self.wf(),
                                self.spec_output().len() >= old(self).spec_output().len(),
                                char_mask@.len() == 256,
                            decreases num2,
                        {
                            let sym0 = self.model.st_sym(s) as usize;
                            let sym1 = self.model.st_sym(s.wrapping_add(6)) as usize;
                            let f0 = self.model.st_freq(s);
                            let f1 = self.model.st_freq(s.wrapping_add(6));
                            s = s.wrapping_add(12);
                            sum = sum.wrapping_add((f0 & char_mask[sym0]) as u32);
                            sum = sum.wrapping_add((f1 & char_mask[sym1]) as u32);
                            num2 = num2 - 1;
                        }
                    }
                    if sum == 0 {
                        return false;
                    }
                    self.rc.div_range(sum);
                    self.rc.encode_final(low, freq);
                    self.model.update2();
                    return true;
                }
                let masked = char_mask[cur as usize];
                sum = sum.wrapping_add((self.model.st_freq(s) & masked) as u32);
                s = s.wrapping_add(6);
                i = i.wrapping_sub(1);
            }
            let total = sum.wrapping_add(esc_freq);
            if total == 0 {
                return false;
            }
            self.model.see_bump(&src, total);
            self.rc.div_range(total);
            self.rc.encode(sum, esc_freq);
            let s2 = self.model.get_stats(self.model.min_context);
            let last = s.wrapping_sub(6);
            self.mask_symbols(&mut char_mask, last, s2);
        }
    }

    /// Clears the mask bits of every symbol from `s2` up to and including
    /// the one at `s`.
    fn mask_symbols(&self, mask: &mut Vec<u8>, s: u32, s2_start: u32)
        requires
            self.wf(),
            old(mask)@.len() == 256,
        ensures
            final(mask)@.len() == 256,
    {
        let sy = self.model.st_sym(s) as usize;
        mask.set(sy, 0);
        let mut s2 = s2_start;
        let mut g: u32 = 0;
        while s2 < s && g < 0x10000
            invariant
                self.wf(),
                mask@.len() == 256,
                g <= 0x10000,
            decreases 0x10000 - g,
        {
            let sym0 = self.model.st_sym(s2) as usize;
            let sym1 = self.model.st_sym(s2.wrapping_add(6)) as usize;
            s2 = s2.wrapping_add(12);
            mask.set(sym0, 0);
            mask.set(sym1, 0);
            g = g + 1;
        }
    }

    /// Encodes every byte of `buf`; the compressed output only grows.
    pub fn write(&mut self, buf: &Vec<u8>) -> (r: Result<(), Error>)
        requires
            old(self).wf(),
        ensures
            final(self).wf(),
            final(self).spec_output().len() >= old(self).spec_output().len(),
    {
        let mut k: usize = 0;
        while k < buf.len()
            invariant
                self.wf(),
                self.spec_output().len() >= old(self).spec_output().len(),
            decreases buf@.len() - k,
        {
            if !self.encode_symbol(buf[k]) {
                return Err(Error::InternalError);
            }
            k = k + 1;
        }
        Ok(())
    }

    /// Flushes the range coder; after this the compressed stream is
    /// complete, the output at most five bytes longer.
    pub fn flush(&mut self)
        requires
            old(self).wf(),
        ensures
            final(self).wf(),
            final(self).spec_output().len() >= old(self).spec_output().len(),
    {
        self.rc.flush();
    }

    /// Hands back the compressed bytes.
    pub fn into_output(self) -> (r: Vec<u8>)
        ensures
            r@ == self.spec_output(),
    {
        self.rc.into_output()
    }

    /// A copy of the compressed bytes produced so far.
    pub fn output_so_far(&self) -> (r: Vec<u8>)
    {
        self.rc.output_so_far()
    }
}

} // verus!
