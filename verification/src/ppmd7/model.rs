use vstd::prelude::*;

verus! {

/// Frequencies are rescaled once they pass this bound.
pub const MAX_FREQ: u32 = 124;

/// Every arena allocation is a whole number of 12-byte units.
pub const UNIT_SIZE: u32 = 12;

/// Number of free lists, one per allocation size class.
pub const PPMD_NUM_INDEXES: u32 = 38;

/// Fixed-point bits of the adaptive binary probabilities.
pub const PPMD_INT_BITS: u32 = 7;

/// Fixed-point bits of the SEE counters.
pub const PPMD_PERIOD_BITS: u32 = 7;

/// Scale of the binary-context probabilities.
pub const PPMD_BIN_SCALE: u32 = 0x4000;

/// A secondary-escape-estimation counter.
#[derive(Clone, Copy)]
pub struct See {
    /// Scaled escape frequency estimate.
    pub summ: u16,
    /// Current right-shift applied to `summ`.
    pub shift: u8,
    /// Steps until the next shift adjustment.
    pub count: u8,
}

impl See {
    /// Ages the counter: once `count` runs out below the final shift, the
    /// estimate doubles its resolution.
    pub fn update(&mut self)
    {
        if self.shift < 7 {
            let c = self.count.wrapping_sub(1);
            self.count = c;
            if c == 0 {
                let fresh = self.shift;
                self.summ = self.summ << 1;
                self.shift = self.shift + 1;
                self.count = 3u8 << fresh;
            }
        }
    }
}

/// Which SEE counter a masked decode step is using.
pub enum SeeSource {
    /// The throw-away counter used by full 256-symbol contexts.
    Dummy,
    /// A slot of the 25 by 16 table.
    Table(usize, usize),
}

/// One symbol record extracted from a context, used while rescaling.
#[derive(Clone, Copy)]
pub struct StateRec {
    /// The symbol.
    pub sym: u8,
    /// Its frequency.
    pub freq: u8,
    /// Its successor reference.
    pub succ: u32,
}

/// Sum of the frequencies of the first `n` records.
pub open spec fn sum_freqs(s: Seq<StateRec>, n: int) -> int
    decreases n,
{
    if n <= 0 {
        0
    } else {
        sum_freqs(s, n - 1) + s[n - 1].freq
    }
}

/// The order-N statistical model: a context trie held in a single byte
/// arena, addressed by 32-bit offsets, plus its adaptive tables.
pub struct Pppmd7 {
    /// The arena. Contexts, states, raw text and free blocks all live here.
    pub(crate) mem: Vec<u8>,
    pub(crate) size: u32,
    pub(crate) align_offset: u32,
    pub(crate) min_context: u32,
    pub(crate) max_context: u32,
    pub(crate) found_state: u32,
    pub(crate) order_fall: u32,
    pub(crate) init_esc: u32,
    pub(crate) prev_success: u32,
    pub(crate) max_order: u32,
    pub(crate) hi_bits_flag: u32,
    pub(crate) run_length: i32,
    pub(crate) init_rl: i32,
    pub(crate) glue_count: u32,
    pub(crate) lo_unit: u32,
    pub(crate) hi_unit: u32,
    pub(crate) text: u32,
    pub(crate) units_start: u32,
    pub(crate) index2units: Vec<u8>,
    pub(crate) units2index: Vec<u8>,
    pub(crate) free_list: Vec<u32>,
    pub(crate) ns2bs_index: Vec<u8>,
    pub(crate) ns2index: Vec<u8>,
    pub(crate) exp_escape: Vec<u8>,
    pub(crate) dummy_see: See,
    pub(crate) see: Vec<See>,
    pub(crate) bin_summ: Vec<u16>,
}

impl Pppmd7 {
    /// The configured maximum model order.
    pub closed spec fn spec_max_order(&self) -> u32 {
        self.max_order
    }

    /// The fixed table shapes and the arena size.
    pub closed spec fn wf(&self) -> bool {
        &&& self.mem@.len() == self.align_offset + self.size

        &&& self.mem@.len() <= 0xFFFFFFFF
        &&& self.index2units@.len() == 40
        &&& self.units2index@.len() == 128
        &&& self.free_list@.len() == 38
        &&& self.ns2bs_index@.len() == 256
        &&& self.ns2index@.len() == 256
        &&& self.exp_escape@.len() == 16
        &&& self.see@.len() == 400
        &&& self.bin_summ@.len() == 8192
    }

    // ---- checked arena accessors -------------------------------------

    /// Reads one arena byte; out-of-range reads yield zero.
    pub(crate) fn g8(&self, off: u32) -> u8
        requires
            self.wf(),
    {
        let i = off as usize;
        if i < self.mem.len() {
            self.mem[i]
        } else {
            0
        }
    }

    /// Writes one arena byte; out-of-range writes are dropped.
    pub(crate) fn s8(&mut self, off: u32, v: u8)
        requires
            old(self).wf(),
        ensures
            final(self).wf(),
            final(self).spec_max_order() == old(self).spec_max_order(),
    {
        let i = off as usize;
        if i < self.mem.len() {
            self.mem.set(i, v);
        }
    }

    /// Reads a 16-bit little-endian arena word.
    pub(crate) fn g16(&self, off: u32) -> u16
        requires
            self.wf(),
    {
        let lo = self.g8(off) as u16;
        let hi = self.g8(off.wrapping_add(1)) as u16;
        lo + hi * 0x100
    }

    /// Writes a 16-bit little-endian arena word.
    pub(crate) fn s16(&mut self, off: u32, v: u16)
        requires
            old(self).wf(),
        ensures
            final(self).wf(),
            final(self).spec_max_order() == old(self).spec_max_order(),
    {
        self.s8(off, (v % 0x100) as u8);
        self.s8(off.wrapping_add(1), (v / 0x100) as u8);
    }

    /// Reads a 32-bit little-endian arena word.
    pub(crate) fn g32(&self, off: u32) -> u32
        requires
            self.wf(),
    {
        let b0 = self.g8(off) as u32;
        let b1 = self.g8(off.wrapping_add(1)) as u32;
        let b2 = self.g8(off.wrapping_add(2)) as u32;
        let b3 = self.g8(off.wrapping_add(3)) as u32;
        b0 + b1 * 0x100 + b2 * 0x10000 + b3 * 0x1000000
    }

    /// Writes a 32-bit little-endian arena word.
    pub(crate) fn s32(&mut self, off: u32, v: u32)
        requires
            old(self).wf(),
        ensures
            final(self).wf(),
            final(self).spec_max_order() == old(self).spec_max_order(),
    {
        self.s8(off, (v % 0x100) as u8);
        self.s8(off.wrapping_add(1), ((v / 0x100) % 0x100) as u8);
        self.s8(off.wrapping_add(2), ((v / 0x10000) % 0x100) as u8);
        self.s8(off.wrapping_add(3), (v / 0x1000000) as u8);
    }

    // ---- checked table accessors -------------------------------------

    /// Size-class index for an allocation of `nu` units.
    pub(crate) fn u2i(&self, nu: u32) -> (r: u32)
        requires
            self.wf(),
        ensures
            r < 256,
    {
        if 1 <= nu && nu <= 128 {
            self.units2index[(nu - 1) as usize] as u32
        } else {
            0
        }
    }

    /// Unit count of a size class.
    pub(crate) fn i2u(&self, idx: u32) -> (r: u32)
        requires
            self.wf(),
        ensures
            r < 256,
    {
        if idx < 40 {
            self.index2units[idx as usize] as u32
        } else {
            0
        }
    }

    /// Head of one free list.
    pub(crate) fn fl_get(&self, idx: u32) -> u32
        requires
            self.wf(),
    {
        if idx < 38 {
            self.free_list[idx as usize]
        } else {
            0
        }
    }

    /// Replaces the head of one free list.
    pub(crate) fn fl_set(&mut self, idx: u32, v: u32)
        requires
            old(self).wf(),
        ensures
            final(self).wf(),
            final(self).spec_max_order() == old(self).spec_max_order(),
    {
        if idx < 38 {
            self.free_list.set(idx as usize, v);
        }
    }

    /// Binary-summary slot, indexed by frequency row and context column.
    pub(crate) fn bin_get(&self, row: u32, col: u32) -> u16
        requires
            self.wf(),
    {
        if row < 128 && col < 64 {
            self.bin_summ[(row * 64 + col) as usize]
        } else {
            0
        }
    }

    /// Stores a binary-summary slot.
    pub(crate) fn bin_set(&mut self, row: u32, col: u32, v: u16)
        requires
            old(self).wf(),
        ensures
            final(self).wf(),
            final(self).spec_max_order() == old(self).spec_max_order(),
    {
        if row < 128 && col < 64 {
            self.bin_summ.set((row * 64 + col) as usize, v);
        }
    }

    /// Reads a SEE counter.
    pub fn get_see(&self, src: &SeeSource) -> See
        requires
            self.wf(),
    {
        match src {
            SeeSource::Dummy => self.dummy_see,
            SeeSource::Table(i, k) => {
                if *i < 25 && *k < 16 {
                    self.see[*i * 16 + *k]
                } else {
                    self.dummy_see
                }
            },
        }
    }

    /// Stores a SEE counter back.
    pub(crate) fn set_see(&mut self, src: &SeeSource, v: See)
        requires
            old(self).wf(),
        ensures
            final(self).wf(),
            final(self).spec_max_order() == old(self).spec_max_order(),
    {
        match src {
            SeeSource::Dummy => {
                self.dummy_see = v;
            },
            SeeSource::Table(i, k) => {
                if *i < 25 && *k < 16 {
                    self.see.set(*i * 16 + *k, v);
                } else {
                    self.dummy_see = v;
                }
            },
        }
    }

    // ---- record field helpers ----------------------------------------

    /// A context's symbol count.
    pub(crate) fn ctx_num_stats(&self, c: u32) -> u16
        requires
            self.wf(),
    {
        self.g16(c)
    }

    pub(crate) fn set_ctx_num_stats(&mut self, c: u32, v: u16)
        requires
            old(self).wf(),
        ensures
            final(self).wf(),
            final(self).spec_max_order() == old(self).spec_max_order(),
    {
        self.s16(c, v)
    }

    /// A context's total frequency, escape included.
    pub(crate) fn ctx_summ(&self, c: u32) -> u16
        requires
            self.wf(),
    {
        self.g16(c.wrapping_add(2))
    }

    pub(crate) fn set_ctx_summ(&mut self, c: u32, v: u16)
        requires
            old(self).wf(),
        ensures
            final(self).wf(),
            final(self).spec_max_order() == old(self).spec_max_order(),
    {
        self.s16(c.wrapping_add(2), v)
    }

    /// Offset of a context's packed state array.
    pub(crate) fn ctx_stats(&self, c: u32) -> u32
        requires
            self.wf(),
    {
        self.g32(c.wrapping_add(4))
    }

    pub(crate) fn set_ctx_stats(&mut self, c: u32, v: u32)
        requires
            old(self).wf(),
        ensures
            final(self).wf(),
            final(self).spec_max_order() == old(self).spec_max_order(),
    {
        self.s32(c.wrapping_add(4), v)
    }

    /// A context's suffix (parent) context offset.
    pub(crate) fn ctx_suffix(&self, c: u32) -> u32
        requires
            self.wf(),
    {
        self.g32(c.wrapping_add(8))
    }

    pub(crate) fn set_ctx_suffix(&mut self, c: u32, v: u32)
        requires
            old(self).wf(),
        ensures
            final(self).wf(),
            final(self).spec_max_order() == old(self).spec_max_order(),
    {
        self.s32(c.wrapping_add(8), v)
    }

    /// The inline single-symbol state of a context.
    pub(crate) fn get_one_state(&self, c: u32) -> u32
    {
        c.wrapping_add(2)
    }

    /// The packed state array of a multi-symbol context.
    pub(crate) fn get_stats(&self, c: u32) -> u32
        requires
            self.wf(),
    {
        self.ctx_stats(c)
    }

    /// A state's symbol.
    pub(crate) fn st_sym(&self, s: u32) -> u8
        requires
            self.wf(),
    {
        self.g8(s)
    }

    pub(crate) fn set_st_sym(&mut self, s: u32, v: u8)
        requires
            old(self).wf(),
        ensures
            final(self).wf(),
            final(self).spec_max_order() == old(self).spec_max_order(),
    {
        self.s8(s, v)
    }

    /// A state's frequency.
    pub(crate) fn st_freq(&self, s: u32) -> u8
        requires
            self.wf(),
    {
        self.g8(s.wrapping_add(1))
    }

    pub(crate) fn set_st_freq(&mut self, s: u32, v: u8)
        requires
            old(self).wf(),
        ensures
            final(self).wf(),
            final(self).spec_max_order() == old(self).spec_max_order(),
    {
        self.s8(s.wrapping_add(1), v)
    }

    /// A state's successor reference.
    pub(crate) fn get_successor(&self, s: u32) -> u32
        requires
            self.wf(),
    {
        self.g32(s.wrapping_add(2))
    }

    /// Stores a state's successor reference.
    pub(crate) fn set_successor(&mut self, s: u32, v: u32)
        requires
            old(self).wf(),
        ensures
            final(self).wf(),
            final(self).spec_max_order() == old(self).spec_max_order(),
    {
        self.s32(s.wrapping_add(2), v)
    }

    /// Swaps a state with its predecessor, keeping the list frequency
    /// sorted.
    pub(crate) fn swap_states(&mut self, s: u32)
        requires
            old(self).wf(),
        ensures
            final(self).wf(),
            final(self).spec_max_order() == old(self).spec_max_order(),
    {
        let mut k: u32 = 0;
        while k < 6
            invariant
                self.wf(),
                self.spec_max_order() == old(self).spec_max_order(),
            decreases 6 - k,
        {
            let a = self.g8(s.wrapping_add(k));
            let b = self.g8(s.wrapping_sub(6).wrapping_add(k));
            self.s8(s.wrapping_add(k), b);
            self.s8(s.wrapping_sub(6).wrapping_add(k), a);
            k = k + 1;
        }
    }

    /// Copies `old_nu` 12-byte units between arena regions.
    pub(crate) fn mem_12_copy(&mut self, dst: u32, src: u32, old_nu: u32)
        requires
            old(self).wf(),
        ensures
            final(self).wf(),
            final(self).spec_max_order() == old(self).spec_max_order(),
    {
        let mut u: u32 = 0;
        while u < old_nu
            invariant
                self.wf(),
                self.spec_max_order() == old(self).spec_max_order(),
            decreases old_nu - u,
        {
            let mut k: u32 = 0;
            while k < 12
                invariant
                    self.wf(),
                    self.spec_max_order() == old(self).spec_max_order(),
                decreases 12 - k,
            {
                let b = self.g8(src.wrapping_add(u.wrapping_mul(12)).wrapping_add(k));
                self.s8(dst.wrapping_add(u.wrapping_mul(12)).wrapping_add(k), b);
                k = k + 1;
            }
            u = u + 1;
        }
    }

    // ---- free lists ---------------------------------------------------

    /// Pushes a free block onto the list of its size class.
    pub(crate) fn insert_node(&mut self, node: u32, index: u32)
        requires
            old(self).wf(),
        ensures
            final(self).wf(),
            final(self).spec_max_order() == old(self).spec_max_order(),
    {
        let head = self.fl_get(index);
        self.s32(node, head);
        self.fl_set(index, node);
    }

    /// Pops a block from the list of a size class.
    pub(crate) fn remove_node(&mut self, index: u32) -> (r: u32)
        requires
            old(self).wf(),
        ensures
            final(self).wf(),
            final(self).spec_max_order() == old(self).spec_max_order(),
    {
        let node = self.fl_get(index);
        let next = self.g32(node);
        self.fl_set(index, next);
        node
    }

    /// Splits an oversized free block, returning the tail pieces to the
    /// proper free lists.
    pub(crate) fn split_block(&mut self, ptr: u32, old_index: u32, new_index: u32)
        requires
            old(self).wf(),
        ensures
            final(self).wf(),
            final(self).spec_max_order() == old(self).spec_max_order(),
    {
        let nu = self.i2u(old_index).wrapping_sub(self.i2u(new_index));
        let p = ptr.wrapping_add(self.i2u(new_index).wrapping_mul(UNIT_SIZE));
        let mut i = self.u2i(nu);
        if self.i2u(i) != nu {
            i = i.wrapping_sub(1);
            let k = self.i2u(i);
            self.insert_node(p.wrapping_add(k.wrapping_mul(UNIT_SIZE)), nu.wrapping_sub(k).wrapping_sub(1));
        }
        self.insert_node(p, i);
    }

    /// Node field helpers for the glue pass.
    pub(crate) fn node_stamp(&self, n: u32) -> u16
        requires
            self.wf(),
    {
        self.g16(n)
    }

    pub(crate) fn node_nu(&self, n: u32) -> u16
        requires
            self.wf(),
    {
        self.g16(n.wrapping_add(2))
    }

    pub(crate) fn node_next(&self, n: u32) -> u32
        requires
            self.wf(),
    {
        self.g32(n.wrapping_add(4))
    }

    pub(crate) fn set_node(&mut self, n: u32, stamp: u16, nu: u16, next: u32)
        requires
            old(self).wf(),
        ensures
            final(self).wf(),
            final(self).spec_max_order() == old(self).spec_max_order(),
    {
        self.s16(n, stamp);
        self.s16(n.wrapping_add(2), nu);
        self.s32(n.wrapping_add(4), next);
    }

    /// Coalesces adjacent free blocks and rebuilds the free lists.
    pub(crate) fn glue_free_blocks(&mut self)
        requires
            old(self).wf(),
        ensures
            final(self).wf(),
    {
        let mut n: u32 = 0;
        self.glue_count = 255;
        if self.lo_unit != self.hi_unit {
            let lo = self.lo_unit;
            self.s16(lo, 1);
        }
        let mut i: u32 = 0;
        while i < PPMD_NUM_INDEXES
            invariant
                self.wf(),
            decreases PPMD_NUM_INDEXES - i,
        {
            let nu = self.i2u(i) as u16;
            let mut next = self.fl_get(i);
            self.fl_set(i, 0);
            let mut g: u32 = 0;
            while next != 0 && g < 0x10000000
                invariant
                    self.wf(),
                    g <= 0x10000000,
                decreases 0x10000000 - g,
            {
                let tmp = next;
                next = self.g32(tmp);
                self.set_node(tmp, 0, nu, n);
                n = tmp;
                g = g + 1;
            }
            i = i + 1;
        }
        let head = self.glue_blocks(n);
        self.fill_list(head);
    }

    /// Merges runs of adjacent free blocks into single larger blocks.
    pub(crate) fn glue_blocks(&mut self, start: u32) -> (head: u32)
        requires
            old(self).wf(),
        ensures
            final(self).wf(),
    {
        let mut head = start;
        let mut prev: u32 = 0;
        let mut n = start;
        let mut g: u32 = 0;
        while n != 0 && g < 0x10000000
            invariant
                self.wf(),
                g <= 0x10000000,
            decreases 0x10000000 - g,
        {
            g = g + 1;
            let mut nu = self.node_nu(n) as u32;
            let next = self.node_next(n);
            if nu == 0 {
                if prev == 0 {
                    head = next;
                } else {
                    self.s32(prev.wrapping_add(4), next);
                }
            } else {
                prev = n;
                let mut g2: u32 = 0;
                loop
                    invariant
                        self.wf(),
                        g2 <= 0x10000,
                    decreases 0x10000 - g2,
                {
                    let node2 = n.wrapping_add(nu.wrapping_mul(UNIT_SIZE));
                    let nu2 = self.node_nu(node2) as u32;
                    let stamp2 = self.node_stamp(node2);
                    if stamp2 != 0 || nu.wrapping_add(nu2) >= 0x10000 || g2 >= 0x10000 {
                        break ;
                    }
                    g2 = g2 + 1;
                    nu = nu.wrapping_add(nu2);
                    self.s16(node2.wrapping_add(2), 0);
                    self.s16(n.wrapping_add(2), (nu % 0x10000) as u16);
                }
            }
            n = next;
        }
        head
    }

    /// Distributes coalesced blocks back over the free lists.
    pub(crate) fn fill_list(&mut self, head: u32)
        requires
            old(self).wf(),
        ensures
            final(self).wf(),
    {
        let mut n = head;
        let mut g: u32 = 0;
        while n != 0 && g < 0x10000000
            invariant
                self.wf(),
                g <= 0x10000000,
            decreases 0x10000000 - g,
        {
            g = g + 1;
            let mut node = n;
            let mut nu = self.node_nu(node) as u32;
            n = self.node_next(node);
            if nu == 0 {
                continue ;
            }
            while nu > 128
                invariant
                    self.wf(),
                decreases nu,
            {
                self.insert_node(node, PPMD_NUM_INDEXES - 1);
                nu = nu - 128;
                node = node.wrapping_add(128u32.wrapping_mul(UNIT_SIZE));
            }
            let mut index = self.u2i(nu);
            if self.i2u(index) != nu {
                index = index.wrapping_sub(1);
                let k = self.i2u(index);
                self.insert_node(
                    node.wrapping_add(k.wrapping_mul(UNIT_SIZE)),
                    nu.wrapping_sub(k).wrapping_sub(1),
                );
            }
            self.insert_node(node, index);
        }
    }

    /// Slow-path allocation: glue, search larger classes, or take from the
    /// text gap. Returns zero when the arena is exhausted.
    pub(crate) fn alloc_units_rare(&mut self, index: u32) -> (r: u32)
        requires
            old(self).wf(),
        ensures
            final(self).wf(),
    {
        if index >= PPMD_NUM_INDEXES {
            return 0;
        }
        if self.glue_count == 0 {
            self.glue_free_blocks();
            if self.fl_get(index) != 0 {
                return self.remove_node(index);
            }
        }
        let mut i = index;
        loop
            invariant
                self.wf(),
                i < PPMD_NUM_INDEXES,
            decreases PPMD_NUM_INDEXES - i,
        {
            i = i + 1;
            if i == PPMD_NUM_INDEXES {
                let num_bytes = self.i2u(index).wrapping_mul(UNIT_SIZE);
                let us = self.units_start;
                self.glue_count = self.glue_count.wrapping_sub(1);
                return if us >= self.text && us.wrapping_sub(self.text) > num_bytes {
                    self.units_start = us - num_bytes;
                    self.units_start
                } else {
                    0
                };
            }
            if self.fl_get(i) != 0 {
                break ;
            }
        }
        let block = self.remove_node(i);
        self.split_block(block, i, index);
        block
    }

    /// Allocates `index`-class units from a free list or the unit gap.
    pub(crate) fn alloc_units(&mut self, index: u32) -> (r: u32)
        requires
            old(self).wf(),
        ensures
            final(self).wf(),
    {
        if self.fl_get(index) != 0 {
            return self.remove_node(index);
        }
        let num_bytes = self.i2u(index).wrapping_mul(UNIT_SIZE);
        let lo = self.lo_unit;
        if self.hi_unit >= lo && self.hi_unit - lo >= num_bytes {
            self.lo_unit = lo.wrapping_add(num_bytes);
            return lo;
        }
        self.alloc_units_rare(index)
    }
}

impl Pppmd7 {
    /// Builds a fresh model for the given order over `mem_size` arena bytes.
    pub fn new(order: u32, mem_size: u32) -> (r: Pppmd7)
        requires
            mem_size >= 2048,
            mem_size <= 0xFFFFFFDB,
            2 <= order <= 64,
        ensures
            r.wf(),
            r.spec_max_order() == order,
    {
        let mut units2index: Vec<u8> = Vec::new();
        let mut index2units: Vec<u8> = Vec::new();
        let mut i: u32 = 0;
        let mut k: u32 = 0;
        while i < PPMD_NUM_INDEXES
            invariant
                index2units@.len() == i,
                i <= 38,
                units2index@.len() <= 128,
                k == units2index@.len(),
            decreases PPMD_NUM_INDEXES - i,
        {
            let step: u32 = if i >= 12 {
                4
            } else {
                i / 4 + 1
            };
            let mut t: u32 = 0;
            while t < step
                invariant
                    units2index@.len() <= 128,
                    k == units2index@.len(),
                    i <= 38,
                    t <= step,
                    step <= 4,
                decreases step - t,
            {
                if units2index.len() < 128 {
                    units2index.push(i as u8);
                    k = k + 1;
                }
                t = t + 1;
            }
            index2units.push((k % 0x100) as u8);
            i = i + 1;
        }
        while units2index.len() < 128
            invariant
                units2index@.len() <= 128,
            decreases 128 - units2index@.len(),
        {
            units2index.push(37);
        }
        while index2units.len() < 40
            invariant
                index2units@.len() <= 40,
            decreases 40 - index2units@.len(),
        {
            index2units.push(0);
        }
        let mut ns2bs_index: Vec<u8> = Vec::new();
        let mut j: usize = 0;
        while j < 256
            invariant
                ns2bs_index@.len() == j,
                j <= 256,
            decreases 256 - j,
        {
            let v: u8 = if j == 0 {
                0
            } else if j == 1 {
                2
            } else if j < 11 {
                4
            } else {
                6
            };
            ns2bs_index.push(v);
            j = j + 1;
        }
        let mut ns2index: Vec<u8> = Vec::new();
        ns2index.push(0);
        ns2index.push(1);
        ns2index.push(2);
        let mut m: u32 = 3;
        let mut kk: u32 = 1;
        let mut idx: usize = 3;
        while idx < 256
            invariant
                ns2index@.len() == idx,
                3 <= idx <= 256,
            decreases 256 - idx,
        {
            ns2index.push((m % 0x100) as u8);
            kk = kk.wrapping_sub(1);
            if kk == 0 {
                m = m.wrapping_add(1);
                kk = m.wrapping_sub(2);
            }
            idx = idx + 1;
        }
        let mut exp_escape: Vec<u8> = Vec::new();
        exp_escape.push(25);
        exp_escape.push(14);
        exp_escape.push(9);
        exp_escape.push(7);
        exp_escape.push(5);
        exp_escape.push(5);
        exp_escape.push(4);
        exp_escape.push(4);
        exp_escape.push(4);
        exp_escape.push(3);
        exp_escape.push(3);
        exp_escape.push(3);
        exp_escape.push(2);
        exp_escape.push(2);
        exp_escape.push(2);
        exp_escape.push(2);
        let align_offset: u32 = (4u32.wrapping_sub(mem_size)) & 3;
        proof {
            assert((4u32.wrapping_sub(mem_size)) & 3 < 4) by (bit_vector);
        }
        let total = (align_offset + mem_size) as usize;
        let mut mem: Vec<u8> = Vec::new();
        let mut z: usize = 0;
        while z < total
            invariant
                mem@.len() == z,
                z <= total,
            decreases total - z,
        {
            mem.push(0);
            z = z + 1;
        }
        let mut free_list: Vec<u32> = Vec::new();
        let mut f: usize = 0;
        while f < 38
            invariant
                free_list@.len() == f,
                f <= 38,
            decreases 38 - f,
        {
            free_list.push(0);
            f = f + 1;
        }
        let mut see: Vec<See> = Vec::new();
        let mut sv: usize = 0;
        while sv < 400
            invariant
                see@.len() == sv,
                sv <= 400,
            decreases 400 - sv,
        {
            see.push(See { summ: 0, shift: 0, count: 0 });
            sv = sv + 1;
        }
        let mut bin_summ: Vec<u16> = Vec::new();
        let mut bv: usize = 0;
        while bv < 8192
            invariant
                bin_summ@.len() == bv,
                bv <= 8192,
            decreases 8192 - bv,
        {
            bin_summ.push(0);
            bv = bv + 1;
        }
        let mut ppmd = Pppmd7 {
            mem,
            size: mem_size,
            align_offset,
            min_context: 0,
            max_context: 0,
            found_state: 0,
            order_fall: 0,
            init_esc: 0,
            prev_success: 0,
            max_order: order,
            hi_bits_flag: 0,
            run_length: 0,
            init_rl: 0,
            glue_count: 0,
            lo_unit: 0,
            hi_unit: 0,
            text: 0,
            units_start: 0,
            index2units,
            units2index,
            free_list,
            ns2bs_index,
            ns2index,
            exp_escape,
            dummy_see: See { summ: 0, shift: 0, count: 0 },
            see,
            bin_summ,
        };
        ppmd.restart_model();
        ppmd
    }

    /// Resets the model to a single order-0 context over 256 equally likely
    /// symbols, and re-seeds the adaptive tables.
    pub(crate) fn restart_model(&mut self)
        requires
            old(self).wf(),
        ensures
            final(self).wf(),
            final(self).spec_max_order() == old(self).spec_max_order(),
    {
        let mut f: u32 = 0;
        while f < 38
            invariant
                self.wf(),
                self.spec_max_order() == old(self).spec_max_order(),
            decreases 38 - f,
        {
            self.fl_set(f, 0);
            f = f + 1;
        }
        self.text = self.align_offset;
        self.hi_unit = self.text.wrapping_add(self.size);
        self.units_start = self.hi_unit.wrapping_sub(self.size / 8 / UNIT_SIZE * 7 * UNIT_SIZE);
        self.lo_unit = self.units_start;
        self.glue_count = 0;
        self.order_fall = self.max_order;
        self.init_rl = -(if self.max_order < 12 {
            self.max_order as i32
        } else {
            12
        }) - 1;
        self.run_length = self.init_rl;
        self.prev_success = 0;
        self.hi_unit = self.hi_unit.wrapping_sub(UNIT_SIZE);
        let mc = self.hi_unit;
        let s = self.lo_unit;
        self.lo_unit = self.lo_unit.wrapping_add(128 * UNIT_SIZE);
        self.min_context = mc;
        self.max_context = mc;
        self.found_state = s;
        self.set_ctx_num_stats(mc, 256);
        self.set_ctx_summ(mc, 256 + 1);
        self.set_ctx_stats(mc, s);
        self.set_ctx_suffix(mc, 0);
        let mut i: u32 = 0;
        while i < 256
            invariant
                self.wf(),
                self.spec_max_order() == old(self).spec_max_order(),
            decreases 256 - i,
        {
            let base = s.wrapping_add(i.wrapping_mul(6));
            self.set_st_sym(base, (i % 0x100) as u8);
            self.set_st_freq(base, 1);
            self.set_successor(base, 0);
            i = i + 1;
        }
        let mut r: u32 = 0;
        while r < 128
            invariant
                self.wf(),
                self.spec_max_order() == old(self).spec_max_order(),
            decreases 128 - r,
        {
            let mut k: u32 = 0;
            while k < 8
                invariant
                    self.wf(),
                    self.spec_max_order() == old(self).spec_max_order(),
                    k <= 8,
                    r < 128,
                decreases 8 - k,
            {
                let esc = init_bin_esc(k);
                proof {
                    assert((esc as int) / (r as int + 2) < 0x4000) by (nonlinear_arith)
                        requires
                            esc <= 0x6632u32,
                            r < 128u32,
                    ;
                }
                let val = PPMD_BIN_SCALE - esc / (r + 2);
                let mut m: u32 = 0;
                while m < 64
                    invariant
                        self.wf(),
                        self.spec_max_order() == old(self).spec_max_order(),
                        k < 8,
                        m <= 64,
                        m % 8 == 0,
                    decreases 64 - m,
                {
                    self.bin_set(r, k + m, (val % 0x10000) as u16);
                    m = m + 8;
                }
                k = k + 1;
            }
            r = r + 1;
        }
        let mut si: usize = 0;
        while si < 25
            invariant
                self.wf(),
                self.spec_max_order() == old(self).spec_max_order(),
                si <= 25,
            decreases 25 - si,
        {
            let summ = ((5 * (si as u32) + 10) << (PPMD_PERIOD_BITS - 4)) % 0x10000;
            let mut sk: usize = 0;
            while sk < 16
                invariant
                    self.wf(),
                    self.spec_max_order() == old(self).spec_max_order(),
                    si < 25,
                    sk <= 16,
                decreases 16 - sk,
            {
                self.set_see(
                    &SeeSource::Table(si, sk),
                    See { summ: summ as u16, shift: (PPMD_PERIOD_BITS - 4) as u8, count: 4 },
                );
                sk = sk + 1;
            }
            si = si + 1;
        }
        self.dummy_see = See { summ: 0, shift: PPMD_PERIOD_BITS as u8, count: 64 };
    }

    /// Materialises real context records for a chain of raw-text successors,
    /// from the deepest existing context down to the maximum order. Returns
    /// zero when the arena is exhausted.
    pub(crate) fn create_successors(&mut self) -> (r: u32)
        requires
            old(self).wf(),
        ensures
            final(self).wf(),
    {
        let mut c = self.min_context;
        let mut up_branch = self.get_successor(self.found_state);
        let mut ps: Vec<u32> = Vec::new();
        if self.order_fall != 0 {
            ps.push(self.found_state);
        }
        let mut walk: u32 = 0;
        loop
            invariant
                self.wf(),
                ps@.len() <= 64,
                walk <= 0x10000,
            decreases 0x10000 - walk,
        {
            if walk >= 0x10000 {
                return 0;
            }
            walk = walk + 1;
            if self.ctx_suffix(c) == 0 {
                break ;
            }
            let mut s: u32;
            c = self.ctx_suffix(c);
            if self.ctx_num_stats(c) != 1 {
                let sym = self.st_sym(self.found_state);
                s = self.get_stats(c);
                let mut guard: u32 = 0;
                while self.st_sym(s) != sym
                    invariant
                        self.wf(),
                        guard <= 256,
                    decreases 256 - guard,
                {
                    if guard >= 256 {
                        return 0;
                    }
                    s = s.wrapping_add(6);
                    guard = guard + 1;
                }
            } else {
                s = self.get_one_state(c);
            }
            let successor = self.get_successor(s);
            if successor != up_branch {
                c = successor;
                if ps.len() == 0 {
                    return c;
                }
                break ;
            } else {
                if ps.len() >= 64 {
                    return 0;
                }
                ps.push(s);
            }
        }
        let new_sym = self.g8(up_branch);
        up_branch = up_branch.wrapping_add(1);
        let new_freq: u8;
        if self.ctx_num_stats(c) == 1 {
            new_freq = self.st_freq(self.get_one_state(c));
        } else {
            let mut s = self.get_stats(c);
            let mut guard: u32 = 0;
            while self.st_sym(s) != new_sym
                invariant
                    self.wf(),
                    guard <= 256,
                decreases 256 - guard,
            {
                if guard >= 256 {
                    return 0;
                }
                s = s.wrapping_add(6);
                guard = guard + 1;
            }
            let cf = (self.st_freq(s) as u32).wrapping_sub(1);
            let s0 = (self.ctx_summ(c) as u32).wrapping_sub(self.ctx_num_stats(c) as u32)
                .wrapping_sub(cf);
            let add: u32 = if 2u32.wrapping_mul(cf) <= s0 {
                if 5u32.wrapping_mul(cf) > s0 {
                    1
                } else {
                    0
                }
            } else if s0 > 0 && 2u32.wrapping_mul(s0) > 0 {
                ((2u32.wrapping_mul(cf).wrapping_add(s0).wrapping_sub(1)) / (2u32.wrapping_mul(
                    s0,
                ))).wrapping_add(1)
            } else {
                0
            };
            new_freq = ((1u32.wrapping_add(add)) % 0x100) as u8;
        }
        loop
            invariant
                self.wf(),
            decreases ps@.len(),
        {
            let c1: u32;
            if self.hi_unit != self.lo_unit {
                self.hi_unit = self.hi_unit.wrapping_sub(UNIT_SIZE);
                c1 = self.hi_unit;
            } else if self.fl_get(0) != 0 {
                c1 = self.remove_node(0);
            } else {
                let a = self.alloc_units_rare(0);
                if a == 0 {
                    return 0;
                }
                c1 = a;
            }
            self.set_ctx_num_stats(c1, 1);
            let one = self.get_one_state(c1);
            self.set_st_sym(one, new_sym);
            self.set_st_freq(one, new_freq);
            self.set_successor(one, up_branch);
            self.set_ctx_suffix(c1, c);
            match ps.pop() {
                Some(succ_state) => {
                    self.set_successor(succ_state, c1);
                },
                None => {
                    return 0;
                },
            }
            c = c1;
            if ps.len() == 0 {
                break ;
            }
        }
        c
    }
}

/// The initial binary-escape constants.
pub(crate) fn init_bin_esc(k: u32) -> (r: u32)
    ensures
        r <= 0x6632,
{
    if k == 0 {
        0x3CDD
    } else if k == 1 {
        0x1F3F
    } else if k == 2 {
        0x59BF
    } else if k == 3 {
        0x48F3
    } else if k == 4 {
        0x64A1
    } else if k == 5 {
        0x5ABC
    } else if k == 6 {
        0x6632
    } else {
        0x6051
    }
}

impl Pppmd7 {
    /// Moves to the successor context after a decoded symbol, creating or
    /// updating model structure as needed.
    pub(crate) fn next_context(&mut self)
        requires
            old(self).wf(),
        ensures
            final(self).wf(),
    {
        let c = self.get_successor(self.found_state);
        if self.order_fall == 0 && c > self.text {
            self.min_context = c;
            self.max_context = c;
        } else {
            self.update_model();
        }
    }

    /// Bumps the found state after a hit that was not the first symbol.
    pub(crate) fn update1(&mut self)
        requires
            old(self).wf(),
        ensures
            final(self).wf(),
    {
        let mut s = self.found_state;
        let freq = self.st_freq(s) as u32 + 4;
        let mc = self.min_context;
        let summ = (self.ctx_summ(mc) as u32).wrapping_add(4);
        self.set_ctx_summ(mc, (summ % 0x10000) as u16);
        self.set_st_freq(s, (freq % 0x100) as u8);
        if freq > self.st_freq(s.wrapping_sub(6)) as u32 {
            self.swap_states(s);
            s = s.wrapping_sub(6);
            self.found_state = s;
            if freq > MAX_FREQ {
                self.rescale();
            }
        }
        self.next_context();
    }

    /// Bumps the found state after a hit on the most probable symbol.
    pub(crate) fn update1_0(&mut self)
        requires
            old(self).wf(),
        ensures
            final(self).wf(),
    {
        let s = self.found_state;
        let mc = self.min_context;
        let mut freq = self.st_freq(s) as u32;
        let summ_freq = self.ctx_summ(mc) as u32;
        self.prev_success = if 2 * freq > summ_freq {
            1
        } else {
            0
        };
        self.run_length = self.run_length.wrapping_add(self.prev_success as i32);
        self.set_ctx_summ(mc, ((summ_freq + 4) % 0x10000) as u16);
        freq = freq + 4;
        self.set_st_freq(s, (freq % 0x100) as u8);
        if freq > MAX_FREQ {
            self.rescale();
        }
        self.next_context();
    }

    /// Bumps a single-symbol context after a hit.
    pub(crate) fn update_bin(&mut self, s: u32)
        requires
            old(self).wf(),
        ensures
            final(self).wf(),
    {
        let freq = self.st_freq(s) as u32;
        self.found_state = s;
        self.prev_success = 1;
        self.run_length = self.run_length.wrapping_add(1);
        if freq < 128 {
            self.set_st_freq(s, ((freq + 1) % 0x100) as u8);
        }
        self.next_context();
    }

    /// Bumps the found state after a masked (escape) hit.
    pub(crate) fn update2(&mut self)
        requires
            old(self).wf(),
        ensures
            final(self).wf(),
    {
        let s = self.found_state;
        let mc = self.min_context;
        let freq = self.st_freq(s) as u32 + 4;
        self.run_length = self.init_rl;
        let summ = (self.ctx_summ(mc) as u32).wrapping_add(4);
        self.set_ctx_summ(mc, (summ % 0x10000) as u16);
        self.set_st_freq(s, (freq % 0x100) as u8);
        if freq > MAX_FREQ {
            self.rescale();
        }
        self.update_model();
    }

    /// Folds the newly decoded symbol into every context between the
    /// maximum-order context and the current one, creating successor
    /// records along the way.
    pub(crate) fn update_model(&mut self)
        requires
            old(self).wf(),
        ensures
            final(self).wf(),
    {
        let mc = self.min_context;
        if (self.st_freq(self.found_state) as u32) < MAX_FREQ / 4 && self.ctx_suffix(mc) != 0 {
            let c = self.ctx_suffix(mc);
            if self.ctx_num_stats(c) == 1 {
                let s = self.get_one_state(c);
                let f = self.st_freq(s);
                if f < 32 {
                    self.set_st_freq(s, f + 1);
                }
            } else {
                let mut s = self.get_stats(c);
                let sym = self.st_sym(self.found_state);
                if self.st_sym(s) != sym {
                    let mut guard: u32 = 0;
                    let mut bad: bool = false;
                    while self.st_sym(s) != sym
                        invariant
                            self.wf(),
                            guard <= 256,
                        decreases 256 - guard,
                    {
                        if guard >= 256 {
                            bad = true;
                            break ;
                        }
                        s = s.wrapping_add(6);
                        guard = guard + 1;
                    }
                    if !bad {
                        if self.st_freq(s) >= self.st_freq(s.wrapping_sub(6)) {
                            self.swap_states(s);
                            s = s.wrapping_sub(6);
                        }
                    }
                }
                if (self.st_freq(s) as u32) < MAX_FREQ - 9 {
                    let f = self.st_freq(s) as u32 + 2;
                    self.set_st_freq(s, (f % 0x100) as u8);
                    let sm = (self.ctx_summ(c) as u32).wrapping_add(2);
                    self.set_ctx_summ(c, (sm % 0x10000) as u16);
                }
            }
        }
        if self.order_fall == 0 {
            let nc = self.create_successors();
            if nc == 0 {
                self.restart_model();
                return ;
            }
            self.min_context = nc;
            self.max_context = nc;
            self.set_successor(self.found_state, nc);
            return ;
        }
        let text0 = self.text;
        let sym = self.st_sym(self.found_state);
        self.s8(text0, sym);
        self.text = text0.wrapping_add(1);
        if self.text >= self.units_start {
            self.restart_model();
            return ;
        }
        let mut max_successor = self.text;
        let mut min_successor = self.get_successor(self.found_state);
        if min_successor == 0 {
            self.set_successor(self.found_state, max_successor);
            min_successor = self.min_context;
        } else {
            if min_successor <= max_successor {
                let nc = self.create_successors();
                if nc == 0 {
                    self.restart_model();
                    return ;
                }
                min_successor = nc;
            }
            if self.order_fall > 0 {
                self.order_fall = self.order_fall - 1;
            }
            if self.order_fall == 0 {
                max_successor = min_successor;
                if self.max_context != self.min_context {
                    self.text = self.text.wrapping_sub(1);
                }
            }
        }
        let mc0 = self.min_context;
        let mut c = self.max_context;
        self.min_context = min_successor;
        self.max_context = min_successor;
        if c == mc0 {
            return ;
        }
        let ns = self.ctx_num_stats(mc0) as u32;
        let s0 = (self.ctx_summ(mc0) as u32).wrapping_sub(ns).wrapping_sub(
            (self.st_freq(self.found_state) as u32).wrapping_sub(1),
        );
        let mut guard: u32 = 0;
        while c != mc0
            invariant
                self.wf(),
                guard <= 0xFFFF,
            decreases 0x10000 - guard,
        {
            if guard >= 0xFFFF {
                return ;
            }
            guard = guard + 1;
            let mut sum: u32;
            let ns1 = self.ctx_num_stats(c) as u32;
            if ns1 != 1 {
                if ns1 & 1 == 0 {
                    let old_nu = ns1 / 2;
                    let i = self.u2i(old_nu);
                    if i != self.u2i(old_nu + 1) {
                        let ptr = self.alloc_units(i + 1);
                        if ptr == 0 {
                            self.restart_model();
                            return ;
                        }
                        let old_ptr = self.get_stats(c);
                        self.mem_12_copy(ptr, old_ptr, old_nu);
                        self.insert_node(old_ptr, i);
                        self.set_ctx_stats(c, ptr);
                    }
                }
                sum = self.ctx_summ(c) as u32;
                let b1: u32 = if 2 * ns1 < ns {
                    1
                } else {
                    0
                };
                let b2: u32 = if 4 * ns1 <= ns && sum <= 8 * ns1 {
                    1
                } else {
                    0
                };
                sum = sum.wrapping_add(b1).wrapping_add(2 * b2);
            } else {
                let snew = self.alloc_units(0);
                if snew == 0 {
                    self.restart_model();
                    return ;
                }
                let one = self.get_one_state(c);
                let mut freq = self.st_freq(one) as u32;
                self.set_st_sym(snew, self.st_sym(one));
                let succ = self.get_successor(one);
                self.set_successor(snew, succ);
                self.set_ctx_stats(c, snew);
                if freq < MAX_FREQ / 4 - 1 {
                    freq = freq << 1;
                } else {
                    freq = MAX_FREQ - 4;
                }
                self.set_st_freq(snew, (freq % 0x100) as u8);
                let b3: u32 = if ns > 3 {
                    1
                } else {
                    0
                };
                sum = freq.wrapping_add(self.init_esc).wrapping_add(b3);
            }
            let s = self.get_stats(c).wrapping_add(ns1.wrapping_mul(6));
            let mut cf = 2u32.wrapping_mul(sum.wrapping_add(6)).wrapping_mul(
                self.st_freq(self.found_state) as u32,
            );
            let sf = s0.wrapping_add(sum);
            self.set_st_sym(s, self.st_sym(self.found_state));
            self.set_ctx_num_stats(c, ((ns1 + 1) % 0x10000) as u16);
            self.set_successor(s, max_successor);
            if cf < 6u32.wrapping_mul(sf) {
                let b4: u32 = if cf > sf {
                    1
                } else {
                    0
                };
                let b5: u32 = if cf >= 4u32.wrapping_mul(sf) {
                    1
                } else {
                    0
                };
                cf = 1 + b4 + b5;
                sum = sum.wrapping_add(3);
            } else {
                let b6: u32 = if cf >= 9u32.wrapping_mul(sf) {
                    1
                } else {
                    0
                };
                let b7: u32 = if cf >= 12u32.wrapping_mul(sf) {
                    1
                } else {
                    0
                };
                let b8: u32 = if cf >= 15u32.wrapping_mul(sf) {
                    1
                } else {
                    0
                };
                cf = 4 + b6 + b7 + b8;
                sum = sum.wrapping_add(cf);
            }
            self.set_ctx_summ(c, (sum % 0x10000) as u16);
            self.set_st_freq(s, (cf % 0x100) as u8);
            c = self.ctx_suffix(c);
        }
    }
}

/// Halves every frequency of a context's states, keeps the list sorted by
/// frequency, and drops the states whose frequency fell to zero.
///
/// This states the rescale laws: afterwards, each of the `r.0` remaining
/// records has frequency at least one; the records are non-strictly
/// decreasing by frequency; and the returned total `r.1` is exactly the sum
/// of the remaining frequencies, so the context's new total frequency is
/// that sum plus its halved escape frequency.
pub fn rescale_freqs(states: &mut Vec<StateRec>, adder: u32) -> (r: (usize, u32))
    requires
        1 <= old(states)@.len() <= 256,
        adder <= 1,
    ensures
        final(states)@.len() == old(states)@.len(),
        1 <= r.0 <= old(states)@.len(),
        forall|i: int| 0 <= i < r.0 ==> final(states)@[i].freq >= 1,
        forall|i: int, j: int|
            0 <= i < j < r.0 ==> final(states)@[i].freq >= final(states)@[j].freq,
        r.1 == sum_freqs(final(states)@, r.0 as int),
{
    let n = states.len();
    let first = states[0];
    let f0 = (((first.freq as u32) + 4 + adder) / 2) as u8;
    states.set(0, StateRec { sym: first.sym, freq: f0, succ: first.succ });
    let mut k: usize = 1;
    while k < n
        invariant
            states@.len() == n,
            n <= 256,
            adder <= 1,
            1 <= k <= n,
            states@[0].freq >= 2,
            forall|a: int, b: int| 0 <= a < b < k ==> states@[a].freq >= states@[b].freq,
        decreases n - k,
    {
        let rec = states[k];
        let hf = (((rec.freq as u32) + adder) / 2) as u8;
        states.set(k, StateRec { sym: rec.sym, freq: hf, succ: rec.succ });
        let mut j: usize = k;
        while j > 0 && states[j].freq > states[j - 1].freq
            invariant
                states@.len() == n,
                n <= 256,
                0 <= j <= k < n,
                states@[0].freq >= 2,
                forall|a: int, b: int|
                    0 <= a < b <= k && a != j && b != j ==> states@[a].freq >= states@[b].freq,
                j < k ==> states@[j as int].freq >= states@[j + 1].freq,
            decreases j,
        {
            let hi = states[j];
            let lo = states[j - 1];
            states.set(j, lo);
            states.set(j - 1, hi);
            j = j - 1;
        }
        k = k + 1;
    }
    let mut new_len: usize = n;
    while new_len > 1 && states[new_len - 1].freq == 0
        invariant
            states@.len() == n,
            n <= 256,
            1 <= new_len <= n,
            states@[0].freq >= 2,
            forall|a: int, b: int| 0 <= a < b < n ==> states@[a].freq >= states@[b].freq,
            forall|a: int| new_len <= a < n ==> states@[a].freq == 0,
        decreases new_len,
    {
        new_len = new_len - 1;
    }
    let mut total: u32 = 0;
    let mut t: usize = 0;
    while t < new_len
        invariant
            states@.len() == n,
            n <= 256,
            t <= new_len <= n,
            total == sum_freqs(states@, t as int),
            total <= 255 * t,
        decreases new_len - t,
    {
        total = total + states[t].freq as u32;
        t = t + 1;
    }
    (new_len, total)
}

impl Pppmd7 {
    /// Rescales the current context: every frequency is halved, the list is
    /// re-sorted, emptied states are dropped, and the escape frequency is
    /// halved into the new total.
    pub(crate) fn rescale(&mut self)
        requires
            old(self).wf(),
        ensures
            final(self).wf(),
    {
        let mc = self.min_context;
        let stats = self.get_stats(mc);
        let ns_raw = self.ctx_num_stats(mc) as u32;
        let ns: u32 = if ns_raw > 256 {
            256
        } else {
            ns_raw
        };
        if ns < 2 {
            return ;
        }
        let mut v: Vec<StateRec> = Vec::new();
        let mut i: u32 = 0;
        let mut orig_total: u32 = 0;
        while i < ns
            invariant
                self.wf(),
                v@.len() == i,
                i <= ns <= 256,
            decreases ns - i,
        {
            let base = stats.wrapping_add(i.wrapping_mul(6));
            let rec = StateRec {
                sym: self.st_sym(base),
                freq: self.st_freq(base),
                succ: self.get_successor(base),
            };
            orig_total = orig_total.wrapping_add(rec.freq as u32);
            v.push(rec);
            i = i + 1;
        }
        // Move the found state to the front, as the original list keeps it
        // most-frequent-first after a rescale trigger.
        let fs = self.found_state;
        let delta = fs.wrapping_sub(stats);
        let fi_raw = delta / 6;
        let fi: usize = if fi_raw < ns {
            fi_raw as usize
        } else {
            0
        };
        if fi > 0 {
            let found_rec = v[fi];
            let mut j = fi;
            while j > 0
                invariant
                    v@.len() == ns,
                    j <= fi < ns,
                decreases j,
            {
                let prev = v[j - 1];
                v.set(j, prev);
                j = j - 1;
            }
            v.set(0, found_rec);
        }
        let adder: u32 = if self.order_fall != 0 {
            1
        } else {
            0
        };
        let (new_len, total) = rescale_freqs(&mut v, adder);
        let mut esc_freq = (self.ctx_summ(mc) as u32).wrapping_sub(orig_total).wrapping_add(
            (ns as u32).wrapping_sub(new_len as u32),
        );
        let mut w: usize = 0;
        while w < new_len
            invariant
                self.wf(),
                w <= new_len <= v@.len(),
            decreases new_len - w,
        {
            let base = stats.wrapping_add((w as u32).wrapping_mul(6));
            let rec = v[w];
            self.set_st_sym(base, rec.sym);
            self.set_st_freq(base, rec.freq);
            self.set_successor(base, rec.succ);
            w = w + 1;
        }
        if new_len as u32 != ns {
            self.set_ctx_num_stats(mc, (new_len as u32 % 0x10000) as u16);
            let n0 = (ns + 1) / 2;
            if new_len == 1 {
                let rec = v[0];
                let freq = rec.freq as u32;
                loop
                    invariant
                        self.wf(),
                    decreases esc_freq,
                {
                    proof {
                        assert(esc_freq >= 2 ==> esc_freq >> 1 < esc_freq) by (bit_vector);
                        assert(esc_freq <= 1 ==> esc_freq >> 1 <= 1) by (bit_vector);
                    }
                    esc_freq = esc_freq >> 1;
                    if esc_freq <= 1 {
                        break ;
                    }
                }
                let one = self.get_one_state(mc);
                self.set_st_sym(one, rec.sym);
                self.set_st_freq(one, (freq % 0x100) as u8);
                self.set_successor(one, rec.succ);
                self.found_state = one;
                let idx = self.u2i(n0);
                self.insert_node(stats, idx);
                return ;
            }
            let n1 = (new_len as u32 + 1) / 2;
            if n0 != n1 {
                let i0 = self.u2i(n0);
                let i1 = self.u2i(n1);
                if i0 != i1 {
                    if self.fl_get(i1) != 0 {
                        let ptr = self.remove_node(i1);
                        self.set_ctx_stats(mc, ptr);
                        self.mem_12_copy(ptr, stats, n1);
                        self.insert_node(stats, i0);
                    } else {
                        self.split_block(stats, i0, i1);
                    }
                }
            }
        }
        let summ = total.wrapping_add(esc_freq).wrapping_sub(esc_freq >> 1);
        self.set_ctx_summ(mc, (summ % 0x10000) as u16);
        self.found_state = self.get_stats(mc);
    }

    /// High-bit flag used to split the binary tables by symbol class.
    pub(crate) fn hi_bits_flag3(symbol: u32) -> u32
    {
        (symbol.wrapping_add(0xC0) >> 5) & 8
    }

    /// Wider high-bit flag for the binary-summary column.
    pub(crate) fn hi_bits_flag4(symbol: u32) -> u32
    {
        (symbol.wrapping_add(0xC0) >> 4) & 16
    }

    /// Locates the adaptive binary probability slot of the current
    /// single-symbol context, and records the symbol-class flag.
    pub(crate) fn get_bin_summ(&mut self) -> (r: (u32, u32))
        requires
            old(self).wf(),
        ensures
            final(self).wf(),
    {
        let state = self.get_one_state(self.min_context);
        let hb3 = Self::hi_bits_flag3(self.st_sym(self.found_state) as u32);
        let hb4 = Self::hi_bits_flag4(self.st_sym(state) as u32);
        self.hi_bits_flag = hb3;
        let fb = self.st_freq(state) as u32;
        let row: u32 = if fb >= 1 {
            fb - 1
        } else {
            0
        };
        let suffix = self.ctx_suffix(self.min_context);
        let num_stats = self.ctx_num_stats(suffix) as u32;
        let ns_idx: u32 = if num_stats >= 1 && num_stats <= 256 {
            self.ns2bs_index[(num_stats - 1) as usize] as u32
        } else {
            0
        };
        let rl = self.run_length;
        let ru: u32 = if rl >= 0 {
            rl as u32
        } else {
            let negu = (-(rl as i64)) as u32;
            0xFFFFFFFFu32.wrapping_sub(negu).wrapping_add(1)
        };
        let rl_bits: u32 = (ru >> 26) & 0x20;
        let col = self.prev_success.wrapping_add(rl_bits).wrapping_add(ns_idx).wrapping_add(
            hb4,
        ).wrapping_add(hb3);
        (row, col)
    }

    /// Derives the escape frequency for a masked decode step from the SEE
    /// table, and says which counter was used.
    pub(crate) fn make_esc_freq(&mut self, num_masked: u32) -> (r: (SeeSource, u32))
        requires
            old(self).wf(),
        ensures
            final(self).wf(),
    {
        let num_stats = self.ctx_num_stats(self.min_context) as u32;
        if num_stats != 256 {
            let non_masked = num_stats.wrapping_sub(num_masked);
            let nm_idx: u32 = if non_masked >= 1 && non_masked <= 256 {
                self.ns2index[(non_masked - 1) as usize] as u32
            } else {
                0
            };
            let mc = self.min_context;
            let suffix = self.ctx_suffix(mc);
            let suffix_num_stats = self.ctx_num_stats(suffix) as u32;
            let summ_freq = self.ctx_summ(mc) as u32;
            let h1: usize = if non_masked < suffix_num_stats.wrapping_sub(num_stats) {
                1
            } else {
                0
            };
            let h2: usize = if summ_freq < 11u32.wrapping_mul(num_stats) {
                2
            } else {
                0
            };
            let h4: usize = if num_masked > non_masked {
                4
            } else {
                0
            };
            let hash = h1 + h2 + h4 + (self.hi_bits_flag % 0x10000) as usize;
            let src = SeeSource::Table(nm_idx as usize, hash);
            let mut see = self.get_see(&src);
            let summ = see.summ as u32;
            let sh: u32 = if see.shift < 32 {
                see.shift as u32
            } else {
                31
            };
            let rr = summ >> sh;
            see.summ = (summ.wrapping_sub(rr) % 0x10000) as u16;
            self.set_see(&src, see);
            let esc = rr + if rr == 0 {
                1
            } else {
                0
            };
            (src, esc)
        } else {
            (SeeSource::Dummy, 1)
        }
    }

    /// Ages one SEE counter in place.
    pub(crate) fn see_update(&mut self, src: &SeeSource)
        requires
            old(self).wf(),
        ensures
            final(self).wf(),
    {
        let mut see = self.get_see(src);
        see.update();
        self.set_see(src, see);
    }

    /// Adds the step's total frequency to one SEE counter.
    pub(crate) fn see_bump(&mut self, src: &SeeSource, total: u32)
        requires
            old(self).wf(),
        ensures
            final(self).wf(),
    {
        let mut see = self.get_see(src);
        see.summ = see.summ.wrapping_add((total % 0x10000) as u16);
        self.set_see(src, see);
    }

    /// The escape-probability seed picked after a binary-context miss.
    pub(crate) fn exp_escape_at(&self, idx: u32) -> u8
        requires
            self.wf(),
    {
        if idx < 16 {
            self.exp_escape[idx as usize]
        } else {
            0
        }
    }
}

impl Pppmd7 {
    /// Points the found-state cursor at a state record.
    pub(crate) fn set_found_state(&mut self, v: u32)
        requires
            old(self).wf(),
        ensures
            final(self).wf(),
    {
        self.found_state = v;
    }

    /// Records whether the last step hit the most probable symbol.
    pub(crate) fn set_prev_success(&mut self, v: u32)
        requires
            old(self).wf(),
        ensures
            final(self).wf(),
    {
        self.prev_success = v;
    }

    /// Records the symbol-class flag of the current step.
    pub(crate) fn set_hi_bits_flag(&mut self, v: u32)
        requires
            old(self).wf(),
        ensures
            final(self).wf(),
    {
        self.hi_bits_flag = v;
    }

    /// Seeds the escape frequency for a fresh two-symbol context.
    pub(crate) fn set_init_esc(&mut self, v: u32)
        requires
            old(self).wf(),
        ensures
            final(self).wf(),
    {
        self.init_esc = v;
    }

    /// Moves the current-context cursor.
    pub(crate) fn set_min_context(&mut self, v: u32)
        requires
            old(self).wf(),
        ensures
            final(self).wf(),
    {
        self.min_context = v;
    }

    /// Counts one more dropped context level.
    pub(crate) fn bump_order_fall(&mut self)
        requires
            old(self).wf(),
        ensures
            final(self).wf(),
    {
        self.order_fall = self.order_fall.wrapping_add(1);
    }
}

} // verus!
