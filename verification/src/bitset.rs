use vstd::prelude::*;

verus! {

/// Whether the raw bit at position `i` of the block vector is set.
pub open spec fn raw_bit(bits: Seq<u64>, i: int) -> bool {
    (bits[i / 64] >> ((i % 64) as u64)) & 1 == 1
}

proof fn lemma_div_block(i: int, n: int)
    by (nonlinear_arith)
    requires
        0 <= i,
        i < n * 64,
    ensures
        0 <= i / 64 < n,
        0 <= i % 64 < 64,
        i == 64 * (i / 64) + i % 64,
{
}

proof fn lemma_div_mod_eq(i: int, j: int)
    by (nonlinear_arith)
    requires
        0 <= i,
        0 <= j,
        i / 64 == j / 64,
        i % 64 == j % 64,
    ensures
        i == j,
{
}

proof fn lemma_zero_bit(q: u64)
    ensures
        (0u64 >> q) & 1 != 1,
{
    assert((0u64 >> q) & 1 != 1) by (bit_vector);
}

/// A set of small indices represented as a bit vector, as the header format
/// stores per-file flags.
#[derive(Clone)]
pub struct BitSet {
    /// The bits, 64 to a block.
    bits: Vec<u64>,
    /// The number of bit positions in the set (not the number of set bits).
    bit_count: usize,
}

impl BitSet {
    /// The block vector covers every position, and every bit at or above the
    /// position count is clear.
    pub closed spec fn wf(&self) -> bool {
        &&& self.bit_count <= self.bits@.len() * 64
        &&& forall|i: int|
            self.bit_count <= i < self.bits@.len() * 64 ==> !raw_bit(self.bits@, i)
    }

    /// The number of positions this set ranges over.
    pub closed spec fn spec_capacity(&self) -> int {
        self.bit_count as int
    }

    /// Whether position `i` is in the set.
    pub closed spec fn spec_has(&self, i: int) -> bool {
        0 <= i < self.bit_count && i / 64 < self.bits@.len() && raw_bit(self.bits@, i)
    }

    /// How many of the positions below `n` are in the set.
    pub closed spec fn spec_count(&self, n: int) -> int
        decreases n,
    {
        if n <= 0 {
            0
        } else {
            self.spec_count(n - 1) + if self.spec_has(n - 1) {
                1int
            } else {
                0int
            }
        }
    }

    /// Returns a new empty [`BitSet`].
    pub fn new() -> (r: BitSet)
        ensures
            r.wf(),
            r.spec_capacity() == 0,
            forall|i: int| !r.spec_has(i),
    {
        BitSet { bits: Vec::new(), bit_count: 0 }
    }

    /// Returns a new [`BitSet`] ranging over `bit_count` positions, all clear.
    pub fn with_capacity(bit_count: usize) -> (r: BitSet)
        ensures
            r.wf(),
            r.spec_capacity() == bit_count,
            forall|i: int| !r.spec_has(i),
    {
        let num_blocks = Self::blocks_for_bits(bit_count);
        let mut bits: Vec<u64> = Vec::new();
        for j in 0..num_blocks
            invariant
                bits@.len() == j,
                forall|b: int| 0 <= b < j ==> bits@[b] == 0,
        {
            bits.push(0);
        }
        let r = BitSet { bits, bit_count };
        proof {
            assert forall|i: int| 0 <= i < r.bits@.len() * 64 implies !raw_bit(r.bits@, i) by {
                lemma_div_block(i, r.bits@.len() as int);
                lemma_zero_bit((i % 64) as u64);
            }
        }
        r
    }


    /// Returns the number of positions this set ranges over.
    pub fn capacity(&self) -> (r: usize)
        ensures
            r == self.spec_capacity(),
    {
        self.bit_count
    }

    /// Returns the number of set bits in this set.
    pub fn len(&self) -> (r: usize)
        ensures
            r == self.spec_count(self.spec_capacity()),
    {
        let mut count: usize = 0;
        for i in 0..self.bit_count
            invariant
                count == self.spec_count(i as int),
                count <= i,
        {
            if self.contains_raw(i) {
                count = count + 1;
            }
        }
        count
    }

    /// Tests one position.
    fn contains_raw(&self, value: usize) -> (r: bool)
        ensures
            r == self.spec_has(value as int),
    {
        if value >= self.bit_count {
            return false;
        }
        let block_idx = value / 64;
        let bit_idx = (value % 64) as u64;
        if block_idx >= self.bits.len() {
            return false;
        }
        (self.bits[block_idx] >> bit_idx) & 1 == 1
    }

    /// Returns `true` if this set contains the specified value.
    pub fn contains(&self, value: usize) -> (r: bool)
        ensures
            r == self.spec_has(value as int),
    {
        self.contains_raw(value)
    }

    /// Adds a value to the set.
    ///
    /// Returns `false` if the value was already present in the set.
    pub fn insert(&mut self, value: usize) -> (r: bool)
        requires
            old(self).wf(),
            value < usize::MAX,
        ensures
            final(self).wf(),
            r == !old(self).spec_has(value as int),
            final(self).spec_capacity() >= old(self).spec_capacity(),
            final(self).spec_capacity() > value,
            final(self).spec_capacity() == if value < old(self).spec_capacity() {
                old(self).spec_capacity()
            } else {
                value + 1
            },
            forall|i: int| final(self).spec_has(i) <==> old(self).spec_has(i) || i == value,
    {
        if self.contains_raw(value) {
            return false;
        }
        if value >= self.bit_count {
            self.grow(value + 1);
        }
        let ghost mid = *self;
        let block_idx = value / 64;
        let bit_idx = (value % 64) as u64;
        proof {
            lemma_div_block(value as int, self.bits@.len() as int);
        }
        let old_block = self.bits[block_idx];
        let new_block = old_block | (1u64 << bit_idx);
        self.bits.set(block_idx, new_block);
        proof {
            let r: u64 = bit_idx;
            let x: u64 = old_block;
            assert forall|q: u64| q < 64 && q != r implies ((x | (1u64 << r)) >> q) & 1 == (x >> q)
                & 1 by {
                assert(q < 64 && r < 64 && q != r ==> ((x | (1u64 << r)) >> q) & 1 == (x >> q) & 1)
                    by (bit_vector);
            }
            assert(r < 64 ==> ((x | (1u64 << r)) >> r) & 1 == 1) by (bit_vector);
            assert forall|i: int| #![auto] 0 <= i < self.bits@.len() * 64 && i != value implies
                raw_bit(self.bits@, i) == raw_bit(mid.bits@, i) by {
                lemma_div_block(i, self.bits@.len() as int);
                if i / 64 == block_idx as int && i % 64 == value as int % 64 {
                    lemma_div_mod_eq(i, value as int);
                }
            }
            assert(raw_bit(self.bits@, value as int));
            assert forall|i: int|
                self.bit_count <= i < self.bits@.len() * 64 implies !raw_bit(self.bits@, i) by {
                assert(i != value);
                assert(raw_bit(self.bits@, i) == raw_bit(mid.bits@, i));
                assert(!raw_bit(mid.bits@, i));
            }
        }
        true
    }

    /// Removes a value from the set.
    ///
    /// Returns `true` if the value was present in the set.
    pub fn remove(&mut self, value: usize) -> (r: bool)
        requires
            old(self).wf(),
        ensures
            final(self).wf(),
            final(self).spec_capacity() == old(self).spec_capacity(),
            r == old(self).spec_has(value as int),
            forall|i: int| final(self).spec_has(i) <==> old(self).spec_has(i) && i != value,
    {
        if !self.contains_raw(value) {
            return false;
        }
        let block_idx = value / 64;
        let bit_idx = (value % 64) as u64;
        proof {
            lemma_div_block(value as int, self.bits@.len() as int);
        }
        let old_block = self.bits[block_idx];
        let new_block = old_block & !(1u64 << bit_idx);
        self.bits.set(block_idx, new_block);
        proof {
            let r: u64 = bit_idx;
            let x: u64 = old_block;
            assert forall|q: u64| q < 64 && q != r implies ((x & !(1u64 << r)) >> q) & 1 == (x
                >> q) & 1 by {
                assert(q < 64 && r < 64 && q != r ==> ((x & !(1u64 << r)) >> q) & 1 == (x >> q) & 1)
                    by (bit_vector);
            }
            assert(r < 64 ==> ((x & !(1u64 << r)) >> r) & 1 != 1) by (bit_vector);
            assert forall|i: int| #![auto] 0 <= i < self.bits@.len() * 64 && i != value implies
                raw_bit(self.bits@, i) == raw_bit(old(self).bits@, i) by {
                lemma_div_block(i, self.bits@.len() as int);
                if i / 64 == block_idx as int && i % 64 == value as int % 64 {
                    lemma_div_mod_eq(i, value as int);
                }
            }
            assert(!raw_bit(self.bits@, value as int));
        }
        true
    }

    /// Computes how many blocks are needed to store that many bits.
    fn blocks_for_bits(bits: usize) -> (r: usize)
        ensures
            r * 64 >= bits,
    {
        if bits == 0 {
            return 0;
        }
        (bits - 1) / 64 + 1
    }

    /// Grows the set to range over at least `new_len` positions, leaving
    /// every membership unchanged.
    fn grow(&mut self, new_len: usize)
        requires
            old(self).wf(),
        ensures
            final(self).wf(),
            final(self).spec_capacity() == if new_len <= old(self).spec_capacity() {
                old(self).spec_capacity()
            } else {
                new_len as int
            },
            forall|i: int| final(self).spec_has(i) <==> old(self).spec_has(i),
    {
        if new_len <= self.bit_count {
            return ;
        }
        let old_num_blocks = self.bits.len();
        let new_num_blocks = Self::blocks_for_bits(new_len);
        if new_num_blocks > old_num_blocks {
            for j in 0..new_num_blocks - old_num_blocks
                invariant
                    self.bits@.len() == old_num_blocks + j,
                    self.bits@.subrange(0, old_num_blocks as int) =~= old(self).bits@,
                    forall|b: int| old_num_blocks <= b < self.bits@.len() ==> self.bits@[b] == 0,
                    self.bit_count == old(self).bit_count,
            {
                self.bits.push(0);
            }
        }
        self.bit_count = new_len;
        proof {
            let olen = old(self).bits@.len() as int;
            assert forall|i: int| #![auto] 0 <= i < self.bits@.len() * 64 implies raw_bit(
                self.bits@,
                i,
            ) == (i < olen * 64 && raw_bit(old(self).bits@, i)) by {
                lemma_div_block(i, self.bits@.len() as int);
                if i / 64 < olen {
                    assert(self.bits@[i / 64] == old(self).bits@[i / 64]);
                    assert(i < olen * 64) by (nonlinear_arith)
                        requires
                            i / 64 < olen,
                            i == 64 * (i / 64) + i % 64,
                            0 <= i % 64 < 64,
                    ;
                } else {
                    assert(self.bits@[i / 64] == 0u64);
                    lemma_zero_bit((i % 64) as u64);
                    assert(i >= olen * 64) by (nonlinear_arith)
                        requires
                            i / 64 >= olen,
                            i == 64 * (i / 64) + i % 64,
                            0 <= i % 64 < 64,
                    ;
                }
            }
        }
    }

    /// Reserves the minimum capacity for the given [`BitSet`] to contain
    /// `count` distinct positions.
    pub fn reserve_len_exact(&mut self, count: usize)
        requires
            old(self).wf(),
        ensures
            final(self).wf(),
            final(self).spec_capacity() >= old(self).spec_capacity(),
            final(self).spec_capacity() >= count,
            final(self).spec_capacity() <= old(self).spec_capacity() + count,
            forall|i: int| final(self).spec_has(i) <==> old(self).spec_has(i),
    {
        self.grow(count);
    }
}

/// Serializes a bit set most-significant-bit first, eight positions to a
/// byte, as the header format stores bit fields.
pub fn write_bit_set(out: &mut Vec<u8>, bs: &BitSet) -> (n: usize)
    requires
        old(out)@.len() + bs.spec_capacity() / 8 + 1 <= usize::MAX,
        bs.spec_capacity() + 7 <= usize::MAX,
    ensures
        final(out)@.len() == old(out)@.len() + n,
        n == (bs.spec_capacity() + 7) / 8,
        final(out)@.subrange(0, old(out)@.len() as int) =~= old(out)@,
{
    let count = bs.capacity();
    let mut cache: u8 = 0;
    let mut i: usize = 0;
    let ghost base = out@.len() as int;
    while i < count
        invariant
            count == bs.spec_capacity(),
            i <= count,
            out@.len() == base + i / 8,
            base + count / 8 + 1 <= usize::MAX,
            forall|j: int| 0 <= j < base ==> out@[j] == old(out)@[j],
        decreases count - i,
    {
        let set: u8 = if bs.contains(i) {
            1
        } else {
            0
        };
        let shift: u8 = 7 - (i % 8) as u8;
        cache = cache | (set << shift);
        if i % 8 == 7 {
            out.push(cache);
            cache = 0;
        }
        i = i + 1;
        proof {
            lemma_div8_step(i as int);
        }
    }
    if count % 8 != 0 {
        out.push(cache);
    }
    proof {
        lemma_div8_round(count as int);
        assert(out@.subrange(0, base) =~= old(out)@);
    }
    (count + 7) / 8
}

proof fn lemma_div8_step(i: int)
    by (nonlinear_arith)
    requires
        i >= 1,
    ensures
        (i - 1) % 8 == 7 ==> i / 8 == (i - 1) / 8 + 1,
        (i - 1) % 8 != 7 ==> i / 8 == (i - 1) / 8,
{
}

proof fn lemma_div8_round(n: int)
    by (nonlinear_arith)
    requires
        n >= 0,
    ensures
        n % 8 == 0 ==> (n + 7) / 8 == n / 8,
        n % 8 != 0 ==> (n + 7) / 8 == n / 8 + 1,
{
}

} // verus!
