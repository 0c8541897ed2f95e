use vstd::prelude::*;

verus! {

/// Number of 2-byte hash buckets.
pub const HASH2_SIZE: u32 = 0x400;

/// Mask selecting a 2-byte hash bucket.
pub const HASH2_MASK: u32 = 0x3FF;

/// Number of 3-byte hash buckets.
pub const HASH3_SIZE: u32 = 0x10000;

/// Mask selecting a 3-byte hash bucket.
pub const HASH3_MASK: u32 = 0xFFFF;

/// One step of the reflected CRC-32 recurrence, applied `rounds` times.
pub open spec fn spec_crc_rounds(c: u32, rounds: int) -> u32
    decreases rounds,
{
    if rounds <= 0 {
        c
    } else {
        let p = spec_crc_rounds(c, rounds - 1);
        if p & 1 == 1 {
            0xEDB88320 ^ (p >> 1)
        } else {
            p >> 1
        }
    }
}

/// Builds the standard reflected CRC-32 table the hash chains mix with.
fn build_crc_table() -> (r: Vec<u32>)
    ensures
        r@.len() == 256,
        forall|i: int| 0 <= i < 256 ==> r@[i] == spec_crc_rounds(i as u32, 8),
{
    let mut table: Vec<u32> = Vec::new();
    let mut i: u32 = 0;
    while i < 256
        invariant
            table@.len() == i,
            i <= 256,
            forall|q: int| 0 <= q < i ==> table@[q] == spec_crc_rounds(q as u32, 8),
        decreases 256 - i,
    {
        let mut c: u32 = i;
        let mut j: u32 = 0;
        while j < 8
            invariant
                j <= 8,
                i < 256,
                c == spec_crc_rounds(i, j as int),
            decreases 8 - j,
        {
            if c & 1 == 1 {
                c = 0xEDB88320 ^ (c >> 1);
            } else {
                c = c >> 1;
            }
            j = j + 1;
        }
        table.push(c);
        i = i + 1;
    }
    table
}

/// Hash chains over the last two, three and four bytes, as the LZ match
/// finder uses to locate earlier occurrences.
pub struct Hash234 {
    crc_table: Vec<u32>,
    hash4_mask: u32,
    hash2_table: Vec<i32>,
    hash3_table: Vec<i32>,
    hash4_table: Vec<i32>,
    hash4_size: u32,
    hash2_value: u32,
    hash3_value: u32,
    hash4_value: u32,
}

impl Hash234 {
    /// The mixing table.
    pub closed spec fn spec_crc_table(&self) -> Seq<u32> {
        self.crc_table@
    }

    /// The current 2-byte hash value.
    pub closed spec fn spec_hash2_value(&self) -> u32 {
        self.hash2_value
    }

    /// The current 3-byte hash value.
    pub closed spec fn spec_hash3_value(&self) -> u32 {
        self.hash3_value
    }

    /// The current 4-byte hash value.
    pub closed spec fn spec_hash4_value(&self) -> u32 {
        self.hash4_value
    }

    /// The 4-byte bucket mask.
    pub closed spec fn spec_hash4_mask(&self) -> u32 {
        self.hash4_mask
    }

    /// The recorded chain heads for 2-byte hashes.
    pub closed spec fn spec_hash2_table(&self) -> Seq<i32> {
        self.hash2_table@
    }

    /// The recorded chain heads for 3-byte hashes.
    pub closed spec fn spec_hash3_table(&self) -> Seq<i32> {
        self.hash3_table@
    }

    /// The recorded chain heads for 4-byte hashes.
    pub closed spec fn spec_hash4_table(&self) -> Seq<i32> {
        self.hash4_table@
    }

    /// The tables have their fixed sizes and the current hash values are
    /// in range.
    pub closed spec fn wf(&self) -> bool {
        &&& self.crc_table@.len() == 256
        &&& self.hash2_table@.len() == HASH2_SIZE
        &&& self.hash3_table@.len() == HASH3_SIZE
        &&& self.hash4_table@.len() == self.hash4_size
        &&& self.hash4_mask < self.hash4_size
        &&& self.hash2_value < HASH2_SIZE
        &&& self.hash3_value < HASH3_SIZE
        &&& self.hash4_value < self.hash4_size
    }

    /// The 4-byte table size for a dictionary: the smallest power of two
    /// at least a quarter of the dictionary, within fixed bounds, written
    /// as the bit-smearing trick the table sizing uses.
    pub open spec fn spec_hash4_size(dict_size: u32) -> u32 {
        let h0 = (dict_size - 1) as u32;
        let h1 = h0 | (h0 >> 1);
        let h2 = h1 | (h1 >> 2);
        let h3 = h2 | (h2 >> 4);
        let h4 = (h3 | (h3 >> 8)) >> 1;
        let h5 = h4 | 0xFFFFu32;
        let h6 = if h5 > 0x1000000 {
            h5 >> 1
        } else {
            h5
        };
        (h6 + 1) as u32
    }

    /// The 4-byte table size for a dictionary: the smallest power of two
    /// at least a quarter of the dictionary, within fixed bounds.
    fn get_hash4_size(dict_size: u32) -> (r: u32)
        requires
            dict_size >= 1,
        ensures
            0x10000 <= r <= 0x80000000,
            r == Self::spec_hash4_size(dict_size),
    {
        let mut h: u32 = dict_size - 1;
        h = h | (h >> 1);
        h = h | (h >> 2);
        h = h | (h >> 4);
        h = h | (h >> 8);
        h = h >> 1;
        proof {
            assert(h | 0xFFFFu32 >= 0xFFFF) by (bit_vector);
        }
        h = h | 0xFFFF;
        if h > 0x1000000 {
            proof {
                assert(forall|x: u32|
                    x > 0x1000000 ==> #[trigger] (x >> 1) >= 0x800000 && x >> 1 <= 0x7FFFFFFF)
                    by (bit_vector);
            }
            h = h >> 1;
        }
        h + 1
    }

    /// Memory usage estimate in kibibytes for the given dictionary: the
    /// bucket counts of all three tables scaled to kibibytes of entries,
    /// plus a fixed overhead.
    pub fn get_mem_usage(dict_size: u32) -> (r: u32)
        requires
            dict_size >= 1,
        ensures
            r == (HASH2_MASK + HASH2_SIZE + Self::spec_hash4_size(dict_size)) / 256 + 4,
    {
        (HASH2_MASK + HASH2_SIZE + Self::get_hash4_size(dict_size)) / 256 + 4
    }

    /// Creates hash chains for the given dictionary size.
    pub fn new(dict_size: u32) -> (r: Hash234)
        requires
            dict_size >= 1,
        ensures
            r.wf(),
            r.spec_hash2_value() == 0,
            r.spec_hash3_value() == 0,
            r.spec_hash4_value() == 0,
            r.spec_hash2_table().len() == HASH2_SIZE,
            r.spec_hash3_table().len() == HASH3_SIZE,
            r.spec_hash4_table().len() == Self::spec_hash4_size(dict_size),
            r.spec_hash4_mask() == Self::spec_hash4_size(dict_size) - 1,
            forall|i: int| 0 <= i < r.spec_hash2_table().len() ==> r.spec_hash2_table()[i] == 0,
            forall|i: int| 0 <= i < r.spec_hash3_table().len() ==> r.spec_hash3_table()[i] == 0,
            forall|i: int| 0 <= i < r.spec_hash4_table().len() ==> r.spec_hash4_table()[i] == 0,
            forall|i: int|
                0 <= i < 256 ==> r.spec_crc_table()[i] == spec_crc_rounds(i as u32, 8),
    {
        let hash4_size = Self::get_hash4_size(dict_size);
        let hash4_mask = hash4_size - 1;
        let mut hash2_table: Vec<i32> = Vec::new();
        let mut i: u32 = 0;
        while i < HASH2_SIZE
            invariant
                hash2_table@.len() == i,
                i <= HASH2_SIZE,
                forall|q: int| 0 <= q < i ==> hash2_table@[q] == 0,
            decreases HASH2_SIZE - i,
        {
            hash2_table.push(0);
            i = i + 1;
        }
        let mut hash3_table: Vec<i32> = Vec::new();
        let mut j: u32 = 0;
        while j < HASH3_SIZE
            invariant
                hash3_table@.len() == j,
                j <= HASH3_SIZE,
                forall|q: int| 0 <= q < j ==> hash3_table@[q] == 0,
            decreases HASH3_SIZE - j,
        {
            hash3_table.push(0);
            j = j + 1;
        }
        let mut hash4_table: Vec<i32> = Vec::new();
        let mut k: u32 = 0;
        while k < hash4_size
            invariant
                hash4_table@.len() == k,
                k <= hash4_size,
                forall|q: int| 0 <= q < k ==> hash4_table@[q] == 0,
            decreases hash4_size - k,
        {
            hash4_table.push(0);
            k = k + 1;
        }
        Hash234 {
            crc_table: build_crc_table(),
            hash4_mask,
            hash2_table,
            hash3_table,
            hash4_table,
            hash4_size,
            hash2_value: 0,
            hash3_value: 0,
            hash4_value: 0,
        }
    }

    /// Computes the three hash values of the next four bytes.
    pub fn calc_hashes(&mut self, buf: &[u8]) -> (ok: bool)
        requires
            old(self).wf(),
        ensures
            final(self).wf(),
            ok <==> buf@.len() >= 4,
            !ok ==> *final(self) == *old(self),
            ok ==> ({
                let t2 = old(self).spec_crc_table()[buf@[0] as int] ^ (buf@[1] as u32);
                let t3 = t2 ^ ((buf@[2] as u32) << 8);
                let t4 = t3 ^ (old(self).spec_crc_table()[buf@[3] as int] << 5);
                &&& final(self).spec_hash2_value() == t2 & HASH2_MASK
                &&& final(self).spec_hash3_value() == t3 & HASH3_MASK
                &&& final(self).spec_hash4_value() == t4 & old(self).spec_hash4_mask()
                &&& final(self).spec_hash2_table() == old(self).spec_hash2_table()
                &&& final(self).spec_hash3_table() == old(self).spec_hash3_table()
                &&& final(self).spec_hash4_table() == old(self).spec_hash4_table()
            }),
    {
        if buf.len() < 4 {
            return false;
        }
        let tmp = self.crc_table[buf[0] as usize] ^ (buf[1] as u32);
        self.hash2_value = tmp & HASH2_MASK;
        proof {
            assert(forall|x: u32| x & 0x3FF < 0x400) by (bit_vector);
        }
        let tmp = tmp ^ ((buf[2] as u32) << 8);
        self.hash3_value = tmp & HASH3_MASK;
        proof {
            assert(forall|x: u32| x & 0xFFFF < 0x10000) by (bit_vector);
        }
        let tmp = tmp ^ (self.crc_table[buf[3] as usize] << 5);
        let m = self.hash4_mask;
        self.hash4_value = tmp & m;
        proof {
            assert(forall|x: u32, m: u32| #![auto] (x & m) <= m) by (bit_vector);
        }
        true
    }

    /// The chain head for the current 2-byte hash.
    pub fn get_hash2_pos(&self) -> (r: i32)
        requires
            self.wf(),
        ensures
            r == self.spec_hash2_table()[self.spec_hash2_value() as int],
    {
        self.hash2_table[self.hash2_value as usize]
    }

    /// The chain head for the current 3-byte hash.
    pub fn get_hash3_pos(&self) -> (r: i32)
        requires
            self.wf(),
        ensures
            r == self.spec_hash3_table()[self.spec_hash3_value() as int],
    {
        self.hash3_table[self.hash3_value as usize]
    }

    /// The chain head for the current 4-byte hash.
    pub fn get_hash4_pos(&self) -> (r: i32)
        requires
            self.wf(),
        ensures
            r == self.spec_hash4_table()[self.spec_hash4_value() as int],
    {
        self.hash4_table[self.hash4_value as usize]
    }

    /// Records `pos` as the latest occurrence of all three current hashes.
    pub fn update_tables(&mut self, pos: i32)
        requires
            old(self).wf(),
        ensures
            final(self).wf(),
            final(self).spec_hash2_table() == old(self).spec_hash2_table().update(
                old(self).spec_hash2_value() as int,
                pos,
            ),
            final(self).spec_hash3_table() == old(self).spec_hash3_table().update(
                old(self).spec_hash3_value() as int,
                pos,
            ),
            final(self).spec_hash4_table() == old(self).spec_hash4_table().update(
                old(self).spec_hash4_value() as int,
                pos,
            ),
            final(self).spec_hash2_value() == old(self).spec_hash2_value(),
            final(self).spec_hash3_value() == old(self).spec_hash3_value(),
            final(self).spec_hash4_value() == old(self).spec_hash4_value(),
    {
        let h2 = self.hash2_value as usize;
        self.hash2_table.set(h2, pos);
        let h3 = self.hash3_value as usize;
        self.hash3_table.set(h3, pos);
        let h4 = self.hash4_value as usize;
        self.hash4_table.set(h4, pos);
    }

    /// Rebases every stored position by `offset`, flooring at zero, as the
    /// window slides.
    pub fn normalize(&mut self, offset: i32)
        requires
            old(self).wf(),
            offset >= 0,
        ensures
            final(self).wf(),
            final(self).spec_hash2_value() == old(self).spec_hash2_value(),
            final(self).spec_hash3_value() == old(self).spec_hash3_value(),
            final(self).spec_hash4_value() == old(self).spec_hash4_value(),
            final(self).spec_hash2_table().len() == old(self).spec_hash2_table().len(),
            forall|i: int|
                0 <= i < old(self).spec_hash2_table().len()
                    ==> final(self).spec_hash2_table()[i] == spec_rebased(
                    old(self).spec_hash2_table()[i],
                    offset,
                ),
            final(self).spec_hash3_table().len() == old(self).spec_hash3_table().len(),
            forall|i: int|
                0 <= i < old(self).spec_hash3_table().len()
                    ==> final(self).spec_hash3_table()[i] == spec_rebased(
                    old(self).spec_hash3_table()[i],
                    offset,
                ),
            final(self).spec_hash4_table().len() == old(self).spec_hash4_table().len(),
            forall|i: int|
                0 <= i < old(self).spec_hash4_table().len()
                    ==> final(self).spec_hash4_table()[i] == spec_rebased(
                    old(self).spec_hash4_table()[i],
                    offset,
                ),
    {
        normalize_positions(&mut self.hash2_table, offset);
        normalize_positions(&mut self.hash3_table, offset);
        normalize_positions(&mut self.hash4_table, offset);
    }
}

/// A stored position after the window slides by `offset`: rebased, and
/// floored at zero when it fell out of the window.
pub open spec fn spec_rebased(v: i32, offset: i32) -> i32 {
    if v <= offset {
        0
    } else {
        (v - offset) as i32
    }
}

/// Subtracts `offset` from every position, flooring at zero.
fn normalize_positions(table: &mut Vec<i32>, offset: i32)
    requires
        offset >= 0,
    ensures
        final(table)@.len() == old(table)@.len(),
        forall|i: int|
            0 <= i < old(table)@.len() ==> final(table)@[i] == spec_rebased(
                old(table)@[i],
                offset,
            ),
{
    let n = table.len();
    let mut i: usize = 0;
    while i < n
        invariant
            table@.len() == n,
            n == old(table)@.len(),
            i <= n,
            offset >= 0,
            forall|q: int| i <= q < n ==> table@[q] == old(table)@[q],
            forall|q: int|
                0 <= q < i ==> table@[q] == spec_rebased(old(table)@[q], offset),
        decreases n - i,
    {
        let v = table[i];
        if v <= offset {
            table.set(i, 0);
        } else {
            table.set(i, v - offset);
        }
        i = i + 1;
    }
}

} // verus!
