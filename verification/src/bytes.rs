use vstd::arithmetic::power2::{lemma2_to64, lemma2_to64_rest, lemma_pow2_adds, lemma_pow2_pos, pow2};
use vstd::prelude::*;

use crate::error::Error;

verus! {

/// Little-endian integer value of the `n` bytes of `s` that start at index `i`.
pub open spec fn le_value(s: Seq<u8>, i: int, n: int) -> int
    decreases n,
{
    if n <= 0 {
        0
    } else {
        (s[i] as int) + 256 * le_value(s, i + 1, n - 1)
    }
}

/// How many extra bytes follow the first byte of a variable-length integer.
/// The count equals the number of leading one bits of the first byte.
pub open spec fn var_extra(first: u8) -> int {
    if first < 0x80 {
        0
    } else if first < 0xC0 {
        1
    } else if first < 0xE0 {
        2
    } else if first < 0xF0 {
        3
    } else if first < 0xF8 {
        4
    } else if first < 0xFC {
        5
    } else if first < 0xFE {
        6
    } else if first < 0xFF {
        7
    } else {
        8
    }
}

/// Value of a variable-length integer: the extra bytes hold the low bits in
/// little-endian order, and the low bits of the first byte hold the high bits.
pub open spec fn var_value(first: u8, s: Seq<u8>, i: int) -> int {
    let k = var_extra(first);
    if k == 8 {
        le_value(s, i, 8)
    } else {
        le_value(s, i, k) + (first as int % pow2((7 - k) as nat) as int) * pow2((8 * k) as nat) as int
    }
}

pub proof fn lemma_le_value_bound(s: Seq<u8>, i: int, n: int)
    requires
        n >= 0,
    ensures
        0 <= le_value(s, i, n) < pow2((8 * n) as nat),
    decreases n,
{
    if n <= 0 {
        lemma2_to64();
    } else {
        lemma_le_value_bound(s, i + 1, n - 1);
        lemma_pow2_adds(8, (8 * (n - 1)) as nat);
        lemma2_to64();
    }
}

/// Two buffers that agree on a byte range have the same little-endian
/// value there.
pub proof fn lemma_le_value_eq(s1: Seq<u8>, s2: Seq<u8>, i: int, n: int)
    requires
        forall|j: int| i <= j < i + n ==> s1[j] == s2[j],
    ensures
        le_value(s1, i, n) == le_value(s2, i, n),
    decreases n,
{
    if n > 0 {
        lemma_le_value_eq(s1, s2, i + 1, n - 1);
    }
}

/// The little-endian value of the four standard byte splits of a 32-bit
/// value is the value itself.
pub proof fn lemma_le4_of_u32(s: Seq<u8>, i: int, v: u32)
    requires
        s[i] == (v % 0x100) as u8,
        s[i + 1] == ((v / 0x100) % 0x100) as u8,
        s[i + 2] == ((v / 0x10000) % 0x100) as u8,
        s[i + 3] == (v / 0x1000000) as u8,
    ensures
        le_value(s, i, 4) == v,
{
    reveal_with_fuel(le_value, 5);
    assert(v as int == (v as int % 0x100) + 0x100 * (((v as int / 0x100) % 0x100) + 0x100 * (((
    v as int / 0x10000) % 0x100) + 0x100 * (v as int / 0x1000000)))) by (nonlinear_arith);
}

/// A reading position inside a byte buffer; the header parser consumes the
/// raw header bytes through one of these.
pub struct ByteCursor {
    /// The underlying bytes.
    pub data: Vec<u8>,
    /// The current read position.
    pub pos: usize,
}

impl ByteCursor {
    /// Creates a cursor over `data`, positioned at the start.
    pub fn new(data: Vec<u8>) -> (r: ByteCursor)
        ensures
            r.data == data,
            r.pos == 0,
    {
        ByteCursor { data, pos: 0 }
    }

    /// Creates a cursor over `data`, positioned at `pos`.
    pub fn new_at(data: Vec<u8>, pos: usize) -> (r: ByteCursor)
        ensures
            r.data == data,
            r.pos == pos,
    {
        ByteCursor { data, pos }
    }

    /// How many bytes remain to be read.
    pub fn remaining(&self) -> (r: usize)
        ensures
            r == if self.pos <= self.data.len() {
                self.data.len() - self.pos
            } else {
                0
            },
    {
        if self.pos <= self.data.len() {
            self.data.len() - self.pos
        } else {
            0
        }
    }

    /// Reads one byte.
    pub fn read_u8(&mut self) -> (r: Result<u8, Error>)
        ensures
            final(self).data == old(self).data,
            r is Ok <==> old(self).pos < old(self).data.len(),
            r matches Ok(b) ==> b == old(self).data[old(self).pos as int]
                && final(self).pos == old(self).pos + 1,
            r is Err ==> final(self).pos == old(self).pos,
    {
        if self.pos < self.data.len() {
            let b = self.data[self.pos];
            self.pos = self.pos + 1;
            Ok(b)
        } else {
            Err(Error::io("unexpected end of data".to_string()))
        }
    }

    /// Reads a 32-bit little-endian integer.
    pub fn read_u32(&mut self) -> (r: Result<u32, Error>)
        ensures
            final(self).data == old(self).data,
            r is Ok <==> old(self).pos + 4 <= old(self).data.len(),
            r matches Ok(v) ==> v as int == le_value(old(self).data@, old(self).pos as int, 4)
                && final(self).pos == old(self).pos + 4,
    {
        if self.pos < self.data.len() && self.data.len() - self.pos >= 4 {
            let b0 = self.data[self.pos] as u32;
            let b1 = self.data[self.pos + 1] as u32;
            let b2 = self.data[self.pos + 2] as u32;
            let b3 = self.data[self.pos + 3] as u32;
            proof {
                reveal_with_fuel(le_value, 5);
            }
            self.pos = self.pos + 4;
            Ok(b0 + b1 * 0x100 + b2 * 0x10000 + b3 * 0x1000000)
        } else {
            Err(Error::io("unexpected end of data".to_string()))
        }
    }

    /// Reads `k` little-endian bytes and returns their value.
    fn le_tail(&mut self, k: usize) -> (r: u64)
        requires
            old(self).pos + k <= old(self).data.len(),
            k <= 8,
        ensures
            final(self).data == old(self).data,
            final(self).pos == old(self).pos + k,
            r as int == le_value(old(self).data@, old(self).pos as int, k as int),
            (r as int) < pow2((8 * k) as nat),
    {
        let mut value: u64 = 0;
        let mut mult: u64 = 1;
        let ghost start = self.pos as int;
        proof {
            lemma2_to64();
        }
        for j in 0..k
            invariant
                k <= 8,
                self.pos == start,
                start + k <= self.data.len(),
                j <= 7 ==> mult == pow2((8 * j) as nat),
                value == le_value(self.data@, start, j as int),
                (value as int) < pow2((8 * j) as nat),
        {
            proof {
                lemma2_to64();
                lemma2_to64_rest();
                lemma_le_step(self.data@, start, j as int);
                lemma_pow2_adds((8 * j) as nat, 8);
                lemma_le_value_bound(self.data@, start, j + 1);
                lemma_pow2_le((8 * j + 8) as nat, 64);
                assert(value + (self.data@[start + j] as int) * pow2((8 * j) as nat) < pow2((8 * j
                    + 8) as nat)) by (nonlinear_arith)
                    requires
                        0 <= value < pow2((8 * j) as nat),
                        0 <= (self.data@[start + j] as int) < 256,
                        pow2((8 * j + 8) as nat) == 256 * pow2((8 * j) as nat),
                        pow2((8 * j) as nat) >= 1,
                ;
            }
            let b = self.data[self.pos + j] as u64;
            value = value + b * mult;
            if j < 7 {
                proof {
                    lemma_pow2_adds((8 * j) as nat, 8);
                    lemma_pow2_le((8 * j + 8) as nat, 63);
                    lemma2_to64_rest();
                }
                mult = mult * 256;
            }
        }
        self.pos = self.pos + k;
        value
    }

    /// Reads a 64-bit little-endian integer.
    pub fn read_u64le(&mut self) -> (r: Result<u64, Error>)
        ensures
            final(self).data == old(self).data,
            r is Ok <==> old(self).pos + 8 <= old(self).data.len(),
            r matches Ok(v) ==> v as int == le_value(old(self).data@, old(self).pos as int, 8)
                && final(self).pos == old(self).pos + 8,
    {
        if self.pos < self.data.len() && self.data.len() - self.pos >= 8 {
            Ok(self.le_tail(8))
        } else {
            Err(Error::io("unexpected end of data".to_string()))
        }
    }

    /// Reads a 7z variable-length integer of up to nine bytes.
    pub fn read_u64(&mut self) -> (r: Result<u64, Error>)
        ensures
            final(self).data == old(self).data,
            r is Ok <==> old(self).pos < old(self).data.len() && old(self).pos + 1 + var_extra(
                old(self).data[old(self).pos as int],
            ) <= old(self).data.len(),
            r matches Ok(v) ==> {
                let first = old(self).data[old(self).pos as int];
                old(self).pos < old(self).data.len()
                    && final(self).pos == old(self).pos + 1 + var_extra(first)
                    && v as int == var_value(first, old(self).data@, old(self).pos + 1)
            },
    {
        let first = self.read_u8()?;
        let k: usize = if first < 0x80 {
            0
        } else if first < 0xC0 {
            1
        } else if first < 0xE0 {
            2
        } else if first < 0xF0 {
            3
        } else if first < 0xF8 {
            4
        } else if first < 0xFC {
            5
        } else if first < 0xFE {
            6
        } else if first < 0xFF {
            7
        } else {
            8
        };
        if self.pos > self.data.len() || self.data.len() - self.pos < k {
            return Err(Error::io("unexpected end of data".to_string()));
        }
        let low = self.le_tail(k);
        if k == 8 {
            proof {
                lemma2_to64_rest();
            }
            Ok(low)
        } else {
            let modulus: u64 = if k == 0 {
                0x80
            } else if k == 1 {
                0x40
            } else if k == 2 {
                0x20
            } else if k == 3 {
                0x10
            } else if k == 4 {
                0x8
            } else if k == 5 {
                0x4
            } else if k == 6 {
                0x2
            } else {
                0x1
            };
            let mult: u64 = if k == 0 {
                1
            } else if k == 1 {
                0x100
            } else if k == 2 {
                0x10000
            } else if k == 3 {
                0x1000000
            } else if k == 4 {
                0x100000000
            } else if k == 5 {
                0x10000000000
            } else if k == 6 {
                0x1000000000000
            } else {
                0x100000000000000
            };
            proof {
                lemma2_to64();
                lemma2_to64_rest();
            }
            let high = (first as u64) % modulus;
            proof {
                lemma_pow2_adds((8 * k) as nat, (7 - k) as nat);
                lemma_pow2_le((8 * k + 7 - k) as nat, 63);
                lemma_pow2_pos((8 * k) as nat);
                assert((high as int) * pow2((8 * k) as nat) + (low as int) < pow2((8 * k) as nat)
                    * pow2((7 - k) as nat)) by (nonlinear_arith)
                    requires
                        0 <= (high as int) < pow2((7 - k) as nat),
                        0 <= (low as int) < pow2((8 * k) as nat),
                        pow2((8 * k) as nat) >= 1,
                ;
            }
            Ok(low + high * mult)
        }
    }

    /// Reads `n` raw bytes.
    pub fn read_bytes(&mut self, n: usize) -> (r: Result<Vec<u8>, Error>)
        ensures
            final(self).data == old(self).data,
            r is Ok <==> old(self).pos + n <= old(self).data.len(),
            r matches Ok(v) ==> v@ == old(self).data@.subrange(
                old(self).pos as int,
                old(self).pos + n,
            ) && final(self).pos == old(self).pos + n,
    {
        if self.pos < self.data.len() && self.data.len() - self.pos >= n || n == 0 && self.pos
            <= self.data.len() {
            let mut out: Vec<u8> = Vec::new();
            let start = self.pos;
            for j in 0..n
                invariant
                    start + n <= self.data.len(),
                    out@ == self.data@.subrange(start as int, start + j),
                    self.pos == start,
            {
                out.push(self.data[start + j]);
                proof {
                    assert(out@ =~= self.data@.subrange(start as int, start + j + 1));
                }
            }
            self.pos = self.pos + n;
            proof {
                assert(out@ =~= self.data@.subrange(start as int, start + n as int));
            }
            Ok(out)
        } else {
            Err(Error::io("unexpected end of data".to_string()))
        }
    }

    /// Skips `n` bytes.
    pub fn skip(&mut self, n: usize) -> (r: Result<(), Error>)
        ensures
            final(self).data == old(self).data,
            r is Ok <==> old(self).pos + n <= old(self).data.len(),
            r is Ok ==> final(self).pos == old(self).pos + n,
    {
        if self.pos <= self.data.len() && self.data.len() - self.pos >= n {
            self.pos = self.pos + n;
            Ok(())
        } else {
            Err(Error::io("unexpected end of data".to_string()))
        }
    }
}

proof fn lemma_le_step(s: Seq<u8>, i: int, j: int)
    requires
        j >= 0,
    ensures
        le_value(s, i, j + 1) == le_value(s, i, j) + (s[i + j] as int) * pow2((8 * j) as nat),
    decreases j,
{
    reveal_with_fuel(le_value, 3);
    if j == 0 {
        lemma2_to64();
        assert(pow2(0) == 1);
        assert(le_value(s, i + 1, 0) == 0);
        assert(le_value(s, i, 0) == 0);
        assert(le_value(s, i, 1) == (s[i] as int) + 256 * le_value(s, i + 1, 0));
        assert((s[i + j] as int) * pow2((8 * j) as nat) == (s[i + j] as int)) by (nonlinear_arith)
            requires
                pow2((8 * j) as nat) == 1,
        ;
    } else {
        lemma_le_step(s, i + 1, j - 1);
        lemma_pow2_adds(8, (8 * (j - 1)) as nat);
        lemma2_to64();
        assert(le_value(s, i, j + 1) == (s[i] as int) + 256 * le_value(s, i + 1, j));
        assert(le_value(s, i, j) == (s[i] as int) + 256 * le_value(s, i + 1, j - 1));
        assert(le_value(s, i + 1, j) == le_value(s, i + 1, j - 1) + (s[i + j] as int) * pow2(
            (8 * (j - 1)) as nat,
        ));
        assert(256 * pow2((8 * (j - 1)) as nat) == pow2((8 * j) as nat));
        assert((s[i + j] as int) * pow2((8 * j) as nat) == 256 * ((s[i + j] as int) * pow2(
            (8 * (j - 1)) as nat,
        ))) by (nonlinear_arith)
            requires
                pow2((8 * j) as nat) == 256 * pow2((8 * (j - 1)) as nat),
        ;
        assert(le_value(s, i, j + 1) == le_value(s, i, j) + (s[i + j] as int) * pow2(
            (8 * j) as nat,
        ));
    }
}

proof fn lemma_pow2_le(a: nat, b: nat)
    requires
        a <= b,
    ensures
        pow2(a) <= pow2(b),
{
    if a < b {
        vstd::arithmetic::power2::lemma_pow2_strictly_increases(a, b);
    }
}

} // verus!
