use vstd::prelude::*;

verus! {

/// A byte sink that counts what passes through it, as encode pipelines
/// record per-coder stream sizes.
pub struct CountingWriter {
    inner: Vec<u8>,
    written_bytes: usize,
}

impl CountingWriter {
    /// Creates a counting sink over `inner`.
    pub fn new(inner: Vec<u8>) -> (r: CountingWriter)
        ensures
            r.spec_written() == 0,
            r.spec_data() == inner@,
    {
        CountingWriter { inner, written_bytes: 0 }
    }

    /// The bytes collected so far.
    pub closed spec fn spec_data(&self) -> Seq<u8> {
        self.inner@
    }

    /// How many bytes were written through this sink.
    pub closed spec fn spec_written(&self) -> int {
        self.written_bytes as int
    }

    /// How many bytes were written through this sink.
    pub fn writed_bytes(&self) -> (r: usize)
        ensures
            r == self.spec_written(),
    {
        self.written_bytes
    }

    /// The current count, as the pipeline reads it back after encoding.
    pub fn counting(&self) -> (r: usize)
        ensures
            r == self.spec_written(),
    {
        self.written_bytes
    }

    /// Appends `buf` and counts it.
    pub fn write(&mut self, buf: &[u8]) -> (r: usize)
        requires
            old(self).spec_data().len() + buf@.len() <= usize::MAX,
            old(self).spec_written() + buf@.len() <= usize::MAX,
        ensures
            r == buf@.len(),
            final(self).spec_data() == old(self).spec_data() + buf@,
            final(self).spec_written() == old(self).spec_written() + buf@.len(),
    {
        let mut i: usize = 0;
        while i < buf.len()
            invariant
                i <= buf@.len(),
                self.inner@ =~= old(self).inner@ + buf@.subrange(0, i as int),
                self.written_bytes == old(self).written_bytes,
                old(self).written_bytes + buf@.len() <= usize::MAX,
            decreases buf@.len() - i,
        {
            self.inner.push(buf[i]);
            proof {
                assert(self.inner@ =~= old(self).inner@ + buf@.subrange(0, i + 1));
            }
            i = i + 1;
        }
        self.written_bytes = self.written_bytes + buf.len();
        proof {
            assert(self.inner@ =~= old(self).inner@ + buf@);
        }
        buf.len()
    }

    /// Hands back the collected bytes.
    pub fn into_inner(self) -> (r: Vec<u8>)
        ensures
            r@ == self.spec_data(),
    {
        self.inner
    }
}

} // verus!
