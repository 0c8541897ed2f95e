use vstd::prelude::*;

verus! {

/// Byte addition modulo 256.
pub open spec fn wrap_add(a: u8, b: u8) -> u8 {
    ((a + b) % 256) as u8
}

/// Byte subtraction modulo 256.
pub open spec fn wrap_sub(a: u8, b: u8) -> u8 {
    ((a - b + 256) % 256) as u8
}

/// The ring cursor after one step: it moves downward and wraps.
pub open spec fn step_pos(p: u8) -> u8 {
    if p == 0 {
        255
    } else {
        (p - 1) as u8
    }
}

/// Decodes `s` through a delta filter with distance `d`, history ring `h` and
/// cursor `p`: each output byte is the input byte plus the byte emitted `d`
/// positions earlier. Returns the output, the final ring and the final cursor.
pub open spec fn delta_decode(d: int, h: Seq<u8>, p: u8, s: Seq<u8>) -> (Seq<u8>, Seq<u8>, u8)
    decreases s.len(),
{
    if s.len() == 0 {
        (Seq::empty(), h, p)
    } else {
        let o = wrap_add(s[0], h[(d + p) % 256]);
        let rest = delta_decode(d, h.update(p as int, o), step_pos(p), s.drop_first());
        (seq![o] + rest.0, rest.1, rest.2)
    }
}

/// Encodes `s` through a delta filter: each output byte is the input byte
/// minus the byte seen `d` positions earlier; the ring stores the originals.
pub open spec fn delta_encode(d: int, h: Seq<u8>, p: u8, s: Seq<u8>) -> (Seq<u8>, Seq<u8>, u8)
    decreases s.len(),
{
    if s.len() == 0 {
        (Seq::empty(), h, p)
    } else {
        let o = wrap_sub(s[0], h[(d + p) % 256]);
        let rest = delta_encode(d, h.update(p as int, s[0]), step_pos(p), s.drop_first());
        (seq![o] + rest.0, rest.1, rest.2)
    }
}

/// Decoding inverts encoding: for every distance, every starting ring state
/// and every byte sequence, feeding the encoder's output to a decoder started
/// in the same state returns the original sequence and the same final state.
pub proof fn lemma_delta_round_trip(d: int, h: Seq<u8>, p: u8, s: Seq<u8>)
    requires
        h.len() == 256,
        1 <= d <= 256,
    ensures
        delta_decode(d, h, p, delta_encode(d, h, p, s).0).0 =~= s,
        delta_decode(d, h, p, delta_encode(d, h, p, s).0).1 == delta_encode(d, h, p, s).1,
        delta_decode(d, h, p, delta_encode(d, h, p, s).0).2 == delta_encode(d, h, p, s).2,
    decreases s.len(),
{
    if s.len() == 0 {
    } else {
        let hb = h[(d + p) % 256];
        let o = wrap_sub(s[0], hb);
        let e = delta_encode(d, h, p, s);
        let erest = delta_encode(d, h.update(p as int, s[0]), step_pos(p), s.drop_first());
        assert(e.0 =~= seq![o] + erest.0);
        assert(e.0[0] == o);
        assert(e.0.drop_first() =~= erest.0);
        assert(wrap_add(o, hb) == s[0]);
        lemma_delta_round_trip(d, h.update(p as int, s[0]), step_pos(p), s.drop_first());
        let dec = delta_decode(d, h, p, e.0);
        assert(dec.0 =~= seq![s[0]] + delta_decode(
            d,
            h.update(p as int, s[0]),
            step_pos(p),
            erest.0,
        ).0);
        assert(dec.0 =~= s);
    }
}

/// The delta filter itself: a 256-byte history ring, a downward cursor and
/// the configured distance.
pub struct Delta {
    distance: usize,
    history: Vec<u8>,
    pos: u8,
}

impl Delta {
    /// The ring holds 256 bytes and the distance is in range.
    pub closed spec fn wf(&self) -> bool {
        self.history@.len() == 256 && 1 <= self.distance <= 256
    }

    /// The configured distance.
    pub closed spec fn spec_distance(&self) -> int {
        self.distance as int
    }

    /// The history ring.
    pub closed spec fn spec_history(&self) -> Seq<u8> {
        self.history@
    }

    /// The ring cursor.
    pub closed spec fn spec_pos(&self) -> u8 {
        self.pos
    }

    /// Creates a fresh filter state for the given distance.
    pub fn new(distance: usize) -> (r: Delta)
        requires
            1 <= distance <= 256,
        ensures
            r.wf(),
            r.spec_distance() == distance,
            r.spec_history() =~= Seq::new(256, |i: int| 0u8),
            r.spec_pos() == 0,
    {
        let mut history: Vec<u8> = Vec::new();
        for j in 0..256usize
            invariant
                history@.len() == j,
                forall|b: int| 0 <= b < j ==> history@[b] == 0,
        {
            history.push(0);
        }
        proof {
            assert(history@ =~= Seq::new(256, |i: int| 0u8));
        }
        Delta { distance, history, pos: 0 }
    }

    /// Decodes `buf` in place.
    pub fn decode(&mut self, buf: &mut Vec<u8>)
        requires
            old(self).wf(),
        ensures
            final(self).wf(),
            final(self).spec_distance() == old(self).spec_distance(),
            final(buf)@.len() == old(buf)@.len(),
            final(buf)@ =~= delta_decode(
                old(self).spec_distance(),
                old(self).spec_history(),
                old(self).spec_pos(),
                old(buf)@,
            ).0,
            final(self).spec_history() == delta_decode(
                old(self).spec_distance(),
                old(self).spec_history(),
                old(self).spec_pos(),
                old(buf)@,
            ).1,
            final(self).spec_pos() == delta_decode(
                old(self).spec_distance(),
                old(self).spec_history(),
                old(self).spec_pos(),
                old(buf)@,
            ).2,
    {
        let ghost d0 = self.spec_distance();
        let ghost h0 = self.spec_history();
        let ghost p0 = self.spec_pos();
        let ghost s = buf@;
        let ghost full = delta_decode(d0, h0, p0, s);
        let n = buf.len();
        proof {
            assert(s.skip(0) =~= s);
            assert(full.0 =~= buf@.subrange(0, 0) + delta_decode(d0, h0, p0, s.skip(0)).0);
        }
        for i in 0..n
            invariant
                self.wf(),
                self.spec_distance() == d0,
                buf@.len() == n,
                s.len() == n,
                forall|j: int| i <= j < n ==> buf@[j] == s[j],
                full.0 =~= buf@.subrange(0, i as int) + delta_decode(
                    d0,
                    self.spec_history(),
                    self.spec_pos(),
                    s.skip(i as int),
                ).0,
                full.1 == delta_decode(d0, self.spec_history(), self.spec_pos(), s.skip(i as int)).1,
                full.2 == delta_decode(d0, self.spec_history(), self.spec_pos(), s.skip(i as int)).2,
        {
            let ghost hist_i = self.spec_history();
            let ghost pos_i = self.spec_pos();
            proof {
                assert(s.skip(i as int).len() == n - i);
                assert(s.skip(i as int)[0] == s[i as int]);
                assert(s.skip(i as int).drop_first() =~= s.skip(i + 1));
            }
            let idx = (self.distance + self.pos as usize) % 256;
            let h = self.history[idx];
            let b = buf[i];
            let o = b.wrapping_add(h);
            buf.set(i, o);
            let p = self.pos as usize;
            self.history.set(p, o);
            self.pos = if self.pos == 0 {
                255
            } else {
                self.pos - 1
            };
            proof {
                assert(o == wrap_add(s[i as int], hist_i[(d0 + pos_i) % 256]));
                assert(self.spec_history() =~= hist_i.update(pos_i as int, o));
                assert(self.spec_pos() == step_pos(pos_i));
                assert(buf@.subrange(0, i + 1) =~= buf@.subrange(0, i as int) + seq![o]);
                assert(full.0 =~= buf@.subrange(0, i + 1) + delta_decode(
                    d0,
                    self.spec_history(),
                    self.spec_pos(),
                    s.skip(i + 1),
                ).0);
            }
        }
        proof {
            assert(s.skip(n as int).len() == 0);
            assert(buf@.subrange(0, n as int) =~= buf@);
        }
    }

    /// Encodes `buf` in place.
    pub fn encode(&mut self, buf: &mut Vec<u8>)
        requires
            old(self).wf(),
        ensures
            final(self).wf(),
            final(self).spec_distance() == old(self).spec_distance(),
            final(buf)@.len() == old(buf)@.len(),
            final(buf)@ =~= delta_encode(
                old(self).spec_distance(),
                old(self).spec_history(),
                old(self).spec_pos(),
                old(buf)@,
            ).0,
            final(self).spec_history() == delta_encode(
                old(self).spec_distance(),
                old(self).spec_history(),
                old(self).spec_pos(),
                old(buf)@,
            ).1,
            final(self).spec_pos() == delta_encode(
                old(self).spec_distance(),
                old(self).spec_history(),
                old(self).spec_pos(),
                old(buf)@,
            ).2,
    {
        let ghost d0 = self.spec_distance();
        let ghost h0 = self.spec_history();
        let ghost p0 = self.spec_pos();
        let ghost s = buf@;
        let ghost full = delta_encode(d0, h0, p0, s);
        let n = buf.len();
        proof {
            assert(s.skip(0) =~= s);
            assert(full.0 =~= buf@.subrange(0, 0) + delta_encode(d0, h0, p0, s.skip(0)).0);
        }
        for i in 0..n
            invariant
                self.wf(),
                self.spec_distance() == d0,
                buf@.len() == n,
                s.len() == n,
                forall|j: int| i <= j < n ==> buf@[j] == s[j],
                full.0 =~= buf@.subrange(0, i as int) + delta_encode(
                    d0,
                    self.spec_history(),
                    self.spec_pos(),
                    s.skip(i as int),
                ).0,
                full.1 == delta_encode(d0, self.spec_history(), self.spec_pos(), s.skip(i as int)).1,
                full.2 == delta_encode(d0, self.spec_history(), self.spec_pos(), s.skip(i as int)).2,
        {
            let ghost hist_i = self.spec_history();
            let ghost pos_i = self.spec_pos();
            proof {
                assert(s.skip(i as int).len() == n - i);
                assert(s.skip(i as int)[0] == s[i as int]);
                assert(s.skip(i as int).drop_first() =~= s.skip(i + 1));
            }
            let idx = (self.distance + self.pos as usize) % 256;
            let h = self.history[idx];
            let b = buf[i];
            let o = b.wrapping_sub(h);
            buf.set(i, o);
            let p = self.pos as usize;
            self.history.set(p, b);
            self.pos = if self.pos == 0 {
                255
            } else {
                self.pos - 1
            };
            proof {
                assert(o == wrap_sub(s[i as int], hist_i[(d0 + pos_i) % 256]));
                assert(self.spec_history() =~= hist_i.update(pos_i as int, s[i as int]));
                assert(self.spec_pos() == step_pos(pos_i));
                assert(buf@.subrange(0, i + 1) =~= buf@.subrange(0, i as int) + seq![o]);
                assert(full.0 =~= buf@.subrange(0, i + 1) + delta_encode(
                    d0,
                    self.spec_history(),
                    self.spec_pos(),
                    s.skip(i + 1),
                ).0);
            }
        }
        proof {
            assert(s.skip(n as int).len() == 0);
            assert(buf@.subrange(0, n as int) =~= buf@);
        }
    }
}

/// Decodes a byte buffer through a fresh delta filter.
pub struct DeltaReader {
    delta: Delta,
    data: Vec<u8>,
    read: usize,
}

impl DeltaReader {
    /// The filter state is well formed.
    pub closed spec fn wf(&self) -> bool {
        self.delta.wf() && self.read <= self.data@.len()
    }

    /// The wrapped bytes.
    pub closed spec fn spec_data(&self) -> Seq<u8> {
        self.data@
    }

    /// How many bytes were already decoded.
    pub closed spec fn spec_read(&self) -> int {
        self.read as int
    }

    /// The inner filter state.
    pub closed spec fn spec_delta(&self) -> Delta {
        self.delta
    }

    /// Creates a reader that decodes `data` with the given distance.
    pub fn new(data: Vec<u8>, distance: usize) -> (r: DeltaReader)
        requires
            1 <= distance <= 256,
        ensures
            r.wf(),
            r.spec_data() == data@,
            r.spec_read() == 0,
            r.spec_delta().spec_distance() == distance,
            r.spec_delta().spec_history() =~= Seq::new(256, |i: int| 0u8),
            r.spec_delta().spec_pos() == 0,
    {
        DeltaReader { delta: Delta::new(distance), data, read: 0 }
    }

    /// Decodes and returns all remaining bytes: the delta decoding of the
    /// unread tail under the filter's current state.
    pub fn read_to_end(&mut self) -> (r: Vec<u8>)
        requires
            old(self).wf(),
        ensures
            final(self).wf(),
            final(self).spec_data() == old(self).spec_data(),
            final(self).spec_read() == old(self).spec_data().len(),
            r@ == delta_decode(
                old(self).spec_delta().spec_distance(),
                old(self).spec_delta().spec_history(),
                old(self).spec_delta().spec_pos(),
                old(self).spec_data().subrange(
                    old(self).spec_read(),
                    old(self).spec_data().len() as int,
                ),
            ).0,
    {
        let mut out: Vec<u8> = Vec::new();
        if self.read < self.data.len() {
            let mut chunk: Vec<u8> = Vec::new();
            let mut i = self.read;
            while i < self.data.len()
                invariant
                    self.read <= i <= self.data.len(),
                    chunk@ =~= self.data@.subrange(self.read as int, i as int),
                    self.data@ == old(self).data@,
                    self.read == old(self).read,
                    self.delta == old(self).delta,
                decreases self.data.len() - i,
            {
                chunk.push(self.data[i]);
                proof {
                    assert(chunk@ =~= self.data@.subrange(self.read as int, i + 1));
                }
                i = i + 1;
            }
            self.read = self.data.len();
            self.delta.decode(&mut chunk);
            out = chunk;
        } else {
            proof {
                assert(old(self).spec_data().subrange(
                    old(self).spec_read(),
                    old(self).spec_data().len() as int,
                ) =~= Seq::<u8>::empty());
                assert(delta_decode(
                    old(self).spec_delta().spec_distance(),
                    old(self).spec_delta().spec_history(),
                    old(self).spec_delta().spec_pos(),
                    Seq::<u8>::empty(),
                ).0 =~= Seq::<u8>::empty());
            }
            self.read = self.data.len();
        }
        out
    }
}

/// Encodes written bytes through a delta filter into an output buffer.
pub struct DeltaWriter {
    delta: Delta,
    out: Vec<u8>,
}

impl DeltaWriter {
    /// The filter state is well formed.
    pub closed spec fn wf(&self) -> bool {
        self.delta.wf()
    }

    /// The bytes written so far.
    pub closed spec fn spec_output(&self) -> Seq<u8> {
        self.out@
    }

    /// Creates a writer that encodes with the given distance.
    pub fn new(distance: usize) -> (r: DeltaWriter)
        requires
            1 <= distance <= 256,
        ensures
            r.wf(),
            r.spec_output().len() == 0,
    {
        DeltaWriter { delta: Delta::new(distance), out: Vec::new() }
    }

    /// The inner filter state.
    pub closed spec fn spec_delta(&self) -> Delta {
        self.delta
    }

    /// Encodes `buf` and appends its delta encoding under the filter's
    /// current state to the output.
    pub fn write(&mut self, buf: &Vec<u8>)
        requires
            old(self).wf(),
        ensures
            final(self).wf(),
            final(self).spec_output().len() == old(self).spec_output().len() + buf@.len(),
            final(self).spec_output() == old(self).spec_output() + delta_encode(
                old(self).spec_delta().spec_distance(),
                old(self).spec_delta().spec_history(),
                old(self).spec_delta().spec_pos(),
                buf@,
            ).0,
    {
        let mut chunk: Vec<u8> = Vec::new();
        let mut i: usize = 0;
        while i < buf.len()
            invariant
                i <= buf.len(),
                chunk@ =~= buf@.subrange(0, i as int),
                self.delta == old(self).delta,
                self.out@ == old(self).out@,
            decreases buf.len() - i,
        {
            chunk.push(buf[i]);
            proof {
                assert(chunk@ =~= buf@.subrange(0, i + 1));
            }
            i = i + 1;
        }
        proof {
            assert(chunk@ =~= buf@);
        }
        self.delta.encode(&mut chunk);
        let ghost enc = chunk@;
        let mut j: usize = 0;
        while j < chunk.len()
            invariant
                j <= chunk.len(),
                chunk@ == enc,
                self.out@ =~= old(self).out@ + enc.subrange(0, j as int),
                self.delta.wf(),
            decreases chunk.len() - j,
        {
            self.out.push(chunk[j]);
            proof {
                assert(self.out@ =~= old(self).out@ + enc.subrange(0, j + 1));
            }
            j = j + 1;
        }
        proof {
            assert(self.out@ =~= old(self).out@ + enc);
        }
    }

    /// Hands back the encoded output.
    pub fn into_output(self) -> (r: Vec<u8>)
        ensures
            r@ == self.spec_output(),
    {
        self.out
    }
}

} // verus!
