use vstd::prelude::*;

verus! {

/// One coder of a block: a method identifier, its stream counts and its
/// opaque property bytes.
#[derive(Clone)]
pub struct Coder {
    /// The wire method identifier, at most fifteen bytes.
    pub encoder_method_id: Vec<u8>,
    /// How many input streams the coder consumes.
    pub num_in_streams: u64,
    /// How many output streams the coder produces.
    pub num_out_streams: u64,
    /// Method-specific property bytes.
    pub properties: Vec<u8>,
}

impl Coder {
    /// A default coder: empty identifier, one input, one output.
    pub fn new_default() -> (r: Coder)
        ensures
            r.num_in_streams == 1,
            r.num_out_streams == 1,
            r.encoder_method_id@.len() == 0,
    {
        Coder {
            encoder_method_id: Vec::new(),
            num_in_streams: 1,
            num_out_streams: 1,
            properties: Vec::new(),
        }
    }

    /// The wire method identifier of this coder.
    pub fn encoder_method_id(&self) -> (r: &Vec<u8>)
        ensures
            r@ == self.encoder_method_id@,
    {
        &self.encoder_method_id
    }

    /// A field-for-field copy of this coder.
    pub fn duplicate(&self) -> (r: Coder)
        ensures
            r.encoder_method_id@ == self.encoder_method_id@,
            r.num_in_streams == self.num_in_streams,
            r.num_out_streams == self.num_out_streams,
            r.properties@ == self.properties@,
    {
        Coder {
            encoder_method_id: copy_byte_vec(&self.encoder_method_id),
            num_in_streams: self.num_in_streams,
            num_out_streams: self.num_out_streams,
            properties: copy_byte_vec(&self.properties),
        }
    }
}

/// Copies a vector of 64-bit values.
fn copy_u64_vec(data: &Vec<u64>) -> (r: Vec<u64>)
    ensures
        r@ == data@,
{
    let mut out: Vec<u64> = Vec::new();
    let mut i: usize = 0;
    while i < data.len()
        invariant
            out@ =~= data@.subrange(0, i as int),
            i <= data@.len(),
        decreases data@.len() - i,
    {
        out.push(data[i]);
        proof {
            assert(out@ =~= data@.subrange(0, i + 1));
        }
        i = i + 1;
    }
    proof {
        assert(out@ =~= data@);
    }
    out
}

/// Copies the bind pairs of a block.
fn copy_bind_pairs(data: &Vec<BindPair>) -> (r: Vec<BindPair>)
    ensures
        r@ == data@,
{
    let mut out: Vec<BindPair> = Vec::new();
    let mut i: usize = 0;
    while i < data.len()
        invariant
            out@ =~= data@.subrange(0, i as int),
            i <= data@.len(),
        decreases data@.len() - i,
    {
        let bp = BindPair { in_index: data[i].in_index, out_index: data[i].out_index };
        out.push(bp);
        proof {
            assert(out@ =~= data@.subrange(0, i + 1));
        }
        i = i + 1;
    }
    proof {
        assert(out@ =~= data@);
    }
    out
}

/// Copies a byte vector.
fn copy_byte_vec(data: &Vec<u8>) -> (r: Vec<u8>)
    ensures
        r@ =~= data@,
{
    let mut out: Vec<u8> = Vec::new();
    let mut i: usize = 0;
    while i < data.len()
        invariant
            out@ =~= data@.subrange(0, i as int),
            i <= data@.len(),
        decreases data@.len() - i,
    {
        out.push(data[i]);
        proof {
            assert(out@ =~= data@.subrange(0, i + 1));
        }
        i = i + 1;
    }
    proof {
        assert(out@ =~= data@);
    }
    out
}

/// An edge wiring one coder's output stream to another coder's input
/// stream.
#[derive(Clone, Copy, PartialEq, Eq, Structural)]
pub struct BindPair {
    /// The consumed input stream index.
    pub in_index: u64,
    /// The producing output stream index.
    pub out_index: u64,
}

/// A compression block: an ordered list of coders, the bind pairs wiring
/// them into a DAG, and the packed streams feeding the DAG's sources.
#[derive(Clone)]
pub struct Block {
    /// Coders in this block.
    pub coders: Vec<Coder>,
    /// Whether this block has a checksum of its uncompressed output.
    pub has_crc: bool,
    /// CRC-32 checksum of the block data.
    pub crc: u64,
    /// Sum of the coders' input stream counts.
    pub total_input_streams: usize,
    /// Sum of the coders' output stream counts.
    pub total_output_streams: usize,
    /// Edges from coder output streams to coder input streams.
    pub bind_pairs: Vec<BindPair>,
    /// Input stream indices read from the archive: the DAG's sources.
    pub packed_streams: Vec<u64>,
    /// Uncompressed size of every output stream.
    pub unpack_sizes: Vec<u64>,
    /// Number of files this block produces.
    pub num_unpack_sub_streams: usize,
}

/// What the header format guarantees of every valid block: the bind pairs
/// number one less than the output streams, and the packed streams are
/// exactly the inputs that no bind pair feeds.
pub open spec fn block_wf(b: &Block) -> bool {
    &&& b.total_output_streams >= 1
    &&& b.bind_pairs@.len() == b.total_output_streams - 1
    &&& b.total_input_streams >= b.bind_pairs@.len()
    &&& b.packed_streams@.len() == b.total_input_streams - b.bind_pairs@.len()
    &&& b.unpack_sizes@.len() >= 0
}

/// The count invariant of a valid block: its packed streams number its
/// total inputs less its bind pairs.
pub proof fn lemma_block_stream_counts(b: &Block)
    requires
        block_wf(b),
    ensures
        b.total_input_streams - b.bind_pairs@.len() == b.packed_streams@.len(),
        b.bind_pairs@.len() == b.total_output_streams - 1,
{
}


/// Each bind pair consumes a distinct output stream below the block's
/// output-stream total.
pub open spec fn distinct_out_indices(b: &Block) -> bool {
    &&& forall|j: int|
        0 <= j < b.bind_pairs@.len() ==> (#[trigger] b.bind_pairs@[j].out_index)
            < b.total_output_streams
    &&& forall|j: int, k: int|
        0 <= j < b.bind_pairs@.len() && 0 <= k < b.bind_pairs@.len() && j != k ==> (
        #[trigger] b.bind_pairs@[j].out_index) != (#[trigger] b.bind_pairs@[k].out_index)
}

/// In every valid block whose bind pairs consume distinct output streams,
/// exactly one output stream feeds no bind pair: that stream is the
/// block's main output.
pub proof fn lemma_unique_main_output(b: &Block)
    requires
        block_wf(b),
        distinct_out_indices(b),
    ensures
        exists|i: int| 0 <= i < b.total_output_streams && !b.spec_has_out_pair(i),
        forall|i1: int, i2: int|
            0 <= i1 < b.total_output_streams && !b.spec_has_out_pair(i1) && 0 <= i2
                < b.total_output_streams && !b.spec_has_out_pair(i2) ==> i1 == i2,
{
    broadcast use vstd::seq_lib::seq_to_set_is_finite;
    broadcast use vstd::set::group_set_axioms;

    let tos = b.total_output_streams as int;
    let nbp = b.bind_pairs@.len() as int;
    let s = Seq::new(b.bind_pairs@.len(), |j: int| b.bind_pairs@[j].out_index as int);
    assert(s.no_duplicates()) by {
        assert forall|i: int, j: int|
            0 <= i < s.len() && 0 <= j < s.len() && i != j implies s[i] != s[j] by {
            assert(b.bind_pairs@[i].out_index != b.bind_pairs@[j].out_index);
        }
    }
    s.unique_seq_to_set();
    let outs = s.to_set();
    let all = vstd::set_lib::set_int_range(0, tos);
    vstd::set_lib::lemma_int_range(0, tos);
    assert(outs.len() == nbp);
    assert(nbp == tos - 1);

    assert(exists|i: int| 0 <= i < tos && !b.spec_has_out_pair(i)) by {
        if forall|i: int| 0 <= i < tos ==> #[trigger] b.spec_has_out_pair(i) {
            assert forall|i: int| all.contains(i) implies outs.contains(i) by {
                assert(b.spec_has_out_pair(i));
                let j = choose|j: int|
                    0 <= j < b.bind_pairs@.len() && b.bind_pairs@[j].out_index == i;
                assert(s[j] == i);
                assert(s.contains(i));
            }
            vstd::set_lib::lemma_len_subset(all, outs);
            assert(false);
        }
    }
    assert forall|i1: int, i2: int|
        0 <= i1 < tos && !b.spec_has_out_pair(i1) && 0 <= i2 < tos && !b.spec_has_out_pair(i2)
            && i1 != i2 implies false by {
        let trimmed = all.remove(i1).remove(i2);
        assert forall|x: int| outs.contains(x) implies trimmed.contains(x) by {
            let j = choose|j: int| 0 <= j < s.len() && s[j] == x;
            assert(b.bind_pairs@[j].out_index == x);
            assert(0 <= x < tos);
            assert(b.spec_has_out_pair(x));
            assert(x != i1 && x != i2);
        }
        vstd::set_lib::lemma_len_subset(outs, trimmed);
        assert(all.contains(i1));
        assert(all.remove(i1).contains(i2));
        assert(trimmed.len() == tos - 2);
        assert(false);
    }
}

impl Block {
    /// Copies this block field by field, so that callers keep exact
    /// knowledge of the copy's stream accounting.
    pub fn duplicate(&self) -> (r: Block)
        ensures
            r.coders@.len() == self.coders@.len(),
            r.has_crc == self.has_crc,
            r.crc == self.crc,
            r.total_input_streams == self.total_input_streams,
            r.total_output_streams == self.total_output_streams,
            r.bind_pairs@ == self.bind_pairs@,
            r.packed_streams@ == self.packed_streams@,
            r.unpack_sizes@ == self.unpack_sizes@,
            r.num_unpack_sub_streams == self.num_unpack_sub_streams,
    {
        let mut coders: Vec<Coder> = Vec::new();
        let mut i: usize = 0;
        while i < self.coders.len()
            invariant
                coders@.len() == i <= self.coders@.len(),
            decreases self.coders@.len() - i,
        {
            coders.push(self.coders[i].duplicate());
            i = i + 1;
        }
        Block {
            coders,
            has_crc: self.has_crc,
            crc: self.crc,
            total_input_streams: self.total_input_streams,
            total_output_streams: self.total_output_streams,
            bind_pairs: copy_bind_pairs(&self.bind_pairs),
            packed_streams: copy_u64_vec(&self.packed_streams),
            unpack_sizes: copy_u64_vec(&self.unpack_sizes),
            num_unpack_sub_streams: self.num_unpack_sub_streams,
        }
    }

    /// An empty block.
    pub fn new_default() -> (r: Block)
        ensures
            r.coders@.len() == 0,
            r.bind_pairs@.len() == 0,
            r.packed_streams@.len() == 0,
            r.unpack_sizes@.len() == 0,
            r.num_unpack_sub_streams == 0,
    {
        Block {
            coders: Vec::new(),
            has_crc: false,
            crc: 0,
            total_input_streams: 0,
            total_output_streams: 0,
            bind_pairs: Vec::new(),
            packed_streams: Vec::new(),
            unpack_sizes: Vec::new(),
            num_unpack_sub_streams: 0,
        }
    }

    /// The first bind pair consuming input stream `index`, if any.
    pub fn find_bind_pair_for_in_stream(&self, index: usize) -> (r: Option<usize>)
        ensures
            r matches Some(k) ==> 0 <= k < self.bind_pairs@.len() && self.bind_pairs@[k as int].in_index
                == index,
            r is None ==> forall|j: int|
                0 <= j < self.bind_pairs@.len() ==> self.bind_pairs@[j].in_index != index,
    {
        let mut j: usize = 0;
        while j < self.bind_pairs.len()
            invariant
                j <= self.bind_pairs@.len(),
                forall|k: int| 0 <= k < j ==> self.bind_pairs@[k].in_index != index,
            decreases self.bind_pairs@.len() - j,
        {
            if self.bind_pairs[j].in_index == index as u64 {
                return Some(j);
            }
            j = j + 1;
        }
        None
    }

    /// The first bind pair fed by output stream `index`, if any.
    pub fn find_bind_pair_for_out_stream(&self, index: usize) -> (r: Option<usize>)
        ensures
            r matches Some(k) ==> 0 <= k < self.bind_pairs@.len()
                && self.bind_pairs@[k as int].out_index == index,
            r is None ==> forall|j: int|
                0 <= j < self.bind_pairs@.len() ==> self.bind_pairs@[j].out_index != index,
    {
        let mut j: usize = 0;
        while j < self.bind_pairs.len()
            invariant
                j <= self.bind_pairs@.len(),
                forall|k: int| 0 <= k < j ==> self.bind_pairs@[k].out_index != index,
            decreases self.bind_pairs@.len() - j,
        {
            if self.bind_pairs[j].out_index == index as u64 {
                return Some(j);
            }
            j = j + 1;
        }
        None
    }

    /// Whether output stream `i` feeds some bind pair.
    pub open spec fn spec_has_out_pair(&self, i: int) -> bool {
        exists|j: int| 0 <= j < self.bind_pairs@.len() && self.bind_pairs@[j].out_index == i
    }

    /// The size of the highest output stream below `i` that no bind pair
    /// consumes: zero when every one is consumed or the size is missing.
    pub open spec fn spec_main_unpack_size(&self, i: int) -> u64
        decreases i,
    {
        if i <= 0 {
            0
        } else if !self.spec_has_out_pair(i - 1) {
            if i - 1 < self.unpack_sizes@.len() {
                self.unpack_sizes@[i - 1]
            } else {
                0
            }
        } else {
            self.spec_main_unpack_size(i - 1)
        }
    }

    /// The total uncompressed size of data in this block: the size of the
    /// highest output stream that no bind pair consumes — the main output,
    /// unique in every valid block with distinct bind-pair outputs.
    pub fn get_unpack_size(&self) -> (r: u64)
        ensures
            r == self.spec_main_unpack_size(self.total_output_streams as int),
            self.total_output_streams == 0 ==> r == 0,
    {
        if self.total_output_streams == 0 {
            return 0;
        }
        let mut i = self.total_output_streams;
        while i > 0
            invariant
                i <= self.total_output_streams,
                self.spec_main_unpack_size(self.total_output_streams as int)
                    == self.spec_main_unpack_size(i as int),
            decreases i,
        {
            i = i - 1;
            if self.find_bind_pair_for_out_stream(i).is_none() {
                proof {
                    assert(!self.spec_has_out_pair(i as int));
                }
                if i < self.unpack_sizes.len() {
                    return self.unpack_sizes[i];
                }
                return 0;
            }
            proof {
                assert(self.spec_has_out_pair(i as int));
            }
        }
        0
    }

    /// The uncompressed size of the output of the coder at `index`.
    pub fn get_unpack_size_at_index(&self, index: usize) -> (r: u64)
        ensures
            index < self.unpack_sizes@.len() ==> r == self.unpack_sizes@[index as int],
            index >= self.unpack_sizes@.len() ==> r == 0,
    {
        if index < self.unpack_sizes.len() {
            self.unpack_sizes[index]
        } else {
            0
        }
    }

    /// An iterator over this block's coders in data-flow order.
    pub fn ordered_coder_iter(&self) -> (r: OrderedCoderIter)
    {
        OrderedCoderIter::new(self)
    }
}

/// Walks a block's coders in their processing order: it starts at the
/// packed source and follows the bind pairs.
pub struct OrderedCoderIter {
    /// The input stream index the walk is at, if any.
    pub current: Option<u64>,
    /// How many steps were taken, a safeguard against malformed cycles.
    pub steps: usize,
}

impl OrderedCoderIter {
    /// Starts the walk at the block's first packed stream.
    pub fn new(block: &Block) -> (r: OrderedCoderIter)
        ensures
            r.current == if block.packed_streams@.len() > 0 {
                Some(block.packed_streams@[0])
            } else {
                None::<u64>
            },
    {
        let current = if block.packed_streams.len() > 0 {
            Some(block.packed_streams[0])
        } else {
            None
        };
        OrderedCoderIter { current, steps: 0 }
    }

    /// The next coder in data-flow order, with its index: the coder fed by
    /// the current stream; the walk then moves to the input bound to that
    /// coder's output, and ends at the unconsumed primary output.
    pub fn next(&mut self, block: &Block) -> (r: Option<(usize, Coder)>)
        ensures
            old(self).current is None ==> r is None,
            ({
                &&& old(self).current matches Some(i)
                &&& i < block.coders@.len()
                &&& old(self).steps <= block.coders@.len()
            }) ==> (r matches Some(p) && p.0 == old(self).current->Some_0
                && p.1.encoder_method_id@ == block.coders@[
                old(self).current->Some_0 as int].encoder_method_id@ && (final(self).current
                matches Some(n2) ==> block.spec_has_out_pair(old(self).current->Some_0 as int))
                && (final(self).current is None ==> !block.spec_has_out_pair(
                old(self).current->Some_0 as int))),
    {
        let i = match self.current {
            Some(i) => i,
            None => {
                return None;
            },
        };
        if self.steps > block.coders.len() {
            self.current = None;
            return None;
        }
        if self.steps < usize::MAX {
            self.steps = self.steps + 1;
        }
        if i >= usize::MAX as u64 {
            self.current = None;
            return None;
        }
        let iu = i as usize;
        self.current = match block.find_bind_pair_for_out_stream(iu) {
            Some(bp) => Some(block.bind_pairs[bp].in_index),
            None => None,
        };
        if iu < block.coders.len() {
            Some((iu, block.coders[iu].duplicate()))
        } else {
            None
        }
    }
}

} // verus!
