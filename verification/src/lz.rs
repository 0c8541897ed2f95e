use vstd::prelude::*;

mod counting;
mod hash234;

pub use counting::CountingWriter;
pub use hash234::HASH2_MASK;
pub use hash234::HASH2_SIZE;
pub use hash234::HASH3_MASK;
pub use hash234::HASH3_SIZE;
pub use hash234::Hash234;
pub use hash234::spec_crc_rounds;
pub use hash234::spec_rebased;

verus! {

} // verus!
