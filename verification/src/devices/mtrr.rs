//! Memory type range registers.

use vstd::prelude::*;

use crate::bytes;
use crate::devices::ioapic;
use crate::hash::{StateHash, Xxh64Hasher};

verus! {

/// Number of variable ranges.
pub const MTRR_VAR_MAX: usize = 8;

/// The emulated range registers.
#[derive(Clone, Copy, Debug)]
pub struct MtrrState {
    /// Default memory type register.
    pub def_type: u64,
    /// Base and mask of each variable range, interleaved.
    pub var_ranges: [u64; 16],
}

impl MtrrState {
    /// Every register zero.
    pub open spec fn reset() -> Self {
        MtrrState { def_type: 0, var_ranges: vstd::array::spec_array_fill_for_copy_type(0u64) }
    }
}

impl Default for MtrrState {
    fn default() -> (r: Self)
        ensures
            r == MtrrState::reset(),
    {
        MtrrState { def_type: 0, var_ranges: [0u64; 16] }
    }
}

impl StateHash for MtrrState {
    open spec fn hash_input(&self) -> Seq<u8> {
        bytes::le64(self.def_type) + ioapic::entries_input(self.var_ranges@)
    }

    fn state_hash(&self) -> (h: u64) {
        let mut h = Xxh64Hasher::new();
        h.write_u64(self.def_type);
        assert(h@ =~= bytes::le64(self.def_type));
        let mut i: usize = 0;
        while i < 16
            invariant
                i <= 16,
                h.wf(),
                h@ == bytes::le64(self.def_type) + ioapic::entries_input(
                    self.var_ranges@.take(i as int),
                ),
            decreases 16 - i,
        {
            h.write_u64(self.var_ranges[i]);
            assert(self.var_ranges@.take(i + 1).drop_last() =~= self.var_ranges@.take(i as int));
            assert(h@ =~= bytes::le64(self.def_type) + ioapic::entries_input(
                self.var_ranges@.take(i + 1),
            ));
            i = i + 1;
        }
        assert(self.var_ranges@.take(16) =~= self.var_ranges@);
        h.finish()
    }
}

} // verus!
