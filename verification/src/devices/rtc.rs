//! CMOS real-time clock state.

use vstd::prelude::*;

use crate::hash::{StateHash, Xxh64Hasher};

verus! {

/// The clock's register window.
#[derive(Clone, Copy, Debug, PartialEq, Eq, Structural)]
pub struct RtcState {
    /// Selected register (port 0x70, bits 6:0).
    pub index: u8,
    /// What the selected register shows at the current emulated time; the
    /// clock's owner keeps it up to date.
    pub data: u8,
}

impl Default for RtcState {
    fn default() -> (r: Self)
        ensures
            r == (RtcState { index: 0, data: 0 }),
    {
        RtcState { index: 0, data: 0 }
    }
}

impl StateHash for RtcState {
    /// The selected register; what it shows follows from the emulated time.
    open spec fn hash_input(&self) -> Seq<u8> {
        seq![self.index]
    }

    fn state_hash(&self) -> (h: u64) {
        let mut h = Xxh64Hasher::new();
        h.write_u8(self.index);
        assert(h@ =~= self.hash_input());
        h.finish()
    }
}

} // verus!
