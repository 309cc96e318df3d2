//! I/O APIC state.

use vstd::prelude::*;

use crate::bytes;
use crate::hash::{StateHash, Xxh64Hasher};

verus! {

/// Base of the I/O APIC's MMIO window.
pub const IOAPIC_BASE: u64 = 0xFEC0_0000;

/// Size of the I/O APIC's MMIO window.
pub const IOAPIC_SIZE: u64 = 0x1000;

/// Number of input pins.
pub const IOAPIC_NUM_PINS: usize = 24;

/// Pin of the deterministic I/O channel.
pub const IO_CHANNEL_IRQ: u8 = 9;

/// The redirection table.
#[derive(Clone, Copy, Debug)]
pub struct IoApicState {
    /// One entry per pin; bit 16 masks it, bits 7:0 are the vector.
    pub redtbl: [u64; 24],
}

impl IoApicState {
    /// The I/O APIC after reset: every pin masked.
    pub open spec fn reset() -> Self {
        IoApicState { redtbl: vstd::array::spec_array_fill_for_copy_type(0x1_0000u64) }
    }

    /// The vector a pin delivers, if it is unmasked and the vector is legal.
    pub open spec fn route(self, pin: int) -> Option<u8> {
        let entry = self.redtbl@[pin];
        if (entry >> 16) & 1 != 0 || (entry & 0xFF) < 16 {
            None
        } else {
            Some((entry & 0xFF) as u8)
        }
    }

    /// The vector `pin` delivers, if any.
    pub fn routed_vector(&self, pin: u8) -> (r: Option<u8>)
        requires
            pin < IOAPIC_NUM_PINS,
        ensures
            r == self.route(pin as int),
    {
        let entry: u64 = self.redtbl[pin as usize];
        if (entry >> 16) & 1 != 0 || (entry & 0xFF) < 16 {
            None
        } else {
            Some((entry & 0xFF) as u8)
        }
    }
}

impl Default for IoApicState {
    fn default() -> (r: Self)
        ensures
            r == IoApicState::reset(),
    {
        IoApicState { redtbl: [0x1_0000u64; 24] }
    }
}

/// The entries of a table, each as eight bytes.
pub open spec fn entries_input(t: Seq<u64>) -> Seq<u8>
    decreases t.len(),
{
    if t.len() == 0 {
        Seq::empty()
    } else {
        entries_input(t.drop_last()) + bytes::le64(t.last())
    }
}

impl StateHash for IoApicState {
    open spec fn hash_input(&self) -> Seq<u8> {
        entries_input(self.redtbl@)
    }

    fn state_hash(&self) -> (h: u64) {
        let mut h = Xxh64Hasher::new();
        let mut i: usize = 0;
        while i < 24
            invariant
                i <= 24,
                h.wf(),
                h@ == entries_input(self.redtbl@.take(i as int)),
            decreases 24 - i,
        {
            h.write_u64(self.redtbl[i]);
            assert(self.redtbl@.take(i + 1).drop_last() =~= self.redtbl@.take(i as int));
            i = i + 1;
        }
        assert(self.redtbl@.take(24) =~= self.redtbl@);
        h.finish()
    }
}

} // verus!
