//! Local APIC state.

use vstd::prelude::*;

use crate::bytes;
use crate::hash::{StateHash, Xxh64Hasher};

verus! {

/// Base of the local APIC's MMIO window.
pub const APIC_BASE: u64 = 0xFEE0_0000;

/// Size of the local APIC's MMIO window.
pub const APIC_SIZE: u64 = 0x1000;

/// The parts of the local APIC that exit handling reads and writes.
#[derive(Clone, Copy, Debug)]
pub struct ApicState {
    /// Spurious-interrupt vector register; bit 8 enables the APIC.
    pub svr: u32,
    /// LVT timer entry; bit 16 masks it, bits 7:0 are the vector.
    pub lvt_timer: u32,
    /// Initial count of the timer.
    pub timer_initial: u32,
    /// Emulated TSC at which the timer fires; zero when disarmed.
    pub timer_deadline: u64,
    /// Interrupt request register, 32 vectors per word.
    pub irr: [u32; 8],
    /// In-service register, 32 vectors per word.
    pub isr: [u32; 8],
}

impl ApicState {
    /// The APIC after reset: software-disabled, timer masked and disarmed.
    pub open spec fn reset() -> Self {
        ApicState {
            svr: 0xFF,
            lvt_timer: 0x1_0000,
            timer_initial: 0,
            timer_deadline: 0,
            irr: vstd::array::spec_array_fill_for_copy_type(0u32),
            isr: vstd::array::spec_array_fill_for_copy_type(0u32),
        }
    }

    /// The APIC with `vector` requested.
    pub open spec fn with_request(self, vector: u8) -> Self {
        let word = vector / 32;
        ApicState {
            irr: vstd::array::spec_array_update(
                self.irr,
                word as int,
                self.irr@[word as int] | (1u32 << (vector % 32)),
            ),
            ..self
        }
    }

    /// Request the interrupt `vector`.
    pub fn request(&mut self, vector: u8)
        ensures
            *final(self) == old(self).with_request(vector),
    {
        let word: usize = (vector / 32) as usize;
        self.irr[word] = self.irr[word] | (1u32 << (vector % 32));
        assert(self.irr =~= old(self).with_request(vector).irr);
    }
}

impl Default for ApicState {
    fn default() -> (r: Self)
        ensures
            r == ApicState::reset(),
    {
        ApicState {
            svr: 0xFF,
            lvt_timer: 0x1_0000,
            timer_initial: 0,
            timer_deadline: 0,
            irr: [0u32; 8],
            isr: [0u32; 8],
        }
    }
}

/// The words of a register file, each as eight bytes.
pub open spec fn words_input(w: Seq<u32>) -> Seq<u8>
    decreases w.len(),
{
    if w.len() == 0 {
        Seq::empty()
    } else {
        words_input(w.drop_last()) + bytes::le64(w.last() as u64)
    }
}

/// Feed the words of a register file.
fn write_words(h: &mut Xxh64Hasher, w: &[u32; 8])
    requires
        old(h).wf(),
    ensures
        final(h).wf(),
        final(h)@ == old(h)@ + words_input(w@),
{
    let mut i: usize = 0;
    while i < 8
        invariant
            i <= 8,
            h.wf(),
            h@ == old(h)@ + words_input(w@.take(i as int)),
        decreases 8 - i,
    {
        h.write_u64(w[i] as u64);
        assert(w@.take(i + 1).drop_last() =~= w@.take(i as int));
        assert(h@ =~= old(h)@ + words_input(w@.take(i + 1)));
        i = i + 1;
    }
    assert(w@.take(8) =~= w@);
}

impl StateHash for ApicState {
    open spec fn hash_input(&self) -> Seq<u8> {
        bytes::le64(self.svr as u64) + bytes::le64(self.lvt_timer as u64) + bytes::le64(
            self.timer_initial as u64,
        ) + bytes::le64(self.timer_deadline) + words_input(self.irr@) + words_input(self.isr@)
    }

    fn state_hash(&self) -> (h: u64) {
        let mut h = Xxh64Hasher::new();
        h.write_u64(self.svr as u64);
        h.write_u64(self.lvt_timer as u64);
        h.write_u64(self.timer_initial as u64);
        h.write_u64(self.timer_deadline);
        write_words(&mut h, &self.irr);
        write_words(&mut h, &self.isr);
        assert(h@ =~= self.hash_input());
        h.finish()
    }
}

} // verus!
