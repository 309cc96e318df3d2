//! Serial port (8250/16550 UART) state for COM1 at 0x3F8.

use vstd::prelude::*;

use crate::hash::{StateHash, Xxh64Hasher};

verus! {

/// The writable UART registers. Drivers probe the port by reading back what
/// they wrote, the scratch register above all.
#[derive(Clone, Copy, Debug, PartialEq, Eq, Structural)]
pub struct SerialState {
    /// Interrupt Enable Register (0x3F9).
    pub ier: u8,
    /// Line Control Register (0x3FB).
    pub lcr: u8,
    /// Modem Control Register (0x3FC).
    pub mcr: u8,
    /// Scratch Register (0x3FF).
    pub scr: u8,
    /// Divisor Latch Low (0x3F8 while DLAB is set).
    pub dll: u8,
    /// Divisor Latch High (0x3F9 while DLAB is set).
    pub dlh: u8,
}

impl SerialState {
    /// The divisor latch is selected in place of the data registers.
    pub open spec fn dlab(self) -> bool {
        self.lcr & 0x80 != 0
    }
}

impl Default for SerialState {
    fn default() -> (r: Self)
        ensures
            r == (SerialState { ier: 0, lcr: 0, mcr: 0, scr: 0, dll: 0, dlh: 0 }),
    {
        SerialState { ier: 0, lcr: 0, mcr: 0, scr: 0, dll: 0, dlh: 0 }
    }
}

impl StateHash for SerialState {
    open spec fn hash_input(&self) -> Seq<u8> {
        seq![self.ier, self.lcr, self.mcr, self.scr, self.dll, self.dlh]
    }

    fn state_hash(&self) -> (h: u64) {
        let mut h = Xxh64Hasher::new();
        h.write_u8(self.ier);
        h.write_u8(self.lcr);
        h.write_u8(self.mcr);
        h.write_u8(self.scr);
        h.write_u8(self.dll);
        h.write_u8(self.dlh);
        assert(h@ =~= self.hash_input());
        h.finish()
    }
}

} // verus!
