//! RDRAND emulation state: a seeded generator, or values from userspace.

use vstd::prelude::*;

use crate::bytes;
use crate::devices::random;
use crate::devices::random::xorshift64_step;
use crate::hash::{StateHash, Xxh64Hasher};

verus! {

/// RDRAND emulation mode.
#[derive(Debug, Clone, Copy, PartialEq, Eq, Structural)]
pub enum RdrandMode {
    /// Use a seeded generator.
    SeededRng,
    /// Exit to userspace for each RDRAND.
    ExitToUserspace,
}

impl Default for RdrandMode {
    fn default() -> (r: Self)
        ensures
            r == RdrandMode::SeededRng,
    {
        RdrandMode::SeededRng
    }
}

/// State of RDRAND emulation.
#[derive(Debug, Clone, Copy, PartialEq, Eq, Structural)]
pub struct RdrandState {
    /// Current emulation mode.
    pub mode: RdrandMode,
    /// Generator state in seeded mode.
    pub value: u64,
    /// Value for the next RDRAND in exit-to-userspace mode.
    pub pending_value: Option<u64>,
}

impl Default for RdrandState {
    fn default() -> (r: Self)
        ensures
            r == (RdrandState {
                mode: RdrandMode::SeededRng,
                value: 0x12345678_deadbeef,
                pending_value: None,
            }),
    {
        RdrandState { mode: RdrandMode::SeededRng, value: 0x12345678_deadbeef, pending_value: None }
    }
}

impl RdrandState {
    /// The value an RDRAND gets, and the state after it.
    pub open spec fn draw(self) -> (Self, Option<u64>) {
        match self.mode {
            RdrandMode::SeededRng => (
                RdrandState { value: random::xorshift64(self.value), ..self },
                Some(random::xorshift64(self.value)),
            ),
            RdrandMode::ExitToUserspace => (
                RdrandState { pending_value: None, ..self },
                self.pending_value,
            ),
        }
    }

    /// Seeded mode.
    pub fn seeded_rng(seed: u64) -> (r: Self)
        ensures
            r == (RdrandState {
                mode: RdrandMode::SeededRng,
                value: random::nonzero_seed(seed),
                pending_value: None,
            }),
    {
        RdrandState {
            mode: RdrandMode::SeededRng,
            value: if seed == 0 { 1 } else { seed },
            pending_value: None,
        }
    }

    /// Exit-to-userspace mode.
    pub fn exit_to_userspace() -> (r: Self)
        ensures
            r == (RdrandState {
                mode: RdrandMode::ExitToUserspace,
                value: 0,
                pending_value: None,
            }),
    {
        RdrandState { mode: RdrandMode::ExitToUserspace, value: 0, pending_value: None }
    }

    /// Configure the mode and value; a seeded generator gets a non-zero seed.
    pub fn configure(&mut self, mode: RdrandMode, value: u64)
        ensures
            *final(self) == (RdrandState {
                mode,
                value: if mode == RdrandMode::SeededRng {
                    random::nonzero_seed(value)
                } else {
                    value
                },
                pending_value: None,
            }),
    {
        self.mode = mode;
        self.value = if mode == RdrandMode::SeededRng && value == 0 { 1 } else { value };
        self.pending_value = None;
    }

    /// Stage the value the next [`generate`](Self::generate) returns.
    pub fn set_pending_value(&mut self, value: u64)
        ensures
            *final(self) == (RdrandState { pending_value: Some(value), ..*old(self) }),
    {
        self.pending_value = Some(value);
    }

    /// A random value, or `None` if userspace has to supply one first.
    pub fn generate(&mut self) -> (r: Option<u64>)
        ensures
            (*final(self), r) == old(self).draw(),
    {
        match self.mode {
            RdrandMode::SeededRng => {
                let x: u64 = xorshift64_step(self.value);
                self.value = x;
                Some(x)
            },
            RdrandMode::ExitToUserspace => self.pending_value.take(),
        }
    }

    /// Whether RDRAND must exit to userspace.
    pub fn needs_userspace_exit(&self) -> (r: bool)
        ensures
            r == (self.mode == RdrandMode::ExitToUserspace && self.pending_value is None),
            r <==> self.draw().1 is None,
    {
        self.mode == RdrandMode::ExitToUserspace && self.pending_value.is_none()
    }
}

impl StateHash for RdrandState {
    open spec fn hash_input(&self) -> Seq<u8> {
        let mode = if self.mode == RdrandMode::SeededRng { 0u8 } else { 1u8 };
        let head = seq![mode] + bytes::le64(self.value);
        match self.pending_value {
            Some(v) => head.push(1) + bytes::le64(v),
            None => head.push(0),
        }
    }

    fn state_hash(&self) -> (h: u64) {
        let mut h = Xxh64Hasher::new();
        match self.mode {
            RdrandMode::SeededRng => h.write_u8(0),
            RdrandMode::ExitToUserspace => h.write_u8(1),
        }
        h.write_u64(self.value);
        match self.pending_value {
            Some(v) => {
                h.write_u8(1);
                h.write_u64(v);
            },
            None => {
                h.write_u8(0);
            },
        }
        assert(h@ =~= self.hash_input());
        h.finish()
    }
}

} // verus!
