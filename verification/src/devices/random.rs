//! Controlled-randomness device.
//!
//! One device backs every channel by which randomness reaches the guest:
//! RDRAND, RDSEED and the `HYPERCALL_GET_RANDOM` chokepoint. They share one
//! mode and one xorshift64 generator. In seeded mode values come from the
//! generator; in exit-to-userspace mode userspace supplies each value or byte
//! buffer.

use vstd::prelude::*;

use crate::bytes;
use crate::bytes::{copy_into, push_bytes, push_u64, slice_to_vec};
use crate::hash::{StateHash, Xxh64Hasher};

verus! {

/// Randomness emulation mode.
#[derive(Debug, Clone, Copy, PartialEq, Eq, Structural)]
pub enum RdrandMode {
    /// Serve from a seeded generator.
    SeededRng,
    /// Exit to userspace for each request.
    ExitToUserspace,
}

impl Default for RdrandMode {
    fn default() -> (r: Self)
        ensures
            r == RdrandMode::SeededRng,
    {
        RdrandMode::SeededRng
    }
}

/// Maximum bytes served by a single `HYPERCALL_GET_RANDOM`.
pub const RANDOM_REPLY_MAX: usize = 256;

/// The generator's seed until one is configured.
pub const RANDOM_DEFAULT_SEED: u64 = 0x9e37_79b9_7f4a_7c15;

/// One step of the xorshift64 generator.
pub open spec fn xorshift64(x: u64) -> u64 {
    let a = x ^ (x << 13);
    let b = a ^ (a >> 7);
    b ^ (b << 17)
}

/// The generator state after `n` steps from `seed`; also the `n`-th value
/// drawn.
pub open spec fn xorshift64_nth(seed: u64, n: nat) -> u64
    decreases n,
{
    if n == 0 {
        seed
    } else {
        xorshift64(xorshift64_nth(seed, (n - 1) as nat))
    }
}

/// `n` bytes drawn from `seed`: the values in turn, least significant byte
/// first.
pub open spec fn seeded_bytes(seed: u64, n: nat) -> Seq<u8> {
    Seq::new(n, |i: int| bytes::le64(xorshift64_nth(seed, (i / 8 + 1) as nat))[i % 8])
}

/// A non-zero generator state stays non-zero, so the stream never gets stuck.
pub proof fn xorshift64_never_zero(seed: u64, n: nat)
    requires
        seed != 0,
    ensures
        xorshift64_nth(seed, n) != 0,
    decreases n,
{
    if n > 0 {
        xorshift64_never_zero(seed, (n - 1) as nat);
        let x = xorshift64_nth(seed, (n - 1) as nat);
        let a = x ^ (x << 13);
        let b = a ^ (a >> 7);
        assert(x != 0 ==> x ^ (x << 13) != 0) by (bit_vector);
        assert(a != 0 ==> a ^ (a >> 7) != 0) by (bit_vector);
        assert(b != 0 ==> b ^ (b << 17) != 0) by (bit_vector);
    }
}

/// Distinct generator states have distinct successors, so streams that start
/// from different seeds never merge.
pub proof fn xorshift64_injective(x: u64, y: u64)
    requires
        xorshift64(x) == xorshift64(y),
    ensures
        x == y,
{
    let a = x ^ (x << 13);
    let b = a ^ (a >> 7);
    let c = y ^ (y << 13);
    let d = c ^ (c >> 7);
    assert(b ^ (b << 17) == d ^ (d << 17) ==> b == d) by (bit_vector);
    assert(a ^ (a >> 7) == c ^ (c >> 7) ==> a == c) by (bit_vector);
    assert(x ^ (x << 13) == y ^ (y << 13) ==> x == y) by (bit_vector);
}

/// Advance a generator state.
pub fn xorshift64_step(x: u64) -> (r: u64)
    ensures
        r == xorshift64(x),
{
    let a: u64 = x ^ (x << 13);
    let b: u64 = a ^ (a >> 7);
    b ^ (b << 17)
}

/// State of the controlled-randomness device.
#[derive(Debug, Clone, Copy)]
pub struct RandomState {
    /// Emulation mode of all channels.
    pub mode: RdrandMode,
    /// Generator state, shared by all channels.
    pub seed: u64,
    /// Value staged by userspace for the next RDRAND/RDSEED; consumed once.
    pub pending_value: Option<u64>,
    /// A GET_RANDOM request is waiting for bytes from userspace.
    pub awaiting: bool,
    /// Guest address of the destination of the request in flight.
    pub buf_gva: u64,
    /// Bytes requested by the request in flight.
    pub req_len: u32,
    /// Process that issued the request in flight.
    pub pid: u32,
    /// Reply bytes staged by userspace; the first `reply_len` are valid.
    pub reply: [u8; 256],
    /// Number of valid bytes in `reply`.
    pub reply_len: u32,
    /// A reply has been staged for the request in flight.
    pub reply_valid: bool,
}

/// A usable generator seed: zero is replaced, as the generator would stay at it.
pub open spec fn nonzero_seed(seed: u64) -> u64 {
    if seed == 0 { 1 } else { seed }
}

impl RandomState {
    /// The device after reset.
    pub open spec fn reset() -> Self {
        RandomState {
            mode: RdrandMode::SeededRng,
            seed: RANDOM_DEFAULT_SEED,
            pending_value: None,
            awaiting: false,
            buf_gva: 0,
            req_len: 0,
            pid: 0,
            reply: vstd::array::spec_array_fill_for_copy_type(0u8),
            reply_len: 0,
            reply_valid: false,
        }
    }

    /// The device without a request in flight.
    pub open spec fn without_request(self) -> Self {
        RandomState {
            awaiting: false,
            buf_gva: 0,
            req_len: 0,
            pid: 0,
            reply_len: 0,
            reply_valid: false,
            ..self
        }
    }

    /// The staged reply fits its buffer.
    pub open spec fn wf(self) -> bool {
        self.reply_len <= RANDOM_REPLY_MAX
    }

    /// The value an RDRAND/RDSEED gets, and the device after it.
    pub open spec fn draw(self) -> (Self, Option<u64>) {
        match self.mode {
            RdrandMode::SeededRng => (
                RandomState { seed: xorshift64(self.seed), ..self },
                Some(xorshift64(self.seed)),
            ),
            RdrandMode::ExitToUserspace => (
                RandomState { pending_value: None, ..self },
                self.pending_value,
            ),
        }
    }

    /// A device in seeded mode.
    pub fn seeded_rng(seed: u64) -> (r: Self)
        ensures
            r == (RandomState { seed: nonzero_seed(seed), ..RandomState::reset() }),
    {
        let mut r = RandomState::default();
        r.seed = if seed == 0 { 1 } else { seed };
        r
    }

    /// A device in exit-to-userspace mode.
    pub fn exit_to_userspace() -> (r: Self)
        ensures
            r == (RandomState { mode: RdrandMode::ExitToUserspace, ..RandomState::reset() }),
    {
        let mut r = RandomState::default();
        r.mode = RdrandMode::ExitToUserspace;
        r
    }

    /// Configure the mode and the seed. Forces a non-zero seed and drops any
    /// staged value and request in flight.
    pub fn configure(&mut self, mode: RdrandMode, seed: u64)
        ensures
            *final(self) == (RandomState {
                mode,
                seed: nonzero_seed(seed),
                pending_value: None,
                ..old(self).without_request()
            }),
    {
        self.mode = mode;
        self.seed = if seed == 0 { 1 } else { seed };
        self.pending_value = None;
        self.clear_request();
    }

    /// Advance the generator and return the next value.
    pub fn next_seeded_u64(&mut self) -> (r: u64)
        ensures
            r == xorshift64(old(self).seed),
            *final(self) == (RandomState { seed: r, ..*old(self) }),
    {
        let x: u64 = xorshift64_step(self.seed);
        self.seed = x;
        x
    }

    /// Draw `n` bytes from the generator. A value is drawn for every eight
    /// bytes or part of them.
    pub fn next_seeded_bytes(&mut self, n: usize) -> (r: Vec<u8>)
        requires
            n <= RANDOM_REPLY_MAX,
        ensures
            r@ == seeded_bytes(old(self).seed, n as nat),
            *final(self) == (RandomState {
                seed: xorshift64_nth(old(self).seed, ((n + 7) / 8) as nat),
                ..*old(self)
            }),
    {
        let ghost seed = self.seed;
        let mut out: Vec<u8> = Vec::new();
        let mut drawn: usize = 0;
        assert(out@ =~= seeded_bytes(seed, 0));
        while out.len() < n
            invariant
                n <= RANDOM_REPLY_MAX,
                seed == old(self).seed,
                drawn <= (n + 7) / 8,
                out@ == seeded_bytes(seed, out@.len()),
                out@.len() == n || out@.len() == 8 * drawn,
                out@.len() == n ==> drawn == (n + 7) / 8,
                out@.len() <= n,
                *self == (RandomState { seed: xorshift64_nth(seed, drawn as nat), ..*old(self) }),
            decreases n - out@.len(),
        {
            let value: u64 = self.next_seeded_u64();
            assert(value == xorshift64_nth(seed, (drawn + 1) as nat));
            let mut word: Vec<u8> = Vec::new();
            push_u64(&mut word, value);
            assert(word@ =~= bytes::le64(value));
            let at: usize = out.len();
            let k: usize = if n - at <= 8 { n - at } else { 8 };
            let part: Vec<u8> = slice_to_vec(word.as_slice(), 0, k);
            push_bytes(&mut out, part.as_slice());
            assert(out@ =~= seeded_bytes(seed, out@.len()));
            drawn = drawn + 1;
        }
        out
    }

    /// The value for an RDRAND/RDSEED instruction, or `None` if userspace has
    /// to supply one first.
    pub fn generate(&mut self) -> (r: Option<u64>)
        ensures
            (*final(self), r) == old(self).draw(),
    {
        match self.mode {
            RdrandMode::SeededRng => Some(self.next_seeded_u64()),
            RdrandMode::ExitToUserspace => self.pending_value.take(),
        }
    }

    /// Stage the value the next [`generate`](Self::generate) returns.
    pub fn set_pending_value(&mut self, value: u64)
        ensures
            *final(self) == (RandomState { pending_value: Some(value), ..*old(self) }),
    {
        self.pending_value = Some(value);
    }

    /// Whether an RDRAND/RDSEED must exit to userspace.
    pub fn needs_rdrand_exit(&self) -> (r: bool)
        ensures
            r == (self.mode == RdrandMode::ExitToUserspace && self.pending_value is None),
    {
        self.mode == RdrandMode::ExitToUserspace && self.pending_value.is_none()
    }

    /// Record a GET_RANDOM request before exiting to userspace.
    pub fn begin_request(&mut self, buf_gva: u64, req_len: u32, pid: u32)
        ensures
            *final(self) == (RandomState {
                buf_gva,
                req_len,
                pid,
                awaiting: true,
                reply_valid: false,
                reply_len: 0,
                ..*old(self)
            }),
    {
        self.buf_gva = buf_gva;
        self.req_len = req_len;
        self.pid = pid;
        self.awaiting = true;
        self.reply_valid = false;
        self.reply_len = 0;
    }

    /// Stage reply bytes for the request in flight; bytes past
    /// [`RANDOM_REPLY_MAX`] are dropped.
    pub fn stage_reply(&mut self, bytes: &[u8])
        ensures
            final(self).wf(),
            final(self).reply_len == bytes::min_nat(bytes@.len(), RANDOM_REPLY_MAX as nat),
            final(self).reply@ == bytes::overwrite(
                old(self).reply@,
                0,
                bytes@.take(final(self).reply_len as int),
            ),
            *final(self) == (RandomState {
                reply: final(self).reply,
                reply_len: final(self).reply_len,
                reply_valid: true,
                ..*old(self)
            }),
    {
        let n: usize = if bytes.len() <= RANDOM_REPLY_MAX { bytes.len() } else { RANDOM_REPLY_MAX };
        copy_into(&mut self.reply, 0, bytes, 0, n);
        assert(bytes@.subrange(0, n as int) =~= bytes@.take(n as int));
        self.reply_len = n as u32;
        self.reply_valid = true;
    }

    /// Drop the request in flight.
    pub fn clear_request(&mut self)
        ensures
            *final(self) == old(self).without_request(),
    {
        self.awaiting = false;
        self.buf_gva = 0;
        self.req_len = 0;
        self.pid = 0;
        self.reply_len = 0;
        self.reply_valid = false;
    }

    /// Whether a GET_RANDOM request must exit to userspace for bytes.
    pub fn needs_get_random_exit(&self) -> (r: bool)
        ensures
            r == (self.mode == RdrandMode::ExitToUserspace && !self.reply_valid),
    {
        self.mode == RdrandMode::ExitToUserspace && !self.reply_valid
    }
}

impl Default for RandomState {
    fn default() -> (r: Self)
        ensures
            r == RandomState::reset(),
    {
        RandomState {
            mode: RdrandMode::SeededRng,
            seed: RANDOM_DEFAULT_SEED,
            pending_value: None,
            awaiting: false,
            buf_gva: 0,
            req_len: 0,
            pid: 0,
            reply: [0u8; 256],
            reply_len: 0,
            reply_valid: false,
        }
    }
}

impl StateHash for RandomState {
    /// The mode, the generator state and the staged value. A request in flight
    /// is transient and left out.
    open spec fn hash_input(&self) -> Seq<u8> {
        let mode = if self.mode == RdrandMode::SeededRng { 0u8 } else { 1u8 };
        let head = seq![mode] + bytes::le64(self.seed);
        match self.pending_value {
            Some(v) => head.push(1) + bytes::le64(v),
            None => head.push(0),
        }
    }

    fn state_hash(&self) -> (h: u64) {
        let mut h = Xxh64Hasher::new();
        match self.mode {
            RdrandMode::SeededRng => h.write_u8(0),
            RdrandMode::ExitToUserspace => h.write_u8(1),
        }
        h.write_u64(self.seed);
        match self.pending_value {
            Some(v) => {
                h.write_u8(1);
                h.write_u64(v);
            },
            None => {
                h.write_u8(0);
            },
        }
        assert(h@ =~= self.hash_input());
        h.finish()
    }
}

/// A staged value is handed out once: the next draw returns it and the one
/// after that needs userspace again.
pub proof fn staged_value_is_consumed_once(s: RandomState, value: u64)
    requires
        s.mode == RdrandMode::ExitToUserspace,
    ensures
        ({
            let staged = RandomState { pending_value: Some(value), ..s };
            let (after, first) = staged.draw();
            first == Some(value) && after.draw().1 is None
        }),
{
}

/// In seeded mode the draws are a function of the seed alone: two devices that
/// agree on the seed agree on the next value and on the seed after it.
pub proof fn seeded_draws_agree(a: RandomState, b: RandomState)
    requires
        a.mode == RdrandMode::SeededRng,
        b.mode == RdrandMode::SeededRng,
        a.seed == b.seed,
    ensures
        a.draw().1 is Some,
        a.draw().1 == b.draw().1,
        a.draw().0.seed == b.draw().0.seed,
{
}

} // verus!
