//! Wire format of the event stream.
//!
//! A record is a fixed 32-byte header followed by `len` payload bytes, padded
//! with zeros to the next multiple of eight so that every header is aligned.
//! All integers are little-endian.

use vstd::prelude::*;

use crate::bytes;
use crate::bytes::{push_u32, push_u64};

verus! {

/// Size of the event buffer (1 MB).
pub const EVENT_BUFFER_SIZE: usize = 0x10_0000;

/// Number of 4 KB pages in the event buffer.
pub const EVENT_BUFFER_PAGES: usize = 256;

/// Size of [`EventHeader`] in bytes.
pub const EVENT_HEADER_SIZE: usize = 32;

/// Header flag: the record takes part in run-vs-run comparison. Clear on
/// records that carry host-derived bytes.
pub const EVENT_FLAG_DETERMINISTIC: u16 = 1;

/// Round `n` up to the next multiple of `align`.
pub fn align_up(n: usize, align: usize) -> (r: usize)
    requires
        align > 0,
        n + align - 1 <= usize::MAX,
    ensures
        r as int % align as int == 0,
        n <= r < n + align,
{
    let rem: usize = n % align;
    if rem == 0 {
        n
    } else {
        proof {
            let a = align as int;
            let q = n as int / a;
            vstd::arithmetic::div_mod::lemma_fundamental_div_mod(n as int, a);
            assert(n + (a - rem) == (q + 1) * a) by (nonlinear_arith)
                requires
                    n == a * q + rem,
            ;
            vstd::arithmetic::div_mod::lemma_mod_multiples_basic(q + 1, a);
        }
        n + (align - rem)
    }
}

/// `n` rounded up to a multiple of eight.
pub open spec fn pad8(n: nat) -> nat {
    ((n + 7) / 8 * 8) as nat
}

/// The only multiple of `align` in `[n, n + align)` is unique, so what
/// [`align_up`] promises determines its result.
pub proof fn align_up_is_unique(n: int, align: int, r1: int, r2: int)
    requires
        align > 0,
        r1 % align == 0,
        n <= r1 < n + align,
        r2 % align == 0,
        n <= r2 < n + align,
    ensures
        r1 == r2,
{
    vstd::arithmetic::div_mod::lemma_fundamental_div_mod(r1, align);
    vstd::arithmetic::div_mod::lemma_fundamental_div_mod(r2, align);
    let q1 = r1 / align;
    let q2 = r2 / align;
    assert(q1 == q2) by (nonlinear_arith)
        requires
            r1 == align * q1,
            r2 == align * q2,
            align > 0,
            -align < r1 - r2 < align,
    ;
}

/// Fixed prefix of every record.
#[derive(Clone, Copy, Debug, PartialEq, Eq, Structural)]
pub struct EventHeader {
    /// Sequence number; never reset, so readers can detect a gap.
    pub seq: u64,
    /// Emulated TSC at emit time, the stream's deterministic time axis.
    pub tsc: u64,
    /// Host TSC at emit time. Not deterministic; for correlation only.
    pub real_tsc: u64,
    /// [`EventKind`] as `u16`.
    pub kind: u16,
    /// `EVENT_FLAG_*` bits.
    pub flags: u16,
    /// Payload length in bytes.
    pub len: u32,
}

impl EventHeader {
    /// The header's 32 bytes.
    pub open spec fn encode(self) -> Seq<u8> {
        bytes::le64(self.seq) + bytes::le64(self.tsc) + bytes::le64(self.real_tsc) + bytes::le16(self.kind) + bytes::le16(self.flags)
            + bytes::le32(self.len)
    }
}

impl Default for EventHeader {
    fn default() -> (r: Self)
        ensures
            r == (EventHeader { seq: 0, tsc: 0, real_tsc: 0, kind: 0, flags: 0, len: 0 }),
    {
        EventHeader { seq: 0, tsc: 0, real_tsc: 0, kind: 0, flags: 0, len: 0 }
    }
}

/// The bytes of a whole record: header, payload, zero padding.
pub open spec fn encode_record(h: EventHeader, payload: Seq<u8>) -> Seq<u8> {
    h.encode() + payload + bytes::zeros((pad8(payload.len()) - payload.len()) as nat)
}

/// The kind of an event record.
#[derive(Clone, Copy, PartialEq, Eq, Structural, Debug)]
pub enum EventKind {
    /// A full VM-exit snapshot.
    Exit,
    /// One guest console line.
    Serial,
    /// An interrupt injected into the guest.
    Inject,
    /// A controlled-randomness value served to the guest.
    Randomness,
    /// An I/O channel transaction.
    IoChannel,
    /// Structured hypervisor diagnostics; reserved.
    Diagnostic,
}

impl EventKind {
    /// The category a kind belongs to.
    pub open spec fn spec_category(self) -> EventCategories {
        match self {
            EventKind::Exit => EventCategories(1),
            EventKind::Serial => EventCategories(2),
            EventKind::Inject => EventCategories(4),
            EventKind::Randomness => EventCategories(8),
            EventKind::IoChannel => EventCategories(16),
            EventKind::Diagnostic => EventCategories(32),
        }
    }

    /// The flags a fresh record of a kind carries.
    pub open spec fn spec_default_flags(self) -> u16 {
        if self == EventKind::Diagnostic { 0 } else { EVENT_FLAG_DETERMINISTIC }
    }

    /// The number a kind has in a header.
    pub open spec fn spec_as_u16(self) -> u16 {
        match self {
            EventKind::Exit => 0,
            EventKind::Serial => 1,
            EventKind::Inject => 2,
            EventKind::Randomness => 3,
            EventKind::IoChannel => 4,
            EventKind::Diagnostic => 5,
        }
    }

    /// The category bit this kind belongs to.
    pub fn category(self) -> (r: EventCategories)
        ensures
            r == self.spec_category(),
    {
        match self {
            EventKind::Exit => EventCategories::exit(),
            EventKind::Serial => EventCategories::serial(),
            EventKind::Inject => EventCategories::inject(),
            EventKind::Randomness => EventCategories::randomness(),
            EventKind::IoChannel => EventCategories::io_channel(),
            EventKind::Diagnostic => EventCategories::diagnostic(),
        }
    }

    /// Default header flags for a freshly emitted record.
    pub fn default_flags(self) -> (r: u16)
        ensures
            r == self.spec_default_flags(),
    {
        match self {
            EventKind::Diagnostic => 0,
            _ => EVENT_FLAG_DETERMINISTIC,
        }
    }

    /// This kind as the raw `u16` stored in the header.
    pub fn as_u16(self) -> (r: u16)
        ensures
            r == self.spec_as_u16(),
    {
        match self {
            EventKind::Exit => 0,
            EventKind::Serial => 1,
            EventKind::Inject => 2,
            EventKind::Randomness => 3,
            EventKind::IoChannel => 4,
            EventKind::Diagnostic => 5,
        }
    }
}

/// Source of an injected interrupt.
#[derive(Clone, Copy, PartialEq, Eq, Structural, Debug)]
pub enum InjectSource {
    /// Emulated APIC timer.
    Timer,
}

impl InjectSource {
    /// The byte stored in [`InjectPayload::source`].
    pub fn as_u8(self) -> (r: u8)
        ensures
            r == 0,
    {
        0
    }
}

/// Payload of an [`EventKind::Inject`] record.
#[derive(Clone, Copy, PartialEq, Eq, Structural, Debug)]
pub struct InjectPayload {
    /// Interrupt vector injected.
    pub vector: u8,
    /// [`InjectSource`] as `u8`.
    pub source: u8,
    /// The emulated TSC the injection was scheduled for. Next to the header's
    /// `tsc` it shows how late the interrupt was delivered.
    pub target_tsc: u64,
}

impl InjectPayload {
    /// The payload's 16 bytes.
    #[verifier::opaque]
    pub open spec fn encode(self) -> Seq<u8> {
        seq![self.vector, self.source] + bytes::zeros(6) + bytes::le64(self.target_tsc)
    }

    /// The payload as bytes for `event_append`.
    pub fn as_bytes(&self) -> (v: Vec<u8>)
        ensures
            v@ == self.encode(),
            v@.len() == 16,
    {
        reveal(InjectPayload::encode);
        let mut v: Vec<u8> = vec![0u8; 8];
        v[0] = self.vector;
        v[1] = self.source;
        assert(v@ =~= seq![self.vector, self.source] + bytes::zeros(6));
        push_u64(&mut v, self.target_tsc);
        v
    }
}

impl Default for InjectPayload {
    fn default() -> (r: Self)
        ensures
            r == (InjectPayload { vector: 0, source: 0, target_tsc: 0 }),
    {
        InjectPayload { vector: 0, source: 0, target_tsc: 0 }
    }
}

/// The channel a controlled-randomness value was served on.
#[derive(Clone, Copy, PartialEq, Eq, Structural, Debug)]
pub enum RandomSource {
    /// RDRAND instruction; the value is inline in the payload.
    Rdrand,
    /// RDSEED instruction; the value is inline in the payload.
    Rdseed,
    /// `HYPERCALL_GET_RANDOM`; the served bytes follow the payload.
    GetRandom,
}

impl RandomSource {
    /// The number a source has in a payload.
    pub open spec fn spec_as_u8(self) -> u8 {
        match self {
            RandomSource::Rdrand => 0,
            RandomSource::Rdseed => 1,
            RandomSource::GetRandom => 2,
        }
    }

    /// The byte stored in [`RandomPayload::source`].
    pub fn as_u8(self) -> (r: u8)
        ensures
            r == self.spec_as_u8(),
    {
        match self {
            RandomSource::Rdrand => 0,
            RandomSource::Rdseed => 1,
            RandomSource::GetRandom => 2,
        }
    }

    /// Decode the `source` byte of a [`RandomPayload`]; unknown values fall
    /// back to [`Rdrand`](Self::Rdrand).
    pub fn from_u8(v: u8) -> (r: Self)
        ensures
            v <= 2 ==> r.spec_as_u8() == v,
            v > 2 ==> r == RandomSource::Rdrand,
    {
        match v {
            1 => RandomSource::Rdseed,
            2 => RandomSource::GetRandom,
            _ => RandomSource::Rdrand,
        }
    }
}

/// Payload of an [`EventKind::Randomness`] record.
#[derive(Clone, Copy, PartialEq, Eq, Structural, Debug)]
pub struct RandomPayload {
    /// Value handed to the guest for RDRAND/RDSEED; zero for `GetRandom`.
    pub value: u64,
    /// Requesting process for `GetRandom`; zero otherwise.
    pub pid: u32,
    /// [`RandomSource`] as `u8`.
    pub source: u8,
    /// Operand width in bytes; zero for `GetRandom`.
    pub width: u8,
}

impl RandomPayload {
    /// The payload's 16 bytes.
    #[verifier::opaque]
    pub open spec fn encode(self) -> Seq<u8> {
        bytes::le64(self.value) + bytes::le32(self.pid) + seq![self.source, self.width] + bytes::zeros(2)
    }

    /// The payload as bytes for `event_append`.
    pub fn as_bytes(&self) -> (v: Vec<u8>)
        ensures
            v@ == self.encode(),
            v@.len() == 16,
    {
        reveal(RandomPayload::encode);
        let mut v: Vec<u8> = Vec::new();
        push_u64(&mut v, self.value);
        push_u32(&mut v, self.pid);
        v.push(self.source);
        v.push(self.width);
        v.push(0);
        v.push(0);
        assert(v@ =~= self.encode());
        v
    }
}

impl Default for RandomPayload {
    fn default() -> (r: Self)
        ensures
            r == (RandomPayload { value: 0, pid: 0, source: 0, width: 0 }),
    {
        RandomPayload { value: 0, pid: 0, source: 0, width: 0 }
    }
}

/// Phase of an I/O channel transaction.
#[derive(Clone, Copy, PartialEq, Eq, Structural, Debug)]
pub enum IoChannelPhase {
    /// A request was signalled to the guest.
    Request,
    /// The guest delivered its response.
    Response,
}

impl IoChannelPhase {
    /// The number a phase has in a payload.
    pub open spec fn spec_as_u8(self) -> u8 {
        match self {
            IoChannelPhase::Request => 0,
            IoChannelPhase::Response => 1,
        }
    }

    /// The byte stored in [`IoChannelPayload::phase`].
    pub fn as_u8(self) -> (r: u8)
        ensures
            r == self.spec_as_u8(),
    {
        match self {
            IoChannelPhase::Request => 0,
            IoChannelPhase::Response => 1,
        }
    }
}

/// Fixed prefix of an [`EventKind::IoChannel`] record's payload; the
/// transaction's bytes follow it.
#[derive(Clone, Copy, PartialEq, Eq, Structural, Debug)]
pub struct IoChannelPayload {
    /// [`IoChannelPhase`] as `u8`.
    pub phase: u8,
    /// The TSC a request was scheduled for; zero on a response.
    pub target_tsc: u64,
}

impl IoChannelPayload {
    /// The prefix's 16 bytes.
    #[verifier::opaque]
    pub open spec fn encode(self) -> Seq<u8> {
        seq![self.phase] + bytes::zeros(7) + bytes::le64(self.target_tsc)
    }

    /// The payload prefix as bytes.
    pub fn as_bytes(&self) -> (v: Vec<u8>)
        ensures
            v@ == self.encode(),
            v@.len() == 16,
    {
        reveal(IoChannelPayload::encode);
        let mut v: Vec<u8> = vec![0u8; 8];
        v[0] = self.phase;
        assert(v@ =~= seq![self.phase] + bytes::zeros(7));
        push_u64(&mut v, self.target_tsc);
        v
    }
}

impl Default for IoChannelPayload {
    fn default() -> (r: Self)
        ensures
            r == (IoChannelPayload { phase: 0, target_tsc: 0 }),
    {
        IoChannelPayload { phase: 0, target_tsc: 0 }
    }
}

/// Category mask. Filtering happens at emit time.
#[derive(Clone, Copy, PartialEq, Eq, Structural, Debug)]
pub struct EventCategories(pub u32);

impl EventCategories {
    /// Exit records.
    pub fn exit() -> (r: Self)
        ensures
            r == EventKind::Exit.spec_category(),
    {
        EventCategories(1)
    }

    /// Serial records.
    pub fn serial() -> (r: Self)
        ensures
            r == EventKind::Serial.spec_category(),
    {
        EventCategories(2)
    }

    /// Injected-interrupt records.
    pub fn inject() -> (r: Self)
        ensures
            r == EventKind::Inject.spec_category(),
    {
        EventCategories(4)
    }

    /// Controlled-randomness records.
    pub fn randomness() -> (r: Self)
        ensures
            r == EventKind::Randomness.spec_category(),
    {
        EventCategories(8)
    }

    /// I/O channel records.
    pub fn io_channel() -> (r: Self)
        ensures
            r == EventKind::IoChannel.spec_category(),
    {
        EventCategories(16)
    }

    /// Diagnostic records.
    pub fn diagnostic() -> (r: Self)
        ensures
            r == EventKind::Diagnostic.spec_category(),
    {
        EventCategories(32)
    }

    /// Every bit of `other` is set in `self`.
    pub open spec fn spec_contains(self, other: Self) -> bool {
        self.0 & other.0 == other.0
    }

    /// No categories enabled.
    pub fn empty() -> (r: Self)
        ensures
            r == EventCategories(0),
    {
        EventCategories(0)
    }

    /// True if `self` contains every bit in `other`.
    pub fn contains(self, other: Self) -> (r: bool)
        ensures
            r == self.spec_contains(other),
    {
        self.0 & other.0 == other.0
    }

    /// The union of two masks.
    pub fn union(self, other: Self) -> (r: Self)
        ensures
            r == EventCategories(self.0 | other.0),
    {
        EventCategories(self.0 | other.0)
    }
}

impl Default for EventCategories {
    fn default() -> (r: Self)
        ensures
            r == EventCategories(0),
    {
        EventCategories(0)
    }
}

/// A union contains exactly the masks that need no bit outside the two parts;
/// in particular it contains both parts, and the empty mask contains no kind's
/// category.
pub proof fn category_laws(a: EventCategories, b: EventCategories, k: EventKind)
    ensures
        EventCategories(a.0 | b.0).spec_contains(a),
        EventCategories(a.0 | b.0).spec_contains(b),
        EventCategories(a.0 | b.0).spec_contains(k.spec_category()) <==> (a.spec_contains(
            k.spec_category(),
        ) || b.spec_contains(k.spec_category())),
        !EventCategories(0).spec_contains(k.spec_category()),
{
    let x = a.0;
    let y = b.0;
    assert((x | y) & x == x && (x | y) & y == y) by (bit_vector);
    assert(forall|c: u32|
        c == 1 || c == 2 || c == 4 || c == 8 || c == 16 || c == 32 ==> ((x | y) & c == c <==> (x & c
            == c || y & c == c)) && 0u32 & c != c) by (bit_vector);
}

} // verus!
