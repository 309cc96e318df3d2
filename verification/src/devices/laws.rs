//! What the devices start from, and what their fingerprints cover.

use vstd::prelude::*;

use crate::bytes;
use crate::devices::apic;
use crate::devices::apic::ApicState;
use crate::devices::ioapic;
use crate::devices::ioapic::IoApicState;
use crate::devices::mtrr::MtrrState;
use crate::devices::random;
use crate::devices::random::{RandomState, RdrandMode};
use crate::devices::serial::SerialState;
use crate::hash::StateHash;
use crate::memory;
use crate::traits::device_state::{DeviceStates, GuestMsrState};

verus! {

/// After reset no interrupt is requested or in service, the timer is masked and
/// disarmed, every pin is masked, and randomness comes from a generator that is not
/// stuck at zero.
pub proof fn devices_start_quiet(pin: int, word: int)
    requires
        0 <= pin < 24,
        0 <= word < 8,
    ensures
        ({
            let d = DeviceStates::reset();
            &&& d.apic.svr == 0xFF && d.apic.lvt_timer == 0x1_0000
            &&& d.apic.timer_initial == 0 && d.apic.timer_deadline == 0
            &&& d.apic.irr@[word] == 0 && d.apic.isr@[word] == 0
            &&& d.ioapic.redtbl@[pin] == 0x1_0000
            &&& d.serial == (SerialState { ier: 0, lcr: 0, mcr: 0, scr: 0, dll: 0, dlh: 0 })
            &&& d.mtrr.def_type == 0 && d.mtrr.var_ranges@[word] == 0
            &&& d.mtrr.var_ranges@[word + 8] == 0
            &&& d.random.mode == RdrandMode::SeededRng && d.random.seed == 0x9e37_79b9_7f4a_7c15
            &&& d.random.pending_value is None && !d.random.awaiting && !d.random.reply_valid
        }),
        GuestMsrState::reset().pat == 0x0007_0406_0007_0406,
        GuestMsrState::reset().tsc_aux == 0,
        forall|seed: u64| #[trigger] random::nonzero_seed(seed) != 0,
        forall|seed: u64| seed != 0 ==> #[trigger] random::nonzero_seed(seed) == seed,
{
}

proof fn lemma_split(a: Seq<u8>, x: Seq<u8>, b: Seq<u8>, y: Seq<u8>)
    requires
        a + x == b + y,
        a.len() == b.len() || x.len() == y.len(),
    ensures
        a == b,
        x == y,
{
    assert((a + x).len() == (b + y).len());
    assert(a =~= (a + x).take(a.len() as int));
    assert(b =~= (b + y).take(b.len() as int));
    assert(x =~= (a + x).skip(a.len() as int));
    assert(y =~= (b + y).skip(b.len() as int));
}

proof fn lemma_words(a: Seq<u32>, b: Seq<u32>)
    requires
        a.len() == b.len(),
    ensures
        apic::words_input(a).len() == 8 * a.len(),
        apic::words_input(a) == apic::words_input(b) ==> a == b,
    decreases a.len(),
{
    if a.len() > 0 {
        lemma_words(a.drop_last(), b.drop_last());
        lemma_words(b.drop_last(), a.drop_last());
        if apic::words_input(a) == apic::words_input(b) {
            lemma_split(
                apic::words_input(a.drop_last()),
                bytes::le64(a.last() as u64),
                apic::words_input(b.drop_last()),
                bytes::le64(b.last() as u64),
            );
            bytes::le64_injective(a.last() as u64, b.last() as u64);
            assert(a =~= a.drop_last().push(a.last()));
            assert(b =~= b.drop_last().push(b.last()));
        }
    } else {
        assert(a =~= b);
    }
}

proof fn lemma_entries(a: Seq<u64>, b: Seq<u64>)
    requires
        a.len() == b.len(),
    ensures
        ioapic::entries_input(a).len() == 8 * a.len(),
        ioapic::entries_input(a) == ioapic::entries_input(b) ==> a == b,
    decreases a.len(),
{
    if a.len() > 0 {
        lemma_entries(a.drop_last(), b.drop_last());
        lemma_entries(b.drop_last(), a.drop_last());
        if ioapic::entries_input(a) == ioapic::entries_input(b) {
            lemma_split(
                ioapic::entries_input(a.drop_last()),
                bytes::le64(a.last()),
                ioapic::entries_input(b.drop_last()),
                bytes::le64(b.last()),
            );
            bytes::le64_injective(a.last(), b.last());
            assert(a =~= a.drop_last().push(a.last()));
            assert(b =~= b.drop_last().push(b.last()));
        }
    } else {
        assert(a =~= b);
    }
}

/// What is hashed of a local APIC tells any two of them apart.
pub proof fn apic_fingerprint_covers_all(a: ApicState, b: ApicState)
    requires
        a.hash_input() == b.hash_input(),
    ensures
        a.svr == b.svr,
        a.lvt_timer == b.lvt_timer,
        a.timer_initial == b.timer_initial,
        a.timer_deadline == b.timer_deadline,
        a.irr@ == b.irr@,
        a.isr@ == b.isr@,
{
    lemma_words(a.irr@, b.irr@);
    lemma_words(a.isr@, b.isr@);
    lemma_words(b.irr@, a.irr@);
    lemma_words(b.isr@, a.isr@);
    let (a1, b1) = (bytes::le64(a.svr as u64), bytes::le64(b.svr as u64));
    let (a2, b2) = (bytes::le64(a.lvt_timer as u64), bytes::le64(b.lvt_timer as u64));
    let (a3, b3) = (bytes::le64(a.timer_initial as u64), bytes::le64(b.timer_initial as u64));
    let (a4, b4) = (bytes::le64(a.timer_deadline), bytes::le64(b.timer_deadline));
    let (a5, b5) = (apic::words_input(a.irr@), apic::words_input(b.irr@));
    let (a6, b6) = (apic::words_input(a.isr@), apic::words_input(b.isr@));
    lemma_split(a1 + a2 + a3 + a4 + a5, a6, b1 + b2 + b3 + b4 + b5, b6);
    lemma_split(a1 + a2 + a3 + a4, a5, b1 + b2 + b3 + b4, b5);
    lemma_split(a1 + a2 + a3, a4, b1 + b2 + b3, b4);
    lemma_split(a1 + a2, a3, b1 + b2, b3);
    lemma_split(a1, a2, b1, b2);
    bytes::le64_injective(a.svr as u64, b.svr as u64);
    bytes::le64_injective(a.lvt_timer as u64, b.lvt_timer as u64);
    bytes::le64_injective(a.timer_initial as u64, b.timer_initial as u64);
    bytes::le64_injective(a.timer_deadline, b.timer_deadline);
}

/// What is hashed of an I/O APIC, of the range registers, and of the serial port tells
/// any two of them apart.
pub proof fn table_fingerprints_cover_all(
    a: (IoApicState, MtrrState, SerialState),
    b: (IoApicState, MtrrState, SerialState),
)
    ensures
        a.0.hash_input() == b.0.hash_input() ==> a.0.redtbl@ == b.0.redtbl@,
        a.1.hash_input() == b.1.hash_input() ==> a.1.def_type == b.1.def_type && a.1.var_ranges@
            == b.1.var_ranges@,
        a.2.hash_input() == b.2.hash_input() ==> a.2 == b.2,
{
    lemma_entries(a.0.redtbl@, b.0.redtbl@);
    lemma_entries(a.1.var_ranges@, b.1.var_ranges@);
    if a.1.hash_input() == b.1.hash_input() {
        lemma_split(
            bytes::le64(a.1.def_type),
            ioapic::entries_input(a.1.var_ranges@),
            bytes::le64(b.1.def_type),
            ioapic::entries_input(b.1.var_ranges@),
        );
        bytes::le64_injective(a.1.def_type, b.1.def_type);
    }
    if a.2.hash_input() == b.2.hash_input() {
        let (s, t) = (a.2.hash_input(), b.2.hash_input());
        assert(s[0] == t[0] && s[1] == t[1] && s[2] == t[2] && s[3] == t[3] && s[4] == t[4] && s[5]
            == t[5]);
    }
}

/// What is hashed of the randomness device tells mode, generator and staged value
/// apart.
pub proof fn random_fingerprint_covers_generator(a: RandomState, b: RandomState)
    requires
        a.hash_input() == b.hash_input(),
    ensures
        a.mode == b.mode,
        a.seed == b.seed,
        a.pending_value == b.pending_value,
{
    let (s, t) = (a.hash_input(), b.hash_input());
    assert(s.len() == t.len());
    assert(s[0] == t[0]);
    assert(s.subrange(1, 9) =~= bytes::le64(a.seed));
    assert(t.subrange(1, 9) =~= bytes::le64(b.seed));
    bytes::le64_injective(a.seed, b.seed);
    if a.pending_value is Some {
        assert(s.subrange(10, 18) =~= bytes::le64(a.pending_value->0));
        assert(t.subrange(10, 18) =~= bytes::le64(b.pending_value->0));
        bytes::le64_injective(a.pending_value->0, b.pending_value->0);
    }
}

/// What is hashed of copied pages tells their contents apart, page by page.
pub proof fn page_fingerprint_covers_contents(
    keys: Seq<u64>,
    a: Map<u64, Seq<u8>>,
    b: Map<u64, Seq<u8>>,
    i: int,
)
    requires
        0 <= i < keys.len(),
        forall|k: int| 0 <= k < keys.len() ==> (#[trigger] a[keys[k]]).len() == b[keys[k]].len(),
        memory::pages_input(keys, a) == memory::pages_input(keys, b),
    ensures
        a[keys[i]] == b[keys[i]],
    decreases keys.len(),
{
    let head = keys.drop_last();
    let at = bytes::le64(keys.last());
    assert(a[keys[keys.len() - 1]].len() == b[keys[keys.len() - 1]].len());
    lemma_split(
        memory::pages_input(head, a) + at,
        a[keys.last()],
        memory::pages_input(head, b) + at,
        b[keys.last()],
    );
    lemma_split(memory::pages_input(head, a), at, memory::pages_input(head, b), at);
    if i < keys.len() - 1 {
        assert forall|k: int| 0 <= k < head.len() implies (#[trigger] a[head[k]]).len()
            == b[head[k]].len() by {
            assert(a[keys[k]].len() == b[keys[k]].len());
        }
        page_fingerprint_covers_contents(head, a, b, i);
    }
}

} // verus!
