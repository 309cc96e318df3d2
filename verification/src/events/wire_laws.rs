//! What readers of the event stream and of the statistics can rely on.

use vstd::prelude::*;

use crate::bytes;
use crate::events::stream::EventStreamView;
use crate::events::types;
use crate::events::types::{EventHeader, EventKind, InjectPayload};
use crate::exits::reasons::ExitReason;
use crate::stats::{AllExitStats, ExitStats};
use crate::vm_file::structs::BedrockExitStats;

verus! {

/// Byte `i` of an encoded integer is its digit of weight 256 to the `i`.
pub proof fn integers_are_little_endian(word: u16, dword: u32, qword: u64)
    ensures
        bytes::le16(word).len() == 2 && bytes::le32(dword).len() == 4 && bytes::le64(qword).len()
            == 8,
        ({
            let b = bytes::le16(word);
            b[0] == word % 0x100 && b[1] == word / 0x100
        }),
        ({
            let b = bytes::le32(dword);
            &&& b[0] == dword % 0x100 && b[1] == (dword / 0x100) % 0x100
            &&& b[2] == (dword / 0x1_0000) % 0x100 && b[3] == dword / 0x100_0000
        }),
        ({
            let b = bytes::le64(qword);
            &&& b[0] == qword % 0x100 && b[1] == (qword / 0x100) % 0x100
            &&& b[2] == (qword / 0x1_0000) % 0x100 && b[3] == (qword / 0x100_0000) % 0x100
            &&& b[4] == (qword / 0x1_0000_0000) % 0x100
            &&& b[5] == (qword / 0x100_0000_0000) % 0x100
            &&& b[6] == (qword / 0x1_0000_0000_0000) % 0x100
            &&& b[7] == qword / 0x100_0000_0000_0000
        }),
{
    assert({
        &&& (word as u8) == word % 0x100
        &&& (word >> 8) as u8 == word / 0x100
        &&& (dword as u8) == dword % 0x100
        &&& (dword >> 8) as u8 == (dword / 0x100) % 0x100
        &&& (dword >> 16) as u8 == (dword / 0x1_0000) % 0x100
        &&& (dword >> 24) as u8 == dword / 0x100_0000
        &&& (qword as u8) == qword % 0x100
        &&& (qword >> 8) as u8 == (qword / 0x100) % 0x100
        &&& (qword >> 16) as u8 == (qword / 0x1_0000) % 0x100
        &&& (qword >> 24) as u8 == (qword / 0x100_0000) % 0x100
        &&& (qword >> 32) as u8 == (qword / 0x1_0000_0000) % 0x100
        &&& (qword >> 40) as u8 == (qword / 0x100_0000_0000) % 0x100
        &&& (qword >> 48) as u8 == (qword / 0x1_0000_0000_0000) % 0x100
        &&& (qword >> 56) as u8 == qword / 0x100_0000_0000_0000
    }) by (bit_vector);
}

/// A kind is recorded if and only if the bit with the kind's number is set in the
/// categories.
pub proof fn categories_select_kinds(v: EventStreamView)
    ensures
        ({
            let c = v.categories.0;
            &&& v.enabled(EventKind::Exit) <==> c % 2 == 1
            &&& v.enabled(EventKind::Serial) <==> (c / 2) % 2 == 1
            &&& v.enabled(EventKind::Inject) <==> (c / 4) % 2 == 1
            &&& v.enabled(EventKind::Randomness) <==> (c / 8) % 2 == 1
            &&& v.enabled(EventKind::IoChannel) <==> (c / 16) % 2 == 1
            &&& v.enabled(EventKind::Diagnostic) <==> (c / 32) % 2 == 1
        }),
        EventKind::Exit.spec_as_u16() == 0 && EventKind::Serial.spec_as_u16() == 1,
        EventKind::Inject.spec_as_u16() == 2 && EventKind::Randomness.spec_as_u16() == 3,
        EventKind::IoChannel.spec_as_u16() == 4 && EventKind::Diagnostic.spec_as_u16() == 5,
        forall|k: EventKind| #[trigger]
            k.spec_default_flags() == (if k is Diagnostic { 0u16 } else { 1 }),
{
    let c = v.categories.0;
    assert({
        &&& c & 1 == 1 <==> c % 2 == 1
        &&& c & 2 == 2 <==> (c / 2) % 2 == 1
        &&& c & 4 == 4 <==> (c / 4) % 2 == 1
        &&& c & 8 == 8 <==> (c / 8) % 2 == 1
        &&& c & 16 == 16 <==> (c / 16) % 2 == 1
        &&& c & 32 == 32 <==> (c / 32) % 2 == 1
    }) by (bit_vector);
}

/// A record: sequence number, both time stamps, kind, flags and length in 32 bytes,
/// the payload behind them, and zeros up to the next multiple of eight.
pub proof fn record_has_its_layout(h: EventHeader, payload: Seq<u8>)
    ensures
        ({
            let r = types::encode_record(h, payload);
            let n = payload.len() as int;
            &&& r.subrange(0, 8) == bytes::le64(h.seq)
            &&& r.subrange(8, 16) == bytes::le64(h.tsc)
            &&& r.subrange(16, 24) == bytes::le64(h.real_tsc)
            &&& r.subrange(24, 26) == bytes::le16(h.kind)
            &&& r.subrange(26, 28) == bytes::le16(h.flags)
            &&& r.subrange(28, 32) == bytes::le32(h.len)
            &&& r.subrange(32, 32 + n) == payload
            &&& 32 + n <= r.len() < 32 + n + 8
            &&& r.len() % 8 == 0
            &&& forall|i: int| 32 + n <= i < r.len() ==> #[trigger] r[i] == 0
        }),
{
    let r = types::encode_record(h, payload);
    let n = payload.len() as int;
    assert(h.encode().len() == 32);
    assert(r.subrange(0, 8) =~= bytes::le64(h.seq));
    assert(r.subrange(8, 16) =~= bytes::le64(h.tsc));
    assert(r.subrange(16, 24) =~= bytes::le64(h.real_tsc));
    assert(r.subrange(24, 26) =~= bytes::le16(h.kind));
    assert(r.subrange(26, 28) =~= bytes::le16(h.flags));
    assert(r.subrange(28, 32) =~= bytes::le32(h.len));
    assert(r.subrange(32, 32 + n) =~= payload);
}

/// The record of an injected interrupt: vector, source, and when it was due.
pub proof fn injection_has_its_layout(p: InjectPayload)
    ensures
        p.encode().len() == 16,
        p.encode()[0] == p.vector && p.encode()[1] == p.source,
        p.encode().subrange(8, 16) == bytes::le64(p.target_tsc),
{
    reveal(InjectPayload::encode);
    assert(p.encode().subrange(8, 16) =~= bytes::le64(p.target_tsc));
}

/// One exit and its cycles more, unless a counter wrapped round.
pub open spec fn one_more(before: ExitStats, after: ExitStats, cycles: u64) -> bool {
    &&& after.count == (before.count + 1) % 0x1_0000_0000_0000_0000
    &&& after.cycles == (before.cycles + cycles) % 0x1_0000_0000_0000_0000
}

/// Exits of instructions that read time, counters, features or random values, or that
/// move control registers, are each counted under their own type.
pub proof fn time_and_register_exits_are_counted(s: AllExitStats, cycles: u64)
    ensures
        one_more(s.cpuid, s.recorded(ExitReason::Cpuid, cycles).cpuid, cycles),
        one_more(s.rdtsc, s.recorded(ExitReason::Rdtsc, cycles).rdtsc, cycles),
        one_more(s.rdtscp, s.recorded(ExitReason::Rdtscp, cycles).rdtscp, cycles),
        one_more(s.rdpmc, s.recorded(ExitReason::Rdpmc, cycles).rdpmc, cycles),
        one_more(s.rdrand, s.recorded(ExitReason::Rdrand, cycles).rdrand, cycles),
        one_more(s.rdseed, s.recorded(ExitReason::Rdseed, cycles).rdseed, cycles),
        one_more(s.cr_access, s.recorded(ExitReason::CrAccess, cycles).cr_access, cycles),
{
}

/// Exits of MSR, port, memory and APIC accesses are counted under their own types;
/// both kinds of APIC access have one counter.
pub proof fn access_exits_are_counted(s: AllExitStats, cycles: u64)
    ensures
        one_more(s.msr_read, s.recorded(ExitReason::MsrRead, cycles).msr_read, cycles),
        one_more(s.msr_write, s.recorded(ExitReason::MsrWrite, cycles).msr_write, cycles),
        one_more(
            s.io_instruction,
            s.recorded(ExitReason::IoInstruction, cycles).io_instruction,
            cycles,
        ),
        one_more(
            s.ept_violation,
            s.recorded(ExitReason::EptViolation, cycles).ept_violation,
            cycles,
        ),
        one_more(s.apic_access, s.recorded(ExitReason::ApicAccess, cycles).apic_access, cycles),
        one_more(s.apic_access, s.recorded(ExitReason::ApicWrite, cycles).apic_access, cycles),
        one_more(s.xsetbv, s.recorded(ExitReason::Xsetbv, cycles).xsetbv, cycles),
{
}

/// Hypercalls, interrupts, exceptions, waits and steps are counted under their own
/// types, and what has no counter of its own as other.
pub proof fn event_exits_are_counted(s: AllExitStats, cycles: u64)
    ensures
        one_more(s.vmcall, s.recorded(ExitReason::Vmcall, cycles).vmcall, cycles),
        one_more(s.vmcall, s.recorded(ExitReason::VmcallShutdown, cycles).vmcall, cycles),
        one_more(
            s.external_interrupt,
            s.recorded(ExitReason::ExternalInterrupt, cycles).external_interrupt,
            cycles,
        ),
        one_more(
            s.exception_nmi,
            s.recorded(ExitReason::ExceptionNmi, cycles).exception_nmi,
            cycles,
        ),
        one_more(s.mwait, s.recorded(ExitReason::Mwait, cycles).mwait, cycles),
        one_more(s.mtf, s.recorded(ExitReason::MonitorTrapFlag, cycles).mtf, cycles),
        one_more(s.other, s.recorded(ExitReason::Hlt, cycles).other, cycles),
{
}

/// Userspace gets each counter under its own name.
pub proof fn statistics_reach_userspace(s: AllExitStats)
    ensures
        ({
            let u = BedrockExitStats::of(s);
            &&& u.cpuid.count == s.cpuid.count && u.cpuid.cycles == s.cpuid.cycles
            &&& u.msr_read.count == s.msr_read.count && u.msr_write.count == s.msr_write.count
            &&& u.cr_access.count == s.cr_access.count && u.io_instruction.count
                == s.io_instruction.count
            &&& u.ept_violation.count == s.ept_violation.count && u.external_interrupt.count
                == s.external_interrupt.count
            &&& u.rdtsc.count == s.rdtsc.count && u.rdtscp.count == s.rdtscp.count && u.rdpmc.count
                == s.rdpmc.count
            &&& u.mwait.count == s.mwait.count && u.vmcall.count == s.vmcall.count
            &&& u.apic_access.count == s.apic_access.count && u.mtf.count == s.mtf.count
            &&& u.xsetbv.count == s.xsetbv.count && u.rdrand.count == s.rdrand.count
            &&& u.rdseed.count == s.rdseed.count && u.exception_nmi.count == s.exception_nmi.count
            &&& u.other.count == s.other.count && u.other.cycles == s.other.cycles
            &&& u.total_run_cycles == s.total_run_cycles && u.guest_cycles == s.guest_cycles
            &&& u.vmentry_overhead_cycles == s.vmentry_overhead_cycles
            &&& u.vmexit_overhead_cycles == s.vmexit_overhead_cycles
            &&& u.irq_window_cycles == s.irq_window_cycles
            &&& u.pebs_arm_below_min_delta == s.pebs_arm_below_min_delta
            &&& u.pebs_arm_already_past == s.pebs_arm_already_past
            &&& u.pebs_armed_iter_no_fire == s.pebs_armed_iter_no_fire
            &&& u.apic_timer_late_inject == s.apic_timer_late_inject
        }),
{
}

} // verus!
