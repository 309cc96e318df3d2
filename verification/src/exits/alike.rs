//! Exit handling on two states that differ only in what they have of their
//! hosts: the host stamps of events, the statistics, the places of pages on the
//! host and the host's own fields of the VMCS.

use vstd::prelude::*;

use crate::bytes;
use crate::devices::random::RANDOM_REPLY_MAX;
use crate::ept::{EptLeaf, EptView};
use crate::events::stamps;
use crate::events::types::{
    EventKind, IoChannelPayload, IoChannelPhase, RandomPayload, RandomSource,
    EVENT_FLAG_DETERMINISTIC,
};
use crate::exit_record;
use crate::exit_record::EXIT_RECORD_FLAG_DETERMINISTIC;
use crate::exits::cpuid;
use crate::exits::cr;
use crate::exits::handler::INTERRUPT_WINDOW_EXITING;
use crate::exits::helpers::ExitHandlerResult;
use crate::exits::qualifications;
use crate::exits::qualifications::{
    CrAccessQualification, IoDirection, IoQualification, RdrandInstructionInfo, RdrandOperandSize,
};
use crate::exits::rdrand;
use crate::exits::reasons::ExitReason;
use crate::exits::targets::MONITOR_TRAP_FLAG;
use crate::fields::{VmcsField32, VmcsField64, VmcsFieldNatural};
use crate::registers::GeneralPurposeRegisters;
use crate::traits::device_state::DeviceStates;
use crate::vm_state::{VmCore, VmStateView, PREEMPTION_TIMER_RESET};
use crate::vmcs::Vmcs;

verus! {

/// The field is the host's: an address or a register of its own.
pub open spec fn of_host(f: VmcsFieldNatural) -> bool {
    f.slot() >= VmcsFieldNatural::HostCr3.slot()
}

/// The two structures agree on every field that the guest or an exit fills in
/// and on every control. Addresses of host pages and the host's own registers
/// may differ.
#[verifier::opaque]
pub open spec fn same_vmcs(a: Vmcs, b: Vmcs) -> bool {
    &&& a.loaded == b.loaded
    &&& a.dwords == b.dwords
    &&& a.qwords@[VmcsField64::GuestPhysicalAddr.slot()]
        == b.qwords@[VmcsField64::GuestPhysicalAddr.slot()]
    &&& a.qwords@[VmcsField64::GuestIa32PerfGlobalCtrl.slot()]
        == b.qwords@[VmcsField64::GuestIa32PerfGlobalCtrl.slot()]
    &&& forall|f: VmcsFieldNatural|
        !of_host(f) ==> #[trigger] a.naturals@[f.slot()] == b.naturals@[f.slot()]
}

/// The tables map the same pages with the same permissions, wherever the pages
/// lie on the host.
#[verifier::opaque]
pub open spec fn same_ept(a: EptView, b: EptView) -> bool {
    &&& a.leaves.dom() == b.leaves.dom()
    &&& forall|gpa: u64| #[trigger]
        a.leaves.dom().contains(gpa) ==> a.leaves[gpa].permissions == b.leaves[gpa].permissions
}

/// The states differ only in what they have of their hosts.
pub open spec fn alike(a: VmStateView, b: VmStateView) -> bool {
    &&& stamps::same_events(a.events, b.events)
    &&& same_vmcs(a.vmcs, b.vmcs)
    &&& same_ept(a.ept, b.ept)
    &&& a.core == b.core
    &&& a.io_channel == b.io_channel
    &&& a.feedback_buffers == b.feedback_buffers
}

/// Reads of agreeing structures agree.
pub(crate) proof fn reads_agree(a: Vmcs, b: Vmcs)
    requires
        same_vmcs(a, b),
    ensures
        a.loaded == b.loaded,
        forall|f: VmcsField32| #[trigger] a.get32(f) == b.get32(f),
        forall|f: VmcsFieldNatural| !of_host(f) ==> #[trigger] a.get_natural(f) == b.get_natural(f),
        a.get64(VmcsField64::GuestPhysicalAddr) == b.get64(VmcsField64::GuestPhysicalAddr),
        a.get64(VmcsField64::GuestIa32PerfGlobalCtrl) == b.get64(
            VmcsField64::GuestIa32PerfGlobalCtrl,
        ),
{
    reveal(same_vmcs);
}

/// The same write to both.
pub(crate) proof fn natural_written(a: Vmcs, b: Vmcs, f: VmcsFieldNatural, v: u64)
    requires
        same_vmcs(a, b),
    ensures
        same_vmcs(a.with_natural(f, v), b.with_natural(f, v)),
{
    reveal(same_vmcs);
}

/// The same write to both.
pub(crate) proof fn dword_written(a: Vmcs, b: Vmcs, f: VmcsField32, v: u32)
    requires
        same_vmcs(a, b),
    ensures
        same_vmcs(a.with32(f, v), b.with32(f, v)),
{
    reveal(same_vmcs);
}

/// A write to both: the same one, unless the field is an address on the host.
pub(crate) proof fn qword_written(a: Vmcs, b: Vmcs, f: VmcsField64, va: u64, vb: u64)
    requires
        same_vmcs(a, b),
        va == vb || (f != VmcsField64::GuestPhysicalAddr && f
            != VmcsField64::GuestIa32PerfGlobalCtrl),
    ensures
        same_vmcs(a.with64(f, va), b.with64(f, vb)),
{
    reveal(same_vmcs);
}

/// The page is mapped anew in both, with the same permissions.
pub(crate) proof fn remapped(a: EptView, b: EptView, gpa: u64, la: EptLeaf, lb: EptLeaf)
    requires
        same_ept(a, b),
        la.permissions == lb.permissions,
    ensures
        a.lookup(gpa) is Some <==> b.lookup(gpa) is Some,
        same_ept(a.remap(gpa, la).0, b.remap(gpa, lb).0),
        a.remap(gpa, la).1 == b.remap(gpa, lb).1,
{
    reveal(same_ept);
}

/// The same outcome in states that are alike.
pub open spec fn alike_after<R>(a: (VmStateView, R), b: (VmStateView, R)) -> bool {
    alike(a.0, b.0) && a.1 == b.1
}

pub(crate) proof fn append_alike(a: VmStateView, b: VmStateView, kind: EventKind, payload: Seq<u8>)
    requires
        alike(a, b),
    ensures
        alike_after(a.event_append(kind, payload), b.event_append(kind, payload)),
{
    stamps::append_ignores_host_time(
        a.events,
        b.events,
        kind,
        kind.spec_default_flags(),
        a.core.emulated_tsc,
        a.host.tsc,
        b.host.tsc,
        payload,
    );
}

pub(crate) proof fn serial_byte_alike(a: VmStateView, b: VmStateView, byte: u8)
    requires
        alike(a, b),
    ensures
        alike_after(a.event_serial_byte(byte), b.event_serial_byte(byte)),
{
    stamps::serial_byte_ignores_host_time(
        a.events,
        b.events,
        byte,
        a.core.emulated_tsc,
        a.host.tsc,
        b.host.tsc,
    );
}

pub(crate) proof fn flush_alike(a: VmStateView, b: VmStateView)
    requires
        alike(a, b),
    ensures
        alike_after(a.event_flush_serial_line(), b.event_flush_serial_line()),
{
    stamps::flush_line_ignores_host_time(a.events, b.events);
}

pub(crate) proof fn complete_alike(a: VmStateView, b: VmStateView, done: ExitHandlerResult)
    requires
        alike(a, b),
    ensures
        alike_after(a.complete(done), b.complete(done)),
{
    reveal(VmStateView::complete);
    rip_alike(a, b);
}

pub(crate) proof fn rip_alike(a: VmStateView, b: VmStateView)
    requires
        alike(a, b),
    ensures
        alike_after(a.advance_rip(), b.advance_rip()),
{
    reads_agree(a.vmcs, b.vmcs);
    match (
        a.vmcs.get_natural(VmcsFieldNatural::GuestRip),
        a.vmcs.get32(VmcsField32::VmExitInstructionLen),
    ) {
        (Ok(rip), Ok(len)) => natural_written(
            a.vmcs,
            b.vmcs,
            VmcsFieldNatural::GuestRip,
            rip.wrapping_add(len as u64),
        ),
        _ => {},
    }
}

pub(crate) proof fn io_alike(a: VmStateView, b: VmStateView, qual: IoQualification)
    requires
        alike(a, b),
    ensures
        alike_after(a.io(qual), b.io(qual)),
{
    reveal(VmStateView::io);
    let byte = (a.core.gprs.rax & 0xFF) as u8;
    serial_byte_alike(a, b, byte);
    match qual.direction {
        IoDirection::Out => {
            complete_alike(
                a.port_out(qual.port, byte),
                b.port_out(qual.port, byte),
                ExitHandlerResult::Continue,
            );
        },
        IoDirection::In => {
            complete_alike(
                a.port_in(qual.port, qual.size),
                b.port_in(qual.port, qual.size),
                ExitHandlerResult::Continue,
            );
        },
    }
}

pub(crate) proof fn simple_alike(a: VmStateView, b: VmStateView, reason: ExitReason)
    requires
        alike(a, b),
    ensures
        alike_after(a.simple_exit(reason), b.simple_exit(reason)),
{
    reveal(VmStateView::simple_exit);
    rip_alike(a, b);
    reads_agree(a.vmcs, b.vmcs);
    dword_written(a.vmcs, b.vmcs, VmcsField32::VmxPreemptionTimerValue, PREEMPTION_TIMER_RESET);
    match a.vmcs.get32(VmcsField32::PrimaryProcBasedVmExecControls) {
        Ok(controls) => dword_written(
            a.vmcs,
            b.vmcs,
            VmcsField32::PrimaryProcBasedVmExecControls,
            controls & !INTERRUPT_WINDOW_EXITING,
        ),
        Err(_) => {},
    }
}

pub(crate) proof fn io_channel_event_alike(a: VmStateView, b: VmStateView, payload: IoChannelPayload)
    requires
        alike(a, b),
    ensures
        alike_after(a.event_emit_io_channel(payload), b.event_emit_io_channel(payload)),
{
    let is_response = payload.phase == IoChannelPhase::Response.spec_as_u8();
    stamps::append_ignores_host_time(
        a.events,
        b.events,
        EventKind::IoChannel,
        if is_response { 0u16 } else { EVENT_FLAG_DETERMINISTIC },
        a.core.emulated_tsc,
        a.host.tsc,
        b.host.tsc,
        payload.encode() + (if is_response { a.io_channel.response } else { a.io_channel.request }),
    );
}

pub(crate) proof fn randomness_alike(a: VmStateView, b: VmStateView, payload: RandomPayload, data: Seq<u8>)
    requires
        alike(a, b),
    ensures
        alike(a.emit_randomness(payload, data), b.emit_randomness(payload, data)),
{
    append_alike(
        a,
        b,
        EventKind::Randomness,
        payload.encode() + data.take(
            bytes::min_nat(data.len(), RANDOM_REPLY_MAX as nat) as int,
        ),
    );
}

pub(crate) proof fn carry_alike(a: VmStateView, b: VmStateView)
    requires
        alike(a, b),
    ensures
        alike_after(a.with_carry(true), b.with_carry(true)),
{
    reads_agree(a.vmcs, b.vmcs);
    match a.vmcs.get_natural(VmcsFieldNatural::GuestRflags) {
        Ok(rflags) => natural_written(
            a.vmcs,
            b.vmcs,
            VmcsFieldNatural::GuestRflags,
            rflags | 0x1,
        ),
        Err(_) => {},
    }
}

pub(crate) proof fn serve_random_alike(
    a: VmStateView,
    b: VmStateView,
    info: RdrandInstructionInfo,
    source: RandomSource,
    value: u64,
)
    requires
        alike(a, b),
    ensures
        alike_after(a.serve_random(info, source, value), b.serve_random(info, source, value)),
{
    reveal(VmStateView::serve_random);
    let payload = RandomPayload {
        value,
        source: source.spec_as_u8(),
        width: rdrand::operand_width(info.operand_size),
        pid: 0,
    };
    randomness_alike(a, b, payload, Seq::empty());
    let ra = a.emit_randomness(payload, Seq::empty());
    let rb = b.emit_randomness(payload, Seq::empty());
    let core = VmCore {
        gprs: rdrand::result_written(ra.core.gprs, info.dest_reg, value, info.operand_size),
        ..ra.core
    };
    let wa = ra.with_core(core);
    let wb = rb.with_core(core);
    carry_alike(wa, wb);
    complete_alike(wa.with_carry(true).0, wb.with_carry(true).0, ExitHandlerResult::Continue);
}

pub(crate) proof fn random_alike(a: VmStateView, b: VmStateView, source: RandomSource)
    requires
        alike(a, b),
    ensures
        alike_after(a.random(source), b.random(source)),
{
    reveal(VmStateView::random);
    let c = a.core;
    reads_agree(a.vmcs, b.vmcs);
    match a.vmcs.get32(VmcsField32::VmExitInstructionInfo) {
        Err(_) => {},
        Ok(info) => {
            let (device, value) = c.devices.random.draw();
            match value {
                None => {},
                Some(v) => {
                    let drawn = VmCore {
                        devices: DeviceStates { random: device, ..c.devices },
                        ..c
                    };
                    serve_random_alike(
                        a.with_core(drawn),
                        b.with_core(drawn),
                        qualifications::decode_rdrand(info),
                        source,
                        v,
                    );
                },
            }
        },
    }
}

pub(crate) proof fn record_alike(a: VmStateView, b: VmStateView, reason: ExitReason, qual: u64, flags: u32)
    requires
        alike(a, b),
    ensures
        alike(
            a.write_exit_record(reason, qual, flags),
            b.write_exit_record(reason, qual, flags),
        ),
{
    reveal(VmStateView::write_exit_record);
    stamps::same_events_agree(a.events, b.events);
    reads_agree(a.vmcs, b.vmcs);
    let record = a.exit_record(reason, qual, flags);
    assert(b.exit_record(reason, qual, flags) == record);
    exit_record::patch_sets_deferred_fields(record, 0, 0);
    stamps::emit_exit_ignores_host_time(
        a.events,
        b.events,
        record.encode(),
        flags & EXIT_RECORD_FLAG_DETERMINISTIC != 0,
        a.core.emulated_tsc,
        a.host.tsc,
        b.host.tsc,
    );
}

pub(crate) proof fn capture_alike(
    a: VmStateView,
    b: VmStateView,
    reason: ExitReason,
    qual: u64,
    deterministic: bool,
)
    requires
        alike(a, b),
    ensures
        alike(
            a.capture_exit(reason, qual, deterministic),
            b.capture_exit(reason, qual, deterministic),
        ),
{
    reveal(VmStateView::capture_exit);
    let after = a.core.after_capture();
    record_alike(
        a.with_core(after),
        b.with_core(after),
        reason,
        qual,
        if deterministic { EXIT_RECORD_FLAG_DETERMINISTIC } else { 0 },
    );
}

pub(crate) proof fn shutdown_alike(a: VmStateView, b: VmStateView)
    requires
        alike(a, b),
    ensures
        alike(a.capture_exit_at_shutdown(), b.capture_exit_at_shutdown()),
{
    reveal(VmStateView::capture_exit_at_shutdown);
    let captured = VmCore { exit_captured: true, ..a.core };
    record_alike(
        a.with_core(captured),
        b.with_core(captured),
        ExitReason::VmcallShutdown,
        0,
        EXIT_RECORD_FLAG_DETERMINISTIC,
    );
}

pub(crate) proof fn snapshot_alike(a: VmStateView, b: VmStateView)
    requires
        alike(a, b),
    ensures
        alike(a.capture_exit_at_snapshot(), b.capture_exit_at_snapshot()),
{
    reveal(VmStateView::capture_exit_at_snapshot);
    record_alike(a, b, ExitReason::VmcallSnapshot, 0, EXIT_RECORD_FLAG_DETERMINISTIC);
}

pub(crate) proof fn state_exit_alike(a: VmStateView, b: VmStateView, reason: ExitReason, qual: u64)
    requires
        alike(a, b),
    ensures
        alike_after(a.state_exit(reason, qual), b.state_exit(reason, qual)),
{
    reveal(VmStateView::state_exit);
    match reason {
        ExitReason::IoInstruction => io_alike(a, b, qualifications::decode_io(qual)),
        ExitReason::Rdtsc => time_alike(a, b),
        ExitReason::Rdtscp => time_alike(a, b),
        ExitReason::Rdpmc => time_alike(a, b),
        ExitReason::Rdrand => random_alike(a, b, RandomSource::Rdrand),
        ExitReason::Rdseed => random_alike(a, b, RandomSource::Rdseed),
        ExitReason::Hlt => time_alike(a, b),
        ExitReason::Mwait => time_alike(a, b),
        ExitReason::Cpuid => cpuid_alike(a, b),
        ExitReason::CrAccess => cr_access_alike(a, b, qualifications::decode_cr(qual)),
        ExitReason::MsrRead => complete_alike(a, b, ExitHandlerResult::ExitToUserspace(reason)),
        ExitReason::MsrWrite => complete_alike(a, b, ExitHandlerResult::ExitToUserspace(reason)),
        _ => simple_alike(a, b, reason),
    }
}

pub(crate) proof fn time_alike(a: VmStateView, b: VmStateView)
    requires
        alike(a, b),
    ensures
        alike_after(a.rdtsc(), b.rdtsc()),
        alike_after(a.rdtscp(), b.rdtscp()),
        alike_after(a.rdpmc(), b.rdpmc()),
        alike_after(a.idle(), b.idle()),
{
    reveal(VmStateView::rdtsc);
    reveal(VmStateView::rdtscp);
    reveal(VmStateView::rdpmc);
    reveal(VmStateView::idle);
    let c = a.core;
    let rax = c.emulated_tsc & 0xFFFF_FFFF;
    let rdx = c.emulated_tsc >> 32;
    let rcx = c.msr_state.tsc_aux & 0xFFFF_FFFF;
    let again = ExitHandlerResult::Continue;
    let tsc = VmCore { gprs: GeneralPurposeRegisters { rax, rdx, ..c.gprs }, ..c };
    let tscp = VmCore { gprs: GeneralPurposeRegisters { rax, rdx, rcx, ..c.gprs }, ..c };
    let pmc = VmCore { gprs: GeneralPurposeRegisters { rax: 0, rdx: 0, ..c.gprs }, ..c };
    assert(a.after_idle() == b.after_idle());
    complete_alike(a.with_core(tsc), b.with_core(tsc), again);
    complete_alike(a.with_core(tscp), b.with_core(tscp), again);
    complete_alike(a.with_core(pmc), b.with_core(pmc), again);
    complete_alike(a.with_core(a.after_idle()), b.with_core(a.after_idle()), again);
}

pub(crate) proof fn cpuid_alike(a: VmStateView, b: VmStateView)
    requires
        alike(a, b),
    ensures
        alike_after(a.cpuid(), b.cpuid()),
{
    reveal(VmStateView::cpuid);
    let c = a.core;
    let leaf = cpuid::cpuid_leaf(c.gprs.rax as u32);
    let core = VmCore {
        gprs: GeneralPurposeRegisters {
            rax: leaf.eax as u64,
            rbx: leaf.ebx as u64,
            rcx: leaf.ecx as u64,
            rdx: leaf.edx as u64,
            ..c.gprs
        },
        ..c
    };
    complete_alike(a.with_core(core), b.with_core(core), ExitHandlerResult::Continue);
}

pub(crate) proof fn cr_access_alike(a: VmStateView, b: VmStateView, qual: CrAccessQualification)
    requires
        alike(a, b),
    ensures
        alike_after(a.cr_access(qual), b.cr_access(qual)),
{
    reveal(VmStateView::cr_access);
    let c = a.core;
    let again = ExitHandlerResult::Continue;
    reads_agree(a.vmcs, b.vmcs);
    if qual.access == 0 && qual.cr == 3 {
        let v = c.gprs.reg(qual.register);
        natural_written(a.vmcs, b.vmcs, VmcsFieldNatural::GuestCr3, v);
        complete_alike(
            a.with_vmcs(a.vmcs.put_natural(VmcsFieldNatural::GuestCr3, v).0),
            b.with_vmcs(b.vmcs.put_natural(VmcsFieldNatural::GuestCr3, v).0),
            again,
        );
    } else if qual.access == 1 && cr::cr_field(qual.cr) is Some {
        let field = cr::cr_field(qual.cr)->0;
        assert(!of_host(field));
        match a.vmcs.get_natural(field) {
            Ok(value) => {
                let core = VmCore {
                    gprs: rdrand::result_written(
                        c.gprs,
                        qual.register,
                        value,
                        RdrandOperandSize::Size64,
                    ),
                    ..c
                };
                complete_alike(a.with_core(core), b.with_core(core), again);
            },
            Err(_) => {},
        }
    }
}

pub(crate) proof fn end_alike(
    a: VmStateView,
    b: VmStateView,
    reason: ExitReason,
    qual: u64,
    deterministic: bool,
    cycles_a: u64,
    cycles_b: u64,
    result: ExitHandlerResult,
)
    requires
        alike(a, b),
    ensures
        alike_after(
            a.end_exit(reason, qual, deterministic, cycles_a, result),
            b.end_exit(reason, qual, deterministic, cycles_b, result),
        ),
{
    let ca = a.count_exit(reason, deterministic, cycles_a);
    let cb = b.count_exit(reason, deterministic, cycles_b);
    mtf_alike(ca, cb);
    let ua = ca.update_mtf().0;
    let ub = cb.update_mtf().0;
    if deterministic && ua.stop_reached() {
        shutdown_alike(ua, ub);
    } else {
        capture_alike(ua, ub, reason, qual, deterministic);
        stamps::same_events_agree(
            ua.capture_exit(reason, qual, deterministic).events,
            ub.capture_exit(reason, qual, deterministic).events,
        );
    }
    reveal(VmStateView::end_exit);
}

pub(crate) proof fn mtf_alike(a: VmStateView, b: VmStateView)
    requires
        alike(a, b),
    ensures
        alike_after(a.update_mtf(), b.update_mtf()),
{
    assert(a.io_channel_target() == b.io_channel_target());
    assert(a.wants_mtf() == b.wants_mtf());
    reads_agree(a.vmcs, b.vmcs);
    match a.vmcs.get32(VmcsField32::PrimaryProcBasedVmExecControls) {
        Ok(controls) => dword_written(
            a.vmcs,
            b.vmcs,
            VmcsField32::PrimaryProcBasedVmExecControls,
            if a.wants_mtf() { controls | MONITOR_TRAP_FLAG } else { controls & !MONITOR_TRAP_FLAG },
        ),
        Err(_) => {},
    }
}

} // verus!
