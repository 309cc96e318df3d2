//! How an exit goes: what it is taken for, which handler it reaches, and how it
//! ends.

use vstd::prelude::*;

use crate::bytes;
use crate::events::types::{EventKind, RandomSource};
use crate::exit_record;
use crate::exit_record::ExitRecord;
use crate::exits::handler;
use crate::exits::helpers::{ExitError, ExitHandlerResult};
use crate::exits::laws;
use crate::exits::qualifications;
use crate::exits::reasons::ExitReason;
use crate::fields::{VmcsField32, VmcsField64, VmcsFieldNatural};
use crate::traits::vm_context::VmView;
use crate::vm_state;
use crate::vm_state::{ExitTrigger, VmCore, VmStateView};

verus! {

/// The numbers of the exit reasons that are handled here, as the processor reports
/// them.
pub proof fn exit_reasons_have_their_numbers()
    ensures
        ExitReason::ExceptionNmi.code() == 0,
        ExitReason::ExternalInterrupt.code() == 1,
        ExitReason::TripleFault.code() == 2,
        ExitReason::InterruptWindow.code() == 7,
        ExitReason::Cpuid.code() == 10,
        ExitReason::Hlt.code() == 12,
        ExitReason::Rdpmc.code() == 15,
        ExitReason::Rdtsc.code() == 16,
        ExitReason::Vmcall.code() == 18,
        ExitReason::CrAccess.code() == 28,
        ExitReason::IoInstruction.code() == 30,
        ExitReason::MsrRead.code() == 31,
        ExitReason::MsrWrite.code() == 32,
        ExitReason::InvalidGuestState.code() == 33,
        ExitReason::Mwait.code() == 36,
        ExitReason::MonitorTrapFlag.code() == 37,
        ExitReason::Monitor.code() == 39,
        ExitReason::EptViolation.code() == 48,
        ExitReason::Rdtscp.code() == 51,
        ExitReason::VmxPreemptionTimer.code() == 52,
        ExitReason::Xsetbv.code() == 55,
        ExitReason::Rdrand.code() == 57,
        ExitReason::Rdseed.code() == 61,
{
}

/// The address lies in the 4 KB window of the local APIC or of the I/O APIC.
pub open spec fn device_address(gpa: u64) -> bool {
    0xFEE0_0000 <= gpa <= 0xFEE0_0FFF || 0xFEC0_0000 <= gpa <= 0xFEC0_0FFF
}

/// Which exits happen at the same instruction in every run: not host events, not
/// violations other than accesses to the interrupt controllers, and of the single
/// steps those on a target or inside the single-step range. Only these set the
/// clock, and to the instruction count plus what idling added.
pub proof fn clock_is_set_at_reproducible_exits(state: VmStateView, reason: ExitReason, qual: u64)
    ensures
        ({
            let c = state.core;
            let deterministic = state.exit_is_deterministic(reason, qual);
            let begun = state.begin_exit(deterministic);
            let gpa = vm_state::qword_or_zero(state.vmcs, VmcsField64::GuestPhysicalAddr);
            let record_write = qual / 0x1_0000 % 2 == 1 && qual / 2 % 2 == 1;
            let ranged = c.single_step_tsc_range matches Some((start, end)) && start
                <= laws::tsc_now(c) < end;
            &&& reason == ExitReason::ExternalInterrupt || reason == ExitReason::VmxPreemptionTimer
                || reason == ExitReason::ExceptionNmi ==> !deterministic
            &&& reason == ExitReason::EptViolation ==> (deterministic <==> !record_write
                && device_address(gpa))
            &&& reason == ExitReason::MonitorTrapFlag && ranged ==> deterministic
            &&& reason == ExitReason::MonitorTrapFlag && deterministic && !ranged ==> exists|t: u64|
                #![trigger laws::is_stepped_target(state, t)]
                laws::is_stepped_target(state, t) && laws::count_at(c, t) == c.last_instruction_count
            &&& reason == ExitReason::MonitorTrapFlag && (c.stop_at_tsc matches Some(t)
                && laws::count_at(c, t) == c.last_instruction_count) ==> deterministic
            &&& reason == ExitReason::MonitorTrapFlag && laws::io_request_awaits(
                state,
                state.io_channel.request_target_tsc,
            ) && laws::count_at(c, state.io_channel.request_target_tsc) == c.last_instruction_count
                ==> deterministic
            &&& reason == ExitReason::MonitorTrapFlag && c.devices.apic.timer_deadline != 0
                && c.devices.apic.svr / 0x100 % 2 == 1 && c.devices.apic.lvt_timer / 0x1_0000 % 2 == 0
                && laws::count_at(c, c.devices.apic.timer_deadline) == c.last_instruction_count ==>
                deterministic
            &&& reason != ExitReason::ExternalInterrupt && reason != ExitReason::VmxPreemptionTimer
                && reason != ExitReason::ExceptionNmi && reason != ExitReason::EptViolation && reason
                != ExitReason::MonitorTrapFlag ==> deterministic
            &&& deterministic ==> begun.core.emulated_tsc == laws::tsc_now(c)
            &&& !deterministic ==> begun.core.emulated_tsc == c.emulated_tsc
            &&& begun == state.with_core(
                VmCore {
                    emulated_tsc: begun.core.emulated_tsc,
                    last_exit_deterministic: deterministic,
                    ..c
                },
            )
        }),
{
    laws::lemma_qualification_bits(qual);
    let c = state.core;
    laws::lemma_pin_bits(c.devices.ioapic.redtbl@[9]);
    laws::lemma_apic_bits(c.devices.apic.svr, c.devices.apic.lvt_timer);
    if c.on_target(c.count_of(c.timer_target())) {
        assert(laws::is_stepped_target(state, c.timer_target()->0));
    }
    if c.on_target(c.count_of(state.io_channel_target())) {
        assert(laws::is_stepped_target(state, state.io_channel_target()->0));
    }
    if c.on_target(c.count_of(c.stop_at_tsc)) {
        assert(laws::is_stepped_target(state, c.stop_at_tsc->0));
    }
}

/// The exit comes to `outcome`, with guest memory and the pool left alone.
pub open spec fn comes_to(
    vm: VmView,
    reason: ExitReason,
    qual: u64,
    frames: Seq<(u64, u64)>,
    delegated: Option<ExitHandlerResult>,
    outcome: (VmStateView, ExitHandlerResult),
) -> bool {
    vm.dispatch(reason, qual, frames, delegated) == (
        vm.with_state(outcome.0),
        frames,
        Ok::<ExitHandlerResult, ExitError>(outcome.1),
    )
}

/// Instructions that read or wait for time reach their own handlers.
pub proof fn time_exits_reach_their_handlers(
    vm: VmView,
    qual: u64,
    frames: Seq<(u64, u64)>,
    delegated: Option<ExitHandlerResult>,
)
    ensures
        comes_to(vm, ExitReason::Rdtsc, qual, frames, delegated, vm.state.rdtsc()),
        comes_to(vm, ExitReason::Rdtscp, qual, frames, delegated, vm.state.rdtscp()),
        comes_to(vm, ExitReason::Rdpmc, qual, frames, delegated, vm.state.rdpmc()),
        comes_to(vm, ExitReason::Hlt, qual, frames, delegated, vm.state.idle()),
        comes_to(vm, ExitReason::Mwait, qual, frames, delegated, vm.state.idle()),
{
    reveal(VmStateView::state_exit);
    reveal(VmView::dispatch);
}

/// So do those that draw a random value or access a port.
pub proof fn random_and_port_exits_reach_their_handlers(
    vm: VmView,
    qual: u64,
    frames: Seq<(u64, u64)>,
    delegated: Option<ExitHandlerResult>,
)
    ensures
        comes_to(
            vm,
            ExitReason::Rdrand,
            qual,
            frames,
            delegated,
            vm.state.random(RandomSource::Rdrand),
        ),
        comes_to(
            vm,
            ExitReason::Rdseed,
            qual,
            frames,
            delegated,
            vm.state.random(RandomSource::Rdseed),
        ),
        comes_to(
            vm,
            ExitReason::IoInstruction,
            qual,
            frames,
            delegated,
            vm.state.io(qualifications::decode_io(qual)),
        ),
{
    reveal(VmStateView::state_exit);
    reveal(VmView::dispatch);
}

/// What the embedder has emulated is left as it is; else CPUID and control registers
/// reach their handlers, and MSR accesses go to userspace, completed.
pub proof fn processor_exits_reach_their_handlers(
    vm: VmView,
    qual: u64,
    frames: Seq<(u64, u64)>,
    delegated: Option<ExitHandlerResult>,
)
    ensures
        delegated matches Some(outcome) ==> {
            &&& comes_to(vm, ExitReason::Cpuid, qual, frames, delegated, (vm.state, outcome))
            &&& comes_to(vm, ExitReason::CrAccess, qual, frames, delegated, (vm.state, outcome))
            &&& comes_to(vm, ExitReason::MsrRead, qual, frames, delegated, (vm.state, outcome))
            &&& comes_to(vm, ExitReason::MsrWrite, qual, frames, delegated, (vm.state, outcome))
            &&& comes_to(vm, ExitReason::ExceptionNmi, qual, frames, delegated, (vm.state, outcome))
            &&& comes_to(vm, ExitReason::Xsetbv, qual, frames, delegated, (vm.state, outcome))
        },
        comes_to(vm, ExitReason::Cpuid, qual, frames, None, vm.state.cpuid()),
        comes_to(
            vm,
            ExitReason::CrAccess,
            qual,
            frames,
            None,
            vm.state.cr_access(qualifications::decode_cr(qual)),
        ),
        comes_to(
            vm,
            ExitReason::MsrRead,
            qual,
            frames,
            None,
            vm.state.complete(ExitHandlerResult::ExitToUserspace(ExitReason::MsrRead)),
        ),
        comes_to(
            vm,
            ExitReason::MsrWrite,
            qual,
            frames,
            None,
            vm.state.complete(ExitHandlerResult::ExitToUserspace(ExitReason::MsrWrite)),
        ),
{
    reveal(VmStateView::state_exit);
    reveal(VmView::dispatch);
}

/// Host events and single steps let the guest go on, faults end it, a hypercall is
/// served, and what is not handled here goes to userspace with nothing changed.
pub proof fn plain_exits_change_nothing(
    vm: VmView,
    qual: u64,
    frames: Seq<(u64, u64)>,
    delegated: Option<ExitHandlerResult>,
)
    ensures
        comes_to(
            vm,
            ExitReason::ExternalInterrupt,
            qual,
            frames,
            delegated,
            (vm.state, ExitHandlerResult::Continue),
        ),
        comes_to(
            vm,
            ExitReason::MonitorTrapFlag,
            qual,
            frames,
            delegated,
            (vm.state, ExitHandlerResult::Continue),
        ),
        comes_to(
            vm,
            ExitReason::TripleFault,
            qual,
            frames,
            delegated,
            (vm.state, ExitHandlerResult::Error(ExitError::TripleFault)),
        ),
        comes_to(
            vm,
            ExitReason::InvalidGuestState,
            qual,
            frames,
            delegated,
            (vm.state, ExitHandlerResult::Error(ExitError::InvalidGuestState)),
        ),
        comes_to(
            vm,
            ExitReason::Wbinvd,
            qual,
            frames,
            delegated,
            (vm.state, ExitHandlerResult::ExitToUserspace(ExitReason::Wbinvd)),
        ),
        comes_to(
            vm,
            ExitReason::Invlpg,
            qual,
            frames,
            delegated,
            (vm.state, ExitHandlerResult::ExitToUserspace(ExitReason::Invlpg)),
        ),
        comes_to(
            vm,
            ExitReason::DrAccess,
            qual,
            frames,
            delegated,
            (vm.state, ExitHandlerResult::ExitToUserspace(ExitReason::DrAccess)),
        ),
        comes_to(
            vm,
            ExitReason::EptMisconfig,
            qual,
            frames,
            delegated,
            (vm.state, ExitHandlerResult::ExitToUserspace(ExitReason::EptMisconfig)),
        ),
        vm.dispatch(ExitReason::Vmcall, qual, frames, delegated) == (
            vm.vmcall(frames).0,
            vm.vmcall(frames).1,
            Ok::<ExitHandlerResult, ExitError>(vm.vmcall(frames).2),
        ),
{
    reveal(VmStateView::state_exit);
    reveal(VmStateView::simple_exit);
    reveal(VmView::dispatch);
}

proof fn lemma_window_bit(controls: u32)
    by (bit_vector)
    ensures
        (controls & !0x4u32) & 0x4 == 0,
        (controls & !0x4u32) | 0x4 == controls | 0x4,
{
}

/// The preemption timer is wound up and reported; an open interrupt window is
/// closed and the guest goes on; MONITOR is skipped. Nothing else changes.
pub proof fn housekeeping_exits(vm: VmView, qual: u64, frames: Seq<(u64, u64)>)
    requires
        vm.state.vmcs.loaded,
    ensures
        ({
            let (after, left, r) = vm.dispatch(ExitReason::VmxPreemptionTimer, qual, frames, None);
            &&& r == Ok::<ExitHandlerResult, ExitError>(
                ExitHandlerResult::ExitToUserspace(ExitReason::VmxPreemptionTimer),
            )
            &&& after.state.vmcs.get32(VmcsField32::VmxPreemptionTimerValue) matches Ok(v) && v
                == 0x10_0000
            &&& after.state.core == vm.state.core && after.mem == vm.mem && left == frames
        }),
        ({
            let (after, left, r) = vm.dispatch(ExitReason::InterruptWindow, qual, frames, None);
            vm.state.vmcs.get32(VmcsField32::PrimaryProcBasedVmExecControls) matches Ok(before) ==> {
                &&& r == Ok::<ExitHandlerResult, ExitError>(ExitHandlerResult::Continue)
                &&& after.state.vmcs.get32(
                    VmcsField32::PrimaryProcBasedVmExecControls,
                ) matches Ok(v) && v & 0x4 == 0 && v | 0x4 == before | 0x4
                &&& after.state.core == vm.state.core && after.mem == vm.mem && left == frames
            }
        }),
        ({
            let (after, left, r) = vm.dispatch(ExitReason::Monitor, qual, frames, None);
            let len = vm.state.vmcs.get32(VmcsField32::VmExitInstructionLen);
            laws::rip(vm.state) is Some && len is Ok ==> {
                &&& r == Ok::<ExitHandlerResult, ExitError>(ExitHandlerResult::Continue)
                &&& laws::rip(after.state) is Some
                &&& laws::rip(after.state)->0 == (laws::rip(vm.state)->0 + len->Ok_0)
                    % 0x1_0000_0000_0000_0000
                &&& after.state.core == vm.state.core && after.mem == vm.mem && left == frames
            }
        }),
{
    reveal(VmStateView::state_exit);
    reveal(VmStateView::simple_exit);
    reveal(VmView::dispatch);
    if let Ok(before) = vm.state.vmcs.get32(VmcsField32::PrimaryProcBasedVmExecControls) {
        lemma_window_bit(before);
    }
}

/// An EPT violation is sorted by its qualification and address: a record write
/// consumes the arming, an access to an interrupt controller is the embedder's, a
/// write elsewhere may be a matter of copying a page, and the rest is userspace's.
/// Only a page that was copied, or had been, lets the guest go on.
pub proof fn violations_are_sorted(
    vm: VmView,
    qual: u64,
    frames: Seq<(u64, u64)>,
    delegated: Option<ExitHandlerResult>,
)
    ensures
        ({
            let gpa = vm_state::qword_or_zero(vm.state.vmcs, VmcsField64::GuestPhysicalAddr);
            let (after, left, r) = vm.dispatch(ExitReason::EptViolation, qual, frames, delegated);
            let userspace = ExitHandlerResult::ExitToUserspace(ExitReason::EptViolation);
            let write = qual / 2 % 2 == 1;
            &&& r is Ok
            &&& if write && qual / 0x1_0000 % 2 == 1 {
                &&& r->Ok_0 == ExitHandlerResult::Continue
                &&& after.state.core.pebs_state matches Some(p) ==> p.armed_action is None
                &&& after.mem == vm.mem && left == frames
            } else if device_address(gpa) {
                &&& after == vm && left == frames
                &&& r->Ok_0 == match delegated {
                    Some(outcome) => outcome,
                    None => userspace,
                }
            } else if !write || vm.mem.overlay is None {
                after == vm && left == frames && r->Ok_0 == userspace
            } else {
                let page = (gpa - gpa % 4096) as u64;
                &&& r->Ok_0 == ExitHandlerResult::Continue ==> after.mem.owns(page)
                &&& vm.mem.owns(page) ==> r->Ok_0 == ExitHandlerResult::Continue && left == frames
                    && after.mem == vm.mem
                &&& !vm.mem.owns(page) && frames.len() == 0 ==> r->Ok_0
                    == ExitHandlerResult::ExitToUserspace(ExitReason::PoolExhausted)
                &&& !vm.mem.owns(page) && frames.len() > 0 && page + 4096 <= vm.mem.base.len()
                    && vm.state.ept.leaves.dom().contains(page) ==> {
                    &&& r->Ok_0 == ExitHandlerResult::Continue
                    &&& left == frames.drop_last()
                    &&& after.state.ept.leaves[page].hpa == frames.last().0
                }
            }
        }),
{
    reveal(VmView::ept_violation);
    reveal(VmView::dispatch);
    laws::lemma_qualification_bits(qual);
}

/// How an exit ends. At or past the stop point a reproducible exit ends the run,
/// whatever its handler said; otherwise the handler's outcome stands, except that a
/// guest with an event waiting for room is not entered again.
pub proof fn exit_ends_at_the_stop_point(
    state: VmStateView,
    reason: ExitReason,
    qual: u64,
    deterministic: bool,
    cycles: u64,
    result: ExitHandlerResult,
)
    ensures
        ({
            let (after, outcome) = state.end_exit(reason, qual, deterministic, cycles, result);
            let stopped = deterministic && (state.core.stop_at_tsc matches Some(stop)
                && state.core.emulated_tsc >= stop);
            &&& !(outcome is Error) || result is Error ==> {
                &&& stopped ==> outcome == ExitHandlerResult::ExitToUserspace(
                    ExitReason::StopTscReached,
                ) || outcome is Error
                &&& !stopped && result != ExitHandlerResult::Continue ==> outcome == result
                    || outcome is Error
                &&& !stopped && result == ExitHandlerResult::Continue ==> (outcome
                    == ExitHandlerResult::Continue && after.events.pending is None) || (outcome
                    == ExitHandlerResult::ExitToUserspace(ExitReason::EventBufferFull)
                    && after.events.pending is Some) || outcome is Error
            }
            &&& state.update_mtf().1 is Ok && stopped ==> outcome
                == ExitHandlerResult::ExitToUserspace(ExitReason::StopTscReached)
            &&& state.update_mtf().1 is Ok && !stopped && result != ExitHandlerResult::Continue ==>
                outcome == result
            &&& after.core.emulated_tsc == state.core.emulated_tsc
            &&& after.core.gprs == state.core.gprs
            &&& after.core.devices == state.core.devices
        }),
{
    reveal(VmStateView::end_exit);
    reveal(VmStateView::capture_exit);
    reveal(VmStateView::capture_exit_at_shutdown);
    reveal(VmStateView::write_exit_record);
    let counted = state.count_exit(reason, deterministic, cycles);
    handler::lemma_mtf_ignores_stats(state, counted.host.exit_stats);
}

/// What each trigger captures.
pub proof fn triggers_capture_what_they_name(c: VmCore, deterministic: bool)
    ensures
        ({
            let now = c.emulated_tsc;
            let started = now >= c.exit_start_tsc;
            &&& c.exit_trigger == ExitTrigger::Disabled || c.exit_trigger == ExitTrigger::AtShutdown
                ==> !c.captures(deterministic)
            &&& c.exit_trigger == ExitTrigger::AllExits ==> (c.captures(deterministic) <==> started
                && now >= c.exit_target_tsc)
            &&& c.exit_trigger == ExitTrigger::AtTsc ==> (c.captures(deterministic) <==> started
                && deterministic && !c.exit_captured && now >= c.exit_target_tsc)
            &&& c.exit_trigger == ExitTrigger::TscRange ==> (c.captures(deterministic) <==> started
                && deterministic && (c.single_step_tsc_range matches Some((start, end)) && start
                <= now < end))
            &&& c.exit_trigger == ExitTrigger::Checkpoints && c.exit_target_tsc > 0 ==> (c.captures(
                deterministic,
            ) <==> started && deterministic && (exists|k: nat|
                k > c.last_checkpoint_idx && #[trigger] (k * c.exit_target_tsc) <= now))
        }),
{
    if c.exit_trigger == ExitTrigger::Checkpoints && c.exit_target_tsc > 0 {
        let t = c.exit_target_tsc as int;
        let now = c.emulated_tsc as int;
        let q = (now / t) as nat;
        vstd::arithmetic::div_mod::lemma_fundamental_div_mod(now, t);
        assert(q * t <= now) by (nonlinear_arith)
            requires
                now == t * (now / t) + now % t,
                now % t >= 0,
                q == now / t,
        ;
        if c.captures(deterministic) {
            assert(q * c.exit_target_tsc <= now);
        }
        assert forall|k: nat| #[trigger] (k * c.exit_target_tsc) <= now implies k <= q by {
            assert(k <= q) by (nonlinear_arith)
                requires
                    k * t <= now,
                    now == t * q + now % t,
                    now % t < t,
                    t > 0,
            ;
        }
    }
}

/// A captured exit is recorded with its reason, qualification and registers, where
/// the guest stands and the time it has; nothing of the guest changes.
pub proof fn captured_exit_shows_the_guest(
    state: VmStateView,
    reason: ExitReason,
    qual: u64,
    flags: u32,
)
    ensures
        ({
            let c = state.core;
            let r = state.exit_record(reason, qual, flags);
            let natural = |f: VmcsFieldNatural|
                match state.vmcs.get_natural(f) {
                    Ok(v) => v,
                    Err(_) => 0u64,
                };
            &&& r.tsc == c.emulated_tsc
            &&& r.exit_reason == reason.code() && r.exit_qualification == qual && r.flags == flags
            &&& (r.rax, r.rbx, r.rcx, r.rdx) == (c.gprs.rax, c.gprs.rbx, c.gprs.rcx, c.gprs.rdx)
            &&& (r.rsi, r.rdi, r.rbp, r.rsp) == (c.gprs.rsi, c.gprs.rdi, c.gprs.rbp, c.gprs.rsp)
            &&& (r.r8, r.r9, r.r10, r.r11) == (c.gprs.r8, c.gprs.r9, c.gprs.r10, c.gprs.r11)
            &&& (r.r12, r.r13, r.r14, r.r15) == (c.gprs.r12, c.gprs.r13, c.gprs.r14, c.gprs.r15)
            &&& r.rip == natural(VmcsFieldNatural::GuestRip)
            &&& r.rflags == natural(VmcsFieldNatural::GuestRflags)
            &&& r.cr3 == natural(VmcsFieldNatural::GuestCr3)
            &&& r.fs_base == natural(VmcsFieldNatural::GuestFsBase)
            &&& r.gs_base == natural(VmcsFieldNatural::GuestGsBase)
            &&& r.cs_base == natural(VmcsFieldNatural::GuestCsBase)
            &&& r.ds_base == natural(VmcsFieldNatural::GuestDsBase)
            &&& r.es_base == natural(VmcsFieldNatural::GuestEsBase)
            &&& r.ss_base == natural(VmcsFieldNatural::GuestSsBase)
            &&& r.pending_dbg_exceptions == natural(VmcsFieldNatural::GuestPendingDebugExceptions)
            &&& r.kernel_gs_base == c.kernel_gs_base
            &&& r.last_instruction_count == c.last_instruction_count
            &&& r.apic_timer_deadline == c.devices.apic.timer_deadline
            &&& r.io_channel_target_tsc == state.io_channel.request_target_tsc
            &&& r.pebs_armed_target_tsc == match c.pebs_state {
                Some(p) => p.armed_target_tsc,
                None => 0,
            }
            &&& r.pebs_skid == c.last_pebs_skid && r.pebs_inst_delta == c.last_pebs_inst_delta
            &&& r.pebs_tsc_offset_delta == c.last_pebs_tsc_offset_delta && r.pebs_arm_delta
                == c.last_pebs_arm_delta && r.pebs_iters_since_arm == c.last_pebs_iters_since_arm
            &&& r.vmx_state_flags == (if c.mtf_enabled { 1int } else { 0 }) + (if
            c.last_exit_deterministic {
                2int
            } else {
                0
            })
        }),
        ({
            let after = state.write_exit_record(reason, qual, flags);
            &&& after == (VmStateView { core: after.core, events: after.events, ..state })
            &&& after.core.gprs == state.core.gprs && after.core.devices == state.core.devices
                && after.core.emulated_tsc == state.core.emulated_tsc
            &&& state.events.attached && state.events.enabled(EventKind::Exit) ==> after.events
                == state.events.emit_exit(
                state.exit_record(reason, qual, flags).encode(),
                flags % 2 == 1,
                state.core.emulated_tsc,
                state.host.tsc,
            ) && after.core.last_pebs_skid == 0
        }),
{
    reveal(VmStateView::write_exit_record);
    assert(flags & 1 != 0 <==> flags % 2 == 1) by (bit_vector);
    assert(1u64 | 2u64 == 3 && 0u64 | 2u64 == 2 && 1u64 | 0u64 == 1 && 0u64 | 0u64 == 0)
        by (bit_vector);
}

/// The bytes `f` stand at `off` in `b`.
#[verifier::opaque]
pub open spec fn stands_at(b: Seq<u8>, off: int, f: Seq<u8>) -> bool {
    off + f.len() <= b.len() && b.subrange(off, off + f.len()) == f
}

/// The bytes `b` begin with `p`.
#[verifier::opaque]
pub open spec fn begins_with(b: Seq<u8>, p: Seq<u8>) -> bool {
    p.len() <= b.len() && b.take(p.len() as int) == p
}

/// The bytes `b` begin with `p`, and `f` follows there.
proof fn lemma_field(b: Seq<u8>, p: Seq<u8>, f: Seq<u8>, off: int)
    requires
        begins_with(b, p + f),
        p.len() == off,
    ensures
        begins_with(b, p),
        stands_at(b, off, f),
{
    reveal(begins_with);
    reveal(stands_at);
    let whole = b.take((p + f).len() as int);
    assert forall|i: int| 0 <= i < p.len() implies b[i] == p[i] by {
        assert(whole[i] == p[i]);
    }
    assert forall|i: int| 0 <= i < f.len() implies b[p.len() + i] == f[i] by {
        assert(whole[p.len() + i] == f[i]);
    }
    assert(b.take(p.len() as int) =~= p);
    assert(b.subrange(p.len() as int, (p.len() + f.len()) as int) =~= f);
}

/// What stands in a part stands in the whole.
proof fn lemma_part(b: Seq<u8>, base: int, part: Seq<u8>, off: int, f: Seq<u8>)
    requires
        0 <= off,
        0 <= base,
        stands_at(b, base, part),
        stands_at(part, off, f),
    ensures
        stands_at(b, base + off, f),
{
    reveal(stands_at);
    assert forall|i: int| 0 <= i < f.len() implies b[base + off + i] == f[i] by {
        assert(part.subrange(off, off + f.len())[i] == f[i]);
        assert(b.subrange(base, base + part.len())[off + i] == part[off + i]);
    }
    assert(b.subrange(base + off, base + off + f.len()) =~= f);
}

/// Five blocks behind each other can be found again.
proof fn lemma_blocks(h: Seq<u8>, x: Seq<u8>, m: Seq<u8>, y: Seq<u8>, t: Seq<u8>)
    requires
        h.len() == 216,
        x.len() == 8,
        m.len() == 76,
        y.len() == 4,
        t.len() == 208,
    ensures
        ({
            let b = h + x + m + y + t;
            &&& b.len() == 512
            &&& stands_at(b, 0, h)
            &&& stands_at(b, 216, x)
            &&& stands_at(b, 224, m)
            &&& stands_at(b, 300, y)
            &&& stands_at(b, 304, t)
        }),
{
    reveal(stands_at);
    let b = h + x + m + y + t;
    assert(b.subrange(0, 216) =~= h);
    assert(b.subrange(216, 224) =~= x);
    assert(b.subrange(224, 300) =~= m);
    assert(b.subrange(300, 304) =~= y);
    assert(b.subrange(304, 512) =~= t);
}

/// The two fields that are filled in later stand between the blocks of the others.
pub proof fn exit_record_leaves_room_for_deferred_fields(r: ExitRecord)
    ensures
        r.encode().len() == 512,
        stands_at(r.encode(), 0, r.encode_head()),
        stands_at(r.encode(), 216, bytes::le64(r.memory_hash)),
        stands_at(r.encode(), 224, r.encode_mid()),
        stands_at(r.encode(), 300, bytes::le32(r.cow_page_count)),
        stands_at(r.encode(), 304, r.encode_tail()),
{
    reveal(ExitRecord::encode);
    exit_record::lemma_block_lengths(r);
    lemma_blocks(
        r.encode_head(),
        bytes::le64(r.memory_hash),
        r.encode_mid(),
        bytes::le32(r.cow_page_count),
        r.encode_tail(),
    );
}

/// An exit record starts with time, reason and qualification, the registers and the
/// fingerprints of the devices.
pub proof fn exit_record_starts_with_the_guest(r: ExitRecord)
    ensures
        stands_at(r.encode(), 0, bytes::le64(r.tsc)),
        stands_at(r.encode(), 8, bytes::le32(r.exit_reason)),
        stands_at(r.encode(), 12, bytes::le32(r.flags)),
        stands_at(r.encode(), 16, bytes::le64(r.exit_qualification)),
        stands_at(r.encode(), 24, bytes::le64(r.rax)),
        stands_at(r.encode(), 32, bytes::le64(r.rcx)),
        stands_at(r.encode(), 40, bytes::le64(r.rdx)),
        stands_at(r.encode(), 48, bytes::le64(r.rbx)),
        stands_at(r.encode(), 56, bytes::le64(r.rsp)),
        stands_at(r.encode(), 64, bytes::le64(r.rbp)),
        stands_at(r.encode(), 72, bytes::le64(r.rsi)),
        stands_at(r.encode(), 80, bytes::le64(r.rdi)),
        stands_at(r.encode(), 88, bytes::le64(r.r8)),
        stands_at(r.encode(), 96, bytes::le64(r.r9)),
        stands_at(r.encode(), 104, bytes::le64(r.r10)),
        stands_at(r.encode(), 112, bytes::le64(r.r11)),
        stands_at(r.encode(), 120, bytes::le64(r.r12)),
        stands_at(r.encode(), 128, bytes::le64(r.r13)),
        stands_at(r.encode(), 136, bytes::le64(r.r14)),
        stands_at(r.encode(), 144, bytes::le64(r.r15)),
        stands_at(r.encode(), 152, bytes::le64(r.rip)),
        stands_at(r.encode(), 160, bytes::le64(r.rflags)),
        stands_at(r.encode(), 168, bytes::le64(r.apic_hash)),
        stands_at(r.encode(), 176, bytes::le64(r.serial_hash)),
        stands_at(r.encode(), 184, bytes::le64(r.ioapic_hash)),
        stands_at(r.encode(), 192, bytes::le64(r.rtc_hash)),
        stands_at(r.encode(), 200, bytes::le64(r.mtrr_hash)),
        stands_at(r.encode(), 208, bytes::le64(r.rdrand_hash)),
{
    exit_record_leaves_room_for_deferred_fields(r);
    let b = r.encode_head();
    let field_0 = bytes::le64(r.tsc);
    let p0 = field_0;
    let field_1 = bytes::le32(r.exit_reason);
    let p1 = p0 + field_1;
    let field_2 = bytes::le32(r.flags);
    let p2 = p1 + field_2;
    let field_3 = bytes::le64(r.exit_qualification);
    let p3 = p2 + field_3;
    let field_4 = bytes::le64(r.rax);
    let p4 = p3 + field_4;
    let field_5 = bytes::le64(r.rcx);
    let p5 = p4 + field_5;
    let field_6 = bytes::le64(r.rdx);
    let p6 = p5 + field_6;
    let field_7 = bytes::le64(r.rbx);
    let p7 = p6 + field_7;
    let field_8 = bytes::le64(r.rsp);
    let p8 = p7 + field_8;
    let field_9 = bytes::le64(r.rbp);
    let p9 = p8 + field_9;
    let field_10 = bytes::le64(r.rsi);
    let p10 = p9 + field_10;
    let field_11 = bytes::le64(r.rdi);
    let p11 = p10 + field_11;
    let field_12 = bytes::le64(r.r8);
    let p12 = p11 + field_12;
    let field_13 = bytes::le64(r.r9);
    let p13 = p12 + field_13;
    let field_14 = bytes::le64(r.r10);
    let p14 = p13 + field_14;
    let field_15 = bytes::le64(r.r11);
    let p15 = p14 + field_15;
    let field_16 = bytes::le64(r.r12);
    let p16 = p15 + field_16;
    let field_17 = bytes::le64(r.r13);
    let p17 = p16 + field_17;
    let field_18 = bytes::le64(r.r14);
    let p18 = p17 + field_18;
    let field_19 = bytes::le64(r.r15);
    let p19 = p18 + field_19;
    let field_20 = bytes::le64(r.rip);
    let p20 = p19 + field_20;
    let field_21 = bytes::le64(r.rflags);
    let p21 = p20 + field_21;
    let field_22 = bytes::le64(r.apic_hash);
    let p22 = p21 + field_22;
    let field_23 = bytes::le64(r.serial_hash);
    let p23 = p22 + field_23;
    let field_24 = bytes::le64(r.ioapic_hash);
    let p24 = p23 + field_24;
    let field_25 = bytes::le64(r.rtc_hash);
    let p25 = p24 + field_25;
    let field_26 = bytes::le64(r.mtrr_hash);
    let p26 = p25 + field_26;
    let field_27 = bytes::le64(r.rdrand_hash);
    let p27 = p26 + field_27;
    assert(begins_with(b, p27)) by {
        reveal(ExitRecord::encode_head);
        reveal(begins_with);
        assert(b == p27);
        assert(b.take(b.len() as int) =~= b);
    }
    lemma_field(b, p26, field_27, 208);
    lemma_field(b, p25, field_26, 200);
    lemma_field(b, p24, field_25, 192);
    lemma_field(b, p23, field_24, 184);
    lemma_field(b, p22, field_23, 176);
    lemma_field(b, p21, field_22, 168);
    lemma_field(b, p20, field_21, 160);
    lemma_field(b, p19, field_20, 152);
    lemma_field(b, p18, field_19, 144);
    lemma_field(b, p17, field_18, 136);
    lemma_field(b, p16, field_17, 128);
    lemma_field(b, p15, field_16, 120);
    lemma_field(b, p14, field_15, 112);
    lemma_field(b, p13, field_14, 104);
    lemma_field(b, p12, field_13, 96);
    lemma_field(b, p11, field_12, 88);
    lemma_field(b, p10, field_11, 80);
    lemma_field(b, p9, field_10, 72);
    lemma_field(b, p8, field_9, 64);
    lemma_field(b, p7, field_8, 56);
    lemma_field(b, p6, field_7, 48);
    lemma_field(b, p5, field_6, 40);
    lemma_field(b, p4, field_5, 32);
    lemma_field(b, p3, field_4, 24);
    lemma_field(b, p2, field_3, 16);
    lemma_field(b, p1, field_2, 12);
    lemma_field(b, p0, field_1, 8);
    assert(Seq::<u8>::empty() + field_0 =~= field_0);
    lemma_field(b, Seq::empty(), field_0, 0);
    lemma_part(r.encode(), 0, b, 0, field_0);
    lemma_part(r.encode(), 0, b, 8, field_1);
    lemma_part(r.encode(), 0, b, 12, field_2);
    lemma_part(r.encode(), 0, b, 16, field_3);
    lemma_part(r.encode(), 0, b, 24, field_4);
    lemma_part(r.encode(), 0, b, 32, field_5);
    lemma_part(r.encode(), 0, b, 40, field_6);
    lemma_part(r.encode(), 0, b, 48, field_7);
    lemma_part(r.encode(), 0, b, 56, field_8);
    lemma_part(r.encode(), 0, b, 64, field_9);
    lemma_part(r.encode(), 0, b, 72, field_10);
    lemma_part(r.encode(), 0, b, 80, field_11);
    lemma_part(r.encode(), 0, b, 88, field_12);
    lemma_part(r.encode(), 0, b, 96, field_13);
    lemma_part(r.encode(), 0, b, 104, field_14);
    lemma_part(r.encode(), 0, b, 112, field_15);
    lemma_part(r.encode(), 0, b, 120, field_16);
    lemma_part(r.encode(), 0, b, 128, field_17);
    lemma_part(r.encode(), 0, b, 136, field_18);
    lemma_part(r.encode(), 0, b, 144, field_19);
    lemma_part(r.encode(), 0, b, 152, field_20);
    lemma_part(r.encode(), 0, b, 160, field_21);
    lemma_part(r.encode(), 0, b, 168, field_22);
    lemma_part(r.encode(), 0, b, 176, field_23);
    lemma_part(r.encode(), 0, b, 184, field_24);
    lemma_part(r.encode(), 0, b, 192, field_25);
    lemma_part(r.encode(), 0, b, 200, field_26);
    lemma_part(r.encode(), 0, b, 208, field_27);
}

/// Segment bases and paging follow the memory hash.
pub proof fn exit_record_goes_on_with_bases(r: ExitRecord)
    ensures
        stands_at(r.encode(), 224, bytes::le64(r.fs_base)),
        stands_at(r.encode(), 232, bytes::le64(r.gs_base)),
        stands_at(r.encode(), 240, bytes::le64(r.kernel_gs_base)),
        stands_at(r.encode(), 248, bytes::le64(r.cr3)),
        stands_at(r.encode(), 256, bytes::le64(r.cs_base)),
        stands_at(r.encode(), 264, bytes::le64(r.ds_base)),
        stands_at(r.encode(), 272, bytes::le64(r.es_base)),
        stands_at(r.encode(), 280, bytes::le64(r.ss_base)),
        stands_at(r.encode(), 288, bytes::le64(r.pending_dbg_exceptions)),
        stands_at(r.encode(), 296, bytes::le32(r.interruptibility_state)),
{
    exit_record_leaves_room_for_deferred_fields(r);
    let b = r.encode_mid();
    let field_0 = bytes::le64(r.fs_base);
    let p0 = field_0;
    let field_1 = bytes::le64(r.gs_base);
    let p1 = p0 + field_1;
    let field_2 = bytes::le64(r.kernel_gs_base);
    let p2 = p1 + field_2;
    let field_3 = bytes::le64(r.cr3);
    let p3 = p2 + field_3;
    let field_4 = bytes::le64(r.cs_base);
    let p4 = p3 + field_4;
    let field_5 = bytes::le64(r.ds_base);
    let p5 = p4 + field_5;
    let field_6 = bytes::le64(r.es_base);
    let p6 = p5 + field_6;
    let field_7 = bytes::le64(r.ss_base);
    let p7 = p6 + field_7;
    let field_8 = bytes::le64(r.pending_dbg_exceptions);
    let p8 = p7 + field_8;
    let field_9 = bytes::le32(r.interruptibility_state);
    let p9 = p8 + field_9;
    assert(begins_with(b, p9)) by {
        reveal(ExitRecord::encode_mid);
        reveal(begins_with);
        assert(b == p9);
        assert(b.take(b.len() as int) =~= b);
    }
    lemma_field(b, p8, field_9, 72);
    lemma_field(b, p7, field_8, 64);
    lemma_field(b, p6, field_7, 56);
    lemma_field(b, p5, field_6, 48);
    lemma_field(b, p4, field_5, 40);
    lemma_field(b, p3, field_4, 32);
    lemma_field(b, p2, field_3, 24);
    lemma_field(b, p1, field_2, 16);
    lemma_field(b, p0, field_1, 8);
    assert(Seq::<u8>::empty() + field_0 =~= field_0);
    lemma_field(b, Seq::empty(), field_0, 0);
    lemma_part(r.encode(), 224, b, 0, field_0);
    lemma_part(r.encode(), 224, b, 8, field_1);
    lemma_part(r.encode(), 224, b, 16, field_2);
    lemma_part(r.encode(), 224, b, 24, field_3);
    lemma_part(r.encode(), 224, b, 32, field_4);
    lemma_part(r.encode(), 224, b, 40, field_5);
    lemma_part(r.encode(), 224, b, 48, field_6);
    lemma_part(r.encode(), 224, b, 56, field_7);
    lemma_part(r.encode(), 224, b, 64, field_8);
    lemma_part(r.encode(), 224, b, 72, field_9);
}

/// It ends with diagnostics of precise exits and timing, and zeros.
pub proof fn exit_record_ends_with_diagnostics(r: ExitRecord)
    ensures
        stands_at(r.encode(), 304, bytes::le64(r.pebs_skid as u64)),
        stands_at(r.encode(), 312, bytes::le64(r.pebs_inst_delta as u64)),
        stands_at(r.encode(), 320, bytes::le64(r.pebs_tsc_offset_delta as u64)),
        stands_at(r.encode(), 328, bytes::le32(r.pebs_iters_since_arm)),
        stands_at(r.encode(), 332, bytes::zeros(4)),
        stands_at(r.encode(), 336, bytes::le64(r.pebs_arm_delta)),
        stands_at(r.encode(), 344, bytes::le64(r.last_instruction_count)),
        stands_at(r.encode(), 352, bytes::le64(r.apic_timer_deadline)),
        stands_at(r.encode(), 360, bytes::le64(r.io_channel_target_tsc)),
        stands_at(r.encode(), 368, bytes::le64(r.pebs_armed_target_tsc)),
        stands_at(r.encode(), 376, bytes::le64(r.vmx_state_flags)),
        stands_at(r.encode(), 384, bytes::zeros(128)),
{
    exit_record_leaves_room_for_deferred_fields(r);
    let b = r.encode_tail();
    let field_0 = bytes::le64(r.pebs_skid as u64);
    let p0 = field_0;
    let field_1 = bytes::le64(r.pebs_inst_delta as u64);
    let p1 = p0 + field_1;
    let field_2 = bytes::le64(r.pebs_tsc_offset_delta as u64);
    let p2 = p1 + field_2;
    let field_3 = bytes::le32(r.pebs_iters_since_arm);
    let p3 = p2 + field_3;
    let field_4 = bytes::zeros(4);
    let p4 = p3 + field_4;
    let field_5 = bytes::le64(r.pebs_arm_delta);
    let p5 = p4 + field_5;
    let field_6 = bytes::le64(r.last_instruction_count);
    let p6 = p5 + field_6;
    let field_7 = bytes::le64(r.apic_timer_deadline);
    let p7 = p6 + field_7;
    let field_8 = bytes::le64(r.io_channel_target_tsc);
    let p8 = p7 + field_8;
    let field_9 = bytes::le64(r.pebs_armed_target_tsc);
    let p9 = p8 + field_9;
    let field_10 = bytes::le64(r.vmx_state_flags);
    let p10 = p9 + field_10;
    let field_11 = bytes::zeros(128);
    let p11 = p10 + field_11;
    assert(begins_with(b, p11)) by {
        reveal(ExitRecord::encode_tail);
        reveal(begins_with);
        assert(b == p11);
        assert(b.take(b.len() as int) =~= b);
    }
    lemma_field(b, p10, field_11, 80);
    lemma_field(b, p9, field_10, 72);
    lemma_field(b, p8, field_9, 64);
    lemma_field(b, p7, field_8, 56);
    lemma_field(b, p6, field_7, 48);
    lemma_field(b, p5, field_6, 40);
    lemma_field(b, p4, field_5, 32);
    lemma_field(b, p3, field_4, 28);
    lemma_field(b, p2, field_3, 24);
    lemma_field(b, p1, field_2, 16);
    lemma_field(b, p0, field_1, 8);
    assert(Seq::<u8>::empty() + field_0 =~= field_0);
    lemma_field(b, Seq::empty(), field_0, 0);
    lemma_part(r.encode(), 304, b, 0, field_0);
    lemma_part(r.encode(), 304, b, 8, field_1);
    lemma_part(r.encode(), 304, b, 16, field_2);
    lemma_part(r.encode(), 304, b, 24, field_3);
    lemma_part(r.encode(), 304, b, 28, field_4);
    lemma_part(r.encode(), 304, b, 32, field_5);
    lemma_part(r.encode(), 304, b, 40, field_6);
    lemma_part(r.encode(), 304, b, 48, field_7);
    lemma_part(r.encode(), 304, b, 56, field_8);
    lemma_part(r.encode(), 304, b, 64, field_9);
    lemma_part(r.encode(), 304, b, 72, field_10);
    lemma_part(r.encode(), 304, b, 80, field_11);
}

} // verus!
