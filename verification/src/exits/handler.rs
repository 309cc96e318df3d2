//! Dispatch of VM exits.

use vstd::prelude::*;

use crate::devices::apic::{APIC_BASE, APIC_SIZE};
use crate::devices::ioapic::{IOAPIC_BASE, IOAPIC_SIZE};
use crate::events::types::RandomSource;
use crate::exit_record::EXIT_RECORD_FLAG_DETERMINISTIC;
use crate::exits::cpuid::handle_cpuid;
use crate::exits::cr::handle_cr_access;
use crate::exits::helpers;
use crate::exits::helpers::{
    advance_rip, complete, read_exit_qualification, read_exit_reason, ExitError, ExitHandlerResult,
};
use crate::exits::io::handle_io;
use crate::exits::pebs;
use crate::exits::pebs::{handle_pebs_precise_exit, is_pebs_induced};
use crate::exits::qualifications;
use crate::exits::qualifications::{
    CrAccessQualification, EptViolationQualification, IoQualification,
};
use crate::exits::rdrand::{handle_rdrand, handle_rdseed};
use crate::exits::reasons::ExitReason;
use crate::exits::targets::{
    in_single_step_range, next_io_channel_exit_count, next_timer_exit_count, stop_exit_count,
    update_mtf,
};
use crate::exits::time::{handle_idle, handle_rdpmc, handle_rdtsc, handle_rdtscp};
use crate::exits::vmcall::handle_vmcall;
use crate::fields::{VmcsField32, VmcsField64};
use crate::page::PagePool;
use crate::stats::AllExitStats;
use crate::traits::vm_context::{VmContext, VmView};
use crate::vm_state;
use crate::vm_state::{read64_or_zero, VmCore, VmState, VmStateView, PREEMPTION_TIMER_RESET};

verus! {

/// Primary control bit of interrupt-window exiting.
pub const INTERRUPT_WINDOW_EXITING: u32 = 0x4;

/// The address belongs to the local APIC or the I/O APIC.
pub open spec fn is_mmio(gpa: u64) -> bool {
    APIC_BASE <= gpa < APIC_BASE + APIC_SIZE || IOAPIC_BASE <= gpa < IOAPIC_BASE + IOAPIC_SIZE
}

/// The exit can be emulated by the embedder, which knows the host's processor
/// features.
pub open spec fn is_delegated(reason: ExitReason) -> bool {
    reason == ExitReason::Cpuid || reason == ExitReason::MsrRead || reason == ExitReason::MsrWrite
        || reason == ExitReason::CrAccess || reason == ExitReason::ExceptionNmi || reason
        == ExitReason::Xsetbv
}

/// The embedder's outcome, or the given one if it left the exit alone.
pub open spec fn delegated_or(
    delegated: Option<ExitHandlerResult>,
    other: ExitHandlerResult,
) -> ExitHandlerResult {
    match delegated {
        Some(result) => result,
        None => other,
    }
}

impl VmStateView {
    /// The exit happens at the same instruction in every run. Host events,
    /// page copying and steps of the margin window do not.
    pub open spec fn exit_is_deterministic(self, reason: ExitReason, qual: u64) -> bool {
        let c = self.core;
        match reason {
            ExitReason::ExternalInterrupt => false,
            ExitReason::VmxPreemptionTimer => false,
            ExitReason::ExceptionNmi => false,
            ExitReason::EptViolation => !pebs::pebs_induced(qualifications::decode_ept(qual))
                && is_mmio(vm_state::qword_or_zero(self.vmcs, VmcsField64::GuestPhysicalAddr)),
            ExitReason::MonitorTrapFlag => c.on_target(c.count_of(c.timer_target()))
                || c.on_target(c.count_of(self.io_channel_target())) || c.on_target(
                c.count_of(c.stop_at_tsc),
            ) || c.in_single_step_range(),
            _ => true,
        }
    }

    /// The state at the start of exit handling: emulated time follows the
    /// instruction count on deterministic exits only.
    pub open spec fn begin_exit(self, deterministic: bool) -> Self {
        let c = self.core;
        self.with_core(
            VmCore {
                last_exit_deterministic: deterministic,
                emulated_tsc: if deterministic { c.current_tsc() } else { c.emulated_tsc },
                ..c
            },
        )
    }

    /// The statistics after an exit. Non-deterministic single steps are counted
    /// apart, so that the other counts agree between runs.
    pub open spec fn count_exit(self, reason: ExitReason, deterministic: bool, cycles: u64) -> Self {
        let s = self.host.exit_stats;
        self.with_stats(
            if reason == ExitReason::MonitorTrapFlag && !deterministic {
                AllExitStats { pebs_margin_steps: s.pebs_margin_steps.wrapping_add(1), ..s }
            } else {
                s.recorded(reason, cycles)
            },
        )
    }

    /// The stop point has been reached.
    pub open spec fn stop_reached(self) -> bool {
        match self.core.stop_at_tsc {
            Some(stop) => self.core.emulated_tsc >= stop,
            None => false,
        }
    }

    /// The state and the outcome at the end of exit handling. A stop point
    /// overrides every outcome of a deterministic exit; a full event buffer
    /// overrides going on with the guest.
    #[verifier::opaque]
    pub open spec fn end_exit(
        self,
        reason: ExitReason,
        qual: u64,
        deterministic: bool,
        cycles: u64,
        result: ExitHandlerResult,
    ) -> (Self, ExitHandlerResult) {
        let (state, mtf) = self.count_exit(reason, deterministic, cycles).update_mtf();
        match mtf {
            Err(e) => (state, ExitHandlerResult::Error(e)),
            Ok(_) => if deterministic && state.stop_reached() {
                (
                    state.capture_exit_at_shutdown(),
                    ExitHandlerResult::ExitToUserspace(ExitReason::StopTscReached),
                )
            } else {
                let captured = state.capture_exit(reason, qual, deterministic);
                (
                    captured,
                    if captured.events.pending is Some && result == ExitHandlerResult::Continue {
                        ExitHandlerResult::ExitToUserspace(ExitReason::EventBufferFull)
                    } else {
                        result
                    },
                )
            },
        }
    }

    /// The state after interrupt-window exiting has been switched off.
    pub open spec fn without_interrupt_window(self) -> (Self, Result<(), ExitError>) {
        match self.vmcs.get32(VmcsField32::PrimaryProcBasedVmExecControls) {
            Err(e) => (self, Err(ExitError::VmcsReadError(e))),
            Ok(controls) => {
                let (vmcs, r) = self.vmcs.put32(
                    VmcsField32::PrimaryProcBasedVmExecControls,
                    controls & !INTERRUPT_WINDOW_EXITING,
                );
                (
                    self.with_vmcs(vmcs),
                    match r {
                        Ok(_) => Ok(()),
                        Err(e) => Err(ExitError::VmcsWriteError(e)),
                    },
                )
            },
        }
    }

    /// The state after the preemption timer has been wound up again.
    pub open spec fn with_timer_reset(self) -> (Self, Result<(), ExitError>) {
        let (vmcs, r) = self.vmcs.put32(VmcsField32::VmxPreemptionTimerValue, PREEMPTION_TIMER_RESET);
        (
            self.with_vmcs(vmcs),
            match r {
                Ok(_) => Ok(()),
                Err(_) => Err(ExitError::Fatal("Failed to reset preemption timer")),
            },
        )
    }

    /// Exits that touch only the state. An error ends exit handling at once.
    #[verifier::opaque]
    pub open spec fn simple_exit(self, reason: ExitReason) -> (
        Self,
        Result<ExitHandlerResult, ExitError>,
    ) {
        match reason {
            ExitReason::MonitorTrapFlag => (self, Ok(ExitHandlerResult::Continue)),
            ExitReason::ExternalInterrupt => (self, Ok(ExitHandlerResult::Continue)),
            ExitReason::TripleFault => (
                self,
                Ok(ExitHandlerResult::Error(ExitError::TripleFault)),
            ),
            ExitReason::InvalidGuestState => (
                self,
                Ok(ExitHandlerResult::Error(ExitError::InvalidGuestState)),
            ),
            ExitReason::Monitor => {
                let (state, r) = self.advance_rip();
                (state, and_then(r, ExitHandlerResult::Continue))
            },
            ExitReason::VmxPreemptionTimer => {
                let (state, r) = self.with_timer_reset();
                (state, and_then(r, ExitHandlerResult::ExitToUserspace(reason)))
            },
            ExitReason::InterruptWindow => {
                let (state, r) = self.without_interrupt_window();
                (state, and_then(r, ExitHandlerResult::Continue))
            },
            _ => (self, Ok(ExitHandlerResult::ExitToUserspace(reason))),
        }
    }
}

/// `done`, if the step before it succeeded.
pub open spec fn and_then(step: Result<(), ExitError>, done: ExitHandlerResult) -> Result<
    ExitHandlerResult,
    ExitError,
> {
    match step {
        Ok(_) => Ok(done),
        Err(e) => Err(e),
    }
}

impl VmView {
    /// An EPT violation: a precise exit, device access, a write to a page that
    /// is shared with the parent, or a matter for userspace.
    #[verifier::opaque]
    pub open spec fn ept_violation(
        self,
        qual: EptViolationQualification,
        frames: Seq<(u64, u64)>,
        delegated: Option<ExitHandlerResult>,
    ) -> (Self, Seq<(u64, u64)>, ExitHandlerResult) {
        let gpa = vm_state::qword_or_zero(self.state.vmcs, VmcsField64::GuestPhysicalAddr);
        let userspace = ExitHandlerResult::ExitToUserspace(ExitReason::EptViolation);
        if pebs::pebs_induced(qual) {
            (
                self.with_state(self.state.precise_exit_fired()),
                frames,
                ExitHandlerResult::Continue,
            )
        } else if is_mmio(gpa) {
            (self, frames, delegated_or(delegated, userspace))
        } else if qual.write {
            let (vm, left, outcome) = self.cow_fault(gpa, frames);
            (
                vm,
                left,
                match outcome {
                    Some(result) => result,
                    None => if self.mem.overlay is Some && frames.len() == 0 {
                        ExitHandlerResult::ExitToUserspace(ExitReason::PoolExhausted)
                    } else {
                        userspace
                    },
                },
            )
        } else {
            (self, frames, userspace)
        }
    }

    /// The VM and the outcome after the exit itself has been handled.
    #[verifier::opaque]
    pub open spec fn dispatch(
        self,
        reason: ExitReason,
        qual: u64,
        frames: Seq<(u64, u64)>,
        delegated: Option<ExitHandlerResult>,
    ) -> (Self, Seq<(u64, u64)>, Result<ExitHandlerResult, ExitError>) {
        if is_delegated(reason) && delegated is Some {
            (self, frames, Ok(delegated->0))
        } else if reason == ExitReason::EptViolation {
            let (vm, left, result) = self.ept_violation(
                qualifications::decode_ept(qual),
                frames,
                delegated,
            );
            (vm, left, Ok(result))
        } else if reason == ExitReason::Vmcall {
            let (vm, left, result) = self.vmcall(frames);
            (vm, left, Ok(result))
        } else {
            let (state, result) = self.state.state_exit(reason, qual);
            (self.with_state(state), frames, result)
        }
    }

    /// A VM exit from start to end.
    pub open spec fn handle_exit(
        self,
        frames: Seq<(u64, u64)>,
        delegated: Option<ExitHandlerResult>,
        cycles: u64,
    ) -> (Self, Seq<(u64, u64)>, ExitHandlerResult) {
        match helpers::exit_reason(self.state.vmcs) {
            Err(e) => (self, frames, ExitHandlerResult::Error(e)),
            Ok(reason) => match helpers::exit_qualification(self.state.vmcs) {
                Err(e) => (self, frames, ExitHandlerResult::Error(e)),
                Ok(qual) => {
                    let deterministic = self.state.exit_is_deterministic(reason, qual);
                    let begun = self.with_state(self.state.begin_exit(deterministic));
                    let (vm, left, handled) = begun.dispatch(reason, qual, frames, delegated);
                    match handled {
                        Err(e) => (vm, left, ExitHandlerResult::Error(e)),
                        Ok(result) => {
                            let (state, outcome) = vm.state.end_exit(
                                reason,
                                qual,
                                deterministic,
                                cycles,
                                result,
                            );
                            (vm.with_state(state), left, outcome)
                        },
                    }
                },
            },
        }
    }
}

impl VmStateView {
    /// Exits whose handlers leave guest memory alone.
    #[verifier::opaque]
    pub open spec fn state_exit(self, reason: ExitReason, qual: u64) -> (
        Self,
        Result<ExitHandlerResult, ExitError>,
    ) {
        match reason {
            ExitReason::IoInstruction => finished(self.io(qualifications::decode_io(qual))),
            ExitReason::Rdtsc => finished(self.rdtsc()),
            ExitReason::Rdtscp => finished(self.rdtscp()),
            ExitReason::Rdpmc => finished(self.rdpmc()),
            ExitReason::Rdrand => finished(self.random(RandomSource::Rdrand)),
            ExitReason::Rdseed => finished(self.random(RandomSource::Rdseed)),
            ExitReason::Hlt => finished(self.idle()),
            ExitReason::Mwait => finished(self.idle()),
            ExitReason::Cpuid => finished(self.cpuid()),
            ExitReason::CrAccess => finished(self.cr_access(qualifications::decode_cr(qual))),
            ExitReason::MsrRead => finished(
                self.complete(ExitHandlerResult::ExitToUserspace(reason)),
            ),
            ExitReason::MsrWrite => finished(
                self.complete(ExitHandlerResult::ExitToUserspace(reason)),
            ),
            _ => self.simple_exit(reason),
        }
    }
}

/// The outcome of a handler that went through.
pub open spec fn finished(outcome: (VmStateView, ExitHandlerResult)) -> (
    VmStateView,
    Result<ExitHandlerResult, ExitError>,
) {
    (outcome.0, Ok(outcome.1))
}

/// Whether an address belongs to the local APIC or the I/O APIC.
fn in_mmio(gpa: u64) -> (r: bool)
    ensures
        r == is_mmio(gpa),
{
    (gpa >= APIC_BASE && gpa - APIC_BASE < APIC_SIZE) || (gpa >= IOAPIC_BASE && gpa - IOAPIC_BASE
        < IOAPIC_SIZE)
}

/// Whether `target` is the given count.
fn hits(target: Option<u64>, count: u64) -> (r: bool)
    ensures
        r == (target == Some(count)),
{
    match target {
        Some(t) => t == count,
        None => false,
    }
}

/// Whether an exit happens at the same instruction in every run.
pub fn exit_is_deterministic(state: &VmState, reason: ExitReason, qual: u64) -> (r: bool)
    requires
        state.wf(),
    ensures
        r == state@.exit_is_deterministic(reason, qual),
{
    match reason {
        ExitReason::ExternalInterrupt => false,
        ExitReason::VmxPreemptionTimer => false,
        ExitReason::ExceptionNmi => false,
        ExitReason::EptViolation => {
            let ept_qual = EptViolationQualification::from(qual);
            if is_pebs_induced(&ept_qual) {
                false
            } else {
                in_mmio(read64_or_zero(&state.vmcs, VmcsField64::GuestPhysicalAddr))
            }
        },
        ExitReason::MonitorTrapFlag => {
            let count: u64 = state.core.last_instruction_count;
            hits(next_timer_exit_count(state), count) || hits(
                next_io_channel_exit_count(state),
                count,
            ) || hits(stop_exit_count(state), count) || in_single_step_range(state)
        },
        _ => true,
    }
}

/// Begin handling an exit: emulated time follows the instruction count, unless
/// the exit is one that differs between runs. Returns whether it does not.
pub fn begin_exit(state: &mut VmState, reason: ExitReason, qual: u64) -> (deterministic: bool)
    requires
        old(state).wf(),
    ensures
        final(state).wf(),
        deterministic == old(state)@.exit_is_deterministic(reason, qual),
        final(state)@ == old(state)@.begin_exit(deterministic),
{
    let deterministic: bool = exit_is_deterministic(state, reason, qual);
    state.core.last_exit_deterministic = deterministic;
    if deterministic {
        let tsc: u64 = state.core.last_instruction_count.wrapping_add(state.core.tsc_offset);
        state.core.emulated_tsc = tsc;
    }
    deterministic
}

/// Count a handled exit.
fn count_exit(state: &mut VmState, reason: ExitReason, deterministic: bool, cycles: u64)
    requires
        old(state).wf(),
    ensures
        final(state).wf(),
        final(state)@ == old(state)@.count_exit(reason, deterministic, cycles),
{
    if reason == ExitReason::MonitorTrapFlag && !deterministic {
        let steps: u64 = state.host.exit_stats.pebs_margin_steps.wrapping_add(1);
        state.host.exit_stats.pebs_margin_steps = steps;
    } else {
        state.host.exit_stats.record(reason, cycles);
    }
}

/// Finish handling an exit whose handler came to `result` after `cycles`
/// cycles: statistics, single-stepping, stop point, capture and full event
/// buffer, in this order.
pub fn end_exit(
    state: &mut VmState,
    reason: ExitReason,
    qual: u64,
    deterministic: bool,
    cycles: u64,
    result: ExitHandlerResult,
) -> (r: ExitHandlerResult)
    requires
        old(state).wf(),
    ensures
        final(state).wf(),
        (final(state)@, r) == old(state)@.end_exit(reason, qual, deterministic, cycles, result),
{
    reveal(VmStateView::end_exit);
    reveal(VmStateView::capture_exit);
    count_exit(state, reason, deterministic, cycles);
    match update_mtf(state) {
        Ok(_) => {},
        Err(e) => {
            return ExitHandlerResult::Error(e);
        },
    }
    if deterministic {
        match state.core.stop_at_tsc {
            Some(stop_tsc) => {
                if state.core.emulated_tsc >= stop_tsc {
                    state.capture_exit_at_shutdown();
                    return ExitHandlerResult::ExitToUserspace(ExitReason::StopTscReached);
                }
            },
            None => {},
        }
    }
    if state.exit_capture_enabled() {
        state.capture_exit(reason, qual, deterministic);
    }
    match result {
        ExitHandlerResult::Continue => {
            if state.event_buffer_full() {
                ExitHandlerResult::ExitToUserspace(ExitReason::EventBufferFull)
            } else {
                result
            }
        },
        _ => result,
    }
}

/// Switch interrupt-window exiting off: the guest can take its interrupt now.
pub fn disable_interrupt_window_exiting(state: &mut VmState) -> (r: Result<(), ExitError>)
    requires
        old(state).wf(),
    ensures
        final(state).wf(),
        (final(state)@, r) == old(state)@.without_interrupt_window(),
{
    let controls: u32 = match state.vmcs.read32(VmcsField32::PrimaryProcBasedVmExecControls) {
        Ok(v) => v,
        Err(e) => {
            return Err(ExitError::VmcsReadError(e));
        },
    };
    match state.vmcs.write32(
        VmcsField32::PrimaryProcBasedVmExecControls,
        controls & !INTERRUPT_WINDOW_EXITING,
    ) {
        Ok(_) => Ok(()),
        Err(e) => Err(ExitError::VmcsWriteError(e)),
    }
}

/// Wind the preemption timer up again.
fn reset_preemption_timer(state: &mut VmState) -> (r: Result<(), ExitError>)
    requires
        old(state).wf(),
    ensures
        final(state).wf(),
        (final(state)@, r) == old(state)@.with_timer_reset(),
{
    match state.vmcs.write32(VmcsField32::VmxPreemptionTimerValue, PREEMPTION_TIMER_RESET) {
        Ok(_) => Ok(()),
        Err(_) => Err(ExitError::Fatal("Failed to reset preemption timer")),
    }
}

/// `done`, if the step before it succeeded.
fn after(step: Result<(), ExitError>, done: ExitHandlerResult) -> (r: Result<
    ExitHandlerResult,
    ExitError,
>)
    ensures
        r == and_then(step, done),
{
    match step {
        Ok(_) => Ok(done),
        Err(e) => Err(e),
    }
}

/// Handle an exit that touches only the state. MONITOR is skipped without
/// arming the hardware, so that MWAIT behaves alike in every run.
fn handle_simple(state: &mut VmState, reason: ExitReason) -> (r: Result<
    ExitHandlerResult,
    ExitError,
>)
    requires
        old(state).wf(),
    ensures
        final(state).wf(),
        (final(state)@, r) == old(state)@.simple_exit(reason),
{
    reveal(VmStateView::simple_exit);
    match reason {
        ExitReason::MonitorTrapFlag => Ok(ExitHandlerResult::Continue),
        ExitReason::ExternalInterrupt => Ok(ExitHandlerResult::Continue),
        ExitReason::TripleFault => Ok(ExitHandlerResult::Error(ExitError::TripleFault)),
        ExitReason::InvalidGuestState => Ok(ExitHandlerResult::Error(ExitError::InvalidGuestState)),
        ExitReason::Monitor => after(advance_rip(state), ExitHandlerResult::Continue),
        ExitReason::VmxPreemptionTimer => after(
            reset_preemption_timer(state),
            ExitHandlerResult::ExitToUserspace(reason),
        ),
        ExitReason::InterruptWindow => after(
            disable_interrupt_window_exiting(state),
            ExitHandlerResult::Continue,
        ),
        _ => Ok(ExitHandlerResult::ExitToUserspace(reason)),
    }
}

/// Handle an exit whose handler leaves guest memory alone.
fn handle_state_exit<C: VmContext>(ctx: &mut C, reason: ExitReason, qual: u64) -> (r: Result<
    ExitHandlerResult,
    ExitError,
>)
    requires
        old(ctx).wf(),
    ensures
        final(ctx).wf(),
        final(ctx).child_count() == old(ctx).child_count(),
        ({
            let (state, result) = old(ctx).vm().state.state_exit(reason, qual);
            final(ctx).vm() == old(ctx).vm().with_state(state) && r == result
        }),
{
    reveal(VmStateView::state_exit);
    match reason {
        ExitReason::IoInstruction => Ok(handle_io(ctx, IoQualification::from(qual))),
        ExitReason::Rdtsc => Ok(handle_rdtsc(ctx)),
        ExitReason::Rdtscp => Ok(handle_rdtscp(ctx)),
        ExitReason::Rdpmc => Ok(handle_rdpmc(ctx)),
        ExitReason::Rdrand => Ok(handle_rdrand(ctx)),
        ExitReason::Rdseed => Ok(handle_rdseed(ctx)),
        ExitReason::Hlt => Ok(handle_idle(ctx)),
        ExitReason::Mwait => Ok(handle_idle(ctx)),
        ExitReason::Cpuid => Ok(handle_cpuid(ctx)),
        ExitReason::CrAccess => Ok(handle_cr_access(ctx, CrAccessQualification::from(qual))),
        ExitReason::MsrRead => Ok(
            complete(ctx.state_mut(), ExitHandlerResult::ExitToUserspace(reason)),
        ),
        ExitReason::MsrWrite => Ok(
            complete(ctx.state_mut(), ExitHandlerResult::ExitToUserspace(reason)),
        ),
        _ => handle_simple(ctx.state_mut(), reason),
    }
}

/// Handle an EPT violation. `delegated` is the outcome of the embedder's device
/// emulation, for accesses to the interrupt controllers.
pub fn handle_ept_violation<C: VmContext>(
    ctx: &mut C,
    qual: EptViolationQualification,
    allocator: &mut PagePool,
    delegated: Option<ExitHandlerResult>,
) -> (r: ExitHandlerResult)
    requires
        old(ctx).wf(),
    ensures
        final(ctx).wf(),
        final(ctx).child_count() == old(ctx).child_count(),
        (final(ctx).vm(), final(allocator).frames@, r) == old(ctx).vm().ept_violation(
            qual,
            old(allocator).frames@,
            delegated,
        ),
{
    reveal(VmView::ept_violation);
    if is_pebs_induced(&qual) {
        return handle_pebs_precise_exit(ctx);
    }
    let gpa: u64 = read64_or_zero(&ctx.state().vmcs, VmcsField64::GuestPhysicalAddr);
    if in_mmio(gpa) {
        return match delegated {
            Some(result) => result,
            None => ExitHandlerResult::ExitToUserspace(ExitReason::EptViolation),
        };
    }
    if !qual.write {
        return ExitHandlerResult::ExitToUserspace(ExitReason::EptViolation);
    }
    let forked: bool = ctx.is_forked();
    let exhausted: bool = allocator.frames.len() == 0;
    match ctx.handle_cow_fault(gpa, allocator) {
        Some(result) => result,
        None => {
            if forked && exhausted {
                ExitHandlerResult::ExitToUserspace(ExitReason::PoolExhausted)
            } else {
                ExitHandlerResult::ExitToUserspace(ExitReason::EptViolation)
            }
        },
    }
}

/// Whether an exit can be emulated by the embedder.
pub fn delegates(reason: ExitReason) -> (r: bool)
    ensures
        r == is_delegated(reason),
{
    match reason {
        ExitReason::Cpuid => true,
        ExitReason::MsrRead => true,
        ExitReason::MsrWrite => true,
        ExitReason::CrAccess => true,
        ExitReason::ExceptionNmi => true,
        ExitReason::Xsetbv => true,
        _ => false,
    }
}

/// Handle an exit between its beginning and its end. An error ends exit
/// handling at once.
pub fn dispatch<C: VmContext>(
    ctx: &mut C,
    reason: ExitReason,
    qual: u64,
    allocator: &mut PagePool,
    delegated: Option<ExitHandlerResult>,
) -> (r: Result<ExitHandlerResult, ExitError>)
    requires
        old(ctx).wf(),
    ensures
        final(ctx).wf(),
        final(ctx).child_count() == old(ctx).child_count(),
        (final(ctx).vm(), final(allocator).frames@, r) == old(ctx).vm().dispatch(
            reason,
            qual,
            old(allocator).frames@,
            delegated,
        ),
{
    reveal(VmView::dispatch);
    if delegates(reason) {
        if let Some(result) = delegated {
            return Ok(result);
        }
    }
    if reason == ExitReason::EptViolation {
        Ok(
            handle_ept_violation(
                ctx,
                EptViolationQualification::from(qual),
                allocator,
                delegated,
            ),
        )
    } else if reason == ExitReason::Vmcall {
        Ok(handle_vmcall(ctx, allocator))
    } else {
        handle_state_exit(ctx, reason, qual)
    }
}

/// Handle a VM exit.
///
/// `delegated` is the outcome of the embedder's own emulation, if it has one for
/// this exit; `cycles` is the host time charged to the handler. An
/// embedder that emulates between the two ends of exit handling calls
/// `begin_exit` and `end_exit` itself.
pub fn handle_exit<C: VmContext>(
    ctx: &mut C,
    allocator: &mut PagePool,
    delegated: Option<ExitHandlerResult>,
    cycles: u64,
) -> (r: ExitHandlerResult)
    requires
        old(ctx).wf(),
    ensures
        final(ctx).wf(),
        final(ctx).child_count() == old(ctx).child_count(),
        (final(ctx).vm(), final(allocator).frames@, r) == old(ctx).vm().handle_exit(
            old(allocator).frames@,
            delegated,
            cycles,
        ),
{
    let reason: ExitReason = match read_exit_reason(ctx.state()) {
        Ok(reason) => reason,
        Err(e) => {
            return ExitHandlerResult::Error(e);
        },
    };
    let qual: u64 = match read_exit_qualification(ctx.state()) {
        Ok(qual) => qual,
        Err(e) => {
            return ExitHandlerResult::Error(e);
        },
    };
    let deterministic: bool = begin_exit(ctx.state_mut(), reason, qual);
    match dispatch(ctx, reason, qual, allocator, delegated) {
        Ok(result) => end_exit(ctx.state_mut(), reason, qual, deterministic, cycles, result),
        Err(e) => ExitHandlerResult::Error(e),
    }
}

/// A deterministic exit sets the clock from the instruction count; any other
/// leaves it alone, so that the guest never sees host timing.
pub proof fn clock_follows_instruction_count(state: VmStateView, reason: ExitReason, qual: u64)
    ensures
        ({
            let deterministic = state.exit_is_deterministic(reason, qual);
            let begun = state.begin_exit(deterministic);
            &&& begun.core.emulated_tsc == if deterministic {
                state.core.last_instruction_count.wrapping_add(state.core.tsc_offset)
            } else {
                state.core.emulated_tsc
            }
            &&& begun.core.last_exit_deterministic == deterministic
        }),
{
}

/// Only deterministic exits reach the stop point.
pub proof fn stop_point_is_deterministic(
    state: VmStateView,
    reason: ExitReason,
    qual: u64,
    cycles: u64,
    result: ExitHandlerResult,
)
    requires
        result != ExitHandlerResult::ExitToUserspace(ExitReason::StopTscReached),
    ensures
        state.end_exit(reason, qual, false, cycles, result).1
            != ExitHandlerResult::ExitToUserspace(ExitReason::StopTscReached),
{
    reveal(VmStateView::end_exit);
}

/// A guest is not re-entered while an event waits for room in the buffer.
pub proof fn full_buffer_leaves_guest(
    state: VmStateView,
    reason: ExitReason,
    qual: u64,
    deterministic: bool,
    cycles: u64,
    result: ExitHandlerResult,
)
    ensures
        ({
            let (after, outcome) = state.end_exit(reason, qual, deterministic, cycles, result);
            outcome == ExitHandlerResult::Continue ==> after.events.pending is None
        }),
{
    reveal(VmStateView::end_exit);
}

pub(crate) proof fn lemma_mtf_ignores_stats(state: VmStateView, stats: AllExitStats)
    ensures
        state.with_stats(stats).update_mtf() == (
            state.update_mtf().0.with_stats(stats),
            state.update_mtf().1,
        ),
{
    let other = state.with_stats(stats);
    assert(other.io_channel_target() == state.io_channel_target());
    assert(other.wants_mtf() == state.wants_mtf());
}

proof fn lemma_record_ignores_stats(
    state: VmStateView,
    stats: AllExitStats,
    reason: ExitReason,
    qual: u64,
    flags: u32,
)
    ensures
        state.with_stats(stats).write_exit_record(reason, qual, flags) == state.write_exit_record(
            reason,
            qual,
            flags,
        ).with_stats(stats),
{
    reveal(VmStateView::write_exit_record);
    assert(state.with_stats(stats).exit_record(reason, qual, flags) == state.exit_record(
        reason,
        qual,
        flags,
    ));
}

proof fn lemma_capture_ignores_stats(
    state: VmStateView,
    stats: AllExitStats,
    reason: ExitReason,
    qual: u64,
    deterministic: bool,
)
    ensures
        state.with_stats(stats).capture_exit(reason, qual, deterministic) == state.capture_exit(
            reason,
            qual,
            deterministic,
        ).with_stats(stats),
{
    reveal(VmStateView::capture_exit);
    let flags = if deterministic { EXIT_RECORD_FLAG_DETERMINISTIC } else { 0u32 };
    let noted = VmStateView { core: state.core.after_capture(), ..state };
    lemma_record_ignores_stats(noted, stats, reason, qual, flags);
    assert(state.with_stats(stats).core.captures(deterministic) == state.core.captures(
        deterministic,
    ));
    assert((VmStateView {
        core: state.with_stats(stats).core.after_capture(),
        ..state.with_stats(stats)
    }) == noted.with_stats(stats));
}

proof fn lemma_shutdown_ignores_stats(state: VmStateView, stats: AllExitStats)
    ensures
        state.with_stats(stats).capture_exit_at_shutdown()
            == state.capture_exit_at_shutdown().with_stats(stats),
{
    reveal(VmStateView::capture_exit_at_shutdown);
    let noted = VmStateView { core: VmCore { exit_captured: true, ..state.core }, ..state };
    lemma_record_ignores_stats(
        noted,
        stats,
        ExitReason::VmcallShutdown,
        0,
        EXIT_RECORD_FLAG_DETERMINISTIC,
    );
}

/// The end of exit handling as if nothing were counted.
#[verifier::opaque]
spec fn uncounted_end(
    state: VmStateView,
    reason: ExitReason,
    qual: u64,
    deterministic: bool,
    result: ExitHandlerResult,
) -> (VmStateView, ExitHandlerResult) {
    let (updated, mtf) = state.update_mtf();
    match mtf {
        Err(e) => (updated, ExitHandlerResult::Error(e)),
        Ok(_) => if deterministic && updated.stop_reached() {
            (
                updated.capture_exit_at_shutdown(),
                ExitHandlerResult::ExitToUserspace(ExitReason::StopTscReached),
            )
        } else {
            let captured = updated.capture_exit(reason, qual, deterministic);
            (
                captured,
                if captured.events.pending is Some && result == ExitHandlerResult::Continue {
                    ExitHandlerResult::ExitToUserspace(ExitReason::EventBufferFull)
                } else {
                    result
                },
            )
        },
    }
}

proof fn lemma_end_exit_ignores_stats(
    state: VmStateView,
    reason: ExitReason,
    qual: u64,
    deterministic: bool,
    cycles: u64,
    result: ExitHandlerResult,
)
    ensures
        ({
            let stats = state.count_exit(reason, deterministic, cycles).host.exit_stats;
            let (bare, outcome) = uncounted_end(state, reason, qual, deterministic, result);
            state.end_exit(reason, qual, deterministic, cycles, result) == (
                bare.with_stats(stats),
                outcome,
            )
        }),
{
    reveal(VmStateView::end_exit);
    reveal(uncounted_end);
    let stats = state.count_exit(reason, deterministic, cycles).host.exit_stats;
    assert(state.count_exit(reason, deterministic, cycles) == state.with_stats(stats));
    lemma_mtf_ignores_stats(state, stats);
    let updated = state.update_mtf().0;
    lemma_shutdown_ignores_stats(updated, stats);
    lemma_capture_ignores_stats(updated, stats, reason, qual, deterministic);
}

proof fn lemma_end_exit_ignores_time(
    state: VmStateView,
    reason: ExitReason,
    qual: u64,
    deterministic: bool,
    first: u64,
    second: u64,
    result: ExitHandlerResult,
)
    ensures
        ({
            let (a, ra) = state.end_exit(reason, qual, deterministic, first, result);
            let (b, rb) = state.end_exit(reason, qual, deterministic, second, result);
            ra == rb && a.with_stats(AllExitStats::zero()) == b.with_stats(AllExitStats::zero())
        }),
{
    lemma_end_exit_ignores_stats(state, reason, qual, deterministic, first, result);
    lemma_end_exit_ignores_stats(state, reason, qual, deterministic, second, result);
}

/// How long a handler took on the host shows in the statistics only: outcome,
/// guest memory, event stream and the rest of the state are the same however
/// long it took.
pub proof fn host_time_is_invisible(
    vm: VmView,
    frames: Seq<(u64, u64)>,
    delegated: Option<ExitHandlerResult>,
    first: u64,
    second: u64,
)
    ensures
        ({
            let (a, frames_a, ra) = vm.handle_exit(frames, delegated, first);
            let (b, frames_b, rb) = vm.handle_exit(frames, delegated, second);
            &&& ra == rb
            &&& frames_a == frames_b
            &&& a.mem == b.mem
            &&& a.state.with_stats(AllExitStats::zero()) == b.state.with_stats(
                AllExitStats::zero(),
            )
        }),
{
    match (
        helpers::exit_reason(vm.state.vmcs),
        helpers::exit_qualification(vm.state.vmcs),
    ) {
        (Ok(reason), Ok(qual)) => {
            let deterministic = vm.state.exit_is_deterministic(reason, qual);
            let begun = vm.with_state(vm.state.begin_exit(deterministic));
            let (handled, _, outcome) = begun.dispatch(reason, qual, frames, delegated);
            if outcome is Ok {
                lemma_end_exit_ignores_time(
                    handled.state,
                    reason,
                    qual,
                    deterministic,
                    first,
                    second,
                    outcome->Ok_0,
                );
            }
        },
        _ => {},
    }
}

} // verus!
