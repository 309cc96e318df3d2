//! Commands on a VM file descriptor.
//!
//! Moving the arguments from and to userspace is the embedder's part; a copy
//! that fails there is `Efault`, with nothing changed here.

use vstd::prelude::*;

use crate::bytes;
use crate::bytes::slice_to_vec;
use crate::devices::random;
use crate::devices::random::{RandomState, RdrandMode};
use crate::events::stream::EventStreamView;
use crate::events::types::{EventCategories, EVENT_BUFFER_SIZE};
use crate::exits::reasons::ExitReason;
use crate::exits::targets::MONITOR_TRAP_FLAG;
use crate::fields::VmcsField32;
use crate::io_channel::{
    EnqueueResult, IoChannelView, PendingIoAction, PendingIoActionView, PENDING_IO_QUEUE_CAP,
};
use crate::stats::AllExitStats;
use crate::traits::errors::{VmRunError, VmcsReadError};
use crate::traits::instruction_counter::InstructionCounterError;
use crate::vm_file::structs::{
    BedrockEventConfig, BedrockExitStatEntry, BedrockExitStats, BedrockFeedbackBufferInfo,
    BedrockIoActionHeader, BedrockRdrandConfig, BedrockSingleStepConfig, BedrockVmExit, Errno,
    BEDROCK_IO_CHANNEL_BUF_SIZE,
};
use crate::vm_state::{ExitTrigger, VmCore, VmState, VmStateView};

verus! {

/// What to do after the guest has been left.
#[derive(Debug, Clone, Copy, PartialEq, Eq, Structural)]
pub enum RunOutcome {
    /// Refill the page pool and enter again.
    Refill,
    /// Return to userspace with this exit.
    Done(ExitReason),
    /// Fail the command.
    Failed(Errno),
}

/// Claim the VM for a run. A VM that is running or has children cannot be run.
pub fn claim_run(running: &mut bool, children: usize) -> (r: Result<(), Errno>)
    ensures
        r is Ok <==> !*old(running) && children == 0,
        r is Err ==> r == Err::<(), Errno>(Errno::Ebusy) && *final(running) == *old(running),
        r is Ok ==> *final(running),
{
    if *running {
        return Err(Errno::Ebusy);
    }
    if children != 0 {
        return Err(Errno::Ebusy);
    }
    *running = true;
    Ok(())
}

/// Answer the RUN command and release the VM, however the run went. `copied` tells
/// whether the exit information reached userspace.
pub fn release_run(
    running: &mut bool,
    outcome: Result<BedrockVmExit, Errno>,
    copied: bool,
) -> (r: Result<(), Errno>)
    ensures
        !*final(running),
        r == match outcome {
            Err(e) => Err::<(), Errno>(e),
            Ok(_) => if copied { Ok::<(), Errno>(()) } else { Err::<(), Errno>(Errno::Efault) },
        },
{
    *running = false;
    match outcome {
        Err(e) => Err(e),
        Ok(_) => {
            if copied {
                Ok(())
            } else {
                Err(Errno::Efault)
            }
        },
    }
}

/// The outcome of a run. An exhausted pool is refilled without userspace
/// noticing.
pub open spec fn run_outcome(result: Result<ExitReason, VmRunError>) -> RunOutcome {
    match result {
        Ok(ExitReason::PoolExhausted) => RunOutcome::Refill,
        Ok(reason) => RunOutcome::Done(reason),
        Err(VmRunError::InstructionCounter(InstructionCounterError::Unavailable)) =>
            RunOutcome::Failed(Errno::Eopnotsupp),
        Err(_) => RunOutcome::Failed(Errno::Eio),
    }
}

/// One RUN command: the loop around VM runs that refills the page pool.
#[derive(Debug, Clone, Copy, PartialEq, Eq, Structural)]
pub struct RunSession {
    /// The guest has not been entered yet.
    pub first_iteration: bool,
    /// The pool ran empty and has to be refilled.
    pub pool_exhausted: bool,
}

impl RunSession {
    /// A command that has not entered the guest yet.
    pub fn new() -> (r: Self)
        ensures
            r == (RunSession { first_iteration: true, pool_exhausted: false }),
    {
        RunSession { first_iteration: true, pool_exhausted: false }
    }

    /// The state at the next entry: what userspace has drained is cleared, once
    /// per command.
    pub open spec fn entering(self, state: VmStateView) -> VmStateView {
        if self.first_iteration {
            VmStateView { events: state.events.clear(), ..state }
        } else {
            state
        }
    }

    /// Make ready for the next entry. `refilled` tells whether refilling the
    /// pool succeeded, where it was necessary: the pool is refilled only after
    /// it ran empty, as refills are not deterministic.
    pub fn enter(&mut self, state: &mut VmState, refilled: bool) -> (r: Result<(), Errno>)
        requires
            old(state).wf(),
        ensures
            final(state).wf(),
            old(self).pool_exhausted && !refilled ==> r == Err::<(), Errno>(Errno::Enomem)
                && *final(self) == *old(self) && final(state)@ == old(state)@,
            !(old(self).pool_exhausted && !refilled) ==> r == Ok::<(), Errno>(()) && *final(self)
                == (RunSession { first_iteration: false, ..*old(self) }) && final(state)@
                == old(self).entering(old(state)@),
    {
        if self.pool_exhausted && !refilled {
            return Err(Errno::Enomem);
        }
        if self.first_iteration {
            state.event_clear();
            self.first_iteration = false;
        }
        Ok(())
    }

    /// Take the result of a run.
    pub fn returned(&mut self, result: Result<ExitReason, VmRunError>) -> (r: RunOutcome)
        ensures
            r == run_outcome(result),
            *final(self) == (RunSession {
                pool_exhausted: old(self).pool_exhausted || r is Refill,
                ..*old(self)
            }),
    {
        match result {
            Ok(reason) => {
                if reason == ExitReason::PoolExhausted {
                    self.pool_exhausted = true;
                    RunOutcome::Refill
                } else {
                    RunOutcome::Done(reason)
                }
            },
            Err(e) => match e {
                VmRunError::InstructionCounter(c) => match c {
                    InstructionCounterError::Unavailable => RunOutcome::Failed(Errno::Eopnotsupp),
                    _ => RunOutcome::Failed(Errno::Eio),
                },
                _ => RunOutcome::Failed(Errno::Eio),
            },
        }
    }
}

/// The exit information for userspace.
pub fn exit_info(state: &VmState, reason: ExitReason) -> (r: BedrockVmExit)
    requires
        state.wf(),
    ensures
        r == (BedrockVmExit {
            exit_reason: reason.code(),
            exit_qualification: state@.core.last_exit_qualification,
            guest_physical_addr: state@.core.last_guest_physical_addr,
            event_len: state@.events.bytes.len() as u32,
            emulated_tsc: state@.core.emulated_tsc,
            tsc_frequency: state@.core.tsc_frequency,
        }),
        r.event_len == state@.events.bytes.len(),
{
    BedrockVmExit {
        exit_reason: reason.as_u32(),
        exit_qualification: state.core.last_exit_qualification,
        guest_physical_addr: state.core.last_guest_physical_addr,
        event_len: state.event_buffer_len() as u32,
        emulated_tsc: state.core.emulated_tsc,
        tsc_frequency: state.core.tsc_frequency,
    }
}

/// The mode a number stands for.
pub open spec fn mode_of(mode: u32) -> Option<RdrandMode> {
    if mode == 0 {
        Some(RdrandMode::SeededRng)
    } else if mode == 1 {
        Some(RdrandMode::ExitToUserspace)
    } else {
        None
    }
}

/// Configure the randomness device.
pub fn handle_set_rdrand_config(state: &mut VmState, config: &BedrockRdrandConfig) -> (r: Result<
    (),
    Errno,
>)
    requires
        old(state).wf(),
    ensures
        final(state).wf(),
        match mode_of(config.mode) {
            None => r == Err::<(), Errno>(Errno::Einval) && final(state)@ == old(state)@,
            Some(mode) => {
                let device = old(state)@.core.devices.random;
                &&& r == Ok::<(), Errno>(())
                &&& final(state)@ == old(state)@.with_random(
                    RandomState {
                        mode,
                        seed: random::nonzero_seed(config.value),
                        pending_value: None,
                        ..device.without_request()
                    },
                )
            },
        },
{
    let mode: RdrandMode = match config.mode {
        0 => RdrandMode::SeededRng,
        1 => RdrandMode::ExitToUserspace,
        _ => {
            return Err(Errno::Einval);
        },
    };
    state.core.devices.random.configure(mode, config.value);
    Ok(())
}

/// Stage the value of the next RDRAND or RDSEED.
pub fn handle_set_rdrand_value(state: &mut VmState, value: u64)
    requires
        old(state).wf(),
    ensures
        final(state).wf(),
        final(state)@ == old(state)@.with_random(
            RandomState { pending_value: Some(value), ..old(state)@.core.devices.random },
        ),
{
    state.core.devices.random.set_pending_value(value);
}

/// The trigger a number stands for.
pub open spec fn trigger_of(n: u32) -> Option<ExitTrigger> {
    if n == 0 {
        Some(ExitTrigger::Disabled)
    } else if n == 1 {
        Some(ExitTrigger::AllExits)
    } else if n == 2 {
        Some(ExitTrigger::AtTsc)
    } else if n == 3 {
        Some(ExitTrigger::AtShutdown)
    } else if n == 4 {
        Some(ExitTrigger::Checkpoints)
    } else if n == 5 {
        Some(ExitTrigger::TscRange)
    } else {
        None
    }
}

/// The event stream after its buffer has been attached or detached as wanted
/// and its categories set.
pub open spec fn stream_configured(
    events: EventStreamView,
    config: BedrockEventConfig,
    buffer: Seq<u8>,
) -> EventStreamView {
    let switched = if config.enabled != 0 && !events.attached {
        EventStreamView {
            attached: true,
            bytes: buffer.subrange(0, events.bytes.len() as int),
            ..events
        }
    } else if config.enabled == 0 && events.attached {
        EventStreamView {
            attached: false,
            bytes: Seq::empty(),
            pending: None,
            exit_loc: None,
            ..events
        }
    } else {
        events
    };
    EventStreamView { categories: EventCategories(config.categories), ..switched }
}

/// The capture policy of a configuration. A stream that is off captures
/// nothing.
pub open spec fn capture_configured(
    core: VmCore,
    config: BedrockEventConfig,
    trigger: ExitTrigger,
) -> VmCore {
    VmCore {
        exit_trigger: if config.enabled != 0 { trigger } else { ExitTrigger::Disabled },
        exit_target_tsc: config.exit_target_tsc,
        exit_captured: false,
        exit_start_tsc: config.exit_start_tsc,
        skip_memory_hash: config.exit_flags & 1 != 0,
        intercept_pf: config.exit_flags & 2 != 0,
        ..core
    }
}

/// Switch the event stream on or off and set its categories.
fn configure_stream(state: &mut VmState, config: &BedrockEventConfig, buffer: Option<Vec<u8>>) -> (r:
    Result<(), Errno>)
    requires
        old(state).wf(),
        buffer is Some ==> buffer->0@.len() == EVENT_BUFFER_SIZE,
    ensures
        final(state).wf(),
        ({
            let wanted = config.enabled != 0 && !old(state)@.events.attached;
            if wanted && buffer is None {
                r == Err::<(), Errno>(Errno::Enomem) && final(state)@ == old(state)@
            } else {
                r == Ok::<(), Errno>(()) && final(state)@ == (VmStateView {
                    events: stream_configured(old(state)@.events, *config, buffer->0@),
                    ..old(state)@
                })
            }
        }),
{
    let was_enabled: bool = state.events.buffer.is_some();
    let want_enabled: bool = config.enabled != 0;
    if want_enabled && !was_enabled {
        match buffer {
            Some(b) => {
                state.set_event_buffer(b);
            },
            None => {
                return Err(Errno::Enomem);
            },
        }
    } else if !want_enabled && was_enabled {
        state.clear_event_buffer_ptr();
    }
    state.set_event_categories(EventCategories(config.categories));
    Ok(())
}

/// The trigger `n` stands for, if it stands for one.
fn decode_trigger(n: u32) -> (r: Option<ExitTrigger>)
    ensures
        r == trigger_of(n),
{
    match n {
        0 => Some(ExitTrigger::Disabled),
        1 => Some(ExitTrigger::AllExits),
        2 => Some(ExitTrigger::AtTsc),
        3 => Some(ExitTrigger::AtShutdown),
        4 => Some(ExitTrigger::Checkpoints),
        5 => Some(ExitTrigger::TscRange),
        _ => None,
    }
}

/// Set what is captured.
fn configure_capture(state: &mut VmState, config: &BedrockEventConfig, trigger: ExitTrigger)
    requires
        old(state).wf(),
    ensures
        final(state).wf(),
        final(state)@ == old(state)@.with_core(
            capture_configured(old(state)@.core, *config, trigger),
        ),
{
    state.core.exit_trigger = if config.enabled != 0 { trigger } else { ExitTrigger::Disabled };
    state.core.exit_target_tsc = config.exit_target_tsc;
    state.core.exit_captured = false;
    state.core.exit_start_tsc = config.exit_start_tsc;
    state.core.skip_memory_hash = config.exit_flags & 1 != 0;
    state.core.intercept_pf = config.exit_flags & 2 != 0;
}

/// Configure the event stream. `buffer` is a fresh event buffer, or `None` if
/// none could be allocated; it is used when the stream is switched on. An
/// unknown trigger is rejected after the buffer and the categories have been
/// set.
pub fn handle_set_event_config(
    state: &mut VmState,
    config: &BedrockEventConfig,
    buffer: Option<Vec<u8>>,
) -> (r: Result<(), Errno>)
    requires
        old(state).wf(),
        buffer is Some ==> buffer->0@.len() == EVENT_BUFFER_SIZE,
    ensures
        final(state).wf(),
        ({
            let before = old(state)@;
            let events = stream_configured(before.events, *config, buffer->0@);
            if config.enabled != 0 && !before.events.attached && buffer is None {
                r == Err::<(), Errno>(Errno::Enomem) && final(state)@ == before
            } else {
                match trigger_of(config.exit_trigger) {
                    None => r == Err::<(), Errno>(Errno::Einval) && final(state)@ == (VmStateView {
                        events,
                        ..before
                    }),
                    Some(trigger) => r == Ok::<(), Errno>(()) && final(state)@ == (VmStateView {
                        events,
                        core: capture_configured(before.core, *config, trigger),
                        ..before
                    }),
                }
            }
        }),
{
    match configure_stream(state, config, buffer) {
        Ok(_) => {},
        Err(e) => {
            return Err(e);
        },
    }
    match decode_trigger(config.exit_trigger) {
        Some(trigger) => {
            configure_capture(state, config, trigger);
            Ok(())
        },
        None => Err(Errno::Einval),
    }
}

/// The exit statistics for userspace.
pub fn handle_get_exit_stats(state: &VmState) -> (r: BedrockExitStats)
    ensures
        r == BedrockExitStats::of(state@.host.exit_stats),
{
    let stats: &AllExitStats = &state.host.exit_stats;
    BedrockExitStats {
        cpuid: BedrockExitStatEntry::convert(&stats.cpuid),
        msr_read: BedrockExitStatEntry::convert(&stats.msr_read),
        msr_write: BedrockExitStatEntry::convert(&stats.msr_write),
        cr_access: BedrockExitStatEntry::convert(&stats.cr_access),
        io_instruction: BedrockExitStatEntry::convert(&stats.io_instruction),
        ept_violation: BedrockExitStatEntry::convert(&stats.ept_violation),
        external_interrupt: BedrockExitStatEntry::convert(&stats.external_interrupt),
        rdtsc: BedrockExitStatEntry::convert(&stats.rdtsc),
        rdtscp: BedrockExitStatEntry::convert(&stats.rdtscp),
        rdpmc: BedrockExitStatEntry::convert(&stats.rdpmc),
        mwait: BedrockExitStatEntry::convert(&stats.mwait),
        vmcall: BedrockExitStatEntry::convert(&stats.vmcall),
        apic_access: BedrockExitStatEntry::convert(&stats.apic_access),
        mtf: BedrockExitStatEntry::convert(&stats.mtf),
        xsetbv: BedrockExitStatEntry::convert(&stats.xsetbv),
        rdrand: BedrockExitStatEntry::convert(&stats.rdrand),
        rdseed: BedrockExitStatEntry::convert(&stats.rdseed),
        exception_nmi: BedrockExitStatEntry::convert(&stats.exception_nmi),
        other: BedrockExitStatEntry::convert(&stats.other),
        total_run_cycles: stats.total_run_cycles,
        guest_cycles: stats.guest_cycles,
        vmentry_overhead_cycles: stats.vmentry_overhead_cycles,
        vmexit_overhead_cycles: stats.vmexit_overhead_cycles,
        irq_window_cycles: stats.irq_window_cycles,
        pebs_arm_below_min_delta: stats.pebs_arm_below_min_delta,
        pebs_arm_already_past: stats.pebs_arm_already_past,
        pebs_armed_iter_no_fire: stats.pebs_armed_iter_no_fire,
        apic_timer_late_inject: stats.apic_timer_late_inject,
    }
}

/// Set the emulated TSC at which the VM stops; zero for never.
pub fn handle_set_stop_tsc(state: &mut VmState, value: u64)
    requires
        old(state).wf(),
    ensures
        final(state).wf(),
        final(state)@ == old(state)@.with_core(
            VmCore {
                stop_at_tsc: if value == 0 { None } else { Some(value) },
                ..old(state)@.core
            },
        ),
{
    if value == 0 {
        state.core.stop_at_tsc = None;
    } else {
        state.core.stop_at_tsc = Some(value);
    }
}

/// Configure single-stepping. The trap flag follows with the next update.
pub fn handle_set_single_step(state: &mut VmState, config: &BedrockSingleStepConfig)
    requires
        old(state).wf(),
    ensures
        final(state).wf(),
        ({
            let c = old(state)@.core;
            final(state)@ == old(state)@.with_core(
                if config.enabled != 0 {
                    VmCore {
                        single_step_tsc_range: Some((config.tsc_start, config.tsc_end)),
                        ..c
                    }
                } else {
                    VmCore { single_step_tsc_range: None, ..c }
                },
            )
        }),
{
    if config.enabled != 0 {
        state.core.single_step_tsc_range = Some((config.tsc_start, config.tsc_end));
    } else {
        state.core.single_step_tsc_range = None;
    }
}

/// What is registered at an index. A gap is an answer too, so that userspace
/// can enumerate buffers up to the first one.
pub fn handle_get_feedback_buffer_info(state: &VmState, index: u32) -> (r:
    BedrockFeedbackBufferInfo)
    ensures
        r == if index < state@.feedback_buffers.len() {
            BedrockFeedbackBufferInfo::of(state@.feedback_buffers[index as int], index)
        } else {
            BedrockFeedbackBufferInfo::gap(index)
        },
{
    let i: usize = index as usize;
    if i < state.feedback_buffers.len() {
        let buffer = &state.feedback_buffers[i];
        BedrockFeedbackBufferInfo {
            gva: buffer.gva,
            size: buffer.size,
            num_pages: buffer.num_pages as u64,
            registered: 1,
            index,
            id_len: buffer.id_len,
            id: buffer.id,
        }
    } else {
        BedrockFeedbackBufferInfo {
            gva: 0,
            size: 0,
            num_pages: 0,
            registered: 0,
            index,
            id_len: 0,
            id: [0u8; 128],
        }
    }
}

/// Whether a payload of `len` bytes may be queued or drained.
pub fn check_io_len(header: &BedrockIoActionHeader) -> (r: Result<usize, Errno>)
    ensures
        r == if header.len <= BEDROCK_IO_CHANNEL_BUF_SIZE {
            Ok::<usize, Errno>(header.len as usize)
        } else {
            Err::<usize, Errno>(Errno::Einval)
        },
{
    if header.len > 4096 {
        Err(Errno::Einval)
    } else {
        Ok(header.len as usize)
    }
}

/// Queue an I/O request. It takes the slot at once if that is free; otherwise
/// it waits its turn.
pub fn handle_queue_io_action(state: &mut VmState, header: &BedrockIoActionHeader, data: Vec<u8>) -> (r:
    Result<(), Errno>)
    requires
        old(state).wf(),
        data@.len() == header.len,
    ensures
        final(state).wf(),
        ({
            let chan = old(state)@.io_channel;
            let action = PendingIoActionView { target_tsc: header.target_tsc, data: data@ };
            if header.len > BEDROCK_IO_CHANNEL_BUF_SIZE {
                r == Err::<(), Errno>(Errno::Einval) && final(state)@ == old(state)@
            } else if chan.pending.len() >= PENDING_IO_QUEUE_CAP {
                r == Err::<(), Errno>(Errno::Ebusy) && final(state)@ == old(state)@
            } else {
                r == Ok::<(), Errno>(()) && final(state)@ == (VmStateView {
                    io_channel: IoChannelView {
                        pending: chan.pending.push(action),
                        ..chan
                    }.promote(),
                    ..old(state)@
                })
            }
        }),
{
    match check_io_len(header) {
        Ok(_) => {},
        Err(e) => {
            return Err(e);
        },
    }
    let action = PendingIoAction { target_tsc: header.target_tsc, data };
    match state.io_channel.enqueue_pending(action) {
        EnqueueResult::Queued => {},
        EnqueueResult::Full => {
            return Err(Errno::Ebusy);
        },
        EnqueueResult::OutOfMemory => {
            return Err(Errno::Enomem);
        },
    }
    state.io_channel.promote_next_pending();
    Ok(())
}

/// The part of the latest I/O response that fits into the caller's buffer, and
/// the header that goes with it. Once both have reached userspace the response
/// is dropped with `finish_drain`.
pub fn handle_drain_io_response(state: &VmState, header: &BedrockIoActionHeader) -> (r: Result<
    (BedrockIoActionHeader, Vec<u8>),
    Errno,
>)
    requires
        state.wf(),
    ensures
        ({
            let response = state@.io_channel.response;
            if header.len > BEDROCK_IO_CHANNEL_BUF_SIZE {
                r is Err && r->Err_0 == Errno::Einval
            } else {
                let n = bytes::min_nat(response.len(), header.len as nat);
                &&& r is Ok
                &&& r->Ok_0.0 == (BedrockIoActionHeader { len: n as u32, target_tsc: 0 })
                &&& r->Ok_0.1@ == response.take(n as int)
            }
        }),
{
    let capacity: usize = match check_io_len(header) {
        Ok(n) => n,
        Err(e) => {
            return Err(e);
        },
    };
    let held: usize = state.io_channel.response_len;
    let n: usize = if held <= capacity { held } else { capacity };
    let data: Vec<u8> = slice_to_vec(&*state.io_channel.response_buf, 0, n);
    assert(data@ =~= state@.io_channel.response.take(n as int));
    Ok((BedrockIoActionHeader { len: n as u32, target_tsc: 0 }, data))
}

/// Drop the response that has been drained.
pub fn finish_drain(state: &mut VmState)
    requires
        old(state).wf(),
    ensures
        final(state).wf(),
        final(state)@ == (VmStateView {
            io_channel: IoChannelView { response: Seq::empty(), ..old(state)@.io_channel },
            ..old(state)@
        }),
{
    state.io_channel.response_len = 0;
    assert(state.io_channel@ =~= (IoChannelView {
        response: Seq::empty(),
        ..old(state)@.io_channel
    }));
}

/// Switching the event stream off captures nothing and drops what was not
/// drained, whatever trigger was asked for.
pub proof fn disabled_stream_captures_nothing(
    core: VmCore,
    config: BedrockEventConfig,
    trigger: ExitTrigger,
    deterministic: bool,
)
    requires
        config.enabled == 0,
    ensures
        !capture_configured(core, config, trigger).captures(deterministic),
{
}

/// Switching single-stepping off takes effect: unless something else wants every
/// instruction, the next update clears the trap flag in the VMCS.
pub proof fn single_stepping_can_be_switched_off(state: VmStateView)
    requires
        state.core.mtf_enabled,
        state.vmcs.get32(VmcsField32::PrimaryProcBasedVmExecControls) is Ok,
        !(state.with_core(VmCore { single_step_tsc_range: None, ..state.core })).wants_mtf(),
    ensures
        ({
            let off = state.with_core(VmCore { single_step_tsc_range: None, ..state.core });
            let controls = state.vmcs.get32(VmcsField32::PrimaryProcBasedVmExecControls)->Ok_0;
            let (after, r) = off.update_mtf();
            &&& r is Ok
            &&& !after.core.mtf_enabled
            &&& after.vmcs.get32(VmcsField32::PrimaryProcBasedVmExecControls) == Ok::<
                u32,
                VmcsReadError,
            >(controls & !MONITOR_TRAP_FLAG)
        }),
{
}

} // verus!
