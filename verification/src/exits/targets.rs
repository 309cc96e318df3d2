//! Points in time at which a precise exit is wanted, and the single-step
//! window that leads up to them.

use vstd::prelude::*;

use crate::devices::ioapic::IO_CHANNEL_IRQ;
use crate::ept::EptView;
use crate::exits::helpers::ExitError;
use crate::exits::pebs::PEBS_MIN_DELTA;
use crate::fields::VmcsField32;
use crate::traits::vm_context::VmContext;
use crate::vm_pages::VmPages;
use crate::vm_state;
use crate::vm_state::{VmCore, VmState, VmStateView};
use crate::vmcs::Vmcs;

verus! {

/// Primary control bit of the monitor trap flag.
pub const MONITOR_TRAP_FLAG: u32 = 0x800_0000;

impl VmCore {
    /// Emulated TSC as of the last VM exit, deterministic or not.
    pub open spec fn current_tsc(self) -> u64 {
        self.last_instruction_count.wrapping_add(self.tsc_offset)
    }

    /// The instruction count at which the emulated TSC reaches `tsc`.
    pub open spec fn count_of(self, tsc: Option<u64>) -> Option<u64> {
        match tsc {
            Some(t) => Some(if t >= self.tsc_offset { (t - self.tsc_offset) as u64 } else { 0 }),
            None => None,
        }
    }

    /// The deadline of the APIC timer, if it is armed, unmasked and the APIC
    /// enabled.
    pub open spec fn timer_target(self) -> Option<u64> {
        let apic = self.devices.apic;
        if apic.timer_deadline == 0 || apic.svr & 0x100 == 0 || apic.lvt_timer & 0x1_0000 != 0 {
            None
        } else {
            Some(apic.timer_deadline)
        }
    }

    /// The start of the single-step range, while it lies ahead.
    pub open spec fn single_step_target(self) -> Option<u64> {
        match self.single_step_tsc_range {
            Some((start, _)) => if self.current_tsc() < start { Some(start) } else { None },
            None => None,
        }
    }

    /// The last VM exit lies in the single-step range.
    pub open spec fn in_single_step_range(self) -> bool {
        match self.single_step_tsc_range {
            Some((start, end)) => start <= self.current_tsc() < end,
            None => false,
        }
    }

    /// The instruction count lies in the window of single steps before
    /// `target`.
    pub open spec fn in_margin(self, target: Option<u64>) -> bool {
        match target {
            Some(t) => self.last_instruction_count + PEBS_MIN_DELTA + self.pebs_margin >= t
                && self.last_instruction_count < t,
            None => false,
        }
    }

    /// The instruction count is `target`.
    pub open spec fn on_target(self, target: Option<u64>) -> bool {
        target == Some(self.last_instruction_count)
    }
}

impl VmStateView {
    /// The target of the waiting I/O request, if it has one and the guest is
    /// ready to take its interrupt.
    pub open spec fn io_channel_target(self) -> Option<u64> {
        let chan = self.io_channel;
        if chan.page_gpa == 0 || chan.request.len() == 0 || chan.request_delivered
            || chan.request_target_tsc == 0 || self.core.devices.ioapic.route(IO_CHANNEL_IRQ as int) is None {
            None
        } else {
            Some(chan.request_target_tsc)
        }
    }

    /// Every retired instruction is wanted as an exit: inside the single-step
    /// range, or, once precise exits are available, close before a target.
    pub open spec fn wants_mtf(self) -> bool {
        let c = self.core;
        c.in_single_step_range() || c.pebs_state is Some && (c.in_margin(
            c.count_of(c.timer_target()),
        ) || c.in_margin(c.count_of(self.io_channel_target())) || c.in_margin(
            c.count_of(c.stop_at_tsc),
        ) || c.in_margin(c.count_of(c.single_step_target())))
    }

    /// The state after the monitor trap flag has been brought in line, and the
    /// outcome. The VMCS is touched only when the flag changes.
    pub open spec fn update_mtf(self) -> (Self, Result<(), ExitError>) {
        let c = self.core;
        let wanted = self.wants_mtf();
        if wanted == c.mtf_enabled {
            (self, Ok(()))
        } else {
            match self.vmcs.get32(VmcsField32::PrimaryProcBasedVmExecControls) {
                Err(_) => (self, Err(ExitError::Fatal("Failed to read primary controls for MTF"))),
                Ok(controls) => (
                    self.with_core(VmCore { mtf_enabled: wanted, ..c }).with_vmcs(
                        self.vmcs.with32(
                            VmcsField32::PrimaryProcBasedVmExecControls,
                            if wanted {
                                controls | MONITOR_TRAP_FLAG
                            } else {
                                controls & !MONITOR_TRAP_FLAG
                            },
                        ),
                    ),
                    Ok(()),
                ),
            }
        }
    }
}

/// The instruction count of a target TSC, as far as the offset allows.
fn to_count(tsc: Option<u64>, tsc_offset: u64) -> (r: Option<u64>)
    ensures
        match tsc {
            Some(t) => r == Some(if t >= tsc_offset { (t - tsc_offset) as u64 } else { 0 }),
            None => r is None,
        },
{
    match tsc {
        Some(t) => Some(if t >= tsc_offset { t - tsc_offset } else { 0 }),
        None => None,
    }
}

/// The instruction count at which the APIC timer fires.
pub fn next_timer_exit_count(state: &VmState) -> (r: Option<u64>)
    requires
        state.wf(),
    ensures
        r == state@.core.count_of(state@.core.timer_target()),
{
    if state.core.devices.apic.timer_deadline == 0 {
        return None;
    }
    if state.core.devices.apic.svr & 0x100 == 0 {
        return None;
    }
    if state.core.devices.apic.lvt_timer & 0x1_0000 != 0 {
        return None;
    }
    to_count(Some(state.core.devices.apic.timer_deadline), state.core.tsc_offset)
}

/// The emulated TSC at which the waiting I/O request is to be announced.
pub fn next_io_channel_target_tsc(state: &VmState) -> (r: Option<u64>)
    requires
        state.wf(),
    ensures
        r == state@.io_channel_target(),
{
    if state.io_channel.page_gpa == 0 {
        return None;
    }
    if state.io_channel.request_len == 0 || state.io_channel.request_delivered {
        return None;
    }
    if state.io_channel.request_target_tsc == 0 {
        return None;
    }
    match state.core.devices.ioapic.routed_vector(IO_CHANNEL_IRQ) {
        Some(_) => Some(state.io_channel.request_target_tsc),
        None => None,
    }
}

/// The instruction count at which the waiting I/O request is to be announced.
pub fn next_io_channel_exit_count(state: &VmState) -> (r: Option<u64>)
    requires
        state.wf(),
    ensures
        r == state@.core.count_of(state@.io_channel_target()),
{
    to_count(next_io_channel_target_tsc(state), state.core.tsc_offset)
}

/// The emulated TSC at which single-stepping begins, while it lies ahead.
pub fn next_single_step_start_tsc(state: &VmState) -> (r: Option<u64>)
    requires
        state.wf(),
    ensures
        r == state@.core.single_step_target(),
{
    match state.core.single_step_tsc_range {
        Some((start, _end)) => {
            let current: u64 = state.core.last_instruction_count.wrapping_add(
                state.core.tsc_offset,
            );
            if current < start {
                Some(start)
            } else {
                None
            }
        },
        None => None,
    }
}

/// The instruction count at which single-stepping begins, while it lies ahead.
pub fn next_single_step_start_count(state: &VmState) -> (r: Option<u64>)
    requires
        state.wf(),
    ensures
        r == state@.core.count_of(state@.core.single_step_target()),
{
    to_count(next_single_step_start_tsc(state), state.core.tsc_offset)
}

/// The instruction count of the stop point.
pub fn stop_exit_count(state: &VmState) -> (r: Option<u64>)
    requires
        state.wf(),
    ensures
        r == state@.core.count_of(state@.core.stop_at_tsc),
{
    to_count(state.core.stop_at_tsc, state.core.tsc_offset)
}

/// Whether `count` lies in the window of single steps before `target`.
fn within_margin(count: u64, target: Option<u64>, margin: u64) -> (r: bool)
    ensures
        r == (match target {
            Some(t) => count + PEBS_MIN_DELTA + margin >= t && count < t,
            None => false,
        }),
{
    match target {
        Some(t) => {
            if count >= t {
                false
            } else {
                let left: u64 = t - count;
                left <= PEBS_MIN_DELTA || left - PEBS_MIN_DELTA <= margin
            }
        },
        None => false,
    }
}

/// Whether the last exit lies in the single-step range.
pub fn in_single_step_range(state: &VmState) -> (r: bool)
    requires
        state.wf(),
    ensures
        r == state@.core.in_single_step_range(),
{
    let tsc: u64 = state.core.last_instruction_count.wrapping_add(state.core.tsc_offset);
    match state.core.single_step_tsc_range {
        Some((start, end)) => tsc >= start && tsc < end,
        None => false,
    }
}

/// Bring the monitor trap flag in line with what the coming entry needs. The
/// margin window is left alone until precise exits are available: before that
/// it would only ever be entered by chance, and runs would differ.
pub fn update_mtf(state: &mut VmState) -> (r: Result<(), ExitError>)
    requires
        old(state).wf(),
    ensures
        final(state).wf(),
        (final(state)@, r) == old(state)@.update_mtf(),
{
    let count: u64 = state.core.last_instruction_count;
    let margin: u64 = state.core.pebs_margin;
    let pebs_registered: bool = state.core.pebs_state.is_some();
    let in_single_step: bool = in_single_step_range(state);
    let in_pebs_margin: bool = pebs_registered && (within_margin(
        count,
        next_timer_exit_count(state),
        margin,
    ) || within_margin(count, next_io_channel_exit_count(state), margin) || within_margin(
        count,
        stop_exit_count(state),
        margin,
    ) || within_margin(count, next_single_step_start_count(state), margin));
    let should_enable: bool = in_single_step || in_pebs_margin;
    if should_enable != state.core.mtf_enabled {
        let mut controls: u32 = match state.vmcs.read32(
            VmcsField32::PrimaryProcBasedVmExecControls,
        ) {
            Ok(v) => v,
            Err(_) => {
                return Err(ExitError::Fatal("Failed to read primary controls for MTF"));
            },
        };
        if should_enable {
            controls = controls | MONITOR_TRAP_FLAG;
        } else {
            controls = controls & !MONITOR_TRAP_FLAG;
        }
        match state.vmcs.write32(VmcsField32::PrimaryProcBasedVmExecControls, controls) {
            Ok(_) => {},
            Err(_) => {
                return Err(ExitError::Fatal("Failed to write primary controls for MTF"));
            },
        }
        state.core.mtf_enabled = should_enable;
    }
    Ok(())
}

/// Bring the monitor trap flag of a VM in line with what the coming entry
/// needs.
pub fn update_mtf_state<C: VmContext>(ctx: &mut C) -> (r: Result<(), ExitError>)
    requires
        old(ctx).wf(),
    ensures
        final(ctx).wf(),
        final(ctx).child_count() == old(ctx).child_count(),
        ({
            let (state, result) = old(ctx).vm().state.update_mtf();
            final(ctx).vm() == old(ctx).vm().with_state(state) && r == result
        }),
{
    update_mtf(ctx.state_mut())
}

/// Updating the trap flag twice is updating it once, and afterwards the flag is
/// what is wanted.
pub proof fn update_mtf_is_idempotent(state: VmStateView)
    requires
        state.update_mtf().1 is Ok,
    ensures
        state.update_mtf().0.update_mtf() == (state.update_mtf().0, Ok::<(), ExitError>(())),
        state.update_mtf().0.core.mtf_enabled == state.wants_mtf(),
{
    let after = state.update_mtf().0;
    assert(after.wants_mtf() == state.wants_mtf());
}

impl VmStateView {
    /// The VM knows whether the monitor trap flag is set in its VMCS.
    pub open spec fn trap_flag_known(self) -> bool {
        let controls = vm_state::dword_or_zero(
            Vmcs { loaded: true, ..self.vmcs },
            VmcsField32::PrimaryProcBasedVmExecControls,
        );
        self.core.mtf_enabled == (controls & MONITOR_TRAP_FLAG != 0)
    }
}

/// A VM that knows its trap flag keeps knowing it through updates, and so do the
/// VMs forked from it. A child that is not to be stepped therefore sheds a flag
/// that came with its parent's VMCS.
pub proof fn trap_flag_stays_known(state: VmStateView, pages: VmPages, ept: EptView, next_vpid: u16)
    requires
        state.trap_flag_known(),
    ensures
        state.update_mtf().0.trap_flag_known(),
        state.forked(pages, ept, next_vpid).trap_flag_known(),
        ({
            let child = state.forked(pages, ept, next_vpid);
            let current = child.with_vmcs(Vmcs { loaded: true, ..child.vmcs });
            let after = current.update_mtf().0;
            &&& current.update_mtf().1 is Ok && !current.wants_mtf() ==> vm_state::dword_or_zero(
                after.vmcs,
                VmcsField32::PrimaryProcBasedVmExecControls,
            ) & MONITOR_TRAP_FLAG == 0
        }),
{
    let field = VmcsField32::PrimaryProcBasedVmExecControls;
    let controls = vm_state::dword_or_zero(Vmcs { loaded: true, ..state.vmcs }, field);
    assert((controls | 0x800_0000u32) & 0x800_0000u32 != 0 && (controls & !0x800_0000u32)
        & 0x800_0000u32 == 0 && 0u32 & 0x800_0000u32 == 0) by (bit_vector);
}

} // verus!
