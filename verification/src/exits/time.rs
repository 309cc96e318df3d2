//! Exits of instructions that read or wait for time.

use vstd::prelude::*;

use crate::exits::helpers::{complete, ExitHandlerResult};
use crate::exits::targets::next_io_channel_target_tsc;
use crate::registers::GeneralPurposeRegisters;
use crate::traits::vm_context::VmContext;
use crate::vm_state::{VmCore, VmState, VmStateView};

verus! {

impl VmStateView {
    /// RDTSC: the emulated TSC in EDX:EAX.
    #[verifier::opaque]
    pub open spec fn rdtsc(self) -> (Self, ExitHandlerResult) {
        let c = self.core;
        self.with_core(
            VmCore {
                gprs: GeneralPurposeRegisters {
                    rax: c.emulated_tsc & 0xFFFF_FFFF,
                    rdx: c.emulated_tsc >> 32,
                    ..c.gprs
                },
                ..c
            },
        ).complete(ExitHandlerResult::Continue)
    }

    /// RDTSCP: the emulated TSC in EDX:EAX and the low half of TSC_AUX in ECX.
    #[verifier::opaque]
    pub open spec fn rdtscp(self) -> (Self, ExitHandlerResult) {
        let c = self.core;
        self.with_core(
            VmCore {
                gprs: GeneralPurposeRegisters {
                    rax: c.emulated_tsc & 0xFFFF_FFFF,
                    rdx: c.emulated_tsc >> 32,
                    rcx: c.msr_state.tsc_aux & 0xFFFF_FFFF,
                    ..c.gprs
                },
                ..c
            },
        ).complete(ExitHandlerResult::Continue)
    }

    /// RDPMC: every counter reads zero.
    #[verifier::opaque]
    pub open spec fn rdpmc(self) -> (Self, ExitHandlerResult) {
        let c = self.core;
        self.with_core(
            VmCore { gprs: GeneralPurposeRegisters { rax: 0, rdx: 0, ..c.gprs }, ..c },
        ).complete(ExitHandlerResult::Continue)
    }

    /// HLT and MWAIT: time jumps to the next wake-up.
    #[verifier::opaque]
    pub open spec fn idle(self) -> (Self, ExitHandlerResult) {
        self.with_core(self.after_idle()).complete(ExitHandlerResult::Continue)
    }
}

/// The smaller of a bound and an optional one.
pub open spec fn bounded(a: u64, b: Option<u64>) -> u64 {
    match b {
        Some(b) => if b < a { b } else { a },
        None => a,
    }
}

impl VmStateView {
    /// Where idle time jumps to: the timer deadline, or the I/O request or the
    /// stop point if one of them is nearer. Without an armed timer nothing
    /// wakes the guest by itself.
    pub open spec fn idle_target(self) -> Option<u64> {
        let deadline = self.core.devices.apic.timer_deadline;
        if deadline == 0 {
            None
        } else {
            Some(
                bounded(bounded(deadline, self.io_channel_target()), self.core.stop_at_tsc),
            )
        }
    }

    /// The core after idling: time moves forward to the target, if there is
    /// one ahead.
    pub open spec fn after_idle(self) -> VmCore {
        let c = self.core;
        match self.idle_target() {
            Some(target) => if target > c.emulated_tsc {
                VmCore {
                    tsc_offset: c.tsc_offset.wrapping_add((target - c.emulated_tsc) as u64),
                    emulated_tsc: target,
                    ..c
                }
            } else {
                c
            },
            None => c,
        }
    }
}

fn rdtsc(state: &mut VmState) -> (r: ExitHandlerResult)
    requires
        old(state).wf(),
    ensures
        final(state).wf(),
        (final(state)@, r) == old(state)@.rdtsc(),
{
    reveal(VmStateView::rdtsc);
    let tsc: u64 = state.core.emulated_tsc;
    state.core.gprs.rax = tsc & 0xFFFF_FFFF;
    state.core.gprs.rdx = tsc >> 32;
    complete(state, ExitHandlerResult::Continue)
}

fn rdtscp(state: &mut VmState) -> (r: ExitHandlerResult)
    requires
        old(state).wf(),
    ensures
        final(state).wf(),
        (final(state)@, r) == old(state)@.rdtscp(),
{
    reveal(VmStateView::rdtscp);
    let tsc: u64 = state.core.emulated_tsc;
    state.core.gprs.rax = tsc & 0xFFFF_FFFF;
    state.core.gprs.rdx = tsc >> 32;
    state.core.gprs.rcx = state.core.msr_state.tsc_aux & 0xFFFF_FFFF;
    complete(state, ExitHandlerResult::Continue)
}

fn rdpmc(state: &mut VmState) -> (r: ExitHandlerResult)
    requires
        old(state).wf(),
    ensures
        final(state).wf(),
        (final(state)@, r) == old(state)@.rdpmc(),
{
    reveal(VmStateView::rdpmc);
    state.core.gprs.rax = 0;
    state.core.gprs.rdx = 0;
    complete(state, ExitHandlerResult::Continue)
}

fn idle(state: &mut VmState) -> (r: ExitHandlerResult)
    requires
        old(state).wf(),
    ensures
        final(state).wf(),
        (final(state)@, r) == old(state)@.idle(),
{
    reveal(VmStateView::idle);
    let current_tsc: u64 = state.core.emulated_tsc;
    let timer_deadline: u64 = state.core.devices.apic.timer_deadline;
    let io_channel_deadline: Option<u64> = next_io_channel_target_tsc(state);
    if timer_deadline > 0 {
        let wake: u64 = match io_channel_deadline {
            Some(i) => if i < timer_deadline { i } else { timer_deadline },
            None => timer_deadline,
        };
        let target: u64 = match state.core.stop_at_tsc {
            Some(s) => if s < wake { s } else { wake },
            None => wake,
        };
        if target > current_tsc {
            let delta: u64 = target - current_tsc;
            state.core.tsc_offset = state.core.tsc_offset.wrapping_add(delta);
            state.core.emulated_tsc = target;
        }
    }
    complete(state, ExitHandlerResult::Continue)
}

/// Handle RDTSC.
pub fn handle_rdtsc<C: VmContext>(ctx: &mut C) -> (r: ExitHandlerResult)
    requires
        old(ctx).wf(),
    ensures
        final(ctx).wf(),
        final(ctx).child_count() == old(ctx).child_count(),
        ({
            let (state, result) = old(ctx).vm().state.rdtsc();
            final(ctx).vm() == old(ctx).vm().with_state(state) && r == result
        }),
{
    rdtsc(ctx.state_mut())
}

/// Handle RDTSCP.
pub fn handle_rdtscp<C: VmContext>(ctx: &mut C) -> (r: ExitHandlerResult)
    requires
        old(ctx).wf(),
    ensures
        final(ctx).wf(),
        final(ctx).child_count() == old(ctx).child_count(),
        ({
            let (state, result) = old(ctx).vm().state.rdtscp();
            final(ctx).vm() == old(ctx).vm().with_state(state) && r == result
        }),
{
    rdtscp(ctx.state_mut())
}

/// Handle RDPMC. No counter is offered to the guest, so all of them read zero.
pub fn handle_rdpmc<C: VmContext>(ctx: &mut C) -> (r: ExitHandlerResult)
    requires
        old(ctx).wf(),
    ensures
        final(ctx).wf(),
        final(ctx).child_count() == old(ctx).child_count(),
        ({
            let (state, result) = old(ctx).vm().state.rdpmc();
            final(ctx).vm() == old(ctx).vm().with_state(state) && r == result
        }),
{
    rdpmc(ctx.state_mut())
}

/// Handle HLT and MWAIT. No instruction retires while the guest is idle, so
/// the emulated TSC jumps to the wake-up. With the timer disarmed it stays: a
/// far I/O deadline must not overshoot a timer the guest is about to set.
pub fn handle_idle<C: VmContext>(ctx: &mut C) -> (r: ExitHandlerResult)
    requires
        old(ctx).wf(),
    ensures
        final(ctx).wf(),
        final(ctx).child_count() == old(ctx).child_count(),
        ({
            let (state, result) = old(ctx).vm().state.idle();
            final(ctx).vm() == old(ctx).vm().with_state(state) && r == result
        }),
{
    idle(ctx.state_mut())
}

/// EDX:EAX after RDTSC is the emulated TSC.
pub proof fn rdtsc_gives_emulated_tsc(state: VmStateView)
    ensures
        ({
            let gprs = state.rdtsc().0.core.gprs;
            gprs.rdx * 0x1_0000_0000 + gprs.rax == state.core.emulated_tsc
        }),
{
    reveal(VmStateView::rdtsc);
    reveal(VmStateView::complete);
    let tsc = state.core.emulated_tsc;
    assert((tsc >> 32) * 0x1_0000_0000 + (tsc & 0xFFFF_FFFF) == tsc) by (bit_vector);
}

/// Idle time never runs backwards, never passes the timer deadline, the I/O
/// request or the stop point, and keeps the emulated TSC equal to the
/// instruction count plus the offset.
pub proof fn idle_moves_time_forward(state: VmStateView)
    ensures
        ({
            let before = state.core;
            let after = state.after_idle();
            &&& after.emulated_tsc >= before.emulated_tsc
            &&& after.emulated_tsc > before.emulated_tsc ==> {
                &&& after.emulated_tsc <= before.devices.apic.timer_deadline
                &&& state.io_channel_target() matches Some(t) ==> after.emulated_tsc <= t
                &&& before.stop_at_tsc matches Some(t) ==> after.emulated_tsc <= t
            }
            &&& before.devices.apic.timer_deadline == 0 ==> after == before
            &&& before.emulated_tsc == before.last_instruction_count.wrapping_add(before.tsc_offset)
                ==> after.emulated_tsc == after.last_instruction_count.wrapping_add(
                after.tsc_offset,
            )
        }),
{
}

} // verus!
