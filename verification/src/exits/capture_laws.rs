//! Which exits are captured, and what their records carry.

use vstd::prelude::*;

use crate::exits::helpers::ExitHandlerResult;
use crate::exits::reasons::ExitReason;
use crate::fields::VmcsField32;
use crate::hash;
use crate::hash::StateHash;
use crate::stats::AllExitStats;
use crate::vm_state::{VmCore, VmStateView};

verus! {

/// A record carries a fingerprint of each device, and leaves memory for later.
pub proof fn record_carries_fingerprints(
    state: VmStateView,
    reason: ExitReason,
    qual: u64,
    flags: u32,
)
    ensures
        ({
            let d = state.core.devices;
            let r = state.exit_record(reason, qual, flags);
            &&& r.apic_hash == hash::xxh64(d.apic.hash_input())
            &&& r.serial_hash == hash::xxh64(d.serial.hash_input())
            &&& r.ioapic_hash == hash::xxh64(d.ioapic.hash_input())
            &&& r.rtc_hash == hash::xxh64(d.rtc.hash_input())
            &&& r.mtrr_hash == hash::xxh64(d.mtrr.hash_input())
            &&& r.rdrand_hash == hash::xxh64(d.random.hash_input())
            &&& r.interruptibility_state == match state.vmcs.get32(
                VmcsField32::GuestInterruptibilityState,
            ) {
                Ok(v) => v,
                Err(_) => 0,
            }
            &&& r.memory_hash == 0 && r.cow_page_count == 0
        }),
{
}

/// An exit that the trigger captures is recorded as reproducible or not, the others
/// leave no trace. A trigger at a point in time captures once, and one at checkpoints
/// once between two of them.
pub proof fn captured_exits_are_recorded(
    state: VmStateView,
    reason: ExitReason,
    qual: u64,
    deterministic: bool,
)
    ensures
        ({
            let c = state.core;
            let after = state.capture_exit(reason, qual, deterministic);
            let noted = VmStateView {
                core: VmCore {
                    exit_captured: c.exit_captured || c.exit_trigger is AtTsc,
                    last_checkpoint_idx: if c.exit_trigger is Checkpoints {
                        c.emulated_tsc / c.exit_target_tsc
                    } else {
                        c.last_checkpoint_idx
                    },
                    ..c
                },
                ..state
            };
            &&& !c.captures(deterministic) ==> after == state
            &&& c.captures(deterministic) ==> after == noted.write_exit_record(
                reason,
                qual,
                if deterministic { 1 } else { 0 },
            )
            &&& c.captures(deterministic) && (c.exit_trigger is AtTsc || c.exit_trigger is Checkpoints)
                ==> !after.core.captures(true)
        }),
{
    reveal(VmStateView::capture_exit);
    reveal(VmStateView::write_exit_record);
}

/// A shutdown is captured by the trigger of that name, once; a snapshot by every
/// trigger. Either only once capturing has started, and as reproducible.
pub proof fn ends_are_captured_on_request(state: VmStateView)
    ensures
        ({
            let c = state.core;
            let started = c.emulated_tsc >= c.exit_start_tsc;
            let down = state.capture_exit_at_shutdown();
            let snap = state.capture_exit_at_snapshot();
            let marked = VmStateView { core: VmCore { exit_captured: true, ..c }, ..state };
            &&& if c.exit_trigger is AtShutdown && !c.exit_captured && started {
                down == marked.write_exit_record(ExitReason::VmcallShutdown, 0, 1)
            } else {
                down == state
            }
            &&& down.capture_exit_at_shutdown() == down
            &&& if !(c.exit_trigger is Disabled) && started {
                snap == state.write_exit_record(ExitReason::VmcallSnapshot, 0, 1)
            } else {
                snap == state
            }
        }),
{
    reveal(VmStateView::capture_exit_at_shutdown);
    reveal(VmStateView::capture_exit_at_snapshot);
    reveal(VmStateView::write_exit_record);
}

/// At its end an exit is counted, the trap flag is brought in line, and it is offered
/// for capture; one that reached the stop point is offered as a shutdown instead.
pub proof fn ended_exit_is_offered_for_capture(
    state: VmStateView,
    reason: ExitReason,
    qual: u64,
    deterministic: bool,
    cycles: u64,
    result: ExitHandlerResult,
)
    requires
        state.count_exit(reason, deterministic, cycles).update_mtf().1 is Ok,
    ensures
        ({
            let stepped = state.count_exit(reason, deterministic, cycles).update_mtf().0;
            let stopped = deterministic && (state.core.stop_at_tsc matches Some(stop)
                && state.core.emulated_tsc >= stop);
            state.end_exit(reason, qual, deterministic, cycles, result).0 == if stopped {
                stepped.capture_exit_at_shutdown()
            } else {
                stepped.capture_exit(reason, qual, deterministic)
            }
        }),
{
    reveal(VmStateView::end_exit);
}

/// Single steps that depend on the host are counted apart from all other exits.
pub proof fn margin_steps_are_counted_apart(
    state: VmStateView,
    reason: ExitReason,
    deterministic: bool,
    cycles: u64,
)
    ensures
        ({
            let s = state.host.exit_stats;
            let t = state.count_exit(reason, deterministic, cycles).host.exit_stats;
            let apart = reason is MonitorTrapFlag && !deterministic;
            &&& apart ==> t == (AllExitStats {
                pebs_margin_steps: s.pebs_margin_steps.wrapping_add(1),
                ..s
            })
            &&& !apart ==> t == s.recorded(reason, cycles) && t.pebs_margin_steps
                == s.pebs_margin_steps
            &&& state.count_exit(reason, deterministic, cycles).core == state.core
        }),
{
}

} // verus!
