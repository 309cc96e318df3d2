//! When a precise exit is armed, and what an armed entry leaves behind.

use vstd::prelude::*;

use crate::exits::hypercall_laws;
use crate::exits::pebs;
use crate::exits::pebs::{ArmResult, PebsAction, PebsState};
use crate::fields::{VmcsField32, VmcsField64};
use crate::stats::AllExitStats;
use crate::traits::errors::VmcsReadError;
use crate::traits::vm_context::VmView;
use crate::vm_state::VmStateView;
use crate::vmcs::Vmcs;

verus! {

/// Records come close behind the counter on family 6, model 0x8F, and later on other
/// processors: the counter is aimed 3 or 8 instructions ahead.
pub proof fn margin_follows_the_model(eax: u32)
    ensures
        ({
            let model = eax / 0x10 % 16;
            let family = eax / 0x100 % 16;
            let extended = eax / 0x1_0000 % 16;
            pebs::pebs_margin(eax) == if family == 6 && extended == 8 && model == 15 {
                3
            } else {
                8u64
            }
        }),
{
    assert({
        &&& (eax >> 8) & 0xF == eax / 0x100 % 16
        &&& (eax >> 20) & 0xFF <= 0xFF
        &&& ((((eax >> 16) & 0xF) << 4) | ((eax >> 4) & 0xF)) == 0x8F <==> (eax / 0x1_0000 % 16 == 8
            && eax / 0x10 % 16 == 15)
    }) by (bit_vector);
}

/// A target that has passed or is nearer than 257 instructions and the margin leaves
/// nothing armed; any other is armed for, so that the counter overflows when the
/// margin before it is reached.
pub proof fn near_targets_are_not_armed_for(
    p: PebsState,
    now: u64,
    target: u64,
    action: PebsAction,
    count: u64,
    offset: u64,
    margin: u64,
)
    ensures
        ({
            let (q, r) = p.rearm(now, target, action, count, offset, margin);
            let counted = if p.armed_action is Some && p.iters_since_arm < u32::MAX {
                p.iters_since_arm + 1
            } else {
                p.iters_since_arm as int
            };
            &&& target == 0 <==> r is None
            &&& target != 0 && target < now <==> r == Some(ArmResult::AlreadyPast)
            &&& target != 0 && now <= target < now + 257 + margin <==> r == Some(
                ArmResult::BelowMinDelta,
            )
            &&& target != 0 && target >= now + 257 + margin <==> r == Some(ArmResult::Armed)
            &&& r != Some(ArmResult::Armed) ==> q.armed_action is None && q.iters_since_arm == counted
            &&& r == Some(ArmResult::Armed) ==> {
                &&& q.armed_action == Some(action)
                &&& q.armed_target_tsc == target - margin
                &&& (q.counter_reload + (target - margin - now)) % 0x1_0000_0000_0000 == 0
                &&& q.counter_reload < 0x1_0000_0000_0000
                &&& q.armed_inst_count == count && q.armed_tsc_offset == offset
                &&& q.iters_since_arm == 0
            }
            &&& q.ds_area_va == p.ds_area_va && q.pebs_buffer_gpa == p.pebs_buffer_gpa
                && q.ds_management_gpa == p.ds_management_gpa
            &&& q.pebs_enable == p.pebs_enable && q.fixed_ctr_ctrl == p.fixed_ctr_ctrl
                && q.pebs_data_cfg == p.pebs_data_cfg && q.host_msrs == p.host_msrs
        }),
{
    reveal(PebsState::rearm);
    if target >= now + 257 + margin {
        pebs::reload_overflows_after_delta((target - now - margin) as nat);
    }
}

/// An arming that did not fire, a target that had passed and one that was too near are
/// each counted, and nothing else is.
pub proof fn arming_is_counted(s: AllExitStats, was_armed: bool, r: Option<ArmResult>)
    ensures
        ({
            let t = pebs::arming_counted(s, was_armed, r);
            let more = |n: u64, yes: bool| if yes { n.wrapping_add(1) } else { n };
            &&& t.pebs_armed_iter_no_fire == more(s.pebs_armed_iter_no_fire, was_armed)
            &&& t.pebs_arm_already_past == more(
                s.pebs_arm_already_past,
                r == Some(ArmResult::AlreadyPast),
            )
            &&& t.pebs_arm_below_min_delta == more(
                s.pebs_arm_below_min_delta,
                r == Some(ArmResult::BelowMinDelta),
            )
            &&& t == (AllExitStats {
                pebs_armed_iter_no_fire: t.pebs_armed_iter_no_fire,
                pebs_arm_already_past: t.pebs_arm_already_past,
                pebs_arm_below_min_delta: t.pebs_arm_below_min_delta,
                ..s
            })
        }),
{
    reveal(pebs::arming_counted);
}

/// After an armed entry the VM-entry list is the instruction counter's again, or empty.
pub proof fn entry_list_is_handed_back(vmcs: Vmcs, phys: u64)
    requires
        vmcs.loaded,
    ensures
        ({
            let after = pebs::entry_list_returned(vmcs, Some(phys));
            &&& after.get64(VmcsField64::VmEntryMsrLoadAddr) == Ok::<u64, VmcsReadError>(phys)
            &&& after.get32(VmcsField32::VmEntryMsrLoadCount) == Ok::<u32, VmcsReadError>(1)
        }),
        ({
            let after = pebs::entry_list_returned(vmcs, None);
            after.get32(VmcsField32::VmEntryMsrLoadCount) == Ok::<u32, VmcsReadError>(0)
        }),
{
}

/// A forked VM that registers a channel page owns it afterwards, if there is a page to
/// copy it to, so that requests can be written there.
pub proof fn registered_channel_page_is_owned(vm: VmView, frames: Seq<(u64, u64)>)
    requires
        hypercall_laws::can_complete(vm.state),
        vm.mem.overlay is Some,
        frames.len() > 0,
        vm.state.core.gprs.rbx % 4096 == 0,
        vm.translate(vm.state.core.gprs.rbx) is Some,
    ensures
        ({
            let gpa = vm.translate(vm.state.core.gprs.rbx)->0;
            let page = (gpa - gpa % 4096) as u64;
            let after = vm.hypercall_io_page(frames).0;
            gpa != 0 && page + 4096 <= vm.mem.base.len() ==> after.mem.owns(page)
        }),
{
    reveal(VmView::hypercall_io_page);
    reveal(VmStateView::reply);
    reveal(VmStateView::complete);
    hypercall_laws::io_page_is_registered(vm, frames);
}

} // verus!
