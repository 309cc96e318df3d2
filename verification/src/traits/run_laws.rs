//! What a run hands over between guest, host and userspace.

use vstd::prelude::*;

use crate::bytes;
use crate::devices::random::RdrandMode;
use crate::ept::{EptLeaf, EptPermissions};
use crate::events::stream::EventStreamView;
use crate::events::types::{EventCategories, EventKind, IoChannelPayload, RandomPayload};
use crate::events::wire_laws;
use crate::exits::helpers;
use crate::exits::helpers::ExitHandlerResult;
use crate::exits::pebs;
use crate::exits::pebs::PebsState;
use crate::exits::qualifications::InterruptionInfo;
use crate::exits::reasons::ExitReason;
use crate::feedback::FeedbackBufferInfo;
use crate::fields::{VmcsField16, VmcsField32, VmcsField64, VmcsFieldNatural};
use crate::hash;
use crate::io_channel::{EnqueueResult, IoChannelView, PendingIoActionView};
use crate::msr;
use crate::msr::{Msr, SyscallMsrs};
use crate::registers::VmxContext;
use crate::traits::device_state::{DeviceStates, GuestMsrState};
use crate::traits::errors::{InveptError, MsrError, VmRunError, VmcsReadError};
use crate::traits::instruction_counter::InstructionCounterError;
use crate::traits::vm_context::VmView;
use crate::traits::vm_run;
use crate::traits::vm_run::{EntryTimes, HostContext};
use crate::vm::forked;
use crate::vm::forked::ForkedVmError;
use crate::vm_file::handlers;
use crate::vm_file::handlers::{RunOutcome, RunSession};
use crate::vm_file::structs::{BedrockEventConfig, BedrockFeedbackBufferInfo, Errno};
use crate::vm_pages;
use crate::vm_state;
use crate::vm_state::{ExitTrigger, ForkSteps, VmCore, VmStateError, VmStateView};
use crate::vmcs::Vmcs;

verus! {

/// The entry code's block holds the guest's registers of the same names.
pub open spec fn holds_registers(v: VmxContext, c: VmCore) -> bool {
    let g = c.gprs;
    &&& v.guest_rax == g.rax && v.guest_rbx == g.rbx && v.guest_rcx == g.rcx && v.guest_rdx == g.rdx
    &&& v.guest_rsi == g.rsi && v.guest_rdi == g.rdi && v.guest_rbp == g.rbp
    &&& v.guest_r8 == g.r8 && v.guest_r9 == g.r9 && v.guest_r10 == g.r10 && v.guest_r11 == g.r11
    &&& v.guest_r12 == g.r12 && v.guest_r13 == g.r13 && v.guest_r14 == g.r14 && v.guest_r15 == g.r15
}

/// Before an entry the block is given the guest's registers, the two XSAVE areas and
/// the guest's feature mask; after an exit the guest's registers are the block's.
/// RSP is left alone.
pub proof fn registers_are_handed_over(state: VmStateView)
    ensures
        ({
            let to = state.synced_to_vmx_ctx();
            let v = to.host.vmx_ctx;
            &&& holds_registers(v, state.core)
            &&& v.guest_xsave_ptr == state.host.pages.guest_xsave_page.virt
            &&& v.host_xsave_ptr == state.host.pages.host_xsave_page.virt
            &&& v.xcr0_mask == state.core.xcr0_mask
            &&& v.launched == state.host.vmx_ctx.launched
            &&& to.core == state.core && to.vmcs == state.vmcs && to.events == state.events
        }),
        ({
            let from = state.synced_from_vmx_ctx();
            &&& holds_registers(state.host.vmx_ctx, from.core)
            &&& from.core.gprs.rsp == state.core.gprs.rsp
            &&& from.core == (VmCore { gprs: from.core.gprs, ..state.core })
            &&& from == (VmStateView { core: from.core, ..state })
        }),
{
}

/// A run starts on a loaded VMCS, and on a CPU that the VM was not on last only
/// after cached translations have been dropped there.
pub proof fn run_starts_with_fresh_translations(
    state: VmStateView,
    loaded: Result<(), &'static str>,
    cpu: u32,
    invept: Result<(), InveptError>,
)
    ensures
        ({
            let (after, r) = state.begin_run(loaded, cpu, invept);
            let moved = state.host.last_cpu != Some(cpu);
            &&& loaded is Err ==> after == state && r == Err::<(), VmRunError>(
                VmRunError::VmcsLoad(loaded->Err_0),
            )
            &&& loaded is Ok && moved && invept is Err ==> after.host == state.host && r == Err::<
                (),
                VmRunError,
            >(VmRunError::InveptFailed(invept->Err_0))
            &&& loaded is Ok && !(moved && invept is Err) ==> after.vmcs.loaded
                && after.host.last_cpu == Some(cpu)
            &&& after.ept == state.ept && after.events == state.events && after.io_channel
                == state.io_channel && after.core.gprs == state.core.gprs
                && after.core.emulated_tsc == state.core.emulated_tsc
        }),
{
}

/// With a current VMCS and a readable CR3 each host field holds the host's value;
/// nothing of the guest's changes.
pub proof fn host_fields_hold_host_values(vmcs: Vmcs, host: HostContext, bank: Map<u64, Msr>)
    requires
        vmcs.loaded,
    ensures
        host.cr3 is None ==> vm_run::host_fields_written(vmcs, host, bank) == (
            vmcs,
            Err::<(), VmRunError>(VmRunError::ReadHostCr3),
        ),
        host.cr3 is Some ==> ({
            let (after, r) = vm_run::host_fields_written(vmcs, host, bank);
            let get = |f: VmcsFieldNatural| after.get_natural(f)->Ok_0;
            let read = |index: u32|
                match msr::msr_get(bank, index) {
                    Ok(v) => v,
                    Err(_) => 0,
                };
            &&& r is Ok
            &&& get(VmcsFieldNatural::HostCr3) == host.cr3->0
            &&& get(VmcsFieldNatural::HostFsBase) == read(0xC000_0100)
            &&& get(VmcsFieldNatural::HostGsBase) == read(0xC000_0101)
            &&& get(VmcsFieldNatural::HostTrBase) == host.tr_base
            &&& get(VmcsFieldNatural::HostGdtrBase) == host.gdtr_base
            &&& get(VmcsFieldNatural::HostRsp) == host.rsp
            &&& after.words == vmcs.words && after.dwords == vmcs.dwords && after.qwords
                == vmcs.qwords
            &&& after.get_natural(VmcsFieldNatural::GuestRip) == vmcs.get_natural(
                VmcsFieldNatural::GuestRip,
            )
            &&& after.get_natural(VmcsFieldNatural::GuestCr3) == vmcs.get_natural(
                VmcsFieldNatural::GuestCr3,
            )
        }),
{
}

/// A counter with a list of its own has its MSR stored to that list on exit and
/// loaded from it on entry.
pub proof fn counter_list_is_stored_and_loaded(vmcs: Vmcs, phys: u64)
    requires
        vmcs.loaded,
    ensures
        ({
            let after = vm_run::counter_lists_written(vmcs, Some(phys));
            &&& after.get64(VmcsField64::VmExitMsrStoreAddr) == Ok::<u64, VmcsReadError>(phys)
            &&& after.get64(VmcsField64::VmEntryMsrLoadAddr) == Ok::<u64, VmcsReadError>(phys)
            &&& after.get32(VmcsField32::VmExitMsrStoreCount) == Ok::<u32, VmcsReadError>(1)
            &&& after.get32(VmcsField32::VmEntryMsrLoadCount) == Ok::<u32, VmcsReadError>(1)
        }),
        vm_run::counter_lists_written(vmcs, None) == vmcs,
{
}

/// The counters of guest and host are switched by the processor: entry loads the
/// guest's value, with the precise counter enabled once a page is registered, and
/// exit the host's.
pub proof fn counters_are_switched(vmcs: Vmcs, guest: u64, host: u64, registered: bool)
    requires
        vmcs.get32(VmcsField32::VmEntryControls) is Ok,
        vmcs.get32(VmcsField32::PrimaryVmExitControls) is Ok,
    ensures
        ({
            let after = vm_run::counter_switch_written(vmcs, Some((guest, host)), registered);
            let entry = vmcs.get32(VmcsField32::VmEntryControls)->Ok_0;
            let exit = vmcs.get32(VmcsField32::PrimaryVmExitControls)->Ok_0;
            &&& after.get64(VmcsField64::GuestIa32PerfGlobalCtrl) == Ok::<u64, VmcsReadError>(
                if registered { guest | 0x1_0000_0000 } else { guest },
            )
            &&& after.get64(VmcsField64::HostIa32PerfGlobalCtrl) == Ok::<u64, VmcsReadError>(host)
            &&& after.get32(VmcsField32::VmEntryControls) == Ok::<u32, VmcsReadError>(entry | 0x2000)
            &&& after.get32(VmcsField32::PrimaryVmExitControls) == Ok::<u32, VmcsReadError>(
                exit | 0x1000,
            )
        }),
{
}

/// `a - b` where that is no underflow, else zero.
pub open spec fn time_between(b: u64, a: u64) -> int {
    if a < b { 0 } else { a - b }
}

/// The five stretches of an iteration are each counted once, under their own names;
/// the time up to the handler leaves out the window for host interrupts.
pub proof fn time_is_accounted_for(
    state: VmStateView,
    t: EntryTimes,
    start: u64,
    end: u64,
    gs: u64,
    count: u64,
)
    ensures
        ({
            let s = state.host.exit_stats;
            let wrap = |n: int| n % 0x1_0000_0000_0000_0000;
            let window = time_between(t.pre_irq, t.post_irq);
            let handling = time_between(t.post_exit, t.pre_handler);
            let a = state.readied(start, t.pre_entry);
            let b = state.left_guest(gs, t.pre_entry, t.post_exit);
            let c = state.noted(count, t);
            let d = state.resumed(t);
            let e = state.iterated(start, end);
            &&& a.host.exit_stats.vmentry_overhead_cycles == wrap(
                s.vmentry_overhead_cycles + time_between(start, t.pre_entry),
            )
            &&& b.host.exit_stats.guest_cycles == wrap(
                s.guest_cycles + time_between(t.pre_entry, t.post_exit),
            )
            &&& c.host.exit_stats.irq_window_cycles == wrap(s.irq_window_cycles + window)
            &&& d.host.exit_stats.vmexit_overhead_cycles == wrap(
                s.vmexit_overhead_cycles + (if handling < window { 0 } else { handling - window }),
            )
            &&& e.host.exit_stats.total_run_cycles == wrap(
                s.total_run_cycles + time_between(start, end),
            )
            &&& b.core.kernel_gs_base == gs
            &&& c.core.last_instruction_count == count
            &&& a.core == state.core && e.core == state.core
            &&& b.core == (VmCore { kernel_gs_base: gs, ..state.core })
            &&& c.core == (VmCore { last_instruction_count: count, ..state.core })
            &&& d.core == state.synced_from_vmx_ctx().core
        }),
{
}

/// The loop goes on after an exit that was handled, unless another thread wants the
/// CPU; an exit for userspace and an error leave it, each with its own outcome.
/// Failing to restore the counter outranks them all.
pub proof fn loop_is_left_for_a_reason(
    need_resched: bool,
    handled: ExitHandlerResult,
    finished: Result<(), InstructionCounterError>,
    outcome: Result<ExitReason, VmRunError>,
)
    ensures
        ({
            let step = vm_run::next_step(handled, need_resched);
            &&& step is None <==> handled is Continue && !need_resched
            &&& handled is Continue && need_resched ==> step == Some(
                Ok::<ExitReason, VmRunError>(ExitReason::NeedResched),
            )
            &&& handled matches ExitHandlerResult::ExitToUserspace(reason) ==> step == Some(
                Ok::<ExitReason, VmRunError>(reason),
            )
            &&& handled matches ExitHandlerResult::Error(e) ==> step == Some(
                Err::<ExitReason, VmRunError>(VmRunError::ExitHandler(e)),
            )
        }),
        finished is Ok ==> vm_run::loop_outcome(finished, outcome) == outcome,
        finished matches Err(e) ==> vm_run::loop_outcome(finished, outcome) == Err::<
            ExitReason,
            VmRunError,
        >(VmRunError::InstructionCounter(e)),
{
}

/// Userspace sees the qualification and the guest-physical address of the exit as
/// the VMCS holds them, zero where it holds none.
pub proof fn exit_information_is_the_processors(state: VmStateView)
    ensures
        ({
            let c = state.exit_info_saved().core;
            &&& c.last_exit_qualification == match state.vmcs.get_natural(
                VmcsFieldNatural::ExitQualification,
            ) {
                Ok(v) => v,
                Err(_) => 0,
            }
            &&& c.last_guest_physical_addr == match state.vmcs.get64(
                VmcsField64::GuestPhysicalAddr,
            ) {
                Ok(v) => v,
                Err(_) => 0,
            }
            &&& c == (VmCore {
                last_exit_qualification: c.last_exit_qualification,
                last_guest_physical_addr: c.last_guest_physical_addr,
                ..state.core
            })
        }),
{
}

/// At the end of a run the guest's SYSCALL MSRs are those the processor holds, the
/// next entry is a launch, and the VMCS stays loaded only if clearing it failed.
pub proof fn run_ends_with_guest_msrs_kept(state: VmStateView, cleared: bool, bank: Map<u64, Msr>)
    ensures
        ({
            let after = state.finished(cleared, bank);
            let s = after.core.msr_state.syscall;
            let read = |index: u32|
                match msr::msr_get(bank, index) {
                    Ok(v) => v,
                    Err(_) => 0,
                };
            &&& s.star.0 == read(0xC000_0081) && s.lstar.0 == read(0xC000_0082)
            &&& s.cstar.0 == read(0xC000_0083) && s.fmask.0 == read(0xC000_0084)
            &&& after.host.vmx_ctx.launched == 0
            &&& cleared ==> !after.vmcs.loaded
            &&& !cleared ==> after.vmcs == state.vmcs
            &&& after.core.gprs == state.core.gprs && after.core.kernel_gs_base
                == state.core.kernel_gs_base && after.core.emulated_tsc == state.core.emulated_tsc
        }),
{
}

/// Loading SYSCALL MSRs writes each to its own index.
pub proof fn syscall_msrs_have_their_indexes(m: SyscallMsrs)
    ensures
        m.load_writes() == seq![
            (0xC000_0081u32, m.star.0),
            (0xC000_0082u32, m.lstar.0),
            (0xC000_0083u32, m.cstar.0),
            (0xC000_0084u32, m.fmask.0),
        ],
{
}

/// A precise exit that fired is armed no more. How far past its aim it came, how
/// many instructions and how much skipped time lay between, and how far ahead it was
/// aimed, are noted; the largest distance is kept.
pub proof fn fired_exit_is_measured(state: VmStateView, p: PebsState)
    requires
        state.core.pebs_state == Some(p),
        p.armed_target_tsc != 0,
        state.core.last_instruction_count + state.core.tsc_offset <= i64::MAX,
        p.armed_inst_count <= state.core.last_instruction_count,
        p.armed_tsc_offset <= state.core.tsc_offset,
        p.armed_inst_count + p.armed_tsc_offset <= p.armed_target_tsc <= i64::MAX,
    ensures
        ({
            let c = state.core;
            let after = state.precise_exit_fired();
            let past = c.last_instruction_count + c.tsc_offset - p.armed_target_tsc;
            let before = state.host.exit_stats.max_pebs_skid;
            &&& after.core.pebs_state is Some
            &&& after.core.pebs_state->0.armed_action is None
            &&& after.core.last_pebs_skid == past
            &&& after.core.last_pebs_inst_delta == c.last_instruction_count - p.armed_inst_count
            &&& after.core.last_pebs_tsc_offset_delta == c.tsc_offset - p.armed_tsc_offset
            &&& after.core.last_pebs_iters_since_arm == p.iters_since_arm
            &&& after.core.last_pebs_arm_delta == p.armed_target_tsc - (p.armed_inst_count
                + p.armed_tsc_offset)
            &&& after.host.exit_stats.max_pebs_skid >= past
            &&& after.host.exit_stats.max_pebs_skid == past || after.host.exit_stats.max_pebs_skid
                == before
            &&& after.host.exit_stats.max_pebs_skid >= before
            &&& after.vmcs == state.vmcs && after.core.gprs == c.gprs && after.core.emulated_tsc
                == c.emulated_tsc
        }),
{
}

/// The entry list of an armed exit: nine MSRs by number, the instruction count first,
/// all counters off while the precise counter is loaded and set up, its overflow
/// cleared before records are enabled, and the guest's counters on last.
pub proof fn entry_list_loads_the_counter(p: PebsState, count: u64, ctrl: u64, i: int)
    requires
        0 <= i < 9,
    ensures
        ({
            let values = pebs::entry_values(p, count, ctrl);
            let list = vm_pages::entry_load_list(values);
            let indexes: Seq<u32> = seq![
                0x4C1, 0x38F, 0x309, 0x38D, 0x3F2, 0x600, 0x390, 0x3F1, 0x38F,
            ];
            let loads: Seq<u64> = seq![
                count, 0, p.counter_reload, p.fixed_ctr_ctrl, p.pebs_data_cfg, p.ds_area_va,
                p.pebs_enable, p.pebs_enable, ctrl,
            ];
            &&& list.len() == 4096
            &&& list.subrange(16 * i, 16 * i + 4) == bytes::le32(indexes[i])
            &&& list.subrange(16 * i + 4, 16 * i + 8) == bytes::le32(0)
            &&& list.subrange(16 * i + 8, 16 * i + 16) == bytes::le64(loads[i])
        }),
{
    let values = pebs::entry_values(p, count, ctrl);
    let list = vm_pages::entry_load_list(values);
    let index = vm_pages::PEBS_ENTRY_MSR_INDEXES@[i];
    let entry = vm_pages::msr_entry(index, values[i]);
    assert forall|k: int| 0 <= k < 16 implies #[trigger] list[16 * i + k] == entry[k] by {
        assert((16 * i + k) / 16 == i && (16 * i + k) % 16 == k);
    }
    assert(list.subrange(16 * i, 16 * i + 4) =~= bytes::le32(index)) by {
        assert forall|k: int| 0 <= k < 4 implies list[16 * i + k] == bytes::le32(index)[k] by {
            assert(list[16 * i + k] == entry[k]);
        }
    }
    assert(list.subrange(16 * i + 4, 16 * i + 8) =~= bytes::le32(0)) by {
        assert forall|k: int| 0 <= k < 4 implies list[16 * i + 4 + k] == bytes::le32(0)[k] by {
            assert(list[16 * i + (4 + k)] == entry[4 + k]);
        }
    }
    assert(list.subrange(16 * i + 8, 16 * i + 16) =~= bytes::le64(values[i])) by {
        assert forall|k: int| 0 <= k < 8 implies list[16 * i + 8 + k] == bytes::le64(values[i])[k] by {
            assert(list[16 * i + (8 + k)] == entry[8 + k]);
        }
    }
}

/// The MSRs that the guest reaches without an exit, by number; the bitmap keeps read
/// bits before write bits, and the low range before the high one.
pub proof fn bitmap_follows_the_architecture(index: u32, bitmap: Seq<u8>)
    ensures
        vm_pages::passthrough(index) <==> 0x174 <= index <= 0x176 || 0xC000_0080 <= index
            <= 0xC000_0084 || 0xC000_0100 <= index <= 0xC000_0102,
        index < 0x2000 ==> (vm_pages::intercepted(bitmap, index, false) <==> (bitmap[index as int / 8]
            >> (index % 8) as u8) & 1 == 1),
        index < 0x2000 ==> (vm_pages::intercepted(bitmap, index, true) <==> (bitmap[2048
            + index as int / 8] >> (index % 8) as u8) & 1 == 1),
        0xC000_0000 <= index < 0xC000_2000 ==> (vm_pages::intercepted(bitmap, index, false) <==> (
        bitmap[1024 + (index - 0xC000_0000) / 8] >> ((index - 0xC000_0000) % 8) as u8) & 1 == 1),
        0xC000_0000 <= index < 0xC000_2000 ==> (vm_pages::intercepted(bitmap, index, true) <==> (
        bitmap[3072 + (index - 0xC000_0000) / 8] >> ((index - 0xC000_0000) % 8) as u8) & 1 == 1),
        0x2000 <= index < 0xC000_0000 || index >= 0xC000_2000 ==> vm_pages::intercepted(
            bitmap,
            index,
            true,
        ) && vm_pages::intercepted(bitmap, index, false),
{
}

/// A page that is copied for a forked VM takes the pool's last frame, is mapped there
/// writable and holds the parent's bytes; one that cannot be copied changes nothing
/// the guest sees.
pub proof fn copied_page_is_writable(vm: VmView, page: u64, frames: Seq<(u64, u64)>)
    requires
        vm.mem.overlay is Some,
    ensures
        ({
            let (after, left, outcome) = vm.copy_page(page, frames);
            let owned = vm.mem.overlay->0.dom().contains(page);
            let fits = page + 4096 <= vm.mem.base.len();
            let mapped = vm.state.ept.leaves.dom().contains(page);
            &&& outcome is Copied <==> !owned && frames.len() > 0 && fits && mapped
            &&& owned <==> outcome is Present
            &&& !owned && frames.len() == 0 <==> outcome is NoFrame
            &&& outcome is Copied ==> {
                &&& after.state.ept.leaves[page] == (EptLeaf {
                    hpa: frames.last().0,
                    permissions: EptPermissions::ReadWriteExecute,
                })
                &&& after.mem.overlay->0[page] == vm.mem.base.subrange(page as int, page + 4096)
                &&& after.mem.base == vm.mem.base
                &&& after.state.host.invept_due
                &&& left == frames.drop_last()
            }
            &&& outcome is Present || outcome is NoFrame ==> after == vm && left == frames
            &&& outcome is OutOfRange ==> after == vm
            &&& after.state.core == vm.state.core && after.state.vmcs == vm.state.vmcs
                && after.state.events == vm.state.events
        }),
{
}

/// A write fault of a forked VM lets the guest try again, with a copy of its own; a
/// root VM has nothing to copy.
pub proof fn write_fault_is_retried(vm: VmView, gpa: u64, frames: Seq<(u64, u64)>)
    requires
        vm.mem.overlay is Some,
    ensures
        ({
            let page = (gpa - gpa % 4096) as u64;
            let (after, left, r) = vm.cow_fault(gpa, frames);
            let outcome = vm.copy_page(page, frames).2;
            &&& r == Some(ExitHandlerResult::Continue) <==> outcome is Copied || outcome is Present
            &&& r is None <==> !(outcome is Copied || outcome is Present)
            &&& outcome is Copied ==> after == vm.copy_page(page, frames).0
            &&& outcome is Present ==> after.mem == vm.mem && left == frames
                && after.state.host.exit_stats.cow.stale_tlb_faults
                == vm.state.host.exit_stats.cow.stale_tlb_faults.wrapping_add(1)
        }),
{
}

/// Fields that are written read back, others of the same width stay.
pub proof fn written_fields_read_back(
    vmcs: Vmcs,
    word: (VmcsField16, u16),
    dword: (VmcsField32, u32),
    qword: (VmcsField64, u64),
    other_dword: VmcsField32,
    other_qword: VmcsField64,
)
    requires
        vmcs.loaded,
        vmcs.put32(dword.0, dword.1).1 is Ok,
        vmcs.put64(qword.0, qword.1).1 is Ok,
    ensures
        vmcs.put16(word.0, word.1).1 is Ok,
        vmcs.put16(word.0, word.1).0.get16(word.0) == Ok::<u16, VmcsReadError>(word.1),
        vmcs.put32(dword.0, dword.1).0.get32(dword.0) == Ok::<u32, VmcsReadError>(dword.1),
        vmcs.put64(qword.0, qword.1).0.get64(qword.0) == Ok::<u64, VmcsReadError>(qword.1),
        other_dword != dword.0 ==> vmcs.put32(dword.0, dword.1).0.get32(other_dword) == vmcs.get32(
            other_dword,
        ),
        other_qword != qword.0 ==> vmcs.put64(qword.0, qword.1).0.get64(other_qword) == vmcs.get64(
            other_qword,
        ),
{
}

/// What an event configuration turns on: its categories, its trigger while the
/// stream is on, the memory hash and the interception of page faults by flag bit. A
/// stream that is switched off holds nothing; one that was on goes on.
pub proof fn event_configuration_takes_effect(
    core: VmCore,
    events: EventStreamView,
    config: BedrockEventConfig,
    trigger: ExitTrigger,
    buffer: Seq<u8>,
)
    ensures
        ({
            let c = handlers::capture_configured(core, config, trigger);
            let e = handlers::stream_configured(events, config, buffer);
            &&& config.enabled != 0 ==> c.exit_trigger == trigger && e.attached
            &&& config.enabled == 0 ==> c.exit_trigger is Disabled && !e.attached
            &&& config.enabled == 0 && events.attached ==> e.bytes.len() == 0 && e.pending is None
                && e.exit_loc is None
            &&& config.enabled != 0 && events.attached ==> e.bytes == events.bytes
            &&& e.categories == EventCategories(config.categories)
            &&& c.exit_target_tsc == config.exit_target_tsc && c.exit_start_tsc
                == config.exit_start_tsc
            &&& c.skip_memory_hash <==> config.exit_flags % 2 == 1
            &&& c.intercept_pf <==> (config.exit_flags / 2) % 2 == 1
            &&& !c.exit_captured
            &&& c.gprs == core.gprs && c.emulated_tsc == core.emulated_tsc && c.stop_at_tsc
                == core.stop_at_tsc
        }),
        forall|n: u32| #[trigger]
            handlers::trigger_of(n) is Some <==> n <= 5,
        handlers::trigger_of(0) == Some(ExitTrigger::Disabled),
        handlers::trigger_of(1) == Some(ExitTrigger::AllExits),
        handlers::trigger_of(2) == Some(ExitTrigger::AtTsc),
        handlers::trigger_of(3) == Some(ExitTrigger::AtShutdown),
        handlers::trigger_of(4) == Some(ExitTrigger::Checkpoints),
        handlers::trigger_of(5) == Some(ExitTrigger::TscRange),
{
    let f = config.exit_flags;
    assert((f & 1 != 0 <==> f % 2 == 1) && (f & 2 != 0 <==> (f / 2) % 2 == 1)) by (bit_vector);
}

/// A queued request takes a free slot at once, with an old response dropped, and
/// waits behind the others where the slot is taken; a queue of 256 takes no more.
pub proof fn queued_request_finds_its_place(chan: IoChannelView, action: PendingIoActionView)
    requires
        0 < action.data.len() <= 4096,
    ensures
        ({
            let (queued, r) = chan.enqueue(action);
            let after = queued.promote();
            &&& r == EnqueueResult::Full <==> chan.pending.len() >= 256
            &&& r == EnqueueResult::Full || r == EnqueueResult::Queued
            &&& r == EnqueueResult::Full ==> queued == chan
            &&& r == EnqueueResult::Queued && chan.request.len() == 0 && chan.pending.len() == 0 ==> {
                &&& after.request == action.data
                &&& after.request_target_tsc == action.target_tsc
                &&& !after.request_delivered
                &&& after.response.len() == 0
                &&& after.pending.len() == 0
                &&& after.page_gpa == chan.page_gpa
            }
            &&& r == EnqueueResult::Queued && chan.request.len() > 0 ==> after == (IoChannelView {
                pending: chan.pending.push(action),
                ..chan
            })
        }),
{
    assert(action.data.take(action.data.len() as int) =~= action.data);
}

/// A fork succeeds if and only if the child has a page table, a VMCS and five pages and
/// every step on the processor went well; the first thing missing is the error.
pub proof fn fork_needs_everything<E>(
    eptp: Result<u64, E>,
    vmcs_allocated: bool,
    free_pages: nat,
    steps: ForkSteps,
)
    ensures
        ({
            let e = forked::fork_error(eptp, vmcs_allocated, free_pages, steps);
            let ready = eptp is Ok && vmcs_allocated;
            let went_well = steps.parent_cleared && steps.child_loaded && steps.invept
                && steps.child_cleared;
            &&& e is None <==> ready && free_pages >= 5 && went_well
            &&& eptp matches Err(x) ==> e == Some(ForkedVmError::EptClone(x))
            &&& eptp is Ok && !vmcs_allocated ==> e == Some(ForkedVmError::<E>::VmcsAlloc)
            &&& ready && free_pages == 0 ==> e == Some(
                ForkedVmError::<E>::VmState(VmStateError::MsrBitmapAlloc),
            )
            &&& ready && 1 <= free_pages < 3 ==> e == Some(
                ForkedVmError::<E>::VmState(VmStateError::PebsExitMsrLoadAlloc),
            )
            &&& ready && 3 <= free_pages < 5 ==> e == Some(
                ForkedVmError::<E>::VmState(VmStateError::XsavePageAlloc),
            )
            &&& ready && free_pages >= 5 && steps.parent_cleared && steps.child_loaded
                && !steps.invept ==> e == Some(
                ForkedVmError::<E>::VmState(VmStateError::InveptFailed),
            )
            &&& ready && free_pages >= 5 && steps.invept && !went_well ==> e == Some(
                ForkedVmError::<E>::VmState(VmStateError::GuestStateCopy),
            )
        }),
{
}

/// A VM that has not run: registers and time at zero, nothing captured, stepped, armed
/// or stopped at.
pub proof fn new_vm_starts_at_zero(frequency: u64, supported: bool, margin: u64)
    ensures
        ({
            let c = VmCore::initial(frequency, supported, margin);
            &&& c.tsc_frequency == frequency && c.pebs_supported == supported && c.pebs_margin == margin
            &&& c.gprs.rax == 0 && c.gprs.rbx == 0 && c.gprs.rcx == 0 && c.gprs.rdx == 0
            &&& c.gprs.rsi == 0 && c.gprs.rdi == 0 && c.gprs.rbp == 0 && c.gprs.rsp == 0
            &&& c.emulated_tsc == 0 && c.tsc_offset == 0 && c.last_instruction_count == 0
            &&& c.xcr0_mask == 7
            &&& c.exit_trigger is Disabled && !c.exit_captured && c.last_checkpoint_idx == 0
            &&& c.single_step_tsc_range is None && !c.mtf_enabled && c.stop_at_tsc is None
            &&& c.pebs_state is None && !c.intercept_pf && !c.skip_memory_hash
            &&& c.serial_console.page_gpa == 0
            &&& c.devices == DeviceStates::reset() && c.msr_state == GuestMsrState::reset()
        }),
{
}

/// Page faults, exception 14, cause an exit if and only if that was asked for; the
/// other exceptions stay as they were.
pub proof fn page_faults_exit_on_request(state: VmStateView, bitmap: u32)
    requires
        state.vmcs.get32(VmcsField32::ExceptionBitmap) == Ok::<u32, VmcsReadError>(bitmap),
    ensures
        ({
            let after = state.apply_intercept_pf();
            let now = after.vmcs.get32(VmcsField32::ExceptionBitmap);
            &&& now == Ok::<u32, VmcsReadError>(
                if state.core.intercept_pf { bitmap | 0x4000 } else { bitmap & !0x4000u32 },
            )
            &&& after == (VmStateView { vmcs: after.vmcs, ..state })
        }),
{
}

/// Precise exits need a processor that announces records of format 4 or later with a
/// baseline: bit 14 and bits 11 to 8.
pub proof fn records_need_the_capability(v: u64)
    ensures
        vm_state::traps_records(Some(v)) <==> (v / 0x4000) % 2 == 1 && (v / 0x100) % 16 >= 4,
        !vm_state::traps_records(None),
{
    assert(((v >> 14) & 1 != 0 <==> (v / 0x4000) % 2 == 1) && (v >> 8) & 0xF == (v / 0x100) % 16)
        by (bit_vector);
}

/// A request on the I/O channel is recorded as reproducible, with the request's bytes;
/// a response as not, with its own. Served random bytes stand behind their payload,
/// 256 of them at most.
pub proof fn transactions_are_recorded(
    state: VmStateView,
    p: IoChannelPayload,
    r: RandomPayload,
    data: Seq<u8>,
)
    requires
        p.phase == 0 || p.phase == 1,
    ensures
        state.event_emit_io_channel(p).0 == (VmStateView {
            events: state.events.append(
                EventKind::IoChannel,
                if p.phase == 0 { 1 } else { 0 },
                state.core.emulated_tsc,
                state.host.tsc,
                p.encode() + (if p.phase == 0 {
                    state.io_channel.request
                } else {
                    state.io_channel.response
                }),
            ).0,
            ..state
        }),
        data.len() <= 256 ==> state.emit_randomness(r, data) == (VmStateView {
            events: state.events.append(
                EventKind::Randomness,
                1,
                state.core.emulated_tsc,
                state.host.tsc,
                r.encode() + data,
            ).0,
            ..state
        }),
{
    assert(data.take(data.len() as int) =~= data);
}

/// Copying pages for mapping makes each page that lies in memory the VM's own, where
/// the pool has a page for each, and keeps those that were.
pub proof fn copied_pages_are_owned(vm: VmView, pages: Seq<u64>, frames: Seq<(u64, u64)>)
    requires
        vm.mem.overlay is Some,
        frames.len() >= pages.len(),
    ensures
        ({
            let (after, left) = vm.copy_pages(pages, frames);
            &&& after.mem.base == vm.mem.base
            &&& after.mem.overlay is Some
            &&& left.len() + pages.len() >= frames.len()
            &&& forall|p: u64| #[trigger] vm.mem.owns(p) ==> after.mem.owns(p)
            &&& forall|i: int|
                0 <= i < pages.len() && pages[i] + 4096 <= vm.mem.base.len()
                    ==> after.mem.owns(#[trigger] pages[i])
        }),
    decreases pages.len(),
{
    if pages.len() > 0 {
        let head = pages.drop_last();
        copied_pages_are_owned(vm, head, frames);
        let (mid, rest) = vm.copy_pages(head, frames);
        let (after, left, _) = mid.copy_page(pages.last(), rest);
        assert forall|i: int|
            0 <= i < pages.len() && pages[i] + 4096 <= vm.mem.base.len() implies after.mem.owns(
            #[trigger] pages[i],
        ) by {
            if i < head.len() {
                assert(mid.mem.owns(head[i]));
            }
        }
    }
}

/// A feedback buffer that is to be mapped is made up of the forked VM's own pages.
pub proof fn mapped_buffer_is_owned(vm: VmView, index: int, i: int, frames: Seq<(u64, u64)>)
    requires
        vm.mem.overlay is Some,
        0 <= index < vm.state.feedback_buffers.len(),
        vm.state.feedback_buffers[index].wf(),
        0 <= i < vm.state.feedback_buffers[index].num_pages,
        frames.len() >= vm.state.feedback_buffers[index].num_pages,
    ensures
        ({
            let page = vm.state.feedback_buffers[index].gpas@[i];
            page + 4096 <= vm.mem.base.len() ==> vm.copy_feedback_buffer(
                index,
                frames,
            ).0.mem.owns(page)
        }),
{
    let info = vm.state.feedback_buffers[index];
    let pages = info.gpas@.take(info.num_pages as int);
    copied_pages_are_owned(vm, pages, frames);
    assert(pages[i] == info.gpas@[i]);
}

/// The frame that is noted for a copied page is the one the page is mapped to.
pub proof fn noted_frame_is_the_mapped_one(
    vm: VmView,
    owned: Map<u64, (u64, u64)>,
    page: u64,
    pool: Seq<(u64, u64)>,
)
    requires
        vm.copy_page(page, pool).2 is Copied,
    ensures
        ({
            let (after, left, outcome) = vm.copy_page(page, pool);
            let noted = forked::frames_with_copy(owned, page, pool, outcome);
            &&& noted.dom().contains(page)
            &&& noted[page].0 == after.state.ept.leaves[page].hpa
            &&& forall|p: u64| p != page && owned.dom().contains(p) ==> #[trigger] noted[p] == owned[p]
        }),
{
}

/// Records carry a fingerprint of memory unless it was turned off, or none or only
/// checkpoints are captured; it is the hash of all memory, or of the VM's own pages.
pub proof fn memory_is_hashed_unless_turned_off(vm: VmView)
    ensures
        ({
            let c = vm.state.core;
            let off = c.skip_memory_hash || c.exit_trigger is Disabled || c.exit_trigger is Checkpoints;
            &&& off ==> vm.memory_hash() == 0
            &&& !off && vm.mem.overlay is None ==> vm.memory_hash() == hash::xxh64(vm.mem.base)
            &&& !off ==> vm.memory_hash() == hash::xxh64(vm.mem.hash_input())
        }),
        vm.mem.overlay is None ==> vm.cow_page_count() == 0,
        vm.mem.overlay is Some ==> vm.cow_page_count() == vm.mem.overlay->0.dom().len(),
{
}

/// The floating-point state a guest starts from: control word 0x037F, MXCSR 0x1F80 and
/// three valid components; the list of a VM exit turns records off. All else is zero.
pub proof fn initial_pages_hold_little(i: int)
    requires
        0 <= i < 4096,
    ensures
        ({
            let x = vm_pages::initial_xsave();
            &&& x.len() == 4096
            &&& x[0] == 0x7F && x[1] == 0x03
            &&& x[24] == 0x80 && x[25] == 0x1F
            &&& x[512] == 7
            &&& i != 0 && i != 1 && i != 24 && i != 25 && i != 512 ==> x[i] == 0
        }),
        ({
            let l = vm_pages::exit_load_list();
            &&& l.len() == 4096
            &&& l[0] == 0xF1 && l[1] == 0x03
            &&& i > 1 ==> l[i] == 0
        }),
{
    wire_laws::integers_are_little_endian(0x037F, 0x1F80, 7);
    wire_laws::integers_are_little_endian(0, 0x3F1, 0);
    wire_laws::integers_are_little_endian(0, 0, 0);
    assert(0x1F80u32 / 0x1_0000 == 0 && 0x1F80u32 / 0x100 == 0x1F && 0x1F80u32 % 0x100 == 0x80);
    assert(0x3F1u32 / 0x1_0000 == 0 && 0x3F1u32 / 0x100 == 3 && 0x3F1u32 % 0x100 == 0xF1);
    let (d, q) = (bytes::le32(0x1F80), bytes::le64(7));
    assert(d[2] == 0 && d[3] == 0);
    assert(q[1] == 0 && q[2] == 0 && q[3] == 0 && q[4] == 0 && q[5] == 0 && q[6] == 0 && q[7] == 0);
    let (k, z, v) = (bytes::le32(0x3F1), bytes::le32(0), bytes::le64(0));
    assert(k[2] == 0 && k[3] == 0 && z[0] == 0 && z[1] == 0 && z[2] == 0 && z[3] == 0);
    assert(v[0] == 0 && v[1] == 0 && v[2] == 0 && v[3] == 0 && v[4] == 0 && v[5] == 0 && v[6] == 0
        && v[7] == 0);
}

/// A write that the processor accepts reads back, one that it refuses changes nothing,
/// and no other MSR changes.
pub proof fn written_msr_reads_back(bank: Map<u64, Msr>, index: u32, value: u64, other: u32)
    ensures
        ({
            let after = msr::msr_put(bank, index, value);
            let accepted = bank.dom().contains(index as u64) && bank[index as u64].writable;
            &&& accepted ==> msr::msr_get(after, index) == Ok::<u64, MsrError>(value)
            &&& !accepted ==> after == bank
            &&& other != index ==> msr::msr_get(after, other) == msr::msr_get(bank, other)
        }),
        msr::msr_get(bank, index) is Err <==> !bank.dom().contains(index as u64),
{
}

/// What userspace learns of a feedback buffer is what was registered; a gap says so.
pub proof fn buffer_information_is_the_registered_one(buffer: FeedbackBufferInfo, index: u32)
    ensures
        ({
            let i = BedrockFeedbackBufferInfo::of(buffer, index);
            &&& i.gva == buffer.gva && i.size == buffer.size && i.num_pages == buffer.num_pages
            &&& i.id_len == buffer.id_len && i.id == buffer.id
            &&& i.registered == 1 && i.index == index
        }),
        ({
            let g = BedrockFeedbackBufferInfo::gap(index);
            g.registered == 0 && g.index == index && g.size == 0 && g.num_pages == 0 && g.id_len == 0
        }),
{
}

/// Errors have the numbers that Linux gives them, and a run that failed for want of a
/// counter is told apart from other failures.
pub proof fn errors_have_their_numbers(result: Result<ExitReason, VmRunError>)
    ensures
        Errno::Enoent.number() == 2 && Errno::Eio.number() == 5 && Errno::Enomem.number() == 12,
        Errno::Efault.number() == 14 && Errno::Ebusy.number() == 16 && Errno::Enodev.number() == 19,
        Errno::Einval.number() == 22 && Errno::Enotty.number() == 25,
        Errno::Enospc.number() == 28 && Errno::Eopnotsupp.number() == 95,
        ({
            let r = handlers::run_outcome(result);
            &&& r is Refill <==> (result is Ok && result->Ok_0 is PoolExhausted)
            &&& result matches Ok(reason) ==> (!(reason is PoolExhausted) ==> r == RunOutcome::Done(
                reason,
            ))
            &&& result matches Err(e) ==> r == RunOutcome::Failed(
                if e == VmRunError::InstructionCounter(InstructionCounterError::Unavailable) {
                    Errno::Eopnotsupp
                } else {
                    Errno::Eio
                },
            )
        }),
{
}

/// An event for the guest as a number: the vector, its type from bit 8 on, bit 11 for
/// an error code, and bit 31 since it is valid; queued, it is what the next entry
/// delivers, with the error code where there is one.
pub proof fn queued_event_is_a_bit_field(info: InterruptionInfo, vmcs: Vmcs, code: Option<u32>)
    requires
        vmcs.loaded,
    ensures
        info.spec_encode() == info.vector + 0x100 * (info.interruption_type % 8) + (
        if info.deliver_error_code {
            0x800
        } else {
            0int
        }) + 0x8000_0000,
        ({
            let (after, r) = helpers::queue_event(vmcs, info, code);
            &&& r is Ok
            &&& after.get32(VmcsField32::VmEntryInterruptionInfo) == Ok::<u32, VmcsReadError>(
                info.spec_encode(),
            )
            &&& code matches Some(e) ==> after.get32(VmcsField32::VmEntryExceptionErrorCode) == Ok::<
                u32,
                VmcsReadError,
            >(e)
            &&& code is None ==> after.get32(VmcsField32::VmEntryExceptionErrorCode) == vmcs.get32(
                VmcsField32::VmEntryExceptionErrorCode,
            )
            &&& after.naturals == vmcs.naturals && after.qwords == vmcs.qwords
        }),
{
    let v = info.vector;
    let t = info.interruption_type;
    let e: u32 = if info.deliver_error_code { 0x800 } else { 0 };
    assert((v as u32) | (((t & 0x7) as u32) << 8) | e | 0x8000_0000u32 == v + 0x100 * (t % 8) + e
        + 0x8000_0000) by (bit_vector)
        requires
            e == 0 || e == 0x800,
    ;
}

/// What userspace has drained is cleared with the first entry of a command and with no
/// later one; the guest itself is untouched.
pub proof fn drained_events_are_cleared_once(session: RunSession, state: VmStateView)
    ensures
        !session.first_iteration ==> session.entering(state) == state,
        session.first_iteration && state.events.pending is None ==> session.entering(
            state,
        ).events.bytes.len() == 0,
        session.entering(state) == (VmStateView {
            events: session.entering(state).events,
            ..state
        }),
        session.entering(state).events.line == state.events.line,
        session.entering(state).events.categories == state.events.categories,
{
    reveal(EventStreamView::clear);
    reveal(EventStreamView::append);
}

/// An armed entry: the host's counter MSRs are kept by number, the entry list has nine
/// entries at the VM's page, and entry `i` has its value.
pub proof fn armed_entry_keeps_host_msrs(
    before: VmStateView,
    after: VmStateView,
    count: u64,
    bank: Map<u64, Msr>,
    i: int,
)
    requires
        before.core.pebs_state is Some,
        before.vmcs.loaded,
        before.host.pages.pebs_entry_msr_load_page.bytes@.len() == 4096,
        pebs::entry_staged(before, after, count, bank),
        0 <= i < 9,
    ensures
        ({
            let p = before.core.pebs_state->0;
            let saved = after.core.pebs_state->0.host_msrs;
            let list = before.host.pages.pebs_entry_msr_load_page;
            let page = after.host.pages.pebs_entry_msr_load_page.bytes@;
            let read = |index: u32|
                match msr::msr_get(bank, index) {
                    Ok(v) => v,
                    Err(_) => 0,
                };
            let ctrl = match before.vmcs.get64(VmcsField64::GuestIa32PerfGlobalCtrl) {
                Ok(v) => v,
                Err(_) => 0,
            };
            let loads: Seq<u64> = seq![
                count, 0, p.counter_reload, p.fixed_ctr_ctrl, p.pebs_data_cfg, p.ds_area_va,
                p.pebs_enable, p.pebs_enable, ctrl,
            ];
            &&& saved.pebs_enable == read(0x3F1) && saved.ds_area == read(0x600)
            &&& saved.fixed_ctr_ctrl == read(0x38D) && saved.fixed_ctr0 == read(0x309)
            &&& saved.pebs_data_cfg == read(0x3F2)
            &&& after.core.pebs_state->0.armed_action == p.armed_action
            &&& after.vmcs.get64(VmcsField64::VmEntryMsrLoadAddr) == Ok::<u64, VmcsReadError>(
                list.phys,
            )
            &&& after.vmcs.get32(VmcsField32::VmEntryMsrLoadCount) == Ok::<u32, VmcsReadError>(9)
            &&& page.subrange(16 * i + 8, 16 * i + 16) == bytes::le64(loads[i])
            &&& page.subrange(16 * i, 16 * i + 8) == list.bytes@.subrange(16 * i, 16 * i + 8)
            &&& after.core.gprs == before.core.gprs && after.events == before.events
        }),
{
    let list = before.host.pages.pebs_entry_msr_load_page.bytes@;
    let page = after.host.pages.pebs_entry_msr_load_page.bytes@;
    let ctrl = vm_state::qword_or_zero(before.vmcs, VmcsField64::GuestIa32PerfGlobalCtrl);
    let values = pebs::entry_values(before.core.pebs_state->0, count, ctrl);
    assert(page == vm_pages::with_values(list, values));
    assert forall|k: int| 0 <= k < 16 implies #[trigger] page[16 * i + k] == (if k >= 8 {
        bytes::le64(values[i])[k - 8]
    } else {
        list[16 * i + k]
    }) by {
        assert((16 * i + k) / 16 == i && (16 * i + k) % 16 == k);
    }
    assert(page.subrange(16 * i + 8, 16 * i + 16) =~= bytes::le64(values[i])) by {
        assert forall|k: int| 0 <= k < 8 implies page[16 * i + 8 + k] == bytes::le64(values[i])[k] by {
            assert(page[16 * i + (8 + k)] == bytes::le64(values[i])[k]);
        }
    }
    assert(page.subrange(16 * i, 16 * i + 8) =~= list.subrange(16 * i, 16 * i + 8));
}

/// A fork that fails takes nothing from the pool before the child has a page table and
/// a VMCS, and five pages once it has.
pub proof fn failed_fork_gives_pages_up<E>(
    eptp: Result<u64, E>,
    vmcs_allocated: bool,
    frames: Seq<(u64, u64)>,
)
    ensures
        ({
            let left = forked::frames_after_failed_fork(eptp, vmcs_allocated, frames);
            let ready = eptp is Ok && vmcs_allocated;
            &&& !ready ==> left == frames
            &&& ready && frames.len() < 5 ==> left.len() == 0
            &&& ready && frames.len() >= 5 ==> left == frames.take(frames.len() - 5)
        }),
{
}

/// A VM is armed while it has a precise exit in flight, and only then is the entry list
/// handed back after an exit.
pub proof fn only_armed_entries_use_the_list(core: VmCore, vmcs: Vmcs, list: Option<u64>)
    ensures
        core.is_armed() <==> (core.pebs_state is Some && core.pebs_state->0.armed_action is Some),
        vm_run::list_returned(vmcs, false, list) == vmcs,
        vm_run::list_returned(vmcs, true, list) == pebs::entry_list_returned(vmcs, list),
        forall|n: u32| #[trigger] handlers::mode_of(n) is Some <==> n <= 1,
        handlers::mode_of(0) == Some(RdrandMode::SeededRng),
        handlers::mode_of(1) == Some(RdrandMode::ExitToUserspace),
{
}

} // verus!
