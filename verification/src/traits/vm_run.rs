//! Running a VM: what happens around each VM entry.
//!
//! The loop itself belongs to the embedder, which alone can enter the guest.
//! It calls, in this order, `begin_run` and `prepare_loop`; while the loop runs,
//! for every iteration `injected` with the outcome of injecting interrupts,
//! `before_entry`, `take_invept` and the invalidation it asks for, the VM entry,
//! `leave_guest` before host interrupts are let in, `after_entry`, `handle_exit`
//! and `after_exit`; then `leave_loop` and `finish_run`. Where `injected` or
//! `after_entry` ends the loop, what is left of the iteration is not performed.
//!
//! After `begin_run`, `before_entry`, `leave_guest` and `finish_run` the embedder
//! performs the MSR writes that the bank lists.

use vstd::prelude::*;

use crate::exits::helpers::{ExitError, ExitHandlerResult};
use crate::exits::pebs;
use crate::exits::pebs::{pebs_post_vm_exit, pebs_pre_vm_entry, PERF_GLOBAL_CTRL_FIXED_CTR0};
use crate::exits::reasons::ExitReason;
use crate::exits::targets::update_mtf;
use crate::fields::{VmcsField32, VmcsField64, VmcsFieldNatural};
use crate::msr;
use crate::msr::{Msr, MsrBank, SyscallMsrs};
use crate::registers::{GeneralPurposeRegisters, VmxContext};
use crate::stats::AllExitStats;
use crate::traits::device_state::GuestMsrState;
use crate::traits::errors::{InveptError, MsrError, VmEntryError, VmRunError};
use crate::traits::instruction_counter::{InstructionCounter, InstructionCounterError};
use crate::traits::vm_context::VmContext;
use crate::vm_state;
use crate::vm_state::{
    read64_or_zero, read_natural_or_zero, VmCore, VmHost, VmState, VmStateView,
};
use crate::vmcs::Vmcs;

verus! {

/// VM-entry control: load IA32_PERF_GLOBAL_CTRL.
pub const ENTRY_LOAD_PERF_GLOBAL_CTRL: u32 = 0x2000;

/// VM-exit control: load IA32_PERF_GLOBAL_CTRL.
pub const EXIT_LOAD_PERF_GLOBAL_CTRL: u32 = 0x1000;

/// Host values that stay the same while the run loop is on one CPU.
#[derive(Debug, Clone, Copy, PartialEq, Eq, Structural)]
pub struct HostContext {
    /// CR3, if it could be read.
    pub cr3: Option<u64>,
    /// Base of the task register.
    pub tr_base: u64,
    /// Base of the global descriptor table.
    pub gdtr_base: u64,
    /// Stack pointer of the VM-exit code.
    pub rsp: u64,
}

/// Host TSC at the points of one iteration of the run loop.
#[derive(Debug, Clone, Copy, PartialEq, Eq, Structural)]
pub struct EntryTimes {
    /// Just before VM entry.
    pub pre_entry: u64,
    /// Just after VM exit.
    pub post_exit: u64,
    /// Before the window for host interrupts.
    pub pre_irq: u64,
    /// After the window for host interrupts.
    pub post_irq: u64,
    /// Before the exit handler.
    pub pre_handler: u64,
}

/// Where the run loop stands. The counter is prepared when the loop starts to
/// run and has to be restored before the loop has been left.
#[derive(Debug, Clone, Copy, PartialEq, Eq)]
pub enum LoopState {
    /// The guest is to be entered.
    Running,
    /// The loop is to be left with this outcome; the counter is still prepared.
    Leaving(Result<ExitReason, VmRunError>),
    /// The loop has been left; the counter is restored, or was never prepared.
    Left(Result<ExitReason, VmRunError>),
}

impl LoopState {
    /// The guest is to be entered.
    pub fn is_running(&self) -> (r: bool)
        ensures
            r == (*self is Running),
    {
        match self {
            LoopState::Running => true,
            _ => false,
        }
    }

    /// A running loop after a step; a step that failed or ended the run takes
    /// it to leaving.
    pub open spec fn stepped(self, step: Option<Result<ExitReason, VmRunError>>) -> Self {
        match (self, step) {
            (LoopState::Running, Some(result)) => LoopState::Leaving(result),
            _ => self,
        }
    }

    fn step(&mut self, step: Option<Result<ExitReason, VmRunError>>)
        ensures
            *final(self) == old(self).stepped(step),
    {
        if self.is_running() {
            if let Some(result) = step {
                *self = LoopState::Leaving(result);
            }
        }
    }
}

/// `a - b`, or zero.
pub open spec fn elapsed(a: u64, b: u64) -> u64 {
    if a >= b { (a - b) as u64 } else { 0 }
}

impl VmStateView {
    /// The registers have been copied to the entry code's block.
    pub open spec fn synced_to_vmx_ctx(self) -> Self {
        let g = self.core.gprs;
        self.with_vmx_ctx(
            VmxContext {
                guest_rax: g.rax,
                guest_rbx: g.rbx,
                guest_rcx: g.rcx,
                guest_rdx: g.rdx,
                guest_rsi: g.rsi,
                guest_rdi: g.rdi,
                guest_rbp: g.rbp,
                guest_r8: g.r8,
                guest_r9: g.r9,
                guest_r10: g.r10,
                guest_r11: g.r11,
                guest_r12: g.r12,
                guest_r13: g.r13,
                guest_r14: g.r14,
                guest_r15: g.r15,
                guest_xsave_ptr: self.host.pages.guest_xsave_page.virt,
                host_xsave_ptr: self.host.pages.host_xsave_page.virt,
                xcr0_mask: self.core.xcr0_mask,
                launched: self.host.vmx_ctx.launched,
            },
        )
    }

    /// The state with another register context of the entry code.
    pub open spec fn with_vmx_ctx(self, vmx_ctx: VmxContext) -> Self {
        VmStateView { host: VmHost { vmx_ctx, ..self.host }, ..self }
    }

    /// The registers have been copied from the entry code's block. RSP lives
    /// in the VMCS.
    pub open spec fn synced_from_vmx_ctx(self) -> Self {
        let v = self.host.vmx_ctx;
        let c = self.core;
        let gprs = GeneralPurposeRegisters {
            rax: v.guest_rax,
            rbx: v.guest_rbx,
            rcx: v.guest_rcx,
            rdx: v.guest_rdx,
            rsi: v.guest_rsi,
            rdi: v.guest_rdi,
            rbp: v.guest_rbp,
            r8: v.guest_r8,
            r9: v.guest_r9,
            r10: v.guest_r10,
            r11: v.guest_r11,
            r12: v.guest_r12,
            r13: v.guest_r13,
            r14: v.guest_r14,
            r15: v.guest_r15,
            rsp: c.gprs.rsp,
        };
        self.with_core(VmCore { gprs, ..c })
    }
}

impl VmCore {
    /// A precise exit is armed.
    pub open spec fn is_armed(self) -> bool {
        match self.pebs_state {
            Some(p) => p.armed_action is Some,
            None => false,
        }
    }
}

/// Copy the registers to the entry code's block.
pub fn sync_gprs_to_vmx_ctx(state: &mut VmState)
    requires
        old(state).wf(),
    ensures
        final(state).wf(),
        final(state)@ == old(state)@.synced_to_vmx_ctx(),
{
    let g: GeneralPurposeRegisters = state.core.gprs;
    let launched: u64 = state.host.vmx_ctx.launched;
    state.host.vmx_ctx = VmxContext {
        guest_rax: g.rax,
        guest_rbx: g.rbx,
        guest_rcx: g.rcx,
        guest_rdx: g.rdx,
        guest_rsi: g.rsi,
        guest_rdi: g.rdi,
        guest_rbp: g.rbp,
        guest_r8: g.r8,
        guest_r9: g.r9,
        guest_r10: g.r10,
        guest_r11: g.r11,
        guest_r12: g.r12,
        guest_r13: g.r13,
        guest_r14: g.r14,
        guest_r15: g.r15,
        guest_xsave_ptr: state.host.pages.guest_xsave_page.virt,
        host_xsave_ptr: state.host.pages.host_xsave_page.virt,
        xcr0_mask: state.core.xcr0_mask,
        launched,
    };
}

/// Copy the registers from the entry code's block.
pub fn sync_gprs_from_vmx_ctx(state: &mut VmState)
    requires
        old(state).wf(),
    ensures
        final(state).wf(),
        final(state)@ == old(state)@.synced_from_vmx_ctx(),
{
    let v: VmxContext = state.host.vmx_ctx;
    let rsp: u64 = state.core.gprs.rsp;
    state.core.gprs = GeneralPurposeRegisters {
        rax: v.guest_rax,
        rbx: v.guest_rbx,
        rcx: v.guest_rcx,
        rdx: v.guest_rdx,
        rsi: v.guest_rsi,
        rdi: v.guest_rdi,
        rbp: v.guest_rbp,
        r8: v.guest_r8,
        r9: v.guest_r9,
        r10: v.guest_r10,
        r11: v.guest_r11,
        r12: v.guest_r12,
        r13: v.guest_r13,
        r14: v.guest_r14,
        r15: v.guest_r15,
        rsp,
    };
}

/// A guest that touches no register gets back the registers it was entered
/// with.
pub proof fn registers_survive_entry(state: VmStateView)
    ensures
        state.synced_to_vmx_ctx().synced_from_vmx_ctx().core == state.core,
{
}

impl VmStateView {
    /// Translations cached on this CPU may be out of date.
    pub open spec fn needs_invept(self, cpu: u32) -> bool {
        self.host.last_cpu != Some(cpu)
    }

    /// The state and the outcome at the start of a run on `cpu`.
    pub open spec fn begin_run(
        self,
        loaded: Result<(), &'static str>,
        cpu: u32,
        invept: Result<(), InveptError>,
    ) -> (Self, Result<(), VmRunError>) {
        match loaded {
            Err(e) => (self, Err(VmRunError::VmcsLoad(e))),
            Ok(_) => {
                let vmcs = Vmcs { loaded: true, ..self.vmcs };
                if self.needs_invept(cpu) && invept is Err {
                    (
                        self.with_vmcs(vmcs),
                        Err(VmRunError::InveptFailed(invept->Err_0)),
                    )
                } else {
                    let (state, r) = VmStateView {
                        vmcs,
                        host: VmHost { last_cpu: Some(cpu), ..self.host },
                        ..self
                    }.apply_intercept_pf().update_mtf();
                    (
                        state,
                        match r {
                            Ok(_) => Ok(()),
                            Err(e) => Err(VmRunError::ExitHandler(e)),
                        },
                    )
                }
            },
        }
    }
}

/// Whether translations cached on this CPU have to be dropped before the guest is
/// entered, because a page has been copied. The caller drops them.
pub fn take_invept(state: &mut VmState) -> (due: bool)
    requires
        old(state).wf(),
    ensures
        final(state).wf(),
        due == old(state)@.host.invept_due,
        final(state)@ == (VmStateView {
            host: VmHost { invept_due: false, ..old(state)@.host },
            ..old(state)@
        }),
{
    let due: bool = state.host.invept_due;
    state.host.invept_due = false;
    due
}

/// Whether translations cached on this CPU have to be dropped before the VM
/// runs on it.
pub fn needs_invept(state: &VmState, cpu: u32) -> (r: bool)
    ensures
        r == state@.needs_invept(cpu),
{
    match state.host.last_cpu {
        Some(last) => last != cpu,
        None => true,
    }
}

fn enter_cpu(
    state: &mut VmState,
    loaded: Result<(), &'static str>,
    cpu: u32,
    invept: Result<(), InveptError>,
) -> (r: Result<(), VmRunError>)
    requires
        old(state).wf(),
    ensures
        final(state).wf(),
        (final(state)@, r) == old(state)@.begin_run(loaded, cpu, invept),
{
    match loaded {
        Ok(_) => {},
        Err(e) => {
            return Err(VmRunError::VmcsLoad(e));
        },
    }
    state.vmcs.loaded = true;
    if needs_invept(state, cpu) {
        match invept {
            Ok(_) => {},
            Err(e) => {
                return Err(VmRunError::InveptFailed(e));
            },
        }
    }
    state.host.last_cpu = Some(cpu);
    state.apply_intercept_pf();
    match update_mtf(state) {
        Ok(_) => Ok(()),
        Err(e) => Err(VmRunError::ExitHandler(e)),
    }
}

/// Begin a run on `cpu`, with the outcome of loading the VMCS and, where
/// `needs_invept` asks for it, of dropping cached translations. The guest's
/// SYSCALL MSRs are loaded, but after an error the host's are back. The result
/// holds the host's IA32_KERNEL_GS_BASE.
pub fn begin_run<C: VmContext>(
    ctx: &mut C,
    msr_access: &mut MsrBank,
    loaded: Result<(), &'static str>,
    cpu: u32,
    invept: Result<(), InveptError>,
) -> (r: Result<u64, VmRunError>)
    requires
        old(ctx).wf(),
        old(msr_access).wf(),
    ensures
        final(ctx).wf(),
        final(ctx).child_count() == old(ctx).child_count(),
        final(msr_access).wf(),
        ({
            let before = old(ctx).vm().state;
            let (state, outcome) = before.begin_run(loaded, cpu, invept);
            let host_gs = msr::msr_or_zero(old(msr_access)@, msr::IA32_KERNEL_GS_BASE);
            let guest_bank = before.core.msr_state.syscall.loaded(old(msr_access)@);
            &&& final(ctx).vm() == old(ctx).vm().with_state(state)
            &&& match outcome {
                Ok(_) => {
                    &&& r == Ok::<u64, VmRunError>(host_gs)
                    &&& final(msr_access)@ == guest_bank
                    &&& final(msr_access).writes() == old(msr_access).writes()
                        + before.core.msr_state.syscall.load_writes()
                },
                Err(e) => {
                    &&& r == Err::<u64, VmRunError>(e)
                    &&& final(msr_access)@ == host_msrs_loaded(before.host, guest_bank, host_gs)
                    &&& final(msr_access).writes() == old(msr_access).writes()
                        + before.core.msr_state.syscall.load_writes() + host_msr_writes(
                        before.host,
                        host_gs,
                    )
                },
            }
        }),
{
    let host_kernel_gs_base: u64 = msr_access.read_or_zero(msr::IA32_KERNEL_GS_BASE);
    ctx.state().core.msr_state.syscall.load(msr_access);
    match enter_cpu(ctx.state_mut(), loaded, cpu, invept) {
        Ok(_) => Ok(host_kernel_gs_base),
        Err(e) => {
            ctx.state().host.host_state.syscall_msrs.load(msr_access);
            let _ = msr_access.write_msr(msr::IA32_KERNEL_GS_BASE, host_kernel_gs_base);
            Err(e)
        },
    }
}

/// The host fields of the VMCS, in the order they are written; the first one
/// that cannot be written ends the sequence.
pub open spec fn host_fields_written(vmcs: Vmcs, host: HostContext, bank: Map<u64, Msr>) -> (
    Vmcs,
    Result<(), VmRunError>,
) {
    match host.cr3 {
        None => (vmcs, Err(VmRunError::ReadHostCr3)),
        Some(cr3) => match vmcs.put_natural(VmcsFieldNatural::HostCr3, cr3) {
            (v1, Err(e)) => (v1, Err(VmRunError::WriteHostCr3(e))),
            (v1, Ok(_)) => match v1.put_natural(
                VmcsFieldNatural::HostFsBase,
                msr::msr_or_zero(bank, msr::IA32_FS_BASE),
            ) {
                (v2, Err(e)) => (v2, Err(VmRunError::WriteHostFsBase(e))),
                (v2, Ok(_)) => match v2.put_natural(
                    VmcsFieldNatural::HostGsBase,
                    msr::msr_or_zero(bank, msr::IA32_GS_BASE),
                ) {
                    (v3, Err(e)) => (v3, Err(VmRunError::WriteHostGsBase(e))),
                    (v3, Ok(_)) => descriptor_fields_written(v3, host),
                },
            },
        },
    }
}

/// The last three host fields.
pub open spec fn descriptor_fields_written(vmcs: Vmcs, host: HostContext) -> (
    Vmcs,
    Result<(), VmRunError>,
) {
    match vmcs.put_natural(VmcsFieldNatural::HostTrBase, host.tr_base) {
        (v1, Err(e)) => (v1, Err(VmRunError::WriteHostTrBase(e))),
        (v1, Ok(_)) => match v1.put_natural(VmcsFieldNatural::HostGdtrBase, host.gdtr_base) {
            (v2, Err(e)) => (v2, Err(VmRunError::WriteHostGdtrBase(e))),
            (v2, Ok(_)) => match v2.put_natural(VmcsFieldNatural::HostRsp, host.rsp) {
                (v3, Err(e)) => (v3, Err(VmRunError::WriteHostRsp(e))),
                (v3, Ok(_)) => (v3, Ok(())),
            },
        },
    }
}

fn write_descriptor_fields(vmcs: &mut Vmcs, host: &HostContext) -> (r: Result<(), VmRunError>)
    ensures
        (*final(vmcs), r) == descriptor_fields_written(*old(vmcs), *host),
{
    match vmcs.write_natural(VmcsFieldNatural::HostTrBase, host.tr_base) {
        Ok(_) => {},
        Err(e) => {
            return Err(VmRunError::WriteHostTrBase(e));
        },
    }
    match vmcs.write_natural(VmcsFieldNatural::HostGdtrBase, host.gdtr_base) {
        Ok(_) => {},
        Err(e) => {
            return Err(VmRunError::WriteHostGdtrBase(e));
        },
    }
    match vmcs.write_natural(VmcsFieldNatural::HostRsp, host.rsp) {
        Ok(_) => Ok(()),
        Err(e) => Err(VmRunError::WriteHostRsp(e)),
    }
}

/// Write the host fields of the VMCS.
pub fn write_host_fields(vmcs: &mut Vmcs, host: &HostContext, msr_access: &MsrBank) -> (r: Result<
    (),
    VmRunError,
>)
    requires
        msr_access.wf(),
    ensures
        (*final(vmcs), r) == host_fields_written(*old(vmcs), *host, msr_access@),
{
    let cr3: u64 = match host.cr3 {
        Some(cr3) => cr3,
        None => {
            return Err(VmRunError::ReadHostCr3);
        },
    };
    match vmcs.write_natural(VmcsFieldNatural::HostCr3, cr3) {
        Ok(_) => {},
        Err(e) => {
            return Err(VmRunError::WriteHostCr3(e));
        },
    }
    let fs_base: u64 = msr_access.read_or_zero(msr::IA32_FS_BASE);
    match vmcs.write_natural(VmcsFieldNatural::HostFsBase, fs_base) {
        Ok(_) => {},
        Err(e) => {
            return Err(VmRunError::WriteHostFsBase(e));
        },
    }
    let gs_base: u64 = msr_access.read_or_zero(msr::IA32_GS_BASE);
    match vmcs.write_natural(VmcsFieldNatural::HostGsBase, gs_base) {
        Ok(_) => {},
        Err(e) => {
            return Err(VmRunError::WriteHostGsBase(e));
        },
    }
    write_descriptor_fields(vmcs, host)
}

/// The VMCS with the counter's MSR saved on exit and reloaded on entry.
pub open spec fn counter_lists_written(vmcs: Vmcs, entry_phys: Option<u64>) -> Vmcs {
    match entry_phys {
        Some(phys) => vmcs.put64(VmcsField64::VmExitMsrStoreAddr, phys).0.put32(
            VmcsField32::VmExitMsrStoreCount,
            1,
        ).0.put64(VmcsField64::VmEntryMsrLoadAddr, phys).0.put32(
            VmcsField32::VmEntryMsrLoadCount,
            1,
        ).0,
        None => vmcs,
    }
}

/// A control field with `bit` set, if it can be read.
pub open spec fn with_control(vmcs: Vmcs, field: VmcsField32, bit: u32) -> Vmcs {
    match vmcs.get32(field) {
        Ok(v) => vmcs.put32(field, v | bit).0,
        Err(_) => vmcs,
    }
}

/// The VMCS with the counters switched on entry and exit. Once a scratch page
/// is registered the guest value also runs the counter of precise exits.
pub open spec fn counter_switch_written(
    vmcs: Vmcs,
    global_ctrl: Option<(u64, u64)>,
    pebs_registered: bool,
) -> Vmcs {
    match global_ctrl {
        Some((guest, host)) => with_control(
            with_control(
                vmcs.put64(
                    VmcsField64::GuestIa32PerfGlobalCtrl,
                    if pebs_registered { guest | PERF_GLOBAL_CTRL_FIXED_CTR0 } else { guest },
                ).0.put64(VmcsField64::HostIa32PerfGlobalCtrl, host).0,
                VmcsField32::VmEntryControls,
                ENTRY_LOAD_PERF_GLOBAL_CTRL,
            ),
            VmcsField32::PrimaryVmExitControls,
            EXIT_LOAD_PERF_GLOBAL_CTRL,
        ),
        None => vmcs,
    }
}

fn set_control(vmcs: &mut Vmcs, field: VmcsField32, bit: u32)
    ensures
        *final(vmcs) == with_control(*old(vmcs), field, bit),
{
    match vmcs.read32(field) {
        Ok(v) => {
            let _ = vmcs.write32(field, v | bit);
        },
        Err(_) => {},
    }
}

/// Have the processor switch the instruction counter around guest execution.
pub fn configure_counter<I: InstructionCounter>(vmcs: &mut Vmcs, counter: &I, pebs_registered: bool)
    ensures
        *final(vmcs) == counter_switch_written(
            counter_lists_written(*old(vmcs), counter.entry_phys()),
            counter.global_ctrl(),
            pebs_registered,
        ),
{
    match counter.msr_save_load_entry_phys() {
        Some(phys) => {
            let _ = vmcs.write64(VmcsField64::VmExitMsrStoreAddr, phys);
            let _ = vmcs.write32(VmcsField32::VmExitMsrStoreCount, 1);
            let _ = vmcs.write64(VmcsField64::VmEntryMsrLoadAddr, phys);
            let _ = vmcs.write32(VmcsField32::VmEntryMsrLoadCount, 1);
        },
        None => {},
    }
    match counter.perf_global_ctrl_values() {
        Some((guest, host)) => {
            let guest_val: u64 = if pebs_registered {
                guest | PERF_GLOBAL_CTRL_FIXED_CTR0
            } else {
                guest
            };
            let _ = vmcs.write64(VmcsField64::GuestIa32PerfGlobalCtrl, guest_val);
            let _ = vmcs.write64(VmcsField64::HostIa32PerfGlobalCtrl, host);
            set_control(vmcs, VmcsField32::VmEntryControls, ENTRY_LOAD_PERF_GLOBAL_CTRL);
            set_control(vmcs, VmcsField32::PrimaryVmExitControls, EXIT_LOAD_PERF_GLOBAL_CTRL);
        },
        None => {},
    }
}

/// Prepare the run loop: host fields, instruction counter, counter switching.
/// Whether the counter can be prepared is its own matter; if it cannot, the loop
/// has been left already.
pub fn prepare_loop<C: VmContext, I: InstructionCounter>(
    ctx: &mut C,
    counter: &mut I,
    msr_access: &MsrBank,
    host: &HostContext,
) -> (lp: LoopState)
    requires
        old(ctx).wf(),
        old(counter).valid(),
        msr_access.wf(),
    ensures
        final(ctx).wf(),
        final(ctx).child_count() == old(ctx).child_count(),
        final(counter).valid(),
        ({
            let vm = old(ctx).vm();
            let c = vm.state.core;
            let (written, outcome) = host_fields_written(vm.state.vmcs, *host, msr_access@);
            match outcome {
                Err(e) => lp == LoopState::Left(Err(e)) && *final(counter) == *old(counter)
                    && final(ctx).vm() == vm.with_state(vm.state.with_vmcs(written)),
                Ok(_) => match lp {
                    LoopState::Running => {
                        &&& old(counter).prepares(&*final(counter), Ok(()))
                        &&& final(counter).configured() ==> final(counter).active()
                        &&& final(ctx).vm() == vm.with_state(
                            vm.state.with_vmcs(
                                counter_switch_written(
                                    counter_lists_written(written, final(counter).entry_phys()),
                                    final(counter).global_ctrl(),
                                    c.pebs_state is Some,
                                ),
                            ),
                        )
                    },
                    LoopState::Left(Err(VmRunError::InstructionCounter(e))) => {
                        &&& old(counter).prepares(&*final(counter), Err(e))
                        &&& final(ctx).vm() == vm.with_state(vm.state.with_vmcs(written))
                    },
                    _ => false,
                },
            }
        }),
{
    match write_host_fields(&mut ctx.state_mut().vmcs, host, msr_access) {
        Ok(_) => {},
        Err(e) => {
            return LoopState::Left(Err(e));
        },
    }
    match counter.prepare() {
        Ok(done) => {
            assert(done == ());
        },
        Err(e) => {
            return LoopState::Left(Err(VmRunError::InstructionCounter(e)));
        },
    }
    let pebs_registered: bool = ctx.state().core.pebs_state.is_some();
    configure_counter(&mut ctx.state_mut().vmcs, counter, pebs_registered);
    LoopState::Running
}

/// Take the outcome of injecting pending interrupts.
pub fn injected(lp: &mut LoopState, result: Result<(), ExitError>)
    ensures
        *final(lp) == old(lp).stepped(
            match result {
                Ok(_) => None,
                Err(e) => Some(Err(VmRunError::ExitHandler(e))),
            },
        ),
{
    match result {
        Ok(_) => {},
        Err(e) => {
            lp.step(Some(Err(VmRunError::ExitHandler(e))));
        },
    }
}

impl VmStateView {
    /// Registers copied and the time before entry counted.
    pub open spec fn readied(self, loop_start: u64, pre_entry: u64) -> Self {
        let s = self.host.exit_stats;
        self.synced_to_vmx_ctx().with_stats(
            AllExitStats {
                vmentry_overhead_cycles: s.vmentry_overhead_cycles.wrapping_add(
                    elapsed(pre_entry, loop_start),
                ),
                ..s
            },
        )
    }
}

fn ready(state: &mut VmState, loop_start: u64, pre_entry: u64)
    requires
        old(state).wf(),
    ensures
        final(state).wf(),
        final(state)@ == old(state)@.readied(loop_start, pre_entry),
{
    sync_gprs_to_vmx_ctx(state);
    let spent: u64 = pre_entry.saturating_sub(loop_start);
    let total: u64 = state.host.exit_stats.vmentry_overhead_cycles.wrapping_add(spent);
    state.host.exit_stats.vmentry_overhead_cycles = total;
}

/// Whether a precise exit is armed.
pub fn is_armed(state: &VmState) -> (r: bool)
    ensures
        r == state@.core.is_armed(),
{
    match &state.core.pebs_state {
        Some(p) => p.armed_action.is_some(),
        None => false,
    }
}

/// Make ready for VM entry: registers, the guest's IA32_KERNEL_GS_BASE, and the
/// counter MSRs of an armed precise exit. Returns whether one is armed, which
/// `leave_guest` has to be told.
pub fn before_entry<C: VmContext, I: InstructionCounter>(
    ctx: &mut C,
    counter: &I,
    msr_access: &mut MsrBank,
    loop_start: u64,
    pre_entry: u64,
) -> (armed: bool)
    requires
        old(ctx).wf(),
        old(msr_access).wf(),
    ensures
        final(ctx).wf(),
        final(ctx).child_count() == old(ctx).child_count(),
        final(msr_access).wf(),
        ({
            let vm = old(ctx).vm();
            let c = vm.state.core;
            let readied = vm.state.readied(loop_start, pre_entry);
            &&& armed == c.is_armed()
            &&& final(msr_access)@ == msr::msr_put(
                old(msr_access)@,
                msr::IA32_KERNEL_GS_BASE,
                c.kernel_gs_base,
            )
            &&& final(msr_access).writes() == old(msr_access).writes().push(
                (msr::IA32_KERNEL_GS_BASE, c.kernel_gs_base),
            )
            &&& final(ctx).vm().mem == vm.mem
            &&& if armed {
                pebs::entry_staged(
                    readied,
                    final(ctx).vm().state,
                    counter.count(),
                    final(msr_access)@,
                )
            } else {
                final(ctx).vm().state == readied
            }
        }),
{
    ready(ctx.state_mut(), loop_start, pre_entry);
    let guest_gs: u64 = ctx.state().core.kernel_gs_base;
    let _ = msr_access.write_msr(msr::IA32_KERNEL_GS_BASE, guest_gs);
    let armed: bool = is_armed(ctx.state());
    if armed {
        pebs_pre_vm_entry(ctx, counter, msr_access);
    }
    armed
}

impl VmStateView {
    /// The state right after a VM exit: the guest's IA32_KERNEL_GS_BASE and the
    /// time in the guest have been noted.
    pub open spec fn left_guest(self, kernel_gs_base: u64, pre_entry: u64, post_exit: u64) -> Self {
        let s = self.host.exit_stats;
        self.with_core(VmCore { kernel_gs_base, ..self.core }).with_stats(
            AllExitStats {
                guest_cycles: s.guest_cycles.wrapping_add(elapsed(post_exit, pre_entry)),
                ..s
            },
        )
    }

    /// The state after the window for host interrupts: the instruction count and
    /// the time in the window have been noted.
    pub open spec fn noted(self, count: u64, t: EntryTimes) -> Self {
        let s = self.host.exit_stats;
        self.with_core(VmCore { last_instruction_count: count, ..self.core }).with_stats(
            AllExitStats {
                irq_window_cycles: s.irq_window_cycles.wrapping_add(
                    elapsed(t.post_irq, t.pre_irq),
                ),
                ..s
            },
        )
    }

    /// Registers copied back and the time up to the handler counted, without
    /// the window for host interrupts.
    pub open spec fn resumed(self, t: EntryTimes) -> Self {
        let s = self.host.exit_stats;
        self.synced_from_vmx_ctx().with_stats(
            AllExitStats {
                vmexit_overhead_cycles: s.vmexit_overhead_cycles.wrapping_add(
                    elapsed(
                        elapsed(t.pre_handler, t.post_exit),
                        elapsed(t.post_irq, t.pre_irq),
                    ),
                ),
                ..s
            },
        )
    }
}

fn note_guest(state: &mut VmState, kernel_gs_base: u64, pre_entry: u64, post_exit: u64)
    requires
        old(state).wf(),
    ensures
        final(state).wf(),
        final(state)@ == old(state)@.left_guest(kernel_gs_base, pre_entry, post_exit),
{
    state.core.kernel_gs_base = kernel_gs_base;
    let guest: u64 = state.host.exit_stats.guest_cycles.wrapping_add(
        post_exit.saturating_sub(pre_entry),
    );
    state.host.exit_stats.guest_cycles = guest;
}

fn note_exit(state: &mut VmState, count: u64, times: &EntryTimes)
    requires
        old(state).wf(),
    ensures
        final(state).wf(),
        final(state)@ == old(state)@.noted(count, *times),
{
    state.core.last_instruction_count = count;
    let window: u64 = state.host.exit_stats.irq_window_cycles.wrapping_add(
        times.post_irq.saturating_sub(times.pre_irq),
    );
    state.host.exit_stats.irq_window_cycles = window;
}

fn resume(state: &mut VmState, times: &EntryTimes)
    requires
        old(state).wf(),
    ensures
        final(state).wf(),
        final(state)@ == old(state)@.resumed(*times),
{
    sync_gprs_from_vmx_ctx(state);
    let overhead: u64 = times.pre_handler.saturating_sub(times.post_exit);
    let window: u64 = times.post_irq.saturating_sub(times.pre_irq);
    let total: u64 = state.host.exit_stats.vmexit_overhead_cycles.wrapping_add(
        overhead.saturating_sub(window),
    );
    state.host.exit_stats.vmexit_overhead_cycles = total;
}

/// The VMCS with the VM-entry list handed back, if this entry was armed.
pub open spec fn list_returned(vmcs: Vmcs, armed: bool, counter_list: Option<u64>) -> Vmcs {
    if armed {
        pebs::entry_list_returned(vmcs, counter_list)
    } else {
        vmcs
    }
}

/// The MSRs after the host's counter MSRs are back, if this entry was armed.
pub open spec fn counters_restored(bank: Map<u64, Msr>, core: VmCore, armed: bool) -> Map<
    u64,
    Msr,
> {
    if armed {
        pebs::restored_host_msrs(bank, core.pebs_state->0.host_msrs)
    } else {
        bank
    }
}

/// The writes that give the host its MSRs back after a VM entry.
pub open spec fn leaving_writes(core: VmCore, armed: bool, host_gs: u64) -> Seq<(u32, u64)> {
    let counters = if armed {
        pebs::restoring_writes(core.pebs_state->0.host_msrs)
    } else {
        Seq::empty()
    };
    counters.push((msr::IA32_KERNEL_GS_BASE, host_gs))
}

/// After a VM entry the host's IA32_KERNEL_GS_BASE is back on the processor, and
/// after an armed one its counter MSRs are too.
pub proof fn leaving_restores_host_msrs(
    core: VmCore,
    armed: bool,
    cpu: Map<u64, Msr>,
    host_gs: u64,
)
    requires
        msr::msr_writable(cpu, msr::IA32_KERNEL_GS_BASE),
    ensures
        ({
            let after = msr::performed(cpu, leaving_writes(core, armed, host_gs));
            &&& after == msr::msr_put(
                counters_restored(cpu, core, armed),
                msr::IA32_KERNEL_GS_BASE,
                host_gs,
            )
            &&& msr::msr_get(after, msr::IA32_KERNEL_GS_BASE) == Ok::<
                u64,
                MsrError,
            >(host_gs)
        }),
{
    let saved = core.pebs_state->0.host_msrs;
    let counters = if armed { pebs::restoring_writes(saved) } else { Seq::empty() };
    pebs::restoring_writes_restore(cpu, saved);
    msr::performed_push(cpu, counters, msr::IA32_KERNEL_GS_BASE, host_gs);
}

/// Take the guest's MSRs over right after a VM entry, before host interrupts are
/// let in, and restore the host's. `armed` is what `before_entry` returned.
pub fn leave_guest<C: VmContext, I: InstructionCounter>(
    ctx: &mut C,
    counter: &I,
    msr_access: &mut MsrBank,
    host_kernel_gs_base: u64,
    armed: bool,
    pre_entry: u64,
    post_exit: u64,
)
    requires
        old(ctx).wf(),
        old(msr_access).wf(),
        armed ==> old(ctx).vm().state.core.pebs_state is Some,
    ensures
        final(ctx).wf(),
        final(ctx).child_count() == old(ctx).child_count(),
        final(msr_access).wf(),
        ({
            let vm = old(ctx).vm();
            let bank = counters_restored(old(msr_access)@, vm.state.core, armed);
            &&& final(msr_access)@ == msr::msr_put(
                bank,
                msr::IA32_KERNEL_GS_BASE,
                host_kernel_gs_base,
            )
            &&& final(msr_access).writes() == old(msr_access).writes() + leaving_writes(
                vm.state.core,
                armed,
                host_kernel_gs_base,
            )
            &&& final(ctx).vm() == vm.with_state(
                vm.state.with_vmcs(
                    list_returned(vm.state.vmcs, armed, counter.entry_phys()),
                ).left_guest(
                    msr::msr_or_zero(bank, msr::IA32_KERNEL_GS_BASE),
                    pre_entry,
                    post_exit,
                ),
            )
        }),
{
    if armed {
        pebs_post_vm_exit(ctx, counter, msr_access);
    }
    let kernel_gs_base: u64 = msr_access.read_or_zero(msr::IA32_KERNEL_GS_BASE);
    let _ = msr_access.write_msr(msr::IA32_KERNEL_GS_BASE, host_kernel_gs_base);
    note_guest(ctx.state_mut(), kernel_gs_base, pre_entry, post_exit);
}

/// Take the guest's registers over after a VM entry with outcome `entered`, once
/// the window for host interrupts has closed. A failed entry ends the loop.
pub fn after_entry<C: VmContext, I: InstructionCounter>(
    ctx: &mut C,
    counter: &I,
    lp: &mut LoopState,
    times: &EntryTimes,
    entered: Result<(), VmEntryError>,
)
    requires
        old(ctx).wf(),
    ensures
        final(ctx).wf(),
        final(ctx).child_count() == old(ctx).child_count(),
        ({
            let vm = old(ctx).vm();
            let noted = vm.state.noted(counter.count(), *times);
            match entered {
                Ok(_) => *final(lp) == *old(lp) && final(ctx).vm() == vm.with_state(
                    noted.resumed(*times),
                ),
                Err(e) => *final(lp) == old(lp).stepped(Some(Err(VmRunError::VmEntry(e))))
                    && final(ctx).vm() == vm.with_state(noted),
            }
        }),
{
    let count: u64 = counter.read();
    note_exit(ctx.state_mut(), count, times);
    match entered {
        Ok(_) => {
            resume(ctx.state_mut(), times);
        },
        Err(e) => {
            lp.step(Some(Err(VmRunError::VmEntry(e))));
        },
    }
}

/// With what the loop is left after an exit with the given outcome, if it is.
pub open spec fn next_step(result: ExitHandlerResult, need_resched: bool) -> Option<
    Result<ExitReason, VmRunError>,
> {
    match result {
        ExitHandlerResult::Continue => if need_resched {
            Some(Ok(ExitReason::NeedResched))
        } else {
            None
        },
        ExitHandlerResult::ExitToUserspace(reason) => Some(Ok(reason)),
        ExitHandlerResult::Error(e) => Some(Err(VmRunError::ExitHandler(e))),
    }
}

impl VmStateView {
    /// The time of one iteration has been counted.
    pub open spec fn iterated(self, loop_start: u64, loop_end: u64) -> Self {
        let s = self.host.exit_stats;
        self.with_stats(
            AllExitStats {
                total_run_cycles: s.total_run_cycles.wrapping_add(elapsed(loop_end, loop_start)),
                ..s
            },
        )
    }
}

/// Complete the exit record and decide whether the loop goes on. After an error
/// the record stays as it is.
pub fn after_exit<C: VmContext>(
    ctx: &mut C,
    lp: &mut LoopState,
    result: ExitHandlerResult,
    need_resched: bool,
    loop_start: u64,
    loop_end: u64,
)
    requires
        old(ctx).wf(),
    ensures
        final(ctx).wf(),
        final(ctx).child_count() == old(ctx).child_count(),
        *final(lp) == old(lp).stepped(next_step(result, need_resched)),
        ({
            let vm = if result is Error {
                old(ctx).vm()
            } else {
                old(ctx).vm().finalize_exit_record()
            };
            final(ctx).vm() == vm.with_state(vm.state.iterated(loop_start, loop_end))
        }),
{
    match result {
        ExitHandlerResult::Error(_) => {},
        _ => {
            ctx.finalize_exit_record();
        },
    }
    let spent: u64 = loop_end.saturating_sub(loop_start);
    let state = ctx.state_mut();
    let total: u64 = state.host.exit_stats.total_run_cycles.wrapping_add(spent);
    state.host.exit_stats.total_run_cycles = total;
    match result {
        ExitHandlerResult::Continue => {
            if need_resched {
                lp.step(Some(Ok(ExitReason::NeedResched)));
            }
        },
        ExitHandlerResult::ExitToUserspace(reason) => {
            lp.step(Some(Ok(reason)));
        },
        ExitHandlerResult::Error(e) => {
            lp.step(Some(Err(VmRunError::ExitHandler(e))));
        },
    }
}

impl VmStateView {
    /// The exit information that userspace sees has been saved.
    pub open spec fn exit_info_saved(self) -> Self {
        self.with_core(
            VmCore {
                last_exit_qualification: vm_state::natural_or_zero(
                    self.vmcs,
                    VmcsFieldNatural::ExitQualification,
                ),
                last_guest_physical_addr: vm_state::qword_or_zero(
                    self.vmcs,
                    VmcsField64::GuestPhysicalAddr,
                ),
                ..self.core
            },
        )
    }
}

/// The outcome of the loop, unless restoring the counter failed.
pub open spec fn loop_outcome(
    finished: Result<(), InstructionCounterError>,
    result: Result<ExitReason, VmRunError>,
) -> Result<ExitReason, VmRunError> {
    match finished {
        Ok(_) => result,
        Err(e) => Err(VmRunError::InstructionCounter(e)),
    }
}

/// Save the exit information and settle the outcome of the loop, given that of
/// restoring the instruction counter.
pub fn settle_loop(
    state: &mut VmState,
    finished: Result<(), InstructionCounterError>,
    result: Result<ExitReason, VmRunError>,
) -> (r: Result<ExitReason, VmRunError>)
    requires
        old(state).wf(),
    ensures
        final(state).wf(),
        final(state)@ == old(state)@.exit_info_saved(),
        r == loop_outcome(finished, result),
{
    let qualification: u64 = read_natural_or_zero(
        &state.vmcs,
        VmcsFieldNatural::ExitQualification,
    );
    let gpa: u64 = read64_or_zero(&state.vmcs, VmcsField64::GuestPhysicalAddr);
    state.core.last_exit_qualification = qualification;
    state.core.last_guest_physical_addr = gpa;
    match finished {
        Ok(_) => result,
        Err(e) => Err(VmRunError::InstructionCounter(e)),
    }
}

/// The counter was restored, and the loop, which was to be left with `result`,
/// has been left with `outcome`: the same, unless restoring the counter failed.
pub open spec fn loop_left<I: InstructionCounter>(
    before: I,
    after: I,
    result: Result<ExitReason, VmRunError>,
    outcome: Result<ExitReason, VmRunError>,
) -> bool {
    ||| before.finishes(&after, Ok(())) && !after.active() && outcome == loop_outcome(
        Ok(()),
        result,
    )
    ||| outcome matches Err(VmRunError::InstructionCounter(e)) && before.finishes(
        &after,
        Err(e),
    )
}

/// Leave the run loop: the counter is restored, if it was prepared. Whether it can
/// be is its own matter; if it cannot, that is the outcome.
pub fn leave_loop<C: VmContext, I: InstructionCounter>(
    ctx: &mut C,
    counter: &mut I,
    lp: &mut LoopState,
)
    requires
        old(ctx).wf(),
        old(counter).valid(),
        !(*old(lp) is Running),
    ensures
        final(ctx).wf(),
        final(ctx).child_count() == old(ctx).child_count(),
        final(counter).valid(),
        *final(lp) is Left,
        match *old(lp) {
            LoopState::Leaving(result) => {
                &&& final(ctx).vm() == old(ctx).vm().with_state(
                    old(ctx).vm().state.exit_info_saved(),
                )
                &&& loop_left(*old(counter), *final(counter), result, final(lp)->Left_0)
            },
            _ => *final(lp) == *old(lp) && *final(counter) == *old(counter) && final(ctx).vm()
                == old(ctx).vm(),
        },
{
    match *lp {
        LoopState::Leaving(result) => {
            let finished: Result<(), InstructionCounterError> = counter.finish();
            assert(finished is Ok ==> finished->Ok_0 == ());
            *lp = LoopState::Left(settle_loop(ctx.state_mut(), finished, result));
        },
        _ => {},
    }
}

/// One step of the run loop, from one state of loop and counter to the next. Only
/// leaving the loop touches the counter.
pub open spec fn loop_step<I: InstructionCounter>(
    before: (LoopState, I),
    after: (LoopState, I),
) -> bool {
    match (before.0, after.0) {
        (LoopState::Leaving(result), LoopState::Left(outcome)) => loop_left(
            before.1,
            after.1,
            result,
            outcome,
        ),
        (LoopState::Running, LoopState::Left(_)) => false,
        (LoopState::Running, _) => after.1 == before.1,
        _ => after == before,
    }
}

/// What is not leaving the loop - injecting, entering, handling an exit - is a
/// step that keeps the counter.
pub proof fn steps_keep_counter<I: InstructionCounter>(
    lp: LoopState,
    counter: I,
    step: Option<Result<ExitReason, VmRunError>>,
)
    ensures
        loop_step((lp, counter), (lp.stepped(step), counter)),
{
}

/// Every step of the trace is one of the loop.
pub open spec fn loop_trace<I: InstructionCounter>(trace: Seq<(LoopState, I)>) -> bool {
    forall|i: int|
        #![trigger trace[i]]
        0 <= i < trace.len() - 1 ==> loop_step(trace[i], trace[i + 1])
}

proof fn lemma_counter_kept<I: InstructionCounter>(trace: Seq<(LoopState, I)>)
    requires
        trace.len() > 0,
        loop_trace(trace),
        !(trace.last().0 is Left),
    ensures
        forall|j: int|
            #![trigger trace[j]]
            0 <= j < trace.len() - 1 ==> trace[j + 1].1 == trace[j].1,
    decreases trace.len(),
{
    if trace.len() > 1 {
        let shorter = trace.drop_last();
        let n = trace.len() as int;
        assert(loop_step(trace[n - 2], trace[n - 1]));
        assert forall|i: int|
            #![trigger shorter[i]]
            0 <= i < shorter.len() - 1 implies loop_step(shorter[i], shorter[i + 1]) by {
            assert(loop_step(trace[i], trace[i + 1]));
        }
        lemma_counter_kept(shorter);
        assert forall|j: int|
            #![trigger trace[j]]
            0 <= j < n - 1 implies trace[j + 1].1 == trace[j].1 by {
            if j < n - 2 {
                assert(shorter[j + 1].1 == shorter[j].1);
            }
        }
    }
}

/// On every way out of the run loop the counter is restored exactly once: a trace
/// from a loop that runs to one that has been left holds one step that does so,
/// and no other step touches the counter.
pub proof fn counter_is_restored_once<I: InstructionCounter>(trace: Seq<(LoopState, I)>) -> (at: int)
    requires
        trace.len() > 0,
        loop_trace(trace),
        trace[0].0 is Running,
        trace.last().0 is Left,
    ensures
        0 <= at < trace.len() - 1,
        trace[at].0 is Leaving,
        trace[at + 1].0 is Left,
        loop_left(trace[at].1, trace[at + 1].1, trace[at].0->Leaving_0, trace[at + 1].0->Left_0),
        trace.last() == trace[at + 1],
        forall|j: int|
            #![trigger trace[j]]
            0 <= j < trace.len() - 1 && j != at ==> trace[j + 1].1 == trace[j].1,
    decreases trace.len(),
{
    let n = trace.len() as int;
    let shorter = trace.drop_last();
    assert(loop_step(trace[n - 2], trace[n - 1]));
    assert forall|i: int|
        #![trigger shorter[i]]
        0 <= i < shorter.len() - 1 implies loop_step(shorter[i], shorter[i + 1]) by {
        assert(loop_step(trace[i], trace[i + 1]));
    }
    if trace[n - 2].0 is Left {
        let at = counter_is_restored_once(shorter);
        assert forall|j: int|
            #![trigger trace[j]]
            0 <= j < n - 1 && j != at implies trace[j + 1].1 == trace[j].1 by {
            if j < n - 2 {
                assert(shorter[j + 1].1 == shorter[j].1);
            }
        }
        at
    } else {
        lemma_counter_kept(shorter);
        assert forall|j: int|
            #![trigger trace[j]]
            0 <= j < n - 1 && j != n - 2 implies trace[j + 1].1 == trace[j].1 by {
            assert(shorter[j + 1].1 == shorter[j].1);
        }
        n - 2
    }
}

impl VmStateView {
    /// The state at the end of a run: the VMCS has to be launched anew and the
    /// guest's SYSCALL MSRs have been taken over.
    pub open spec fn finished(self, cleared: bool, bank: Map<u64, Msr>) -> Self {
        let c = self.core;
        self.with_core(
            VmCore {
                msr_state: GuestMsrState { syscall: SyscallMsrs::captured(bank), ..c.msr_state },
                ..c
            },
        ).with_vmcs(
            Vmcs { loaded: self.vmcs.loaded && !cleared, ..self.vmcs },
        ).with_vmx_ctx(VmxContext { launched: 0, ..self.host.vmx_ctx })
    }
}

fn take_over_msrs(state: &mut VmState, cleared: bool, msr_access: &MsrBank)
    requires
        old(state).wf(),
        msr_access.wf(),
    ensures
        final(state).wf(),
        final(state)@ == old(state)@.finished(cleared, msr_access@),
{
    if cleared {
        state.vmcs.loaded = false;
    }
    state.host.vmx_ctx.launched = 0;
    state.core.msr_state.syscall = SyscallMsrs::capture(msr_access);
}

/// Finish a run, with the outcome of clearing the VMCS. The guest's MSRs are
/// taken over and the host's restored in any case; a VMCS that could not be
/// cleared overrides every other outcome. The loop has been left, so the counter
/// is restored.
pub fn finish_run<C: VmContext>(
    ctx: &mut C,
    msr_access: &mut MsrBank,
    host_kernel_gs_base: u64,
    cleared: Result<(), &'static str>,
    lp: LoopState,
) -> (r: Result<ExitReason, VmRunError>)
    requires
        old(ctx).wf(),
        old(msr_access).wf(),
        lp is Left,
    ensures
        final(ctx).wf(),
        final(ctx).child_count() == old(ctx).child_count(),
        final(msr_access).wf(),
        ({
            let s = old(ctx).vm().state;
            &&& final(ctx).vm() == old(ctx).vm().with_state(
                s.finished(cleared is Ok, old(msr_access)@),
            )
            &&& final(msr_access)@ == host_msrs_loaded(
                s.host,
                old(msr_access)@,
                host_kernel_gs_base,
            )
            &&& final(msr_access).writes() == old(msr_access).writes() + host_msr_writes(
                s.host,
                host_kernel_gs_base,
            )
        }),
        r == match cleared {
            Ok(_) => lp->Left_0,
            Err(e) => Err(VmRunError::VmcsClear(e)),
        },
{
    take_over_msrs(ctx.state_mut(), cleared.is_ok(), msr_access);
    ctx.state().host.host_state.syscall_msrs.load(msr_access);
    let _ = msr_access.write_msr(msr::IA32_KERNEL_GS_BASE, host_kernel_gs_base);
    match (cleared, lp) {
        (Err(e), _) => Err(VmRunError::VmcsClear(e)),
        (Ok(_), LoopState::Left(result)) => result,
        (Ok(_), _) => vstd::pervasive::unreached(),
    }
}

/// The MSRs after the host's have been restored.
pub open spec fn host_msrs_loaded(host: VmHost, bank: Map<u64, Msr>, host_gs: u64) -> Map<
    u64,
    Msr,
> {
    msr::msr_put(
        host.host_state.syscall_msrs.loaded(bank),
        msr::IA32_KERNEL_GS_BASE,
        host_gs,
    )
}

/// The writes that restore the host's MSRs.
pub open spec fn host_msr_writes(host: VmHost, host_gs: u64) -> Seq<(u32, u64)> {
    host.host_state.syscall_msrs.load_writes().push((msr::IA32_KERNEL_GS_BASE, host_gs))
}

/// Whatever the guest left in them, the host's SYSCALL MSRs and
/// IA32_KERNEL_GS_BASE are back after a run: the processor that performs the
/// writes holds the host's values, and is what the bank says it is.
pub proof fn host_msrs_are_restored(host: VmHost, cpu: Map<u64, Msr>, host_gs: u64)
    requires
        msr::has_syscall_msrs(cpu),
        msr::msr_writable(cpu, msr::IA32_KERNEL_GS_BASE),
    ensures
        ({
            let after = msr::performed(cpu, host_msr_writes(host, host_gs));
            &&& after == host_msrs_loaded(host, cpu, host_gs)
            &&& SyscallMsrs::captured(after) == host.host_state.syscall_msrs
            &&& msr::msr_get(after, msr::IA32_KERNEL_GS_BASE) == Ok::<
                u64,
                MsrError,
            >(host_gs)
        }),
{
    let syscall = host.host_state.syscall_msrs;
    msr::load_writes_load(syscall, cpu);
    msr::performed_push(cpu, syscall.load_writes(), msr::IA32_KERNEL_GS_BASE, host_gs);
}

/// A run that could not be started leaves the host's SYSCALL MSRs and
/// IA32_KERNEL_GS_BASE on the processor, though the guest's were loaded first.
pub proof fn failed_start_restores_host_msrs(state: VmStateView, cpu: Map<u64, Msr>, host_gs: u64)
    requires
        msr::has_syscall_msrs(cpu),
        msr::msr_writable(cpu, msr::IA32_KERNEL_GS_BASE),
    ensures
        ({
            let guest = state.core.msr_state.syscall;
            let after = msr::performed(
                cpu,
                guest.load_writes() + host_msr_writes(state.host, host_gs),
            );
            &&& after == host_msrs_loaded(state.host, guest.loaded(cpu), host_gs)
            &&& SyscallMsrs::captured(after) == state.host.host_state.syscall_msrs
            &&& msr::msr_get(after, msr::IA32_KERNEL_GS_BASE) == Ok::<
                u64,
                MsrError,
            >(host_gs)
        }),
{
    let guest = state.core.msr_state.syscall;
    msr::performed_in_turn(cpu, guest.load_writes(), host_msr_writes(state.host, host_gs));
    msr::load_writes_load(guest, cpu);
    host_msrs_are_restored(state.host, guest.loaded(cpu), host_gs);
}

/// The guest's SYSCALL MSRs survive from one run to the next: what the next run
/// has the processor load is what this one took over.
pub proof fn guest_msrs_survive_runs(state: VmStateView, left: Map<u64, Msr>, next: Map<u64, Msr>)
    requires
        msr::has_syscall_msrs(next),
    ensures
        ({
            let guest = state.finished(true, left).core.msr_state.syscall;
            &&& SyscallMsrs::captured(msr::performed(next, guest.load_writes()))
                == SyscallMsrs::captured(left)
            &&& msr::performed(next, guest.load_writes()) == guest.loaded(next)
        }),
{
    msr::load_writes_load(state.finished(true, left).core.msr_state.syscall, next);
}

} // verus!
