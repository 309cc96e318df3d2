use bedrock_vmx::ept::EptPageTable;
use bedrock_vmx::exits::handler::{begin_exit, end_exit, handle_exit};
use bedrock_vmx::exits::helpers::{ExitError, ExitHandlerResult};
use bedrock_vmx::exits::pebs::{PebsAction, PebsHostMsrs, PebsState};
use bedrock_vmx::exits::reasons::ExitReason;
use bedrock_vmx::exits::targets::{next_timer_exit_count, update_mtf, MONITOR_TRAP_FLAG};
use bedrock_vmx::fields::{VmcsField32, VmcsField64, VmcsFieldNatural};
use bedrock_vmx::host::HostState;
use bedrock_vmx::msr::{
    MsrBank, IA32_CSTAR, IA32_DS_AREA, IA32_FIXED_CTR0, IA32_FIXED_CTR_CTRL, IA32_FMASK,
    IA32_FS_BASE, IA32_GS_BASE, IA32_KERNEL_GS_BASE, IA32_LSTAR, IA32_PEBS_ENABLE, IA32_STAR,
    MSR_PEBS_DATA_CFG,
};
use bedrock_vmx::page::PagePool;
use bedrock_vmx::traits::errors::{InveptError, VmEntryError, VmRunError, VmcsWriteError};
use bedrock_vmx::traits::instruction_counter::{
    InstructionCounterError, MockInstructionCounter, NullInstructionCounter,
};
use bedrock_vmx::traits::vm_run::{
    after_entry, after_exit, before_entry, begin_run, finish_run, injected, leave_guest,
    leave_loop, needs_invept, prepare_loop, settle_loop, sync_gprs_from_vmx_ctx,
    sync_gprs_to_vmx_ctx, take_invept, EntryTimes, HostContext, LoopState,
};
use bedrock_vmx::vm::root::RootVm;
use bedrock_vmx::vm_pages::VmPages;
use bedrock_vmx::vm_state::VmState;
use bedrock_vmx::vmcs::Vmcs;

const HOST: HostContext = HostContext {
    cr3: Some(0x1234_5000),
    tr_base: 0x11,
    gdtr_base: 0x22,
    rsp: 0x33,
};

const TIMES: EntryTimes = EntryTimes {
    pre_entry: 100,
    post_exit: 150,
    pre_irq: 155,
    post_irq: 175,
    pre_handler: 200,
};

fn mock_vm() -> RootVm {
    let mut pool = PagePool::new();
    for i in 0..5 {
        pool.refill(0x10_0000 + i * 0x1000, 0xffff_8000_0010_0000 + i * 0x1000);
    }
    let pages = match VmPages::new(&mut pool) {
        Ok(pages) => pages,
        Err(_) => panic!("no pages"),
    };
    let mut host = HostState::default();
    host.syscall_msrs.lstar.0 = 0x4444;
    let state = match VmState::new::<()>(
        Vmcs::new(),
        EptPageTable::new(0x9000),
        pages,
        Ok(()),
        Ok(()),
        host,
        None,
        8,
        2_000_000_000,
    ) {
        Ok(state) => state,
        Err(_) => panic!("no state"),
    };
    RootVm::new(state, vec![0u8; 0x1000])
}

fn bank() -> MsrBank {
    let mut bank = MsrBank::new();
    bank.define(IA32_STAR, 1);
    bank.define(IA32_LSTAR, 2);
    bank.define(IA32_CSTAR, 3);
    bank.define(IA32_FMASK, 4);
    bank.define(IA32_FS_BASE, 5);
    bank.define(IA32_GS_BASE, 6);
    bank.define(IA32_KERNEL_GS_BASE, 0x7777);
    bank
}

fn pebs_state() -> PebsState {
    PebsState {
        ds_management_gpa: 0x1000,
        pebs_buffer_gpa: 0x1000,
        ds_area_va: 0x2000,
        armed_action: None,
        armed_target_tsc: 0,
        armed_inst_count: 0,
        armed_tsc_offset: 0,
        iters_since_arm: 0,
        counter_reload: 0,
        fixed_ctr_ctrl: 3,
        pebs_enable: 1 << 32,
        pebs_data_cfg: 0,
        host_msrs: PebsHostMsrs::default(),
        logged_first_arm: false,
    }
}

#[test]
fn registers_round_trip_through_the_entry_block() {
    let mut vm = mock_vm();
    vm.state.core.gprs.rax = 1;
    vm.state.core.gprs.rsp = 2;
    vm.state.core.gprs.r15 = 3;
    sync_gprs_to_vmx_ctx(&mut vm.state);
    assert_eq!(vm.state.host.vmx_ctx.guest_rax, 1);
    assert_eq!(vm.state.host.vmx_ctx.guest_r15, 3);
    assert_eq!(vm.state.host.vmx_ctx.xcr0_mask, 7);
    assert_eq!(
        vm.state.host.vmx_ctx.guest_xsave_ptr,
        vm.state.host.pages.guest_xsave_page.virt
    );
    let before = vm.state.core.gprs;
    vm.state.core.gprs.rax = 99;
    sync_gprs_from_vmx_ctx(&mut vm.state);
    assert_eq!(vm.state.core.gprs, before);
}

#[test]
fn begin_run_loads_guest_msrs_and_notes_the_cpu() {
    let mut vm = mock_vm();
    vm.state.vmcs.loaded = false;
    vm.state.core.msr_state.syscall.lstar.0 = 0xAAAA;
    let mut msrs = bank();
    assert!(needs_invept(&vm.state, 3));
    let r = begin_run(&mut vm, &mut msrs, Ok(()), 3, Ok(()));
    assert_eq!(r, Ok(0x7777));
    assert_eq!(msrs.read_msr(IA32_LSTAR), Ok(0xAAAA));
    assert_eq!(
        msrs.take_writes(),
        vec![
            (IA32_STAR, 0),
            (IA32_LSTAR, 0xAAAA),
            (IA32_CSTAR, 0),
            (IA32_FMASK, 0)
        ]
    );
    assert!(vm.state.vmcs.loaded);
    assert!(!needs_invept(&vm.state, 3));
    assert!(needs_invept(&vm.state, 4));
}

#[test]
fn begin_run_reports_what_failed() {
    let mut vm = mock_vm();
    assert_eq!(
        begin_run(&mut vm, &mut bank(), Err("busy"), 0, Ok(())),
        Err(VmRunError::VmcsLoad("busy"))
    );
    assert_eq!(
        begin_run(
            &mut vm,
            &mut bank(),
            Ok(()),
            0,
            Err(InveptError::NotSupported)
        ),
        Err(VmRunError::InveptFailed(InveptError::NotSupported))
    );
    vm.state.host.last_cpu = Some(0);
    assert!(begin_run(
        &mut vm,
        &mut bank(),
        Ok(()),
        0,
        Err(InveptError::NotSupported)
    )
    .is_ok());
}

#[test]
fn failed_begin_gives_the_host_its_msrs_back() {
    let mut vm = mock_vm();
    vm.state.core.msr_state.syscall.star.0 = 0xA1;
    vm.state.core.msr_state.syscall.lstar.0 = 0xA2;
    vm.state.host.host_state.syscall_msrs.star.0 = 0x11;
    vm.state.host.host_state.syscall_msrs.cstar.0 = 0x13;
    vm.state.host.host_state.syscall_msrs.fmask.0 = 0x14;
    let mut msrs = bank();
    let refused: Result<(), &'static str> = Err("busy");
    assert!(begin_run(&mut vm, &mut msrs, refused, 0, Ok(())).is_err());
    assert_eq!(msrs.read_msr(IA32_STAR), Ok(0x11));
    assert_eq!(msrs.read_msr(IA32_LSTAR), Ok(0x4444));
    assert_eq!(msrs.read_msr(IA32_CSTAR), Ok(0x13));
    assert_eq!(msrs.read_msr(IA32_FMASK), Ok(0x14));
    assert_eq!(msrs.read_msr(IA32_KERNEL_GS_BASE), Ok(0x7777));
    assert_eq!(
        msrs.take_writes(),
        vec![
            (IA32_STAR, 0xA1),
            (IA32_LSTAR, 0xA2),
            (IA32_CSTAR, 0),
            (IA32_FMASK, 0),
            (IA32_STAR, 0x11),
            (IA32_LSTAR, 0x4444),
            (IA32_CSTAR, 0x13),
            (IA32_FMASK, 0x14),
            (IA32_KERNEL_GS_BASE, 0x7777)
        ]
    );
    // The guest's values stay with the guest.
    assert_eq!(vm.state.core.msr_state.syscall.star.0, 0xA1);
}

#[test]
fn prepare_loop_writes_host_fields() {
    let mut vm = mock_vm();
    let mut counter = MockInstructionCounter::new(0);
    assert_eq!(
        prepare_loop(&mut vm, &mut counter, &bank(), &HOST),
        LoopState::Running
    );
    assert_eq!(counter.prepare_count, 1);
    assert!(counter.running);
    let vmcs = &vm.state.vmcs;
    assert_eq!(
        vmcs.get_field_natural(VmcsFieldNatural::HostCr3),
        Some(0x1234_5000)
    );
    assert_eq!(vmcs.get_field_natural(VmcsFieldNatural::HostFsBase), Some(5));
    assert_eq!(vmcs.get_field_natural(VmcsFieldNatural::HostGsBase), Some(6));
    assert_eq!(
        vmcs.get_field_natural(VmcsFieldNatural::HostTrBase),
        Some(0x11)
    );
    assert_eq!(
        vmcs.get_field_natural(VmcsFieldNatural::HostGdtrBase),
        Some(0x22)
    );
    assert_eq!(vmcs.get_field_natural(VmcsFieldNatural::HostRsp), Some(0x33));
}

#[test]
fn prepare_loop_fails_without_cr3_or_vmcs() {
    let mut vm = mock_vm();
    let mut counter = MockInstructionCounter::new(0);
    let blind = HostContext { cr3: None, ..HOST };
    assert_eq!(
        prepare_loop(&mut vm, &mut counter, &bank(), &blind),
        LoopState::Left(Err(VmRunError::ReadHostCr3))
    );
    vm.state.vmcs.loaded = false;
    assert_eq!(
        prepare_loop(&mut vm, &mut counter, &bank(), &HOST),
        LoopState::Left(Err(VmRunError::WriteHostCr3(
            VmcsWriteError::VmcsNotLoaded
        )))
    );
    assert_eq!(counter.prepare_count, 0);
}

#[test]
fn every_way_out_restores_the_counter_once() {
    let ways: [fn(&mut RootVm, &MockInstructionCounter, &mut LoopState); 4] = [
        |_, _, lp| injected(lp, Err(ExitError::TripleFault)),
        |vm, counter, lp| after_entry(vm, counter, lp, &TIMES, Err(VmEntryError::VmFailInvalid)),
        |vm, _, lp| {
            after_exit(vm, lp, ExitHandlerResult::Error(ExitError::TripleFault), false, 0, 0)
        },
        |vm, _, lp| {
            after_exit(
                vm,
                lp,
                ExitHandlerResult::ExitToUserspace(ExitReason::Hlt),
                false,
                0,
                0,
            )
        },
    ];
    let outcomes = [
        Err(VmRunError::ExitHandler(ExitError::TripleFault)),
        Err(VmRunError::VmEntry(VmEntryError::VmFailInvalid)),
        Err(VmRunError::ExitHandler(ExitError::TripleFault)),
        Ok(ExitReason::Hlt),
    ];
    for (way, outcome) in ways.iter().zip(outcomes) {
        let mut vm = mock_vm();
        let mut counter = MockInstructionCounter::new(0);
        let mut lp = prepare_loop(&mut vm, &mut counter, &bank(), &HOST);
        way(&mut vm, &counter, &mut lp);
        assert_eq!(lp, LoopState::Leaving(outcome));
        // A loop that is being left takes no further step.
        injected(&mut lp, Err(ExitError::Fatal("late")));
        assert_eq!(lp, LoopState::Leaving(outcome));
        leave_loop(&mut vm, &mut counter, &mut lp);
        leave_loop(&mut vm, &mut counter, &mut lp);
        assert_eq!(lp, LoopState::Left(outcome));
        assert_eq!((counter.prepare_count, counter.finish_count), (1, 1));
        assert!(!counter.running);
        let r = finish_run(&mut vm, &mut bank(), 0x7777, Ok(()), lp);
        assert_eq!(r, outcome);
    }
}

#[test]
fn loop_that_never_ran_leaves_the_counter_alone() {
    let mut vm = mock_vm();
    let mut counter = MockInstructionCounter::new(0);
    let blind = HostContext { cr3: None, ..HOST };
    let mut lp = prepare_loop(&mut vm, &mut counter, &bank(), &blind);
    leave_loop(&mut vm, &mut counter, &mut lp);
    assert_eq!(lp, LoopState::Left(Err(VmRunError::ReadHostCr3)));
    assert_eq!((counter.prepare_count, counter.finish_count), (0, 0));
}

#[test]
fn invalidation_is_asked_for_once() {
    let mut vm = mock_vm();
    assert!(!take_invept(&mut vm.state));
    vm.state.host.invept_due = true;
    assert!(take_invept(&mut vm.state));
    assert!(!take_invept(&mut vm.state));
}

#[test]
fn entry_swaps_kernel_gs_base() {
    let mut vm = mock_vm();
    vm.state.core.kernel_gs_base = 0x6666;
    let mut msrs = bank();
    let armed = before_entry(&mut vm, &NullInstructionCounter, &mut msrs, 90, 100);
    assert!(!armed);
    assert_eq!(msrs.read_msr(IA32_KERNEL_GS_BASE), Ok(0x6666));
    assert_eq!(vm.state.host.exit_stats.vmentry_overhead_cycles, 10);
    assert_eq!(msrs.take_writes(), vec![(IA32_KERNEL_GS_BASE, 0x6666)]);

    // The guest changes it and its registers.
    msrs.define(IA32_KERNEL_GS_BASE, 0x5555);
    vm.state.host.vmx_ctx.guest_rcx = 0xC0FFEE;
    let counter = MockInstructionCounter::new(4321);
    leave_guest(
        &mut vm,
        &counter,
        &mut msrs,
        0x7777,
        armed,
        TIMES.pre_entry,
        TIMES.post_exit,
    );
    assert_eq!(vm.state.core.kernel_gs_base, 0x5555);
    assert_eq!(msrs.read_msr(IA32_KERNEL_GS_BASE), Ok(0x7777));
    assert_eq!(msrs.take_writes(), vec![(IA32_KERNEL_GS_BASE, 0x7777)]);
    let mut lp = LoopState::Running;
    after_entry(&mut vm, &counter, &mut lp, &TIMES, Ok(()));
    assert!(lp.is_running());
    assert_eq!(vm.state.core.gprs.rcx, 0xC0FFEE);
    assert_eq!(vm.state.core.last_instruction_count, 4321);
    let stats = &vm.state.host.exit_stats;
    assert_eq!(stats.guest_cycles, 50);
    assert_eq!(stats.irq_window_cycles, 20);
    assert_eq!(stats.vmexit_overhead_cycles, 30);
}

#[test]
fn failed_entry_keeps_the_registers() {
    let mut vm = mock_vm();
    vm.state.core.gprs.rcx = 1;
    vm.state.host.vmx_ctx.guest_rcx = 2;
    let mut lp = LoopState::Running;
    after_entry(
        &mut vm,
        &NullInstructionCounter,
        &mut lp,
        &TIMES,
        Err(VmEntryError::VmFailValid),
    );
    assert_eq!(
        lp,
        LoopState::Leaving(Err(VmRunError::VmEntry(VmEntryError::VmFailValid)))
    );
    assert_eq!(vm.state.core.gprs.rcx, 1);
}

#[test]
fn loop_goes_on_until_told_otherwise() {
    let mut vm = mock_vm();
    let mut lp = LoopState::Running;
    after_exit(&mut vm, &mut lp, ExitHandlerResult::Continue, false, 10, 25);
    assert_eq!(lp, LoopState::Running);
    assert_eq!(vm.state.host.exit_stats.total_run_cycles, 15);
    after_exit(&mut vm, &mut lp, ExitHandlerResult::Continue, true, 0, 0);
    assert_eq!(lp, LoopState::Leaving(Ok(ExitReason::NeedResched)));
    let mut lp = LoopState::Running;
    after_exit(
        &mut vm,
        &mut lp,
        ExitHandlerResult::ExitToUserspace(ExitReason::VmcallReady),
        true,
        0,
        0,
    );
    assert_eq!(lp, LoopState::Leaving(Ok(ExitReason::VmcallReady)));
    let mut lp = LoopState::Running;
    after_exit(
        &mut vm,
        &mut lp,
        ExitHandlerResult::Error(ExitError::TripleFault),
        false,
        0,
        0,
    );
    assert_eq!(
        lp,
        LoopState::Leaving(Err(VmRunError::ExitHandler(ExitError::TripleFault)))
    );
}

#[test]
fn leaving_saves_exit_information() {
    let mut vm = mock_vm();
    let vmcs = &mut vm.state.vmcs;
    vmcs.set_field_natural(VmcsFieldNatural::ExitQualification, 0x181);
    vmcs.set_field64(VmcsField64::GuestPhysicalAddr, 0xFEE0_0020);
    let mut counter = MockInstructionCounter::new(0);
    let mut lp = LoopState::Leaving(Ok(ExitReason::EptViolation));
    leave_loop(&mut vm, &mut counter, &mut lp);
    assert_eq!(lp, LoopState::Left(Ok(ExitReason::EptViolation)));
    assert_eq!(counter.finish_count, 1);
    assert_eq!(vm.state.core.last_exit_qualification, 0x181);
    assert_eq!(vm.state.core.last_guest_physical_addr, 0xFEE0_0020);
    assert_eq!(
        settle_loop(
            &mut vm.state,
            Err(InstructionCounterError::RestoreFailed),
            Ok(ExitReason::Hlt)
        ),
        Err(VmRunError::InstructionCounter(
            InstructionCounterError::RestoreFailed
        ))
    );
}

#[test]
fn finish_run_restores_the_host() {
    let mut vm = mock_vm();
    vm.state.host.vmx_ctx.launched = 1;
    let mut msrs = bank();
    msrs.define(IA32_LSTAR, 0xBBBB);
    let left = LoopState::Left(Ok(ExitReason::NeedResched));
    let r = finish_run(&mut vm, &mut msrs, 0x7777, Ok(()), left);
    assert_eq!(r, Ok(ExitReason::NeedResched));
    assert_eq!(vm.state.core.msr_state.syscall.lstar.0, 0xBBBB);
    assert_eq!(vm.state.host.vmx_ctx.launched, 0);
    assert!(!vm.state.vmcs.loaded);
    assert_eq!(msrs.read_msr(IA32_LSTAR), Ok(0x4444));
    assert_eq!(msrs.read_msr(IA32_KERNEL_GS_BASE), Ok(0x7777));
    assert_eq!(
        msrs.take_writes(),
        vec![
            (IA32_STAR, 0),
            (IA32_LSTAR, 0x4444),
            (IA32_CSTAR, 0),
            (IA32_FMASK, 0),
            (IA32_KERNEL_GS_BASE, 0x7777)
        ]
    );
    let r = finish_run(&mut vm, &mut msrs, 0, Err("stuck"), left);
    assert_eq!(r, Err(VmRunError::VmcsClear("stuck")));
}

#[test]
fn emulated_time_follows_deterministic_exits_only() {
    let mut vm = mock_vm();
    vm.state.core.last_instruction_count = 700;
    vm.state.core.tsc_offset = 50;
    vm.state.core.emulated_tsc = 10;
    assert!(!begin_exit(&mut vm.state, ExitReason::ExternalInterrupt, 0));
    assert_eq!(vm.state.core.emulated_tsc, 10);
    assert!(begin_exit(&mut vm.state, ExitReason::Cpuid, 0));
    assert_eq!(vm.state.core.emulated_tsc, 750);
}

#[test]
fn mmio_is_deterministic_and_copying_is_not() {
    let mut vm = mock_vm();
    let vmcs = &mut vm.state.vmcs;
    vmcs.set_field64(VmcsField64::GuestPhysicalAddr, 0xFEE0_0FFF);
    assert!(begin_exit(&mut vm.state, ExitReason::EptViolation, 0x2));
    // A record write is asynchronous.
    assert!(!begin_exit(&mut vm.state, ExitReason::EptViolation, 0x1_0002));
    let vmcs = &mut vm.state.vmcs;
    vmcs.set_field64(VmcsField64::GuestPhysicalAddr, 0xFEE0_1000);
    assert!(!begin_exit(&mut vm.state, ExitReason::EptViolation, 0x2));
}

#[test]
fn single_steps_count_apart_unless_on_target() {
    let mut vm = mock_vm();
    vm.state.core.last_instruction_count = 99;
    vm.state.core.stop_at_tsc = Some(100);
    assert!(!begin_exit(&mut vm.state, ExitReason::MonitorTrapFlag, 0));
    let r = end_exit(
        &mut vm.state,
        ExitReason::MonitorTrapFlag,
        0,
        false,
        9,
        ExitHandlerResult::Continue,
    );
    assert_eq!(r, ExitHandlerResult::Continue);
    assert_eq!(vm.state.host.exit_stats.pebs_margin_steps, 1);
    assert_eq!(vm.state.host.exit_stats.mtf.count, 0);

    vm.state.core.last_instruction_count = 100;
    assert!(begin_exit(&mut vm.state, ExitReason::MonitorTrapFlag, 0));
    let r = end_exit(
        &mut vm.state,
        ExitReason::MonitorTrapFlag,
        0,
        true,
        9,
        ExitHandlerResult::Continue,
    );
    assert_eq!(
        r,
        ExitHandlerResult::ExitToUserspace(ExitReason::StopTscReached)
    );
    assert_eq!(vm.state.host.exit_stats.mtf.count, 1);
    assert_eq!(vm.state.host.exit_stats.mtf.cycles, 9);
}

#[test]
fn trap_flag_covers_the_margin_of_registered_targets() {
    let mut vm = mock_vm();
    vm.state
        .vmcs
        .set_field32(VmcsField32::PrimaryProcBasedVmExecControls, 0x4);
    vm.state.core.devices.apic.timer_deadline = 1_000;
    vm.state.core.devices.apic.svr = 0x1FF;
    vm.state.core.devices.apic.lvt_timer = 0xEC;
    vm.state.core.last_instruction_count = 1_000 - 257 - 8;
    assert_eq!(next_timer_exit_count(&vm.state), Some(1_000));

    // Without a scratch page the margin is left alone.
    assert!(update_mtf(&mut vm.state).is_ok());
    assert!(!vm.state.core.mtf_enabled);

    vm.state.core.pebs_state = Some(pebs_state());
    assert!(update_mtf(&mut vm.state).is_ok());
    assert!(vm.state.core.mtf_enabled);
    assert_eq!(
        vm.state
            .vmcs
            .get_field32(VmcsField32::PrimaryProcBasedVmExecControls),
        Some(0x4 | MONITOR_TRAP_FLAG)
    );

    vm.state.core.last_instruction_count = 1_000;
    assert!(update_mtf(&mut vm.state).is_ok());
    assert!(!vm.state.core.mtf_enabled);
    assert_eq!(
        vm.state
            .vmcs
            .get_field32(VmcsField32::PrimaryProcBasedVmExecControls),
        Some(0x4)
    );

    vm.state.core.last_instruction_count = 1_000 - 257 - 9;
    assert!(update_mtf(&mut vm.state).is_ok());
    assert!(!vm.state.core.mtf_enabled);
}

#[test]
fn trap_flag_needs_the_controls() {
    let mut vm = mock_vm();
    vm.state.core.single_step_tsc_range = Some((0, 10));
    assert_eq!(
        update_mtf(&mut vm.state),
        Err(ExitError::Fatal("Failed to read primary controls for MTF"))
    );
}

#[test]
fn armed_entry_is_reported() {
    let mut vm = mock_vm();
    let mut pebs = pebs_state();
    pebs.armed_action = Some(PebsAction::InjectInterrupt(0x20));
    vm.state.core.pebs_state = Some(pebs);
    let mut msrs = bank();
    let counter = MockInstructionCounter::new(1);
    let armed = before_entry(&mut vm, &counter, &mut msrs, 0, 0);
    assert!(armed);
    assert_eq!(
        vm.state
            .vmcs
            .get_field32(VmcsField32::VmEntryMsrLoadCount),
        Some(9)
    );
    msrs.take_writes();
    leave_guest(&mut vm, &counter, &mut msrs, 0x7777, armed, 0, 0);
    assert_eq!(
        vm.state
            .vmcs
            .get_field32(VmcsField32::VmEntryMsrLoadCount),
        Some(0)
    );
}

#[test]
fn records_are_enabled_last() {
    let mut vm = mock_vm();
    let mut pebs = pebs_state();
    pebs.armed_action = Some(PebsAction::InjectInterrupt(0x20));
    vm.state.core.pebs_state = Some(pebs);
    let mut msrs = bank();
    let counters = [
        IA32_FIXED_CTR_CTRL,
        IA32_FIXED_CTR0,
        IA32_DS_AREA,
        MSR_PEBS_DATA_CFG,
        IA32_PEBS_ENABLE,
    ];
    for (i, index) in counters.iter().enumerate() {
        msrs.define(*index, 0x100 + i as u64);
    }
    let counter = MockInstructionCounter::new(1);
    let armed = before_entry(&mut vm, &counter, &mut msrs, 0, 0);
    // The guest leaves other values behind.
    for index in counters {
        msrs.define(index, 0xBAD);
    }
    msrs.take_writes();
    leave_guest(&mut vm, &counter, &mut msrs, 0x7777, armed, 0, 0);
    let mut expected: Vec<(u32, u64)> = Vec::new();
    for (i, index) in counters.iter().enumerate() {
        assert_eq!(msrs.read_msr(*index), Ok(0x100 + i as u64));
        expected.push((*index, 0x100 + i as u64));
    }
    expected.push((IA32_KERNEL_GS_BASE, 0x7777));
    assert_eq!(msrs.take_writes(), expected);
    assert_eq!(msrs.take_writes(), Vec::new());
}

#[test]
fn unreadable_exit_is_an_error() {
    let mut vm = mock_vm();
    assert!(matches!(
        handle_exit(&mut vm, &mut PagePool::new(), None, 0),
        ExitHandlerResult::Error(ExitError::VmcsReadError(_))
    ));
    vm.state
        .vmcs
        .set_field32(VmcsField32::VmExitReason, 0x7FFF);
    assert!(matches!(
        handle_exit(&mut vm, &mut PagePool::new(), None, 0),
        ExitHandlerResult::Error(ExitError::UnknownExitReason(0x7FFF))
    ));
}

#[test]
fn interrupt_window_and_timer_exits() {
    let mut vm = mock_vm();
    let vmcs = &mut vm.state.vmcs;
    vmcs.set_field_natural(VmcsFieldNatural::ExitQualification, 0);
    vmcs.set_field32(VmcsField32::PrimaryProcBasedVmExecControls, 0x7);
    vmcs.set_field32(
        VmcsField32::VmExitReason,
        ExitReason::InterruptWindow.as_u32(),
    );
    assert_eq!(
        handle_exit(&mut vm, &mut PagePool::new(), None, 0),
        ExitHandlerResult::Continue
    );
    let vmcs = &mut vm.state.vmcs;
    assert_eq!(
        vmcs.get_field32(VmcsField32::PrimaryProcBasedVmExecControls),
        Some(0x3)
    );
    vmcs.set_field32(
        VmcsField32::VmExitReason,
        ExitReason::VmxPreemptionTimer.as_u32(),
    );
    assert_eq!(
        handle_exit(&mut vm, &mut PagePool::new(), None, 0),
        ExitHandlerResult::ExitToUserspace(ExitReason::VmxPreemptionTimer)
    );
    assert_eq!(
        vm.state
            .vmcs
            .get_field32(VmcsField32::VmxPreemptionTimerValue),
        Some(0x100000)
    );
}

#[test]
fn embedder_overrides_delegated_exits() {
    let mut vm = mock_vm();
    let vmcs = &mut vm.state.vmcs;
    vmcs.set_field_natural(VmcsFieldNatural::ExitQualification, 0);
    vmcs.set_field32(VmcsField32::VmExitReason, ExitReason::MsrRead.as_u32());
    assert_eq!(
        handle_exit(
            &mut vm,
            &mut PagePool::new(),
            Some(ExitHandlerResult::Continue),
            5
        ),
        ExitHandlerResult::Continue
    );
    assert_eq!(vm.state.host.exit_stats.msr_read.cycles, 5);
}
