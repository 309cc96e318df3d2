use bedrock_vmx::device::{
    begin_fork, check_create_config, create_root_vm_result, decode_command, settle_fork,
    BedrockCreateVmConfig, DeviceCommand, BEDROCK_CREATE_FORKED_VM, BEDROCK_CREATE_ROOT_VM,
};
use bedrock_vmx::devices::random::RdrandMode;
use bedrock_vmx::ept::EptPageTable;
use bedrock_vmx::events::types::{EventCategories, EventKind, EVENT_BUFFER_SIZE};
use bedrock_vmx::exits::reasons::ExitReason;
use bedrock_vmx::exits::targets::{update_mtf, MONITOR_TRAP_FLAG};
use bedrock_vmx::feedback::FeedbackBufferInfo;
use bedrock_vmx::fields::VmcsField32;
use bedrock_vmx::host::HostState;
use bedrock_vmx::io_channel::PENDING_IO_QUEUE_CAP;
use bedrock_vmx::page::PagePool;
use bedrock_vmx::traits::errors::VmRunError;
use bedrock_vmx::traits::instruction_counter::InstructionCounterError;
use bedrock_vmx::traits::vm_context::ForkableVm;
use bedrock_vmx::vm::root::RootVm;
use bedrock_vmx::vm_file::handlers::{
    claim_run, exit_info, finish_drain, handle_drain_io_response, handle_get_exit_stats,
    handle_get_feedback_buffer_info, handle_queue_io_action, handle_set_event_config,
    handle_set_rdrand_config, handle_set_rdrand_value, handle_set_single_step,
    handle_set_stop_tsc, release_run, RunOutcome, RunSession,
};
use bedrock_vmx::vm_file::structs::{
    BedrockEventConfig, BedrockIoActionHeader, BedrockRdrandConfig, BedrockSingleStepConfig, Errno,
};
use bedrock_vmx::vm_pages::VmPages;
use bedrock_vmx::vm_state::{ExitTrigger, VmState};
use bedrock_vmx::vmcs::Vmcs;

fn mock_state() -> VmState {
    let mut pool = PagePool::new();
    for i in 0..5 {
        pool.refill(0x10_0000 + i * 0x1000, 0xffff_8000_0010_0000 + i * 0x1000);
    }
    let pages = match VmPages::new(&mut pool) {
        Ok(pages) => pages,
        Err(_) => panic!("no pages"),
    };
    match VmState::new::<()>(
        Vmcs::new(),
        EptPageTable::new(0x9000),
        pages,
        Ok(()),
        Ok(()),
        HostState::default(),
        None,
        8,
        2_000_000_000,
    ) {
        Ok(state) => state,
        Err(_) => panic!("no state"),
    }
}

const EVENTS: BedrockEventConfig = BedrockEventConfig {
    enabled: 1,
    categories: 2,
    exit_trigger: 4,
    exit_target_tsc: 1000,
    exit_start_tsc: 50,
    exit_flags: 1,
};

fn fresh_buffer() -> Option<Vec<u8>> {
    Some(vec![0u8; EVENT_BUFFER_SIZE])
}

#[test]
fn running_vms_and_parents_are_busy() {
    let mut running = false;
    assert_eq!(claim_run(&mut running, 1), Err(Errno::Ebusy));
    assert!(!running);
    assert_eq!(claim_run(&mut running, 0), Ok(()));
    assert!(running);
    assert_eq!(claim_run(&mut running, 0), Err(Errno::Ebusy));
}

#[test]
fn run_session_refills_and_clears_once() {
    let mut state = mock_state();
    state.set_event_buffer(vec![0u8; EVENT_BUFFER_SIZE]);
    state.set_event_categories(EventCategories::serial());
    assert!(state.event_append(EventKind::Serial, b"old"));

    let mut session = RunSession::new();
    assert_eq!(session.enter(&mut state, false), Ok(()));
    assert_eq!(state.event_buffer_len(), 0);
    assert!(state.event_append(EventKind::Serial, b"new"));
    assert_eq!(
        session.returned(Ok(ExitReason::PoolExhausted)),
        RunOutcome::Refill
    );
    assert_eq!(session.enter(&mut state, false), Err(Errno::Enomem));
    assert_eq!(session.enter(&mut state, true), Ok(()));
    assert!(state.event_buffer_len() > 0);
    assert_eq!(
        session.returned(Ok(ExitReason::VmcallReady)),
        RunOutcome::Done(ExitReason::VmcallReady)
    );
}

#[test]
fn run_failures_have_error_codes() {
    let mut session = RunSession::new();
    assert_eq!(
        session.returned(Err(VmRunError::InstructionCounter(
            InstructionCounterError::Unavailable
        ))),
        RunOutcome::Failed(Errno::Eopnotsupp)
    );
    assert_eq!(
        session.returned(Err(VmRunError::InstructionCounter(
            InstructionCounterError::RestoreFailed
        ))),
        RunOutcome::Failed(Errno::Eio)
    );
    assert_eq!(
        session.returned(Err(VmRunError::ReadHostCr3)),
        RunOutcome::Failed(Errno::Eio)
    );
    assert_eq!(Errno::Eopnotsupp.as_return(), -95);
    assert_eq!(Errno::Eio.as_return(), -5);
}

#[test]
fn exit_information_is_what_the_state_holds() {
    let mut state = mock_state();
    state.core.last_exit_qualification = 1;
    state.core.last_guest_physical_addr = 2;
    state.core.emulated_tsc = 3;
    let info = exit_info(&state, ExitReason::Cpuid);
    assert_eq!(info.exit_reason, 10);
    assert_eq!(info.exit_qualification, 1);
    assert_eq!(info.guest_physical_addr, 2);
    assert_eq!(info.emulated_tsc, 3);
    assert_eq!(info.tsc_frequency, 2_000_000_000);
    assert_eq!(info.event_len, 0);
}

#[test]
fn rdrand_configuration() {
    let mut state = mock_state();
    let seeded = BedrockRdrandConfig { mode: 0, value: 0 };
    assert_eq!(handle_set_rdrand_config(&mut state, &seeded), Ok(()));
    assert_eq!(state.core.devices.random.seed, 1);
    let asking = BedrockRdrandConfig { mode: 1, value: 5 };
    assert_eq!(handle_set_rdrand_config(&mut state, &asking), Ok(()));
    assert_eq!(state.core.devices.random.mode, RdrandMode::ExitToUserspace);
    handle_set_rdrand_value(&mut state, 77);
    assert_eq!(state.core.devices.random.generate(), Some(77));
    let wrong = BedrockRdrandConfig { mode: 2, value: 5 };
    assert_eq!(
        handle_set_rdrand_config(&mut state, &wrong),
        Err(Errno::Einval)
    );
    assert_eq!(state.core.devices.random.mode, RdrandMode::ExitToUserspace);
}

#[test]
fn event_configuration_switches_the_stream() {
    let mut state = mock_state();
    assert_eq!(
        handle_set_event_config(&mut state, &EVENTS, None),
        Err(Errno::Enomem)
    );
    assert_eq!(
        handle_set_event_config(&mut state, &EVENTS, fresh_buffer()),
        Ok(())
    );
    assert_eq!(state.exit_trigger(), ExitTrigger::Checkpoints);
    assert_eq!(state.core.exit_target_tsc, 1000);
    assert_eq!(state.core.exit_start_tsc, 50);
    assert!(state.core.skip_memory_hash);
    assert!(!state.core.intercept_pf);
    assert!(state.event_category_enabled(EventKind::Serial));
    assert!(!state.event_category_enabled(EventKind::Exit));

    // Already on: no new buffer is needed.
    let faults = BedrockEventConfig {
        exit_flags: 2,
        ..EVENTS
    };
    assert_eq!(handle_set_event_config(&mut state, &faults, None), Ok(()));
    assert!(state.core.intercept_pf);

    let off = BedrockEventConfig {
        enabled: 0,
        exit_trigger: 1,
        ..EVENTS
    };
    assert_eq!(handle_set_event_config(&mut state, &off, None), Ok(()));
    assert!(state.event_buffer_ptr().is_none());
    assert_eq!(state.exit_trigger(), ExitTrigger::Disabled);
}

#[test]
fn unknown_trigger_is_rejected_after_the_categories() {
    let mut state = mock_state();
    let wrong = BedrockEventConfig {
        exit_trigger: 6,
        ..EVENTS
    };
    assert_eq!(
        handle_set_event_config(&mut state, &wrong, fresh_buffer()),
        Err(Errno::Einval)
    );
    assert!(state.event_buffer_ptr().is_some());
    assert!(state.event_category_enabled(EventKind::Serial));
    assert_eq!(state.exit_trigger(), ExitTrigger::Disabled);
}

#[test]
fn stop_point_and_single_steps() {
    let mut state = mock_state();
    handle_set_stop_tsc(&mut state, 9);
    assert_eq!(state.core.stop_at_tsc, Some(9));
    handle_set_stop_tsc(&mut state, 0);
    assert_eq!(state.core.stop_at_tsc, None);

    let on = BedrockSingleStepConfig {
        enabled: 1,
        tsc_start: 10,
        tsc_end: 20,
    };
    handle_set_single_step(&mut state, &on);
    assert_eq!(state.core.single_step_tsc_range, Some((10, 20)));
    state.core.mtf_enabled = true;
    let off = BedrockSingleStepConfig { enabled: 0, ..on };
    handle_set_single_step(&mut state, &off);
    assert_eq!(state.core.single_step_tsc_range, None);
    // The trap flag is still set in the VMCS; the next run clears both.
    assert!(state.core.mtf_enabled);
    let controls = VmcsField32::PrimaryProcBasedVmExecControls;
    state.vmcs.set_field32(controls, 0x4 | MONITOR_TRAP_FLAG);
    assert!(update_mtf(&mut state).is_ok());
    assert_eq!(state.vmcs.get_field32(controls), Some(0x4));
    assert!(!state.core.mtf_enabled);
}

#[test]
fn run_releases_the_vm_however_it_went() {
    let exit = exit_info(&mock_state(), ExitReason::Hlt);
    let outcomes = [
        (Ok(exit), true, Ok(())),
        (Ok(exit), false, Err(Errno::Efault)),
        (Err(Errno::Eio), false, Err(Errno::Eio)),
    ];
    for (outcome, copied, expected) in outcomes {
        let mut running = false;
        assert_eq!(claim_run(&mut running, 0), Ok(()));
        assert_eq!(release_run(&mut running, outcome, copied), expected);
        assert!(!running);
        assert_eq!(claim_run(&mut running, 0), Ok(()));
    }
}

#[test]
fn feedback_buffers_can_be_enumerated() {
    let mut state = mock_state();
    let mut buffer = FeedbackBufferInfo::default();
    buffer.gva = 0x5000;
    buffer.size = 4096;
    buffer.num_pages = 1;
    buffer.id[0] = b'x';
    buffer.id_len = 1;
    state.feedback_buffers.push(buffer);
    let info = handle_get_feedback_buffer_info(&state, 0);
    assert_eq!((info.registered, info.index, info.gva), (1, 0, 0x5000));
    assert_eq!((info.size, info.num_pages, info.id_len), (4096, 1, 1));
    assert_eq!(info.id[0], b'x');
    let gap = handle_get_feedback_buffer_info(&state, 1);
    assert_eq!((gap.registered, gap.index, gap.gva), (0, 1, 0));
}

#[test]
fn io_requests_queue_in_order() {
    let mut state = mock_state();
    let header = BedrockIoActionHeader {
        len: 2,
        target_tsc: 30,
    };
    assert_eq!(
        handle_queue_io_action(&mut state, &header, vec![1, 2]),
        Ok(())
    );
    assert_eq!(state.io_channel.request_len, 2);
    assert_eq!(state.io_channel.request_target_tsc, 30);
    assert!(state.io_channel.pending.is_empty());
    for _ in 0..PENDING_IO_QUEUE_CAP {
        assert_eq!(
            handle_queue_io_action(&mut state, &header, vec![3, 4]),
            Ok(())
        );
    }
    assert_eq!(
        handle_queue_io_action(&mut state, &header, vec![5, 6]),
        Err(Errno::Ebusy)
    );
    assert_eq!(state.io_channel.request_buf[..2], [1, 2]);
    let big = BedrockIoActionHeader {
        len: 4097,
        target_tsc: 0,
    };
    assert_eq!(
        handle_queue_io_action(&mut state, &big, vec![0; 4097]),
        Err(Errno::Einval)
    );
}

#[test]
fn io_response_is_drained_once() {
    let mut state = mock_state();
    state.io_channel.response_buf[..3].copy_from_slice(&[7, 8, 9]);
    state.io_channel.response_len = 3;
    let small = BedrockIoActionHeader {
        len: 2,
        target_tsc: 1,
    };
    let (header, data) = handle_drain_io_response(&state, &small).unwrap();
    assert_eq!((header.len, header.target_tsc), (2, 0));
    assert_eq!(data, vec![7, 8]);
    finish_drain(&mut state);
    let (header, data) = handle_drain_io_response(&state, &small).unwrap();
    assert_eq!(header.len, 0);
    assert!(data.is_empty());
    let big = BedrockIoActionHeader {
        len: 5000,
        target_tsc: 0,
    };
    assert!(matches!(
        handle_drain_io_response(&state, &big),
        Err(Errno::Einval)
    ));
}

#[test]
fn statistics_are_handed_out_as_recorded() {
    let mut state = mock_state();
    state.host.exit_stats.record(ExitReason::Rdtsc, 12);
    state.host.exit_stats.record(ExitReason::Hlt, 5);
    state.host.exit_stats.guest_cycles = 99;
    let stats = handle_get_exit_stats(&state);
    assert_eq!((stats.rdtsc.count, stats.rdtsc.cycles), (1, 12));
    assert_eq!((stats.other.count, stats.other.cycles), (1, 5));
    assert_eq!(stats.guest_cycles, 99);
    assert_eq!(stats.cpuid.count, 0);
}

#[test]
fn device_commands() {
    assert_eq!(
        decode_command(BEDROCK_CREATE_ROOT_VM),
        Ok(DeviceCommand::CreateRootVm)
    );
    assert_eq!(
        decode_command(BEDROCK_CREATE_FORKED_VM),
        Ok(DeviceCommand::CreateForkedVm)
    );
    assert_eq!(decode_command(0), Err(Errno::Enotty));
}

#[test]
fn root_vm_creation_reports_the_first_failure() {
    let good = BedrockCreateVmConfig {
        memory_size: 0x1000,
        tsc_frequency: 1,
    };
    let no_memory = BedrockCreateVmConfig {
        memory_size: 0,
        ..good
    };
    let no_clock = BedrockCreateVmConfig {
        tsc_frequency: 0,
        ..good
    };
    assert_eq!(check_create_config(&good), Ok(()));
    assert_eq!(check_create_config(&no_memory), Err(Errno::Einval));
    assert_eq!(check_create_config(&no_clock), Err(Errno::Einval));
    assert_eq!(
        create_root_vm_result(&no_memory, None, false, Ok(3)),
        Err(Errno::Einval)
    );
    assert_eq!(
        create_root_vm_result(&good, None, true, Ok(3)),
        Err(Errno::Enodev)
    );
    assert_eq!(
        create_root_vm_result(&good, Some(None), true, Ok(3)),
        Err(Errno::Enospc)
    );
    assert_eq!(
        create_root_vm_result(&good, Some(Some(1)), false, Ok(3)),
        Err(Errno::Enomem)
    );
    assert_eq!(
        create_root_vm_result(&good, Some(Some(1)), true, Ok(3)),
        Ok(3)
    );
}

#[test]
fn failed_forks_are_not_counted() {
    let mut parent = RootVm::new(mock_state(), vec![0u8; 0x1000]);
    assert_eq!(
        begin_fork::<RootVm>(Some(Some(4)), None),
        Err(Errno::Enoent)
    );
    assert_eq!(begin_fork(None, Some(&mut parent)), Err(Errno::Enodev));
    assert_eq!(
        begin_fork(Some(None), Some(&mut parent)),
        Err(Errno::Enospc)
    );
    assert_eq!(parent.children_count(), 0);
    assert_eq!(begin_fork(Some(Some(4)), Some(&mut parent)), Ok(4));
    assert_eq!(parent.children_count(), 1);
    assert_eq!(settle_fork(&mut parent, false), Err(Errno::Enomem));
    assert_eq!(parent.children_count(), 0);
    assert_eq!(begin_fork(Some(Some(5)), Some(&mut parent)), Ok(5));
    assert_eq!(settle_fork(&mut parent, true), Ok(()));
    assert_eq!(parent.children_count(), 1);
}
