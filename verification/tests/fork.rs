use bedrock_vmx::device::create_forked_vm;
use bedrock_vmx::ept::{EptLeaf, EptPageTable, EptPermissions};
use bedrock_vmx::events::types::{EventCategories, EVENT_BUFFER_SIZE, EVENT_HEADER_SIZE};
use bedrock_vmx::exits::handler::handle_exit;
use bedrock_vmx::exits::helpers::ExitHandlerResult;
use bedrock_vmx::exits::reasons::ExitReason;
use bedrock_vmx::exits::targets::{update_mtf, MONITOR_TRAP_FLAG};
use bedrock_vmx::fields::{VmcsField16, VmcsField32, VmcsField64, VmcsFieldNatural};
use bedrock_vmx::hash::Xxh64Hasher;
use bedrock_vmx::host::HostState;
use bedrock_vmx::page::PagePool;
use bedrock_vmx::traits::errors::{InveptError, MemoryError, VmcsSetupError};
use bedrock_vmx::traits::vm_context::{ForkableVm, ParentVm, VmContext};
use bedrock_vmx::traits::vm_run::take_invept;
use bedrock_vmx::vm::forked::{release_child, ForkedVm, ForkedVmError};
use bedrock_vmx::vm::root::RootVm;
use bedrock_vmx::vm_file::structs::Errno;
use bedrock_vmx::vm_pages::VmPages;
use bedrock_vmx::vm_state::{ExitTrigger, ForkSteps, VmState, VmStateError};
use bedrock_vmx::vmcs::Vmcs;

const ALL_STEPS: ForkSteps = ForkSteps {
    parent_cleared: true,
    child_loaded: true,
    invept: true,
    child_cleared: true,
};

fn pool(n: u64) -> PagePool {
    let mut pool = PagePool::new();
    for i in 0..n {
        pool.refill(0x10_0000 + i * 0x1000, 0xffff_8000_0010_0000 + i * 0x1000);
    }
    pool
}

/// A root VM with four pages of memory, each byte of a page being its number.
fn parent() -> RootVm {
    let pages = match VmPages::new(&mut pool(5)) {
        Ok(pages) => pages,
        Err(_) => panic!("no pages"),
    };
    let mut ept = EptPageTable::new(0x9000);
    for i in 0..4 {
        ept.map_4k(i * 0x1000, 0x50_0000 + i * 0x1000, EptPermissions::ReadWriteExecute);
    }
    let state = match VmState::new::<()>(
        Vmcs::new(),
        ept,
        pages,
        Ok(()),
        Ok(()),
        HostState::default(),
        None,
        8,
        2_000_000_000,
    ) {
        Ok(state) => state,
        Err(_) => panic!("no state"),
    };
    let mut memory = Vec::new();
    for i in 0..4u8 {
        memory.extend(vec![i; 0x1000]);
    }
    RootVm::new(state, memory)
}

fn fork<'p>(parent: &'p mut RootVm, pool: &mut PagePool) -> ForkedVm<'p, RootVm> {
    match ForkedVm::new::<()>(parent, pool, Ok(0xA000), true, ALL_STEPS, 7) {
        Ok(vm) => vm,
        Err(_) => panic!("fork failed"),
    }
}

fn write_fault<P: ForkableVm>(vm: &mut ForkedVm<P>, gpa: u64, pool: &mut PagePool) -> ExitHandlerResult {
    let vmcs = &mut vm.state.vmcs;
    vmcs.loaded = true;
    vmcs.set_field32(VmcsField32::VmExitReason, ExitReason::EptViolation.as_u32());
    vmcs.set_field_natural(VmcsFieldNatural::ExitQualification, 0x2);
    vmcs.set_field64(VmcsField64::GuestPhysicalAddr, gpa);
    handle_exit(vm, pool, None, 10)
}

#[test]
fn fork_sees_the_parents_memory() {
    let mut root = parent();
    let vm = fork(&mut root, &mut pool(5));
    assert!(vm.is_forked());
    assert_eq!(vm.memory_size(), 0x4000);
    let mut buf = [0u8; 4];
    assert!(vm.read_guest_memory(0x1FFE, &mut buf).is_ok());
    assert_eq!(buf, [1, 1, 2, 2]);
    assert_eq!(vm.read_page(0x3123).unwrap(), &[3u8; 0x1000][..]);
    assert!(vm.read_page(0x4000).is_none());
}

#[test]
fn fork_counts_as_a_child_and_starts_quiescent() {
    let mut root = parent();
    root.state.core.emulated_tsc = 500;
    root.state.core.tsc_offset = 40;
    root.state.core.stop_at_tsc = Some(900);
    assert_eq!(root.children_count(), 0);
    let vm = fork(&mut root, &mut pool(5));
    assert_eq!(vm.parent.children_count(), 1);
    assert_eq!(vm.children_count(), 0);
    assert_eq!(vm.state.core.emulated_tsc, 500);
    // The child counts its own instructions from zero.
    assert_eq!(vm.state.core.tsc_offset, 500);
    assert_eq!(vm.state.core.last_instruction_count, 0);
    assert_eq!(vm.state.event_buffer_len(), 0);
}

#[test]
fn writes_need_an_own_page() {
    let mut root = parent();
    let mut vm = fork(&mut root, &mut pool(5));
    assert_eq!(
        vm.write_guest_memory(0x1000, &[9]),
        Err(MemoryError::PermissionDenied)
    );
    let mut free = pool(1);
    assert_eq!(
        write_fault(&mut vm, 0x1234, &mut free),
        ExitHandlerResult::Continue
    );
    assert!(free.frames.is_empty());
    assert!(vm.write_guest_memory(0x1234, &[9, 8]).is_ok());
    let mut buf = [0u8; 4];
    assert!(vm.read_guest_memory(0x1233, &mut buf).is_ok());
    assert_eq!(buf, [1, 9, 8, 1]);
    // The parent still shows what it always did.
    assert_eq!(vm.parent.memory[0x1234], 1);
}

#[test]
fn fork_write_protects_until_the_copy() {
    let mut root = parent();
    let mut vm = fork(&mut root, &mut pool(5));
    assert_eq!(
        vm.state.ept.lookup(0x2000),
        Some(EptLeaf {
            hpa: 0x50_2000,
            permissions: EptPermissions::ReadExecute
        })
    );
    let mut free = pool(1);
    assert!(!take_invept(&mut vm.state));
    let _ = write_fault(&mut vm, 0x2008, &mut free);
    assert!(take_invept(&mut vm.state));
    assert_eq!(
        vm.state.ept.lookup(0x2000),
        Some(EptLeaf {
            hpa: 0x10_0000,
            permissions: EptPermissions::ReadWriteExecute
        })
    );
}

#[test]
fn second_fault_is_stale() {
    let mut root = parent();
    let mut vm = fork(&mut root, &mut pool(5));
    let mut free = pool(3);
    let _ = write_fault(&mut vm, 0x2008, &mut free);
    assert_eq!(vm.state.host.exit_stats.cow.stale_tlb_faults, 0);
    assert!(take_invept(&mut vm.state));
    assert_eq!(
        write_fault(&mut vm, 0x2FFF, &mut free),
        ExitHandlerResult::Continue
    );
    assert_eq!(vm.state.host.exit_stats.cow.stale_tlb_faults, 1);
    assert!(!take_invept(&mut vm.state));
    assert_eq!(free.frames.len(), 2);
}

#[test]
fn empty_pool_asks_for_a_refill() {
    let mut root = parent();
    let mut vm = fork(&mut root, &mut pool(5));
    assert_eq!(
        write_fault(&mut vm, 0x2008, &mut PagePool::new()),
        ExitHandlerResult::ExitToUserspace(ExitReason::PoolExhausted)
    );
    assert_eq!(
        write_fault(&mut vm, 0x8000, &mut pool(1)),
        ExitHandlerResult::ExitToUserspace(ExitReason::EptViolation)
    );
}

#[test]
fn write_across_pages_reaches_both() {
    let mut root = parent();
    let mut vm = fork(&mut root, &mut pool(5));
    let mut free = pool(2);
    let _ = write_fault(&mut vm, 0x1000, &mut free);
    let _ = write_fault(&mut vm, 0x2000, &mut free);
    assert!(vm.write_guest_memory(0x1FFE, &[5, 6, 7]).is_ok());
    let mut buf = [0u8; 5];
    assert!(vm.read_guest_memory(0x1FFD, &mut buf).is_ok());
    assert_eq!(buf, [1, 5, 6, 7, 2]);
}

#[test]
fn grandchildren_see_their_parents_copies() {
    let mut root = parent();
    let mut child = fork(&mut root, &mut pool(5));
    let _ = write_fault(&mut child, 0x1000, &mut pool(1));
    assert!(child.write_guest_memory(0x1000, &[42]).is_ok());
    let grandchild =
        match ForkedVm::new::<()>(&mut child, &mut pool(5), Ok(0xB000), true, ALL_STEPS, 8) {
            Ok(vm) => vm,
            Err(_) => panic!("fork failed"),
        };
    let mut buf = [0u8; 2];
    assert!(grandchild.read_guest_memory(0x1000, &mut buf).is_ok());
    assert_eq!(buf, [42, 1]);
}

#[test]
fn io_page_is_copied_with_the_fork() {
    let mut root = parent();
    root.state.io_channel.page_gpa = 0x3000;
    let mut vm = fork(&mut root, &mut pool(6));
    assert!(vm.cow_pages.contains(0x3000));
    assert!(vm.write_guest_memory(0x3000, &[1]).is_ok());
}

#[test]
fn fork_errors_name_the_first_step_that_failed() {
    let mut root = parent();
    assert!(matches!(
        ForkedVm::new::<u8>(&mut root, &mut pool(5), Err(3), false, ALL_STEPS, 7),
        Err(ForkedVmError::EptClone(3))
    ));
    assert!(matches!(
        ForkedVm::new::<u8>(&mut root, &mut pool(5), Ok(1), false, ALL_STEPS, 7),
        Err(ForkedVmError::VmcsAlloc)
    ));
    assert!(matches!(
        ForkedVm::new::<u8>(&mut root, &mut pool(0), Ok(1), true, ALL_STEPS, 7),
        Err(ForkedVmError::VmState(_))
    ));
    let stuck = ForkSteps {
        invept: false,
        ..ALL_STEPS
    };
    assert!(matches!(
        ForkedVm::new::<u8>(&mut root, &mut pool(5), Ok(1), true, stuck, 7),
        Err(ForkedVmError::VmState(VmStateError::InveptFailed))
    ));
    let unloaded = ForkSteps {
        child_loaded: false,
        ..ALL_STEPS
    };
    assert!(matches!(
        ForkedVm::new::<u8>(&mut root, &mut pool(5), Ok(1), true, unloaded, 7),
        Err(ForkedVmError::VmState(VmStateError::GuestStateCopy))
    ));
    // Every attempt was counted.
    assert_eq!(root.children_count(), 5);
}

#[test]
fn child_gets_its_own_vpid() {
    let mut root = parent();
    root.state
        .vmcs
        .set_field32(VmcsField32::SecondaryProcBasedVmExecControls, 0x20);
    root.state
        .vmcs
        .set_field16(VmcsField16::VirtualProcessorId, 3);
    let vm = fork(&mut root, &mut pool(5));
    assert_eq!(vm.state.host.vpid, 7);
}

#[test]
fn exit_records_fingerprint_memory() {
    let mut root = parent();
    root.state.set_event_buffer(vec![0u8; EVENT_BUFFER_SIZE]);
    root.state.set_event_categories(EventCategories::exit());
    root.state.set_exit_trigger(ExitTrigger::AllExits, 0);
    root.state.capture_exit(ExitReason::Cpuid, 0, true);
    root.finalize_exit_record();

    let mut hasher = Xxh64Hasher::new();
    hasher.write_bytes(&root.memory);
    let expected = hasher.finish();
    let buffer = root.state.event_buffer_ptr().unwrap();
    let at = EVENT_HEADER_SIZE + 216;
    assert_eq!(
        u64::from_le_bytes(buffer[at..at + 8].try_into().unwrap()),
        expected
    );
    assert_ne!(expected, 0);
}

#[test]
fn forked_records_fingerprint_owned_pages() {
    let mut root = parent();
    let mut vm = fork(&mut root, &mut pool(5));
    let _ = write_fault(&mut vm, 0x2000, &mut pool(1));
    vm.state.set_event_buffer(vec![0u8; EVENT_BUFFER_SIZE]);
    vm.state.set_event_categories(EventCategories::exit());
    vm.state.set_exit_trigger(ExitTrigger::AllExits, 0);
    vm.state.capture_exit(ExitReason::Cpuid, 0, true);
    vm.finalize_exit_record();

    let mut hasher = Xxh64Hasher::new();
    hasher.write_u64(0x2000);
    hasher.write_bytes(&[2u8; 0x1000]);
    let expected = hasher.finish();
    let buffer = vm.state.event_buffer_ptr().unwrap();
    let at = EVENT_HEADER_SIZE + 216;
    assert_eq!(
        u64::from_le_bytes(buffer[at..at + 8].try_into().unwrap()),
        expected
    );
    let count = EVENT_HEADER_SIZE + 300;
    assert_eq!(buffer[count..count + 4], [1, 0, 0, 0]);
}

/// Two children of one parent, with other pages, page tables and VPIDs, on hosts
/// whose clocks differ.
fn drive(root: &mut RootVm, first_page: u64, vpid: u16, clock: u64) -> (Vec<ExitHandlerResult>, Vec<u8>, u64, u64) {
    let mut pool = PagePool::new();
    for i in 0..7 {
        pool.refill(first_page + i * 0x1000, 0xffff_8000_0000_0000 + first_page + i * 0x1000);
    }
    let mut vm = match ForkedVm::new::<()>(root, &mut pool, Ok(first_page), true, ALL_STEPS, vpid) {
        Ok(vm) => vm,
        Err(_) => panic!("fork failed"),
    };
    vm.state.set_event_buffer(vec![0u8; EVENT_BUFFER_SIZE]);
    vm.state.set_event_categories(EventCategories::exit());
    vm.state.set_exit_trigger(ExitTrigger::AllExits, 0);
    vm.state.host.tsc = clock;
    let mut results = vec![write_fault(&mut vm, 0x2008, &mut pool)];
    vm.finalize_exit_record();
    let vmcs = &mut vm.state.vmcs;
    vmcs.set_field32(VmcsField32::VmExitReason, ExitReason::Rdtsc.as_u32());
    vmcs.set_field32(VmcsField32::VmExitInstructionLen, 2);
    vmcs.set_field_natural(VmcsFieldNatural::GuestRip, 0x1000);
    vm.state.core.last_instruction_count = 25;
    results.push(handle_exit(&mut vm, &mut pool, None, clock));
    vm.finalize_exit_record();
    let len = vm.state.event_buffer_len();
    let mut events = vm.state.event_buffer_ptr().unwrap()[..len].to_vec();
    // Each record is a header and a 512-byte payload; the host stamp stands at 16.
    for record in events.chunks_mut(EVENT_HEADER_SIZE + 512) {
        assert_eq!(u64::from_le_bytes(record[16..24].try_into().unwrap()), clock);
        record[16..24].fill(0);
    }
    (results, events, vm.state.core.gprs.rax, vm.state.core.emulated_tsc)
}

#[test]
fn siblings_run_alike_on_any_host() {
    let mut root = parent();
    root.state.core.emulated_tsc = 500;
    let a = drive(&mut root, 0x10_0000, 7, 11);
    let b = drive(&mut root, 0x90_0000, 8, 7_000_000);
    assert_eq!(a.0, vec![ExitHandlerResult::Continue, ExitHandlerResult::Continue]);
    assert_eq!(a.1.len(), 2 * (EVENT_HEADER_SIZE + 512));
    assert_eq!(a.2, 525);
    assert_eq!(a, b);
}

#[test]
fn host_interrupt_leaves_the_guest_alone() {
    let mut root = parent();
    root.state.core.emulated_tsc = 500;
    root.state.core.gprs.rax = 3;
    root.state.core.last_instruction_count = 900;
    let vmcs = &mut root.state.vmcs;
    vmcs.set_field32(VmcsField32::VmExitReason, ExitReason::ExternalInterrupt.as_u32());
    vmcs.set_field_natural(VmcsFieldNatural::ExitQualification, 0);
    vmcs.set_field_natural(VmcsFieldNatural::GuestRip, 0x1000);
    let memory = root.memory.clone();
    assert_eq!(
        handle_exit(&mut root, &mut pool(1), None, 10),
        ExitHandlerResult::Continue
    );
    assert_eq!(root.state.core.emulated_tsc, 500);
    assert_eq!(root.state.core.gprs.rax, 3);
    assert_eq!(
        root.state.vmcs.get_field_natural(VmcsFieldNatural::GuestRip),
        Some(0x1000)
    );
    assert_eq!(root.memory, memory);
}

/// The outcome of a fork command, without the VM.
fn fork_command(
    root: Option<&mut RootVm>,
    handler: Option<Option<u64>>,
    free: &mut PagePool,
    steps: ForkSteps,
) -> Result<u64, Errno> {
    match create_forked_vm::<RootVm, ()>(handler, root, free, Ok(0xA000), true, steps, 7) {
        Ok((id, _)) => Ok(id),
        Err(e) => Err(e),
    }
}

#[test]
fn fork_command_counts_the_children_it_made() {
    let mut root = parent();
    let stuck = ForkSteps {
        child_cleared: false,
        ..ALL_STEPS
    };
    let r = fork_command(Some(&mut root), None, &mut pool(5), ALL_STEPS);
    assert_eq!(r, Err(Errno::Enodev));
    let r = fork_command(Some(&mut root), Some(None), &mut pool(5), ALL_STEPS);
    assert_eq!(r, Err(Errno::Enospc));
    let r = fork_command(None, Some(Some(3)), &mut pool(5), ALL_STEPS);
    assert_eq!(r, Err(Errno::Enoent));
    let mut free = pool(4);
    let r = fork_command(Some(&mut root), Some(Some(3)), &mut free, ALL_STEPS);
    assert_eq!(r, Err(Errno::Enomem));
    assert_eq!(free.frames.len(), 0);
    let mut free = pool(7);
    let r = fork_command(Some(&mut root), Some(Some(3)), &mut free, stuck);
    assert_eq!(r, Err(Errno::Enomem));
    assert_eq!(free.frames.len(), 2);
    assert_eq!(root.children_count(), 0);
    let r = fork_command(Some(&mut root), Some(Some(3)), &mut pool(5), ALL_STEPS);
    assert_eq!(r, Ok(3));
    assert_eq!(root.children_count(), 1);
}

#[test]
fn retired_child_frees_its_vpid() {
    let mut root = parent();
    root.state
        .vmcs
        .set_field32(VmcsField32::SecondaryProcBasedVmExecControls, 0x20);
    let vpid = fork(&mut root, &mut pool(5)).retire();
    assert_eq!(vpid, 7);
    assert_eq!(root.children_count(), 1);
    assert_eq!(release_child(&mut root, vpid), Some(7));
    assert_eq!(root.children_count(), 0);
    assert_eq!(release_child(&mut root, 0), None);
}

#[test]
fn running_keeps_the_count_of_children() {
    let mut root = parent();
    let mut vm = fork(&mut root, &mut pool(5));
    vm.add_child();
    let mut free = pool(1);
    let _ = write_fault(&mut vm, 0x2008, &mut free);
    vm.finalize_exit_record();
    vm.state_mut().core.emulated_tsc = 1;
    assert_eq!(vm.children_count(), 1);
}

#[test]
fn root_state_on_a_pool_lets_few_msrs_through() {
    let build = |free: &mut PagePool, setup, invept| {
        VmState::new_on_pool::<()>(
            Vmcs::new(),
            EptPageTable::new(0x9000),
            free,
            setup,
            invept,
            HostState::default(),
            None,
            8,
            2_000_000_000,
        )
    };
    assert!(matches!(
        build(&mut pool(0), Ok(()), Ok(())),
        Err(VmStateError::MsrBitmapAlloc)
    ));
    assert!(matches!(
        build(&mut pool(5), Err(VmcsSetupError::Clear("busy")), Ok(())),
        Err(VmStateError::VmcsSetup(VmcsSetupError::Clear("busy")))
    ));
    assert!(matches!(
        build(&mut pool(5), Ok(()), Err(InveptError::NotSupported)),
        Err(VmStateError::InveptFailed)
    ));
    let mut free = pool(6);
    let state = match build(&mut free, Ok(()), Ok(())) {
        Ok(state) => state,
        Err(_) => panic!("no state"),
    };
    assert_eq!(free.frames.len(), 1);
    let bitmap = &state.host.pages.msr_bitmap;
    assert_eq!(bitmap.phys, 0x10_5000);
    // IA32_EFER, and its neighbour IA32_STAR; nothing between 0 and 0x173.
    assert_eq!(bitmap.bytes[0x400 + 0x80 / 8] & 0x3, 0);
    assert!(bitmap.bytes[..0x170 / 8].iter().all(|b| *b == 0xFF));
}

#[test]
fn child_sheds_an_inherited_trap_flag() {
    let controls = VmcsField32::PrimaryProcBasedVmExecControls;
    let mut root = parent();
    root.state.vmcs.set_field32(controls, 0x4);
    root.state.core.single_step_tsc_range = Some((0, 100));
    assert!(update_mtf(&mut root.state).is_ok());
    assert_eq!(
        root.state.vmcs.get_field32(controls),
        Some(0x4 | MONITOR_TRAP_FLAG)
    );
    let mut vm = fork(&mut root, &mut pool(5));
    assert!(vm.state.core.mtf_enabled);
    assert_eq!(vm.state.core.single_step_tsc_range, None);
    vm.state.vmcs.loaded = true;
    assert!(update_mtf(&mut vm.state).is_ok());
    assert!(!vm.state.core.mtf_enabled);
    assert_eq!(vm.state.vmcs.get_field32(controls), Some(0x4));
}
