use bedrock_vmx::devices::ioapic::IO_CHANNEL_IRQ;
use bedrock_vmx::devices::random::RdrandMode;
use bedrock_vmx::ept::EptPageTable;
use bedrock_vmx::events::types::{
    align_up, EventCategories, EventKind, EVENT_BUFFER_SIZE, EVENT_HEADER_SIZE,
};
use bedrock_vmx::exits::handler::handle_exit;
use bedrock_vmx::exits::helpers::{ExitError, ExitHandlerResult};
use bedrock_vmx::exits::interrupts::check_io_channel;
use bedrock_vmx::exits::qualifications::{RdrandInstructionInfo, RdrandOperandSize};
use bedrock_vmx::exits::rdrand::{handle_rdrand, handle_rdseed};
use bedrock_vmx::exits::reasons::ExitReason;
use bedrock_vmx::exits::targets::{next_single_step_start_count, next_single_step_start_tsc};
use bedrock_vmx::exits::time::{handle_idle, handle_rdpmc, handle_rdtsc, handle_rdtscp};
use bedrock_vmx::exits::vmcall::{
    FB_ERR_BAD_ID_LEN, FB_ERR_BAD_SIZE, FB_ERR_BUFFER_NOT_RESIDENT, FB_ERR_ID_NOT_RESIDENT,
};
use bedrock_vmx::feedback::FEEDBACK_BUFFER_MAX_PAGES;
use bedrock_vmx::fields::{VmcsField32, VmcsFieldNatural};
use bedrock_vmx::host::HostState;
use bedrock_vmx::hypercalls::{
    HYPERCALL_GET_RANDOM, HYPERCALL_IO_GET_REQUEST, HYPERCALL_IO_PUT_RESPONSE,
    HYPERCALL_IO_REGISTER_PAGE, HYPERCALL_REGISTER_FEEDBACK_BUFFER,
    HYPERCALL_SERIAL_REGISTER_PAGE, HYPERCALL_SERIAL_WRITE,
};
use bedrock_vmx::io_channel::PendingIoAction;
use bedrock_vmx::page::PagePool;
use bedrock_vmx::vm::root::RootVm;
use bedrock_vmx::vm_pages::VmPages;
use bedrock_vmx::vm_state::{ExitTrigger, VmState};
use bedrock_vmx::vmcs::Vmcs;

/// A root VM with 64 KB of memory.
fn mock_vm() -> RootVm {
    let mut pool = PagePool::new();
    for i in 0..5 {
        pool.refill(0x10_0000 + i * 0x1000, 0xffff_8000_0010_0000 + i * 0x1000);
    }
    let pages = match VmPages::new(&mut pool) {
        Ok(pages) => pages,
        Err(_) => panic!("no pages"),
    };
    let state = match VmState::new::<()>(
        Vmcs::new(),
        EptPageTable::new(0x9000),
        pages,
        Ok(()),
        Ok(()),
        HostState::default(),
        None,
        8,
        2_000_000_000,
    ) {
        Ok(state) => state,
        Err(_) => panic!("no state"),
    };
    RootVm::new(state, vec![0u8; 0x10000])
}

fn set_exit(vm: &mut RootVm, reason: ExitReason, qual: u64, rip: u64, len: u32) {
    let vmcs = &mut vm.state.vmcs;
    vmcs.set_field32(VmcsField32::VmExitReason, reason.as_u32());
    vmcs.set_field_natural(VmcsFieldNatural::ExitQualification, qual);
    vmcs.set_field_natural(VmcsFieldNatural::GuestRip, rip);
    vmcs.set_field32(VmcsField32::VmExitInstructionLen, len);
}

fn set_exit_reason(vm: &mut RootVm, reason: ExitReason) {
    vm.state
        .vmcs
        .set_field32(VmcsField32::VmExitReason, reason.as_u32());
}

fn set_guest_rip(vm: &mut RootVm, rip: u64) {
    vm.state
        .vmcs
        .set_field_natural(VmcsFieldNatural::GuestRip, rip);
}

fn set_instruction_len(vm: &mut RootVm, len: u32) {
    vm.state
        .vmcs
        .set_field32(VmcsField32::VmExitInstructionLen, len);
}

fn set_instruction_info(vm: &mut RootVm, info: u32) {
    vm.state
        .vmcs
        .set_field32(VmcsField32::VmExitInstructionInfo, info);
}

fn set_guest_rflags(vm: &mut RootVm, rflags: u64) {
    vm.state
        .vmcs
        .set_field_natural(VmcsFieldNatural::GuestRflags, rflags);
}

fn guest_rip(vm: &RootVm) -> Option<u64> {
    vm.state
        .vmcs
        .get_field_natural(VmcsFieldNatural::GuestRip)
}

fn exit(vm: &mut RootVm) -> ExitHandlerResult {
    handle_exit(vm, &mut PagePool::new(), None, 0)
}

#[test]
fn test_cpuid_exit_basic() {
    let mut vm = mock_vm();
    set_exit(&mut vm, ExitReason::Cpuid, 0, 0x1000, 2);
    vm.state.core.gprs.rax = 0;
    vm.state.core.gprs.rcx = 0;

    let result = exit(&mut vm);
    assert_eq!(result, ExitHandlerResult::Continue);
    assert_eq!(guest_rip(&vm), Some(0x1002));
    assert!(vm.state.core.gprs.rax > 0);
}

#[test]
fn test_cpuid_leaf_1_feature_flags() {
    let mut vm = mock_vm();
    set_exit(&mut vm, ExitReason::Cpuid, 0, 0x1000, 2);
    vm.state.core.gprs.rax = 1;
    vm.state.core.gprs.rcx = 0;

    let result = exit(&mut vm);
    assert_eq!(result, ExitHandlerResult::Continue);

    let ecx = vm.state.core.gprs.rcx as u32;
    assert_eq!(ecx & (1 << 5), 0, "VMX bit should be hidden from guest");
    assert_ne!(ecx & (1 << 31), 0, "Hypervisor bit should be set");

    let eax = vm.state.core.gprs.rax as u32;
    let stepping = eax & 0xF;
    let model = ((eax >> 4) & 0xF) | (((eax >> 16) & 0xF) << 4);
    let family = (eax >> 8) & 0xF;
    assert_eq!(stepping, 7, "Stepping should be 7");
    assert_eq!(model, 85, "Model should be 85 (0x55)");
    assert_eq!(family, 6, "Family should be 6");
}

#[test]
fn test_cpuid_brand_string() {
    let mut vm = mock_vm();
    set_exit(&mut vm, ExitReason::Cpuid, 0, 0x1000, 2);

    let brand_leaves = [0x80000002, 0x80000003, 0x80000004];
    let mut brand_bytes = Vec::new();

    for &leaf in &brand_leaves {
        vm.state.core.gprs.rax = leaf;
        vm.state.core.gprs.rcx = 0;

        let result = exit(&mut vm);
        assert_eq!(result, ExitHandlerResult::Continue);

        brand_bytes.extend_from_slice(&(vm.state.core.gprs.rax as u32).to_le_bytes());
        brand_bytes.extend_from_slice(&(vm.state.core.gprs.rbx as u32).to_le_bytes());
        brand_bytes.extend_from_slice(&(vm.state.core.gprs.rcx as u32).to_le_bytes());
        brand_bytes.extend_from_slice(&(vm.state.core.gprs.rdx as u32).to_le_bytes());
    }

    let brand_string = String::from_utf8(brand_bytes).unwrap();
    let expected_brand = "Bedrock VM CPU";
    assert!(
        brand_string.contains(expected_brand),
        "Brand string should contain expected: got '{}'",
        brand_string.trim_end_matches('\0').trim()
    );
}

#[test]
fn test_msr_read_exits_to_userspace() {
    let mut vm = mock_vm();
    set_exit(&mut vm, ExitReason::MsrRead, 0, 0x1000, 2);
    vm.state.core.gprs.rcx = 0xC0000080;

    let result = exit(&mut vm);
    assert_eq!(
        result,
        ExitHandlerResult::ExitToUserspace(ExitReason::MsrRead)
    );
    assert_eq!(guest_rip(&vm), Some(0x1002));
}

#[test]
fn test_msr_write_exits_to_userspace() {
    let mut vm = mock_vm();
    set_exit(&mut vm, ExitReason::MsrWrite, 0, 0x1000, 2);
    vm.state.core.gprs.rcx = 0xC0000080;
    vm.state.core.gprs.rax = 0x501;
    vm.state.core.gprs.rdx = 0;

    let result = exit(&mut vm);
    assert_eq!(
        result,
        ExitHandlerResult::ExitToUserspace(ExitReason::MsrWrite)
    );
    assert_eq!(guest_rip(&vm), Some(0x1002));
}

#[test]
fn test_cr_access_mov_to_cr3() {
    let mut vm = mock_vm();
    set_exit(&mut vm, ExitReason::CrAccess, 0x3, 0x1000, 3);
    vm.state.core.gprs.rax = 0x12345000;

    let result = exit(&mut vm);
    assert_eq!(result, ExitHandlerResult::Continue);

    let cr3 = vm
        .state
        .vmcs
        .get_field_natural(VmcsFieldNatural::GuestCr3);
    assert_eq!(cr3, Some(0x12345000));
}

#[test]
fn test_cr_access_mov_from_cr0() {
    let mut vm = mock_vm();
    vm.state
        .vmcs
        .set_field_natural(VmcsFieldNatural::GuestCr0, 0x80000011);
    set_exit(&mut vm, ExitReason::CrAccess, 0x310, 0x1000, 3);

    let result = exit(&mut vm);
    assert_eq!(result, ExitHandlerResult::Continue);
    assert_eq!(vm.state.core.gprs.rbx, 0x80000011);
}

#[test]
fn test_io_in_serial_status() {
    let mut vm = mock_vm();
    set_exit(&mut vm, ExitReason::IoInstruction, 0x03FD0008, 0x1000, 2);

    let result = exit(&mut vm);
    assert_eq!(result, ExitHandlerResult::Continue);
    assert_eq!(vm.state.core.gprs.rax & 0xFF, 0x60);
}

#[test]
fn test_hlt_exit() {
    let mut vm = mock_vm();
    set_exit(&mut vm, ExitReason::Hlt, 0, 0x1000, 1);

    let result = exit(&mut vm);
    assert_eq!(result, ExitHandlerResult::Continue);
    assert_eq!(guest_rip(&vm), Some(0x1001));
}

#[test]
fn test_triple_fault() {
    let mut vm = mock_vm();
    set_exit(&mut vm, ExitReason::TripleFault, 0, 0x1000, 0);

    let result = exit(&mut vm);
    assert!(matches!(
        result,
        ExitHandlerResult::Error(ExitError::TripleFault)
    ));
}

#[test]
fn test_ept_violation_exits_to_userspace() {
    let mut vm = mock_vm();
    set_exit(&mut vm, ExitReason::EptViolation, 0x1, 0x1000, 0);

    let result = exit(&mut vm);
    assert_eq!(
        result,
        ExitHandlerResult::ExitToUserspace(ExitReason::EptViolation)
    );
}

#[test]
fn test_vmcall_shutdown_hypercall() {
    let mut vm = mock_vm();
    set_exit(&mut vm, ExitReason::Vmcall, 0, 0x1000, 3);
    vm.state.core.gprs.rax = 0;

    let result = exit(&mut vm);
    assert_eq!(
        result,
        ExitHandlerResult::ExitToUserspace(ExitReason::VmcallShutdown)
    );
    assert_eq!(guest_rip(&vm), Some(0x1003));
}

#[test]
fn test_vmcall_unknown_hypercall() {
    let mut vm = mock_vm();
    set_exit(&mut vm, ExitReason::Vmcall, 0, 0x1000, 3);
    vm.state.core.gprs.rax = 0xDEAD;

    let result = exit(&mut vm);
    assert_eq!(
        result,
        ExitHandlerResult::ExitToUserspace(ExitReason::Vmcall)
    );
}

#[test]
fn test_vmcall_snapshot_hypercall() {
    let mut vm = mock_vm();
    set_exit(&mut vm, ExitReason::Vmcall, 0, 0x1000, 3);
    vm.state.core.gprs.rax = 1;

    let result = exit(&mut vm);
    assert_eq!(
        result,
        ExitHandlerResult::ExitToUserspace(ExitReason::VmcallSnapshot)
    );
    assert_eq!(guest_rip(&vm), Some(0x1003));
}

fn attach_exit_event_buffer(vm: &mut RootVm) {
    vm.state.set_event_buffer(vec![0u8; EVENT_BUFFER_SIZE]);
    vm.state.set_event_categories(EventCategories::exit());
}

/// Exit reason and TSC of the first record, which has to be an exit record.
fn first_exit_entry(vm: &RootVm) -> (u32, u64) {
    let buffer = vm.state.event_buffer_ptr().unwrap();
    let kind = u16::from_le_bytes([buffer[24], buffer[25]]);
    assert_eq!(
        kind,
        EventKind::Exit.as_u16(),
        "first record is not an Exit"
    );
    let at = EVENT_HEADER_SIZE;
    (
        u32::from_le_bytes(buffer[at + 8..at + 12].try_into().unwrap()),
        u64::from_le_bytes(buffer[at..at + 8].try_into().unwrap()),
    )
}

#[test]
fn test_vmcall_snapshot_with_logging_enabled() {
    let mut vm = mock_vm();
    attach_exit_event_buffer(&mut vm);
    vm.state.core.exit_trigger = ExitTrigger::AtShutdown;
    vm.state.core.last_instruction_count = 1000;
    vm.state.core.tsc_offset = 0;
    set_exit(&mut vm, ExitReason::Vmcall, 0, 0x2000, 3);
    vm.state.core.gprs.rax = 1;

    let result = exit(&mut vm);
    assert_eq!(
        result,
        ExitHandlerResult::ExitToUserspace(ExitReason::VmcallSnapshot)
    );

    assert!(vm.state.event_buffer_len() > 0);
    let (exit_reason, tsc) = first_exit_entry(&vm);
    assert_eq!(exit_reason, ExitReason::VmcallSnapshot.as_u32());
    assert_eq!(tsc, 1000);
}

#[test]
fn test_vmcall_snapshot_requires_exit_category() {
    let mut vm = mock_vm();
    attach_exit_event_buffer(&mut vm);
    vm.state.set_event_categories(EventCategories::empty());
    vm.state.core.exit_trigger = ExitTrigger::AtShutdown;
    vm.state.core.emulated_tsc = 2000;

    vm.state.capture_exit_at_snapshot();

    assert_eq!(vm.state.event_buffer_len(), 0);
}

#[test]
fn test_vmcall_snapshot_respects_log_start_tsc() {
    let mut vm = mock_vm();
    attach_exit_event_buffer(&mut vm);
    vm.state.core.exit_trigger = ExitTrigger::AtShutdown;
    vm.state.core.exit_start_tsc = 5000;
    vm.state.core.emulated_tsc = 1000;

    vm.state.capture_exit_at_snapshot();
    assert_eq!(vm.state.event_buffer_len(), 0);

    vm.state.core.emulated_tsc = 6000;
    vm.state.capture_exit_at_snapshot();

    assert!(vm.state.event_buffer_len() > 0);
    let (exit_reason, tsc) = first_exit_entry(&vm);
    assert_eq!(exit_reason, ExitReason::VmcallSnapshot.as_u32());
    assert_eq!(tsc, 6000);
}

/// Map the first gigabyte of guest-virtual addresses to itself.
fn install_identity_paging(vm: &mut RootVm) {
    vm.state
        .vmcs
        .set_field_natural(VmcsFieldNatural::GuestCr3, 0x1000);
    let pml4_entry: u64 = 0x2003;
    vm.memory[0x1000..0x1008].copy_from_slice(&pml4_entry.to_le_bytes());
    let pdpt_entry: u64 = 0x83;
    vm.memory[0x2000..0x2008].copy_from_slice(&pdpt_entry.to_le_bytes());
}

fn hypercall(vm: &mut RootVm, rip: u64, nr: u64) -> ExitHandlerResult {
    set_exit(vm, ExitReason::Vmcall, 0, rip, 3);
    vm.state.core.gprs.rax = nr;
    exit(vm)
}

#[test]
fn test_vmcall_register_feedback_buffer_success() {
    let mut vm = mock_vm();
    install_identity_paging(&mut vm);

    let id_bytes = b"build-id-abcd";
    vm.memory[0x6000..0x6000 + id_bytes.len()].copy_from_slice(id_bytes);

    vm.state.core.gprs.rbx = 0x5000;
    vm.state.core.gprs.rcx = 4096;
    vm.state.core.gprs.rdx = 0x6000;
    vm.state.core.gprs.rsi = id_bytes.len() as u64;

    let result = hypercall(&mut vm, 0x1000, HYPERCALL_REGISTER_FEEDBACK_BUFFER);
    assert_eq!(
        result,
        ExitHandlerResult::ExitToUserspace(ExitReason::VmcallFeedbackBuffer)
    );
    assert_eq!(vm.state.core.gprs.rax, 0);
    assert_eq!(guest_rip(&vm), Some(0x1003));

    let fb = vm
        .state
        .feedback_buffers
        .first()
        .expect("feedback buffer should be registered at slot 0");
    assert_eq!(fb.gva, 0x5000);
    assert_eq!(fb.size, 4096);
    assert_eq!(fb.num_pages, 1);
    assert_eq!(fb.gpas[0], 0x5000);
    assert_eq!(fb.id_bytes(), id_bytes);
}

#[test]
fn test_vmcall_register_feedback_buffer_invalid_size() {
    let mut vm = mock_vm();
    vm.state.core.gprs.rbx = 0x5000;
    vm.state.core.gprs.rcx = 0;

    let result = hypercall(&mut vm, 0x1000, HYPERCALL_REGISTER_FEEDBACK_BUFFER);
    assert_eq!(result, ExitHandlerResult::Continue);
    assert_eq!(vm.state.core.gprs.rax, FB_ERR_BAD_SIZE);
    assert!(vm.state.feedback_buffers.is_empty());
}

#[test]
fn test_vmcall_register_feedback_buffer_size_too_large() {
    let mut vm = mock_vm();
    vm.state.core.gprs.rbx = 0x5000;
    vm.state.core.gprs.rcx = (FEEDBACK_BUFFER_MAX_PAGES as u64 + 1) * 4096;

    let result = hypercall(&mut vm, 0x1000, HYPERCALL_REGISTER_FEEDBACK_BUFFER);
    assert_eq!(result, ExitHandlerResult::Continue);
    assert_eq!(vm.state.core.gprs.rax, FB_ERR_BAD_SIZE);
    assert!(vm.state.feedback_buffers.is_empty());
}

#[test]
fn test_vmcall_register_feedback_buffer_bad_id_len() {
    let mut vm = mock_vm();
    vm.state.core.gprs.rbx = 0x5000;
    vm.state.core.gprs.rcx = 4096;
    vm.state.core.gprs.rdx = 0x6000;
    vm.state.core.gprs.rsi = 0;

    let result = hypercall(&mut vm, 0x1000, HYPERCALL_REGISTER_FEEDBACK_BUFFER);
    assert_eq!(result, ExitHandlerResult::Continue);
    assert_eq!(vm.state.core.gprs.rax, FB_ERR_BAD_ID_LEN);
    assert!(vm.state.feedback_buffers.is_empty());
}

#[test]
fn test_vmcall_register_feedback_buffer_id_not_resident() {
    let mut vm = mock_vm();
    install_identity_paging(&mut vm);
    vm.state.core.gprs.rbx = 0x5000;
    vm.state.core.gprs.rcx = 4096;
    vm.state.core.gprs.rdx = 0x4000_0000;
    vm.state.core.gprs.rsi = 8;

    let result = hypercall(&mut vm, 0x1000, HYPERCALL_REGISTER_FEEDBACK_BUFFER);
    assert_eq!(result, ExitHandlerResult::Continue);
    assert_eq!(vm.state.core.gprs.rax, FB_ERR_ID_NOT_RESIDENT);
    assert!(vm.state.feedback_buffers.is_empty());
}

#[test]
fn test_vmcall_register_feedback_buffer_buffer_not_resident() {
    let mut vm = mock_vm();
    install_identity_paging(&mut vm);
    let id_bytes = b"build-id-xyz";
    vm.memory[0x6000..0x6000 + id_bytes.len()].copy_from_slice(id_bytes);
    vm.state.core.gprs.rbx = 0x4000_0000;
    vm.state.core.gprs.rcx = 4096;
    vm.state.core.gprs.rdx = 0x6000;
    vm.state.core.gprs.rsi = id_bytes.len() as u64;

    let result = hypercall(&mut vm, 0x1000, HYPERCALL_REGISTER_FEEDBACK_BUFFER);
    assert_eq!(result, ExitHandlerResult::Continue);
    assert_eq!(vm.state.core.gprs.rax, FB_ERR_BUFFER_NOT_RESIDENT);
    assert!(vm.state.feedback_buffers.is_empty());
}

#[test]
fn test_vmcall_io_register_page_success() {
    let mut vm = mock_vm();
    install_identity_paging(&mut vm);
    vm.state.core.gprs.rbx = 0x5000;

    let result = hypercall(&mut vm, 0x1000, HYPERCALL_IO_REGISTER_PAGE);
    assert_eq!(
        result,
        ExitHandlerResult::ExitToUserspace(ExitReason::VmcallIoRegisterPage)
    );
    assert_eq!(vm.state.core.gprs.rax, 0, "registration should succeed");
    assert_eq!(vm.state.io_channel.page_gpa, 0x5000);
    assert_eq!(guest_rip(&vm), Some(0x1003));
}

#[test]
fn test_vmcall_io_register_page_unaligned() {
    let mut vm = mock_vm();
    install_identity_paging(&mut vm);
    vm.state.core.gprs.rbx = 0x5001;

    let result = hypercall(&mut vm, 0x1000, HYPERCALL_IO_REGISTER_PAGE);
    assert_eq!(
        result,
        ExitHandlerResult::ExitToUserspace(ExitReason::VmcallIoRegisterPage)
    );
    assert_eq!(vm.state.core.gprs.rax, !0u64, "unaligned should return -1");
    assert_eq!(
        vm.state.io_channel.page_gpa, 0,
        "failed registration must not stash a GPA"
    );
}

fn vm_with_io_page() -> RootVm {
    let mut vm = mock_vm();
    install_identity_paging(&mut vm);
    vm.state.core.gprs.rbx = 0x5000;
    let _ = hypercall(&mut vm, 0x1000, HYPERCALL_IO_REGISTER_PAGE);
    vm
}

#[test]
fn test_vmcall_io_get_request_no_pending() {
    let mut vm = vm_with_io_page();
    let result = hypercall(&mut vm, 0x2000, HYPERCALL_IO_GET_REQUEST);
    assert_eq!(result, ExitHandlerResult::Continue);
    assert_eq!(
        vm.state.core.gprs.rax, 0,
        "GET_REQUEST with no pending request returns 0"
    );
}

#[test]
fn test_vmcall_io_get_request_writes_payload_to_guest() {
    let mut vm = vm_with_io_page();

    let request: Vec<u8> = (0..600).map(|i| (i % 256) as u8).collect();
    {
        let chan = &mut vm.state.io_channel;
        chan.request_buf[..request.len()].copy_from_slice(&request);
        chan.request_len = request.len();
    }

    let result = hypercall(&mut vm, 0x2000, HYPERCALL_IO_GET_REQUEST);
    assert_eq!(result, ExitHandlerResult::Continue);
    assert_eq!(vm.state.core.gprs.rax, request.len() as u64);

    let written = &vm.memory[0x5000..0x5000 + request.len()];
    assert_eq!(written, request.as_slice());
    assert_eq!(vm.state.io_channel.request_len, 0);
    assert!(!vm.state.io_channel.request_delivered);
}

#[test]
fn test_vmcall_io_get_request_promotes_next_pending() {
    let mut vm = vm_with_io_page();

    let req_a: Vec<u8> = (0..100).map(|_| 0xAAu8).collect();
    let req_b: Vec<u8> = (0..50).map(|_| 0xBBu8).collect();
    let req_c: Vec<u8> = (0..75).map(|_| 0xCCu8).collect();
    {
        let chan = &mut vm.state.io_channel;
        chan.request_buf[..req_a.len()].copy_from_slice(&req_a);
        chan.request_len = req_a.len();
        chan.request_target_tsc = 0;
        let _ = chan.enqueue_pending(PendingIoAction {
            target_tsc: 100,
            data: req_b.clone(),
        });
        let _ = chan.enqueue_pending(PendingIoAction {
            target_tsc: 200,
            data: req_c.clone(),
        });
    }

    let result = hypercall(&mut vm, 0x2000, HYPERCALL_IO_GET_REQUEST);
    assert_eq!(result, ExitHandlerResult::Continue);
    assert_eq!(vm.state.core.gprs.rax, req_a.len() as u64);

    let chan = &vm.state.io_channel;
    assert_eq!(chan.request_len, req_b.len(), "B promoted into slot");
    assert_eq!(chan.request_target_tsc, 100);
    assert_eq!(&chan.request_buf[..req_b.len()], req_b.as_slice());
    assert_eq!(chan.pending.len(), 1, "C still in pending queue");
}

#[test]
fn test_vmcall_io_put_response_captures_response() {
    let mut vm = vm_with_io_page();

    let response: Vec<u8> = (0..500).map(|i| ((i * 7) % 256) as u8).collect();
    vm.memory[0x5000..0x5000 + response.len()].copy_from_slice(&response);
    vm.state.core.gprs.rbx = response.len() as u64;

    let result = hypercall(&mut vm, 0x2000, HYPERCALL_IO_PUT_RESPONSE);
    assert_eq!(
        result,
        ExitHandlerResult::ExitToUserspace(ExitReason::VmcallIoResponse)
    );
    assert_eq!(vm.state.core.gprs.rax, 0);

    let chan = &vm.state.io_channel;
    assert_eq!(chan.response_len, response.len());
    assert_eq!(&chan.response_buf[..response.len()], response.as_slice());
}

#[test]
fn test_check_io_channel_skips_when_ioapic_masked() {
    let mut vm = mock_vm();
    vm.state.io_channel.page_gpa = 0x5000;
    vm.state.io_channel.request_len = 32;
    vm.state.io_channel.request_delivered = false;

    check_io_channel(&mut vm);
    assert!(
        !vm.state.io_channel.request_delivered,
        "must not mark delivered while IOAPIC pin is masked"
    );

    let vector: u8 = 0x80;
    let entry: u64 = vector as u64;
    vm.state.core.devices.ioapic.redtbl[IO_CHANNEL_IRQ as usize] = entry;
    check_io_channel(&mut vm);
    assert!(
        vm.state.io_channel.request_delivered,
        "should mark delivered after asserting IRQ"
    );
    let irr_index = (vector / 32) as usize;
    let irr_bit = 1u32 << (vector % 32);
    assert!(
        vm.state.core.devices.apic.irr[irr_index] & irr_bit != 0,
        "APIC IRR should reflect the queued I/O channel IRQ"
    );
}

#[test]
fn test_check_io_channel_defers_until_target_tsc() {
    let mut vm = mock_vm();
    let vector: u8 = 0x90;
    vm.state.io_channel.page_gpa = 0x5000;
    vm.state.io_channel.request_len = 16;
    vm.state.io_channel.request_delivered = false;
    vm.state.io_channel.request_target_tsc = 1_000_000;
    vm.state.core.devices.ioapic.redtbl[IO_CHANNEL_IRQ as usize] = vector as u64;

    vm.state.core.emulated_tsc = 999_999;
    check_io_channel(&mut vm);
    assert!(
        !vm.state.io_channel.request_delivered,
        "must defer firing while emulated_tsc < request_target_tsc"
    );

    vm.state.core.emulated_tsc = 1_000_000;
    check_io_channel(&mut vm);
    assert!(
        vm.state.io_channel.request_delivered,
        "should fire once emulated_tsc reaches target"
    );
    let irr_index = (vector / 32) as usize;
    let irr_bit = 1u32 << (vector % 32);
    assert!(
        vm.state.core.devices.apic.irr[irr_index] & irr_bit != 0,
        "APIC IRR should be set on the boundary step"
    );
}

#[test]
fn test_vmcall_serial_register_page_success() {
    let mut vm = mock_vm();
    install_identity_paging(&mut vm);
    vm.state.core.gprs.rbx = 0x5000;

    let result = hypercall(&mut vm, 0x1000, HYPERCALL_SERIAL_REGISTER_PAGE);
    assert_eq!(result, ExitHandlerResult::Continue);
    assert_eq!(vm.state.core.gprs.rax, 0, "registration should succeed");
    assert_eq!(vm.state.core.serial_console.page_gpa, 0x5000);
    assert_eq!(guest_rip(&vm), Some(0x1003));
}

#[test]
fn test_vmcall_serial_register_page_unaligned() {
    let mut vm = mock_vm();
    install_identity_paging(&mut vm);
    vm.state.core.gprs.rbx = 0x5001;

    let result = hypercall(&mut vm, 0x1000, HYPERCALL_SERIAL_REGISTER_PAGE);
    assert_eq!(result, ExitHandlerResult::Continue);
    assert_eq!(vm.state.core.gprs.rax, !0u64, "unaligned should return -1");
    assert_eq!(
        vm.state.core.serial_console.page_gpa, 0,
        "failed registration must not stash a GPA"
    );
}

#[test]
fn test_vmcall_serial_register_page_untranslatable() {
    let mut vm = mock_vm();
    install_identity_paging(&mut vm);
    vm.state.core.gprs.rbx = 0x4000_0000;

    let result = hypercall(&mut vm, 0x1000, HYPERCALL_SERIAL_REGISTER_PAGE);
    assert_eq!(result, ExitHandlerResult::Continue);
    assert_eq!(
        vm.state.core.gprs.rax, !0u64,
        "untranslatable GVA should return -1"
    );
    assert_eq!(
        vm.state.core.serial_console.page_gpa, 0,
        "failed registration must not stash a GPA"
    );
}

#[test]
fn test_vmcall_serial_write_emits_serial_event() {
    let mut vm = mock_vm();
    install_identity_paging(&mut vm);
    vm.state.set_event_buffer(vec![0u8; EVENT_BUFFER_SIZE]);
    vm.state.set_event_categories(EventCategories::serial());

    vm.state.core.gprs.rbx = 0x5000;
    let _ = hypercall(&mut vm, 0x1000, HYPERCALL_SERIAL_REGISTER_PAGE);

    let mut record: Vec<u8> = Vec::new();
    record.extend_from_slice(b"hello bedrock console\n");
    record.extend(core::iter::repeat(b'x').take(400));
    vm.memory[0x5000..0x5000 + record.len()].copy_from_slice(&record);

    vm.state.core.gprs.rbx = record.len() as u64;
    let result = hypercall(&mut vm, 0x2000, HYPERCALL_SERIAL_WRITE);

    assert_eq!(result, ExitHandlerResult::Continue);
    assert_eq!(vm.state.core.gprs.rax, 0, "SERIAL_WRITE should succeed");
    assert_eq!(guest_rip(&vm), Some(0x2003));

    let len = vm.state.event_buffer_len();
    assert_eq!(len, EVENT_HEADER_SIZE + align_up(record.len(), 8));
    let buffer = vm.state.event_buffer_ptr().unwrap();
    let kind = u16::from_le_bytes([buffer[24], buffer[25]]);
    let payload_len = u32::from_le_bytes([buffer[28], buffer[29], buffer[30], buffer[31]]) as usize;
    assert_eq!(kind, EventKind::Serial.as_u16());
    assert_eq!(payload_len, record.len());
    assert_eq!(
        &buffer[EVENT_HEADER_SIZE..EVENT_HEADER_SIZE + record.len()],
        record.as_slice()
    );
}

#[test]
fn test_vmcall_serial_write_not_registered() {
    let mut vm = mock_vm();
    install_identity_paging(&mut vm);
    vm.state.set_event_buffer(vec![0u8; EVENT_BUFFER_SIZE]);
    vm.state.set_event_categories(EventCategories::serial());
    vm.state.core.gprs.rbx = 8;

    let result = hypercall(&mut vm, 0x1000, HYPERCALL_SERIAL_WRITE);
    assert_eq!(result, ExitHandlerResult::Continue);
    assert_eq!(
        vm.state.core.gprs.rax, !0u64,
        "SERIAL_WRITE before registration returns -1"
    );
    assert_eq!(
        vm.state.event_buffer_len(),
        0,
        "no Serial event emitted on failure"
    );
}

#[test]
fn test_rdrand_instruction_info_parsing() {
    let info = RdrandInstructionInfo::from(0x800);
    assert_eq!(info.dest_reg, 0);
    assert_eq!(info.operand_size, RdrandOperandSize::Size32);

    let info = RdrandInstructionInfo::from(0x1008);
    assert_eq!(info.dest_reg, 1);
    assert_eq!(info.operand_size, RdrandOperandSize::Size64);

    let info = RdrandInstructionInfo::from(0x40);
    assert_eq!(info.dest_reg, 8);
    assert_eq!(info.operand_size, RdrandOperandSize::Size16);
}

#[test]
fn test_rdrand_seeded_rng_mode() {
    let mut vm = mock_vm();
    vm.state
        .core
        .devices
        .random
        .configure(RdrandMode::SeededRng, 12345);
    set_exit_reason(&mut vm, ExitReason::Rdrand);
    set_instruction_len(&mut vm, 3);
    set_guest_rip(&mut vm, 0x1000);
    set_instruction_info(&mut vm, 0x1000);
    set_guest_rflags(&mut vm, 0x2);

    let result = handle_rdrand(&mut vm);
    assert!(matches!(result, ExitHandlerResult::Continue));
    let first_value = vm.state.core.gprs.rax;

    set_guest_rip(&mut vm, 0x1003);
    let result = handle_rdrand(&mut vm);
    assert!(matches!(result, ExitHandlerResult::Continue));
    let second_value = vm.state.core.gprs.rax;

    assert_ne!(first_value, second_value);
}

#[test]
fn test_rdrand_exit_to_userspace_mode() {
    let mut vm = mock_vm();
    vm.state
        .core
        .devices
        .random
        .configure(RdrandMode::ExitToUserspace, 0);
    set_exit_reason(&mut vm, ExitReason::Rdrand);
    set_instruction_len(&mut vm, 3);
    set_guest_rip(&mut vm, 0x1000);
    set_instruction_info(&mut vm, 0x1000);
    set_guest_rflags(&mut vm, 0x2);

    let result = handle_rdrand(&mut vm);
    assert!(matches!(
        result,
        ExitHandlerResult::ExitToUserspace(ExitReason::Rdrand)
    ));
    assert_eq!(guest_rip(&vm), Some(0x1000));

    vm.state.core.devices.random.set_pending_value(0x42424242);
    let result = handle_rdrand(&mut vm);
    assert!(matches!(result, ExitHandlerResult::Continue));

    assert_eq!(vm.state.core.gprs.rax, 0x42424242);
    assert_eq!(guest_rip(&vm), Some(0x1003));
}

#[test]
fn test_rdrand_32bit_operation() {
    let mut vm = mock_vm();
    vm.state
        .core
        .devices
        .random
        .configure(RdrandMode::ExitToUserspace, 0);
    vm.state
        .core
        .devices
        .random
        .set_pending_value(0xFFFFFFFF_DEADBEEF);
    set_exit_reason(&mut vm, ExitReason::Rdrand);
    set_instruction_len(&mut vm, 3);
    set_guest_rip(&mut vm, 0x1000);
    set_instruction_info(&mut vm, 0x800);
    set_guest_rflags(&mut vm, 0x2);
    vm.state.core.gprs.rax = 0x12345678_00000000;

    let result = handle_rdrand(&mut vm);
    assert!(matches!(result, ExitHandlerResult::Continue));
    assert_eq!(vm.state.core.gprs.rax, 0xDEADBEEF);
}

#[test]
fn test_rdrand_16bit_operation() {
    let mut vm = mock_vm();
    vm.state
        .core
        .devices
        .random
        .configure(RdrandMode::ExitToUserspace, 0);
    vm.state
        .core
        .devices
        .random
        .set_pending_value(0xFFFFFFFF_DEADBEEF);
    set_exit_reason(&mut vm, ExitReason::Rdrand);
    set_instruction_len(&mut vm, 4);
    set_guest_rip(&mut vm, 0x1000);
    set_instruction_info(&mut vm, 0x0);
    set_guest_rflags(&mut vm, 0x2);
    vm.state.core.gprs.rax = 0x12345678_AABBCCDD;

    let result = handle_rdrand(&mut vm);
    assert!(matches!(result, ExitHandlerResult::Continue));
    assert_eq!(vm.state.core.gprs.rax, 0x12345678_AABBBEEF);
}

#[test]
fn test_rdrand_r8_register() {
    let mut vm = mock_vm();
    vm.state
        .core
        .devices
        .random
        .configure(RdrandMode::ExitToUserspace, 0);
    vm.state.core.devices.random.set_pending_value(0xCAFEBABE);
    set_exit_reason(&mut vm, ExitReason::Rdrand);
    set_instruction_len(&mut vm, 4);
    set_guest_rip(&mut vm, 0x1000);
    set_instruction_info(&mut vm, 0x840);
    set_guest_rflags(&mut vm, 0x2);

    let result = handle_rdrand(&mut vm);
    assert!(matches!(result, ExitHandlerResult::Continue));
    assert_eq!(vm.state.core.gprs.r8, 0xCAFEBABE);
}

/// Queue a request for `target_tsc` that the guest is ready to take.
fn arm_io_request(vm: &mut RootVm, target_tsc: u64) {
    let chan = &mut vm.state.io_channel;
    chan.page_gpa = 0x1000;
    chan.request_len = 1;
    chan.request_delivered = false;
    chan.request_target_tsc = target_tsc;
    vm.state.core.devices.ioapic.redtbl[IO_CHANNEL_IRQ as usize] = 0x20;
}

/// Drive one HLT through the idle handler.
fn step_idle(vm: &mut RootVm) {
    set_exit_reason(vm, ExitReason::Hlt);
    set_instruction_len(vm, 1);
    set_guest_rip(vm, 0x2000);
    let result = handle_idle(vm);
    assert!(matches!(result, ExitHandlerResult::Continue));
}

#[test]
fn test_rdtsc_handler() {
    let mut vm = mock_vm();
    vm.state.core.emulated_tsc = 0x1234_5678_9ABC_DEF0;
    set_exit_reason(&mut vm, ExitReason::Rdtsc);
    set_instruction_len(&mut vm, 2);
    set_guest_rip(&mut vm, 0x1000);

    let result = handle_rdtsc(&mut vm);
    assert!(matches!(result, ExitHandlerResult::Continue));

    assert_eq!(vm.state.core.gprs.rax, 0x9ABC_DEF0);
    assert_eq!(vm.state.core.gprs.rdx, 0x1234_5678);
    assert_eq!(guest_rip(&vm), Some(0x1002));
}

#[test]
fn test_rdtscp_handler() {
    let mut vm = mock_vm();
    vm.state.core.emulated_tsc = 0xAABB_CCDD_EEFF_0011;
    vm.state.core.msr_state.tsc_aux = 0x42;
    set_exit_reason(&mut vm, ExitReason::Rdtscp);
    set_instruction_len(&mut vm, 3);
    set_guest_rip(&mut vm, 0x1000);

    let result = handle_rdtscp(&mut vm);
    assert!(matches!(result, ExitHandlerResult::Continue));

    assert_eq!(vm.state.core.gprs.rax, 0xEEFF_0011);
    assert_eq!(vm.state.core.gprs.rdx, 0xAABB_CCDD);
    assert_eq!(vm.state.core.gprs.rcx, 0x42);
    assert_eq!(guest_rip(&vm), Some(0x1003));
}

#[test]
fn test_rdpmc_handler() {
    let mut vm = mock_vm();
    vm.state.core.gprs.rcx = 0;
    set_exit_reason(&mut vm, ExitReason::Rdpmc);
    set_instruction_len(&mut vm, 2);
    set_guest_rip(&mut vm, 0x1000);

    let result = handle_rdpmc(&mut vm);
    assert!(matches!(result, ExitHandlerResult::Continue));

    assert_eq!(vm.state.core.gprs.rax, 0);
    assert_eq!(vm.state.core.gprs.rdx, 0);
    assert_eq!(guest_rip(&vm), Some(0x1002));
}

#[test]
fn idle_jumps_to_armed_timer() {
    let mut vm = mock_vm();
    vm.state.core.emulated_tsc = 1_000;
    vm.state.core.devices.apic.timer_deadline = 1_000 + 500;

    step_idle(&mut vm);

    assert_eq!(vm.state.core.emulated_tsc, 1_500);
}

#[test]
fn idle_bounds_armed_timer_by_nearer_io() {
    let mut vm = mock_vm();
    vm.state.core.emulated_tsc = 1_000;
    vm.state.core.devices.apic.timer_deadline = 1_000 + 5_000;
    arm_io_request(&mut vm, 1_000 + 500);

    step_idle(&mut vm);

    assert_eq!(vm.state.core.emulated_tsc, 1_500, "min(timer, io) wins");
}

#[test]
fn idle_does_not_advance_to_io_when_timer_disarmed() {
    let mut vm = mock_vm();
    vm.state.core.emulated_tsc = 1_000;
    vm.state.core.devices.apic.timer_deadline = 0;
    arm_io_request(&mut vm, 1_000 + 1_000_000_000);

    step_idle(&mut vm);
    assert_eq!(
        vm.state.core.emulated_tsc, 1_000,
        "no leap to the far I/O target"
    );

    vm.state.core.devices.apic.timer_deadline = 1_000 + 600;
    step_idle(&mut vm);
    assert_eq!(
        vm.state.core.emulated_tsc, 1_600,
        "jumped to the re-armed timer"
    );
}

#[test]
fn idle_no_advance_without_armed_timer() {
    let mut vm = mock_vm();
    vm.state.core.emulated_tsc = 1_000;
    vm.state.core.devices.apic.timer_deadline = 0;

    step_idle(&mut vm);

    assert_eq!(vm.state.core.emulated_tsc, 1_000);
}

#[test]
fn single_step_start_armed_before_window_only() {
    let mut vm = mock_vm();
    vm.state.core.single_step_tsc_range = Some((10_000, 20_000));
    vm.state.core.tsc_offset = 1_000;

    vm.state.core.last_instruction_count = 5_000;
    assert_eq!(next_single_step_start_tsc(&vm.state), Some(10_000));
    assert_eq!(next_single_step_start_count(&vm.state), Some(9_000));

    vm.state.core.last_instruction_count = 9_000;
    assert_eq!(next_single_step_start_tsc(&vm.state), None);
    assert_eq!(next_single_step_start_count(&vm.state), None);

    vm.state.core.last_instruction_count = 14_000;
    assert_eq!(next_single_step_start_tsc(&vm.state), None);

    vm.state.core.single_step_tsc_range = None;
    vm.state.core.last_instruction_count = 5_000;
    assert_eq!(next_single_step_start_tsc(&vm.state), None);
    assert_eq!(next_single_step_start_count(&vm.state), None);
}

#[test]
fn get_random_serves_seeded_bytes() {
    let mut vm = mock_vm();
    install_identity_paging(&mut vm);
    vm.state
        .core
        .devices
        .random
        .configure(RdrandMode::SeededRng, 1);
    vm.state.core.gprs.rbx = 0x7FFC;
    vm.state.core.gprs.rcx = 8;
    vm.state.core.gprs.rdx = 77;

    let result = hypercall(&mut vm, 0x1000, HYPERCALL_GET_RANDOM);
    assert_eq!(result, ExitHandlerResult::Continue);
    assert_eq!(vm.state.core.gprs.rax, 8);
    assert_eq!(vm.memory[0x7FFC..0x8004], 0x4082_2041u64.to_le_bytes());
    assert_eq!(guest_rip(&vm), Some(0x1003));
}

#[test]
fn get_random_asks_userspace_first() {
    let mut vm = mock_vm();
    install_identity_paging(&mut vm);
    vm.state
        .core
        .devices
        .random
        .configure(RdrandMode::ExitToUserspace, 0);
    vm.state.core.gprs.rbx = 0x7000;
    vm.state.core.gprs.rcx = 4;
    vm.state.core.gprs.rdx = 77;

    let result = hypercall(&mut vm, 0x1000, HYPERCALL_GET_RANDOM);
    assert_eq!(
        result,
        ExitHandlerResult::ExitToUserspace(ExitReason::VmcallGetRandom)
    );
    assert_eq!(guest_rip(&vm), Some(0x1000));
    assert!(vm.state.core.devices.random.awaiting);
    assert_eq!(vm.state.core.devices.random.req_len, 4);
    assert_eq!(vm.state.core.devices.random.pid, 77);

    vm.state.core.devices.random.stage_reply(&[9, 8, 7, 6, 5]);
    let result = hypercall(&mut vm, 0x1000, HYPERCALL_GET_RANDOM);
    assert_eq!(result, ExitHandlerResult::Continue);
    assert_eq!(vm.state.core.gprs.rax, 4);
    assert_eq!(vm.memory[0x7000..0x7005], [9, 8, 7, 6, 0]);
    assert_eq!(guest_rip(&vm), Some(0x1003));
    assert!(!vm.state.core.devices.random.awaiting);
}

#[test]
fn get_random_to_unmapped_memory_fails() {
    let mut vm = mock_vm();
    install_identity_paging(&mut vm);
    vm.state.core.gprs.rbx = 0x4000_0000;
    vm.state.core.gprs.rcx = 4;
    let result = hypercall(&mut vm, 0x1000, HYPERCALL_GET_RANDOM);
    assert_eq!(result, ExitHandlerResult::Continue);
    assert_eq!(vm.state.core.gprs.rax, !0u64);
}

/// Serve one value to RDRAND or RDSEED; the event record and the register.
fn serve_random(seed: bool) -> (Vec<u8>, u64, Option<u64>) {
    let mut vm = mock_vm();
    vm.state.set_event_buffer(vec![0u8; EVENT_BUFFER_SIZE]);
    vm.state.set_event_categories(EventCategories::randomness());
    vm.state
        .core
        .devices
        .random
        .configure(RdrandMode::SeededRng, 12345);
    set_exit(&mut vm, ExitReason::Rdrand, 0, 0x1000, 3);
    set_instruction_info(&mut vm, 0x1000);
    set_guest_rflags(&mut vm, 0x2);
    let result = if seed {
        handle_rdseed(&mut vm)
    } else {
        handle_rdrand(&mut vm)
    };
    assert_eq!(result, ExitHandlerResult::Continue);
    let len = vm.state.event_buffer_len();
    let record = vm.state.event_buffer_ptr().unwrap()[..len].to_vec();
    (record, vm.state.core.gprs.rax, guest_rip(&vm))
}

#[test]
fn rdseed_differs_in_the_recorded_source_only() {
    let (mut rand, value, rip) = serve_random(false);
    let (seed, other, other_rip) = serve_random(true);
    assert_eq!((value, rip), (other, other_rip));
    let source = EVENT_HEADER_SIZE + 12;
    assert_eq!((rand[source], seed[source]), (0, 1));
    rand[source] = 1;
    assert_eq!(rand, seed);
}

#[test]
fn modem_control_keeps_five_bits() {
    let mut vm = mock_vm();
    set_exit(&mut vm, ExitReason::IoInstruction, 0x03FC0000, 0x1000, 2);
    vm.state.core.gprs.rax = 0xFF;
    assert_eq!(exit(&mut vm), ExitHandlerResult::Continue);
    set_exit(&mut vm, ExitReason::IoInstruction, 0x03FC0008, 0x1002, 2);
    vm.state.core.gprs.rax = 0;
    assert_eq!(exit(&mut vm), ExitHandlerResult::Continue);
    assert_eq!(vm.state.core.gprs.rax & 0xFF, 0x1F);
}

#[test]
fn failed_copies_keep_whole_chunks() {
    // The page is cut off by the end of memory after a chunk and a half.
    let mut vm = vm_with_io_page();
    let cut = 0x10000 - 384;
    vm.state.io_channel.page_gpa = cut as u64;
    vm.state.io_channel.request_buf[..600].copy_from_slice(&[7u8; 600]);
    vm.state.io_channel.request_len = 600;
    let result = hypercall(&mut vm, 0x2000, HYPERCALL_IO_GET_REQUEST);
    assert_eq!(result, ExitHandlerResult::Continue);
    assert_eq!(vm.state.core.gprs.rax, !0u64);
    assert_eq!(vm.state.io_channel.request_len, 600);
    assert!(vm.memory[cut..cut + 256].iter().all(|b| *b == 7));
    assert!(vm.memory[cut + 256..].iter().all(|b| *b == 0));

    vm.state.core.gprs.rbx = 600;
    let result = hypercall(&mut vm, 0x2003, HYPERCALL_IO_PUT_RESPONSE);
    assert_eq!(
        result,
        ExitHandlerResult::ExitToUserspace(ExitReason::VmcallIoResponse)
    );
    assert_eq!(vm.state.core.gprs.rax, !0u64);
    let response = &vm.state.io_channel.response_buf;
    assert!(response[..256].iter().all(|b| *b == 7));
    assert!(response[256..].iter().all(|b| *b == 0));
}

#[test]
fn promotion_keeps_the_response_bytes() {
    let mut vm = mock_vm();
    let chan = &mut vm.state.io_channel;
    chan.response_buf[..3].copy_from_slice(b"abc");
    chan.response_len = 3;
    chan.promote_next_pending();
    assert_eq!(chan.response_len, 3);
    let _ = chan.enqueue_pending(PendingIoAction {
        target_tsc: 9,
        data: vec![5u8; 5000],
    });
    chan.promote_next_pending();
    assert_eq!(chan.request_len, 4096);
    assert_eq!(chan.request_target_tsc, 9);
    assert_eq!(chan.response_len, 0);
    assert_eq!(&chan.response_buf[..3], b"abc");
}
