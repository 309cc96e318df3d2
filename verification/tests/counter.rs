use bedrock_vmx::instruction_counter::{
    LinuxInstructionCounter, PERFEVTSEL0_INST_RETIRED_ANY_P, PERF_GLOBAL_CTRL_PMC0,
};
use bedrock_vmx::msr::{MsrBank, IA32_A_PMC0, IA32_PERFEVTSEL0, IA32_PERF_GLOBAL_CTRL};
use bedrock_vmx::page::PagePool;
use bedrock_vmx::traits::instruction_counter::{
    InstructionCounter, InstructionCounterError, MockInstructionCounter, NullInstructionCounter,
};

#[test]
fn test_null_instruction_counter() {
    let mut counter = NullInstructionCounter;

    assert!(!counter.is_configured());

    assert_eq!(counter.prepare(), Ok(()));
    assert_eq!(counter.finish(), Ok(()));

    assert_eq!(counter.read(), 0);
    assert!(counter.perf_global_ctrl_values().is_none());
}

#[test]
fn test_null_counter_is_copy() {
    let counter = NullInstructionCounter;
    let _copy = counter;
    let _another = counter;
}

#[test]
fn test_mock_instruction_counter() {
    let mut counter = MockInstructionCounter::new(1000);

    assert!(counter.is_configured());
    assert_eq!(counter.read(), 1000);

    assert_eq!(counter.prepare(), Ok(()));
    assert_eq!(counter.prepare_count, 1);
    assert_eq!(counter.finish(), Ok(()));
    assert_eq!(counter.finish_count, 1);

    counter.count = 5000;
    assert_eq!(counter.read(), 5000);
}

fn pool() -> PagePool {
    let mut pool = PagePool::new();
    pool.refill(0x7000, 0xffff_0000_0000_7000);
    pool
}

fn bank() -> MsrBank {
    let mut bank = MsrBank::new();
    bank.define(IA32_PERF_GLOBAL_CTRL, 0x7_0000_000F);
    bank.define(IA32_PERFEVTSEL0, 0x1234);
    bank
}

#[test]
fn linux_counter_programs_and_restores_the_event_select() {
    let mut counter = LinuxInstructionCounter::new(&mut pool(), bank());
    assert!(counter.is_configured());
    assert_eq!(counter.msr_save_load_entry_phys(), Some(0x7000));
    assert_eq!(counter.perf_global_ctrl_values(), None);
    let entry = &counter.msr_entry_page.as_ref().unwrap().bytes;
    assert_eq!(entry[..4], IA32_A_PMC0.to_le_bytes());
    assert_eq!(entry[4..16], [0u8; 12]);

    assert_eq!(counter.prepare(), Ok(()));
    assert_eq!(
        counter.msr_access.read_msr(IA32_PERFEVTSEL0),
        Ok(PERFEVTSEL0_INST_RETIRED_ANY_P)
    );
    assert_eq!(
        counter.perf_global_ctrl_values(),
        Some((0x7_0000_000F, 0x7_0000_000E))
    );
    assert_eq!(PERF_GLOBAL_CTRL_PMC0, 1);

    assert_eq!(counter.finish(), Ok(()));
    assert_eq!(counter.msr_access.read_msr(IA32_PERFEVTSEL0), Ok(0x1234));
    assert_eq!(counter.perf_global_ctrl_values(), None);
    assert_eq!(
        counter.msr_access.take_writes(),
        vec![
            (IA32_PERFEVTSEL0, PERFEVTSEL0_INST_RETIRED_ANY_P),
            (IA32_PERFEVTSEL0, 0x1234)
        ]
    );
}

#[test]
fn linux_counter_reports_refused_writes() {
    let mut msrs = bank();
    msrs.define_read_only(IA32_PERFEVTSEL0, 0x1234);
    let mut counter = LinuxInstructionCounter::new(&mut pool(), msrs);
    assert_eq!(
        counter.prepare(),
        Err(InstructionCounterError::ProgramFailed)
    );
    assert_eq!(counter.msr_access.read_msr(IA32_PERFEVTSEL0), Ok(0x1234));
    assert_eq!(counter.perf_global_ctrl_values(), None);
    assert_eq!(counter.saved_perfevtsel0, 0x1234);
    assert_eq!(counter.finish(), Ok(()));

    let mut counter = LinuxInstructionCounter::new(&mut pool(), bank());
    assert_eq!(counter.prepare(), Ok(()));
    counter.msr_access.define_read_only(IA32_PERFEVTSEL0, 7);
    assert_eq!(
        counter.finish(),
        Err(InstructionCounterError::RestoreFailed)
    );
    assert_eq!(counter.msr_access.read_msr(IA32_PERFEVTSEL0), Ok(7));
    // Still armed, so that the select can be restored later.
    assert!(counter.armed);
    assert_eq!(counter.saved_perfevtsel0, 0x1234);
}

#[test]
fn linux_counter_without_a_select_writes_nothing() {
    let mut msrs = MsrBank::new();
    msrs.define(IA32_PERF_GLOBAL_CTRL, 0xF);
    let mut counter = LinuxInstructionCounter::new(&mut pool(), msrs);
    assert_eq!(counter.prepare(), Err(InstructionCounterError::Unavailable));
    assert_eq!(counter.msr_access.take_writes(), Vec::new());
    assert_eq!(counter.host_perf_global_ctrl, 0xE);
    assert_eq!(counter.guest_perf_global_ctrl, 0xF);
}

#[test]
fn linux_counter_reads_the_saved_entry() {
    let mut counter = LinuxInstructionCounter::new(&mut pool(), bank());
    assert_eq!(counter.read(), 0);
    let page = counter.msr_entry_page.as_mut().unwrap();
    page.bytes[8..16].copy_from_slice(&0x0102_0304_0506_0708u64.to_le_bytes());
    assert_eq!(counter.read(), 0x0102_0304_0506_0708);
}

#[test]
fn linux_counter_without_a_page_counts_nothing() {
    let mut counter = LinuxInstructionCounter::new(&mut PagePool::new(), MsrBank::new());
    assert!(!counter.is_configured());
    assert_eq!(counter.prepare(), Ok(()));
    assert_eq!(counter.read(), 0);
    assert_eq!(counter.perf_global_ctrl_values(), None);
    assert_eq!(counter.finish(), Ok(()));
}

#[test]
fn linux_counter_needs_its_msrs() {
    let mut counter = LinuxInstructionCounter::new(&mut pool(), MsrBank::new());
    assert_eq!(
        counter.prepare(),
        Err(InstructionCounterError::Unavailable)
    );
    let mut armed = LinuxInstructionCounter::new(&mut pool(), bank());
    assert_eq!(armed.prepare(), Ok(()));
    armed.msr_access = MsrBank::new();
    assert_eq!(armed.finish(), Err(InstructionCounterError::RestoreFailed));
}
