//! Log entry layout for exit logging.

use vstd::prelude::*;

verus! {

/// Log buffer size: 1 MB.
pub const LOG_BUFFER_SIZE: usize = 0x10_0000;

/// Number of pages in the log buffer.
pub const LOG_BUFFER_PAGES: usize = 256;

/// Size of a single log entry in bytes.
pub const LOG_ENTRY_SIZE: usize = 512;

/// Maximum number of log entries that fit in the buffer.
pub const MAX_LOG_ENTRIES: usize = 2048;

/// Flag bit: the entry represents a deterministic exit.
pub const LOG_ENTRY_FLAG_DETERMINISTIC: u32 = 1;

/// A single log entry.
#[derive(Clone, Copy, Debug)]
pub struct LogEntry {
    /// Emulated TSC at the exit.
    pub tsc: u64,
    /// Exit reason number.
    pub exit_reason: u32,
    /// Flags; bit 0 marks a deterministic exit.
    pub flags: u32,
    /// Exit qualification.
    pub exit_qualification: u64,
    /// RAX register.
    pub rax: u64,
    /// RCX register.
    pub rcx: u64,
    /// RDX register.
    pub rdx: u64,
    /// RBX register.
    pub rbx: u64,
    /// RSP register.
    pub rsp: u64,
    /// RBP register.
    pub rbp: u64,
    /// RSI register.
    pub rsi: u64,
    /// RDI register.
    pub rdi: u64,
    /// R8 register.
    pub r8: u64,
    /// R9 register.
    pub r9: u64,
    /// R10 register.
    pub r10: u64,
    /// R11 register.
    pub r11: u64,
    /// R12 register.
    pub r12: u64,
    /// R13 register.
    pub r13: u64,
    /// R14 register.
    pub r14: u64,
    /// R15 register.
    pub r15: u64,
    /// Instruction pointer.
    pub rip: u64,
    /// RFLAGS register.
    pub rflags: u64,
    /// Hash of the APIC state.
    pub apic_hash: u64,
    /// Hash of the serial port state.
    pub serial_hash: u64,
    /// Hash of the I/O APIC state.
    pub ioapic_hash: u64,
    /// Hash of the RTC state.
    pub rtc_hash: u64,
    /// Hash of the MTRR state.
    pub mtrr_hash: u64,
    /// Hash of the randomness state.
    pub rdrand_hash: u64,
    /// Hash of guest memory.
    pub memory_hash: u64,
    /// FS base.
    pub fs_base: u64,
    /// GS base.
    pub gs_base: u64,
    /// Kernel GS base.
    pub kernel_gs_base: u64,
    /// Page table root.
    pub cr3: u64,
    /// CS base.
    pub cs_base: u64,
    /// DS base.
    pub ds_base: u64,
    /// ES base.
    pub es_base: u64,
    /// SS base.
    pub ss_base: u64,
    /// Pending debug exceptions.
    pub pending_dbg_exceptions: u64,
    /// Guest interruptibility state.
    pub interruptibility_state: u32,
    /// Number of copied pages at the exit.
    pub cow_page_count: u32,
    /// Distance in instructions from the PEBS firing target; nonzero only on PEBS exits.
    pub pebs_skid: i64,
    /// Instructions retired between arming and firing.
    pub pebs_inst_delta: i64,
    /// TSC offset gained between arming and firing.
    pub pebs_tsc_offset_delta: i64,
    /// Run-loop iterations the arming lived through.
    pub pebs_iters_since_arm: u32,
    /// Distance to the firing target at arming time.
    pub pebs_arm_delta: u64,
    /// Instruction count at the exit.
    pub last_instruction_count: u64,
    /// APIC timer deadline; zero if none.
    pub apic_timer_deadline: u64,
    /// I/O channel target TSC.
    pub io_channel_target_tsc: u64,
    /// Armed PEBS target; zero if not armed.
    pub pebs_armed_target_tsc: u64,
    /// Bit 0: MTF enabled. Bit 1: the last exit was deterministic.
    pub vmx_state_flags: u64,
    /// Padding to the entry size.
    pub padding: [u64; 16],
}

impl LogEntry {
    /// Every field zero.
    pub open spec fn zero() -> Self {
        LogEntry {
            tsc: 0,
            exit_reason: 0,
            flags: 0,
            exit_qualification: 0,
            rax: 0,
            rcx: 0,
            rdx: 0,
            rbx: 0,
            rsp: 0,
            rbp: 0,
            rsi: 0,
            rdi: 0,
            r8: 0,
            r9: 0,
            r10: 0,
            r11: 0,
            r12: 0,
            r13: 0,
            r14: 0,
            r15: 0,
            rip: 0,
            rflags: 0,
            apic_hash: 0,
            serial_hash: 0,
            ioapic_hash: 0,
            rtc_hash: 0,
            mtrr_hash: 0,
            rdrand_hash: 0,
            memory_hash: 0,
            fs_base: 0,
            gs_base: 0,
            kernel_gs_base: 0,
            cr3: 0,
            cs_base: 0,
            ds_base: 0,
            es_base: 0,
            ss_base: 0,
            pending_dbg_exceptions: 0,
            interruptibility_state: 0,
            cow_page_count: 0,
            pebs_skid: 0,
            pebs_inst_delta: 0,
            pebs_tsc_offset_delta: 0,
            pebs_iters_since_arm: 0,
            pebs_arm_delta: 0,
            last_instruction_count: 0,
            apic_timer_deadline: 0,
            io_channel_target_tsc: 0,
            pebs_armed_target_tsc: 0,
            vmx_state_flags: 0,
            padding: vstd::array::spec_array_fill_for_copy_type(0u64),
        }
    }

    /// An empty log entry.
    pub fn new() -> (r: Self)
        ensures
            r == LogEntry::zero(),
    {
        LogEntry {
            tsc: 0,
            exit_reason: 0,
            flags: 0,
            exit_qualification: 0,
            rax: 0,
            rcx: 0,
            rdx: 0,
            rbx: 0,
            rsp: 0,
            rbp: 0,
            rsi: 0,
            rdi: 0,
            r8: 0,
            r9: 0,
            r10: 0,
            r11: 0,
            r12: 0,
            r13: 0,
            r14: 0,
            r15: 0,
            rip: 0,
            rflags: 0,
            apic_hash: 0,
            serial_hash: 0,
            ioapic_hash: 0,
            rtc_hash: 0,
            mtrr_hash: 0,
            rdrand_hash: 0,
            memory_hash: 0,
            fs_base: 0,
            gs_base: 0,
            kernel_gs_base: 0,
            cr3: 0,
            cs_base: 0,
            ds_base: 0,
            es_base: 0,
            ss_base: 0,
            pending_dbg_exceptions: 0,
            interruptibility_state: 0,
            cow_page_count: 0,
            pebs_skid: 0,
            pebs_inst_delta: 0,
            pebs_tsc_offset_delta: 0,
            pebs_iters_since_arm: 0,
            pebs_arm_delta: 0,
            last_instruction_count: 0,
            apic_timer_deadline: 0,
            io_channel_target_tsc: 0,
            pebs_armed_target_tsc: 0,
            vmx_state_flags: 0,
            padding: [0u64; 16],
        }
    }
}

impl Default for LogEntry {
    fn default() -> (r: Self)
        ensures
            r == LogEntry::zero(),
    {
        LogEntry::new()
    }
}

} // verus!
