//! Values exchanged with userspace through a VM file descriptor.

use vstd::prelude::*;

use crate::feedback::FeedbackBufferInfo;
use crate::stats::{AllExitStats, ExitStats};

verus! {

/// Error codes handed to userspace.
#[derive(Debug, Clone, Copy, PartialEq, Eq, Structural)]
pub enum Errno {
    /// No such entry.
    Enoent,
    /// Input or output error.
    Eio,
    /// Out of memory.
    Enomem,
    /// Bad address.
    Efault,
    /// Device or resource busy.
    Ebusy,
    /// No such device.
    Enodev,
    /// Invalid argument.
    Einval,
    /// Not a command of this device.
    Enotty,
    /// No space left.
    Enospc,
    /// Operation not supported.
    Eopnotsupp,
}

impl Errno {
    /// The number of the error.
    pub open spec fn number(self) -> i32 {
        match self {
            Errno::Enoent => 2,
            Errno::Eio => 5,
            Errno::Enomem => 12,
            Errno::Efault => 14,
            Errno::Ebusy => 16,
            Errno::Enodev => 19,
            Errno::Einval => 22,
            Errno::Enotty => 25,
            Errno::Enospc => 28,
            Errno::Eopnotsupp => 95,
        }
    }

    /// What a failed command returns: the negated number.
    pub fn as_return(self) -> (r: i32)
        ensures
            r == -self.number(),
            r < 0,
    {
        match self {
            Errno::Enoent => -2,
            Errno::Eio => -5,
            Errno::Enomem => -12,
            Errno::Efault => -14,
            Errno::Ebusy => -16,
            Errno::Enodev => -19,
            Errno::Einval => -22,
            Errno::Enotty => -25,
            Errno::Enospc => -28,
            Errno::Eopnotsupp => -95,
        }
    }
}

/// Ioctl magic number: the letter B.
pub const BEDROCK_IOC_MAGIC: u32 = 0x42;

/// Maximum I/O channel payload: one page.
pub const BEDROCK_IO_CHANNEL_BUF_SIZE: usize = 4096;

/// Header of an I/O channel payload.
#[derive(Debug, Clone, Copy, PartialEq, Eq, Structural)]
pub struct BedrockIoActionHeader {
    /// Queueing: bytes of payload. Draining: room in the caller's buffer, and
    /// in the reply the bytes handed out.
    pub len: u32,
    /// Queueing: earliest emulated TSC at which the request is announced; zero
    /// for as soon as possible.
    pub target_tsc: u64,
}

/// What userspace learns of a feedback buffer.
#[derive(Clone, Copy)]
pub struct BedrockFeedbackBufferInfo {
    /// Guest-virtual address.
    pub gva: u64,
    /// Size in bytes.
    pub size: u64,
    /// Number of pages.
    pub num_pages: u64,
    /// One if a buffer is registered at this index.
    pub registered: u32,
    /// Index.
    pub index: u32,
    /// Length of the identifier.
    pub id_len: u32,
    /// Identifier; the rest is zero.
    pub id: [u8; 128],
}

impl BedrockFeedbackBufferInfo {
    /// Nothing is registered at `index`.
    pub open spec fn gap(index: u32) -> Self {
        BedrockFeedbackBufferInfo {
            gva: 0,
            size: 0,
            num_pages: 0,
            registered: 0,
            index,
            id_len: 0,
            id: vstd::array::spec_array_fill_for_copy_type(0u8),
        }
    }

    /// `buffer` is registered at `index`.
    pub open spec fn of(buffer: FeedbackBufferInfo, index: u32) -> Self {
        BedrockFeedbackBufferInfo {
            gva: buffer.gva,
            size: buffer.size,
            num_pages: buffer.num_pages as u64,
            registered: 1,
            index,
            id_len: buffer.id_len,
            id: buffer.id,
        }
    }
}

/// Configuration of the randomness device.
#[derive(Debug, Clone, Copy, PartialEq, Eq, Structural)]
pub struct BedrockRdrandConfig {
    /// 0 for the seeded generator, 1 for exits to userspace.
    pub mode: u32,
    /// Seed of the generator.
    pub value: u64,
}

/// Configuration of single-stepping.
#[derive(Debug, Clone, Copy, PartialEq, Eq, Structural)]
pub struct BedrockSingleStepConfig {
    /// Nonzero to single-step.
    pub enabled: u64,
    /// First emulated TSC of the range.
    pub tsc_start: u64,
    /// First emulated TSC past the range.
    pub tsc_end: u64,
}

/// Configuration of the event stream.
#[derive(Debug, Clone, Copy, PartialEq, Eq, Structural)]
pub struct BedrockEventConfig {
    /// Nonzero to have an event buffer.
    pub enabled: u32,
    /// Enabled event categories.
    pub categories: u32,
    /// Which exits are captured: 0 none, 1 all, 2 at a TSC, 3 at shutdown,
    /// 4 checkpoints, 5 in the single-step range.
    pub exit_trigger: u32,
    /// Threshold, trigger point or interval.
    pub exit_target_tsc: u64,
    /// Nothing is captured before this emulated TSC.
    pub exit_start_tsc: u64,
    /// Bit 0: no memory hash. Bit 1: intercept guest page faults.
    pub exit_flags: u32,
}

/// Statistics of one exit type.
#[derive(Debug, Clone, Copy, PartialEq, Eq, Structural)]
pub struct BedrockExitStatEntry {
    /// Number of exits.
    pub count: u64,
    /// Total cycles.
    pub cycles: u64,
}

impl BedrockExitStatEntry {
    /// The statistics of one exit type as userspace sees them.
    pub open spec fn of(s: ExitStats) -> Self {
        BedrockExitStatEntry { count: s.count, cycles: s.cycles }
    }

    /// Convert the statistics of one exit type.
    pub fn convert(s: &ExitStats) -> (r: Self)
        ensures
            r == BedrockExitStatEntry::of(*s),
    {
        BedrockExitStatEntry { count: s.count, cycles: s.cycles }
    }
}

/// Exit statistics as userspace sees them.
#[derive(Debug, Clone, Copy, PartialEq, Eq, Structural)]
pub struct BedrockExitStats {
    pub cpuid: BedrockExitStatEntry,
    pub msr_read: BedrockExitStatEntry,
    pub msr_write: BedrockExitStatEntry,
    pub cr_access: BedrockExitStatEntry,
    pub io_instruction: BedrockExitStatEntry,
    pub ept_violation: BedrockExitStatEntry,
    pub external_interrupt: BedrockExitStatEntry,
    pub rdtsc: BedrockExitStatEntry,
    pub rdtscp: BedrockExitStatEntry,
    pub rdpmc: BedrockExitStatEntry,
    pub mwait: BedrockExitStatEntry,
    pub vmcall: BedrockExitStatEntry,
    pub apic_access: BedrockExitStatEntry,
    pub mtf: BedrockExitStatEntry,
    pub xsetbv: BedrockExitStatEntry,
    pub rdrand: BedrockExitStatEntry,
    pub rdseed: BedrockExitStatEntry,
    pub exception_nmi: BedrockExitStatEntry,
    pub other: BedrockExitStatEntry,
    pub total_run_cycles: u64,
    pub guest_cycles: u64,
    pub vmentry_overhead_cycles: u64,
    pub vmexit_overhead_cycles: u64,
    pub irq_window_cycles: u64,
    pub pebs_arm_below_min_delta: u64,
    pub pebs_arm_already_past: u64,
    pub pebs_armed_iter_no_fire: u64,
    pub apic_timer_late_inject: u64,
}

impl BedrockExitStats {
    /// All statistics as userspace sees them.
    pub open spec fn of(s: AllExitStats) -> Self {
        BedrockExitStats {
            cpuid: BedrockExitStatEntry::of(s.cpuid),
            msr_read: BedrockExitStatEntry::of(s.msr_read),
            msr_write: BedrockExitStatEntry::of(s.msr_write),
            cr_access: BedrockExitStatEntry::of(s.cr_access),
            io_instruction: BedrockExitStatEntry::of(s.io_instruction),
            ept_violation: BedrockExitStatEntry::of(s.ept_violation),
            external_interrupt: BedrockExitStatEntry::of(s.external_interrupt),
            rdtsc: BedrockExitStatEntry::of(s.rdtsc),
            rdtscp: BedrockExitStatEntry::of(s.rdtscp),
            rdpmc: BedrockExitStatEntry::of(s.rdpmc),
            mwait: BedrockExitStatEntry::of(s.mwait),
            vmcall: BedrockExitStatEntry::of(s.vmcall),
            apic_access: BedrockExitStatEntry::of(s.apic_access),
            mtf: BedrockExitStatEntry::of(s.mtf),
            xsetbv: BedrockExitStatEntry::of(s.xsetbv),
            rdrand: BedrockExitStatEntry::of(s.rdrand),
            rdseed: BedrockExitStatEntry::of(s.rdseed),
            exception_nmi: BedrockExitStatEntry::of(s.exception_nmi),
            other: BedrockExitStatEntry::of(s.other),
            total_run_cycles: s.total_run_cycles,
            guest_cycles: s.guest_cycles,
            vmentry_overhead_cycles: s.vmentry_overhead_cycles,
            vmexit_overhead_cycles: s.vmexit_overhead_cycles,
            irq_window_cycles: s.irq_window_cycles,
            pebs_arm_below_min_delta: s.pebs_arm_below_min_delta,
            pebs_arm_already_past: s.pebs_arm_already_past,
            pebs_armed_iter_no_fire: s.pebs_armed_iter_no_fire,
            apic_timer_late_inject: s.apic_timer_late_inject,
        }
    }
}

/// What a run returns to userspace.
#[derive(Debug, Clone, Copy, PartialEq, Eq, Structural)]
pub struct BedrockVmExit {
    /// Number of the exit reason.
    pub exit_reason: u32,
    /// Exit qualification.
    pub exit_qualification: u64,
    /// Guest-physical address, for EPT violations.
    pub guest_physical_addr: u64,
    /// Valid bytes in the event buffer.
    pub event_len: u32,
    /// Emulated TSC.
    pub emulated_tsc: u64,
    /// TSC frequency in Hz.
    pub tsc_frequency: u64,
}

} // verus!
