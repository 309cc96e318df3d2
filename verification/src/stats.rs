//! Exit handling statistics.

use vstd::prelude::*;

use crate::exits::reasons::ExitReason;

verus! {

/// Count and total cycles of one exit type.
#[derive(Clone, Copy, Debug, PartialEq, Eq, Structural)]
pub struct ExitStats {
    /// Number of exits.
    pub count: u64,
    /// Total cycles spent handling them.
    pub cycles: u64,
}

impl ExitStats {
    /// Nothing recorded.
    pub open spec fn zero() -> Self {
        ExitStats { count: 0, cycles: 0 }
    }

    /// With one more exit.
    pub open spec fn recorded(self, cycles: u64) -> Self {
        ExitStats {
            count: self.count.wrapping_add(1),
            cycles: self.cycles.wrapping_add(cycles),
        }
    }

    /// Record an exit with the given cycle count.
    pub fn record(&mut self, cycles: u64)
        ensures
            *final(self) == old(self).recorded(cycles),
    {
        self.count = self.count.wrapping_add(1);
        self.cycles = self.cycles.wrapping_add(cycles);
    }

    /// The average cycles per exit, or zero if there was none.
    pub fn avg_cycles(&self) -> (r: u64)
        ensures
            r == if self.count == 0 { 0 } else { self.cycles as int / self.count as int },
    {
        if self.count == 0 {
            0
        } else {
            self.cycles / self.count
        }
    }
}

impl Default for ExitStats {
    fn default() -> (r: Self)
        ensures
            r == ExitStats::zero(),
    {
        ExitStats { count: 0, cycles: 0 }
    }
}

/// Copy-on-write fault statistics.
#[derive(Clone, Copy, Debug, PartialEq, Eq, Structural)]
pub struct CowStats {
    /// Total faults handled.
    pub total_faults: u64,
    /// Faults with a copied page at distance 1.
    pub adjacent_1: u64,
    /// Faults with a copied page within distance 2.
    pub adjacent_2: u64,
    /// Faults with a copied page within distance 4.
    pub adjacent_4: u64,
    /// Faults with a copied page within distance 8.
    pub adjacent_8: u64,
    /// Violations on pages that were copied already: stale EPT TLB entries.
    pub stale_tlb_faults: u64,
}

/// `n + 1` if `near`, else `n`.
pub open spec fn bumped(n: u64, near: bool) -> u64 {
    if near { n.wrapping_add(1) } else { n }
}

impl CowStats {
    /// Nothing recorded.
    pub open spec fn zero() -> Self {
        CowStats {
            total_faults: 0,
            adjacent_1: 0,
            adjacent_2: 0,
            adjacent_4: 0,
            adjacent_8: 0,
            stale_tlb_faults: 0,
        }
    }

    /// Record a fault. `min_distance` is the distance in pages to the nearest
    /// copied page, or `None` if there is none yet.
    pub fn record(&mut self, min_distance: Option<u64>)
        ensures
            *final(self) == (CowStats {
                total_faults: old(self).total_faults.wrapping_add(1),
                adjacent_1: bumped(old(self).adjacent_1, min_distance is Some && min_distance->0 <= 1),
                adjacent_2: bumped(old(self).adjacent_2, min_distance is Some && min_distance->0 <= 2),
                adjacent_4: bumped(old(self).adjacent_4, min_distance is Some && min_distance->0 <= 4),
                adjacent_8: bumped(old(self).adjacent_8, min_distance is Some && min_distance->0 <= 8),
                stale_tlb_faults: old(self).stale_tlb_faults,
            }),
    {
        self.total_faults = self.total_faults.wrapping_add(1);
        if let Some(dist) = min_distance {
            if dist <= 1 {
                self.adjacent_1 = self.adjacent_1.wrapping_add(1);
            }
            if dist <= 2 {
                self.adjacent_2 = self.adjacent_2.wrapping_add(1);
            }
            if dist <= 4 {
                self.adjacent_4 = self.adjacent_4.wrapping_add(1);
            }
            if dist <= 8 {
                self.adjacent_8 = self.adjacent_8.wrapping_add(1);
            }
        }
    }
}

impl Default for CowStats {
    fn default() -> (r: Self)
        ensures
            r == CowStats::zero(),
    {
        CowStats {
            total_faults: 0,
            adjacent_1: 0,
            adjacent_2: 0,
            adjacent_4: 0,
            adjacent_8: 0,
            stale_tlb_faults: 0,
        }
    }
}

/// Statistics of all exit types.
#[derive(Clone, Copy, Debug, PartialEq, Eq, Structural)]
pub struct AllExitStats {
    /// CPUID exits.
    pub cpuid: ExitStats,
    /// RDMSR exits.
    pub msr_read: ExitStats,
    /// WRMSR exits.
    pub msr_write: ExitStats,
    /// Control register access exits.
    pub cr_access: ExitStats,
    /// I/O instruction exits.
    pub io_instruction: ExitStats,
    /// EPT violation exits.
    pub ept_violation: ExitStats,
    /// External interrupt exits.
    pub external_interrupt: ExitStats,
    /// RDTSC exits.
    pub rdtsc: ExitStats,
    /// RDTSCP exits.
    pub rdtscp: ExitStats,
    /// RDPMC exits.
    pub rdpmc: ExitStats,
    /// MWAIT exits.
    pub mwait: ExitStats,
    /// VMCALL hypercall exits.
    pub vmcall: ExitStats,
    /// APIC access exits.
    pub apic_access: ExitStats,
    /// Monitor trap flag exits.
    pub mtf: ExitStats,
    /// XSETBV exits.
    pub xsetbv: ExitStats,
    /// RDRAND exits.
    pub rdrand: ExitStats,
    /// RDSEED exits.
    pub rdseed: ExitStats,
    /// Exception or NMI exits.
    pub exception_nmi: ExitStats,
    /// All other exits.
    pub other: ExitStats,
    /// Total cycles in the run loop, guest time counted.
    pub total_run_cycles: u64,
    /// Cycles in guest mode.
    pub guest_cycles: u64,
    /// Cycles spent before VM entry.
    pub vmentry_overhead_cycles: u64,
    /// Cycles spent between VM exit and the exit handler, without the IRQ window.
    pub vmexit_overhead_cycles: u64,
    /// Cycles spent in the IRQ window between VM exits.
    pub irq_window_cycles: u64,
    /// Copy-on-write statistics.
    pub cow: CowStats,
    /// Non-deterministic MTF steps inside the PEBS margin window. Kept apart from `mtf`, as the count depends on PEBS skid.
    pub pebs_margin_steps: u64,
    /// Armings refused because the target was too near.
    pub pebs_arm_below_min_delta: u64,
    /// Armings refused because the target had passed.
    pub pebs_arm_already_past: u64,
    /// Iterations entered with PEBS armed that ended without its firing.
    pub pebs_armed_iter_no_fire: u64,
    /// Timer interrupts delivered past their deadline.
    pub apic_timer_late_inject: u64,
    /// Largest PEBS skid seen.
    pub max_pebs_skid: i64,
}

impl AllExitStats {
    /// Nothing recorded.
    pub open spec fn zero() -> Self {
        AllExitStats {
            cpuid: ExitStats::zero(),
            msr_read: ExitStats::zero(),
            msr_write: ExitStats::zero(),
            cr_access: ExitStats::zero(),
            io_instruction: ExitStats::zero(),
            ept_violation: ExitStats::zero(),
            external_interrupt: ExitStats::zero(),
            rdtsc: ExitStats::zero(),
            rdtscp: ExitStats::zero(),
            rdpmc: ExitStats::zero(),
            mwait: ExitStats::zero(),
            vmcall: ExitStats::zero(),
            apic_access: ExitStats::zero(),
            mtf: ExitStats::zero(),
            xsetbv: ExitStats::zero(),
            rdrand: ExitStats::zero(),
            rdseed: ExitStats::zero(),
            exception_nmi: ExitStats::zero(),
            other: ExitStats::zero(),
            total_run_cycles: 0,
            guest_cycles: 0,
            vmentry_overhead_cycles: 0,
            vmexit_overhead_cycles: 0,
            irq_window_cycles: 0,
            cow: CowStats::zero(),
            pebs_margin_steps: 0,
            pebs_arm_below_min_delta: 0,
            pebs_arm_already_past: 0,
            pebs_armed_iter_no_fire: 0,
            apic_timer_late_inject: 0,
            max_pebs_skid: 0,
        }
    }

    /// With one more exit of the given type.
    pub open spec fn recorded(self, reason: ExitReason, cycles: u64) -> Self {
        match reason {
            ExitReason::Cpuid => AllExitStats {
                cpuid: self.cpuid.recorded(cycles),
                ..self
            },
            ExitReason::MsrRead => AllExitStats {
                msr_read: self.msr_read.recorded(cycles),
                ..self
            },
            ExitReason::MsrWrite => AllExitStats {
                msr_write: self.msr_write.recorded(cycles),
                ..self
            },
            ExitReason::CrAccess => AllExitStats {
                cr_access: self.cr_access.recorded(cycles),
                ..self
            },
            ExitReason::IoInstruction => AllExitStats {
                io_instruction: self.io_instruction.recorded(cycles),
                ..self
            },
            ExitReason::EptViolation => AllExitStats {
                ept_violation: self.ept_violation.recorded(cycles),
                ..self
            },
            ExitReason::ExternalInterrupt => AllExitStats {
                external_interrupt: self.external_interrupt.recorded(cycles),
                ..self
            },
            ExitReason::Rdtsc => AllExitStats {
                rdtsc: self.rdtsc.recorded(cycles),
                ..self
            },
            ExitReason::Rdtscp => AllExitStats {
                rdtscp: self.rdtscp.recorded(cycles),
                ..self
            },
            ExitReason::Rdpmc => AllExitStats {
                rdpmc: self.rdpmc.recorded(cycles),
                ..self
            },
            ExitReason::Mwait => AllExitStats {
                mwait: self.mwait.recorded(cycles),
                ..self
            },
            ExitReason::Vmcall | ExitReason::VmcallShutdown => AllExitStats {
                vmcall: self.vmcall.recorded(cycles),
                ..self
            },
            ExitReason::ApicAccess | ExitReason::ApicWrite => AllExitStats {
                apic_access: self.apic_access.recorded(cycles),
                ..self
            },
            ExitReason::MonitorTrapFlag => AllExitStats {
                mtf: self.mtf.recorded(cycles),
                ..self
            },
            ExitReason::Xsetbv => AllExitStats {
                xsetbv: self.xsetbv.recorded(cycles),
                ..self
            },
            ExitReason::Rdrand => AllExitStats {
                rdrand: self.rdrand.recorded(cycles),
                ..self
            },
            ExitReason::Rdseed => AllExitStats {
                rdseed: self.rdseed.recorded(cycles),
                ..self
            },
            ExitReason::ExceptionNmi => AllExitStats {
                exception_nmi: self.exception_nmi.recorded(cycles),
                ..self
            },
            _ => AllExitStats { other: self.other.recorded(cycles), ..self },
        }
    }

    /// Exits of all types together.
    pub open spec fn count_sum(self) -> int {
        self.cpuid.count
            + self.msr_read.count
            + self.msr_write.count
            + self.cr_access.count
            + self.io_instruction.count
            + self.ept_violation.count
            + self.external_interrupt.count
            + self.rdtsc.count
            + self.rdtscp.count
            + self.rdpmc.count
            + self.mwait.count
            + self.vmcall.count
            + self.apic_access.count
            + self.mtf.count
            + self.xsetbv.count
            + self.rdrand.count
            + self.rdseed.count
            + self.exception_nmi.count
            + self.other.count
    }

    /// Cycles of all types together.
    pub open spec fn cycles_sum(self) -> int {
        self.cpuid.cycles
            + self.msr_read.cycles
            + self.msr_write.cycles
            + self.cr_access.cycles
            + self.io_instruction.cycles
            + self.ept_violation.cycles
            + self.external_interrupt.cycles
            + self.rdtsc.cycles
            + self.rdtscp.cycles
            + self.rdpmc.cycles
            + self.mwait.cycles
            + self.vmcall.cycles
            + self.apic_access.cycles
            + self.mtf.cycles
            + self.xsetbv.cycles
            + self.rdrand.cycles
            + self.rdseed.cycles
            + self.exception_nmi.cycles
            + self.other.cycles
    }

    /// Record an exit of the given type.
    pub fn record(&mut self, reason: ExitReason, cycles: u64)
        ensures
            *final(self) == old(self).recorded(reason, cycles),
    {
        match reason {
            ExitReason::Cpuid => self.cpuid.record(cycles),
            ExitReason::MsrRead => self.msr_read.record(cycles),
            ExitReason::MsrWrite => self.msr_write.record(cycles),
            ExitReason::CrAccess => self.cr_access.record(cycles),
            ExitReason::IoInstruction => self.io_instruction.record(cycles),
            ExitReason::EptViolation => self.ept_violation.record(cycles),
            ExitReason::ExternalInterrupt => self.external_interrupt.record(cycles),
            ExitReason::Rdtsc => self.rdtsc.record(cycles),
            ExitReason::Rdtscp => self.rdtscp.record(cycles),
            ExitReason::Rdpmc => self.rdpmc.record(cycles),
            ExitReason::Mwait => self.mwait.record(cycles),
            ExitReason::Vmcall | ExitReason::VmcallShutdown => self.vmcall.record(cycles),
            ExitReason::ApicAccess | ExitReason::ApicWrite => self.apic_access.record(cycles),
            ExitReason::MonitorTrapFlag => self.mtf.record(cycles),
            ExitReason::Xsetbv => self.xsetbv.record(cycles),
            ExitReason::Rdrand => self.rdrand.record(cycles),
            ExitReason::Rdseed => self.rdseed.record(cycles),
            ExitReason::ExceptionNmi => self.exception_nmi.record(cycles),
            _ => self.other.record(cycles),
        }
    }

    /// Total exit count across all types.
    pub fn total_exit_count(&self) -> (r: u64)
        requires
            self.count_sum() <= u64::MAX,
        ensures
            r == self.count_sum(),
    {
        self.cpuid.count
            + self.msr_read.count
            + self.msr_write.count
            + self.cr_access.count
            + self.io_instruction.count
            + self.ept_violation.count
            + self.external_interrupt.count
            + self.rdtsc.count
            + self.rdtscp.count
            + self.rdpmc.count
            + self.mwait.count
            + self.vmcall.count
            + self.apic_access.count
            + self.mtf.count
            + self.xsetbv.count
            + self.rdrand.count
            + self.rdseed.count
            + self.exception_nmi.count
            + self.other.count
    }

    /// Total exit handling cycles across all types.
    pub fn total_exit_cycles(&self) -> (r: u64)
        requires
            self.cycles_sum() <= u64::MAX,
        ensures
            r == self.cycles_sum(),
    {
        self.cpuid.cycles
            + self.msr_read.cycles
            + self.msr_write.cycles
            + self.cr_access.cycles
            + self.io_instruction.cycles
            + self.ept_violation.cycles
            + self.external_interrupt.cycles
            + self.rdtsc.cycles
            + self.rdtscp.cycles
            + self.rdpmc.cycles
            + self.mwait.cycles
            + self.vmcall.cycles
            + self.apic_access.cycles
            + self.mtf.cycles
            + self.xsetbv.cycles
            + self.rdrand.cycles
            + self.rdseed.cycles
            + self.exception_nmi.cycles
            + self.other.cycles
    }

    /// Reset all statistics to zero.
    pub fn reset(&mut self)
        ensures
            *final(self) == AllExitStats::zero(),
    {
        *self = AllExitStats::default();
    }
}

impl Default for AllExitStats {
    fn default() -> (r: Self)
        ensures
            r == AllExitStats::zero(),
    {
        AllExitStats {
            cpuid: ExitStats::default(),
            msr_read: ExitStats::default(),
            msr_write: ExitStats::default(),
            cr_access: ExitStats::default(),
            io_instruction: ExitStats::default(),
            ept_violation: ExitStats::default(),
            external_interrupt: ExitStats::default(),
            rdtsc: ExitStats::default(),
            rdtscp: ExitStats::default(),
            rdpmc: ExitStats::default(),
            mwait: ExitStats::default(),
            vmcall: ExitStats::default(),
            apic_access: ExitStats::default(),
            mtf: ExitStats::default(),
            xsetbv: ExitStats::default(),
            rdrand: ExitStats::default(),
            rdseed: ExitStats::default(),
            exception_nmi: ExitStats::default(),
            other: ExitStats::default(),
            total_run_cycles: 0,
            guest_cycles: 0,
            vmentry_overhead_cycles: 0,
            vmexit_overhead_cycles: 0,
            irq_window_cycles: 0,
            cow: CowStats::default(),
            pebs_margin_steps: 0,
            pebs_arm_below_min_delta: 0,
            pebs_arm_already_past: 0,
            pebs_armed_iter_no_fire: 0,
            apic_timer_late_inject: 0,
            max_pebs_skid: 0,
        }
    }
}

/// Recording an exit adds one to the total count and its cycles to the total
/// cycles, whatever its type.
pub proof fn record_adds_to_totals(s: AllExitStats, reason: ExitReason, cycles: u64)
    requires
        s.count_sum() < u64::MAX,
        s.cycles_sum() + cycles <= u64::MAX,
    ensures
        s.recorded(reason, cycles).count_sum() == s.count_sum() + 1,
        s.recorded(reason, cycles).cycles_sum() == s.cycles_sum() + cycles,
{
}

} // verus!
