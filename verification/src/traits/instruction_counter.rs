//! Counting retired guest instructions.

use vstd::prelude::*;

verus! {

/// Error while preparing or restoring an instruction counter.
#[derive(Debug, Clone, Copy, PartialEq, Eq, Structural)]
pub enum InstructionCounterError {
    /// The host does not expose the PMU MSRs the counter needs.
    Unavailable,
    /// The counter could not program the host PMU.
    ProgramFailed,
    /// The counter could not restore the host PMU state.
    RestoreFailed,
}

/// A counter of retired guest instructions.
///
/// `prepare` is called once before the run loop and `finish` once after it;
/// `read` may be called after each VM exit.
pub trait InstructionCounter {
    /// The current count.
    spec fn count(&self) -> u64;

    /// The counter is backed by hardware.
    spec fn configured(&self) -> bool;

    /// The guest and host values of `IA32_PERF_GLOBAL_CTRL` to swap.
    spec fn global_ctrl(&self) -> Option<(u64, u64)>;

    /// Where the counter's MSR list entry lives.
    spec fn entry_phys(&self) -> Option<u64>;

    /// The counter can be used.
    spec fn valid(&self) -> bool;

    /// The host PMU is set up for counting.
    spec fn active(&self) -> bool;

    /// What `prepare` does: the counter becomes `after`, with outcome `r`.
    spec fn prepares(&self, after: &Self, r: Result<(), InstructionCounterError>) -> bool;

    /// What `finish` does: the counter becomes `after`, with outcome `r`.
    spec fn finishes(&self, after: &Self, r: Result<(), InstructionCounterError>) -> bool;

    /// Prepare the host PMU for counting.
    fn prepare(&mut self) -> (r: Result<(), InstructionCounterError>)
        requires
            old(self).valid(),
        ensures
            final(self).valid(),
            old(self).prepares(&*final(self), r),
            r is Ok && final(self).configured() ==> final(self).active(),
    ;

    /// Restore the host PMU.
    fn finish(&mut self) -> (r: Result<(), InstructionCounterError>)
        requires
            old(self).valid(),
        ensures
            final(self).valid(),
            old(self).finishes(&*final(self), r),
            r is Ok ==> !final(self).active(),
    ;

    /// Read the current guest instruction count.
    fn read(&self) -> (n: u64)
        ensures
            n == self.count(),
    ;

    /// Whether this counter is hardware-backed.
    fn is_configured(&self) -> (r: bool)
        ensures
            r == self.configured(),
    ;

    /// `IA32_PERF_GLOBAL_CTRL` values as `(guest, host)` for the switch on VM
    /// entry and exit, or `None` if the counter wants no switch.
    fn perf_global_ctrl_values(&self) -> (r: Option<(u64, u64)>)
        ensures
            r == self.global_ctrl(),
    ;

    /// Physical address of the MSR list entry that the CPU saves the counter
    /// to on VM exit and reloads it from on VM entry, if there is one.
    fn msr_save_load_entry_phys(&self) -> (r: Option<u64>)
        ensures
            r == self.entry_phys(),
    ;
}

/// A counter that counts nothing.
#[derive(Debug, Clone, Copy)]
pub struct NullInstructionCounter;

impl InstructionCounter for NullInstructionCounter {
    open spec fn valid(&self) -> bool {
        true
    }

    open spec fn active(&self) -> bool {
        false
    }

    open spec fn prepares(&self, after: &Self, r: Result<(), InstructionCounterError>) -> bool {
        *after == *self && r is Ok
    }

    open spec fn finishes(&self, after: &Self, r: Result<(), InstructionCounterError>) -> bool {
        *after == *self && r is Ok
    }

    open spec fn count(&self) -> u64 {
        0
    }

    open spec fn configured(&self) -> bool {
        false
    }

    open spec fn global_ctrl(&self) -> Option<(u64, u64)> {
        None
    }

    open spec fn entry_phys(&self) -> Option<u64> {
        None
    }

    fn prepare(&mut self) -> (r: Result<(), InstructionCounterError>) {
        Ok(())
    }

    fn finish(&mut self) -> (r: Result<(), InstructionCounterError>) {
        Ok(())
    }

    fn read(&self) -> (n: u64) {
        0
    }

    fn is_configured(&self) -> (r: bool) {
        false
    }

    fn perf_global_ctrl_values(&self) -> (r: Option<(u64, u64)>) {
        None
    }

    fn msr_save_load_entry_phys(&self) -> (r: Option<u64>) {
        None
    }
}

/// A counter with a settable count that records how often it was prepared and
/// finished.
#[derive(Debug)]
pub struct MockInstructionCounter {
    pub count: u64,
    pub prepare_count: u32,
    pub finish_count: u32,
    pub running: bool,
}

impl MockInstructionCounter {
    /// A counter standing at `count`.
    pub fn new(count: u64) -> (r: Self)
        ensures
            r == (MockInstructionCounter {
                count,
                prepare_count: 0,
                finish_count: 0,
                running: false,
            }),
    {
        MockInstructionCounter { count, prepare_count: 0, finish_count: 0, running: false }
    }
}

impl InstructionCounter for MockInstructionCounter {
    open spec fn valid(&self) -> bool {
        true
    }

    open spec fn active(&self) -> bool {
        self.running
    }

    open spec fn prepares(&self, after: &Self, r: Result<(), InstructionCounterError>) -> bool {
        r is Ok && *after == (MockInstructionCounter {
            prepare_count: self.prepare_count.wrapping_add(1),
            running: true,
            ..*self
        })
    }

    open spec fn finishes(&self, after: &Self, r: Result<(), InstructionCounterError>) -> bool {
        r is Ok && *after == (MockInstructionCounter {
            finish_count: self.finish_count.wrapping_add(1),
            running: false,
            ..*self
        })
    }

    open spec fn count(&self) -> u64 {
        self.count
    }

    open spec fn configured(&self) -> bool {
        true
    }

    open spec fn global_ctrl(&self) -> Option<(u64, u64)> {
        None
    }

    open spec fn entry_phys(&self) -> Option<u64> {
        None
    }

    fn prepare(&mut self) -> (r: Result<(), InstructionCounterError>) {
        self.prepare_count = self.prepare_count.wrapping_add(1);
        self.running = true;
        Ok(())
    }

    fn finish(&mut self) -> (r: Result<(), InstructionCounterError>) {
        self.finish_count = self.finish_count.wrapping_add(1);
        self.running = false;
        Ok(())
    }

    fn read(&self) -> (n: u64) {
        self.count
    }

    fn is_configured(&self) -> (r: bool) {
        true
    }

    fn perf_global_ctrl_values(&self) -> (r: Option<(u64, u64)>) {
        None
    }

    fn msr_save_load_entry_phys(&self) -> (r: Option<u64>) {
        None
    }
}

} // verus!
