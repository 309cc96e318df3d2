//! Instruction counter on general-purpose performance counter 0.
//!
//! The counter's MSR stands in one list entry that the processor stores on VM
//! exit and loads on VM entry, so that ticks of the host in between are wiped
//! and the entry always holds the count at the last exit.

use vstd::prelude::*;

use crate::bytes;
use crate::bytes::{copy_into_page, push_u32, push_u64, read_u64};
use crate::msr;
use crate::msr::MsrBank;
use crate::page::{Page, PagePool};
use crate::traits::errors::MsrError;
use crate::traits::instruction_counter::{InstructionCounter, InstructionCounterError};
use crate::vm_pages;

verus! {

/// Event select 0xC0 (instructions retired), counted in user and kernel mode,
/// enabled.
pub const PERFEVTSEL0_INST_RETIRED_ANY_P: u64 = 0x43_00C0;

/// IA32_PERF_GLOBAL_CTRL bit of general-purpose counter 0.
pub const PERF_GLOBAL_CTRL_PMC0: u64 = 1;

/// Counter of retired guest instructions.
pub struct LinuxInstructionCounter {
    /// Page whose first 16 bytes are the MSR list entry. Without one nothing is
    /// counted.
    pub msr_entry_page: Option<Page>,
    /// The host's event select while the counter is prepared.
    pub saved_perfevtsel0: u64,
    /// IA32_PERF_GLOBAL_CTRL in the guest.
    pub guest_perf_global_ctrl: u64,
    /// IA32_PERF_GLOBAL_CTRL in the host.
    pub host_perf_global_ctrl: u64,
    /// Prepared and not yet finished.
    pub armed: bool,
    /// The processor's MSRs.
    pub msr_access: MsrBank,
}

impl LinuxInstructionCounter {
    /// The MSRs are well formed.
    pub open spec fn wf(&self) -> bool {
        self.msr_access.wf()
    }

    /// The outcome of preparing: the MSRs the counter needs, in the order they
    /// are touched.
    pub open spec fn prepare_outcome(&self) -> Result<(), InstructionCounterError> {
        let bank = self.msr_access@;
        if self.msr_entry_page is None {
            Ok(())
        } else if !bank.dom().contains(msr::IA32_PERF_GLOBAL_CTRL as u64) {
            Err(InstructionCounterError::Unavailable)
        } else if !bank.dom().contains(msr::IA32_PERFEVTSEL0 as u64) {
            Err(InstructionCounterError::Unavailable)
        } else if !msr::msr_writable(bank, msr::IA32_PERFEVTSEL0) {
            Err(InstructionCounterError::ProgramFailed)
        } else {
            Ok(())
        }
    }

    /// The counter with the enables computed from the host's.
    pub open spec fn with_enables(self) -> Self {
        let global = msr::msr_or_zero(self.msr_access@, msr::IA32_PERF_GLOBAL_CTRL);
        let host = global & !PERF_GLOBAL_CTRL_PMC0;
        LinuxInstructionCounter {
            host_perf_global_ctrl: host,
            guest_perf_global_ctrl: host | PERF_GLOBAL_CTRL_PMC0,
            ..self
        }
    }

    /// The event select has been written, accepted or not.
    pub open spec fn select_written(before: MsrBank, after: MsrBank, value: u64) -> bool {
        &&& after@ == msr::msr_put(before@, msr::IA32_PERFEVTSEL0, value)
        &&& after.writes() == before.writes().push((msr::IA32_PERFEVTSEL0, value))
    }

    /// The counter after preparing, and the outcome: the counter enables are
    /// computed from the host's, and the event select is saved and programmed. The
    /// first MSR that faults ends the sequence.
    pub open spec fn programmed(&self, after: &Self, r: Result<(), InstructionCounterError>) -> bool {
        let bank = self.msr_access@;
        &&& r == self.prepare_outcome()
        &&& if self.msr_entry_page is None || !bank.dom().contains(
            msr::IA32_PERF_GLOBAL_CTRL as u64,
        ) {
            *after == *self
        } else if !bank.dom().contains(msr::IA32_PERFEVTSEL0 as u64) {
            *after == self.with_enables()
        } else {
            &&& Self::select_written(
                self.msr_access,
                after.msr_access,
                PERFEVTSEL0_INST_RETIRED_ANY_P,
            )
            &&& *after == (LinuxInstructionCounter {
                saved_perfevtsel0: msr::msr_or_zero(bank, msr::IA32_PERFEVTSEL0),
                armed: self.armed || r is Ok,
                msr_access: after.msr_access,
                ..self.with_enables()
            })
        }
    }

    /// The counter after finishing, and the outcome: the saved event select is
    /// back, unless the processor refuses it.
    pub open spec fn restored(&self, after: &Self, r: Result<(), InstructionCounterError>) -> bool {
        let accepted = msr::msr_writable(self.msr_access@, msr::IA32_PERFEVTSEL0);
        if self.armed {
            &&& r == if accepted {
                Ok::<(), InstructionCounterError>(())
            } else {
                Err::<(), InstructionCounterError>(InstructionCounterError::RestoreFailed)
            }
            &&& Self::select_written(self.msr_access, after.msr_access, self.saved_perfevtsel0)
            &&& *after == (LinuxInstructionCounter {
                armed: !accepted,
                msr_access: after.msr_access,
                ..*self
            })
        } else {
            r is Ok && *after == *self
        }
    }

    /// A counter whose list entry lies in a page of the pool, if there is one.
    pub fn new(pool: &mut PagePool, msr_access: MsrBank) -> (r: Self)
        requires
            msr_access.wf(),
        ensures
            r.wf(),
            r.msr_access == msr_access,
            !r.armed,
            r.saved_perfevtsel0 == 0 && r.guest_perf_global_ctrl == 0 && r.host_perf_global_ctrl
                == 0,
            match r.msr_entry_page {
                Some(page) => old(pool).frames@.len() > 0 && (page.phys, page.virt) == old(
                    pool
                ).frames@.last() && page.bytes@ == bytes::overwrite(
                    bytes::zeros(4096),
                    0,
                    vm_pages::msr_entry(msr::IA32_A_PMC0, 0),
                ) && final(pool).frames@ == old(pool).frames@.drop_last(),
                None => old(pool).frames@.len() == 0 && final(pool).frames@ == old(pool).frames@,
            },
    {
        let mut msr_entry_page: Option<Page> = None;
        match pool.alloc_zeroed_page() {
            Some(mut page) => {
                let mut entry: Vec<u8> = Vec::new();
                push_u32(&mut entry, msr::IA32_A_PMC0);
                push_u32(&mut entry, 0);
                push_u64(&mut entry, 0);
                assert(entry@ =~= vm_pages::msr_entry(msr::IA32_A_PMC0, 0));
                copy_into_page(&mut *page.bytes, 0, entry.as_slice(), 0, 16);
                assert(entry@.subrange(0, 16) =~= entry@);
                msr_entry_page = Some(page);
            },
            None => {},
        }
        LinuxInstructionCounter {
            msr_entry_page,
            saved_perfevtsel0: 0,
            guest_perf_global_ctrl: 0,
            host_perf_global_ctrl: 0,
            armed: false,
            msr_access,
        }
    }

    /// Compute the counter enables and program the event select. The host value
    /// keeps the counter off outside the guest.
    pub fn program(&mut self) -> (r: Result<(), InstructionCounterError>)
        requires
            old(self).wf(),
        ensures
            final(self).wf(),
            old(self).programmed(&*final(self), r),
    {
        if self.msr_entry_page.is_none() {
            return Ok(());
        }
        let current_global: u64 = match self.msr_access.read_msr(msr::IA32_PERF_GLOBAL_CTRL) {
            Ok(v) => v,
            Err(_) => {
                return Err(InstructionCounterError::Unavailable);
            },
        };
        self.host_perf_global_ctrl = current_global & !PERF_GLOBAL_CTRL_PMC0;
        self.guest_perf_global_ctrl = self.host_perf_global_ctrl | PERF_GLOBAL_CTRL_PMC0;
        let saved: u64 = match self.msr_access.read_msr(msr::IA32_PERFEVTSEL0) {
            Ok(v) => v,
            Err(_) => {
                return Err(InstructionCounterError::Unavailable);
            },
        };
        self.saved_perfevtsel0 = saved;
        match self.msr_access.write_msr(msr::IA32_PERFEVTSEL0, PERFEVTSEL0_INST_RETIRED_ANY_P) {
            Ok(_) => {},
            Err(_) => {
                return Err(InstructionCounterError::ProgramFailed);
            },
        }
        self.armed = true;
        Ok(())
    }

    /// Restore the host's event select.
    pub fn restore(&mut self) -> (r: Result<(), InstructionCounterError>)
        requires
            old(self).wf(),
        ensures
            final(self).wf(),
            old(self).restored(&*final(self), r),
    {
        if !self.armed {
            return Ok(());
        }
        let saved: u64 = self.saved_perfevtsel0;
        match self.msr_access.write_msr(msr::IA32_PERFEVTSEL0, saved) {
            Ok(_) => {},
            Err(_) => {
                return Err(InstructionCounterError::RestoreFailed);
            },
        }
        self.armed = false;
        Ok(())
    }
}

impl InstructionCounter for LinuxInstructionCounter {
    open spec fn valid(&self) -> bool {
        self.wf()
    }

    open spec fn active(&self) -> bool {
        self.armed
    }

    open spec fn prepares(&self, after: &Self, r: Result<(), InstructionCounterError>) -> bool {
        self.programmed(after, r)
    }

    open spec fn finishes(&self, after: &Self, r: Result<(), InstructionCounterError>) -> bool {
        self.restored(after, r)
    }

    open spec fn count(&self) -> u64 {
        match self.msr_entry_page {
            Some(page) => bytes::word64(page.bytes@, 8),
            None => 0,
        }
    }

    open spec fn configured(&self) -> bool {
        self.msr_entry_page is Some
    }

    open spec fn global_ctrl(&self) -> Option<(u64, u64)> {
        if self.armed {
            Some((self.guest_perf_global_ctrl, self.host_perf_global_ctrl))
        } else {
            None
        }
    }

    open spec fn entry_phys(&self) -> Option<u64> {
        match self.msr_entry_page {
            Some(page) => Some(page.phys),
            None => None,
        }
    }

    fn prepare(&mut self) -> (r: Result<(), InstructionCounterError>) {
        self.program()
    }

    fn finish(&mut self) -> (r: Result<(), InstructionCounterError>) {
        self.restore()
    }

    fn read(&self) -> (n: u64) {
        match &self.msr_entry_page {
            Some(page) => read_u64(&*page.bytes, 8),
            None => 0,
        }
    }

    fn is_configured(&self) -> (r: bool) {
        self.msr_entry_page.is_some()
    }

    fn perf_global_ctrl_values(&self) -> (r: Option<(u64, u64)>) {
        if self.armed {
            Some((self.guest_perf_global_ctrl, self.host_perf_global_ctrl))
        } else {
            None
        }
    }

    fn msr_save_load_entry_phys(&self) -> (r: Option<u64>) {
        match &self.msr_entry_page {
            Some(page) => Some(page.phys),
            None => None,
        }
    }
}

/// Counting leaves the host's event select as it was: what finishing writes back
/// is what preparing found. The processor performs the two writes and then holds
/// what it held before.
pub proof fn event_select_is_restored(
    before: LinuxInstructionCounter,
    counting: LinuxInstructionCounter,
    after: LinuxInstructionCounter,
    r: Result<(), InstructionCounterError>,
)
    requires
        before.msr_entry_page is Some,
        before.programmed(&counting, Ok(())),
        counting.restored(&after, r),
    ensures
        r is Ok,
        !after.armed,
        after.msr_access@ == before.msr_access@,
        ({
            let found = msr::msr_or_zero(before.msr_access@, msr::IA32_PERFEVTSEL0);
            let writes = seq![
                (msr::IA32_PERFEVTSEL0, PERFEVTSEL0_INST_RETIRED_ANY_P),
                (msr::IA32_PERFEVTSEL0, found),
            ];
            &&& after.msr_access.writes() == before.msr_access.writes() + writes
            &&& msr::performed(before.msr_access@, writes) == before.msr_access@
        }),
{
    let bank = before.msr_access@;
    let select = msr::IA32_PERFEVTSEL0;
    let found = msr::msr_or_zero(bank, select);
    let none = Seq::<(u32, u64)>::empty();
    let first = none.push((select, PERFEVTSEL0_INST_RETIRED_ANY_P));
    msr::performed_push(bank, none, select, PERFEVTSEL0_INST_RETIRED_ANY_P);
    msr::performed_push(bank, first, select, found);
    let both = first.push((select, found));
    assert(both =~= seq![(select, PERFEVTSEL0_INST_RETIRED_ANY_P), (select, found)]);
    assert(msr::performed(bank, both) =~= bank);
    assert(after.msr_access@ =~= bank);
    assert(after.msr_access.writes() =~= before.msr_access.writes() + both);
}

/// The counter runs in the guest and stands still in the host; every other
/// counter is enabled alike in both.
pub proof fn counter_runs_in_guest_only(global: u64)
    ensures
        ({
            let host = global & !PERF_GLOBAL_CTRL_PMC0;
            let guest = host | PERF_GLOBAL_CTRL_PMC0;
            &&& host & PERF_GLOBAL_CTRL_PMC0 == 0
            &&& guest & PERF_GLOBAL_CTRL_PMC0 != 0
            &&& guest & !PERF_GLOBAL_CTRL_PMC0 == host
        }),
{
    assert((global & !1u64) & 1 == 0 && ((global & !1u64) | 1) & 1 != 0 && ((global & !1u64) | 1)
        & !1u64 == global & !1u64) by (bit_vector);
}

/// A prepared counter: IA32_PERFEVTSEL0 counts retired instructions, its former value
/// is kept, and of IA32_PERF_GLOBAL_CTRL the host has every counter but the first and
/// the guest that one too.
pub proof fn prepared_counter_counts_instructions(
    before: LinuxInstructionCounter,
    after: LinuxInstructionCounter,
)
    requires
        before.msr_entry_page is Some,
        before.programmed(&after, Ok(())),
    ensures
        msr::msr_get(after.msr_access@, 0x186) == Ok::<u64, MsrError>(0x43_00C0),
        msr::msr_get(before.msr_access@, 0x186) == Ok::<u64, MsrError>(after.saved_perfevtsel0),
        ({
            let global = msr::msr_get(before.msr_access@, 0x38F)->Ok_0;
            &&& after.host_perf_global_ctrl == global & !1u64
            &&& after.guest_perf_global_ctrl == (global & !1u64) | 1
        }),
        after.armed,
        after.global_ctrl() == Some((after.guest_perf_global_ctrl, after.host_perf_global_ctrl)),
        after.msr_entry_page == before.msr_entry_page,
{
}

/// The count is the value field of the list entry, as the processor stored it.
pub proof fn count_is_the_stored_value(counter: LinuxInstructionCounter, page: Page, value: u64)
    requires
        counter.msr_entry_page == Some(page),
        page.bytes@.subrange(8, 16) == bytes::le64(value),
    ensures
        counter.count() == value,
        counter.entry_phys() == Some(page.phys),
{
    bytes::le64_of_word64(page.bytes@, 8);
    bytes::le64_injective(bytes::word64(page.bytes@, 8), value);
}

} // verus!
