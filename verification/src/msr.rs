//! Model-specific registers.

use vstd::prelude::*;

use crate::sorted_map::SortedMap;
use crate::traits::errors::MsrError;

verus! {

pub const IA32_SYSENTER_CS: u32 = 0x174;

pub const IA32_SYSENTER_ESP: u32 = 0x175;

pub const IA32_SYSENTER_EIP: u32 = 0x176;

pub const IA32_PERFEVTSEL0: u32 = 0x186;

pub const IA32_FIXED_CTR0: u32 = 0x309;

pub const IA32_PERF_CAPABILITIES: u32 = 0x345;

pub const IA32_FIXED_CTR_CTRL: u32 = 0x38D;

pub const IA32_PERF_GLOBAL_CTRL: u32 = 0x38F;

pub const IA32_PERF_GLOBAL_STATUS_RESET: u32 = 0x390;

pub const IA32_PEBS_ENABLE: u32 = 0x3F1;

pub const MSR_PEBS_DATA_CFG: u32 = 0x3F2;

pub const IA32_A_PMC0: u32 = 0x4C1;

pub const IA32_DS_AREA: u32 = 0x600;

pub const IA32_EFER: u32 = 0xC000_0080;

pub const IA32_STAR: u32 = 0xC000_0081;

pub const IA32_LSTAR: u32 = 0xC000_0082;

pub const IA32_CSTAR: u32 = 0xC000_0083;

pub const IA32_FMASK: u32 = 0xC000_0084;

pub const IA32_FS_BASE: u32 = 0xC000_0100;

pub const IA32_GS_BASE: u32 = 0xC000_0101;

pub const IA32_KERNEL_GS_BASE: u32 = 0xC000_0102;

/// One MSR that the processor has.
#[derive(Clone, Copy, Debug, PartialEq, Eq, Structural)]
pub struct Msr {
    /// What a read gives.
    pub value: u64,
    /// A write is accepted; else it faults.
    pub writable: bool,
}

/// The MSRs of one processor that the run loop swaps. The owner fills it from
/// the processor and performs the writes it asks for, in order. An MSR that is
/// absent faults on access.
pub struct MsrBank {
    values: SortedMap<Msr>,
    issued: Vec<(u32, u64)>,
}

impl View for MsrBank {
    type V = Map<u64, Msr>;

    /// The MSRs by index, as they stand once the issued writes are performed.
    closed spec fn view(&self) -> Map<u64, Msr> {
        self.values@
    }
}

/// What a read of an MSR gives.
pub open spec fn msr_get(bank: Map<u64, Msr>, index: u32) -> Result<u64, MsrError> {
    if bank.dom().contains(index as u64) {
        Ok(bank[index as u64].value)
    } else {
        Err(MsrError::GeneralProtection)
    }
}

/// What a read of an MSR gives, with zero for an absent one.
pub open spec fn msr_or_zero(bank: Map<u64, Msr>, index: u32) -> u64 {
    if bank.dom().contains(index as u64) { bank[index as u64].value } else { 0 }
}

/// A write of an MSR is accepted.
pub open spec fn msr_writable(bank: Map<u64, Msr>, index: u32) -> bool {
    bank.dom().contains(index as u64) && bank[index as u64].writable
}

/// The MSRs after a write; one that faults changes nothing.
pub open spec fn msr_put(bank: Map<u64, Msr>, index: u32, value: u64) -> Map<u64, Msr> {
    if msr_writable(bank, index) {
        bank.insert(index as u64, Msr { value, writable: true })
    } else {
        bank
    }
}

/// The MSRs of a processor after it has performed `writes`, in order.
pub open spec fn performed(bank: Map<u64, Msr>, writes: Seq<(u32, u64)>) -> Map<u64, Msr>
    decreases writes.len(),
{
    if writes.len() == 0 {
        bank
    } else {
        let (index, value) = writes.last();
        msr_put(performed(bank, writes.drop_last()), index, value)
    }
}

/// `after` can have come from `before` by writes: the same MSRs accept writes, and
/// the others hold what they held.
pub open spec fn rewritten(before: Map<u64, Msr>, after: Map<u64, Msr>) -> bool {
    &&& after.dom() == before.dom()
    &&& forall|i: u64| #[trigger]
        before.dom().contains(i) ==> {
            &&& after[i].writable == before[i].writable
            &&& !before[i].writable ==> after[i] == before[i]
        }
}

/// One more write is performed after the others.
pub proof fn performed_push(bank: Map<u64, Msr>, writes: Seq<(u32, u64)>, index: u32, value: u64)
    ensures
        performed(bank, writes.push((index, value))) == msr_put(
            performed(bank, writes),
            index,
            value,
        ),
{
    assert(writes.push((index, value)).drop_last() =~= writes);
}

/// Performing writes in two batches is performing them in one.
pub proof fn performed_in_turn(bank: Map<u64, Msr>, a: Seq<(u32, u64)>, b: Seq<(u32, u64)>)
    ensures
        performed(bank, a + b) == performed(performed(bank, a), b),
    decreases b.len(),
{
    if b.len() == 0 {
        assert(a + b =~= a);
    } else {
        assert((a + b).drop_last() =~= a + b.drop_last());
        performed_in_turn(bank, a, b.drop_last());
    }
}

/// What a processor holds after some writes has come from what it held before.
pub proof fn performed_rewrites(bank: Map<u64, Msr>, writes: Seq<(u32, u64)>)
    ensures
        rewritten(bank, performed(bank, writes)),
    decreases writes.len(),
{
    if writes.len() > 0 {
        performed_rewrites(bank, writes.drop_last());
        assert(performed(bank, writes).dom() =~= bank.dom());
    }
}

impl MsrBank {
    /// Entries stand in index order.
    pub closed spec fn wf(&self) -> bool {
        self.values.wf()
    }

    /// The writes that the processor is still to perform, oldest first. One that
    /// was refused here faults there too.
    pub closed spec fn writes(&self) -> Seq<(u32, u64)> {
        self.issued@
    }

    /// A processor without MSRs.
    pub fn new() -> (r: Self)
        ensures
            r.wf(),
            r@ == Map::<u64, Msr>::empty(),
            r.writes() == Seq::<(u32, u64)>::empty(),
    {
        MsrBank { values: SortedMap::new(), issued: Vec::new() }
    }

    /// Hand over the writes for the processor to perform.
    pub fn take_writes(&mut self) -> (r: Vec<(u32, u64)>)
        requires
            old(self).wf(),
        ensures
            final(self).wf(),
            final(self)@ == old(self)@,
            r@ == old(self).writes(),
            final(self).writes() == Seq::<(u32, u64)>::empty(),
    {
        let mut taken: Vec<(u32, u64)> = Vec::new();
        taken.append(&mut self.issued);
        taken
    }

    /// Note that the processor has an MSR, what it holds, and that it accepts
    /// writes. Nothing is written.
    pub fn define(&mut self, index: u32, value: u64)
        requires
            old(self).wf(),
        ensures
            final(self).wf(),
            final(self)@ == old(self)@.insert(index as u64, (Msr { value, writable: true })),
            final(self).writes() == old(self).writes(),
    {
        self.values.insert(index as u64, Msr { value, writable: true });
    }

    /// Note that the processor has an MSR, what it holds, and that writes to it
    /// fault.
    pub fn define_read_only(&mut self, index: u32, value: u64)
        requires
            old(self).wf(),
        ensures
            final(self).wf(),
            final(self)@ == old(self)@.insert(index as u64, (Msr { value, writable: false })),
            final(self).writes() == old(self).writes(),
    {
        self.values.insert(index as u64, Msr { value, writable: false });
    }

    /// Read an MSR.
    pub fn read_msr(&self, index: u32) -> (r: Result<u64, MsrError>)
        requires
            self.wf(),
        ensures
            r == msr_get(self@, index),
    {
        match self.values.get(index as u64) {
            Some(m) => Ok(m.value),
            None => Err(MsrError::GeneralProtection),
        }
    }

    /// Read an MSR, taking an absent one as zero.
    pub fn read_or_zero(&self, index: u32) -> (v: u64)
        requires
            self.wf(),
        ensures
            v == msr_or_zero(self@, index),
    {
        match self.values.get(index as u64) {
            Some(m) => m.value,
            None => 0,
        }
    }

    /// Write an MSR.
    pub fn write_msr(&mut self, index: u32, value: u64) -> (r: Result<(), MsrError>)
        requires
            old(self).wf(),
        ensures
            final(self).wf(),
            final(self)@ == msr_put(old(self)@, index, value),
            final(self).writes() == old(self).writes().push((index, value)),
            r == if msr_writable(old(self)@, index) {
                Ok::<(), MsrError>(())
            } else {
                Err::<(), MsrError>(MsrError::GeneralProtection)
            },
    {
        self.issued.push((index, value));
        let accepted: bool = match self.values.get(index as u64) {
            Some(m) => m.writable,
            None => false,
        };
        if accepted {
            self.values.insert(index as u64, Msr { value, writable: true });
            Ok(())
        } else {
            Err(MsrError::GeneralProtection)
        }
    }
}

/// IA32_STAR: SYSCALL segment selectors.
#[derive(Clone, Copy, Debug, PartialEq, Eq, Structural)]
pub struct Star(pub u64);

/// IA32_LSTAR: SYSCALL 64-bit entry point.
#[derive(Clone, Copy, Debug, PartialEq, Eq, Structural)]
pub struct Lstar(pub u64);

/// IA32_CSTAR: SYSCALL compatibility-mode entry point.
#[derive(Clone, Copy, Debug, PartialEq, Eq, Structural)]
pub struct Cstar(pub u64);

/// IA32_FMASK: SYSCALL RFLAGS mask.
#[derive(Clone, Copy, Debug, PartialEq, Eq, Structural)]
pub struct Fmask(pub u64);

/// The MSRs of the SYSCALL/SYSRET mechanism.
#[derive(Clone, Copy, Debug, PartialEq, Eq, Structural)]
pub struct SyscallMsrs {
    pub star: Star,
    pub lstar: Lstar,
    pub cstar: Cstar,
    pub fmask: Fmask,
}

impl SyscallMsrs {
    /// Every register zero.
    pub open spec fn zero() -> Self {
        SyscallMsrs { star: Star(0), lstar: Lstar(0), cstar: Cstar(0), fmask: Fmask(0) }
    }

    /// The registers as the processor holds them, absent ones as zero.
    pub open spec fn captured(bank: Map<u64, Msr>) -> Self {
        SyscallMsrs {
            star: Star(msr_or_zero(bank, IA32_STAR)),
            lstar: Lstar(msr_or_zero(bank, IA32_LSTAR)),
            cstar: Cstar(msr_or_zero(bank, IA32_CSTAR)),
            fmask: Fmask(msr_or_zero(bank, IA32_FMASK)),
        }
    }

    /// The processor's MSRs after these have been loaded.
    pub open spec fn loaded(self, bank: Map<u64, Msr>) -> Map<u64, Msr> {
        msr_put(
            msr_put(
                msr_put(msr_put(bank, IA32_STAR, self.star.0), IA32_LSTAR, self.lstar.0),
                IA32_CSTAR,
                self.cstar.0,
            ),
            IA32_FMASK,
            self.fmask.0,
        )
    }

    /// The writes that load these.
    pub open spec fn load_writes(self) -> Seq<(u32, u64)> {
        seq![
            (IA32_STAR, self.star.0),
            (IA32_LSTAR, self.lstar.0),
            (IA32_CSTAR, self.cstar.0),
            (IA32_FMASK, self.fmask.0),
        ]
    }

    /// Capture the registers from the processor.
    pub fn capture(msr_access: &MsrBank) -> (r: Self)
        requires
            msr_access.wf(),
        ensures
            r == SyscallMsrs::captured(msr_access@),
    {
        SyscallMsrs {
            star: Star(msr_access.read_or_zero(IA32_STAR)),
            lstar: Lstar(msr_access.read_or_zero(IA32_LSTAR)),
            cstar: Cstar(msr_access.read_or_zero(IA32_CSTAR)),
            fmask: Fmask(msr_access.read_or_zero(IA32_FMASK)),
        }
    }

    /// Load the registers to the processor.
    pub fn load(&self, msr_access: &mut MsrBank)
        requires
            old(msr_access).wf(),
        ensures
            final(msr_access).wf(),
            final(msr_access)@ == self.loaded(old(msr_access)@),
            final(msr_access).writes() == old(msr_access).writes() + self.load_writes(),
    {
        let _ = msr_access.write_msr(IA32_STAR, self.star.0);
        let _ = msr_access.write_msr(IA32_LSTAR, self.lstar.0);
        let _ = msr_access.write_msr(IA32_CSTAR, self.cstar.0);
        let _ = msr_access.write_msr(IA32_FMASK, self.fmask.0);
    }
}

impl Default for SyscallMsrs {
    fn default() -> (r: Self)
        ensures
            r == SyscallMsrs::zero(),
    {
        SyscallMsrs { star: Star(0), lstar: Lstar(0), cstar: Cstar(0), fmask: Fmask(0) }
    }
}

/// The writes of a load, performed on a processor, load the registers there.
pub proof fn load_writes_load(m: SyscallMsrs, bank: Map<u64, Msr>)
    ensures
        performed(bank, m.load_writes()) == m.loaded(bank),
{
    let none = Seq::<(u32, u64)>::empty();
    let star = none.push((IA32_STAR, m.star.0));
    let lstar = star.push((IA32_LSTAR, m.lstar.0));
    let cstar = lstar.push((IA32_CSTAR, m.cstar.0));
    performed_push(bank, none, IA32_STAR, m.star.0);
    performed_push(bank, star, IA32_LSTAR, m.lstar.0);
    performed_push(bank, lstar, IA32_CSTAR, m.cstar.0);
    performed_push(bank, cstar, IA32_FMASK, m.fmask.0);
    assert(m.load_writes() =~= cstar.push((IA32_FMASK, m.fmask.0)));
}

/// The four MSRs of the mechanism accept writes.
pub open spec fn has_syscall_msrs(bank: Map<u64, Msr>) -> bool {
    &&& msr_writable(bank, IA32_STAR)
    &&& msr_writable(bank, IA32_LSTAR)
    &&& msr_writable(bank, IA32_CSTAR)
    &&& msr_writable(bank, IA32_FMASK)
}

/// On a processor that has the four MSRs, capturing after a load gives back
/// what was loaded, and every other MSR is unchanged.
pub proof fn syscall_msrs_round_trip(m: SyscallMsrs, bank: Map<u64, Msr>, index: u32)
    requires
        has_syscall_msrs(bank),
    ensures
        SyscallMsrs::captured(m.loaded(bank)) == m,
        index != IA32_STAR && index != IA32_LSTAR && index != IA32_CSTAR && index != IA32_FMASK
            ==> msr_get(m.loaded(bank), index) == msr_get(bank, index),
{
}

} // verus!
