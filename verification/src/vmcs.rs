//! The virtual machine control structure as the exit handlers see it.

use vstd::prelude::*;

use crate::fields::{VmcsField16, VmcsField32, VmcsField64, VmcsFieldNatural};
use crate::traits::errors::{VmcsReadError, VmcsReadResult, VmcsWriteError, VmcsWriteResult};

verus! {

/// A software image of the VMCS. The run loop fills it from the processor
/// after a VM exit and flushes it before the next entry. A field the processor
/// does not provide is absent and cannot be read.
#[derive(Clone, Copy)]
pub struct Vmcs {
    /// The structure is current on this processor.
    pub loaded: bool,
    /// 16-bit fields by slot.
    pub words: [Option<u16>; 1],
    /// 32-bit fields by slot.
    pub dwords: [Option<u32>; 16],
    /// 64-bit fields by slot.
    pub qwords: [Option<u64>; 8],
    /// Natural-width fields by slot.
    pub naturals: [Option<u64>; 18],
}

impl Vmcs {
    /// What VMREAD of a 16-bit field gives.
    pub open spec fn get16(self, f: VmcsField16) -> VmcsReadResult<u16> {
        if !self.loaded {
            Err(VmcsReadError::VmcsNotLoaded)
        } else {
            match self.words@[f.slot()] {
                Some(v) => Ok(v),
                None => Err(VmcsReadError::InvalidField),
            }
        }
    }

    /// What VMREAD of a 32-bit field gives.
    pub open spec fn get32(self, f: VmcsField32) -> VmcsReadResult<u32> {
        if !self.loaded {
            Err(VmcsReadError::VmcsNotLoaded)
        } else {
            match self.dwords@[f.slot()] {
                Some(v) => Ok(v),
                None => Err(VmcsReadError::InvalidField),
            }
        }
    }

    /// What VMREAD of a 64-bit field gives.
    pub open spec fn get64(self, f: VmcsField64) -> VmcsReadResult<u64> {
        if !self.loaded {
            Err(VmcsReadError::VmcsNotLoaded)
        } else {
            match self.qwords@[f.slot()] {
                Some(v) => Ok(v),
                None => Err(VmcsReadError::InvalidField),
            }
        }
    }

    /// What VMREAD of a natural-width field gives.
    pub open spec fn get_natural(self, f: VmcsFieldNatural) -> VmcsReadResult<u64> {
        if !self.loaded {
            Err(VmcsReadError::VmcsNotLoaded)
        } else {
            match self.naturals@[f.slot()] {
                Some(v) => Ok(v),
                None => Err(VmcsReadError::InvalidField),
            }
        }
    }

    /// The structure with a 16-bit field set.
    pub open spec fn with16(self, f: VmcsField16, v: u16) -> Self {
        Vmcs { words: vstd::array::spec_array_update(self.words, f.slot(), Some(v)), ..self }
    }

    /// The structure with a 32-bit field set.
    pub open spec fn with32(self, f: VmcsField32, v: u32) -> Self {
        Vmcs { dwords: vstd::array::spec_array_update(self.dwords, f.slot(), Some(v)), ..self }
    }

    /// The structure with a 64-bit field set.
    pub open spec fn with64(self, f: VmcsField64, v: u64) -> Self {
        Vmcs { qwords: vstd::array::spec_array_update(self.qwords, f.slot(), Some(v)), ..self }
    }

    /// The structure with a natural-width field set.
    pub open spec fn with_natural(self, f: VmcsFieldNatural, v: u64) -> Self {
        Vmcs { naturals: vstd::array::spec_array_update(self.naturals, f.slot(), Some(v)), ..self }
    }

    /// The structure after VMWRITE of a 16-bit field, and what VMWRITE gives.
    pub open spec fn put16(self, f: VmcsField16, v: u16) -> (Self, VmcsWriteResult) {
        if !self.loaded {
            (self, Err(VmcsWriteError::VmcsNotLoaded))
        } else {
            (self.with16(f, v), Ok(()))
        }
    }

    /// The structure after VMWRITE of a 32-bit field, and what VMWRITE gives.
    pub open spec fn put32(self, f: VmcsField32, v: u32) -> (Self, VmcsWriteResult) {
        if !self.loaded {
            (self, Err(VmcsWriteError::VmcsNotLoaded))
        } else if f.read_only() {
            (self, Err(VmcsWriteError::ReadOnlyField))
        } else {
            (self.with32(f, v), Ok(()))
        }
    }

    /// The structure after VMWRITE of a 64-bit field, and what VMWRITE gives.
    pub open spec fn put64(self, f: VmcsField64, v: u64) -> (Self, VmcsWriteResult) {
        if !self.loaded {
            (self, Err(VmcsWriteError::VmcsNotLoaded))
        } else if f.read_only() {
            (self, Err(VmcsWriteError::ReadOnlyField))
        } else {
            (self.with64(f, v), Ok(()))
        }
    }

    /// The structure after VMWRITE of a natural-width field, and what VMWRITE
    /// gives.
    pub open spec fn put_natural(self, f: VmcsFieldNatural, v: u64) -> (Self, VmcsWriteResult) {
        if !self.loaded {
            (self, Err(VmcsWriteError::VmcsNotLoaded))
        } else if f.read_only() {
            (self, Err(VmcsWriteError::ReadOnlyField))
        } else {
            (self.with_natural(f, v), Ok(()))
        }
    }

    /// A current VMCS with no field present.
    pub fn new() -> (r: Self)
        ensures
            r.loaded,
            forall|i: int| 0 <= i < 1 ==> r.words@[i] is None,
            forall|i: int| 0 <= i < 16 ==> r.dwords@[i] is None,
            forall|i: int| 0 <= i < 8 ==> r.qwords@[i] is None,
            forall|i: int| 0 <= i < 18 ==> r.naturals@[i] is None,
    {
        Vmcs {
            loaded: true,
            words: [None; 1],
            dwords: [None; 16],
            qwords: [None; 8],
            naturals: [None; 18],
        }
    }

    /// VMREAD of a 16-bit field.
    pub fn read16(&self, f: VmcsField16) -> (r: VmcsReadResult<u16>)
        ensures
            r == self.get16(f),
    {
        if !self.loaded {
            return Err(VmcsReadError::VmcsNotLoaded);
        }
        match self.words[f.index()] {
            Some(v) => Ok(v),
            None => Err(VmcsReadError::InvalidField),
        }
    }

    /// VMREAD of a 32-bit field.
    pub fn read32(&self, f: VmcsField32) -> (r: VmcsReadResult<u32>)
        ensures
            r == self.get32(f),
    {
        if !self.loaded {
            return Err(VmcsReadError::VmcsNotLoaded);
        }
        match self.dwords[f.index()] {
            Some(v) => Ok(v),
            None => Err(VmcsReadError::InvalidField),
        }
    }

    /// VMREAD of a 64-bit field.
    pub fn read64(&self, f: VmcsField64) -> (r: VmcsReadResult<u64>)
        ensures
            r == self.get64(f),
    {
        if !self.loaded {
            return Err(VmcsReadError::VmcsNotLoaded);
        }
        match self.qwords[f.index()] {
            Some(v) => Ok(v),
            None => Err(VmcsReadError::InvalidField),
        }
    }

    /// VMREAD of a natural-width field.
    pub fn read_natural(&self, f: VmcsFieldNatural) -> (r: VmcsReadResult<u64>)
        ensures
            r == self.get_natural(f),
    {
        if !self.loaded {
            return Err(VmcsReadError::VmcsNotLoaded);
        }
        match self.naturals[f.index()] {
            Some(v) => Ok(v),
            None => Err(VmcsReadError::InvalidField),
        }
    }

    /// VMWRITE of a 16-bit field.
    pub fn write16(&mut self, f: VmcsField16, v: u16) -> (r: VmcsWriteResult)
        ensures
            (*final(self), r) == old(self).put16(f, v),
    {
        if !self.loaded {
            return Err(VmcsWriteError::VmcsNotLoaded);
        }
        self.set_field16(f, v);
        Ok(())
    }

    /// VMWRITE of a 32-bit field.
    pub fn write32(&mut self, f: VmcsField32, v: u32) -> (r: VmcsWriteResult)
        ensures
            (*final(self), r) == old(self).put32(f, v),
    {
        if !self.loaded {
            return Err(VmcsWriteError::VmcsNotLoaded);
        }
        if f.is_read_only() {
            return Err(VmcsWriteError::ReadOnlyField);
        }
        self.set_field32(f, v);
        Ok(())
    }

    /// VMWRITE of a 64-bit field.
    pub fn write64(&mut self, f: VmcsField64, v: u64) -> (r: VmcsWriteResult)
        ensures
            (*final(self), r) == old(self).put64(f, v),
    {
        if !self.loaded {
            return Err(VmcsWriteError::VmcsNotLoaded);
        }
        if f == VmcsField64::GuestPhysicalAddr {
            return Err(VmcsWriteError::ReadOnlyField);
        }
        self.set_field64(f, v);
        Ok(())
    }

    /// VMWRITE of a natural-width field.
    pub fn write_natural(&mut self, f: VmcsFieldNatural, v: u64) -> (r: VmcsWriteResult)
        ensures
            (*final(self), r) == old(self).put_natural(f, v),
    {
        if !self.loaded {
            return Err(VmcsWriteError::VmcsNotLoaded);
        }
        if f == VmcsFieldNatural::ExitQualification {
            return Err(VmcsWriteError::ReadOnlyField);
        }
        self.set_field_natural(f, v);
        Ok(())
    }

    /// Fill a 16-bit field from the processor.
    pub fn set_field16(&mut self, f: VmcsField16, v: u16)
        ensures
            *final(self) == old(self).with16(f, v),
    {
        self.words[f.index()] = Some(v);
        assert(self.words =~= vstd::array::spec_array_update(old(self).words, f.slot(), Some(v)));
    }

    /// Fill a 32-bit field from the processor.
    pub fn set_field32(&mut self, f: VmcsField32, v: u32)
        ensures
            *final(self) == old(self).with32(f, v),
    {
        self.dwords[f.index()] = Some(v);
        assert(self.dwords =~= vstd::array::spec_array_update(old(self).dwords, f.slot(), Some(v)));
    }

    /// Fill a 64-bit field from the processor.
    pub fn set_field64(&mut self, f: VmcsField64, v: u64)
        ensures
            *final(self) == old(self).with64(f, v),
    {
        self.qwords[f.index()] = Some(v);
        assert(self.qwords =~= vstd::array::spec_array_update(old(self).qwords, f.slot(), Some(v)));
    }

    /// Fill a natural-width field from the processor.
    pub fn set_field_natural(&mut self, f: VmcsFieldNatural, v: u64)
        ensures
            *final(self) == old(self).with_natural(f, v),
    {
        self.naturals[f.index()] = Some(v);
        assert(self.naturals =~= vstd::array::spec_array_update(old(self).naturals, f.slot(), Some(v)));
    }

    /// The image of a natural-width field, if it is present.
    pub fn get_field_natural(&self, f: VmcsFieldNatural) -> (r: Option<u64>)
        ensures
            r == self.naturals@[f.slot()],
    {
        self.naturals[f.index()]
    }

    /// The image of a 32-bit field, if it is present.
    pub fn get_field32(&self, f: VmcsField32) -> (r: Option<u32>)
        ensures
            r == self.dwords@[f.slot()],
    {
        self.dwords[f.index()]
    }

    /// The image of a 64-bit field, if it is present.
    pub fn get_field64(&self, f: VmcsField64) -> (r: Option<u64>)
        ensures
            r == self.qwords@[f.slot()],
    {
        self.qwords[f.index()]
    }
}

/// A field that was written reads back as written, and no other natural-width
/// field changes.
pub proof fn write_then_read_natural(
    vmcs: Vmcs,
    f: VmcsFieldNatural,
    v: u64,
    other: VmcsFieldNatural,
)
    requires
        vmcs.put_natural(f, v).1 is Ok,
    ensures
        vmcs.put_natural(f, v).0.get_natural(f) == Ok::<u64, VmcsReadError>(v),
        other != f ==> vmcs.put_natural(f, v).0.get_natural(other) == vmcs.get_natural(other),
{
}

} // verus!
