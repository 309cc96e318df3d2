//! VMCS fields by width.

use vstd::prelude::*;

verus! {

/// 16-bit fields.
#[derive(Debug, Clone, Copy, PartialEq, Eq, Structural)]
pub enum VmcsField16 {
    VirtualProcessorId,
}

/// 32-bit fields.
#[derive(Debug, Clone, Copy, PartialEq, Eq, Structural)]
pub enum VmcsField32 {
    PrimaryProcBasedVmExecControls,
    SecondaryProcBasedVmExecControls,
    ExceptionBitmap,
    PrimaryVmExitControls,
    VmExitMsrStoreCount,
    VmExitMsrLoadCount,
    VmEntryControls,
    VmEntryMsrLoadCount,
    VmEntryInterruptionInfo,
    VmEntryExceptionErrorCode,
    VmInstructionError,
    VmExitReason,
    VmExitInstructionLen,
    VmExitInstructionInfo,
    GuestInterruptibilityState,
    VmxPreemptionTimerValue,
}

/// 64-bit fields.
#[derive(Debug, Clone, Copy, PartialEq, Eq, Structural)]
pub enum VmcsField64 {
    MsrBitmapAddr,
    VmExitMsrStoreAddr,
    VmExitMsrLoadAddr,
    VmEntryMsrLoadAddr,
    EptPointer,
    GuestPhysicalAddr,
    GuestIa32PerfGlobalCtrl,
    HostIa32PerfGlobalCtrl,
}

/// Natural-width fields.
#[derive(Debug, Clone, Copy, PartialEq, Eq, Structural)]
pub enum VmcsFieldNatural {
    ExitQualification,
    GuestCr0,
    GuestCr3,
    GuestEsBase,
    GuestCsBase,
    GuestSsBase,
    GuestDsBase,
    GuestFsBase,
    GuestGsBase,
    GuestRip,
    GuestRflags,
    GuestPendingDebugExceptions,
    HostCr3,
    HostFsBase,
    HostGsBase,
    HostTrBase,
    HostGdtrBase,
    HostRsp,
}

impl VmcsField16 {
    /// The slot a field is kept in.
    pub open spec fn slot(self) -> int {
        0
    }

    pub fn index(self) -> (i: usize)
        ensures
            i == self.slot(),
            i < 1,
    {
        0
    }
}

impl VmcsField32 {
    /// The slot a field is kept in.
    pub open spec fn slot(self) -> int {
        match self {
            VmcsField32::PrimaryProcBasedVmExecControls => 0,
            VmcsField32::SecondaryProcBasedVmExecControls => 1,
            VmcsField32::ExceptionBitmap => 2,
            VmcsField32::PrimaryVmExitControls => 3,
            VmcsField32::VmExitMsrStoreCount => 4,
            VmcsField32::VmExitMsrLoadCount => 5,
            VmcsField32::VmEntryControls => 6,
            VmcsField32::VmEntryMsrLoadCount => 7,
            VmcsField32::VmEntryInterruptionInfo => 8,
            VmcsField32::VmEntryExceptionErrorCode => 9,
            VmcsField32::VmInstructionError => 10,
            VmcsField32::VmExitReason => 11,
            VmcsField32::VmExitInstructionLen => 12,
            VmcsField32::VmExitInstructionInfo => 13,
            VmcsField32::GuestInterruptibilityState => 14,
            VmcsField32::VmxPreemptionTimerValue => 15,
        }
    }

    /// The field holds VM-exit information.
    pub open spec fn read_only(self) -> bool {
        match self {
            VmcsField32::VmInstructionError
            | VmcsField32::VmExitReason
            | VmcsField32::VmExitInstructionLen
            | VmcsField32::VmExitInstructionInfo => true,
            _ => false,
        }
    }

    pub fn index(self) -> (i: usize)
        ensures
            i == self.slot(),
            i < 16,
    {
        match self {
            VmcsField32::PrimaryProcBasedVmExecControls => 0,
            VmcsField32::SecondaryProcBasedVmExecControls => 1,
            VmcsField32::ExceptionBitmap => 2,
            VmcsField32::PrimaryVmExitControls => 3,
            VmcsField32::VmExitMsrStoreCount => 4,
            VmcsField32::VmExitMsrLoadCount => 5,
            VmcsField32::VmEntryControls => 6,
            VmcsField32::VmEntryMsrLoadCount => 7,
            VmcsField32::VmEntryInterruptionInfo => 8,
            VmcsField32::VmEntryExceptionErrorCode => 9,
            VmcsField32::VmInstructionError => 10,
            VmcsField32::VmExitReason => 11,
            VmcsField32::VmExitInstructionLen => 12,
            VmcsField32::VmExitInstructionInfo => 13,
            VmcsField32::GuestInterruptibilityState => 14,
            VmcsField32::VmxPreemptionTimerValue => 15,
        }
    }

    pub fn is_read_only(self) -> (r: bool)
        ensures
            r == self.read_only(),
    {
        match self {
            VmcsField32::VmInstructionError
            | VmcsField32::VmExitReason
            | VmcsField32::VmExitInstructionLen
            | VmcsField32::VmExitInstructionInfo => true,
            _ => false,
        }
    }
}

impl VmcsField64 {
    /// The slot a field is kept in.
    pub open spec fn slot(self) -> int {
        match self {
            VmcsField64::MsrBitmapAddr => 0,
            VmcsField64::VmExitMsrStoreAddr => 1,
            VmcsField64::VmExitMsrLoadAddr => 2,
            VmcsField64::VmEntryMsrLoadAddr => 3,
            VmcsField64::EptPointer => 4,
            VmcsField64::GuestPhysicalAddr => 5,
            VmcsField64::GuestIa32PerfGlobalCtrl => 6,
            VmcsField64::HostIa32PerfGlobalCtrl => 7,
        }
    }

    /// The field holds VM-exit information.
    pub open spec fn read_only(self) -> bool {
        self == VmcsField64::GuestPhysicalAddr
    }

    pub fn index(self) -> (i: usize)
        ensures
            i == self.slot(),
            i < 8,
    {
        match self {
            VmcsField64::MsrBitmapAddr => 0,
            VmcsField64::VmExitMsrStoreAddr => 1,
            VmcsField64::VmExitMsrLoadAddr => 2,
            VmcsField64::VmEntryMsrLoadAddr => 3,
            VmcsField64::EptPointer => 4,
            VmcsField64::GuestPhysicalAddr => 5,
            VmcsField64::GuestIa32PerfGlobalCtrl => 6,
            VmcsField64::HostIa32PerfGlobalCtrl => 7,
        }
    }
}

impl VmcsFieldNatural {
    /// The slot a field is kept in.
    pub open spec fn slot(self) -> int {
        match self {
            VmcsFieldNatural::ExitQualification => 0,
            VmcsFieldNatural::GuestCr0 => 1,
            VmcsFieldNatural::GuestCr3 => 2,
            VmcsFieldNatural::GuestEsBase => 3,
            VmcsFieldNatural::GuestCsBase => 4,
            VmcsFieldNatural::GuestSsBase => 5,
            VmcsFieldNatural::GuestDsBase => 6,
            VmcsFieldNatural::GuestFsBase => 7,
            VmcsFieldNatural::GuestGsBase => 8,
            VmcsFieldNatural::GuestRip => 9,
            VmcsFieldNatural::GuestRflags => 10,
            VmcsFieldNatural::GuestPendingDebugExceptions => 11,
            VmcsFieldNatural::HostCr3 => 12,
            VmcsFieldNatural::HostFsBase => 13,
            VmcsFieldNatural::HostGsBase => 14,
            VmcsFieldNatural::HostTrBase => 15,
            VmcsFieldNatural::HostGdtrBase => 16,
            VmcsFieldNatural::HostRsp => 17,
        }
    }

    /// The field holds VM-exit information.
    pub open spec fn read_only(self) -> bool {
        self == VmcsFieldNatural::ExitQualification
    }

    pub fn index(self) -> (i: usize)
        ensures
            i == self.slot(),
            i < 18,
    {
        match self {
            VmcsFieldNatural::ExitQualification => 0,
            VmcsFieldNatural::GuestCr0 => 1,
            VmcsFieldNatural::GuestCr3 => 2,
            VmcsFieldNatural::GuestEsBase => 3,
            VmcsFieldNatural::GuestCsBase => 4,
            VmcsFieldNatural::GuestSsBase => 5,
            VmcsFieldNatural::GuestDsBase => 6,
            VmcsFieldNatural::GuestFsBase => 7,
            VmcsFieldNatural::GuestGsBase => 8,
            VmcsFieldNatural::GuestRip => 9,
            VmcsFieldNatural::GuestRflags => 10,
            VmcsFieldNatural::GuestPendingDebugExceptions => 11,
            VmcsFieldNatural::HostCr3 => 12,
            VmcsFieldNatural::HostFsBase => 13,
            VmcsFieldNatural::HostGsBase => 14,
            VmcsFieldNatural::HostTrBase => 15,
            VmcsFieldNatural::HostGdtrBase => 16,
            VmcsFieldNatural::HostRsp => 17,
        }
    }
}

} // verus!
