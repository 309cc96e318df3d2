//! Error types.

use vstd::prelude::*;

use crate::exits::helpers::ExitError;
use crate::traits::instruction_counter::InstructionCounterError;

verus! {

/// An MSR access was rejected by the processor.
#[derive(Debug, Clone, Copy, PartialEq, Eq, Structural)]
pub enum MsrError {
    /// The access raised a general-protection fault.
    GeneralProtection,
}

/// A control-register access was rejected by the processor.
#[derive(Debug, Clone, Copy, PartialEq, Eq, Structural)]
pub enum CrError {
    /// The access raised a general-protection fault.
    GeneralProtection,
}

/// VMLAUNCH or VMRESUME failed.
#[derive(Debug, Clone, Copy, PartialEq, Eq, Structural)]
pub enum VmEntryError {
    /// No valid VMCS pointer (CF=1).
    VmFailInvalid,
    /// The VMCS is valid but the entry was rejected (ZF=1).
    VmFailValid,
}

/// Error returned during VMX initialization.
#[derive(Debug, Clone, Copy, PartialEq, Eq, Structural)]
pub enum VmxInitError {
    /// VMX is not supported on this CPU.
    Unsupported,
    /// Failed to read the VMX basic info MSR.
    FailedToReadBasicInfo(MsrError),
    /// Failed to enable VMX operation.
    FailedToEnableCPU { core: usize, error: VmxCpuInitError },
    /// Failed to allocate memory.
    MemoryAllocationFailed,
}

/// Error returned during VMX feature control configuration.
#[derive(Debug, Clone, Copy, PartialEq, Eq, Structural)]
pub enum VmxConfigureFeatureControlError {
    /// IA32_FEATURE_CONTROL is locked and VMX is not enabled.
    Locked,
    MsrReadFailed(MsrError),
    MsrWriteFailed(MsrError),
}

/// Error returned by the VMXON instruction.
#[derive(Debug, Clone, Copy, PartialEq, Eq, Structural)]
pub enum VmxonError {
    /// The VMXON pointer is invalid (CF=1).
    InvalidPointer,
    /// The processor is already in VMX root operation (ZF=1).
    AlreadyInVmxOperation,
}

/// Error returned by the VMXOFF instruction.
#[derive(Debug, Clone, Copy, PartialEq, Eq, Structural)]
pub enum VmxoffError {
    /// VMXOFF under dual-monitor treatment (ZF=1).
    DualMonitorTreatmentActive,
}

/// Error returned by the INVEPT instruction.
#[derive(Debug, Clone, Copy, PartialEq, Eq, Structural)]
pub enum InveptError {
    /// Invalid operand (CF=1).
    InvalidOperand,
    /// The INVEPT type is not supported (ZF=1).
    NotSupported,
}

/// Error returned by the INVVPID instruction.
#[derive(Debug, Clone, Copy, PartialEq, Eq, Structural)]
pub enum InvvpidError {
    /// Invalid operand (CF=1).
    InvalidOperand,
    /// The INVVPID type is not supported (ZF=1).
    NotSupported,
}

/// Error returned during VMXON region allocation.
#[derive(Debug, Clone, Copy, PartialEq, Eq, Structural)]
pub enum VmxonAllocError {
    /// Failed to allocate memory for the VMXON region.
    MemoryAllocationFailed,
    /// The VMXON instruction failed.
    VmxonFailed(VmxonError),
}

/// Error returned while a CPU enters VMX operation.
#[derive(Debug, Clone, Copy, PartialEq, Eq, Structural)]
pub enum VmxCpuInitError {
    /// Failed to configure the feature control MSR.
    FeatureControlConfigFailed(VmxConfigureFeatureControlError),
    /// Failed to enable VMX via CR4.
    FailedToEnableVMX(CrError),
    /// Failed to allocate the VMXON region.
    VmxonAllocFailed(VmxonAllocError),
}

/// Error returned by the VMREAD instruction.
#[derive(Debug, Clone, Copy, PartialEq, Eq, Structural)]
pub enum VmcsReadError {
    /// No VMCS is loaded (CF=1).
    VmcsNotLoaded,
    /// The field encoding is not recognized (ZF=1).
    InvalidField,
}

pub type VmcsReadResult<T> = Result<T, VmcsReadError>;

/// Error returned by the VMWRITE instruction.
#[derive(Debug, Clone, Copy, PartialEq, Eq, Structural)]
pub enum VmcsWriteError {
    /// No VMCS is loaded (CF=1).
    VmcsNotLoaded,
    /// The field encoding is not recognized (ZF=1).
    InvalidField,
    /// The field is read-only VM-exit information (ZF=1).
    ReadOnlyField,
}

pub type VmcsWriteResult = Result<(), VmcsWriteError>;

/// Error returned during VMCS creation.
#[derive(Debug, Clone, Copy, PartialEq, Eq, Structural)]
pub enum VmcsAllocError {
    /// Failed to allocate memory for the VMCS.
    MemoryAllocationFailed,
}

/// Error returned during VMCS setup.
#[derive(Debug, Clone, Copy, PartialEq, Eq)]
pub enum VmcsSetupError {
    Clear(&'static str),
    Guard(&'static str),
    HostState(VmcsWriteError),
    Controls(VmcsWriteError),
    EptPointer(VmcsWriteError),
}

/// Error of a guest memory access.
#[derive(Debug, Clone, Copy, PartialEq, Eq, Structural)]
pub enum MemoryError {
    /// Address out of range.
    OutOfRange,
    /// Memory not mapped.
    NotMapped,
    /// Permission denied.
    PermissionDenied,
}

/// Error returned when setting registers.
#[derive(Debug, Clone, Copy, PartialEq, Eq)]
pub enum VmSetRegistersError {
    VmcsGuard(&'static str),
    VmcsWrite(VmcsWriteError),
}

/// Error returned when reading registers.
#[derive(Debug, Clone, Copy, PartialEq, Eq)]
pub enum VmGetRegistersError {
    VmcsGuard(&'static str),
    VmcsRead(VmcsReadError),
}

/// Error from running a VM.
#[derive(Debug, Clone, Copy, PartialEq, Eq)]
pub enum VmRunError {
    /// Failed to prepare or restore the guest instruction counter.
    InstructionCounter(InstructionCounterError),
    /// VM entry failed.
    VmEntry(VmEntryError),
    /// The exit handler met a fatal error.
    ExitHandler(ExitError),
    /// VMCS load error.
    VmcsLoad(&'static str),
    /// VMCS clear error.
    VmcsClear(&'static str),
    /// Failed to write the host RSP.
    WriteHostRsp(VmcsWriteError),
    /// Failed to read the host CR3.
    ReadHostCr3,
    /// Failed to write the host CR3.
    WriteHostCr3(VmcsWriteError),
    /// Failed to write the host FS base.
    WriteHostFsBase(VmcsWriteError),
    /// Failed to write the host GS base.
    WriteHostGsBase(VmcsWriteError),
    /// Failed to write the host TR base.
    WriteHostTrBase(VmcsWriteError),
    /// Failed to write the host GDTR base.
    WriteHostGdtrBase(VmcsWriteError),
    /// INVEPT failed on entry to the run loop.
    InveptFailed(InveptError),
}

} // verus!
