//! Helper functions and error types for exit handling.

use vstd::prelude::*;
use vstd::std_specs::convert::FromSpecImpl;

use crate::bytes;
use crate::bytes::{push_bytes, slice_to_vec};
use crate::devices::random::RANDOM_REPLY_MAX;
use crate::events::types::{EventKind, RandomPayload};
use crate::exits::qualifications::InterruptionInfo;
use crate::exits::reasons::{ExitReason, UnknownExitReason};
use crate::fields::{VmcsField32, VmcsFieldNatural};
use crate::registers::GeneralPurposeRegisters;
use crate::stats::AllExitStats;
use crate::traits::errors::{VmcsReadError, VmcsWriteError};
use crate::traits::vm_context::VmView;
use crate::vm_state::{VmCore, VmHost, VmState, VmStateView};
use crate::vmcs::Vmcs;

verus! {

/// Error of exit handling.
#[derive(Debug, Clone, Copy, PartialEq, Eq)]
pub enum ExitError {
    /// Failed to read a VMCS field.
    VmcsReadError(VmcsReadError),
    /// Failed to write a VMCS field.
    VmcsWriteError(VmcsWriteError),
    /// Unknown exit reason.
    UnknownExitReason(u32),
    /// Triple fault, unrecoverable.
    TripleFault,
    /// Invalid guest state.
    InvalidGuestState,
    /// Fatal error during exit handling.
    Fatal(&'static str),
}

impl From<VmcsReadError> for ExitError {
    fn from(e: VmcsReadError) -> (r: Self) {
        ExitError::VmcsReadError(e)
    }
}

impl FromSpecImpl<VmcsReadError> for ExitError {
    open spec fn obeys_from_spec() -> bool {
        true
    }

    open spec fn from_spec(e: VmcsReadError) -> Self {
        ExitError::VmcsReadError(e)
    }
}

impl From<VmcsWriteError> for ExitError {
    fn from(e: VmcsWriteError) -> (r: Self) {
        ExitError::VmcsWriteError(e)
    }
}

impl FromSpecImpl<VmcsWriteError> for ExitError {
    open spec fn obeys_from_spec() -> bool {
        true
    }

    open spec fn from_spec(e: VmcsWriteError) -> Self {
        ExitError::VmcsWriteError(e)
    }
}

impl From<UnknownExitReason> for ExitError {
    fn from(e: UnknownExitReason) -> (r: Self) {
        ExitError::UnknownExitReason(e.0)
    }
}

impl FromSpecImpl<UnknownExitReason> for ExitError {
    open spec fn obeys_from_spec() -> bool {
        true
    }

    open spec fn from_spec(e: UnknownExitReason) -> Self {
        ExitError::UnknownExitReason(e.0)
    }
}

/// Result of handling a VM exit.
#[derive(Debug, Clone, Copy, PartialEq, Eq)]
pub enum ExitHandlerResult {
    /// The exit was fully handled; go on with the guest.
    Continue,
    /// Exit to userspace with the given reason.
    ExitToUserspace(ExitReason),
    /// Fatal error; the guest cannot go on.
    Error(ExitError),
}

impl VmStateView {
    /// The state with another core.
    pub open spec fn with_core(self, core: VmCore) -> Self {
        VmStateView { core, ..self }
    }

    /// The state with another VMCS.
    pub open spec fn with_vmcs(self, vmcs: Vmcs) -> Self {
        VmStateView { vmcs, ..self }
    }

    /// The state with other statistics.
    pub open spec fn with_stats(self, exit_stats: AllExitStats) -> Self {
        VmStateView { host: VmHost { exit_stats, ..self.host }, ..self }
    }

    /// The state with another value in RAX.
    pub open spec fn with_rax(self, rax: u64) -> Self {
        let c = self.core;
        self.with_core(VmCore { gprs: GeneralPurposeRegisters { rax, ..c.gprs }, ..c })
    }

    /// The state after the instruction pointer has moved past the instruction.
    pub open spec fn advance_rip(self) -> (Self, Result<(), ExitError>) {
        match self.vmcs.get_natural(VmcsFieldNatural::GuestRip) {
            Err(e) => (self, Err(ExitError::VmcsReadError(e))),
            Ok(rip) => match self.vmcs.get32(VmcsField32::VmExitInstructionLen) {
                Err(e) => (self, Err(ExitError::VmcsReadError(e))),
                Ok(len) => (
                    self.with_vmcs(
                        self.vmcs.with_natural(
                            VmcsFieldNatural::GuestRip,
                            rip.wrapping_add(len as u64),
                        ),
                    ),
                    Ok(()),
                ),
            },
        }
    }

    /// The state after the instruction has been completed, and the result:
    /// `done` unless the instruction pointer could not be moved.
    #[verifier::opaque]
    pub open spec fn complete(self, done: ExitHandlerResult) -> (Self, ExitHandlerResult) {
        let (state, r) = self.advance_rip();
        (
            state,
            match r {
                Ok(_) => done,
                Err(e) => ExitHandlerResult::Error(e),
            },
        )
    }

    /// The state after a randomness record with the served bytes.
    pub open spec fn emit_randomness(self, payload: RandomPayload, data: Seq<u8>) -> Self {
        self.event_append(
            EventKind::Randomness,
            payload.encode() + data.take(
                bytes::min_nat(data.len(), RANDOM_REPLY_MAX as nat) as int,
            ),
        ).0
    }
}

impl VmView {
    /// The VM with another core.
    pub open spec fn with_core(self, core: VmCore) -> Self {
        VmView { state: self.state.with_core(core), ..self }
    }

    /// The VM with another state.
    pub open spec fn with_state(self, state: VmStateView) -> Self {
        VmView { state, ..self }
    }
}

/// The exit reason recorded in the VMCS.
pub open spec fn exit_reason(vmcs: Vmcs) -> Result<ExitReason, ExitError> {
    match vmcs.get32(VmcsField32::VmExitReason) {
        Err(e) => Err(ExitError::VmcsReadError(e)),
        Ok(raw) => match ExitReason::decode(raw) {
            Ok(reason) => Ok(reason),
            Err(e) => Err(ExitError::UnknownExitReason(e.0)),
        },
    }
}

/// The exit qualification recorded in the VMCS.
pub open spec fn exit_qualification(vmcs: Vmcs) -> Result<u64, ExitError> {
    match vmcs.get_natural(VmcsFieldNatural::ExitQualification) {
        Err(e) => Err(ExitError::VmcsReadError(e)),
        Ok(q) => Ok(q),
    }
}

/// Read the VM exit reason.
pub fn read_exit_reason(state: &VmState) -> (r: Result<ExitReason, ExitError>)
    ensures
        r == exit_reason(state.vmcs),
{
    match state.vmcs.read32(VmcsField32::VmExitReason) {
        Ok(raw) => match ExitReason::from_raw(raw) {
            Ok(reason) => Ok(reason),
            Err(e) => Err(ExitError::from(e)),
        },
        Err(e) => Err(ExitError::from(e)),
    }
}

/// Read the exit qualification.
pub fn read_exit_qualification(state: &VmState) -> (r: Result<u64, ExitError>)
    ensures
        r == exit_qualification(state.vmcs),
{
    match state.vmcs.read_natural(VmcsFieldNatural::ExitQualification) {
        Ok(q) => Ok(q),
        Err(e) => Err(ExitError::from(e)),
    }
}

/// Read the guest instruction pointer.
pub fn read_guest_rip(state: &VmState) -> (r: Result<u64, ExitError>)
    ensures
        match state.vmcs.get_natural(VmcsFieldNatural::GuestRip) {
            Ok(rip) => r == Ok::<u64, ExitError>(rip),
            Err(e) => r == Err::<u64, ExitError>(ExitError::VmcsReadError(e)),
        },
{
    match state.vmcs.read_natural(VmcsFieldNatural::GuestRip) {
        Ok(rip) => Ok(rip),
        Err(e) => Err(ExitError::from(e)),
    }
}

/// Read the length of the instruction that caused the exit.
pub fn read_instruction_len(state: &VmState) -> (r: Result<u32, ExitError>)
    ensures
        match state.vmcs.get32(VmcsField32::VmExitInstructionLen) {
            Ok(len) => r == Ok::<u32, ExitError>(len),
            Err(e) => r == Err::<u32, ExitError>(ExitError::VmcsReadError(e)),
        },
{
    match state.vmcs.read32(VmcsField32::VmExitInstructionLen) {
        Ok(len) => Ok(len),
        Err(e) => Err(ExitError::from(e)),
    }
}

/// Move the guest instruction pointer past the instruction.
pub fn advance_rip(state: &mut VmState) -> (r: Result<(), ExitError>)
    requires
        old(state).wf(),
    ensures
        final(state).wf(),
        (final(state)@, r) == old(state)@.advance_rip(),
{
    let rip: u64 = match read_guest_rip(state) {
        Ok(rip) => rip,
        Err(e) => {
            return Err(e);
        },
    };
    let len: u32 = match read_instruction_len(state) {
        Ok(len) => len,
        Err(e) => {
            return Err(e);
        },
    };
    match state.vmcs.write_natural(
        VmcsFieldNatural::GuestRip,
        rip.wrapping_add(len as u64),
    ) {
        Ok(_) => Ok(()),
        Err(_) => Err(ExitError::Fatal("Failed to write guest RIP")),
    }
}

/// Move past the instruction and give `done`, or the error if that failed.
pub fn complete(state: &mut VmState, done: ExitHandlerResult) -> (r: ExitHandlerResult)
    requires
        old(state).wf(),
    ensures
        final(state).wf(),
        (final(state)@, r) == old(state)@.complete(done),
{
    reveal(VmStateView::complete);
    match advance_rip(state) {
        Ok(_) => done,
        Err(e) => ExitHandlerResult::Error(e),
    }
}

/// Record one controlled-randomness value, with the served bytes behind it.
pub fn emit_randomness_event(state: &mut VmState, payload: &RandomPayload, data: &[u8])
    requires
        old(state).wf(),
    ensures
        final(state).wf(),
        final(state)@ == old(state)@.emit_randomness(*payload, data@),
{
    let n: usize = if data.len() <= RANDOM_REPLY_MAX { data.len() } else { RANDOM_REPLY_MAX };
    let mut record: Vec<u8> = payload.as_bytes();
    let served: Vec<u8> = slice_to_vec(data, 0, n);
    push_bytes(&mut record, served.as_slice());
    assert(served@ =~= data@.take(n as int));
    let _ = state.event_append(EventKind::Randomness, record.as_slice());
}

/// The VMCS after an event has been queued for the next entry, and the
/// outcome.
pub open spec fn queue_event(vmcs: Vmcs, info: InterruptionInfo, error_code: Option<u32>) -> (
    Vmcs,
    Result<(), ExitError>,
) {
    if !vmcs.loaded {
        (vmcs, Err(ExitError::Fatal("Failed to write interruption info")))
    } else {
        let queued = vmcs.with32(VmcsField32::VmEntryInterruptionInfo, info.spec_encode());
        (
            match error_code {
                Some(ec) => queued.with32(VmcsField32::VmEntryExceptionErrorCode, ec),
                None => queued,
            },
            Ok(()),
        )
    }
}

/// Queue an exception for the next VM entry.
pub fn inject_exception(
    state: &mut VmState,
    info: InterruptionInfo,
    error_code: Option<u32>,
) -> (r: Result<(), ExitError>)
    requires
        old(state).wf(),
    ensures
        final(state).wf(),
        ({
            let (vmcs, result) = queue_event(old(state)@.vmcs, info, error_code);
            final(state)@ == old(state)@.with_vmcs(vmcs) && r == result
        }),
{
    match state.vmcs.write32(VmcsField32::VmEntryInterruptionInfo, info.encode()) {
        Ok(_) => {},
        Err(_) => {
            return Err(ExitError::Fatal("Failed to write interruption info"));
        },
    }
    if let Some(ec) = error_code {
        match state.vmcs.write32(VmcsField32::VmEntryExceptionErrorCode, ec) {
            Ok(_) => {},
            Err(_) => {
                return Err(ExitError::Fatal("Failed to write error code"));
            },
        }
    }
    Ok(())
}

} // verus!
