//! Control-register exits.

use vstd::prelude::*;

use crate::exits::helpers::{complete, ExitError, ExitHandlerResult};
use crate::exits::qualifications::{CrAccessQualification, RdrandOperandSize};
use crate::exits::rdrand;
use crate::exits::rdrand::{read_gpr_by_index, write_gpr_by_index};
use crate::exits::reasons::ExitReason;
use crate::fields::VmcsFieldNatural;
use crate::traits::vm_context::VmContext;
use crate::vm_state::{VmCore, VmState, VmStateView};

verus! {

/// The VMCS field of a control register that can be read here.
pub open spec fn cr_field(cr: u8) -> Option<VmcsFieldNatural> {
    if cr == 0 {
        Some(VmcsFieldNatural::GuestCr0)
    } else if cr == 3 {
        Some(VmcsFieldNatural::GuestCr3)
    } else {
        None
    }
}

impl VmStateView {
    /// MOV to CR3.
    pub open spec fn mov_to_cr3(self, register: u8) -> (Self, ExitHandlerResult) {
        let c = self.core;
        let (vmcs, r) = self.vmcs.put_natural(VmcsFieldNatural::GuestCr3, c.gprs.reg(register));
        let written = self.with_vmcs(vmcs);
        match r {
            Err(e) => (written, ExitHandlerResult::Error(ExitError::VmcsWriteError(e))),
            Ok(_) => written.complete(ExitHandlerResult::Continue),
        }
    }

    /// MOV from a control register.
    pub open spec fn mov_from_cr(self, field: VmcsFieldNatural, register: u8) -> (
        Self,
        ExitHandlerResult,
    ) {
        let c = self.core;
        match self.vmcs.get_natural(field) {
            Err(e) => (self, ExitHandlerResult::Error(ExitError::VmcsReadError(e))),
            Ok(value) => self.with_core(
                VmCore {
                    gprs: rdrand::result_written(
                        c.gprs,
                        register,
                        value,
                        RdrandOperandSize::Size64,
                    ),
                    ..c
                },
            ).complete(ExitHandlerResult::Continue),
        }
    }

    /// A control-register access. Writes to CR3 and reads of CR0 and CR3 are
    /// carried out; all others are left to userspace.
    #[verifier::opaque]
    pub open spec fn cr_access(self, qual: CrAccessQualification) -> (Self, ExitHandlerResult) {
        if qual.access == 0 && qual.cr == 3 {
            self.mov_to_cr3(qual.register)
        } else if qual.access == 1 && cr_field(qual.cr) is Some {
            self.mov_from_cr(cr_field(qual.cr)->0, qual.register)
        } else {
            (self, ExitHandlerResult::ExitToUserspace(ExitReason::CrAccess))
        }
    }
}

fn mov_to_cr3(state: &mut VmState, register: u8) -> (r: ExitHandlerResult)
    requires
        old(state).wf(),
    ensures
        final(state).wf(),
        (final(state)@, r) == old(state)@.mov_to_cr3(register),
{
    let value: u64 = read_gpr_by_index(&state.core.gprs, register);
    match state.vmcs.write_natural(VmcsFieldNatural::GuestCr3, value) {
        Ok(_) => {},
        Err(e) => {
            return ExitHandlerResult::Error(ExitError::VmcsWriteError(e));
        },
    }
    complete(state, ExitHandlerResult::Continue)
}

fn mov_from_cr(state: &mut VmState, field: VmcsFieldNatural, register: u8) -> (r: ExitHandlerResult)
    requires
        old(state).wf(),
    ensures
        final(state).wf(),
        (final(state)@, r) == old(state)@.mov_from_cr(field, register),
{
    let value: u64 = match state.vmcs.read_natural(field) {
        Ok(v) => v,
        Err(e) => {
            return ExitHandlerResult::Error(ExitError::VmcsReadError(e));
        },
    };
    write_gpr_by_index(&mut state.core.gprs, register, value, RdrandOperandSize::Size64);
    complete(state, ExitHandlerResult::Continue)
}

fn cr_access(state: &mut VmState, qual: CrAccessQualification) -> (r: ExitHandlerResult)
    requires
        old(state).wf(),
    ensures
        final(state).wf(),
        (final(state)@, r) == old(state)@.cr_access(qual),
{
    reveal(VmStateView::cr_access);
    if qual.access == 0 && qual.cr == 3 {
        mov_to_cr3(state, qual.register)
    } else if qual.access == 1 && qual.cr == 0 {
        mov_from_cr(state, VmcsFieldNatural::GuestCr0, qual.register)
    } else if qual.access == 1 && qual.cr == 3 {
        mov_from_cr(state, VmcsFieldNatural::GuestCr3, qual.register)
    } else {
        ExitHandlerResult::ExitToUserspace(ExitReason::CrAccess)
    }
}

/// Handle a control-register access.
pub fn handle_cr_access<C: VmContext>(ctx: &mut C, qual: CrAccessQualification) -> (r:
    ExitHandlerResult)
    requires
        old(ctx).wf(),
    ensures
        final(ctx).wf(),
        final(ctx).child_count() == old(ctx).child_count(),
        ({
            let (state, result) = old(ctx).vm().state.cr_access(qual);
            final(ctx).vm() == old(ctx).vm().with_state(state) && r == result
        }),
{
    cr_access(ctx.state_mut(), qual)
}

} // verus!
