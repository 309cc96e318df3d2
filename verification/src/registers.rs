//! Guest register state.

use vstd::prelude::*;

verus! {

/// General-purpose registers.
#[derive(Clone, Copy, PartialEq, Eq, Structural, Debug)]
pub struct GeneralPurposeRegisters {
    pub rax: u64,
    pub rcx: u64,
    pub rdx: u64,
    pub rbx: u64,
    pub rsp: u64,
    pub rbp: u64,
    pub rsi: u64,
    pub rdi: u64,
    pub r8: u64,
    pub r9: u64,
    pub r10: u64,
    pub r11: u64,
    pub r12: u64,
    pub r13: u64,
    pub r14: u64,
    pub r15: u64,
}

impl GeneralPurposeRegisters {
    /// Every register zero.
    pub open spec fn zero() -> Self {
        GeneralPurposeRegisters {
            rax: 0,
            rcx: 0,
            rdx: 0,
            rbx: 0,
            rsp: 0,
            rbp: 0,
            rsi: 0,
            rdi: 0,
            r8: 0,
            r9: 0,
            r10: 0,
            r11: 0,
            r12: 0,
            r13: 0,
            r14: 0,
            r15: 0,
        }
    }
}

impl Default for GeneralPurposeRegisters {
    fn default() -> (r: Self)
        ensures
            r == GeneralPurposeRegisters::zero(),
    {
        GeneralPurposeRegisters {
            rax: 0,
            rcx: 0,
            rdx: 0,
            rbx: 0,
            rsp: 0,
            rbp: 0,
            rsi: 0,
            rdi: 0,
            r8: 0,
            r9: 0,
            r10: 0,
            r11: 0,
            r12: 0,
            r13: 0,
            r14: 0,
            r15: 0,
        }
    }
}

/// The register block the VM-entry code switches: the guest registers other
/// than RSP (which the VMCS holds), the XSAVE areas, and the launch state.
#[derive(Clone, Copy, PartialEq, Eq, Structural, Debug)]
pub struct VmxContext {
    pub guest_rax: u64,
    pub guest_rbx: u64,
    pub guest_rcx: u64,
    pub guest_rdx: u64,
    pub guest_rsi: u64,
    pub guest_rdi: u64,
    pub guest_rbp: u64,
    pub guest_r8: u64,
    pub guest_r9: u64,
    pub guest_r10: u64,
    pub guest_r11: u64,
    pub guest_r12: u64,
    pub guest_r13: u64,
    pub guest_r14: u64,
    pub guest_r15: u64,
    pub guest_xsave_ptr: u64,
    pub host_xsave_ptr: u64,
    pub xcr0_mask: u64,
    /// Nonzero once the VMCS has been launched.
    pub launched: u64,
}

impl VmxContext {
    /// Everything zero, not launched.
    pub open spec fn fresh() -> Self {
        VmxContext {
            guest_rax: 0,
            guest_rbx: 0,
            guest_rcx: 0,
            guest_rdx: 0,
            guest_rsi: 0,
            guest_rdi: 0,
            guest_rbp: 0,
            guest_r8: 0,
            guest_r9: 0,
            guest_r10: 0,
            guest_r11: 0,
            guest_r12: 0,
            guest_r13: 0,
            guest_r14: 0,
            guest_r15: 0,
            guest_xsave_ptr: 0,
            host_xsave_ptr: 0,
            xcr0_mask: 0,
            launched: 0,
        }
    }

    /// A context that has never been launched.
    pub fn new() -> (r: Self)
        ensures
            r == VmxContext::fresh(),
    {
        VmxContext {
            guest_rax: 0,
            guest_rbx: 0,
            guest_rcx: 0,
            guest_rdx: 0,
            guest_rsi: 0,
            guest_rdi: 0,
            guest_rbp: 0,
            guest_r8: 0,
            guest_r9: 0,
            guest_r10: 0,
            guest_r11: 0,
            guest_r12: 0,
            guest_r13: 0,
            guest_r14: 0,
            guest_r15: 0,
            guest_xsave_ptr: 0,
            host_xsave_ptr: 0,
            xcr0_mask: 0,
            launched: 0,
        }
    }
}

} // verus!
