//! Host state captured when a VM is created.

use vstd::prelude::*;

use crate::msr::{MsrBank, SyscallMsrs};

verus! {

/// Host values that the run loop restores or the VMCS needs.
#[derive(Clone, Copy, PartialEq, Eq, Structural)]
pub struct HostState {
    /// SYSCALL MSRs of the host.
    pub syscall_msrs: SyscallMsrs,
    /// Address the processor jumps to on VM exit.
    pub exit_handler_rip: u64,
}

impl HostState {
    /// Capture the host state.
    pub fn capture(msr_access: &MsrBank, exit_handler_rip: u64) -> (r: Self)
        requires
            msr_access.wf(),
        ensures
            r == (HostState {
                syscall_msrs: SyscallMsrs::captured(msr_access@),
                exit_handler_rip,
            }),
    {
        HostState { syscall_msrs: SyscallMsrs::capture(msr_access), exit_handler_rip }
    }
}

impl Default for HostState {
    fn default() -> (r: Self)
        ensures
            r == (HostState { syscall_msrs: SyscallMsrs::zero(), exit_handler_rip: 0 }),
    {
        HostState { syscall_msrs: SyscallMsrs::default(), exit_handler_rip: 0 }
    }
}

} // verus!
