//! CPUID exits: the processor that guests see.

use vstd::prelude::*;

use crate::exits::helpers::{complete, ExitHandlerResult};
use crate::registers::GeneralPurposeRegisters;
use crate::traits::vm_context::VmContext;
use crate::vm_state::{VmCore, VmState, VmStateView};

verus! {

/// Highest basic leaf.
pub const CPUID_MAX_BASIC_LEAF: u32 = 1;

/// Highest extended leaf.
pub const CPUID_MAX_EXTENDED_LEAF: u32 = 0x8000_0004;

/// Processor signature: family 6, model 85, stepping 7.
pub const CPUID_SIGNATURE: u32 = 0x0005_0657;

/// Feature bit in ECX of leaf 1: running under a hypervisor.
pub const CPUID_HYPERVISOR: u32 = 0x8000_0000;

/// What CPUID returns.
#[derive(Debug, Clone, Copy, PartialEq, Eq, Structural)]
pub struct CpuidResult {
    pub eax: u32,
    pub ebx: u32,
    pub ecx: u32,
    pub edx: u32,
}

/// What a leaf returns: vendor, signature and features, brand string. The same
/// processor is shown on every host; leaves that are not offered read as zero.
pub open spec fn cpuid_leaf(leaf: u32) -> CpuidResult {
    if leaf == 0 {
        // "GenuineIntel"
        CpuidResult {
            eax: CPUID_MAX_BASIC_LEAF,
            ebx: 0x756E_6547,
            ecx: 0x6C65_746E,
            edx: 0x4965_6E69,
        }
    } else if leaf == 1 {
        CpuidResult { eax: CPUID_SIGNATURE, ebx: 0, ecx: CPUID_HYPERVISOR, edx: 0 }
    } else if leaf == 0x8000_0000 {
        CpuidResult { eax: CPUID_MAX_EXTENDED_LEAF, ebx: 0, ecx: 0, edx: 0 }
    } else if leaf == 0x8000_0002 {
        // "Bedrock VM CPU"
        CpuidResult {
            eax: 0x7264_6542,
            ebx: 0x206B_636F,
            ecx: 0x4320_4D56,
            edx: 0x0000_5550,
        }
    } else {
        CpuidResult { eax: 0, ebx: 0, ecx: 0, edx: 0 }
    }
}

/// Look up a leaf.
pub fn cpuid(leaf: u32) -> (r: CpuidResult)
    ensures
        r == cpuid_leaf(leaf),
{
    if leaf == 0 {
        CpuidResult {
            eax: CPUID_MAX_BASIC_LEAF,
            ebx: 0x756E_6547,
            ecx: 0x6C65_746E,
            edx: 0x4965_6E69,
        }
    } else if leaf == 1 {
        CpuidResult { eax: CPUID_SIGNATURE, ebx: 0, ecx: CPUID_HYPERVISOR, edx: 0 }
    } else if leaf == 0x8000_0000 {
        CpuidResult { eax: CPUID_MAX_EXTENDED_LEAF, ebx: 0, ecx: 0, edx: 0 }
    } else if leaf == 0x8000_0002 {
        CpuidResult {
            eax: 0x7264_6542,
            ebx: 0x206B_636F,
            ecx: 0x4320_4D56,
            edx: 0x0000_5550,
        }
    } else {
        CpuidResult { eax: 0, ebx: 0, ecx: 0, edx: 0 }
    }
}

impl VmStateView {
    /// CPUID of the leaf in EAX.
    #[verifier::opaque]
    pub open spec fn cpuid(self) -> (Self, ExitHandlerResult) {
        let c = self.core;
        let leaf = cpuid_leaf(c.gprs.rax as u32);
        self.with_core(
            VmCore {
                gprs: GeneralPurposeRegisters {
                    rax: leaf.eax as u64,
                    rbx: leaf.ebx as u64,
                    rcx: leaf.ecx as u64,
                    rdx: leaf.edx as u64,
                    ..c.gprs
                },
                ..c
            },
        ).complete(ExitHandlerResult::Continue)
    }
}

fn serve_cpuid(state: &mut VmState) -> (r: ExitHandlerResult)
    requires
        old(state).wf(),
    ensures
        final(state).wf(),
        (final(state)@, r) == old(state)@.cpuid(),
{
    reveal(VmStateView::cpuid);
    let leaf: CpuidResult = cpuid(state.core.gprs.rax as u32);
    state.core.gprs.rax = leaf.eax as u64;
    state.core.gprs.rbx = leaf.ebx as u64;
    state.core.gprs.rcx = leaf.ecx as u64;
    state.core.gprs.rdx = leaf.edx as u64;
    complete(state, ExitHandlerResult::Continue)
}

/// Handle CPUID.
pub fn handle_cpuid<C: VmContext>(ctx: &mut C) -> (r: ExitHandlerResult)
    requires
        old(ctx).wf(),
    ensures
        final(ctx).wf(),
        final(ctx).child_count() == old(ctx).child_count(),
        ({
            let (state, result) = old(ctx).vm().state.cpuid();
            final(ctx).vm() == old(ctx).vm().with_state(state) && r == result
        }),
{
    serve_cpuid(ctx.state_mut())
}

/// Guests do not see virtualization extensions, but do see a hypervisor.
pub proof fn guest_cannot_nest()
    ensures
        cpuid_leaf(1).ecx & 0x20 == 0,
        cpuid_leaf(1).ecx & 0x8000_0000 != 0,
{
    assert(0x8000_0000u32 & 0x20 == 0 && 0x8000_0000u32 & 0x8000_0000 != 0) by (bit_vector);
}

} // verus!
