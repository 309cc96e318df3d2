//! Commands on the hypervisor's device file.

use vstd::prelude::*;

use crate::page::PagePool;
use crate::traits::vm_context::{ForkableVm, VmContext};
use crate::vm::forked;
use crate::vm::forked::ForkedVm;
use crate::vm_file::structs::{Errno, BEDROCK_IOC_MAGIC};
use crate::vm_state::ForkSteps;

verus! {

/// Maximum number of VMs, root and forked, that exist at once.
pub const MAX_TRACKED_VMS: usize = 1024;

/// Create a root VM; the argument points to a `BedrockCreateVmConfig`.
pub const BEDROCK_CREATE_ROOT_VM: u32 = 0x4010_4200;

/// Fork a VM; the argument is the parent's identifier.
pub const BEDROCK_CREATE_FORKED_VM: u32 = 0x4008_4201;

/// Number of a command that passes `size` bytes in: direction in bits 31:30,
/// size in bits 29:16, magic in bits 15:8, command in bits 7:0.
pub open spec fn write_command(nr: u32, size: u32) -> int {
    0x4000_0000 + size * 0x1_0000 + BEDROCK_IOC_MAGIC * 0x100 + nr
}

/// The command numbers are those of an eight-byte argument and of a
/// configuration of two eight-byte fields.
pub proof fn command_numbers()
    ensures
        BEDROCK_CREATE_ROOT_VM == write_command(0, 16),
        BEDROCK_CREATE_FORKED_VM == write_command(1, 8),
{
}

/// A command on the device file.
#[derive(Debug, Clone, Copy, PartialEq, Eq, Structural)]
pub enum DeviceCommand {
    /// Create a root VM.
    CreateRootVm,
    /// Fork a VM.
    CreateForkedVm,
}

/// Decode a command number.
pub fn decode_command(cmd: u32) -> (r: Result<DeviceCommand, Errno>)
    ensures
        r == if cmd == BEDROCK_CREATE_ROOT_VM {
            Ok::<DeviceCommand, Errno>(DeviceCommand::CreateRootVm)
        } else if cmd == BEDROCK_CREATE_FORKED_VM {
            Ok::<DeviceCommand, Errno>(DeviceCommand::CreateForkedVm)
        } else {
            Err::<DeviceCommand, Errno>(Errno::Enotty)
        },
{
    if cmd == BEDROCK_CREATE_ROOT_VM {
        Ok(DeviceCommand::CreateRootVm)
    } else if cmd == BEDROCK_CREATE_FORKED_VM {
        Ok(DeviceCommand::CreateForkedVm)
    } else {
        Err(Errno::Enotty)
    }
}

/// Configuration of a root VM.
#[derive(Debug, Clone, Copy, PartialEq, Eq, Structural)]
pub struct BedrockCreateVmConfig {
    /// Guest memory in bytes.
    pub memory_size: u64,
    /// TSC frequency in Hz.
    pub tsc_frequency: u64,
}

/// Reject a configuration without memory or without a clock.
pub fn check_create_config(config: &BedrockCreateVmConfig) -> (r: Result<(), Errno>)
    ensures
        r == if config.memory_size == 0 || config.tsc_frequency == 0 {
            Err::<(), Errno>(Errno::Einval)
        } else {
            Ok::<(), Errno>(())
        },
{
    if config.memory_size == 0 {
        return Err(Errno::Einval);
    }
    if config.tsc_frequency == 0 {
        return Err(Errno::Einval);
    }
    Ok(())
}

/// A free identifier from the handler's table, if there is a handler at all and
/// an identifier left.
pub fn take_vm_id(handler: Option<Option<u64>>) -> (r: Result<u64, Errno>)
    ensures
        r == match handler {
            None => Err::<u64, Errno>(Errno::Enodev),
            Some(None) => Err::<u64, Errno>(Errno::Enospc),
            Some(Some(id)) => Ok::<u64, Errno>(id),
        },
{
    match handler {
        None => Err(Errno::Enodev),
        Some(id) => match id {
            None => Err(Errno::Enospc),
            Some(id) => Ok(id),
        },
    }
}

/// The answer to creating a root VM: the new descriptor, or the error of the
/// first step that failed. `created` tells whether the VM could be built, `fd`
/// is the outcome of opening its descriptor.
pub fn create_root_vm_result(
    config: &BedrockCreateVmConfig,
    handler: Option<Option<u64>>,
    created: bool,
    fd: Result<i32, Errno>,
) -> (r: Result<i32, Errno>)
    ensures
        r == if config.memory_size == 0 || config.tsc_frequency == 0 {
            Err::<i32, Errno>(Errno::Einval)
        } else if handler is None {
            Err::<i32, Errno>(Errno::Enodev)
        } else if handler->0 is None {
            Err::<i32, Errno>(Errno::Enospc)
        } else if !created {
            Err::<i32, Errno>(Errno::Enomem)
        } else {
            fd
        },
{
    match check_create_config(config) {
        Ok(_) => {},
        Err(e) => {
            return Err(e);
        },
    }
    match take_vm_id(handler) {
        Ok(_) => {},
        Err(e) => {
            return Err(e);
        },
    }
    if !created {
        return Err(Errno::Enomem);
    }
    fd
}

/// Start forking from a parent, if it was found. Its child is counted while the
/// table is still locked, so that the parent cannot be run meanwhile.
pub fn begin_fork<P: ForkableVm>(handler: Option<Option<u64>>, parent: Option<&mut P>) -> (r: Result<
    u64,
    Errno,
>)
    requires
        parent is Some ==> parent->0.parent_wf(),
    ensures
        r == if handler is None {
            Err::<u64, Errno>(Errno::Enodev)
        } else if handler->0 is None {
            Err::<u64, Errno>(Errno::Enospc)
        } else if parent is None {
            Err::<u64, Errno>(Errno::Enoent)
        } else {
            Ok::<u64, Errno>(handler->0->0)
        },
        parent is Some ==> final(parent->0).parent_wf() && final(parent->0).fork_state()
            == parent->0.fork_state() && final(
            parent->0
        ).parent_memory() == parent->0.parent_memory() && final(parent->0).children() == if r is Ok {
            parent->0.children().wrapping_add(1)
        } else {
            parent->0.children()
        },
{
    let vm_id: u64 = match take_vm_id(handler) {
        Ok(id) => id,
        Err(e) => {
            return Err(e);
        },
    };
    match parent {
        Some(p) => {
            p.add_child();
            Ok(vm_id)
        },
        None => Err(Errno::Enoent),
    }
}

/// Settle a fork: a child that could not be built is no longer counted.
pub fn settle_fork<P: ForkableVm>(parent: &mut P, forked: bool) -> (r: Result<(), Errno>)
    requires
        old(parent).parent_wf(),
    ensures
        final(parent).parent_wf(),
        final(parent).fork_state() == old(parent).fork_state(),
        final(parent).parent_memory() == old(parent).parent_memory(),
        forked ==> r == Ok::<(), Errno>(()) && final(parent).children() == old(parent).children(),
        !forked ==> r == Err::<(), Errno>(Errno::Enomem) && final(parent).children() == old(
            parent
        ).children().wrapping_sub(1),
{
    if forked {
        Ok(())
    } else {
        parent.remove_child();
        Err(Errno::Enomem)
    }
}

/// Fork a VM from a parent, if it was found. A fork that fails leaves the parent's
/// count as it was. `eptp` to `next_vpid` are as for `ForkedVm::new`.
pub fn create_forked_vm<'p, P: ForkableVm, E>(
    handler: Option<Option<u64>>,
    parent: Option<&'p mut P>,
    allocator: &mut PagePool,
    eptp: Result<u64, E>,
    vmcs_allocated: bool,
    steps: ForkSteps,
    next_vpid: u16,
) -> (r: Result<(u64, ForkedVm<'p, P>), Errno>)
    requires
        parent is Some ==> parent->0.parent_wf(),
    ensures
        ({
            let failure = forked::fork_error(
                eptp,
                vmcs_allocated,
                old(allocator).frames@.len(),
                steps,
            );
            if handler is None {
                &&& r is Err && r->Err_0 == Errno::Enodev
                &&& final(allocator).frames@ == old(allocator).frames@
            } else if handler->0 is None {
                &&& r is Err && r->Err_0 == Errno::Enospc
                &&& final(allocator).frames@ == old(allocator).frames@
            } else if parent is None {
                &&& r is Err && r->Err_0 == Errno::Enoent
                &&& final(allocator).frames@ == old(allocator).frames@
            } else if failure is Some {
                &&& r is Err && r->Err_0 == Errno::Enomem
                &&& final(allocator).frames@ == forked::frames_after_failed_fork(
                    eptp,
                    vmcs_allocated,
                    old(allocator).frames@,
                )
            } else {
                &&& r is Ok
                &&& r->Ok_0.0 == handler->0->0
                &&& r->Ok_0.1.wf()
                &&& r->Ok_0.1.forked_from(
                    r->Ok_0.1.parent,
                    old(allocator).frames@,
                    final(allocator).frames@,
                    eptp->Ok_0,
                    next_vpid,
                )
                &&& r->Ok_0.1.parent.fork_state() == parent->0.fork_state()
                &&& r->Ok_0.1.parent.parent_memory() == parent->0.parent_memory()
            }
        }),
        parent is Some ==> {
            &&& final(parent->0).parent_wf()
            &&& final(parent->0).fork_state() == parent->0.fork_state()
            &&& final(parent->0).parent_memory() == parent->0.parent_memory()
            &&& final(parent->0).children() == if r is Ok {
                parent->0.children().wrapping_add(1)
            } else {
                parent->0.children()
            }
        },
{
    let vm_id: u64 = match take_vm_id(handler) {
        Ok(id) => id,
        Err(e) => {
            return Err(e);
        },
    };
    let parent: &'p mut P = match parent {
        Some(p) => p,
        None => {
            return Err(Errno::Enoent);
        },
    };
    // The child borrows its parent, so whether it can be built is settled first.
    let possible: bool = eptp.is_ok() && vmcs_allocated && allocator.frames.len() >= 5
        && steps.parent_cleared && steps.child_loaded && steps.invept && steps.child_cleared;
    if !possible {
        parent.add_child();
        let forked: bool = ForkedVm::new_with_incremented_parent(
            &*parent,
            allocator,
            eptp,
            vmcs_allocated,
            steps,
            next_vpid,
        ).is_ok();
        let _ = settle_fork(parent, forked);
        return Err(Errno::Enomem);
    }
    match ForkedVm::new(parent, allocator, eptp, vmcs_allocated, steps, next_vpid) {
        Ok(vm) => Ok((vm_id, vm)),
        Err(_) => Err(Errno::Enomem),
    }
}

/// A fork that fails leaves the parent's count as it was.
pub proof fn failed_fork_is_not_counted(children: usize)
    ensures
        children.wrapping_add(1).wrapping_sub(1) == children,
{
}

} // verus!
