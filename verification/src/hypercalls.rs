//! Hypercall numbers. The guest executes VMCALL with the number in RAX.

use vstd::prelude::*;

verus! {

/// Shut the VM down.
pub const HYPERCALL_SHUTDOWN: u64 = 0;

/// Take a snapshot: exit to userspace, capturing the state if enabled.
pub const HYPERCALL_SNAPSHOT: u64 = 1;

/// Register a feedback buffer: RBX is its address, RCX its size, RDX the
/// address of its identifier and RSI the identifier's length. RAX becomes the
/// slot index or an `FB_ERR_*` code.
pub const HYPERCALL_REGISTER_FEEDBACK_BUFFER: u64 = 2;

/// Register the page at RBX as the scratch page for precise exits.
pub const HYPERCALL_REGISTER_PEBS_PAGE: u64 = 3;

/// Register the page at RBX as the I/O channel page.
pub const HYPERCALL_IO_REGISTER_PAGE: u64 = 4;

/// Fetch the waiting I/O request into the channel page. RAX becomes its length,
/// zero if none waits, or all ones on failure.
pub const HYPERCALL_IO_GET_REQUEST: u64 = 5;

/// Deliver RBX bytes of response from the channel page.
pub const HYPERCALL_IO_PUT_RESPONSE: u64 = 6;

/// The guest has finished booting. RAX is left alone.
pub const HYPERCALL_READY: u64 = 7;

/// Register the page at RBX as the console page.
pub const HYPERCALL_SERIAL_REGISTER_PAGE: u64 = 8;

/// Emit RBX bytes of the console page as one serial record.
pub const HYPERCALL_SERIAL_WRITE: u64 = 9;

/// Fetch the next chunk of a host file; request and response are framed in a
/// feedback buffer that userspace reads and writes.
pub const HYPERCALL_FILE_FETCH: u64 = 10;

/// Fill the buffer at RBX with up to RCX random bytes for process RDX. RAX
/// becomes the number of bytes, or all ones on failure.
pub const HYPERCALL_GET_RANDOM: u64 = 11;

/// Hand the next chunk of a guest file to the host; framed like a fetch.
pub const HYPERCALL_FILE_STORE: u64 = 12;

} // verus!
