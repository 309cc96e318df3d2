//! A VM that owns its guest memory.

use vstd::prelude::*;

use crate::bytes::copy_into;
use crate::exits::helpers::ExitHandlerResult;
use crate::hash::Xxh64Hasher;
use crate::memory::MemView;
use crate::page::{PagePool, PAGE_SIZE};
use crate::traits::errors::MemoryError;
use crate::traits::vm_context::{ForkableVm, ParentVm, VmContext, VmView};
use crate::vm_state::{ExitTrigger, VmState, VmStateView};

verus! {

/// A root VM.
pub struct RootVm {
    /// VM state.
    pub state: VmState,
    /// Guest memory, a whole number of pages.
    pub memory: Vec<u8>,
    /// Number of VMs forked from this one.
    pub children_count: usize,
}

impl RootVm {
    /// A root VM with the given state and memory.
    pub fn new(state: VmState, memory: Vec<u8>) -> (r: Self)
        requires
            state.wf(),
            memory@.len() % (PAGE_SIZE as nat) == 0,
        ensures
            r.wf(),
            r.vm() == (VmView {
                state: state@,
                mem: MemView { base: memory@, overlay: None },
            }),
            r.children() == 0,
    {
        assert(memory.len() <= usize::MAX);
        RootVm { state, memory, children_count: 0 }
    }

    /// Fingerprint of guest memory for the waiting record.
    fn memory_hash(&self) -> (h: u64)
        requires
            self.wf(),
        ensures
            h == self.vm().memory_hash(),
    {
        if self.state.core.skip_memory_hash {
            return 0;
        }
        match self.state.core.exit_trigger {
            ExitTrigger::Disabled => 0,
            ExitTrigger::Checkpoints => 0,
            _ => {
                let mut hasher = Xxh64Hasher::new();
                hasher.write_bytes(self.memory.as_slice());
                assert(hasher@ =~= self.memory@);
                hasher.finish()
            },
        }
    }
}

impl VmContext for RootVm {
    open spec fn vm(&self) -> VmView {
        VmView { state: self.state@, mem: MemView { base: self.memory@, overlay: None } }
    }

    open spec fn wf(&self) -> bool {
        self.state.wf() && self.memory@.len() % (PAGE_SIZE as nat) == 0 && self.memory@.len()
            <= usize::MAX
    }

    open spec fn child_count(&self) -> usize {
        self.children_count
    }

    proof fn lemma_memory(&self) {
    }

    fn state(&self) -> (r: &VmState) {
        &self.state
    }

    fn state_mut(&mut self) -> (r: &mut VmState) {
        &mut self.state
    }

    fn read_guest_memory(&self, gpa: u64, buf: &mut [u8]) -> (r: Result<(), MemoryError>)
        ensures
            r is Err ==> final(buf)@ == old(buf)@,
    {
        let n: usize = buf.len();
        let size: usize = self.memory.len();
        if n > size || gpa > (size - n) as u64 {
            return Err(MemoryError::OutOfRange);
        }
        copy_into(buf, 0, self.memory.as_slice(), gpa as usize, n);
        assert(buf@ =~= self.vm().mem.bytes_at(gpa as int, n as nat));
        Ok(())
    }

    fn write_guest_memory(&mut self, gpa: u64, buf: &[u8]) -> (r: Result<(), MemoryError>) {
        let n: usize = buf.len();
        let size: usize = self.memory.len();
        if n > size || gpa > (size - n) as u64 {
            return Err(MemoryError::OutOfRange);
        }
        copy_into(self.memory.as_mut_slice(), gpa as usize, buf, 0, n);
        assert(buf@.subrange(0, n as int) =~= buf@);
        Ok(())
    }

    fn handle_cow_fault(&mut self, gpa: u64, allocator: &mut PagePool) -> (r: Option<
        ExitHandlerResult,
    >) {
        None
    }

    fn is_forked(&self) -> (r: bool) {
        false
    }

    fn cow_feedback_buffer_for_mapping(&mut self, index: usize, allocator: &mut PagePool) {
    }

    fn pre_cow_page(&mut self, gpa: u64, allocator: &mut PagePool) {
    }

    fn pre_cow_io_channel_page(&mut self, allocator: &mut PagePool) {
    }

    fn finalize_exit_record(&mut self) {
        if self.state.events.exit_loc.is_none() {
            return;
        }
        let memory_hash: u64 = self.memory_hash();
        self.state.finalize_exit_memory_hash(memory_hash, 0);
    }
}

impl ParentVm for RootVm {
    open spec fn parent_memory(&self) -> Seq<u8> {
        self.memory@
    }

    open spec fn parent_wf(&self) -> bool {
        self.wf()
    }

    fn read_page(&self, gpa: u64) -> (r: Option<&[u8]>) {
        let page: u64 = gpa - gpa % 4096;
        let size: usize = self.memory.len();
        if size < PAGE_SIZE || page > (size - PAGE_SIZE) as u64 {
            return None;
        }
        let at: usize = page as usize;
        Some(vstd::slice::slice_subrange(self.memory.as_slice(), at, at + PAGE_SIZE))
    }

    fn memory_size(&self) -> (r: usize) {
        self.memory.len()
    }
}

impl ForkableVm for RootVm {
    open spec fn fork_state(&self) -> VmStateView {
        self.state@
    }

    open spec fn children(&self) -> usize {
        self.children_count
    }

    fn vm_state(&self) -> (r: &VmState) {
        &self.state
    }

    fn add_child(&mut self) {
        self.children_count = self.children_count.wrapping_add(1);
    }

    fn remove_child(&mut self) {
        self.children_count = self.children_count.wrapping_sub(1);
    }

    fn children_count(&self) -> (r: usize) {
        self.children_count
    }
}

} // verus!
