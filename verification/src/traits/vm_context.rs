//! What exit handlers may do with a VM.

use vstd::prelude::*;

use crate::ept::{EptLeaf, EptPermissions};
use crate::exits::helpers::ExitHandlerResult;
use crate::hash;
use crate::memory;
use crate::memory::MemView;
use crate::page::{PagePool, PAGE_SIZE};
use crate::stats::{AllExitStats, CowStats};
use crate::traits::errors::MemoryError;
use crate::vm_state::{ExitTrigger, VmHost, VmState, VmStateView};

verus! {

/// A VM: its state and its guest memory.
pub struct VmView {
    pub state: VmStateView,
    pub mem: MemView,
}

/// What became of a page that was to be copied.
pub enum CopyOutcome {
    /// The VM owned the page already.
    Present,
    /// No host page was free.
    NoFrame,
    /// The parent has no such page; the host page taken is given up.
    OutOfRange,
    /// The copy was made, but the page has no mapping to change.
    RemapFailed,
    /// The copy was made and mapped writable.
    Copied,
}

impl VmView {
    /// The VM and the pool after an attempt to copy one page from the parent. Once
    /// the copy is mapped, cached translations of the old page are out of date.
    pub open spec fn copy_page(self, page: u64, frames: Seq<(u64, u64)>) -> (
        Self,
        Seq<(u64, u64)>,
        CopyOutcome,
    ) {
        if self.mem.owns(page) {
            (self, frames, CopyOutcome::Present)
        } else if frames.len() == 0 {
            (self, frames, CopyOutcome::NoFrame)
        } else if page + PAGE_SIZE > self.mem.base.len() {
            (self, frames.drop_last(), CopyOutcome::OutOfRange)
        } else {
            let leaf = EptLeaf {
                hpa: frames.last().0,
                permissions: EptPermissions::ReadWriteExecute,
            };
            let (ept, mapped) = self.state.ept.remap(page, leaf);
            let host = VmHost {
                invept_due: self.state.host.invept_due || mapped is Ok,
                ..self.state.host
            };
            (
                VmView {
                    state: VmStateView { ept, host, ..self.state },
                    mem: self.mem.with_copy(page),
                },
                frames.drop_last(),
                if mapped is Ok { CopyOutcome::Copied } else { CopyOutcome::RemapFailed },
            )
        }
    }

    /// The VM and the pool after an attempt to copy several pages in turn.
    pub open spec fn copy_pages(self, pages: Seq<u64>, frames: Seq<(u64, u64)>) -> (
        Self,
        Seq<(u64, u64)>,
    )
        decreases pages.len(),
    {
        if pages.len() == 0 {
            (self, frames)
        } else {
            let (vm, rest) = self.copy_pages(pages.drop_last(), frames);
            let (after, left, _) = vm.copy_page(pages.last(), rest);
            (after, left)
        }
    }

    /// The VM with one more stale-translation fault counted.
    pub open spec fn with_stale_fault(self) -> Self {
        let stats = self.state.host.exit_stats;
        VmView {
            state: self.state.with_stats(
                AllExitStats {
                    cow: CowStats {
                        stale_tlb_faults: stats.cow.stale_tlb_faults.wrapping_add(1),
                        ..stats.cow
                    },
                    ..stats
                },
            ),
            ..self
        }
    }

    /// The VM, the pool and the outcome after a write fault at `gpa`. A root VM
    /// has nothing to copy. A forked VM copies the page and retries; a fault on
    /// a page it owns came from a stale translation.
    pub open spec fn cow_fault(self, gpa: u64, frames: Seq<(u64, u64)>) -> (
        Self,
        Seq<(u64, u64)>,
        Option<ExitHandlerResult>,
    ) {
        if self.mem.overlay is None {
            (self, frames, None)
        } else {
            let (vm, rest, outcome) = self.copy_page(memory::page_of(gpa as int), frames);
            match outcome {
                CopyOutcome::Present => (
                    self.with_stale_fault(),
                    frames,
                    Some(ExitHandlerResult::Continue),
                ),
                CopyOutcome::Copied => (vm, rest, Some(ExitHandlerResult::Continue)),
                _ => (vm, rest, None),
            }
        }
    }

    /// The VM and the pool after the pages of a feedback buffer have been
    /// copied for mapping.
    pub open spec fn copy_feedback_buffer(self, index: int, frames: Seq<(u64, u64)>) -> (
        Self,
        Seq<(u64, u64)>,
    ) {
        if self.mem.overlay is None || index >= self.state.feedback_buffers.len() {
            (self, frames)
        } else {
            let info = self.state.feedback_buffers[index];
            self.copy_pages(info.gpas@.take(info.num_pages as int), frames)
        }
    }

    /// The VM and the pool after a forked VM has been given its own copy of the
    /// page at `gpa`, if it can have one.
    pub open spec fn own_page(self, gpa: u64, frames: Seq<(u64, u64)>) -> (
        Self,
        Seq<(u64, u64)>,
    ) {
        if self.mem.overlay is None {
            (self, frames)
        } else {
            let (vm, rest, _) = self.copy_page(memory::page_of(gpa as int), frames);
            (vm, rest)
        }
    }

    /// The VM and the pool after the I/O channel page has been copied.
    pub open spec fn copy_io_page(self, frames: Seq<(u64, u64)>) -> (Self, Seq<(u64, u64)>) {
        if self.mem.overlay is None || self.state.io_channel.page_gpa == 0 {
            (self, frames)
        } else {
            self.own_page(self.state.io_channel.page_gpa, frames)
        }
    }

    /// Fingerprint of guest memory for an exit record; zero where records do
    /// not carry one.
    pub open spec fn memory_hash(self) -> u64 {
        if self.state.core.skip_memory_hash {
            0
        } else {
            match self.state.core.exit_trigger {
                ExitTrigger::Disabled => 0,
                ExitTrigger::Checkpoints => 0,
                _ => hash::xxh64(self.mem.hash_input()),
            }
        }
    }

    /// Number of pages the VM owns by copying.
    pub open spec fn cow_page_count(self) -> nat {
        match self.mem.overlay {
            Some(pages) => pages.dom().len(),
            None => 0,
        }
    }

    /// The VM after the waiting exit record has been completed.
    pub open spec fn finalize_exit_record(self) -> Self {
        if self.state.events.exit_loc is None {
            self
        } else {
            VmView {
                state: VmStateView {
                    events: self.state.events.finalize_exit(
                        self.memory_hash(),
                        self.cow_page_count() as u32,
                    ),
                    ..self.state
                },
                ..self
            }
        }
    }
}

/// A VM as exit handlers see it: root VMs own their memory, forked VMs copy
/// their parent's pages on write.
pub trait VmContext: Sized {
    /// State and memory.
    spec fn vm(&self) -> VmView;

    /// The representation is consistent.
    spec fn wf(&self) -> bool;

    /// Number of VMs forked from this one.
    spec fn child_count(&self) -> usize;

    /// A consistent VM has well-formed memory.
    proof fn lemma_memory(&self)
        requires
            self.wf(),
        ensures
            self.vm().mem.wf(),
    ;

    /// The VM's state.
    fn state(&self) -> (r: &VmState)
        requires
            self.wf(),
        ensures
            r.wf(),
            r@ == self.vm().state,
    ;

    /// The VM's state, for changing it.
    fn state_mut(&mut self) -> (r: &mut VmState)
        requires
            old(self).wf(),
        ensures
            r.wf(),
            r@ == old(self).vm().state,
            final(r).wf() ==> final(self).wf(),
            final(self).child_count() == old(self).child_count(),
            final(self).vm() == (VmView { state: final(r)@, ..old(self).vm() }),
    ;

    /// Read guest memory at `gpa` into `buf`.
    fn read_guest_memory(&self, gpa: u64, buf: &mut [u8]) -> (r: Result<(), MemoryError>)
        requires
            self.wf(),
        ensures
            final(buf)@.len() == old(buf)@.len(),
            self.vm().mem.readable(gpa as int, old(buf)@.len()) ==> r is Ok && final(buf)@
                == self.vm().mem.bytes_at(gpa as int, old(buf)@.len()),
            !self.vm().mem.readable(gpa as int, old(buf)@.len()) ==> r == Err::<(), MemoryError>(
                MemoryError::OutOfRange,
            ),
    ;

    /// Write `buf` to guest memory at `gpa`.
    fn write_guest_memory(&mut self, gpa: u64, buf: &[u8]) -> (r: Result<(), MemoryError>)
        requires
            old(self).wf(),
        ensures
            final(self).wf(),
            final(self).child_count() == old(self).child_count(),
            final(self).vm() == (VmView {
                mem: old(self).vm().mem.put(gpa as int, buf@).0,
                ..old(self).vm()
            }),
            r == old(self).vm().mem.put(gpa as int, buf@).1,
    ;

    /// Handle a write fault at `gpa`. `None` means it was not a matter of
    /// copying a page, or the page could not be copied.
    fn handle_cow_fault(&mut self, gpa: u64, allocator: &mut PagePool) -> (r: Option<
        ExitHandlerResult,
    >)
        requires
            old(self).wf(),
        ensures
            final(self).wf(),
            final(self).child_count() == old(self).child_count(),
            (final(self).vm(), final(allocator).frames@, r) == old(self).vm().cow_fault(
                gpa,
                old(allocator).frames@,
            ),
    ;

    /// The VM copies its parent's pages on write.
    fn is_forked(&self) -> (r: bool)
        requires
            self.wf(),
        ensures
            r == self.vm().mem.overlay is Some,
    ;

    /// Copy the pages of feedback buffer `index` so that a mapping of it sees
    /// later guest writes. Pages that cannot be copied are skipped.
    fn cow_feedback_buffer_for_mapping(&mut self, index: usize, allocator: &mut PagePool)
        requires
            old(self).wf(),
        ensures
            final(self).wf(),
            final(self).child_count() == old(self).child_count(),
            (final(self).vm(), final(allocator).frames@) == old(self).vm().copy_feedback_buffer(
                index as int,
                old(allocator).frames@,
            ),
    ;

    /// Give a forked VM its own copy of the page at `gpa`, so that the host can
    /// write it.
    fn pre_cow_page(&mut self, gpa: u64, allocator: &mut PagePool)
        requires
            old(self).wf(),
        ensures
            final(self).wf(),
            final(self).child_count() == old(self).child_count(),
            (final(self).vm(), final(allocator).frames@) == old(self).vm().own_page(
                gpa,
                old(allocator).frames@,
            ),
    ;

    /// Copy the I/O channel page so that the host can write it.
    fn pre_cow_io_channel_page(&mut self, allocator: &mut PagePool)
        requires
            old(self).wf(),
        ensures
            final(self).wf(),
            final(self).child_count() == old(self).child_count(),
            (final(self).vm(), final(allocator).frames@) == old(self).vm().copy_io_page(
                old(allocator).frames@,
            ),
    ;

    /// Complete the waiting exit record with the memory fingerprint and the
    /// number of copied pages.
    fn finalize_exit_record(&mut self)
        requires
            old(self).wf(),
        ensures
            final(self).wf(),
            final(self).child_count() == old(self).child_count(),
            final(self).vm() == old(self).vm().finalize_exit_record(),
    ;
}

/// A VM that others can be forked from.
pub trait ParentVm {
    /// Guest memory as this VM shows it.
    spec fn parent_memory(&self) -> Seq<u8>;

    /// The representation is consistent and memory consists of whole pages.
    spec fn parent_wf(&self) -> bool;

    /// The page that holds `gpa`, if memory reaches that far.
    fn read_page(&self, gpa: u64) -> (r: Option<&[u8]>)
        requires
            self.parent_wf(),
        ensures
            ({
                let page = memory::page_of(gpa as int);
                match r {
                    Some(b) => page + PAGE_SIZE <= self.parent_memory().len() && b@
                        == self.parent_memory().subrange(page as int, page + PAGE_SIZE),
                    None => page + PAGE_SIZE > self.parent_memory().len(),
                }
            }),
    ;

    /// Size of guest memory.
    fn memory_size(&self) -> (r: usize)
        requires
            self.parent_wf(),
        ensures
            r == self.parent_memory().len(),
            r % PAGE_SIZE == 0,
    ;
}

/// A parent that counts its children.
pub trait ForkableVm: ParentVm {
    /// The VM's state.
    spec fn fork_state(&self) -> VmStateView;

    /// Number of VMs forked from this one that still exist.
    spec fn children(&self) -> usize;

    /// The VM's state.
    fn vm_state(&self) -> (r: &VmState)
        requires
            self.parent_wf(),
        ensures
            r.wf(),
            r@ == self.fork_state(),
    ;

    /// Count one more child.
    fn add_child(&mut self)
        requires
            old(self).parent_wf(),
        ensures
            final(self).parent_wf(),
            final(self).children() == old(self).children().wrapping_add(1),
            final(self).parent_memory() == old(self).parent_memory(),
            final(self).fork_state() == old(self).fork_state(),
    ;

    /// Count one child less.
    fn remove_child(&mut self)
        requires
            old(self).parent_wf(),
        ensures
            final(self).parent_wf(),
            final(self).children() == old(self).children().wrapping_sub(1),
            final(self).parent_memory() == old(self).parent_memory(),
            final(self).fork_state() == old(self).fork_state(),
    ;

    /// Number of children.
    fn children_count(&self) -> (r: usize)
        ensures
            r == self.children(),
    ;
}

} // verus!
