//! A VM that shares its parent's memory and copies pages on write.

use vstd::prelude::*;

use crate::bytes::{copy_into, copy_into_page};
use crate::ept::{EptPageTable, EptPermissions};
use crate::exits::helpers::ExitHandlerResult;
use crate::feedback::FeedbackBufferInfo;
use crate::hash::Xxh64Hasher;
use crate::memory;
use crate::memory::MemView;
use crate::page::{Page, PagePool, PAGE_SIZE};
use crate::sorted_map::SortedMap;
use crate::traits::errors::MemoryError;
use crate::traits::vm_context::{CopyOutcome, ForkableVm, ParentVm, VmContext, VmView};
use crate::vm_pages;
use crate::vm_pages::VmPages;
use crate::vm_state;
use crate::vm_state::{
    state_error_of_pages, ExitTrigger, ForkSteps, VmState, VmStateError, VmStateView,
};

verus! {

/// Pages a forked VM has copied, by guest-physical address.
pub type CowPageMap = SortedMap<Page>;

/// Error of forking a VM.
#[derive(Debug, PartialEq, Eq)]
pub enum ForkedVmError<E> {
    /// The parent has children and cannot be forked.
    ParentHasChildren,
    /// The parent's page table could not be cloned.
    EptClone(E),
    /// No VMCS for the child.
    VmcsAlloc,
    /// The child's state could not be created.
    VmState(VmStateError<E>),
}

/// A forked VM. Its page table starts write-protected, so that the first write
/// to a page faults and gives the VM a copy of its own. The parent's memory
/// cannot change while the child borrows it.
pub struct ForkedVm<'p, P: ParentVm> {
    /// VM state.
    pub state: VmState,
    /// Pages this VM owns.
    pub cow_pages: CowPageMap,
    /// The VM it was forked from.
    pub parent: &'p P,
    /// Number of VMs forked from this one.
    pub children_count: usize,
}

/// The frames of the owned pages after an attempt to copy one, which takes the
/// pool's last frame.
pub open spec fn frames_with_copy(
    owned: Map<u64, (u64, u64)>,
    page: u64,
    pool: Seq<(u64, u64)>,
    outcome: CopyOutcome,
) -> Map<u64, (u64, u64)> {
    if outcome is Copied || outcome is RemapFailed {
        owned.insert(page, pool.last())
    } else {
        owned
    }
}

/// The frames of the owned pages after an attempt to copy several in turn.
pub open spec fn frames_with_copies(
    owned: Map<u64, (u64, u64)>,
    vm: VmView,
    pages: Seq<u64>,
    pool: Seq<(u64, u64)>,
) -> Map<u64, (u64, u64)>
    decreases pages.len(),
{
    if pages.len() == 0 {
        owned
    } else {
        let (mid, rest) = vm.copy_pages(pages.drop_last(), pool);
        frames_with_copy(
            frames_with_copies(owned, vm, pages.drop_last(), pool),
            pages.last(),
            rest,
            mid.copy_page(pages.last(), rest).2,
        )
    }
}

impl<'p, P: ParentVm> ForkedVm<'p, P> {
    /// The contents of the owned pages.
    pub open spec fn overlay(&self) -> Map<u64, Seq<u8>> {
        self.cow_pages@.map_values(|p: Page| p.bytes@)
    }

    /// The host frame of each owned page, as `(physical, virtual)` addresses.
    pub open spec fn frames(&self) -> Map<u64, (u64, u64)> {
        self.cow_pages@.map_values(|p: Page| (p.phys, p.virt))
    }

    /// The page at `page` (aligned) as this VM sees it.
    fn own_or_parent_page(&self, page: u64) -> (r: Option<&[u8]>)
        requires
            self.wf(),
            page % 4096 == 0,
        ensures
            match r {
                Some(b) => page + PAGE_SIZE <= self.vm().mem.base.len() && b@
                    == self.vm().mem.bytes_at(page as int, PAGE_SIZE as nat),
                None => page + PAGE_SIZE > self.vm().mem.base.len() && !self.vm().mem.owns(page),
            },
    {
        let ghost mem = self.vm().mem;
        match self.cow_pages.get(page) {
            Some(p) => {
                let b: &[u8] = p.bytes.as_slice();
                assert(mem.owns(page));
                assert(b@ =~= mem.bytes_at(page as int, PAGE_SIZE as nat));
                Some(b)
            },
            None => {
                assert(!mem.owns(page));
                match self.parent.read_page(page) {
                    Some(b) => {
                        assert(b@ =~= mem.bytes_at(page as int, PAGE_SIZE as nat));
                        Some(b)
                    },
                    None => None,
                }
            },
        }
    }

    /// Copy one page from the parent and map it writable.
    fn copy_page(&mut self, page: u64, allocator: &mut PagePool) -> (r: CopyOutcome)
        requires
            old(self).wf(),
            page % 4096 == 0,
        ensures
            final(self).wf(),
            final(self).parent == old(self).parent,
            final(self).children_count == old(self).children_count,
            (final(self).vm(), final(allocator).frames@, r) == old(self).vm().copy_page(
                page,
                old(allocator).frames@,
            ),
            final(self).frames() == frames_with_copy(
                old(self).frames(),
                page,
                old(allocator).frames@,
                r,
            ),
    {
        if self.cow_pages.contains(page) {
            return CopyOutcome::Present;
        }
        let frame: (u64, u64) = match allocator.allocate_cow_page() {
            Some(f) => f,
            None => {
                return CopyOutcome::NoFrame;
            },
        };
        let mut copy: [u8; 4096] = [0u8; 4096];
        match self.parent.read_page(page) {
            Some(b) => {
                copy_into_page(&mut copy, 0, b, 0, PAGE_SIZE);
                assert(copy@ =~= b@);
            },
            None => {
                return CopyOutcome::OutOfRange;
            },
        }
        let new_page = Page::copy_of(frame, &copy);
        self.cow_pages.insert(page, new_page);
        assert(self.frames() =~= old(self).frames().insert(page, frame));
        assert(self.overlay() =~= old(self).vm().mem.with_copy(page).overlay->0);
        match self.state.ept.remap_4k(page, frame.0, EptPermissions::ReadWriteExecute) {
            Ok(_) => {
                self.state.host.invept_due = true;
                CopyOutcome::Copied
            },
            Err(_) => CopyOutcome::RemapFailed,
        }
    }

    /// Fingerprint of the owned pages for the waiting record.
    fn memory_hash(&self) -> (h: u64)
        requires
            self.wf(),
        ensures
            h == self.vm().memory_hash(),
    {
        if self.state.core.skip_memory_hash {
            return 0;
        }
        match self.state.core.exit_trigger {
            ExitTrigger::Disabled => 0,
            ExitTrigger::Checkpoints => 0,
            _ => {
                let mut hasher = Xxh64Hasher::new();
                let n: usize = self.cow_pages.len();
                let ghost keys = self.cow_pages.spec_keys();
                let ghost pages = self.overlay();
                let mut i: usize = 0;
                assert(hasher@ =~= memory::pages_input(keys.take(0), pages));
                while i < n
                    invariant
                        i <= n,
                        self.wf(),
                        hasher.wf(),
                        n == keys.len(),
                        keys == self.cow_pages.spec_keys(),
                        pages == self.overlay(),
                        hasher@ == memory::pages_input(keys.take(i as int), pages),
                    decreases n - i,
                {
                    let key: u64 = self.cow_pages.key_at(i);
                    let page: &Page = self.cow_pages.value_at(i);
                    hasher.write_u64(key);
                    hasher.write_bytes(page.bytes.as_slice());
                    assert(keys.take(i + 1).drop_last() =~= keys.take(i as int));
                    assert(keys.take(i + 1).last() == key);
                    i = i + 1;
                }
                proof {
                    self.cow_pages.lemma_keys();
                    assert(keys.take(n as int) =~= keys);
                    assert(pages.dom() =~= self.cow_pages@.dom());
                }
                hasher.finish()
            },
        }
    }
}

/// Why a fork fails, if it does: the first step that went wrong.
pub open spec fn fork_error<E>(
    eptp: Result<u64, E>,
    vmcs_allocated: bool,
    free_pages: nat,
    steps: ForkSteps,
) -> Option<ForkedVmError<E>> {
    match eptp {
        Err(e) => Some(ForkedVmError::EptClone(e)),
        Ok(_) => if !vmcs_allocated {
            Some(ForkedVmError::VmcsAlloc)
        } else {
            match vm_pages::pages_error(free_pages) {
                Some(e) => Some(ForkedVmError::VmState(vm_state::page_error(e))),
                None => if !steps.parent_cleared || !steps.child_loaded {
                    Some(ForkedVmError::VmState(VmStateError::GuestStateCopy))
                } else if !steps.invept {
                    Some(ForkedVmError::VmState(VmStateError::InveptFailed))
                } else if !steps.child_cleared {
                    Some(ForkedVmError::VmState(VmStateError::GuestStateCopy))
                } else {
                    None
                },
            }
        },
    }
}

/// What a failed fork leaves of the pool: pages taken for the child are given
/// up.
pub open spec fn frames_after_failed_fork<E>(
    eptp: Result<u64, E>,
    vmcs_allocated: bool,
    frames: Seq<(u64, u64)>,
) -> Seq<(u64, u64)> {
    if eptp is Err || !vmcs_allocated {
        frames
    } else if vm_pages::pages_error(frames.len()) is Some {
        Seq::empty()
    } else {
        frames.take(frames.len() - 5)
    }
}

impl<'p, P: ForkableVm> ForkedVm<'p, P> {
    /// A child of `parent` right after the fork: the parent's state and
    /// write-protected pages, with only the I/O channel page copied already.
    pub open spec fn forked_from(
        self,
        parent: &P,
        frames: Seq<(u64, u64)>,
        left: Seq<(u64, u64)>,
        eptp: u64,
        next_vpid: u16,
    ) -> bool {
        let pages = self.state.host.pages;
        let from = parent.fork_state();
        let bare = VmView {
            state: from.forked(pages, from.ept.forked(eptp), next_vpid),
            mem: MemView { base: parent.parent_memory(), overlay: Some(Map::empty()) },
        };
        &&& pages.taken_from(frames)
        &&& pages.unarmed()
        &&& pages.msr_bitmap.bytes == from.host.pages.msr_bitmap.bytes
        &&& pages.guest_xsave_page.bytes == from.host.pages.guest_xsave_page.bytes
        &&& (self.vm(), left) == bare.copy_io_page(frames.take(frames.len() - 5))
        &&& self.children() == 0
    }

    /// Fork `parent`, counting the child. `eptp` is the root of the child's
    /// page table or the error of cloning it, `vmcs_allocated` whether there is
    /// a VMCS for the child, `steps` what the processor reported and
    /// `next_vpid` a free VPID. The count stays raised if forking fails.
    pub fn new<E>(
        parent: &'p mut P,
        allocator: &mut PagePool,
        eptp: Result<u64, E>,
        vmcs_allocated: bool,
        steps: ForkSteps,
        next_vpid: u16,
    ) -> (r: Result<Self, ForkedVmError<E>>)
        requires
            old(parent).parent_wf(),
        ensures
            final(parent).parent_wf(),
            final(parent).children() == old(parent).children().wrapping_add(1),
            final(parent).fork_state() == old(parent).fork_state(),
            final(parent).parent_memory() == old(parent).parent_memory(),
            match fork_error(eptp, vmcs_allocated, old(allocator).frames@.len(), steps) {
                Some(e) => r == Err::<Self, ForkedVmError<E>>(e) && final(allocator).frames@
                    == frames_after_failed_fork(eptp, vmcs_allocated, old(allocator).frames@),
                None => {
                    &&& r is Ok
                    &&& r->Ok_0.wf()
                    &&& r->Ok_0.parent.children() == old(parent).children().wrapping_add(1)
                    &&& r->Ok_0.parent.fork_state() == old(parent).fork_state()
                    &&& r->Ok_0.parent.parent_memory() == old(parent).parent_memory()
                    &&& r->Ok_0.forked_from(
                        r->Ok_0.parent,
                        old(allocator).frames@,
                        final(allocator).frames@,
                        eptp->Ok_0,
                        next_vpid,
                    )
                },
            },
    {
        parent.add_child();
        let shared: &'p P = parent;
        ForkedVm::new_with_incremented_parent(
            shared,
            allocator,
            eptp,
            vmcs_allocated,
            steps,
            next_vpid,
        )
    }

    /// Fork `parent`, whose children the caller has counted already.
    pub fn new_with_incremented_parent<E>(
        parent: &'p P,
        allocator: &mut PagePool,
        eptp: Result<u64, E>,
        vmcs_allocated: bool,
        steps: ForkSteps,
        next_vpid: u16,
    ) -> (r: Result<Self, ForkedVmError<E>>)
        requires
            parent.parent_wf(),
        ensures
            match fork_error(eptp, vmcs_allocated, old(allocator).frames@.len(), steps) {
                Some(e) => r == Err::<Self, ForkedVmError<E>>(e) && final(allocator).frames@
                    == frames_after_failed_fork(eptp, vmcs_allocated, old(allocator).frames@),
                None => {
                    &&& r is Ok
                    &&& r->Ok_0.wf()
                    &&& r->Ok_0.parent == parent
                    &&& r->Ok_0.forked_from(
                        parent,
                        old(allocator).frames@,
                        final(allocator).frames@,
                        eptp->Ok_0,
                        next_vpid,
                    )
                },
            },
    {
        let root: u64 = match eptp {
            Ok(root) => root,
            Err(e) => {
                return Err(ForkedVmError::EptClone(e));
            },
        };
        let from: &VmState = parent.vm_state();
        let ept: EptPageTable = from.ept.clone_for_fork(root);
        if !vmcs_allocated {
            return Err(ForkedVmError::VmcsAlloc);
        }
        let pages: VmPages = match VmPages::new_for_fork(
            allocator,
            &from.host.pages.msr_bitmap,
            &from.host.pages.guest_xsave_page,
        ) {
            Ok(pages) => pages,
            Err(e) => {
                return Err(ForkedVmError::VmState(state_error_of_pages(e)));
            },
        };
        let state: VmState = match VmState::new_for_fork(ept, from, pages, steps, next_vpid) {
            Ok(state) => state,
            Err(e) => {
                return Err(ForkedVmError::VmState(e));
            },
        };
        let _size: usize = parent.memory_size();
        let mut vm = ForkedVm { state, cow_pages: SortedMap::new(), parent, children_count: 0 };
        assert(vm.overlay() =~= Map::empty());
        vm.pre_cow_io_channel_page(allocator);
        Ok(vm)
    }
}

impl<'p, P: ParentVm> ForkedVm<'p, P> {
    /// Give the VM up, which ends its hold on the parent. Returns its VPID, which
    /// `release_child` has to be told.
    pub fn retire(self) -> (vpid: u16)
        ensures
            vpid == self.state.host.vpid,
    {
        self.state.host.vpid
    }
}

/// Release a child that has been given up: the parent counts one child less, and
/// the child's VPID, if it had one, is free again.
pub fn release_child<P: ForkableVm>(parent: &mut P, vpid: u16) -> (freed: Option<u16>)
    requires
        old(parent).parent_wf(),
    ensures
        final(parent).parent_wf(),
        final(parent).children() == old(parent).children().wrapping_sub(1),
        final(parent).fork_state() == old(parent).fork_state(),
        final(parent).parent_memory() == old(parent).parent_memory(),
        freed == if vpid != 0 { Some(vpid) } else { None },
{
    parent.remove_child();
    if vpid != 0 {
        Some(vpid)
    } else {
        None
    }
}

impl<'p, P: ParentVm> VmContext for ForkedVm<'p, P> {
    open spec fn vm(&self) -> VmView {
        VmView {
            state: self.state@,
            mem: MemView { base: self.parent.parent_memory(), overlay: Some(self.overlay()) },
        }
    }

    open spec fn wf(&self) -> bool {
        &&& self.state.wf()
        &&& self.cow_pages.wf()
        &&& self.parent.parent_wf()
        &&& self.vm().mem.wf()
    }

    open spec fn child_count(&self) -> usize {
        self.children_count
    }

    proof fn lemma_memory(&self) {
    }

    fn state(&self) -> (r: &VmState) {
        &self.state
    }

    fn state_mut(&mut self) -> (r: &mut VmState)
        ensures
            final(self).frames() == old(self).frames(),
    {
        &mut self.state
    }

    fn read_guest_memory(&self, gpa: u64, buf: &mut [u8]) -> (r: Result<(), MemoryError>)
        ensures
            forall|i: int|
                0 <= i < old(buf)@.len() ==> #[trigger] final(buf)@[i] == (if gpa + i
                    < self.vm().mem.base.len() {
                    self.vm().mem.byte(gpa + i)
                } else {
                    old(buf)@[i]
                }),
    {
        let ghost mem = self.vm().mem;
        let ghost before = buf@;
        let n: usize = buf.len();
        let mut done: usize = 0;
        let mut cur: u64 = gpa;
        loop
            invariant
                self.wf(),
                mem == self.vm().mem,
                before == old(buf)@,
                n == buf@.len(),
                n == before.len(),
                done <= n,
                done == n ==> n == 0,
                cur == gpa + done,
                done > 0 ==> cur % 4096 == 0 && cur <= mem.base.len(),
                forall|i: int| 0 <= i < done ==> #[trigger] buf@[i] == mem.byte(gpa + i),
                forall|i: int| done <= i < n ==> #[trigger] buf@[i] == before[i],
            decreases n - done, (if done == n { 0int } else { 1int }),
        {
            let page: u64 = cur - cur % 4096;
            let off: usize = (cur % 4096) as usize;
            let src: &[u8] = match self.own_or_parent_page(page) {
                Some(b) => b,
                None => {
                    assert(cur >= mem.base.len());
                    return Err(MemoryError::OutOfRange);
                },
            };
            let room: usize = PAGE_SIZE - off;
            let k: usize = if n - done <= room { n - done } else { room };
            copy_into(buf, done, src, off, k);
            assert forall|i: int| 0 <= i < done + k implies #[trigger] buf@[i] == mem.byte(
                gpa + i,
            ) by {
                if i >= done {
                    assert(buf@[i] == src@[off + (i - done)]);
                }
            }
            done = done + k;
            if done == n {
                assert(buf@ =~= mem.bytes_at(gpa as int, n as nat));
                return Ok(());
            }
            cur = page + 4096;
        }
    }

    fn write_guest_memory(&mut self, gpa: u64, buf: &[u8]) -> (r: Result<(), MemoryError>)
        ensures
            final(self).parent == old(self).parent,
            final(self).children_count == old(self).children_count,
            final(self).frames() == old(self).frames(),
    {
        let ghost start = self.vm();
        let n: usize = buf.len();
        let mut done: usize = 0;
        let mut cur: u64 = gpa;
        assert(buf@.skip(0) =~= buf@);
        loop
            invariant
                self.wf(),
                self.parent == old(self).parent,
                self.children_count == old(self).children_count,
                n == buf@.len(),
                done <= n,
                done == n ==> n == 0,
                self.frames() == old(self).frames(),
                start == old(self).vm(),
                self.vm().state == start.state,
                start.mem.put(gpa as int, buf@) == self.vm().mem.put(
                    cur as int,
                    buf@.skip(done as int),
                ),
            decreases n - done, (if done == n { 0int } else { 1int }),
        {
            let page: u64 = cur - cur % 4096;
            let off: usize = (cur % 4096) as usize;
            let at: usize = match self.cow_pages.find(page) {
                Some(i) => i,
                None => {
                    return Err(MemoryError::PermissionDenied);
                },
            };
            let ghost mem = self.vm().mem;
            let ghost pages = self.cow_pages;
            assert(mem.owns(page));
            let room: usize = PAGE_SIZE - off;
            let k: usize = if n - done <= room { n - done } else { room };
            let target: &mut Page = self.cow_pages.value_mut(at);
            let ghost before = *target;
            copy_into_page(&mut *target.bytes, off, buf, done, k);
            let ghost after = *target;
            let ghost piece = buf@.subrange(done as int, done + k);
            proof {
                SortedMap::lemma_update(pages, self.cow_pages, at as int, after);
                assert(self.frames() =~= old(self).frames());
                assert(self.overlay() =~= mem.with_page_data(page, off as int, piece).overlay->0);
                assert(self.vm().mem =~= mem.with_page_data(page, off as int, piece));
                let rest = buf@.skip(done as int);
                if n - done <= room {
                    assert(piece =~= rest);
                } else {
                    assert(piece =~= rest.take(room as int));
                    assert(buf@.skip(done + k) =~= rest.skip(room as int));
                }
            }
            done = done + k;
            if done == n {
                return Ok(());
            }
            cur = page + 4096;
        }
    }

    fn handle_cow_fault(&mut self, gpa: u64, allocator: &mut PagePool) -> (r: Option<
        ExitHandlerResult,
    >)
        ensures
            final(self).frames() == frames_with_copy(
                old(self).frames(),
                memory::page_of(gpa as int),
                old(allocator).frames@,
                old(self).vm().copy_page(memory::page_of(gpa as int), old(allocator).frames@).2,
            ),
    {
        let page: u64 = gpa - gpa % 4096;
        match self.copy_page(page, allocator) {
            CopyOutcome::Present => {
                self.state.host.exit_stats.cow.stale_tlb_faults =
                    self.state.host.exit_stats.cow.stale_tlb_faults.wrapping_add(1);
                Some(ExitHandlerResult::Continue)
            },
            CopyOutcome::Copied => Some(ExitHandlerResult::Continue),
            _ => None,
        }
    }

    fn is_forked(&self) -> (r: bool) {
        true
    }

    fn cow_feedback_buffer_for_mapping(&mut self, index: usize, allocator: &mut PagePool)
        ensures
            final(self).frames() == if index < old(self).vm().state.feedback_buffers.len() {
                let info = old(self).vm().state.feedback_buffers[index as int];
                frames_with_copies(
                    old(self).frames(),
                    old(self).vm(),
                    info.gpas@.take(info.num_pages as int),
                    old(allocator).frames@,
                )
            } else {
                old(self).frames()
            },
    {
        if index >= self.state.feedback_buffers.len() {
            return;
        }
        let info: FeedbackBufferInfo = self.state.feedback_buffers[index];
        let ghost gpas = info.gpas@.take(info.num_pages as int);
        let ghost start = self.vm();
        let ghost frames = allocator.frames@;
        let n: usize = info.num_pages;
        let mut i: usize = 0;
        assert(gpas.take(0) =~= Seq::<u64>::empty());
        while i < n
            invariant
                i <= n,
                self.wf(),
                self.children_count == old(self).children_count,
                info.wf(),
                n == info.num_pages,
                gpas == info.gpas@.take(n as int),
                (self.vm(), allocator.frames@) == start.copy_pages(gpas.take(i as int), frames),
                self.frames() == frames_with_copies(
                    old(self).frames(),
                    start,
                    gpas.take(i as int),
                    frames,
                ),
            decreases n - i,
        {
            let _ = self.copy_page(info.gpas[i], allocator);
            assert(gpas.take(i + 1).drop_last() =~= gpas.take(i as int));
            assert(gpas.take(i + 1).last() == info.gpas@[i as int]);
            i = i + 1;
        }
        assert(gpas.take(n as int) =~= gpas);
    }

    fn pre_cow_page(&mut self, gpa: u64, allocator: &mut PagePool)
        ensures
            final(self).parent == old(self).parent,
            final(self).children_count == old(self).children_count,
            final(self).frames() == frames_with_copy(
                old(self).frames(),
                memory::page_of(gpa as int),
                old(allocator).frames@,
                old(self).vm().copy_page(memory::page_of(gpa as int), old(allocator).frames@).2,
            ),
    {
        let _ = self.copy_page(gpa - gpa % 4096, allocator);
    }

    fn pre_cow_io_channel_page(&mut self, allocator: &mut PagePool)
        ensures
            final(self).parent == old(self).parent,
            final(self).children_count == old(self).children_count,
            ({
                let gpa = old(self).vm().state.io_channel.page_gpa;
                final(self).frames() == if gpa == 0 {
                    old(self).frames()
                } else {
                    frames_with_copy(
                        old(self).frames(),
                        memory::page_of(gpa as int),
                        old(allocator).frames@,
                        old(self).vm().copy_page(
                            memory::page_of(gpa as int),
                            old(allocator).frames@,
                        ).2,
                    )
                }
            }),
    {
        let gpa: u64 = self.state.io_channel.page_gpa;
        if gpa == 0 {
            return;
        }
        self.pre_cow_page(gpa, allocator);
    }

    fn finalize_exit_record(&mut self)
        ensures
            final(self).frames() == old(self).frames(),
    {
        if self.state.events.exit_loc.is_none() {
            return;
        }
        let memory_hash: u64 = self.memory_hash();
        let count: usize = self.cow_pages.len();
        proof {
            let keys = self.cow_pages.spec_keys();
            assert(keys.no_duplicates());
            keys.unique_seq_to_set();
            assert(keys.to_set() =~= self.overlay().dom());
        }
        self.state.finalize_exit_memory_hash(memory_hash, count as u32);
    }
}

impl<'p, P: ParentVm> ParentVm for ForkedVm<'p, P> {
    open spec fn parent_memory(&self) -> Seq<u8> {
        self.vm().mem.flat()
    }

    open spec fn parent_wf(&self) -> bool {
        self.wf()
    }

    fn read_page(&self, gpa: u64) -> (r: Option<&[u8]>) {
        let page: u64 = gpa - gpa % 4096;
        match self.own_or_parent_page(page) {
            Some(b) => {
                assert(b@ =~= self.parent_memory().subrange(page as int, page + PAGE_SIZE));
                Some(b)
            },
            None => None,
        }
    }

    fn memory_size(&self) -> (r: usize) {
        self.parent.memory_size()
    }
}

impl<'p, P: ParentVm> ForkableVm for ForkedVm<'p, P> {
    open spec fn fork_state(&self) -> VmStateView {
        self.state@
    }

    open spec fn children(&self) -> usize {
        self.children_count
    }

    fn vm_state(&self) -> (r: &VmState) {
        &self.state
    }

    fn add_child(&mut self) {
        self.children_count = self.children_count.wrapping_add(1);
    }

    fn remove_child(&mut self) {
        self.children_count = self.children_count.wrapping_sub(1);
    }

    fn children_count(&self) -> (r: usize) {
        self.children_count
    }
}

} // verus!
