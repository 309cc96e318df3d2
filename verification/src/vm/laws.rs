//! What forking and copying keep.

use vstd::prelude::*;

use crate::ept::{EptLeaf, EptPermissions, EptView};
use crate::events::laws as events_laws;
use crate::events::stamps;
use crate::events::stream::EventStreamView;
use crate::exits::alike;
use crate::exits::replay;
use crate::memory;
use crate::memory::MemView;
use crate::page::PAGE_SIZE;
use crate::traits::vm_context::{ForkableVm, VmContext, VmView};
use crate::vm::forked::ForkedVm;
use crate::vm_pages::VmPages;
use crate::vm_state::VmStateView;
use crate::vmcs::Vmcs;

verus! {

/// `after` shows the guest the same memory as `before`, and the parent's memory
/// is untouched.
pub open spec fn same_memory(before: MemView, after: MemView) -> bool {
    &&& after.wf()
    &&& after.base == before.base
    &&& after.flat() == before.flat()
    &&& after.overlay is Some <==> before.overlay is Some
}

proof fn lemma_page_of_aligned(gpa: u64)
    ensures
        memory::page_of(gpa as int) % (PAGE_SIZE as u64) == 0,
{
    let a = gpa as int;
    assert(memory::page_of(a) == a - a % 4096);
    assert((a - a % 4096) % 4096 == 0);
}

/// Trying to copy a page never changes what the guest sees, whatever becomes of
/// the attempt; only a copied page is remapped, to the frame that holds it, and at
/// most one host page is taken.
pub proof fn copying_is_invisible(vm: VmView, page: u64, frames: Seq<(u64, u64)>)
    requires
        vm.mem.wf(),
        vm.mem.overlay is Some,
        page % (PAGE_SIZE as u64) == 0,
    ensures
        ({
            let (after, left, outcome) = vm.copy_page(page, frames);
            &&& same_memory(vm.mem, after.mem)
            &&& after.state == (VmStateView {
                ept: after.state.ept,
                host: after.state.host,
                ..vm.state
            })
            &&& left == frames || left == frames.drop_last()
            &&& outcome is Copied ==> {
                &&& after.mem.owns(page)
                &&& after.state.ept.leaves[page] == (EptLeaf {
                    hpa: frames.last().0,
                    permissions: EptPermissions::ReadWriteExecute,
                })
                &&& after.state.host.invept_due
            }
        }),
{
    if !vm.mem.owns(page) && frames.len() > 0 && page + PAGE_SIZE <= vm.mem.base.len() {
        memory::copying_a_page_keeps_contents(vm.mem, page);
    }
}

/// Copying several pages is as invisible as copying one.
pub proof fn copying_pages_is_invisible(vm: VmView, pages: Seq<u64>, frames: Seq<(u64, u64)>)
    requires
        vm.mem.wf(),
        vm.mem.overlay is Some,
        forall|i: int| 0 <= i < pages.len() ==> #[trigger] pages[i] % (PAGE_SIZE as u64) == 0,
    ensures
        same_memory(vm.mem, vm.copy_pages(pages, frames).0.mem),
    decreases pages.len(),
{
    if pages.len() > 0 {
        copying_pages_is_invisible(vm, pages.drop_last(), frames);
        let (mid, rest) = vm.copy_pages(pages.drop_last(), frames);
        copying_is_invisible(mid, pages.last(), rest);
    }
}

/// A write fault changes nothing the guest can see but lets the write go
/// through: after a copy the page is the VM's own, and a second fault on it is
/// recognized as stale.
pub proof fn write_fault_is_invisible(vm: VmView, gpa: u64, frames: Seq<(u64, u64)>)
    requires
        vm.mem.wf(),
        vm.mem.overlay is Some,
    ensures
        ({
            let (after, left, outcome) = vm.cow_fault(gpa, frames);
            &&& same_memory(vm.mem, after.mem)
            &&& after.state.core.gprs == vm.state.core.gprs
            &&& after.state.vmcs == vm.state.vmcs
            &&& outcome is Some ==> after.mem.owns(memory::page_of(gpa as int)) && after.cow_fault(
                gpa,
                left,
            ).0 == after.with_stale_fault()
        }),
{
    let page = memory::page_of(gpa as int);
    lemma_page_of_aligned(gpa);
    copying_is_invisible(vm, page, frames);
    let (copied, _, outcome) = vm.copy_page(page, frames);
    if outcome is Present {
        assert(same_memory(vm.mem, vm.mem));
    }
}

/// A forked VM starts from its parent's memory, though its I/O channel page may
/// have been copied already.
pub proof fn fork_sees_parent_memory(
    state: VmStateView,
    parent_memory: Seq<u8>,
    frames: Seq<(u64, u64)>,
)
    requires
        parent_memory.len() <= usize::MAX,
        parent_memory.len() % (PAGE_SIZE as nat) == 0,
    ensures
        ({
            let bare = VmView {
                state,
                mem: MemView { base: parent_memory, overlay: Some(Map::empty()) },
            };
            bare.copy_io_page(frames).0.mem.flat() == parent_memory
        }),
{
    let bare = VmView {
        state,
        mem: MemView { base: parent_memory, overlay: Some(Map::empty()) },
    };
    assert(bare.mem.flat() =~= parent_memory);
    if state.io_channel.page_gpa != 0 {
        let page = memory::page_of(state.io_channel.page_gpa as int);
        lemma_page_of_aligned(state.io_channel.page_gpa);
        copying_is_invisible(bare, page, frames);
    }
}

/// What a forked VM writes never reaches its parent.
pub proof fn parent_memory_is_never_written(mem: MemView, gpa: u64, data: Seq<u8>)
    requires
        mem.wf(),
        mem.overlay is Some,
    ensures
        mem.put(gpa as int, data).0.base == mem.base,
{
    memory::write_changes_written_bytes(mem, gpa as int, data);
}

proof fn lemma_forked_events()
    ensures
        stamps::same_events(EventStreamView::detached(), EventStreamView::detached()),
{
    reveal(stamps::same_events);
    assert(events_laws::framed(EventStreamView::detached().bytes));
}

proof fn lemma_forked_vmcs(
    parent: VmStateView,
    pages_a: VmPages,
    pages_b: VmPages,
    eptp_a: u64,
    eptp_b: u64,
    vpid_a: u16,
    vpid_b: u16,
)
    ensures
        alike::same_vmcs(
            (Vmcs {
                loaded: false,
                ..parent.core.forked_vmcs(parent.vmcs, pages_a, eptp_a, vpid_a)
            }),
            (Vmcs {
                loaded: false,
                ..parent.core.forked_vmcs(parent.vmcs, pages_b, eptp_b, vpid_b)
            }),
        ),
{
    reveal(alike::same_vmcs);
}

proof fn lemma_forked_ept(parent: EptView, eptp_a: u64, eptp_b: u64)
    ensures
        alike::same_ept(parent.forked(eptp_a), parent.forked(eptp_b)),
{
    reveal(alike::same_ept);
}

/// Siblings start alike: two children of one parent differ only in what they
/// have of the host, whatever pages, page table and VPID either was given.
pub proof fn siblings_are_alike<'p, P: ForkableVm>(
    a: ForkedVm<'p, P>,
    b: ForkedVm<'p, P>,
    parent: P,
    frames_a: Seq<(u64, u64)>,
    frames_b: Seq<(u64, u64)>,
    left_a: Seq<(u64, u64)>,
    left_b: Seq<(u64, u64)>,
    eptp_a: u64,
    eptp_b: u64,
    vpid_a: u16,
    vpid_b: u16,
)
    requires
        a.forked_from(&parent, frames_a, left_a, eptp_a, vpid_a),
        b.forked_from(&parent, frames_b, left_b, eptp_b, vpid_b),
        5 <= frames_a.len() == frames_b.len(),
    ensures
        replay::vm_alike(a.vm(), b.vm()),
        left_a.len() == left_b.len(),
{
    let from = parent.fork_state();
    let pages_a = a.state.host.pages;
    let pages_b = b.state.host.pages;
    let mem = MemView { base: parent.parent_memory(), overlay: Some(Map::empty()) };
    let bare_a = VmView { state: from.forked(pages_a, from.ept.forked(eptp_a), vpid_a), mem };
    let bare_b = VmView { state: from.forked(pages_b, from.ept.forked(eptp_b), vpid_b), mem };
    lemma_forked_events();
    lemma_forked_vmcs(from, pages_a, pages_b, eptp_a, eptp_b, vpid_a, vpid_b);
    lemma_forked_ept(from.ept, eptp_a, eptp_b);
    assert(replay::vm_alike(bare_a, bare_b));
    replay::copy_page_alike(
        bare_a,
        bare_b,
        memory::page_of(from.io_channel.page_gpa as int),
        frames_a.take(frames_a.len() - 5),
        frames_b.take(frames_b.len() - 5),
    );
}

} // verus!
