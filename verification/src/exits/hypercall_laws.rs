//! What hypercalls do for the guest, in terms of its registers and memory.

use vstd::prelude::*;

use crate::bytes;
use crate::devices::random;
use crate::devices::random::{RandomState, RdrandMode};
use crate::ept::EptPermissions;
use crate::events::stream::EventStreamView;
use crate::events::types::{EventKind, IoChannelPayload, RandomPayload};
use crate::exits::chunks;
use crate::exits::ept;
use crate::exits::helpers::ExitHandlerResult;
use crate::exits::laws;
use crate::exits::linear;
use crate::exits::pebs;
use crate::exits::reasons::ExitReason;
use crate::exits::vmcall;
use crate::fields::{VmcsField32, VmcsField64, VmcsFieldNatural};
use crate::io_channel::IoChannelView;
use crate::memory;
use crate::memory::MemView;
use crate::registers::GeneralPurposeRegisters;
use crate::traits::device_state::DeviceStates;
use crate::traits::vm_context::VmView;
use crate::vm::laws as vm_laws;
use crate::vm_state::{VmCore, VmStateView};

verus! {

/// The instruction of the exit can be completed.
pub open spec fn can_complete(state: VmStateView) -> bool {
    laws::rip(state) is Some && state.vmcs.get32(VmcsField32::VmExitInstructionLen) is Ok
}

/// A hypercall is answered in RAX and completed: no other register changes, and
/// the instruction pointer moves past it.
pub proof fn answer_stands_in_rax(state: VmStateView, answer: u64, done: ExitHandlerResult)
    requires
        can_complete(state),
        done is Continue || done is ExitToUserspace,
    ensures
        ({
            let (after, r) = state.reply(answer, done);
            &&& r == done
            &&& after.core == (VmCore {
                gprs: GeneralPurposeRegisters { rax: answer, ..state.core.gprs },
                ..state.core
            })
            &&& after == (VmStateView { core: after.core, vmcs: after.vmcs, ..state })
            &&& laws::rip(after) is Some
            &&& laws::rip(after)->0 == (laws::rip(state)->0 + state.vmcs.get32(
                VmcsField32::VmExitInstructionLen,
            )->Ok_0) % 0x1_0000_0000_0000_0000
        }),
{
    reveal(VmStateView::reply);
    laws::completion_moves_past_the_instruction(state.with_rax(answer), done);
}

/// Shutdown and snapshot reach userspace under their names, the former with no serial
/// line in progress; neither moves time or touches a device.
pub proof fn ends_reach_userspace(state: VmStateView)
    requires
        can_complete(state),
    ensures
        ({
            let (down, r) = state.hypercall_shutdown();
            let (snap, q) = state.hypercall_snapshot();
            &&& r == ExitHandlerResult::ExitToUserspace(ExitReason::VmcallShutdown)
            &&& q == ExitHandlerResult::ExitToUserspace(ExitReason::VmcallSnapshot)
            &&& down.events.line.len() == 0
            &&& down.core.emulated_tsc == state.core.emulated_tsc
            &&& snap.core.emulated_tsc == state.core.emulated_tsc
            &&& down.core.devices == state.core.devices
            &&& snap.core.devices == state.core.devices
        }),
{
    reveal(VmStateView::hypercall_shutdown);
    reveal(VmStateView::hypercall_snapshot);
    reveal(VmStateView::complete);
    reveal(VmStateView::capture_exit_at_shutdown);
    reveal(VmStateView::capture_exit_at_snapshot);
    reveal(VmStateView::write_exit_record);
    reveal(EventStreamView::flush_line);
    reveal(EventStreamView::append);
}

/// The calls that only tell userspace something, by their numbers: shutdown,
/// snapshot, ready, and the two file transfers, which are answered with zero.
pub proof fn announcing_calls_reach_userspace(vm: VmView, frames: Seq<(u64, u64)>)
    requires
        can_complete(vm.state),
    ensures
        ({
            let nr = vm.state.core.gprs.rax;
            let (after, left, r) = vm.vmcall(frames);
            let to = |reason: ExitReason| r == ExitHandlerResult::ExitToUserspace(reason);
            &&& nr == 0 ==> to(ExitReason::VmcallShutdown) && after.state.events.line.len() == 0
            &&& nr == 1 ==> to(ExitReason::VmcallSnapshot)
            &&& nr == 7 ==> to(ExitReason::VmcallReady) && after.state.core == vm.state.core
            &&& nr == 10 ==> to(ExitReason::VmcallFileFetch) && after.state.core.gprs.rax == 0
            &&& nr == 12 ==> to(ExitReason::VmcallFileStore) && after.state.core.gprs.rax == 0
            &&& nr > 12 ==> to(ExitReason::Vmcall) && after == vm
            &&& nr <= 1 || nr == 7 || nr == 10 || nr >= 12 ==> after.mem == vm.mem && left == frames
                && after.state.core.emulated_tsc == vm.state.core.emulated_tsc
                && after.state.core.devices == vm.state.core.devices
        }),
{
    reveal(VmView::vmcall);
    ends_reach_userspace(vm.state);
    laws::completion_moves_past_the_instruction(
        vm.state,
        ExitHandlerResult::ExitToUserspace(ExitReason::VmcallReady),
    );
    answer_stands_in_rax(
        vm.state,
        0,
        ExitHandlerResult::ExitToUserspace(ExitReason::VmcallFileFetch),
    );
    answer_stands_in_rax(
        vm.state,
        0,
        ExitHandlerResult::ExitToUserspace(ExitReason::VmcallFileStore),
    );
}

/// The other calls, by their numbers.
pub proof fn call_numbers_select_the_call(vm: VmView, frames: Seq<(u64, u64)>)
    ensures
        ({
            let nr = vm.state.core.gprs.rax;
            let (after, left, r) = vm.vmcall(frames);
            let is = |o: (VmView, ExitHandlerResult)| after == o.0 && r == o.1 && left == frames;
            &&& nr == 2 ==> is(vm.hypercall_feedback_buffer())
            &&& nr == 3 ==> is(vm.hypercall_pebs_page())
            &&& nr == 4 ==> (after, left, r) == vm.hypercall_io_page(frames)
            &&& nr == 5 ==> is(vm.hypercall_io_request())
            &&& nr == 6 ==> is(vm.hypercall_io_response())
            &&& nr == 8 ==> is(vm.hypercall_console_page())
            &&& nr == 9 ==> is(vm.hypercall_console_write())
            &&& nr == 11 ==> (after, left, r) == vm.hypercall_random(frames)
        }),
{
    reveal(VmView::vmcall);
}

/// Bytes read at a linear address are those of the pages that the guest's tables
/// name for them.
pub proof fn linear_bytes_are_the_mapped_ones(vm: VmView, gva: u64, n: nat, i: int)
    requires
        0 <= i < n,
        gva + n <= u64::MAX,
        vm.read_linear(gva, n) is Some,
    ensures
        ({
            let at = vm.translate((gva + i) as u64);
            at is Some && vm.read_linear(gva, n)->0[i] == vm.mem.byte(at->0 as int)
        }),
    decreases n,
{
    let k = linear::within_page(gva, n);
    linear::lemma_read_linear_len(vm, gva.wrapping_add(k as u64), (n - k) as nat);
    if i < k {
        let cr3 = vm.state.vmcs.get_natural(VmcsFieldNatural::GuestCr3)->Ok_0;
        ept::walk_keeps_page_offset(vm.mem, cr3, gva);
        ept::walk_keeps_page_offset(vm.mem, cr3, (gva + i) as u64);
        assert((gva + i) / 4096 == gva as int / 4096);
        assert((gva + i) - (gva + i) % 4096 == gva - gva % 4096);
    } else {
        linear_bytes_are_the_mapped_ones(vm, (gva + k) as u64, (n - k) as nat, i - k);
    }
}

/// A range of which every byte is mapped to memory can be read.
pub proof fn mapped_range_can_be_read(vm: VmView, gva: u64, n: nat)
    requires
        vm.mem.wf(),
        gva + n <= u64::MAX,
        forall|i: int|
            0 <= i < n ==> (#[trigger] vm.translate((gva + i) as u64)) is Some && vm.translate(
                (gva + i) as u64,
            )->0 < vm.mem.base.len(),
        vm.mem.base.len() % 4096 == 0,
    ensures
        vm.read_linear(gva, n) is Some,
    decreases n,
{
    if n > 0 {
        let k = linear::within_page(gva, n);
        let last = (gva + k - 1) as u64;
        assert(vm.translate((gva + 0) as u64) is Some);
        assert(vm.translate((gva + (k - 1)) as u64) is Some);
        let cr3 = vm.state.vmcs.get_natural(VmcsFieldNatural::GuestCr3)->Ok_0;
        ept::walk_keeps_page_offset(vm.mem, cr3, gva);
        ept::walk_keeps_page_offset(vm.mem, cr3, last);
        assert(last as int / 4096 == gva as int / 4096);
        assert forall|i: int| 0 <= i < n - k implies (#[trigger] vm.translate(
            (((gva + k) as u64) + i) as u64,
        )) is Some && vm.translate((((gva + k) as u64) + i) as u64)->0 < vm.mem.base.len() by {
            assert((((gva + k) as u64) + i) as u64 == (gva + (k + i)) as u64);
        }
        mapped_range_can_be_read(vm, (gva + k) as u64, (n - k) as nat);
    }
}

/// A copy to a root VM's page goes through wherever it stays within memory.
pub proof fn copy_within_memory_succeeds(mem: MemView, gpa: int, data: Seq<u8>)
    requires
        mem.overlay is None,
        0 <= gpa,
        data.len() > 0,
    ensures
        mem.put_chunks(gpa, data).1 <==> gpa + data.len() <= mem.base.len(),
    decreases data.len(),
{
    reveal_with_fuel(MemView::put_chunks, 2);
    let k = bytes::min_nat(256, data.len()) as int;
    if gpa + k <= mem.base.len() && data.len() > k {
        let mid = mem.put(gpa, data.take(k)).0;
        copy_within_memory_succeeds(mid, gpa + k, data.skip(k));
    }
}

/// A feedback buffer is refused, with nothing registered, for a size that is zero or
/// above 1 MB, an identifier that is empty or above 128 bytes, or memory that is not
/// mapped, in this order; each has its own answer, from -1 down.
pub proof fn bad_buffers_are_refused(vm: VmView)
    requires
        can_complete(vm.state),
    ensures
        ({
            let g = vm.state.core.gprs;
            let (after, r) = vm.hypercall_feedback_buffer();
            let bad_size = g.rcx == 0 || g.rcx > 0x10_0000;
            let bad_id = g.rsi == 0 || g.rsi > 128;
            let id = vm.read_linear(g.rdx, g.rsi as nat);
            let mapped = ept::pages_spanned(g.rbx, g.rcx) <= 256 && forall|i: int|
                0 <= i < ept::pages_spanned(g.rbx, g.rcx) ==> #[trigger] vm.translate_page(
                    g.rbx,
                    i,
                ) is Some;
            let refused = |code: int|
                after.state.core.gprs.rax == 0x1_0000_0000_0000_0000 - code && r
                    == ExitHandlerResult::Continue && after.state.feedback_buffers
                    == vm.state.feedback_buffers && after.mem == vm.mem;
            &&& bad_size ==> refused(1)
            &&& !bad_size && bad_id ==> refused(2)
            &&& !bad_size && !bad_id && id is None ==> refused(3)
            &&& !bad_size && !bad_id && id is Some && !mapped ==> refused(4)
            &&& !bad_size && !bad_id && id is Some && mapped ==> {
                let slot = vm.state.feedback_buffers.len();
                let info = after.state.feedback_buffers[slot as int];
                &&& r == ExitHandlerResult::ExitToUserspace(ExitReason::VmcallFeedbackBuffer)
                &&& after.state.core.gprs.rax == slot as u64
                &&& after.state.feedback_buffers == vm.state.feedback_buffers.push(info)
                &&& info.gva == g.rbx && info.size == g.rcx && info.id_len == g.rsi
                &&& info.num_pages == ept::pages_spanned(g.rbx, g.rcx)
                &&& forall|i: int|
                    0 <= i < info.num_pages ==> vm.translate_page(g.rbx, i) == Some(
                        #[trigger] info.gpas@[i],
                    )
                &&& forall|i: int| 0 <= i < g.rsi ==> #[trigger] info.id@[i] == id->0[i]
                &&& after.mem == vm.mem
            }
        }),
{
    reveal(VmView::hypercall_feedback_buffer);
    reveal(VmStateView::reply);
    reveal(VmStateView::complete);
    let g = vm.state.core.gprs;
    linear::lemma_read_linear_len(vm, g.rdx, g.rsi as nat);
    if let Some(id) = vm.read_linear(g.rdx, g.rsi as nat) {
        vmcall::registered_buffer_is_exact(vm, g.rbx, g.rcx, id);
    }
}

/// The I/O channel page is the one at the address in RBX, if that is a page's start
/// and mapped; a waiting request is announced anew, an old response dropped, and
/// what waits behind stays. Otherwise nothing is registered and the answer is -1.
pub proof fn io_page_is_registered(vm: VmView, frames: Seq<(u64, u64)>)
    requires
        can_complete(vm.state),
    ensures
        ({
            let va = vm.state.core.gprs.rbx;
            let chan = vm.state.io_channel;
            let (after, left, r) = vm.hypercall_io_page(frames);
            let at = vm.translate(va);
            &&& r == ExitHandlerResult::ExitToUserspace(ExitReason::VmcallIoRegisterPage)
            &&& va % 4096 == 0 && at is Some ==> {
                &&& after.state.core.gprs.rax == 0
                &&& after.state.io_channel == (IoChannelView {
                    page_gpa: at->0,
                    request_delivered: false,
                    response: Seq::empty(),
                    ..chan
                })
            }
            &&& va % 4096 != 0 || at is None ==> {
                &&& after.state.core.gprs.rax == 0xFFFF_FFFF_FFFF_FFFF
                &&& after.state.io_channel == chan
                &&& after.mem == vm.mem && left == frames
            }
        }),
{
    reveal(VmView::hypercall_io_page);
    reveal(VmStateView::reply);
    reveal(VmStateView::complete);
    let va = vm.state.core.gprs.rbx;
    assert(va & 0xFFF == va % 4096) by (bit_vector);
}

/// Fetching a request: without a page the answer is -1, without a request zero; else
/// the request stands on the page, its length is the answer, and the slot is free
/// for the next. The guest goes on in any case.
pub proof fn request_is_fetched_once(vm: VmView)
    requires
        can_complete(vm.state),
        vm.mem.wf(),
        vm.mem.overlay is None,
        vm.state.io_channel.request.len() <= 4096,
    ensures
        ({
            let chan = vm.state.io_channel;
            let (after, r) = vm.hypercall_io_request();
            let fits = chan.page_gpa + chan.request.len() <= vm.mem.base.len();
            &&& r == ExitHandlerResult::Continue
            &&& chan.page_gpa == 0 ==> after.state.core.gprs.rax == 0xFFFF_FFFF_FFFF_FFFF
                && after.state.io_channel == chan && after.mem == vm.mem
            &&& chan.page_gpa != 0 && chan.request.len() == 0 ==> after.state.core.gprs.rax == 0
                && after.state.io_channel == chan && after.mem == vm.mem
            &&& chan.page_gpa != 0 && chan.request.len() > 0 && !fits ==> after.state.core.gprs.rax
                == 0xFFFF_FFFF_FFFF_FFFF && after.state.io_channel == chan
            &&& chan.page_gpa != 0 && chan.request.len() > 0 && fits ==> {
                &&& after.state.core.gprs.rax == chan.request.len()
                &&& after.mem.bytes_at(chan.page_gpa as int, chan.request.len()) == chan.request
                &&& forall|a: int|
                    0 <= a < vm.mem.base.len() && !(chan.page_gpa <= a < chan.page_gpa
                        + chan.request.len()) ==> #[trigger] after.mem.byte(a) == vm.mem.byte(a)
                &&& chan.pending.len() == 0 ==> after.state.io_channel.request.len() == 0
                &&& chan.pending.len() > 0 ==> {
                    let next = chan.pending[0];
                    let n = if next.data.len() <= 4096 { next.data.len() as int } else { 4096 };
                    &&& after.state.io_channel.request == next.data.take(n)
                    &&& after.state.io_channel.request_target_tsc == next.target_tsc
                    &&& after.state.io_channel.pending == chan.pending.skip(1)
                }
                &&& !after.state.io_channel.request_delivered
                &&& after.state.io_channel.page_gpa == chan.page_gpa
            }
        }),
{
    reveal(VmView::hypercall_io_request);
    reveal(VmStateView::reply);
    reveal(VmStateView::complete);
    let chan = vm.state.io_channel;
    if chan.page_gpa != 0 && chan.request.len() > 0 {
        copy_within_memory_succeeds(vm.mem, chan.page_gpa as int, chan.request);
        if chan.page_gpa + chan.request.len() <= vm.mem.base.len() {
            chunks::chunks_then_read(vm.mem, chan.page_gpa as int, chan.request);
            if chan.pending.len() > 0 {
                assert(chan.pending.remove(0) =~= chan.pending.skip(1));
            }
        }
    }
}

/// A response of RBX bytes, at most a page, is taken from the channel page and
/// handed to userspace; the guest's memory stays as it is.
pub proof fn response_is_taken_from_the_page(vm: VmView)
    requires
        can_complete(vm.state),
        vm.mem.wf(),
    ensures
        ({
            let chan = vm.state.io_channel;
            let rbx = vm.state.core.gprs.rbx;
            let n: nat = if rbx <= 4096 { rbx as nat } else { 4096 };
            let (after, r) = vm.hypercall_io_response();
            let readable = n == 0 || chan.page_gpa + n <= vm.mem.base.len();
            &&& r == ExitHandlerResult::ExitToUserspace(ExitReason::VmcallIoResponse)
            &&& after.mem == vm.mem
            &&& chan.page_gpa == 0 || !readable ==> after.state.core.gprs.rax
                == 0xFFFF_FFFF_FFFF_FFFF && after.state.io_channel.response.len()
                == chan.response.len()
            &&& chan.page_gpa != 0 && readable ==> {
                &&& after.state.core.gprs.rax == 0
                &&& after.state.io_channel.response == vm.mem.bytes_at(chan.page_gpa as int, n)
            }
            &&& after.state.io_channel == (IoChannelView {
                response: after.state.io_channel.response,
                ..chan
            })
        }),
{
    reveal(VmView::hypercall_io_response);
    reveal(VmStateView::hypercall_response_captured);
    reveal(VmStateView::reply);
    reveal(VmStateView::complete);
    let chan = vm.state.io_channel;
    let rbx = vm.state.core.gprs.rbx;
    let n: nat = if rbx <= 4096 { rbx as nat } else { 4096 };
    chunks::chunks_make_the_whole(vm.mem, chan.page_gpa as int, n);
}

/// The console page is the one at the address in RBX, under the same conditions as
/// the channel page.
pub proof fn console_page_is_registered(vm: VmView)
    requires
        can_complete(vm.state),
    ensures
        ({
            let va = vm.state.core.gprs.rbx;
            let (after, r) = vm.hypercall_console_page();
            let at = vm.translate(va);
            let page = after.state.core.serial_console.page_gpa;
            &&& r == ExitHandlerResult::Continue
            &&& va % 4096 == 0 && at is Some ==> after.state.core.gprs.rax == 0 && page == at->0
            &&& va % 4096 != 0 || at is None ==> after.state.core.gprs.rax == 0xFFFF_FFFF_FFFF_FFFF
                && page == vm.state.core.serial_console.page_gpa
            &&& after.mem == vm.mem
        }),
{
    reveal(VmView::hypercall_console_page);
    reveal(VmStateView::reply);
    reveal(VmStateView::complete);
    let va = vm.state.core.gprs.rbx;
    assert(va & 0xFFF == va % 4096) by (bit_vector);
}

/// A console write of RBX bytes, at most a page, emits those bytes of the console
/// page as one serial event, behind the line in progress.
pub proof fn console_bytes_are_emitted(vm: VmView)
    requires
        can_complete(vm.state),
        vm.mem.wf(),
        vm.state.core.serial_console.page_gpa != 0,
    ensures
        ({
            let rbx = vm.state.core.gprs.rbx;
            let n: nat = if rbx <= 4096 { rbx as nat } else { 4096 };
            let gpa = vm.state.core.serial_console.page_gpa;
            let (after, r) = vm.hypercall_console_write();
            let readable = n == 0 || gpa + n <= vm.mem.base.len();
            &&& r == ExitHandlerResult::Continue
            &&& after.mem == vm.mem
            &&& !readable ==> after.state.core.gprs.rax == 0xFFFF_FFFF_FFFF_FFFF
                && after.state.events == vm.state.events
            &&& readable ==> {
                &&& after.state.core.gprs.rax == 0
                &&& after.state.events == vm.state.events.flush_line().0.append(
                    EventKind::Serial,
                    1,
                    vm.state.core.emulated_tsc,
                    vm.state.host.tsc,
                    vm.mem.bytes_at(gpa as int, n),
                ).0
            }
        }),
{
    reveal(VmView::hypercall_console_write);
    reveal(VmStateView::hypercall_console_staged);
    reveal(VmStateView::reply);
    reveal(VmStateView::complete);
    let c = vm.state.core;
    let rbx = c.gprs.rbx;
    let n: nat = if rbx <= 4096 { rbx as nat } else { 4096 };
    let gpa = c.serial_console.page_gpa as int;
    let copied = vm.mem.readable_chunks(gpa, n);
    chunks::chunks_make_the_whole(vm.mem, gpa, n);
    let data = vm.mem.bytes_at(gpa, copied);
    vmcall::staged_console_bytes_are_exact(vm.state, data);
    if copied == n {
        assert(vm.state.with_console_bytes(data).core.serial_console.pending_buf@.take(n as int)
            =~= data);
    }
}

/// The device after `n` draws.
pub open spec fn drawn(d: RandomState, n: nat) -> RandomState
    decreases n,
{
    if n == 0 {
        d
    } else {
        drawn(d, (n - 1) as nat).draw().0
    }
}

proof fn lemma_drawn_seed(d: RandomState, n: nat)
    requires
        d.mode == RdrandMode::SeededRng,
    ensures
        drawn(d, n) == (RandomState { seed: random::xorshift64_nth(d.seed, n), ..d }),
    decreases n,
{
    if n > 0 {
        lemma_drawn_seed(d, (n - 1) as nat);
    }
}

/// Random bytes are those of the values that as many RDRANDs would have drawn, eight
/// to a value, and leave the generator where those would have.
pub proof fn random_bytes_are_draws(d: RandomState, n: nat, i: int)
    requires
        d.mode == RdrandMode::SeededRng,
        0 <= i < n,
    ensures
        random::seeded_bytes(d.seed, n).len() == n,
        random::seeded_bytes(d.seed, n)[i] == bytes::le64(
            drawn(d, (i / 8) as nat).draw().1->0,
        )[i % 8],
        random::xorshift64_nth(d.seed, (n + 7) / 8) == drawn(d, (n + 7) / 8).seed,
{
    lemma_drawn_seed(d, (i / 8) as nat);
    lemma_drawn_seed(d, (n + 7) / 8);
}

/// What a root VM is left with after bytes have been served to it.
proof fn lemma_served(vm: VmView, data: Seq<u8>, frames: Seq<(u64, u64)>)
    requires
        vm.mem.overlay is None,
    ensures
        ({
            let (after, left, r) = vm.serve_random_bytes(data, frames);
            let (written, rest, ok) = vm.write_linear(vm.state.core.gprs.rbx, data, frames);
            &&& after.mem == written.mem && left == rest
            &&& after.state.core.devices == vm.state.core.devices
            &&& can_complete(vm.state) ==> r == ExitHandlerResult::Continue
                && after.state.core.gprs.rax == if ok {
                data.len() as u64
            } else {
                0xFFFF_FFFF_FFFF_FFFF
            }
        }),
{
    reveal(VmView::serve_random_bytes);
    reveal(VmStateView::reply);
    reveal(VmStateView::complete);
    lemma_write_linear_keeps_state(vm, vm.state.core.gprs.rbx, data, frames);
}

/// GET_RANDOM of RCX bytes, at most 256, in seeded mode: for a buffer within a page
/// of a root VM the bytes stand at its address afterwards, their number is the
/// answer, and the generator has moved on.
pub proof fn random_bytes_reach_the_buffer(vm: VmView, frames: Seq<(u64, u64)>)
    requires
        can_complete(vm.state),
        vm.mem.wf(),
        vm.mem.overlay is None,
        vm.state.core.devices.random.mode == RdrandMode::SeededRng,
        vm.state.core.gprs.rcx > 0,
    ensures
        ({
            let g = vm.state.core.gprs;
            let d = vm.state.core.devices.random;
            let n: nat = if g.rcx <= 256 { g.rcx as nat } else { 256 };
            let at = vm.translate(g.rbx);
            let (after, left, r) = vm.hypercall_random(frames);
            &&& at is None ==> after.state.core.gprs.rax == 0xFFFF_FFFF_FFFF_FFFF && r
                == ExitHandlerResult::Continue && after.mem == vm.mem
            &&& at is Some && g.rbx % 4096 + n <= 4096 && at->0 + n <= vm.mem.base.len() ==> {
                &&& r == ExitHandlerResult::Continue
                &&& after.state.core.gprs.rax == n
                &&& forall|i: int|
                    0 <= i < n ==> #[trigger] after.mem.byte(at->0 + i) == bytes::le64(
                        drawn(d, (i / 8) as nat).draw().1->0,
                    )[i % 8]
                &&& forall|a: int|
                    0 <= a < vm.mem.base.len() && !(at->0 <= a < at->0 + n)
                        ==> #[trigger] after.mem.byte(a) == vm.mem.byte(a)
            }
            &&& after.state.core.devices == (DeviceStates {
                random: RandomState { seed: drawn(d, (n + 7) / 8).seed, ..d },
                ..vm.state.core.devices
            })
        }),
{
    reveal(VmView::hypercall_random);
    let g = vm.state.core.gprs;
    let d = vm.state.core.devices.random;
    let n: nat = if g.rcx <= 256 { g.rcx as nat } else { 256 };
    let data = random::seeded_bytes(d.seed, n);
    let seeded = vm.with_state(
        vm.state.with_random(
            RandomState { seed: random::xorshift64_nth(d.seed, (n + 7) / 8), ..d },
        ),
    );
    random_bytes_are_draws(d, n, 0);
    assert(seeded.translate(g.rbx) == vm.translate(g.rbx));
    lemma_served(seeded, data, frames);
    if let Some(gpa) = vm.translate(g.rbx) {
        if g.rbx % 4096 + n <= 4096 && gpa + n <= vm.mem.base.len() {
            assert(linear::within_page(g.rbx, n) == n);
            assert(data.take(n as int) =~= data);
            assert(data.skip(n as int) =~= Seq::<u8>::empty());
            memory::write_changes_written_bytes(vm.mem, gpa as int, data);
            let written = VmView { mem: vm.mem.put(gpa as int, data).0, ..seeded };
            assert(written.write_linear(
                g.rbx.wrapping_add(n as u64),
                Seq::empty(),
                frames,
            ) == (written, frames, true));
            assert(seeded.write_linear(g.rbx, data, frames) == (written, frames, true));
            assert forall|i: int| 0 <= i < n implies #[trigger] written.mem.byte(gpa + i)
                == bytes::le64(drawn(d, (i / 8) as nat).draw().1->0)[i % 8] by {
                random_bytes_are_draws(d, n, i);
            }
        }
    }
}

proof fn lemma_write_linear_keeps_state(
    vm: VmView,
    gva: u64,
    data: Seq<u8>,
    frames: Seq<(u64, u64)>,
)
    requires
        vm.mem.overlay is None,
    ensures
        vm.write_linear(gva, data, frames).0.state == vm.state,
        vm.write_linear(gva, data, frames).0.mem.overlay is None,
    decreases data.len(),
{
    if data.len() > 0 {
        let k = linear::within_page(gva, data.len());
        if let Some(gpa) = vm.translate(gva) {
            let (mem, r) = vm.mem.put(gpa as int, data.take(k as int));
            let written = VmView { mem, ..vm };
            if r is Ok {
                lemma_write_linear_keeps_state(
                    written,
                    gva.wrapping_add(k as u64),
                    data.skip(k as int),
                    frames,
                );
            }
        }
    }
}

/// Bytes written across a page boundary of a root VM stand on both pages, where the
/// guest's tables map them, and nothing else changes. The second page is looked up
/// once the first has been written.
pub proof fn linear_write_crosses_pages(
    vm: VmView,
    gva: u64,
    data: Seq<u8>,
    frames: Seq<(u64, u64)>,
    first: u64,
    second: u64,
)
    requires
        vm.mem.wf(),
        vm.mem.overlay is None,
        gva % 4096 != 0,
        gva + 8192 <= u64::MAX,
        4096 < gva % 4096 + data.len() <= 8192,
        vm.translate(gva) == Some(first),
        first + (4096 - gva % 4096) <= vm.mem.base.len(),
        second + 4096 <= vm.mem.base.len(),
        second + 4096 <= first || first + 4096 <= second,
        ({
            let k = 4096 - gva % 4096;
            let mid = VmView { mem: vm.mem.put(first as int, data.take(k)).0, ..vm };
            mid.translate((gva + k) as u64) == Some(second)
        }),
    ensures
        ({
            let k = 4096 - gva % 4096;
            let (after, left, ok) = vm.write_linear(gva, data, frames);
            &&& ok
            &&& forall|i: int| 0 <= i < k ==> #[trigger] after.mem.byte(first + i) == data[i]
            &&& forall|i: int|
                0 <= i < data.len() - k ==> #[trigger] after.mem.byte(second + i) == data[k + i]
            &&& forall|a: int|
                0 <= a < vm.mem.base.len() && !(first <= a < first + k) && !(second <= a < second
                    + data.len() - k) ==> #[trigger] after.mem.byte(a) == vm.mem.byte(a)
            &&& after.state == vm.state
        }),
{
    let k = 4096 - gva % 4096;
    let head = data.take(k);
    let tail = data.skip(k);
    let next = (gva + k) as u64;
    memory::write_changes_written_bytes(vm.mem, first as int, head);
    let mid = VmView { mem: vm.mem.put(first as int, head).0, ..vm };
    memory::write_changes_written_bytes(mid.mem, second as int, tail);
    let end = VmView { mem: mid.mem.put(second as int, tail).0, ..mid };
    assert(linear::within_page(gva, data.len()) == k);
    assert(next % 4096 == 0);
    assert(linear::within_page(next, tail.len()) == tail.len());
    assert(tail.take(tail.len() as int) =~= tail);
    assert(tail.skip(tail.len() as int) =~= Seq::<u8>::empty());
    assert(end.write_linear(next.wrapping_add(tail.len() as u64), Seq::empty(), frames) == (
        end,
        frames,
        true,
    ));
    assert(mid.write_linear(next, tail, frames) == (end, frames, true));
    assert(vm.write_linear(gva, data, frames) == (end, frames, true));
    assert forall|i: int| 0 <= i < k implies #[trigger] end.mem.byte(first + i) == data[i] by {
        assert(mid.mem.byte(first + i) == head[i]);
    }
    assert forall|i: int| 0 <= i < data.len() - k implies #[trigger] end.mem.byte(second + i)
        == data[k + i] by {
        assert(end.mem.byte(second + i) == tail[i]);
    }
}

/// Bytes that a forked VM is given within a page stand on a copy of its own, which it
/// gets if it had none; the parent's memory stays as it is.
pub proof fn forked_write_goes_to_an_own_page(
    vm: VmView,
    gva: u64,
    data: Seq<u8>,
    frames: Seq<(u64, u64)>,
    gpa: u64,
)
    requires
        vm.mem.wf(),
        vm.mem.overlay is Some,
        0 < data.len(),
        gva % 4096 + data.len() <= 4096,
        vm.translate(gva) == Some(gpa),
        gpa - gpa % 4096 + 4096 <= vm.mem.base.len(),
        frames.len() > 0 || vm.mem.owns((gpa - gpa % 4096) as u64),
    ensures
        ({
            let (after, left, ok) = vm.write_linear(gva, data, frames);
            &&& ok
            &&& after.mem.owns((gpa - gpa % 4096) as u64)
            &&& after.mem.base == vm.mem.base
            &&& forall|i: int| 0 <= i < data.len() ==> #[trigger] after.mem.byte(gpa + i) == data[i]
            &&& forall|a: int|
                0 <= a < vm.mem.base.len() && !(gpa <= a < gpa + data.len())
                    ==> #[trigger] after.mem.byte(a) == vm.mem.byte(a)
        }),
{
    let page = memory::page_of(gpa as int);
    let cr3 = vm.state.vmcs.get_natural(VmcsFieldNatural::GuestCr3)->Ok_0;
    ept::walk_keeps_page_offset(vm.mem, cr3, gva);
    vm_laws::copying_is_invisible(vm, page, frames);
    let (owner, left) = vm.own_page(gpa, frames);
    assert(owner.mem.owns(page));
    memory::write_changes_written_bytes(owner.mem, gpa as int, data);
    let end = VmView { mem: owner.mem.put(gpa as int, data).0, ..owner };
    let n = data.len() as int;
    assert(linear::within_page(gva, data.len()) == n);
    assert(data.take(n) =~= data);
    assert(data.skip(n) =~= Seq::<u8>::empty());
    assert(end.write_linear(gva.wrapping_add(n as u64), Seq::empty(), left) == (end, left, true));
    assert(vm.write_linear(gva, data, frames) == (end, left, true));
}

/// In the other mode GET_RANDOM first asks userspace, with the guest staying at the
/// instruction; once a reply is staged it is served, cut to what was asked for, and
/// consumed.
pub proof fn userspace_supplies_random_bytes(vm: VmView, frames: Seq<(u64, u64)>)
    requires
        vm.state.core.devices.random.mode == RdrandMode::ExitToUserspace,
    ensures
        ({
            let g = vm.state.core.gprs;
            let d = vm.state.core.devices.random;
            let n: nat = if g.rcx <= 256 { g.rcx as nat } else { 256 };
            let (after, left, r) = vm.hypercall_random(frames);
            let e = after.state.core.devices.random;
            &&& !d.reply_valid ==> {
                &&& r == ExitHandlerResult::ExitToUserspace(ExitReason::VmcallGetRandom)
                &&& after.mem == vm.mem && left == frames
                &&& after.state.vmcs == vm.state.vmcs && after.state.core.gprs == g
                &&& e.awaiting && e.buf_gva == g.rbx && e.req_len == n && e.pid == g.rdx as u32
                &&& e.seed == d.seed && e.mode == d.mode && e.pending_value == d.pending_value
            }
            &&& d.reply_valid && vm.mem.overlay is None ==> {
                let k = if d.reply_len <= n { d.reply_len as int } else { n as int };
                &&& !e.reply_valid && !e.awaiting && e.seed == d.seed
                &&& (after.mem, left) == (
                    vm.write_linear(g.rbx, d.reply@.take(k), frames).0.mem,
                    vm.write_linear(g.rbx, d.reply@.take(k), frames).1,
                )
                &&& can_complete(vm.state) ==> after.state.core.gprs.rax == if vm.write_linear(
                    g.rbx,
                    d.reply@.take(k),
                    frames,
                ).2 {
                    k
                } else {
                    0xFFFF_FFFF_FFFF_FFFF
                }
            }
        }),
{
    reveal(VmView::hypercall_random);
    let g = vm.state.core.gprs;
    let d = vm.state.core.devices.random;
    let n: nat = if g.rcx <= 256 { g.rcx as nat } else { 256 };
    let k = if d.reply_len <= n { d.reply_len as int } else { n as int };
    let seeded = vm.with_state(vm.state.with_random(d.without_request()));
    if vm.mem.overlay is None {
        lemma_write_linear_ignores_core(vm, seeded, g.rbx, d.reply@.take(k), frames);
        lemma_served(seeded, d.reply@.take(k), frames);
    }
}

proof fn lemma_write_linear_ignores_core(
    a: VmView,
    b: VmView,
    gva: u64,
    data: Seq<u8>,
    frames: Seq<(u64, u64)>,
)
    requires
        a.mem == b.mem,
        a.mem.overlay is None,
        a.state.vmcs == b.state.vmcs,
    ensures
        a.write_linear(gva, data, frames).0.mem == b.write_linear(gva, data, frames).0.mem,
        a.write_linear(gva, data, frames).1 == b.write_linear(gva, data, frames).1,
        a.write_linear(gva, data, frames).2 == b.write_linear(gva, data, frames).2,
    decreases data.len(),
{
    if data.len() > 0 {
        let k = linear::within_page(gva, data.len());
        assert(a.translate(gva) == b.translate(gva));
        if let Some(gpa) = a.translate(gva) {
            let (mem, r) = a.mem.put(gpa as int, data.take(k as int));
            if r is Ok {
                lemma_write_linear_ignores_core(
                    VmView { mem, ..a },
                    VmView { mem, ..b },
                    gva.wrapping_add(k as u64),
                    data.skip(k as int),
                    frames,
                );
            }
        }
    }
}

/// Registering a scratch page: it is refused on a host without the feature, at an
/// address that is no page's start, a second time, and where guest or host do not
/// map it, with the answers -1 to -5; nothing has changed then but what an
/// interrupted write left in memory.
pub proof fn scratch_page_conditions(vm: VmView, va: u64)
    ensures
        ({
            let c = vm.state.core;
            let (after, r) = vm.register_pebs_page(va);
            let at = vm.translate(va);
            let page = (at->0 - at->0 % 4096) as u64;
            let host_mapped = vm.state.ept.leaves.dom().contains(page);
            &&& !c.pebs_supported ==> r.code() == 0xFFFF_FFFF_FFFF_FFFF
            &&& c.pebs_supported && va % 4096 != 0 ==> r.code() == 0xFFFF_FFFF_FFFF_FFFE
            &&& c.pebs_supported && va % 4096 == 0 && c.pebs_state is Some ==> r.code()
                == 0xFFFF_FFFF_FFFF_FFFB
            &&& c.pebs_supported && va % 4096 == 0 && c.pebs_state is None && at is None ==> r.code()
                == 0xFFFF_FFFF_FFFF_FFFD
            &&& c.pebs_supported && va % 4096 == 0 && c.pebs_state is None && at is Some
                && !host_mapped ==> r.code() == 0xFFFF_FFFF_FFFF_FFFC
            &&& r.code() == 0 ==> c.pebs_supported && va % 4096 == 0 && c.pebs_state is None
                && at is Some && host_mapped
            &&& c.pebs_supported && va % 4096 == 0 && c.pebs_state is None && at is Some && host_mapped
                && vm.mem.overlay is None && page + 160 <= vm.mem.base.len() ==> r.code() == 0
            &&& r.code() != 0 ==> after.state == vm.state
        }),
{
    assert(va & 0xFFF == va % 4096) by (bit_vector);
}

/// A registered scratch page: records trap on it, since it has lost its write
/// permission but kept its frame; its management area, reached through the kernel's
/// direct map, names a record buffer of 0x800 bytes from offset 0x100 on whose
/// threshold is its first byte; the counter runs in the guest, and every VM exit
/// loads the list that stops records.
pub proof fn scratch_page_traps_records(vm: VmView, va: u64)
    requires
        vm.register_pebs_page(va).1.code() == 0,
        vm.state.vmcs.loaded,
        vm.mem.wf(),
    ensures
        ({
            let after = vm.register_pebs_page(va).0;
            let at = vm.translate(va)->0;
            let page = (at - at % 4096) as u64;
            let p = after.state.core.pebs_state->0;
            let area = (0xffff_8880_0000_0000 + page) % 0x1_0000_0000_0000_0000;
            let buffer = ((area + 0x100) % 0x1_0000_0000_0000_0000) as u64;
            let end = ((buffer + 0x800) % 0x1_0000_0000_0000_0000) as u64;
            let word = |i: int| after.mem.bytes_at(page + 8 * i, 8);
            &&& after.state.ept.leaves[page].permissions == EptPermissions::ReadExecute
            &&& after.state.ept.leaves[page].hpa == vm.state.ept.leaves[page].hpa
            &&& p.ds_area_va == area
            &&& p.ds_management_gpa == page && p.pebs_buffer_gpa == page
            &&& p.armed_action is None
            &&& p.fixed_ctr_ctrl == 3 && p.pebs_enable == 0x1_0000_0000 && p.pebs_data_cfg == 0
            &&& word(4) == bytes::le64(buffer)
            &&& word(5) == bytes::le64(buffer)
            &&& word(6) == bytes::le64(end)
            &&& word(7) == bytes::le64(buffer)
            &&& after.state.vmcs.get64(VmcsField64::VmExitMsrLoadAddr) matches Ok(v) && v
                == vm.state.host.pages.pebs_exit_msr_load_page.phys
            &&& after.state.vmcs.get32(VmcsField32::VmExitMsrLoadCount) matches Ok(v) && v == 1
            &&& vm.state.vmcs.get64(VmcsField64::GuestIa32PerfGlobalCtrl) matches Ok(was) ==> (
            after.state.vmcs.get64(VmcsField64::GuestIa32PerfGlobalCtrl) matches Ok(v) && v == was
                | 0x1_0000_0000)
        }),
{
    let at = vm.translate(va)->0;
    let page = (at - at % 4096) as u64;
    let area = pebs::DsManagementArea::for_page(pebs::GUEST_LINUX_PAGE_OFFSET.wrapping_add(page));
    let data = pebs::le64s(area.words());
    memory::write_changes_written_bytes(vm.mem, page as int, data);
    let mem = vm.mem.put(page as int, data).0;
    assert forall|i: int| 0 <= i < 8 implies #[trigger] mem.bytes_at(page + 8 * i, 8) == bytes::le64(
        area.words()[i],
    ) by {
        assert forall|k: int| 0 <= k < 8 implies mem.byte(page + 8 * i + k) == bytes::le64(
            area.words()[i],
        )[k] by {
            assert(data[8 * i + k] == bytes::le64(area.words()[(8 * i + k) / 8])[(8 * i + k) % 8]);
        }
        assert(mem.bytes_at(page + 8 * i, 8) =~= bytes::le64(area.words()[i]));
    }
    assert(area.words()[4] == area.pebs_buffer_base);
}

/// The payloads of randomness and I/O-channel records, byte by byte.
pub proof fn payloads_have_their_layout(r: RandomPayload, c: IoChannelPayload)
    ensures
        r.encode().len() == 16,
        r.encode().subrange(0, 8) == bytes::le64(r.value),
        r.encode().subrange(8, 12) == bytes::le32(r.pid),
        r.encode()[12] == r.source && r.encode()[13] == r.width,
        c.encode().len() == 16,
        c.encode()[0] == c.phase,
        c.encode().subrange(8, 16) == bytes::le64(c.target_tsc),
{
    reveal(RandomPayload::encode);
    reveal(IoChannelPayload::encode);
    assert(r.encode().subrange(0, 8) =~= bytes::le64(r.value));
    assert(r.encode().subrange(8, 12) =~= bytes::le32(r.pid));
    assert(c.encode().subrange(8, 16) =~= bytes::le64(c.target_tsc));
}

} // verus!
