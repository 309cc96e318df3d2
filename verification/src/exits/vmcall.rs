//! Hypercalls.

use vstd::prelude::*;

use crate::bytes;
use crate::bytes::{copy_into_page, slice_to_vec};
use crate::devices::random;
use crate::devices::random::{RandomState, RdrandMode, RANDOM_REPLY_MAX};
use crate::events::types::{IoChannelPayload, IoChannelPhase, RandomPayload, RandomSource};
use crate::exits::chunks;
use crate::exits::chunks::{copy_from_guest, copy_to_guest};
use crate::exits::ept;
use crate::exits::ept::{translate_gva_range_to_gpas, translate_gva_to_gpa};
use crate::exits::helpers::{complete, emit_randomness_event, ExitHandlerResult};
use crate::exits::linear::{read_guest_id, write_guest_linear};
use crate::exits::pebs::{register_pebs_page, RegisterPebsPageResult};
use crate::exits::reasons::ExitReason;
use crate::feedback::{
    FeedbackBufferInfo, FEEDBACK_BUFFER_ID_MAX_LEN, FEEDBACK_BUFFER_MAX_PAGES,
    FEEDBACK_BUFFER_SLOT_SIZE,
};
use crate::hypercalls::{
    HYPERCALL_FILE_FETCH, HYPERCALL_FILE_STORE, HYPERCALL_GET_RANDOM, HYPERCALL_IO_GET_REQUEST,
    HYPERCALL_IO_PUT_RESPONSE, HYPERCALL_IO_REGISTER_PAGE, HYPERCALL_READY,
    HYPERCALL_REGISTER_FEEDBACK_BUFFER, HYPERCALL_REGISTER_PEBS_PAGE,
    HYPERCALL_SERIAL_REGISTER_PAGE, HYPERCALL_SERIAL_WRITE, HYPERCALL_SHUTDOWN,
    HYPERCALL_SNAPSHOT,
};
use crate::io_channel::{
    IoChannelView, SerialConsoleState, IO_CHANNEL_BUF_SIZE, SERIAL_CONSOLE_PAGE_SIZE,
};
use crate::page::PagePool;
use crate::traits::device_state::DeviceStates;
use crate::traits::vm_context::{VmContext, VmView};
use crate::vm_state::{VmCore, VmState, VmStateView};

verus! {

/// The size of a feedback buffer is zero or too large.
pub const FB_ERR_BAD_SIZE: u64 = 0xFFFF_FFFF_FFFF_FFFF;

/// The identifier is empty or too long.
pub const FB_ERR_BAD_ID_LEN: u64 = 0xFFFF_FFFF_FFFF_FFFE;

/// A page of the identifier is not present.
pub const FB_ERR_ID_NOT_RESIDENT: u64 = 0xFFFF_FFFF_FFFF_FFFD;

/// A page of the buffer is not present.
pub const FB_ERR_BUFFER_NOT_RESIDENT: u64 = 0xFFFF_FFFF_FFFF_FFFC;

/// No room for another buffer.
pub const FB_ERR_NO_SLOTS: u64 = 0xFFFF_FFFF_FFFF_FFFB;

/// RAX of a hypercall that failed.
pub const HYPERCALL_FAILED: u64 = 0xFFFF_FFFF_FFFF_FFFF;

impl VmStateView {
    /// The state after the hypercall has been answered in RAX and completed.
    #[verifier::opaque]
    pub open spec fn reply(self, rax: u64, done: ExitHandlerResult) -> (Self, ExitHandlerResult) {
        self.with_rax(rax).complete(done)
    }

    /// The state with another randomness device.
    pub open spec fn with_random(self, random: RandomState) -> Self {
        let c = self.core;
        self.with_core(VmCore { devices: DeviceStates { random, ..c.devices }, ..c })
    }

    /// The state with other response bytes.
    pub open spec fn with_response(self, response: Seq<u8>) -> Self {
        VmStateView { io_channel: IoChannelView { response, ..self.io_channel }, ..self }
    }

    /// The state with `data` at the start of the staged console bytes.
    pub open spec fn with_console_bytes(self, data: Seq<u8>) -> Self {
        let c = self.core;
        let staged = bytes::overwrite(c.serial_console.pending_buf@, 0, data);
        self.with_core(
            VmCore {
                serial_console: SerialConsoleState {
                    pending_buf: Box::new(bytes::page_of_bytes(staged)),
                    ..c.serial_console
                },
                ..c
            },
        )
    }

    /// Shutdown: the final state is captured and a serial line in progress
    /// emitted.
    #[verifier::opaque]
    pub open spec fn hypercall_shutdown(self) -> (Self, ExitHandlerResult) {
        self.capture_exit_at_shutdown().event_flush_serial_line().0.complete(
            ExitHandlerResult::ExitToUserspace(ExitReason::VmcallShutdown),
        )
    }

    /// Snapshot: the state is captured.
    #[verifier::opaque]
    pub open spec fn hypercall_snapshot(self) -> (Self, ExitHandlerResult) {
        self.capture_exit_at_snapshot().complete(
            ExitHandlerResult::ExitToUserspace(ExitReason::VmcallSnapshot),
        )
    }

    /// Response captured: answered, completed, recorded.
    #[verifier::opaque]
    pub open spec fn hypercall_response_captured(self) -> (Self, ExitHandlerResult) {
        let done = ExitHandlerResult::ExitToUserspace(ExitReason::VmcallIoResponse);
        let (state, result) = self.reply(0, done);
        if result == done {
            (
                state.event_emit_io_channel(
                    IoChannelPayload { phase: IoChannelPhase::Response.spec_as_u8(), target_tsc: 0 },
                ).0,
                done,
            )
        } else {
            (state, result)
        }
    }

    /// Console bytes staged: answered, completed, emitted behind any line in
    /// progress.
    #[verifier::opaque]
    pub open spec fn hypercall_console_staged(self, len: nat) -> (Self, ExitHandlerResult) {
        let (state, result) = self.reply(0, ExitHandlerResult::Continue);
        if result == ExitHandlerResult::Continue {
            (
                state.event_flush_serial_line().0.event_emit_console(len).0,
                ExitHandlerResult::Continue,
            )
        } else {
            (state, result)
        }
    }
}

/// The guest-physical pages of a buffer at `gva`, and zeros behind them.
pub open spec fn buffer_pages(vm: VmView, gva: u64, size: u64) -> Seq<u64> {
    Seq::new(
        256,
        |i: int| if i < ept::pages_spanned(gva, size) { vm.translate_page(gva, i)->0 } else { 0u64 },
    )
}

/// The table whose entries are `s`.
pub open spec fn page_table_of(s: Seq<u64>) -> [u64; 256] {
    choose|a: [u64; 256]| a@ == s
}

/// The identifier field that holds `id`.
pub open spec fn id_field(id: Seq<u8>) -> [u8; 128] {
    choose|a: [u8; 128]| a@ == bytes::overwrite(bytes::zeros(128), 0, id)
}

/// The record of a buffer at `gva` whose identifier is `id`.
pub open spec fn buffer_info(vm: VmView, gva: u64, size: u64, id: Seq<u8>) -> FeedbackBufferInfo {
    FeedbackBufferInfo {
        gva,
        size,
        num_pages: ept::pages_spanned(gva, size) as usize,
        gpas: page_table_of(buffer_pages(vm, gva, size)),
        id: id_field(id),
        id_len: id.len() as u32,
    }
}

/// Every page of the range is mapped and there are not too many.
pub open spec fn buffer_resident(vm: VmView, gva: u64, size: u64) -> bool {
    let n = ept::pages_spanned(gva, size);
    n <= FEEDBACK_BUFFER_MAX_PAGES && forall|i: int|
        0 <= i < n ==> #[trigger] vm.translate_page(gva, i) is Some
}

impl VmView {
    /// The VM after a hypercall that touches only its state.
    pub open spec fn lift(self, outcome: (VmStateView, ExitHandlerResult)) -> (
        Self,
        ExitHandlerResult,
    ) {
        (self.with_state(outcome.0), outcome.1)
    }

    /// Register a feedback buffer: it takes the next slot.
    #[verifier::opaque]
    pub open spec fn hypercall_feedback_buffer(self) -> (Self, ExitHandlerResult) {
        let g = self.state.core.gprs;
        if g.rcx == 0 || g.rcx > FEEDBACK_BUFFER_SLOT_SIZE {
            self.lift(self.state.reply(FB_ERR_BAD_SIZE, ExitHandlerResult::Continue))
        } else if g.rsi == 0 || g.rsi > FEEDBACK_BUFFER_ID_MAX_LEN {
            self.lift(self.state.reply(FB_ERR_BAD_ID_LEN, ExitHandlerResult::Continue))
        } else {
            match self.read_linear(g.rdx, g.rsi as nat) {
                None => self.lift(
                    self.state.reply(FB_ERR_ID_NOT_RESIDENT, ExitHandlerResult::Continue),
                ),
                Some(id) => if !buffer_resident(self, g.rbx, g.rcx) {
                    self.lift(
                        self.state.reply(FB_ERR_BUFFER_NOT_RESIDENT, ExitHandlerResult::Continue),
                    )
                } else {
                    self.lift(
                        VmStateView {
                            feedback_buffers: self.state.feedback_buffers.push(
                                buffer_info(self, g.rbx, g.rcx, id),
                            ),
                            ..self.state
                        }.reply(
                            self.state.feedback_buffers.len() as u64,
                            ExitHandlerResult::ExitToUserspace(ExitReason::VmcallFeedbackBuffer),
                        ),
                    )
                },
            }
        }
    }

    /// Register the scratch page for precise exits.
    #[verifier::opaque]
    pub open spec fn hypercall_pebs_page(self) -> (Self, ExitHandlerResult) {
        let (vm, result) = self.register_pebs_page(self.state.core.gprs.rbx);
        vm.lift(
            vm.state.reply(
                result.code(),
                ExitHandlerResult::ExitToUserspace(ExitReason::VmcallPebsPage),
            ),
        )
    }

    /// Register the I/O channel page. Queued requests survive, but a delivered
    /// one is announced again and a stale response dropped.
    #[verifier::opaque]
    pub open spec fn hypercall_io_page(self, frames: Seq<(u64, u64)>) -> (
        Self,
        Seq<(u64, u64)>,
        ExitHandlerResult,
    ) {
        let va = self.state.core.gprs.rbx;
        let done = ExitHandlerResult::ExitToUserspace(ExitReason::VmcallIoRegisterPage);
        match self.translate(va) {
            Some(gpa) if va & 0xFFF == 0 => {
                let registered = self.with_state(
                    VmStateView {
                        io_channel: IoChannelView {
                            page_gpa: gpa,
                            request_delivered: false,
                            response: Seq::empty(),
                            ..self.state.io_channel
                        },
                        ..self.state
                    },
                );
                let (vm, left) = registered.copy_io_page(frames);
                let (after, result) = vm.lift(vm.state.reply(0, done));
                (after, left, result)
            },
            _ => {
                let (after, result) = self.lift(self.state.reply(HYPERCALL_FAILED, done));
                (after, frames, result)
            },
        }
    }

    /// Fetch the waiting I/O request: it is copied to the channel page, chunk by
    /// chunk, and the next one takes its place.
    #[verifier::opaque]
    pub open spec fn hypercall_io_request(self) -> (Self, ExitHandlerResult) {
        let chan = self.state.io_channel;
        if chan.page_gpa == 0 {
            self.lift(self.state.reply(HYPERCALL_FAILED, ExitHandlerResult::Continue))
        } else if chan.request.len() == 0 {
            self.lift(self.state.reply(0, ExitHandlerResult::Continue))
        } else {
            let (mem, all) = self.mem.put_chunks(chan.page_gpa as int, chan.request);
            let vm = VmView { mem, ..self };
            if all {
                vm.lift(
                    VmStateView { io_channel: chan.consume(), ..self.state }.reply(
                        chan.request.len() as u64,
                        ExitHandlerResult::Continue,
                    ),
                )
            } else {
                vm.lift(self.state.reply(HYPERCALL_FAILED, ExitHandlerResult::Continue))
            }
        }
    }

    /// Capture an I/O response from the channel page, chunk by chunk. Where a chunk
    /// cannot be read, those before it have replaced the start of the last
    /// response, but it is no new one.
    #[verifier::opaque]
    pub open spec fn hypercall_io_response(self) -> (Self, ExitHandlerResult) {
        let chan = self.state.io_channel;
        let n = bytes::min_nat(self.state.core.gprs.rbx as nat, IO_CHANNEL_BUF_SIZE as nat);
        let copied = self.mem.readable_chunks(chan.page_gpa as int, n);
        let data = self.mem.bytes_at(chan.page_gpa as int, copied);
        let failed = ExitHandlerResult::ExitToUserspace(ExitReason::VmcallIoResponse);
        if chan.page_gpa == 0 {
            self.lift(self.state.reply(HYPERCALL_FAILED, failed))
        } else if copied < n {
            self.lift(
                self.state.with_response(bytes::overwrite(chan.response, 0, data)).reply(
                    HYPERCALL_FAILED,
                    failed,
                ),
            )
        } else {
            self.lift(self.state.with_response(data).hypercall_response_captured())
        }
    }

    /// Register the console page.
    #[verifier::opaque]
    pub open spec fn hypercall_console_page(self) -> (Self, ExitHandlerResult) {
        let va = self.state.core.gprs.rbx;
        let c = self.state.core;
        match self.translate(va) {
            Some(gpa) if va & 0xFFF == 0 => self.lift(
                self.state.with_core(
                    VmCore {
                        serial_console: SerialConsoleState { page_gpa: gpa, ..c.serial_console },
                        ..c
                    },
                ).reply(0, ExitHandlerResult::Continue),
            ),
            _ => self.lift(self.state.reply(HYPERCALL_FAILED, ExitHandlerResult::Continue)),
        }
    }

    /// Emit bytes of the console page, which are staged chunk by chunk. Where a
    /// chunk cannot be read, those before it stay staged and nothing is emitted.
    #[verifier::opaque]
    pub open spec fn hypercall_console_write(self) -> (Self, ExitHandlerResult) {
        let c = self.state.core;
        let page_gpa = c.serial_console.page_gpa;
        let n = bytes::min_nat(c.gprs.rbx as nat, SERIAL_CONSOLE_PAGE_SIZE as nat);
        let copied = self.mem.readable_chunks(page_gpa as int, n);
        let staged = self.state.with_console_bytes(self.mem.bytes_at(page_gpa as int, copied));
        if page_gpa == 0 {
            self.lift(self.state.reply(HYPERCALL_FAILED, ExitHandlerResult::Continue))
        } else if copied < n {
            self.lift(staged.reply(HYPERCALL_FAILED, ExitHandlerResult::Continue))
        } else {
            self.lift(staged.hypercall_console_staged(n))
        }
    }

    /// Serve `data` to a request for random bytes.
    #[verifier::opaque]
    pub open spec fn serve_random_bytes(self, data: Seq<u8>, frames: Seq<(u64, u64)>) -> (
        Self,
        Seq<(u64, u64)>,
        ExitHandlerResult,
    ) {
        let g = self.state.core.gprs;
        let (vm, left, written) = self.write_linear(g.rbx, data, frames);
        let (after, result) = if written {
            vm.lift(
                vm.state.emit_randomness(
                    RandomPayload {
                        value: 0,
                        pid: g.rdx as u32,
                        source: RandomSource::GetRandom.spec_as_u8(),
                        width: 0,
                    },
                    data,
                ).reply(data.len() as u64, ExitHandlerResult::Continue),
            )
        } else {
            vm.lift(vm.state.reply(HYPERCALL_FAILED, ExitHandlerResult::Continue))
        };
        (after, left, result)
    }

    /// Random bytes: from the generator, or from userspace, which is asked
    /// first and answers before the hypercall runs again.
    #[verifier::opaque]
    pub open spec fn hypercall_random(self, frames: Seq<(u64, u64)>) -> (
        Self,
        Seq<(u64, u64)>,
        ExitHandlerResult,
    ) {
        let g = self.state.core.gprs;
        let device = self.state.core.devices.random;
        let n = bytes::min_nat(g.rcx as nat, RANDOM_REPLY_MAX as nat);
        match device.mode {
            RdrandMode::SeededRng => self.with_state(
                self.state.with_random(
                    RandomState {
                        seed: random::xorshift64_nth(device.seed, (n + 7) / 8),
                        ..device
                    },
                ),
            ).serve_random_bytes(random::seeded_bytes(device.seed, n), frames),
            RdrandMode::ExitToUserspace => if !device.reply_valid {
                (
                    self.with_state(
                        self.state.with_random(
                            RandomState {
                                buf_gva: g.rbx,
                                req_len: n as u32,
                                pid: g.rdx as u32,
                                awaiting: true,
                                reply_valid: false,
                                reply_len: 0,
                                ..device
                            },
                        ),
                    ),
                    frames,
                    ExitHandlerResult::ExitToUserspace(ExitReason::VmcallGetRandom),
                )
            } else {
                self.with_state(
                    self.state.with_random(device.without_request()),
                ).serve_random_bytes(
                    device.reply@.take(bytes::min_nat(device.reply_len as nat, n) as int),
                    frames,
                )
            },
        }
    }

    /// A hypercall with the number in RAX. Unknown ones are left to userspace.
    #[verifier::opaque]
    pub open spec fn vmcall(self, frames: Seq<(u64, u64)>) -> (
        Self,
        Seq<(u64, u64)>,
        ExitHandlerResult,
    ) {
        let nr = self.state.core.gprs.rax;
        if nr == HYPERCALL_IO_REGISTER_PAGE {
            self.hypercall_io_page(frames)
        } else if nr == HYPERCALL_GET_RANDOM {
            self.hypercall_random(frames)
        } else {
            let (vm, result) = if nr == HYPERCALL_SHUTDOWN {
                self.lift(self.state.hypercall_shutdown())
            } else if nr == HYPERCALL_SNAPSHOT {
                self.lift(self.state.hypercall_snapshot())
            } else if nr == HYPERCALL_READY {
                self.lift(
                    self.state.complete(
                        ExitHandlerResult::ExitToUserspace(ExitReason::VmcallReady),
                    ),
                )
            } else if nr == HYPERCALL_REGISTER_FEEDBACK_BUFFER {
                self.hypercall_feedback_buffer()
            } else if nr == HYPERCALL_REGISTER_PEBS_PAGE {
                self.hypercall_pebs_page()
            } else if nr == HYPERCALL_FILE_FETCH {
                self.lift(
                    self.state.reply(
                        0,
                        ExitHandlerResult::ExitToUserspace(ExitReason::VmcallFileFetch),
                    ),
                )
            } else if nr == HYPERCALL_FILE_STORE {
                self.lift(
                    self.state.reply(
                        0,
                        ExitHandlerResult::ExitToUserspace(ExitReason::VmcallFileStore),
                    ),
                )
            } else if nr == HYPERCALL_IO_GET_REQUEST {
                self.hypercall_io_request()
            } else if nr == HYPERCALL_IO_PUT_RESPONSE {
                self.hypercall_io_response()
            } else if nr == HYPERCALL_SERIAL_REGISTER_PAGE {
                self.hypercall_console_page()
            } else if nr == HYPERCALL_SERIAL_WRITE {
                self.hypercall_console_write()
            } else {
                (self, ExitHandlerResult::ExitToUserspace(ExitReason::Vmcall))
            };
            (vm, frames, result)
        }
    }
}

/// Answer a hypercall in RAX and complete it.
fn reply(state: &mut VmState, rax: u64, done: ExitHandlerResult) -> (r: ExitHandlerResult)
    requires
        old(state).wf(),
    ensures
        final(state).wf(),
        (final(state)@, r) == old(state)@.reply(rax, done),
{
    reveal(VmStateView::reply);
    state.core.gprs.rax = rax;
    complete(state, done)
}

fn shutdown(state: &mut VmState) -> (r: ExitHandlerResult)
    requires
        old(state).wf(),
    ensures
        final(state).wf(),
        (final(state)@, r) == old(state)@.hypercall_shutdown(),
{
    reveal(VmStateView::hypercall_shutdown);
    state.capture_exit_at_shutdown();
    let _ = state.event_flush_serial_line();
    complete(state, ExitHandlerResult::ExitToUserspace(ExitReason::VmcallShutdown))
}

fn snapshot(state: &mut VmState) -> (r: ExitHandlerResult)
    requires
        old(state).wf(),
    ensures
        final(state).wf(),
        (final(state)@, r) == old(state)@.hypercall_snapshot(),
{
    reveal(VmStateView::hypercall_snapshot);
    state.capture_exit_at_snapshot();
    complete(state, ExitHandlerResult::ExitToUserspace(ExitReason::VmcallSnapshot))
}

fn response_captured(state: &mut VmState) -> (r: ExitHandlerResult)
    requires
        old(state).wf(),
    ensures
        final(state).wf(),
        (final(state)@, r) == old(state)@.hypercall_response_captured(),
{
    reveal(VmStateView::hypercall_response_captured);
    reveal(VmStateView::reply);
    reveal(VmStateView::complete);
    let result = reply(state, 0, ExitHandlerResult::ExitToUserspace(ExitReason::VmcallIoResponse));
    match result {
        ExitHandlerResult::ExitToUserspace(_) => {
            let payload = IoChannelPayload {
                phase: IoChannelPhase::Response.as_u8(),
                target_tsc: 0,
            };
            let _ = state.event_emit_io_channel(&payload);
            result
        },
        _ => result,
    }
}

fn console_staged(state: &mut VmState, len: usize) -> (r: ExitHandlerResult)
    requires
        old(state).wf(),
    ensures
        final(state).wf(),
        (final(state)@, r) == old(state)@.hypercall_console_staged(len as nat),
{
    reveal(VmStateView::hypercall_console_staged);
    let result = reply(state, 0, ExitHandlerResult::Continue);
    match result {
        ExitHandlerResult::Continue => {
            let _ = state.event_flush_serial_line();
            let _ = state.event_emit_console(len);
            result
        },
        _ => result,
    }
}

fn append_buffer(state: &mut VmState, info: FeedbackBufferInfo) -> (r: ExitHandlerResult)
    requires
        old(state).wf(),
        info.wf(),
    ensures
        final(state).wf(),
        (final(state)@, r) == (VmStateView {
            feedback_buffers: old(state)@.feedback_buffers.push(info),
            ..old(state)@
        }).reply(
            old(state)@.feedback_buffers.len() as u64,
            ExitHandlerResult::ExitToUserspace(ExitReason::VmcallFeedbackBuffer),
        ),
{
    let index: usize = state.feedback_buffers.len();
    state.feedback_buffers.push(info);
    reply(
        state,
        index as u64,
        ExitHandlerResult::ExitToUserspace(ExitReason::VmcallFeedbackBuffer),
    )
}

/// Register a feedback buffer.
fn register_feedback_buffer<C: VmContext>(ctx: &mut C) -> (r: ExitHandlerResult)
    requires
        old(ctx).wf(),
    ensures
        final(ctx).wf(),
        final(ctx).child_count() == old(ctx).child_count(),
        (final(ctx).vm(), r) == old(ctx).vm().hypercall_feedback_buffer(),
{
    reveal(VmView::hypercall_feedback_buffer);
    let gva: u64 = ctx.state().core.gprs.rbx;
    let size: u64 = ctx.state().core.gprs.rcx;
    let id_gva: u64 = ctx.state().core.gprs.rdx;
    let id_len: u64 = ctx.state().core.gprs.rsi;
    if size == 0 || size > FEEDBACK_BUFFER_SLOT_SIZE {
        return reply(ctx.state_mut(), FB_ERR_BAD_SIZE, ExitHandlerResult::Continue);
    }
    if id_len == 0 || id_len > FEEDBACK_BUFFER_ID_MAX_LEN as u64 {
        return reply(ctx.state_mut(), FB_ERR_BAD_ID_LEN, ExitHandlerResult::Continue);
    }
    let mut id: [u8; 128] = [0u8; 128];
    assert(id@ =~= bytes::zeros(128));
    match read_guest_id(ctx, id_gva, id_len as usize, &mut id) {
        Ok(_) => {},
        Err(_) => {
            return reply(ctx.state_mut(), FB_ERR_ID_NOT_RESIDENT, ExitHandlerResult::Continue);
        },
    }
    let mut gpas: [u64; 256] = [0u64; 256];
    let num_pages: usize = match translate_gva_range_to_gpas(ctx, gva, size, &mut gpas) {
        Ok(n) => n,
        Err(_) => {
            return reply(ctx.state_mut(), FB_ERR_BUFFER_NOT_RESIDENT, ExitHandlerResult::Continue);
        },
    };
    let info = FeedbackBufferInfo { gva, size, num_pages, gpas, id, id_len: id_len as u32 };
    proof {
        let vm = ctx.vm();
        let data = vm.read_linear(id_gva, id_len as nat)->0;
        let wanted = buffer_info(vm, gva, size, data);
        assert(gpas@ =~= buffer_pages(vm, gva, size));
        assert(wanted.gpas =~= gpas);
        assert(wanted.id =~= id);
        assert(info == wanted);
        assert(info.wf()) by {
            assert forall|i: int| 0 <= i < num_pages implies #[trigger] gpas@[i] % 4096 == 0 by {
                assert(vm.translate_page(gva, i) == Some(gpas@[i]));
            }
        }
    }
    append_buffer(ctx.state_mut(), info)
}

/// Register the I/O channel page.
fn register_io_page<C: VmContext>(ctx: &mut C, allocator: &mut PagePool) -> (r: ExitHandlerResult)
    requires
        old(ctx).wf(),
    ensures
        final(ctx).wf(),
        final(ctx).child_count() == old(ctx).child_count(),
        (final(ctx).vm(), final(allocator).frames@, r) == old(ctx).vm().hypercall_io_page(
            old(allocator).frames@,
        ),
{
    reveal(VmView::hypercall_io_page);
    let done = ExitHandlerResult::ExitToUserspace(ExitReason::VmcallIoRegisterPage);
    let page_va: u64 = ctx.state().core.gprs.rbx;
    if page_va & 0xFFF != 0 {
        return reply(ctx.state_mut(), HYPERCALL_FAILED, done);
    }
    match translate_gva_to_gpa(ctx, page_va) {
        Ok(gpa) => {
            note_io_page(ctx.state_mut(), gpa);
            ctx.pre_cow_io_channel_page(allocator);
            reply(ctx.state_mut(), 0, done)
        },
        Err(_) => reply(ctx.state_mut(), HYPERCALL_FAILED, done),
    }
}

fn note_io_page(state: &mut VmState, gpa: u64)
    requires
        old(state).wf(),
    ensures
        final(state).wf(),
        final(state)@ == (VmStateView {
            io_channel: IoChannelView {
                page_gpa: gpa,
                request_delivered: false,
                response: Seq::empty(),
                ..old(state)@.io_channel
            },
            ..old(state)@
        }),
{
    state.io_channel.page_gpa = gpa;
    state.io_channel.request_delivered = false;
    state.io_channel.response_len = 0;
    assert(state.io_channel@ =~= (IoChannelView {
        page_gpa: gpa,
        request_delivered: false,
        response: Seq::empty(),
        ..old(state)@.io_channel
    }));
}

fn request_fetched(state: &mut VmState, len: u64) -> (r: ExitHandlerResult)
    requires
        old(state).wf(),
    ensures
        final(state).wf(),
        (final(state)@, r) == (VmStateView {
            io_channel: old(state)@.io_channel.consume(),
            ..old(state)@
        }).reply(len, ExitHandlerResult::Continue),
{
    state.io_channel.consume_request();
    reply(state, len, ExitHandlerResult::Continue)
}

/// Copy the waiting request to guest memory at `gpa`.
fn copy_request_to_guest<C: VmContext>(ctx: &mut C, gpa: u64) -> (r: bool)
    requires
        old(ctx).wf(),
    ensures
        final(ctx).wf(),
        final(ctx).child_count() == old(ctx).child_count(),
        ({
            let (mem, all) = old(ctx).vm().mem.put_chunks(
                gpa as int,
                old(ctx).vm().state.io_channel.request,
            );
            final(ctx).vm() == (VmView { mem, ..old(ctx).vm() }) && r == all
        }),
{
    let len: usize = ctx.state().io_channel.request_len;
    let request: Vec<u8> = slice_to_vec(&*ctx.state().io_channel.request_buf, 0, len);
    copy_to_guest(ctx, gpa, &request)
}

/// Fetch the waiting I/O request.
fn get_io_request<C: VmContext>(ctx: &mut C) -> (r: ExitHandlerResult)
    requires
        old(ctx).wf(),
    ensures
        final(ctx).wf(),
        final(ctx).child_count() == old(ctx).child_count(),
        (final(ctx).vm(), r) == old(ctx).vm().hypercall_io_request(),
{
    reveal(VmView::hypercall_io_request);
    let page_gpa: u64 = ctx.state().io_channel.page_gpa;
    let request_len: usize = ctx.state().io_channel.request_len;
    if page_gpa == 0 {
        return reply(ctx.state_mut(), HYPERCALL_FAILED, ExitHandlerResult::Continue);
    }
    if request_len == 0 {
        return reply(ctx.state_mut(), 0, ExitHandlerResult::Continue);
    }
    if copy_request_to_guest(ctx, page_gpa) {
        request_fetched(ctx.state_mut(), request_len as u64)
    } else {
        reply(ctx.state_mut(), HYPERCALL_FAILED, ExitHandlerResult::Continue)
    }
}

/// The smaller of a register value and a page-sized limit.
fn clamp_to_page(len: u64) -> (n: usize)
    ensures
        n == bytes::min_nat(len as nat, 4096),
{
    if len <= 4096 {
        len as usize
    } else {
        4096
    }
}

/// Put the bytes of a response in place. They are a new response only if they are
/// `all` of it.
fn note_response(state: &mut VmState, response: &Vec<u8>, all: bool)
    requires
        old(state).wf(),
        response@.len() <= IO_CHANNEL_BUF_SIZE,
    ensures
        final(state).wf(),
        final(state)@ == old(state)@.with_response(
            if all {
                response@
            } else {
                bytes::overwrite(old(state)@.io_channel.response, 0, response@)
            },
        ),
{
    let n: usize = response.len();
    copy_into_page(&mut *state.io_channel.response_buf, 0, response.as_slice(), 0, n);
    assert(response@.subrange(0, n as int) =~= response@);
    if all {
        state.io_channel.response_len = n;
        assert(state.io_channel@ =~= (IoChannelView {
            response: response@,
            ..old(state)@.io_channel
        }));
    } else {
        assert(state.io_channel@ =~= (IoChannelView {
            response: bytes::overwrite(old(state)@.io_channel.response, 0, response@),
            ..old(state)@.io_channel
        }));
    }
}

/// Capture an I/O response.
fn put_io_response<C: VmContext>(ctx: &mut C) -> (r: ExitHandlerResult)
    requires
        old(ctx).wf(),
    ensures
        final(ctx).wf(),
        final(ctx).child_count() == old(ctx).child_count(),
        (final(ctx).vm(), r) == old(ctx).vm().hypercall_io_response(),
{
    reveal(VmView::hypercall_io_response);
    let n: usize = clamp_to_page(ctx.state().core.gprs.rbx);
    let page_gpa: u64 = ctx.state().io_channel.page_gpa;
    let failed = ExitHandlerResult::ExitToUserspace(ExitReason::VmcallIoResponse);
    if page_gpa == 0 {
        return reply(ctx.state_mut(), HYPERCALL_FAILED, failed);
    }
    let response: Vec<u8> = copy_from_guest(ctx, page_gpa, n);
    let all: bool = response.len() == n;
    note_response(ctx.state_mut(), &response, all);
    if all {
        response_captured(ctx.state_mut())
    } else {
        reply(ctx.state_mut(), HYPERCALL_FAILED, failed)
    }
}

fn note_console_page(state: &mut VmState, gpa: u64) -> (r: ExitHandlerResult)
    requires
        old(state).wf(),
    ensures
        final(state).wf(),
        ({
            let c = old(state)@.core;
            (final(state)@, r) == old(state)@.with_core(
                VmCore {
                    serial_console: SerialConsoleState { page_gpa: gpa, ..c.serial_console },
                    ..c
                },
            ).reply(0, ExitHandlerResult::Continue)
        }),
{
    state.core.serial_console.page_gpa = gpa;
    reply(state, 0, ExitHandlerResult::Continue)
}

/// Register the console page.
fn register_console_page<C: VmContext>(ctx: &mut C) -> (r: ExitHandlerResult)
    requires
        old(ctx).wf(),
    ensures
        final(ctx).wf(),
        final(ctx).child_count() == old(ctx).child_count(),
        (final(ctx).vm(), r) == old(ctx).vm().hypercall_console_page(),
{
    reveal(VmView::hypercall_console_page);
    let page_va: u64 = ctx.state().core.gprs.rbx;
    if page_va & 0xFFF != 0 {
        return reply(ctx.state_mut(), HYPERCALL_FAILED, ExitHandlerResult::Continue);
    }
    match translate_gva_to_gpa(ctx, page_va) {
        Ok(gpa) => note_console_page(ctx.state_mut(), gpa),
        Err(_) => reply(ctx.state_mut(), HYPERCALL_FAILED, ExitHandlerResult::Continue),
    }
}

fn note_console_bytes(state: &mut VmState, data: &Vec<u8>)
    requires
        old(state).wf(),
        data@.len() <= SERIAL_CONSOLE_PAGE_SIZE,
    ensures
        final(state).wf(),
        final(state)@ == old(state)@.with_console_bytes(data@),
{
    let n: usize = data.len();
    copy_into_page(&mut *state.core.serial_console.pending_buf, 0, data.as_slice(), 0, n);
    proof {
        assert(data@.subrange(0, n as int) =~= data@);
        bytes::page_of_bytes_is_unique(*state.core.serial_console.pending_buf);
    }
}

/// Emit bytes of the console page.
fn write_console<C: VmContext>(ctx: &mut C) -> (r: ExitHandlerResult)
    requires
        old(ctx).wf(),
    ensures
        final(ctx).wf(),
        final(ctx).child_count() == old(ctx).child_count(),
        (final(ctx).vm(), r) == old(ctx).vm().hypercall_console_write(),
{
    reveal(VmView::hypercall_console_write);
    let n: usize = clamp_to_page(ctx.state().core.gprs.rbx);
    let page_gpa: u64 = ctx.state().core.serial_console.page_gpa;
    if page_gpa == 0 {
        return reply(ctx.state_mut(), HYPERCALL_FAILED, ExitHandlerResult::Continue);
    }
    let data: Vec<u8> = copy_from_guest(ctx, page_gpa, n);
    let all: bool = data.len() == n;
    note_console_bytes(ctx.state_mut(), &data);
    if all {
        console_staged(ctx.state_mut(), n)
    } else {
        reply(ctx.state_mut(), HYPERCALL_FAILED, ExitHandlerResult::Continue)
    }
}

fn random_served(state: &mut VmState, data: &Vec<u8>, pid: u32) -> (r: ExitHandlerResult)
    requires
        old(state).wf(),
    ensures
        final(state).wf(),
        (final(state)@, r) == old(state)@.emit_randomness(
            RandomPayload {
                value: 0,
                pid,
                source: RandomSource::GetRandom.spec_as_u8(),
                width: 0,
            },
            data@,
        ).reply(data@.len() as u64, ExitHandlerResult::Continue),
{
    let payload = RandomPayload {
        value: 0,
        pid,
        source: RandomSource::GetRandom.as_u8(),
        width: 0,
    };
    emit_randomness_event(state, &payload, data.as_slice());
    reply(state, data.len() as u64, ExitHandlerResult::Continue)
}

/// Serve bytes to a request for randomness.
fn serve_random_bytes<C: VmContext>(
    ctx: &mut C,
    allocator: &mut PagePool,
    data: &Vec<u8>,
) -> (r: ExitHandlerResult)
    requires
        old(ctx).wf(),
    ensures
        final(ctx).wf(),
        final(ctx).child_count() == old(ctx).child_count(),
        (final(ctx).vm(), final(allocator).frames@, r) == old(ctx).vm().serve_random_bytes(
            data@,
            old(allocator).frames@,
        ),
{
    reveal(VmView::serve_random_bytes);
    let gva: u64 = ctx.state().core.gprs.rbx;
    let pid: u32 = ctx.state().core.gprs.rdx as u32;
    if write_guest_linear(ctx, allocator, gva, data.as_slice()) {
        random_served(ctx.state_mut(), data, pid)
    } else {
        reply(ctx.state_mut(), HYPERCALL_FAILED, ExitHandlerResult::Continue)
    }
}

/// Take `n` bytes from the generator.
fn take_seeded(state: &mut VmState, n: usize) -> (data: Vec<u8>)
    requires
        old(state).wf(),
        n <= RANDOM_REPLY_MAX,
    ensures
        final(state).wf(),
        ({
            let device = old(state)@.core.devices.random;
            &&& data@ == random::seeded_bytes(device.seed, n as nat)
            &&& final(state)@ == old(state)@.with_random(
                RandomState {
                    seed: random::xorshift64_nth(device.seed, ((n + 7) / 8) as nat),
                    ..device
                },
            )
        }),
{
    state.core.devices.random.next_seeded_bytes(n)
}

/// Note a request for `n` bytes.
fn ask_for_random(state: &mut VmState, n: usize)
    requires
        old(state).wf(),
        n <= RANDOM_REPLY_MAX,
    ensures
        final(state).wf(),
        ({
            let g = old(state)@.core.gprs;
            final(state)@ == old(state)@.with_random(
                RandomState {
                    buf_gva: g.rbx,
                    req_len: n as u32,
                    pid: g.rdx as u32,
                    awaiting: true,
                    reply_valid: false,
                    reply_len: 0,
                    ..old(state)@.core.devices.random
                },
            )
        }),
{
    let gva: u64 = state.core.gprs.rbx;
    let pid: u32 = state.core.gprs.rdx as u32;
    state.core.devices.random.begin_request(gva, n as u32, pid);
}

/// Take what userspace replied, at most `n` bytes of it.
fn take_random_reply(state: &mut VmState, n: usize) -> (data: Vec<u8>)
    requires
        old(state).wf(),
    ensures
        final(state).wf(),
        ({
            let device = old(state)@.core.devices.random;
            &&& data@ == device.reply@.take(
                bytes::min_nat(device.reply_len as nat, n as nat) as int,
            )
            &&& final(state)@ == old(state)@.with_random(device.without_request())
        }),
{
    let staged: usize = state.core.devices.random.reply_len as usize;
    let k: usize = if staged <= n { staged } else { n };
    let data: Vec<u8> = slice_to_vec(&state.core.devices.random.reply, 0, k);
    assert(data@ =~= state@.core.devices.random.reply@.take(k as int));
    state.core.devices.random.clear_request();
    data
}

/// Handle a request for random bytes.
fn get_random<C: VmContext>(ctx: &mut C, allocator: &mut PagePool) -> (r: ExitHandlerResult)
    requires
        old(ctx).wf(),
    ensures
        final(ctx).wf(),
        final(ctx).child_count() == old(ctx).child_count(),
        (final(ctx).vm(), final(allocator).frames@, r) == old(ctx).vm().hypercall_random(
            old(allocator).frames@,
        ),
{
    reveal(VmView::hypercall_random);
    let asked: u64 = ctx.state().core.gprs.rcx;
    let n: usize = if asked <= RANDOM_REPLY_MAX as u64 { asked as usize } else { RANDOM_REPLY_MAX };
    let mode: RdrandMode = ctx.state().core.devices.random.mode;
    match mode {
        RdrandMode::SeededRng => {
            let data: Vec<u8> = take_seeded(ctx.state_mut(), n);
            serve_random_bytes(ctx, allocator, &data)
        },
        RdrandMode::ExitToUserspace => {
            if ctx.state().core.devices.random.needs_get_random_exit() {
                ask_for_random(ctx.state_mut(), n);
                return ExitHandlerResult::ExitToUserspace(ExitReason::VmcallGetRandom);
            }
            let data: Vec<u8> = take_random_reply(ctx.state_mut(), n);
            serve_random_bytes(ctx, allocator, &data)
        },
    }
}

/// Handle a hypercall.
pub fn handle_vmcall<C: VmContext>(ctx: &mut C, allocator: &mut PagePool) -> (r: ExitHandlerResult)
    requires
        old(ctx).wf(),
    ensures
        final(ctx).wf(),
        final(ctx).child_count() == old(ctx).child_count(),
        (final(ctx).vm(), final(allocator).frames@, r) == old(ctx).vm().vmcall(
            old(allocator).frames@,
        ),
{
    reveal(VmView::vmcall);
    reveal(VmView::hypercall_pebs_page);
    let nr: u64 = ctx.state().core.gprs.rax;
    if nr == HYPERCALL_SHUTDOWN {
        shutdown(ctx.state_mut())
    } else if nr == HYPERCALL_SNAPSHOT {
        snapshot(ctx.state_mut())
    } else if nr == HYPERCALL_READY {
        complete(ctx.state_mut(), ExitHandlerResult::ExitToUserspace(ExitReason::VmcallReady))
    } else if nr == HYPERCALL_REGISTER_FEEDBACK_BUFFER {
        register_feedback_buffer(ctx)
    } else if nr == HYPERCALL_REGISTER_PEBS_PAGE {
        let page_va: u64 = ctx.state().core.gprs.rbx;
        let result: RegisterPebsPageResult = register_pebs_page(ctx, page_va);
        reply(
            ctx.state_mut(),
            result.as_u64(),
            ExitHandlerResult::ExitToUserspace(ExitReason::VmcallPebsPage),
        )
    } else if nr == HYPERCALL_FILE_FETCH {
        reply(
            ctx.state_mut(),
            0,
            ExitHandlerResult::ExitToUserspace(ExitReason::VmcallFileFetch),
        )
    } else if nr == HYPERCALL_FILE_STORE {
        reply(
            ctx.state_mut(),
            0,
            ExitHandlerResult::ExitToUserspace(ExitReason::VmcallFileStore),
        )
    } else if nr == HYPERCALL_IO_REGISTER_PAGE {
        register_io_page(ctx, allocator)
    } else if nr == HYPERCALL_IO_GET_REQUEST {
        get_io_request(ctx)
    } else if nr == HYPERCALL_IO_PUT_RESPONSE {
        put_io_response(ctx)
    } else if nr == HYPERCALL_SERIAL_REGISTER_PAGE {
        register_console_page(ctx)
    } else if nr == HYPERCALL_SERIAL_WRITE {
        write_console(ctx)
    } else if nr == HYPERCALL_GET_RANDOM {
        get_random(ctx, allocator)
    } else {
        ExitHandlerResult::ExitToUserspace(ExitReason::Vmcall)
    }
}

/// An unknown hypercall changes nothing.
pub proof fn unknown_hypercall_changes_nothing(vm: VmView, frames: Seq<(u64, u64)>)
    requires
        vm.state.core.gprs.rax > HYPERCALL_FILE_STORE,
    ensures
        vm.vmcall(frames) == (vm, frames, ExitHandlerResult::ExitToUserspace(ExitReason::Vmcall)),
{
    reveal(VmView::vmcall);
}

/// A waiting request that is fetched stands on the channel page, its length in
/// RAX, and the next one takes its place.
pub proof fn fetched_request_reaches_guest(vm: VmView)
    requires
        vm.mem.wf(),
        vm.state.io_channel.page_gpa != 0,
        vm.state.io_channel.request.len() > 0,
        vm.mem.put_chunks(vm.state.io_channel.page_gpa as int, vm.state.io_channel.request).1,
    ensures
        ({
            let chan = vm.state.io_channel;
            let after = vm.hypercall_io_request().0;
            &&& after.mem.bytes_at(chan.page_gpa as int, chan.request.len()) == chan.request
            &&& after.state.core.gprs.rax == chan.request.len() as u64
            &&& after.state.io_channel == chan.consume()
        }),
{
    reveal(VmView::hypercall_io_request);
    reveal(VmStateView::reply);
    reveal(VmStateView::complete);
    chunks::chunks_then_read(
        vm.mem,
        vm.state.io_channel.page_gpa as int,
        vm.state.io_channel.request,
    );
}

/// The error code for a buffer that cannot be registered: of its size, its
/// identifier's length, the identifier and the buffer, the first that is at
/// fault decides.
pub open spec fn buffer_refusal(vm: VmView) -> Option<u64> {
    let g = vm.state.core.gprs;
    if g.rcx == 0 || g.rcx > FEEDBACK_BUFFER_SLOT_SIZE {
        Some(FB_ERR_BAD_SIZE)
    } else if g.rsi == 0 || g.rsi > FEEDBACK_BUFFER_ID_MAX_LEN {
        Some(FB_ERR_BAD_ID_LEN)
    } else if vm.read_linear(g.rdx, g.rsi as nat) is None {
        Some(FB_ERR_ID_NOT_RESIDENT)
    } else if !buffer_resident(vm, g.rbx, g.rcx) {
        Some(FB_ERR_BUFFER_NOT_RESIDENT)
    } else {
        None
    }
}

/// A refused hypercall answers with its error code in RAX and registers nothing.
pub proof fn refused_buffer_is_not_registered(vm: VmView)
    requires
        buffer_refusal(vm) is Some,
    ensures
        ({
            let after = vm.hypercall_feedback_buffer().0;
            &&& after.state.feedback_buffers == vm.state.feedback_buffers
            &&& after.state.core.gprs.rax == buffer_refusal(vm)->0
            &&& after.mem == vm.mem
        }),
{
    reveal(VmView::hypercall_feedback_buffer);
    reveal(VmStateView::reply);
    reveal(VmStateView::complete);
}

/// A registered buffer is found in the slot that RAX names, and the slots
/// before it keep their buffers.
pub proof fn registered_buffer_is_found(vm: VmView)
    requires
        buffer_refusal(vm) is None,
        vm.state.feedback_buffers.len() <= u64::MAX,
    ensures
        ({
            let g = vm.state.core.gprs;
            let after = vm.hypercall_feedback_buffer().0.state;
            let slot = after.core.gprs.rax as int;
            &&& slot == vm.state.feedback_buffers.len()
            &&& after.feedback_buffers.len() == slot + 1
            &&& after.feedback_buffers[slot] == buffer_info(
                vm,
                g.rbx,
                g.rcx,
                vm.read_linear(g.rdx, g.rsi as nat)->0,
            )
            &&& after.feedback_buffers.take(slot) == vm.state.feedback_buffers
        }),
{
    reveal(VmView::hypercall_feedback_buffer);
    reveal(VmStateView::reply);
    reveal(VmStateView::complete);
    let after = vm.hypercall_feedback_buffer().0.state;
    assert(after.feedback_buffers.take(vm.state.feedback_buffers.len() as int)
        =~= vm.state.feedback_buffers);
}

/// What is registered: the table holds the buffer's pages, and the identifier field
/// the identifier, with zeros behind either.
pub proof fn registered_buffer_is_exact(vm: VmView, gva: u64, size: u64, id: Seq<u8>)
    ensures
        ({
            let info = buffer_info(vm, gva, size, id);
            &&& info.gpas@ == buffer_pages(vm, gva, size)
            &&& info.id@ == bytes::overwrite(bytes::zeros(128), 0, id)
        }),
{
    let pages: [u64; 256] = bytes::array_of(buffer_pages(vm, gva, size), 256);
    let field: [u8; 128] = bytes::array_of(bytes::overwrite(bytes::zeros(128), 0, id), 128);
    assert(pages@ == buffer_pages(vm, gva, size));
    assert(field@ == bytes::overwrite(bytes::zeros(128), 0, id));
}

/// What is staged for the console: the given bytes, and behind them what was there.
pub proof fn staged_console_bytes_are_exact(state: VmStateView, data: Seq<u8>)
    ensures
        state.with_console_bytes(data).core.serial_console.pending_buf@ == bytes::overwrite(
            state.core.serial_console.pending_buf@,
            0,
            data,
        ),
{
    bytes::page_of_bytes_holds(
        bytes::overwrite(state.core.serial_console.pending_buf@, 0, data),
    );
}

} // verus!
