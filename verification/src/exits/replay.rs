//! Reproducible execution: exit handling depends on the guest alone. Two VMs
//! that differ only in what they have of their hosts - host time, statistics and
//! the places of pages - go through an exit alike.

use vstd::prelude::*;

use crate::bytes;
use crate::devices::random;
use crate::devices::random::{RandomState, RdrandMode, RANDOM_REPLY_MAX};
use crate::ept::{EptLeaf, EptPermissions};
use crate::events::stamps;
use crate::events::types::{
    EventKind, IoChannelPayload, IoChannelPhase, RandomPayload, RandomSource,
};
use crate::exit_record::EXIT_RECORD_FLAG_DETERMINISTIC;
use crate::exits::alike;
use crate::exits::ept;
use crate::exits::handler;
use crate::exits::helpers;
use crate::exits::helpers::{ExitError, ExitHandlerResult};
use crate::exits::linear;
use crate::exits::pebs;
use crate::exits::qualifications;
use crate::exits::qualifications::EptViolationQualification;
use crate::exits::reasons::ExitReason;
use crate::exits::vmcall;
use crate::feedback::{FEEDBACK_BUFFER_ID_MAX_LEN, FEEDBACK_BUFFER_SLOT_SIZE};
use crate::fields::{VmcsField32, VmcsField64};
use crate::hypercalls::{
    HYPERCALL_FILE_FETCH, HYPERCALL_FILE_STORE, HYPERCALL_GET_RANDOM, HYPERCALL_IO_GET_REQUEST,
    HYPERCALL_IO_PUT_RESPONSE, HYPERCALL_IO_REGISTER_PAGE, HYPERCALL_READY,
    HYPERCALL_REGISTER_FEEDBACK_BUFFER, HYPERCALL_REGISTER_PEBS_PAGE,
    HYPERCALL_SERIAL_REGISTER_PAGE, HYPERCALL_SERIAL_WRITE, HYPERCALL_SHUTDOWN,
    HYPERCALL_SNAPSHOT,
};
use crate::io_channel::{
    IoChannelView, SerialConsoleState, IO_CHANNEL_BUF_SIZE, SERIAL_CONSOLE_PAGE_SIZE,
};
use crate::memory;
use crate::registers::VmxContext;
use crate::traits::vm_context::VmView;
use crate::traits::vm_run::EntryTimes;
use crate::vm_state;
use crate::vm_state::{VmCore, VmStateView};
use crate::vmcs::Vmcs;

verus! {

/// The VMs differ only in what they have of their hosts; the guests see the same
/// memory.
pub open spec fn vm_alike(a: VmView, b: VmView) -> bool {
    alike::alike(a.state, b.state) && a.mem == b.mem
}

/// The same outcome in VMs that are alike.
pub open spec fn vm_alike_after(
    a: (VmView, ExitHandlerResult),
    b: (VmView, ExitHandlerResult),
) -> bool {
    vm_alike(a.0, b.0) && a.1 == b.1
}

/// The same outcome and as many pages left, in VMs that are alike.
pub open spec fn vm_alike_left<R>(
    a: (VmView, Seq<(u64, u64)>, R),
    b: (VmView, Seq<(u64, u64)>, R),
) -> bool {
    vm_alike(a.0, b.0) && a.1.len() == b.1.len() && a.2 == b.2
}

pub(crate) proof fn copy_page_alike(
    a: VmView,
    b: VmView,
    page: u64,
    fa: Seq<(u64, u64)>,
    fb: Seq<(u64, u64)>,
)
    requires
        vm_alike(a, b),
        fa.len() == fb.len(),
    ensures
        vm_alike_left(a.copy_page(page, fa), b.copy_page(page, fb)),
{
    let permissions = EptPermissions::ReadWriteExecute;
    alike::remapped(
        a.state.ept,
        b.state.ept,
        page,
        EptLeaf { hpa: fa.last().0, permissions },
        EptLeaf { hpa: fb.last().0, permissions },
    );
}

proof fn translate_alike(a: VmView, b: VmView, gva: u64)
    requires
        vm_alike(a, b),
    ensures
        a.translate(gva) == b.translate(gva),
{
    alike::reads_agree(a.state.vmcs, b.state.vmcs);
}

proof fn read_linear_alike(a: VmView, b: VmView, gva: u64, n: nat)
    requires
        vm_alike(a, b),
    ensures
        a.read_linear(gva, n) == b.read_linear(gva, n),
    decreases n,
{
    if n > 0 {
        let k = linear::within_page(gva, n);
        translate_alike(a, b, gva);
        read_linear_alike(a, b, gva.wrapping_add(k as u64), (n - k) as nat);
    }
}

proof fn write_linear_alike(
    a: VmView,
    b: VmView,
    gva: u64,
    data: Seq<u8>,
    fa: Seq<(u64, u64)>,
    fb: Seq<(u64, u64)>,
)
    requires
        vm_alike(a, b),
        fa.len() == fb.len(),
    ensures
        vm_alike_left(a.write_linear(gva, data, fa), b.write_linear(gva, data, fb)),
    decreases data.len(),
{
    if data.len() > 0 {
        let k = linear::within_page(gva, data.len());
        translate_alike(a, b, gva);
        match a.translate(gva) {
            None => {},
            Some(gpa) => {
                copy_page_alike(a, b, memory::page_of(gpa as int), fa, fb);
                let (owner_a, left_a) = a.own_page(gpa, fa);
                let (owner_b, left_b) = b.own_page(gpa, fb);
                let mem = owner_a.mem.put(gpa as int, data.take(k as int)).0;
                write_linear_alike(
                    VmView { mem, ..owner_a },
                    VmView { mem, ..owner_b },
                    gva.wrapping_add(k as u64),
                    data.skip(k as int),
                    left_a,
                    left_b,
                );
            },
        }
    }
}

proof fn reply_alike(a: VmStateView, b: VmStateView, rax: u64, done: ExitHandlerResult)
    requires
        alike::alike(a, b),
    ensures
        alike::alike_after(a.reply(rax, done), b.reply(rax, done)),
{
    reveal(VmStateView::reply);
    alike::complete_alike(a.with_rax(rax), b.with_rax(rax), done);
}

proof fn buffer_alike(a: VmView, b: VmView, gva: u64, size: u64, id: Seq<u8>)
    requires
        vm_alike(a, b),
    ensures
        vmcall::buffer_resident(a, gva, size) == vmcall::buffer_resident(b, gva, size),
        vmcall::buffer_info(a, gva, size, id) == vmcall::buffer_info(b, gva, size, id),
{
    assert forall|i: int|
        #![trigger a.translate_page(gva, i)]
        #![trigger b.translate_page(gva, i)]
        a.translate_page(gva, i) == b.translate_page(gva, i) by {
        translate_alike(a, b, ept::page_gva(gva, i));
    }
    assert(vmcall::buffer_pages(a, gva, size) =~= vmcall::buffer_pages(b, gva, size));
}

proof fn feedback_buffer_alike(a: VmView, b: VmView)
    requires
        vm_alike(a, b),
    ensures
        vm_alike_after(a.hypercall_feedback_buffer(), b.hypercall_feedback_buffer()),
{
    reveal(VmView::hypercall_feedback_buffer);
    let g = a.state.core.gprs;
    let again = ExitHandlerResult::Continue;
    if g.rcx == 0 || g.rcx > FEEDBACK_BUFFER_SLOT_SIZE {
        reply_alike(a.state, b.state, vmcall::FB_ERR_BAD_SIZE, again);
    } else if g.rsi == 0 || g.rsi > FEEDBACK_BUFFER_ID_MAX_LEN {
        reply_alike(a.state, b.state, vmcall::FB_ERR_BAD_ID_LEN, again);
    } else {
        read_linear_alike(a, b, g.rdx, g.rsi as nat);
        match a.read_linear(g.rdx, g.rsi as nat) {
            None => {
                reply_alike(a.state, b.state, vmcall::FB_ERR_ID_NOT_RESIDENT, again);
            },
            Some(id) => {
                buffer_alike(a, b, g.rbx, g.rcx, id);
                reply_alike(a.state, b.state, vmcall::FB_ERR_BUFFER_NOT_RESIDENT, again);
                let feedback_buffers = a.state.feedback_buffers.push(
                    vmcall::buffer_info(a, g.rbx, g.rcx, id),
                );
                reply_alike(
                    VmStateView { feedback_buffers, ..a.state },
                    VmStateView { feedback_buffers, ..b.state },
                    a.state.feedback_buffers.len() as u64,
                    ExitHandlerResult::ExitToUserspace(ExitReason::VmcallFeedbackBuffer),
                );
            },
        }
    }
}

proof fn pebs_page_alike(a: VmView, b: VmView)
    requires
        vm_alike(a, b),
    ensures
        vm_alike_after(a.hypercall_pebs_page(), b.hypercall_pebs_page()),
{
    reveal(VmView::hypercall_pebs_page);
    let page_va = a.state.core.gprs.rbx;
    translate_alike(a, b, page_va);
    match a.translate(page_va) {
        Some(gpa) => scratch_page_alike(a, b, (gpa - gpa % 4096) as u64),
        None => {},
    }
    let (ra, result) = a.register_pebs_page(page_va);
    let (rb, _) = b.register_pebs_page(page_va);
    reply_alike(
        ra.state,
        rb.state,
        result.code(),
        ExitHandlerResult::ExitToUserspace(ExitReason::VmcallPebsPage),
    );
}

proof fn wired_alike(a: Vmcs, b: Vmcs, list_a: u64, list_b: u64)
    requires
        alike::same_vmcs(a, b),
    ensures
        alike::same_vmcs(pebs::pebs_wired(a, list_a), pebs::pebs_wired(b, list_b)),
{
    let ctrl = VmcsField64::GuestIa32PerfGlobalCtrl;
    let list = VmcsField64::VmExitMsrLoadAddr;
    alike::reads_agree(a, b);
    if a.loaded {
        match a.get64(ctrl) {
            Ok(prev) => {
                let v = prev | pebs::PERF_GLOBAL_CTRL_FIXED_CTR0;
                alike::qword_written(a, b, ctrl, v, v);
                let ca = a.with64(ctrl, v);
                let cb = b.with64(ctrl, v);
                alike::qword_written(ca, cb, list, list_a, list_b);
                alike::dword_written(
                    ca.with64(list, list_a),
                    cb.with64(list, list_b),
                    VmcsField32::VmExitMsrLoadCount,
                    1,
                );
            },
            Err(_) => {
                alike::qword_written(a, b, list, list_a, list_b);
                alike::dword_written(
                    a.with64(list, list_a),
                    b.with64(list, list_b),
                    VmcsField32::VmExitMsrLoadCount,
                    1,
                );
            },
        }
    }
}

proof fn scratch_page_alike(a: VmView, b: VmView, gpa: u64)
    requires
        vm_alike(a, b),
    ensures
        vm_alike(a.register_pebs_gpa(gpa).0, b.register_pebs_gpa(gpa).0),
        a.register_pebs_gpa(gpa).1 == b.register_pebs_gpa(gpa).1,
{
    let permissions = EptPermissions::ReadExecute;
    let hpa_a = a.state.ept.lookup(gpa)->0.hpa;
    let hpa_b = b.state.ept.lookup(gpa)->0.hpa;
    alike::remapped(
        a.state.ept,
        b.state.ept,
        gpa,
        EptLeaf { hpa: hpa_a, permissions },
        EptLeaf { hpa: hpa_b, permissions },
    );
    wired_alike(
        a.state.vmcs,
        b.state.vmcs,
        a.state.host.pages.pebs_exit_msr_load_page.phys,
        b.state.host.pages.pebs_exit_msr_load_page.phys,
    );
}

proof fn io_page_alike(a: VmView, b: VmView, fa: Seq<(u64, u64)>, fb: Seq<(u64, u64)>)
    requires
        vm_alike(a, b),
        fa.len() == fb.len(),
    ensures
        vm_alike_left(a.hypercall_io_page(fa), b.hypercall_io_page(fb)),
{
    reveal(VmView::hypercall_io_page);
    let va = a.state.core.gprs.rbx;
    let done = ExitHandlerResult::ExitToUserspace(ExitReason::VmcallIoRegisterPage);
    translate_alike(a, b, va);
    match a.translate(va) {
        Some(gpa) if va & 0xFFF == 0 => {
            let io_channel = IoChannelView {
                page_gpa: gpa,
                request_delivered: false,
                response: Seq::empty(),
                ..a.state.io_channel
            };
            let ra = a.with_state(VmStateView { io_channel, ..a.state });
            let rb = b.with_state(VmStateView { io_channel, ..b.state });
            copy_page_alike(ra, rb, memory::page_of(gpa as int), fa, fb);
            reply_alike(
                ra.copy_io_page(fa).0.state,
                rb.copy_io_page(fb).0.state,
                0,
                done,
            );
        },
        _ => {
            reply_alike(a.state, b.state, vmcall::HYPERCALL_FAILED, done);
        },
    }
}

proof fn io_request_alike(a: VmView, b: VmView)
    requires
        vm_alike(a, b),
    ensures
        vm_alike_after(a.hypercall_io_request(), b.hypercall_io_request()),
{
    reveal(VmView::hypercall_io_request);
    let chan = a.state.io_channel;
    let again = ExitHandlerResult::Continue;
    reply_alike(a.state, b.state, vmcall::HYPERCALL_FAILED, again);
    reply_alike(a.state, b.state, 0, again);
    reply_alike(
        VmStateView { io_channel: chan.consume(), ..a.state },
        VmStateView { io_channel: chan.consume(), ..b.state },
        chan.request.len() as u64,
        again,
    );
}

proof fn io_response_alike(a: VmView, b: VmView)
    requires
        vm_alike(a, b),
    ensures
        vm_alike_after(a.hypercall_io_response(), b.hypercall_io_response()),
{
    reveal(VmView::hypercall_io_response);
    reveal(VmStateView::hypercall_response_captured);
    let chan = a.state.io_channel;
    let n = bytes::min_nat(a.state.core.gprs.rbx as nat, IO_CHANNEL_BUF_SIZE as nat);
    let copied = a.mem.readable_chunks(chan.page_gpa as int, n);
    let data = a.mem.bytes_at(chan.page_gpa as int, copied);
    let ca = a.state.with_response(data);
    let cb = b.state.with_response(data);
    let done = ExitHandlerResult::ExitToUserspace(ExitReason::VmcallIoResponse);
    reply_alike(ca, cb, 0, done);
    alike::io_channel_event_alike(
        ca.reply(0, done).0,
        cb.reply(0, done).0,
        IoChannelPayload { phase: IoChannelPhase::Response.spec_as_u8(), target_tsc: 0 },
    );
    reply_alike(a.state, b.state, vmcall::HYPERCALL_FAILED, done);
    let partial = bytes::overwrite(chan.response, 0, data);
    reply_alike(
        a.state.with_response(partial),
        b.state.with_response(partial),
        vmcall::HYPERCALL_FAILED,
        done,
    );
}

proof fn console_alike(a: VmStateView, b: VmStateView, len: nat)
    requires
        alike::alike(a, b),
    ensures
        alike::alike_after(a.hypercall_console_staged(len), b.hypercall_console_staged(len)),
{
    reveal(VmStateView::hypercall_console_staged);
    reply_alike(a, b, 0, ExitHandlerResult::Continue);
    let ra = a.reply(0, ExitHandlerResult::Continue).0;
    let rb = b.reply(0, ExitHandlerResult::Continue).0;
    alike::flush_alike(ra, rb);
    alike::append_alike(
        ra.event_flush_serial_line().0,
        rb.event_flush_serial_line().0,
        EventKind::Serial,
        ra.core.serial_console.pending_buf@.take(
            bytes::min_nat(len, SERIAL_CONSOLE_PAGE_SIZE as nat) as int,
        ),
    );
}

proof fn console_write_alike(a: VmView, b: VmView)
    requires
        vm_alike(a, b),
    ensures
        vm_alike_after(a.hypercall_console_write(), b.hypercall_console_write()),
{
    reveal(VmView::hypercall_console_write);
    let c = a.state.core;
    let n = bytes::min_nat(c.gprs.rbx as nat, SERIAL_CONSOLE_PAGE_SIZE as nat);
    let page_gpa = c.serial_console.page_gpa as int;
    let data = a.mem.bytes_at(page_gpa, a.mem.readable_chunks(page_gpa, n));
    let again = ExitHandlerResult::Continue;
    console_alike(a.state.with_console_bytes(data), b.state.with_console_bytes(data), n);
    reply_alike(a.state, b.state, vmcall::HYPERCALL_FAILED, again);
    reply_alike(
        a.state.with_console_bytes(data),
        b.state.with_console_bytes(data),
        vmcall::HYPERCALL_FAILED,
        again,
    );
}

proof fn random_bytes_alike(
    a: VmView,
    b: VmView,
    data: Seq<u8>,
    fa: Seq<(u64, u64)>,
    fb: Seq<(u64, u64)>,
)
    requires
        vm_alike(a, b),
        fa.len() == fb.len(),
    ensures
        vm_alike_left(a.serve_random_bytes(data, fa), b.serve_random_bytes(data, fb)),
{
    reveal(VmView::serve_random_bytes);
    let g = a.state.core.gprs;
    write_linear_alike(a, b, g.rbx, data, fa, fb);
    let wa = a.write_linear(g.rbx, data, fa).0.state;
    let wb = b.write_linear(g.rbx, data, fb).0.state;
    let payload = RandomPayload {
        value: 0,
        pid: g.rdx as u32,
        source: RandomSource::GetRandom.spec_as_u8(),
        width: 0,
    };
    alike::randomness_alike(wa, wb, payload, data);
    reply_alike(
        wa.emit_randomness(payload, data),
        wb.emit_randomness(payload, data),
        data.len() as u64,
        ExitHandlerResult::Continue,
    );
    reply_alike(wa, wb, vmcall::HYPERCALL_FAILED, ExitHandlerResult::Continue);
}

proof fn random_hypercall_alike(a: VmView, b: VmView, fa: Seq<(u64, u64)>, fb: Seq<(u64, u64)>)
    requires
        vm_alike(a, b),
        fa.len() == fb.len(),
    ensures
        vm_alike_left(a.hypercall_random(fa), b.hypercall_random(fb)),
{
    reveal(VmView::hypercall_random);
    let g = a.state.core.gprs;
    let device = a.state.core.devices.random;
    let n = bytes::min_nat(g.rcx as nat, RANDOM_REPLY_MAX as nat);
    match device.mode {
        RdrandMode::SeededRng => {
            let drawn = RandomState {
                seed: random::xorshift64_nth(device.seed, (n + 7) / 8),
                ..device
            };
            random_bytes_alike(
                a.with_state(a.state.with_random(drawn)),
                b.with_state(b.state.with_random(drawn)),
                random::seeded_bytes(device.seed, n),
                fa,
                fb,
            );
        },
        RdrandMode::ExitToUserspace => {
            let served = device.without_request();
            random_bytes_alike(
                a.with_state(a.state.with_random(served)),
                b.with_state(b.state.with_random(served)),
                device.reply@.take(bytes::min_nat(device.reply_len as nat, n) as int),
                fa,
                fb,
            );
        },
    }
}

proof fn console_page_alike(a: VmView, b: VmView)
    requires
        vm_alike(a, b),
    ensures
        vm_alike_after(a.hypercall_console_page(), b.hypercall_console_page()),
{
    reveal(VmView::hypercall_console_page);
    let va = a.state.core.gprs.rbx;
    let c = a.state.core;
    let again = ExitHandlerResult::Continue;
    translate_alike(a, b, va);
    match a.translate(va) {
        Some(gpa) if va & 0xFFF == 0 => {
            let core = VmCore {
                serial_console: SerialConsoleState { page_gpa: gpa, ..c.serial_console },
                ..c
            };
            reply_alike(a.state.with_core(core), b.state.with_core(core), 0, again);
        },
        _ => {
            reply_alike(a.state, b.state, vmcall::HYPERCALL_FAILED, again);
        },
    }
}

proof fn last_words_alike(a: VmStateView, b: VmStateView)
    requires
        alike::alike(a, b),
    ensures
        alike::alike_after(a.hypercall_shutdown(), b.hypercall_shutdown()),
        alike::alike_after(a.hypercall_snapshot(), b.hypercall_snapshot()),
{
    reveal(VmStateView::hypercall_shutdown);
    reveal(VmStateView::hypercall_snapshot);
    alike::shutdown_alike(a, b);
    let sa = a.capture_exit_at_shutdown();
    let sb = b.capture_exit_at_shutdown();
    alike::flush_alike(sa, sb);
    alike::complete_alike(
        sa.event_flush_serial_line().0,
        sb.event_flush_serial_line().0,
        ExitHandlerResult::ExitToUserspace(ExitReason::VmcallShutdown),
    );
    alike::snapshot_alike(a, b);
    alike::complete_alike(
        a.capture_exit_at_snapshot(),
        b.capture_exit_at_snapshot(),
        ExitHandlerResult::ExitToUserspace(ExitReason::VmcallSnapshot),
    );
}

proof fn vmcall_alike(a: VmView, b: VmView, fa: Seq<(u64, u64)>, fb: Seq<(u64, u64)>)
    requires
        vm_alike(a, b),
        fa.len() == fb.len(),
    ensures
        vm_alike_left(a.vmcall(fa), b.vmcall(fb)),
{
    reveal(VmView::vmcall);
    let nr = a.state.core.gprs.rax;
    if nr == HYPERCALL_IO_REGISTER_PAGE {
        io_page_alike(a, b, fa, fb);
    } else if nr == HYPERCALL_GET_RANDOM {
        random_hypercall_alike(a, b, fa, fb);
    } else if nr == HYPERCALL_SHUTDOWN || nr == HYPERCALL_SNAPSHOT {
        last_words_alike(a.state, b.state);
    } else if nr == HYPERCALL_READY {
        alike::complete_alike(
            a.state,
            b.state,
            ExitHandlerResult::ExitToUserspace(ExitReason::VmcallReady),
        );
    } else if nr == HYPERCALL_REGISTER_FEEDBACK_BUFFER {
        feedback_buffer_alike(a, b);
    } else if nr == HYPERCALL_REGISTER_PEBS_PAGE {
        pebs_page_alike(a, b);
    } else if nr == HYPERCALL_FILE_FETCH {
        reply_alike(
            a.state,
            b.state,
            0,
            ExitHandlerResult::ExitToUserspace(ExitReason::VmcallFileFetch),
        );
    } else if nr == HYPERCALL_FILE_STORE {
        reply_alike(
            a.state,
            b.state,
            0,
            ExitHandlerResult::ExitToUserspace(ExitReason::VmcallFileStore),
        );
    } else if nr == HYPERCALL_IO_GET_REQUEST {
        io_request_alike(a, b);
    } else if nr == HYPERCALL_IO_PUT_RESPONSE {
        io_response_alike(a, b);
    } else if nr == HYPERCALL_SERIAL_REGISTER_PAGE {
        console_page_alike(a, b);
    } else if nr == HYPERCALL_SERIAL_WRITE {
        console_write_alike(a, b);
    }
}

proof fn ept_violation_alike(
    a: VmView,
    b: VmView,
    qual: EptViolationQualification,
    fa: Seq<(u64, u64)>,
    fb: Seq<(u64, u64)>,
    delegated: Option<ExitHandlerResult>,
)
    requires
        vm_alike(a, b),
        fa.len() == fb.len(),
    ensures
        vm_alike_left(
            a.ept_violation(qual, fa, delegated),
            b.ept_violation(qual, fb, delegated),
        ),
{
    reveal(VmView::ept_violation);
    alike::reads_agree(a.state.vmcs, b.state.vmcs);
    let gpa = vm_state::qword_or_zero(a.state.vmcs, VmcsField64::GuestPhysicalAddr);
    copy_page_alike(a, b, memory::page_of(gpa as int), fa, fb);
}

proof fn dispatch_alike(
    a: VmView,
    b: VmView,
    reason: ExitReason,
    qual: u64,
    fa: Seq<(u64, u64)>,
    fb: Seq<(u64, u64)>,
    delegated: Option<ExitHandlerResult>,
)
    requires
        vm_alike(a, b),
        fa.len() == fb.len(),
    ensures
        vm_alike_left(
            a.dispatch(reason, qual, fa, delegated),
            b.dispatch(reason, qual, fb, delegated),
        ),
{
    reveal(VmView::dispatch);
    if handler::is_delegated(reason) && delegated is Some {
    } else if reason == ExitReason::EptViolation {
        ept_violation_alike(a, b, qualifications::decode_ept(qual), fa, fb, delegated);
    } else if reason == ExitReason::Vmcall {
        vmcall_alike(a, b, fa, fb);
    } else {
        alike::state_exit_alike(a.state, b.state, reason, qual);
    }
}

/// The guest runs the same on any host. If two VMs differ only in what they have
/// of their hosts, and as many pages are free for either, then the same exit
/// has the same outcome in both, takes as many pages, and leaves them with the
/// same guest: registers, devices, memory and events but for their host stamps.
/// Neither the host's clock nor the time that the handler took shows.
pub proof fn exit_depends_on_guest_only(
    a: VmView,
    b: VmView,
    fa: Seq<(u64, u64)>,
    fb: Seq<(u64, u64)>,
    delegated: Option<ExitHandlerResult>,
    cycles_a: u64,
    cycles_b: u64,
)
    requires
        vm_alike(a, b),
        fa.len() == fb.len(),
    ensures
        vm_alike_left(
            a.handle_exit(fa, delegated, cycles_a),
            b.handle_exit(fb, delegated, cycles_b),
        ),
{
    alike::reads_agree(a.state.vmcs, b.state.vmcs);
    match (
        helpers::exit_reason(a.state.vmcs),
        helpers::exit_qualification(a.state.vmcs),
    ) {
        (Ok(reason), Ok(qual)) => {
            let deterministic = a.state.exit_is_deterministic(reason, qual);
            assert(a.state.io_channel_target() == b.state.io_channel_target());
            assert(b.state.exit_is_deterministic(reason, qual) == deterministic);
            let begun_a = a.with_state(a.state.begin_exit(deterministic));
            let begun_b = b.with_state(b.state.begin_exit(deterministic));
            assert(vm_alike(begun_a, begun_b));
            dispatch_alike(begun_a, begun_b, reason, qual, fa, fb, delegated);
            let (va, _, handled) = begun_a.dispatch(reason, qual, fa, delegated);
            let (vb, _, _) = begun_b.dispatch(reason, qual, fb, delegated);
            if handled is Ok {
                alike::end_alike(
                    va.state,
                    vb.state,
                    reason,
                    qual,
                    deterministic,
                    cycles_a,
                    cycles_b,
                    handled->Ok_0,
                );
            }
        },
        _ => {},
    }
}

/// Completing an exit record depends on the guest only.
pub proof fn record_depends_on_guest_only(a: VmView, b: VmView)
    requires
        vm_alike(a, b),
    ensures
        vm_alike(a.finalize_exit_record(), b.finalize_exit_record()),
{
    stamps::same_events_agree(a.state.events, b.state.events);
    stamps::finalize_exit_ignores_host_time(
        a.state.events,
        b.state.events,
        a.memory_hash(),
        a.cow_page_count() as u32,
    );
}

/// Draining the event buffers of both keeps them alike.
pub proof fn drain_keeps_alike(a: VmStateView, b: VmStateView)
    requires
        alike::alike(a, b),
    ensures
        alike::alike(
            (VmStateView { events: a.events.clear(), ..a }),
            (VmStateView { events: b.events.clear(), ..b }),
        ),
{
    stamps::clear_ignores_host_time(a.events, b.events);
}

/// A due I/O request is announced at the same exit on any host.
pub proof fn io_request_depends_on_guest_only(a: VmStateView, b: VmStateView)
    requires
        alike::alike(a, b),
    ensures
        alike::alike(a.check_io_channel(), b.check_io_channel()),
{
    assert(a.io_channel_due() == b.io_channel_due());
    match a.io_channel_due() {
        None => {},
        Some(vector) => {
            let core = a.core.with_request(vector);
            let io_channel = IoChannelView { request_delivered: true, ..a.io_channel };
            alike::io_channel_event_alike(
                VmStateView { core, io_channel, ..a },
                VmStateView { core, io_channel, ..b },
                IoChannelPayload {
                    phase: IoChannelPhase::Request.spec_as_u8(),
                    target_tsc: a.io_channel.request_target_tsc,
                },
            );
        },
    }
}

/// Precise exits are armed for the same instruction on any host.
pub proof fn arming_depends_on_guest_only(a: VmStateView, b: VmStateView)
    requires
        alike::alike(a, b),
    ensures
        alike::alike(a.armed_for_next_iteration(), b.armed_for_next_iteration()),
{
    reveal(VmStateView::precise_target);
    assert(a.io_channel_target() == b.io_channel_target());
    assert(a.precise_target() == b.precise_target());
}

/// The entry code left the same guest registers.
pub open spec fn same_registers(a: VmxContext, b: VmxContext) -> bool {
    a == (VmxContext {
        guest_xsave_ptr: a.guest_xsave_ptr,
        host_xsave_ptr: a.host_xsave_ptr,
        launched: a.launched,
        ..b
    })
}

/// Going through the run loop keeps VMs alike, whatever their hosts' clocks show:
/// both are entered with the same registers, and after a guest that retired as
/// many instructions and left the same registers they are alike again.
pub proof fn loop_depends_on_guest_only(
    a: VmStateView,
    b: VmStateView,
    start: (u64, u64),
    end: (u64, u64),
    kernel_gs_base: u64,
    count: u64,
    times: (EntryTimes, EntryTimes),
)
    requires
        alike::alike(a, b),
    ensures
        alike::alike(a.readied(start.0, end.0), b.readied(start.1, end.1)),
        same_registers(
            a.readied(start.0, end.0).host.vmx_ctx,
            b.readied(start.1, end.1).host.vmx_ctx,
        ),
        alike::alike(
            a.left_guest(kernel_gs_base, start.0, end.0),
            b.left_guest(kernel_gs_base, start.1, end.1),
        ),
        alike::alike(a.noted(count, times.0), b.noted(count, times.1)),
        same_registers(a.host.vmx_ctx, b.host.vmx_ctx) ==> alike::alike(
            a.resumed(times.0),
            b.resumed(times.1),
        ),
        alike::alike(a.iterated(start.0, end.0), b.iterated(start.1, end.1)),
{
    assert(a.synced_from_vmx_ctx().core.gprs == b.synced_from_vmx_ctx().core.gprs || !same_registers(
        a.host.vmx_ctx,
        b.host.vmx_ctx,
    ));
}

/// What the guest can observe of its VM's state.
pub open spec fn guest_sees(a: VmStateView, b: VmStateView) -> bool {
    &&& a.io_channel == b.io_channel
    &&& a.feedback_buffers == b.feedback_buffers
    &&& a.vmcs.naturals == b.vmcs.naturals
    &&& a.core.gprs == b.core.gprs
    &&& a.core.devices == b.core.devices
    &&& a.core.msr_state == b.core.msr_state
    &&& a.core.emulated_tsc == b.core.emulated_tsc
    &&& a.core.tsc_offset == b.core.tsc_offset
    &&& a.core.serial_console == b.core.serial_console
}

proof fn record_is_unseen(state: VmStateView, reason: ExitReason, qual: u64, flags: u32)
    ensures
        guest_sees(state, state.write_exit_record(reason, qual, flags)),
{
    reveal(VmStateView::write_exit_record);
}

proof fn capture_is_unseen(state: VmStateView, reason: ExitReason, qual: u64, deterministic: bool)
    ensures
        guest_sees(state, state.capture_exit(reason, qual, deterministic)),
{
    reveal(VmStateView::capture_exit);
    record_is_unseen(
        VmStateView { core: state.core.after_capture(), ..state },
        reason,
        qual,
        if deterministic { EXIT_RECORD_FLAG_DETERMINISTIC } else { 0 },
    );
}

/// A host interrupt leaves no trace in the guest: whenever it strikes, registers,
/// time, devices, channels and memory stay as they were.
pub proof fn host_interrupts_are_invisible(
    vm: VmView,
    frames: Seq<(u64, u64)>,
    delegated: Option<ExitHandlerResult>,
    cycles: u64,
)
    requires
        helpers::exit_reason(vm.state.vmcs) == Ok::<ExitReason, ExitError>(
            ExitReason::ExternalInterrupt,
        ),
    ensures
        ({
            let (after, left, _) = vm.handle_exit(frames, delegated, cycles);
            &&& left == frames
            &&& after.mem == vm.mem
            &&& guest_sees(vm.state, after.state)
        }),
{
    reveal(VmStateView::state_exit);
    reveal(VmStateView::simple_exit);
    match helpers::exit_qualification(vm.state.vmcs) {
        Err(_) => {},
        Ok(qual) => {
            let reason = ExitReason::ExternalInterrupt;
            let begun = vm.state.begin_exit(false);
            assert(vm.with_state(begun).dispatch(reason, qual, frames, delegated) == (
                vm.with_state(begun),
                frames,
                Ok::<ExitHandlerResult, ExitError>(ExitHandlerResult::Continue),
            )) by {
                reveal(VmView::dispatch);
            }
            let counted = begun.count_exit(reason, false, cycles);
            let updated = counted.update_mtf().0;
            assert(guest_sees(vm.state, updated));
            capture_is_unseen(updated, reason, qual, false);
            reveal(VmStateView::end_exit);
        },
    }
}

} // verus!
