//! The deterministic hypervisor-to-guest I/O channel and the paravirtual
//! console page.

use vstd::prelude::*;

use crate::bytes;
use crate::bytes::copy_into_page;
use crate::compat::{heap_vec_push, heap_vec_remove_front};

verus! {

/// Size of the I/O channel's shared page.
pub const IO_CHANNEL_BUF_SIZE: usize = 4096;

/// Maximum number of requests that wait for the in-flight slot.
pub const PENDING_IO_QUEUE_CAP: usize = 256;

/// Size of the console's shared page; one write emits at most this many bytes.
pub const SERIAL_CONSOLE_PAGE_SIZE: usize = 4096;

/// One request that waits for the in-flight slot.
pub struct PendingIoAction {
    /// Earliest emulated TSC at which the request may fire.
    pub target_tsc: u64,
    /// Request bytes as the guest will see them.
    pub data: Vec<u8>,
}

/// What a [`PendingIoAction`] holds.
#[verifier::ext_equal]
pub struct PendingIoActionView {
    pub target_tsc: u64,
    pub data: Seq<u8>,
}

impl View for PendingIoAction {
    type V = PendingIoActionView;

    open spec fn view(&self) -> PendingIoActionView {
        PendingIoActionView { target_tsc: self.target_tsc, data: self.data@ }
    }
}

/// Outcome of queueing a request.
#[derive(Debug, Clone, Copy, PartialEq, Eq, Structural)]
pub enum EnqueueResult {
    /// The request was queued.
    Queued,
    /// The queue is at capacity.
    Full,
    /// Memory ran out.
    OutOfMemory,
}

/// State of the I/O channel.
pub struct IoChannelState {
    /// Guest-physical address of the shared page; zero until registered.
    pub page_gpa: u64,
    /// Length of the request in flight; zero while the slot is free.
    pub request_len: usize,
    /// The interrupt for the request in flight has been delivered.
    pub request_delivered: bool,
    /// Earliest emulated TSC at which the request in flight may be delivered;
    /// zero means as soon as possible.
    pub request_target_tsc: u64,
    /// Length of the response, until userspace drains it.
    pub response_len: usize,
    /// Bytes of the request in flight.
    pub request_buf: Box<[u8; 4096]>,
    /// Bytes of the latest response.
    pub response_buf: Box<[u8; 4096]>,
    /// Requests that wait for the slot, first in first out.
    pub pending: Vec<PendingIoAction>,
}

/// What an [`IoChannelState`] holds.
#[verifier::ext_equal]
pub struct IoChannelView {
    pub page_gpa: u64,
    /// The request in flight; empty while the slot is free.
    pub request: Seq<u8>,
    pub request_delivered: bool,
    pub request_target_tsc: u64,
    /// The response that userspace has not drained.
    pub response: Seq<u8>,
    /// Waiting requests, oldest first.
    pub pending: Seq<PendingIoActionView>,
}

impl View for IoChannelState {
    type V = IoChannelView;

    open spec fn view(&self) -> IoChannelView {
        IoChannelView {
            page_gpa: self.page_gpa,
            request: self.request_buf@.subrange(0, self.request_len as int),
            request_delivered: self.request_delivered,
            request_target_tsc: self.request_target_tsc,
            response: self.response_buf@.subrange(0, self.response_len as int),
            pending: Seq::new(self.pending@.len(), |i: int| self.pending@[i]@),
        }
    }
}

impl IoChannelView {
    /// A channel with the given page and nothing in flight.
    pub open spec fn idle(page_gpa: u64) -> Self {
        IoChannelView {
            page_gpa,
            request: Seq::empty(),
            request_delivered: false,
            request_target_tsc: 0,
            response: Seq::empty(),
            pending: Seq::empty(),
        }
    }

    /// The channel after the oldest waiting request has moved into the slot,
    /// if the slot is free and one waits.
    pub open spec fn promote(self) -> Self {
        if self.request.len() != 0 || self.pending.len() == 0 {
            self
        } else {
            let next = self.pending[0];
            IoChannelView {
                request: next.data.take(
                    bytes::min_nat(next.data.len(), IO_CHANNEL_BUF_SIZE as nat) as int,
                ),
                request_delivered: false,
                request_target_tsc: next.target_tsc,
                response: Seq::empty(),
                pending: self.pending.remove(0),
                ..self
            }
        }
    }

    /// The channel after a request has been queued, and the outcome.
    pub open spec fn enqueue(self, action: PendingIoActionView) -> (Self, EnqueueResult) {
        if self.pending.len() >= PENDING_IO_QUEUE_CAP {
            (self, EnqueueResult::Full)
        } else {
            (
                IoChannelView { pending: self.pending.push(action), ..self },
                EnqueueResult::Queued,
            )
        }
    }

    /// The channel after the guest has fetched the request in flight.
    pub open spec fn consume(self) -> Self {
        IoChannelView {
            request: Seq::empty(),
            request_delivered: false,
            request_target_tsc: 0,
            ..self
        }.promote()
    }
}

impl IoChannelState {
    /// Lengths stay within the buffers and the queue within its capacity.
    pub open spec fn wf(&self) -> bool {
        &&& self.request_len <= IO_CHANNEL_BUF_SIZE
        &&& self.response_len <= IO_CHANNEL_BUF_SIZE
        &&& self.pending@.len() <= PENDING_IO_QUEUE_CAP
    }

    /// An unregistered channel with nothing in flight.
    pub fn new() -> (r: Self)
        ensures
            r.wf(),
            r@ == IoChannelView::idle(0),
    {
        IoChannelState::idle(0)
    }

    fn idle(page_gpa: u64) -> (r: Self)
        ensures
            r.wf(),
            r@ == IoChannelView::idle(page_gpa),
    {
        let r = IoChannelState {
            page_gpa,
            request_len: 0,
            request_delivered: false,
            request_target_tsc: 0,
            response_len: 0,
            request_buf: Box::new([0u8; 4096]),
            response_buf: Box::new([0u8; 4096]),
            pending: Vec::new(),
        };
        assert(r@ =~= IoChannelView::idle(page_gpa));
        r
    }

    /// The channel of a forked child: the page registration is inherited,
    /// requests and responses are not.
    pub fn clone_for_fork(parent: &Self) -> (r: Self)
        ensures
            r.wf(),
            r@ == IoChannelView::idle(parent@.page_gpa),
    {
        IoChannelState::idle(parent.page_gpa)
    }

    /// Move the oldest waiting request into the slot, if the slot is free.
    pub fn promote_next_pending(&mut self)
        requires
            old(self).wf(),
        ensures
            final(self).wf(),
            final(self)@ == old(self)@.promote(),
            final(self).response_buf == old(self).response_buf,
            old(self).request_len != 0 || old(self)@.pending.len() == 0 ==> final(self).request_buf
                == old(self).request_buf,
    {
        if self.request_len != 0 {
            return;
        }
        let ghost before = self@;
        match heap_vec_remove_front(&mut self.pending) {
            None => {},
            Some(next) => {
                let len: usize = if next.data.len() <= IO_CHANNEL_BUF_SIZE {
                    next.data.len()
                } else {
                    IO_CHANNEL_BUF_SIZE
                };
                copy_into_page(&mut *self.request_buf, 0, next.data.as_slice(), 0, len);
                self.request_len = len;
                self.request_target_tsc = next.target_tsc;
                self.request_delivered = false;
                self.response_len = 0;
                assert(before.pending[0] == next@);
                assert(self@ =~= before.promote());
            },
        }
    }

    /// Queue a request behind the waiting ones.
    pub fn enqueue_pending(&mut self, action: PendingIoAction) -> (r: EnqueueResult)
        requires
            old(self).wf(),
        ensures
            final(self).wf(),
            (final(self)@, r) == old(self)@.enqueue(action@),
    {
        if self.pending.len() >= PENDING_IO_QUEUE_CAP {
            return EnqueueResult::Full;
        }
        let ghost before = self@;
        match heap_vec_push(&mut self.pending, action) {
            Ok(_) => {
                assert(self@.pending =~= before.pending.push(action@));
                EnqueueResult::Queued
            },
            Err(_) => EnqueueResult::OutOfMemory,
        }
    }

    /// Free the slot after the guest fetched the request, and promote the next.
    pub fn consume_request(&mut self)
        requires
            old(self).wf(),
        ensures
            final(self).wf(),
            final(self)@ == old(self)@.consume(),
            final(self).response_buf == old(self).response_buf,
    {
        let ghost before = self@;
        self.request_len = 0;
        self.request_delivered = false;
        self.request_target_tsc = 0;
        assert(self@.request =~= Seq::<u8>::empty());
        self.promote_next_pending();
    }
}

impl Default for IoChannelState {
    fn default() -> (r: Self)
        ensures
            r.wf(),
            r@ == IoChannelView::idle(0),
    {
        IoChannelState::new()
    }
}

/// Requests reach the slot in the order they were queued: with an idle channel,
/// queueing `a` then `b` and promoting twice, with a fetch in between, delivers
/// `a` and then `b`, each with its own bytes and target.
pub proof fn requests_are_first_in_first_out(
    page_gpa: u64,
    a: PendingIoActionView,
    b: PendingIoActionView,
)
    requires
        0 < a.data.len() <= IO_CHANNEL_BUF_SIZE,
        0 < b.data.len() <= IO_CHANNEL_BUF_SIZE,
    ensures
        ({
            let queued = IoChannelView::idle(page_gpa).enqueue(a).0.enqueue(b).0;
            let first = queued.promote();
            let second = first.consume();
            &&& first.request == a.data
            &&& first.request_target_tsc == a.target_tsc
            &&& first.pending == seq![b]
            &&& second.request == b.data
            &&& second.request_target_tsc == b.target_tsc
            &&& second.pending.len() == 0
        }),
{
    let queued = IoChannelView::idle(page_gpa).enqueue(a).0.enqueue(b).0;
    assert(queued.pending =~= seq![a, b]);
    let first = queued.promote();
    assert(first.pending =~= seq![b]);
    assert(a.data.take(a.data.len() as int) =~= a.data);
    assert(b.data.take(b.data.len() as int) =~= b.data);
}

/// Promotion never disturbs a request in flight and never loses a waiting one
/// that fits the page: the slot and the queue together hold the same requests.
pub proof fn promotion_keeps_requests(c: IoChannelView)
    ensures
        c.request.len() != 0 ==> c.promote() == c,
        c.request.len() == 0 && c.pending.len() > 0 && c.pending[0].data.len() <= IO_CHANNEL_BUF_SIZE
            ==> seq![
            PendingIoActionView {
                target_tsc: c.promote().request_target_tsc,
                data: c.promote().request,
            },
        ] + c.promote().pending == c.pending,
{
    if c.request.len() == 0 && c.pending.len() > 0 && c.pending[0].data.len()
        <= IO_CHANNEL_BUF_SIZE {
        let next = c.pending[0];
        assert(next.data.take(next.data.len() as int) =~= next.data);
        assert(seq![
            PendingIoActionView {
                target_tsc: c.promote().request_target_tsc,
                data: c.promote().request,
            },
        ] + c.promote().pending =~= c.pending);
    }
}

/// State of the paravirtual batch console.
pub struct SerialConsoleState {
    /// Guest-physical address of the console page; zero until registered.
    pub page_gpa: u64,
    /// Staging buffer for the record being emitted.
    pub pending_buf: Box<[u8; 4096]>,
}

impl SerialConsoleState {
    /// A console whose page is at `page_gpa` and whose staging buffer is empty.
    pub open spec fn at(page_gpa: u64) -> Self {
        SerialConsoleState {
            page_gpa,
            pending_buf: Box::new(vstd::array::spec_array_fill_for_copy_type(0u8)),
        }
    }

    /// An unregistered console.
    pub fn new() -> (r: Self)
        ensures
            r == SerialConsoleState::at(0),
    {
        SerialConsoleState { page_gpa: 0, pending_buf: Box::new([0u8; 4096]) }
    }

    /// The console of a forked child: only the page registration is inherited.
    pub fn clone_for_fork(parent: &Self) -> (r: Self)
        ensures
            r == SerialConsoleState::at(parent.page_gpa),
    {
        SerialConsoleState { page_gpa: parent.page_gpa, pending_buf: Box::new([0u8; 4096]) }
    }
}

impl Default for SerialConsoleState {
    fn default() -> (r: Self)
        ensures
            r == SerialConsoleState::at(0),
    {
        SerialConsoleState::new()
    }
}

} // verus!
