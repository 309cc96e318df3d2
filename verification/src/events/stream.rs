//! Producer side of the event stream: an append-only buffer with a write
//! cursor, one staged record for when the buffer is full, and the line
//! accumulator of the early-boot serial port.

use vstd::prelude::*;

use crate::bytes;
use crate::bytes::{
    copy_into, copy_into_page, push_bytes, push_u16, push_u32, push_u64, slice_to_vec,
};
use crate::events::types;
use crate::events::types::{
    align_up, EventCategories, EventHeader, EventKind, EVENT_BUFFER_SIZE,
    EVENT_FLAG_DETERMINISTIC, EVENT_HEADER_SIZE,
};
use crate::exit_record::{
    EXIT_RECORD_COW_PAGE_COUNT_OFFSET, EXIT_RECORD_MEMORY_HASH_OFFSET, EXIT_RECORD_SIZE,
};

verus! {

/// Capacity of the staging buffer for the single pending record.
pub const EVENT_PENDING_CAP: usize = 4096;

/// Size of the early-boot serial line accumulator.
pub const SERIAL_LINE_ACC_SIZE: usize = 256;

/// Where the payload of the last `Exit` record lives while its memory hash is
/// still missing.
#[derive(Clone, Copy, PartialEq, Eq, Structural, Debug)]
pub enum ExitLoc {
    /// Byte offset of the payload within the event buffer.
    Buffer(usize),
    /// The record is the staged one; its payload starts the staging buffer.
    Pending,
}

/// A record that did not fit and waits for the buffer to be drained.
#[verifier::ext_equal]
pub struct PendingEvent {
    pub kind: EventKind,
    pub flags: u16,
    pub tsc: u64,
    pub real_tsc: u64,
    pub payload: Seq<u8>,
}

/// What an [`EventStream`] holds.
#[verifier::ext_equal]
pub struct EventStreamView {
    /// A buffer is attached.
    pub attached: bool,
    /// The records written since the last drain.
    pub bytes: Seq<u8>,
    /// Sequence number of the next record.
    pub seq: u64,
    /// Enabled categories.
    pub categories: EventCategories,
    /// The staged record.
    pub pending: Option<PendingEvent>,
    /// The `Exit` record that still lacks its memory hash.
    pub exit_loc: Option<ExitLoc>,
    /// Bytes of the serial line in progress.
    pub line: Seq<u8>,
    /// Emulated TSC at the first byte of that line.
    pub line_tsc: u64,
    /// Host TSC at the first byte of that line.
    pub line_real_tsc: u64,
}

impl EventStreamView {
    /// A detached stream with every category disabled.
    pub open spec fn detached() -> Self {
        EventStreamView {
            attached: false,
            bytes: Seq::empty(),
            seq: 0,
            categories: EventCategories(0),
            pending: None,
            exit_loc: None,
            line: Seq::empty(),
            line_tsc: 0,
            line_real_tsc: 0,
        }
    }

    /// The category of `kind` is enabled.
    pub open spec fn enabled(self, kind: EventKind) -> bool {
        self.categories.spec_contains(kind.spec_category())
    }

    /// A record with `n` payload bytes fits behind the cursor.
    pub open spec fn fits(self, n: nat) -> bool {
        self.bytes.len() + EVENT_HEADER_SIZE + types::pad8(n) <= EVENT_BUFFER_SIZE
    }

    /// The stream after one append, and whether the caller may go on without a
    /// drain. Filtered and unattached appends change nothing. A record that
    /// does not fit is staged, or dropped if one is staged already.
    #[verifier::opaque]
    pub open spec fn append(
        self,
        kind: EventKind,
        flags: u16,
        tsc: u64,
        real_tsc: u64,
        payload: Seq<u8>,
    ) -> (Self, bool) {
        if !self.enabled(kind) || !self.attached {
            (self, true)
        } else if self.fits(payload.len()) {
            let header = EventHeader {
                seq: self.seq,
                tsc,
                real_tsc,
                kind: kind.spec_as_u16(),
                flags,
                len: payload.len() as u32,
            };
            (
                EventStreamView {
                    bytes: self.bytes + types::encode_record(header, payload),
                    seq: self.seq.wrapping_add(1),
                    ..self
                },
                true,
            )
        } else if self.pending is None {
            let staged = PendingEvent {
                kind,
                flags,
                tsc,
                real_tsc,
                payload: payload.take(bytes::min_nat(payload.len(), EVENT_PENDING_CAP as nat) as int),
            };
            (EventStreamView { pending: Some(staged), ..self }, false)
        } else {
            (self, false)
        }
    }

    /// The stream after a drain: empty, but for the staged record, which is
    /// written again with its original stamps.
    #[verifier::opaque]
    pub open spec fn clear(self) -> Self {
        let drained = EventStreamView {
            bytes: Seq::empty(),
            pending: None,
            exit_loc: None,
            ..self
        };
        match self.pending {
            None => drained,
            Some(p) => {
                let again = drained.append(p.kind, p.flags, p.tsc, p.real_tsc, p.payload).0;
                if self.exit_loc == Some(ExitLoc::Pending) && again.bytes.len() > 0 {
                    EventStreamView {
                        exit_loc: Some(ExitLoc::Buffer(EVENT_HEADER_SIZE)),
                        ..again
                    }
                } else {
                    again
                }
            },
        }
    }

    /// The stream after the line in progress has been emitted.
    #[verifier::opaque]
    pub open spec fn flush_line(self) -> (Self, bool) {
        if self.line.len() == 0 {
            (self, true)
        } else {
            EventStreamView { line: Seq::empty(), ..self }.append(
                EventKind::Serial,
                EVENT_FLAG_DETERMINISTIC,
                self.line_tsc,
                self.line_real_tsc,
                self.line,
            )
        }
    }

    /// The stream after one early-boot serial byte.
    #[verifier::opaque]
    pub open spec fn serial_byte(self, byte: u8, tsc: u64, real_tsc: u64) -> (Self, bool) {
        if !self.enabled(EventKind::Serial) {
            (self, true)
        } else {
            let fresh = self.line.len() == 0;
            let grown = EventStreamView {
                line_tsc: if fresh { tsc } else { self.line_tsc },
                line_real_tsc: if fresh { real_tsc } else { self.line_real_tsc },
                line: if self.line.len() < SERIAL_LINE_ACC_SIZE {
                    self.line.push(byte)
                } else {
                    self.line
                },
                ..self
            };
            if byte == 0x0A || grown.line.len() == SERIAL_LINE_ACC_SIZE {
                grown.flush_line()
            } else {
                (grown, true)
            }
        }
    }

    /// The stream after an `Exit` record has been emitted, with the place of
    /// its payload remembered if the record was kept.
    #[verifier::opaque]
    pub open spec fn emit_exit(
        self,
        payload: Seq<u8>,
        deterministic: bool,
        tsc: u64,
        real_tsc: u64,
    ) -> Self {
        let fresh = EventStreamView { exit_loc: None, ..self };
        if !self.attached || !self.enabled(EventKind::Exit) {
            fresh
        } else {
            let flags = if deterministic { EVENT_FLAG_DETERMINISTIC } else { 0u16 };
            let (after, fit) = fresh.append(EventKind::Exit, flags, tsc, real_tsc, payload);
            let loc = if fit {
                Some(ExitLoc::Buffer((self.bytes.len() + EVENT_HEADER_SIZE) as usize))
            } else if self.pending is None {
                Some(ExitLoc::Pending)
            } else {
                None
            };
            EventStreamView { exit_loc: loc, ..after }
        }
    }

    /// The stream after the waiting `Exit` record got its memory hash and
    /// copy-on-write page count.
    #[verifier::opaque]
    pub open spec fn finalize_exit(self, memory_hash: u64, cow_page_count: u32) -> Self {
        match self.exit_loc {
            None => self,
            Some(ExitLoc::Buffer(off)) => EventStreamView {
                bytes: patch_exit(self.bytes, off as int, memory_hash, cow_page_count),
                exit_loc: None,
                ..self
            },
            Some(ExitLoc::Pending) => {
                let p = self.pending->0;
                EventStreamView {
                    pending: Some(
                        PendingEvent {
                            payload: patch_exit(p.payload, 0, memory_hash, cow_page_count),
                            ..p
                        },
                    ),
                    exit_loc: None,
                    ..self
                }
            },
        }
    }

    /// What every stream keeps: whole, aligned records within the buffer, a
    /// staged record within its page, and an `Exit` place that names a whole
    /// payload.
    pub open spec fn wf(self) -> bool {
        &&& self.bytes.len() <= EVENT_BUFFER_SIZE
        &&& self.bytes.len() % 8 == 0
        &&& self.line.len() <= SERIAL_LINE_ACC_SIZE
        &&& !self.attached ==> self.bytes.len() == 0 && self.pending is None && self.exit_loc is None
        &&& self.pending is Some ==> self.pending->0.payload.len() <= EVENT_PENDING_CAP
        &&& match self.exit_loc {
            None => true,
            Some(ExitLoc::Buffer(off)) => off + EXIT_RECORD_SIZE <= self.bytes.len(),
            Some(ExitLoc::Pending) => self.pending is Some && self.pending->0.kind
                == EventKind::Exit && self.pending->0.payload.len() == EXIT_RECORD_SIZE,
        }
    }
}

/// `s` with the two deferred fields of the exit record at `off` filled in.
pub open spec fn patch_exit(s: Seq<u8>, off: int, memory_hash: u64, cow_page_count: u32) -> Seq<
    u8,
> {
    bytes::overwrite(
        bytes::overwrite(s, off + EXIT_RECORD_MEMORY_HASH_OFFSET, bytes::le64(memory_hash)),
        off + EXIT_RECORD_COW_PAGE_COUNT_OFFSET,
        bytes::le32(cow_page_count),
    )
}

/// The event stream of one VM.
pub struct EventStream {
    /// The attached buffer, [`EVENT_BUFFER_SIZE`] bytes long.
    pub buffer: Option<Vec<u8>>,
    /// Write cursor; always a multiple of eight.
    pub len: usize,
    /// Sequence number of the next record.
    pub seq: u64,
    /// Enabled categories. Empty by default: the stream is opt-in.
    pub categories: EventCategories,
    /// Kind of the staged record.
    pub pending: Option<EventKind>,
    /// Payload bytes of the staged record.
    pub pending_buf: Box<[u8; 4096]>,
    /// Number of valid bytes in `pending_buf`.
    pub pending_len: usize,
    /// Header flags of the staged record.
    pub pending_flags: u16,
    /// Emulated TSC stamp of the staged record.
    pub pending_tsc: u64,
    /// Host TSC stamp of the staged record.
    pub pending_real_tsc: u64,
    /// The `Exit` record that still lacks its memory hash.
    pub exit_loc: Option<ExitLoc>,
    /// Early-boot serial line accumulator.
    pub line_buf: Box<[u8; 256]>,
    /// Number of valid bytes in `line_buf`.
    pub line_len: usize,
    /// Emulated TSC at the first byte of the line.
    pub line_tsc: u64,
    /// Host TSC at the first byte of the line.
    pub line_real_tsc: u64,
}

impl View for EventStream {
    type V = EventStreamView;

    open spec fn view(&self) -> EventStreamView {
        EventStreamView {
            attached: self.buffer is Some,
            bytes: match self.buffer {
                Some(b) => b@.subrange(0, self.len as int),
                None => Seq::empty(),
            },
            seq: self.seq,
            categories: self.categories,
            pending: match self.pending {
                Some(kind) => Some(
                    PendingEvent {
                        kind,
                        flags: self.pending_flags,
                        tsc: self.pending_tsc,
                        real_tsc: self.pending_real_tsc,
                        payload: self.pending_buf@.subrange(0, self.pending_len as int),
                    },
                ),
                None => None,
            },
            exit_loc: self.exit_loc,
            line: self.line_buf@.subrange(0, self.line_len as int),
            line_tsc: self.line_tsc,
            line_real_tsc: self.line_real_tsc,
        }
    }
}

/// The bytes of one record.
fn build_record(h: &EventHeader, head: &[u8], tail: &[u8]) -> (v: Vec<u8>)
    requires
        head@.len() + tail@.len() <= EVENT_BUFFER_SIZE,
    ensures
        v@ == types::encode_record(*h, head@ + tail@),
        v@.len() == EVENT_HEADER_SIZE + types::pad8((head@.len() + tail@.len()) as nat),
{
    let mut v: Vec<u8> = Vec::new();
    push_u64(&mut v, h.seq);
    push_u64(&mut v, h.tsc);
    push_u64(&mut v, h.real_tsc);
    push_u16(&mut v, h.kind);
    push_u16(&mut v, h.flags);
    push_u32(&mut v, h.len);
    assert(v@ =~= h.encode());
    push_bytes(&mut v, head);
    push_bytes(&mut v, tail);
    assert(v@ =~= h.encode() + (head@ + tail@));
    let ghost payload = head@ + tail@;
    let n: usize = head.len() + tail.len();
    let total: usize = EVENT_HEADER_SIZE + align_up(n, 8);
    assert(total == EVENT_HEADER_SIZE + types::pad8(payload.len()));
    while v.len() < total
        invariant
            EVENT_HEADER_SIZE + payload.len() <= v@.len() <= total,
            total == EVENT_HEADER_SIZE + types::pad8(payload.len()),
            v@ == h.encode() + payload + bytes::zeros((v@.len() - EVENT_HEADER_SIZE - payload.len()) as nat),
            h.encode().len() == EVENT_HEADER_SIZE,
        decreases total - v@.len(),
    {
        let ghost before = v@;
        v.push(0);
        assert(v@ =~= h.encode() + payload + bytes::zeros(
            (v@.len() - EVENT_HEADER_SIZE - payload.len()) as nat,
        ));
    }
    v
}

impl EventStream {
    /// The representation is consistent and the stream well formed.
    pub open spec fn wf(&self) -> bool {
        &&& self@.wf()
        &&& self.len <= EVENT_BUFFER_SIZE
        &&& match self.buffer {
            Some(b) => b@.len() == EVENT_BUFFER_SIZE,
            None => self.len == 0,
        }
        &&& self.pending_len <= EVENT_PENDING_CAP
        &&& self.line_len <= SERIAL_LINE_ACC_SIZE
    }

    /// A detached stream with every category disabled.
    pub fn new() -> (r: Self)
        ensures
            r.wf(),
            r@ == EventStreamView::detached(),
    {
        let r = EventStream {
            buffer: None,
            len: 0,
            seq: 0,
            categories: EventCategories::empty(),
            pending: None,
            pending_buf: Box::new([0u8; 4096]),
            pending_len: 0,
            pending_flags: 0,
            pending_tsc: 0,
            pending_real_tsc: 0,
            exit_loc: None,
            line_buf: Box::new([0u8; 256]),
            line_len: 0,
            line_tsc: 0,
            line_real_tsc: 0,
        };
        assert(r@.line =~= Seq::<u8>::empty());
        r
    }

    /// Attach a buffer. The cursor is kept.
    pub fn attach(&mut self, buffer: Vec<u8>)
        requires
            old(self).wf(),
            buffer@.len() == EVENT_BUFFER_SIZE,
        ensures
            final(self).wf(),
            final(self)@ == (EventStreamView {
                attached: true,
                bytes: buffer@.subrange(0, old(self)@.bytes.len() as int),
                ..old(self)@
            }),
    {
        self.buffer = Some(buffer);
    }

    /// Detach the buffer, drop the staged record and reset the cursor.
    pub fn detach(&mut self)
        requires
            old(self).wf(),
        ensures
            final(self).wf(),
            final(self)@ == (EventStreamView {
                attached: false,
                bytes: Seq::empty(),
                pending: None,
                exit_loc: None,
                ..old(self)@
            }),
    {
        self.buffer = None;
        self.len = 0;
        self.pending = None;
        self.pending_len = 0;
        self.exit_loc = None;
    }

    /// Append one record whose payload is `head` followed by `tail`. Returns
    /// `false` if the buffer was full, in which case the caller must have it
    /// drained.
    pub fn append(
        &mut self,
        kind: EventKind,
        flags: u16,
        tsc: u64,
        real_tsc: u64,
        head: &[u8],
        tail: &[u8],
    ) -> (r: bool)
        requires
            old(self).wf(),
        ensures
            final(self).wf(),
            (final(self)@, r) == old(self)@.append(kind, flags, tsc, real_tsc, head@ + tail@),
    {
        proof {
            reveal(EventStreamView::append);
        }
        if !self.categories.contains(kind.category()) {
            return true;
        }
        if self.buffer.is_none() {
            return true;
        }
        let head_len: usize = head.len();
        let tail_len: usize = tail.len();
        let ghost payload = head@ + tail@;
        let mut fits: bool = false;
        if head_len <= EVENT_BUFFER_SIZE && tail_len <= EVENT_BUFFER_SIZE {
            let padded: usize = align_up(head_len + tail_len, 8);
            assert(padded == types::pad8(payload.len()));
            fits = self.len + EVENT_HEADER_SIZE + padded <= EVENT_BUFFER_SIZE;
        }
        assert(fits == self@.fits(payload.len()));
        if !fits {
            if self.pending.is_none() {
                let head_copy: usize = if head_len <= EVENT_PENDING_CAP {
                    head_len
                } else {
                    EVENT_PENDING_CAP
                };
                let room: usize = EVENT_PENDING_CAP - head_copy;
                let tail_copy: usize = if tail_len <= room { tail_len } else { room };
                copy_into_page(&mut *self.pending_buf, 0, head, 0, head_copy);
                copy_into_page(&mut *self.pending_buf, head_copy, tail, 0, tail_copy);
                self.pending = Some(kind);
                self.pending_len = head_copy + tail_copy;
                self.pending_flags = flags;
                self.pending_tsc = tsc;
                self.pending_real_tsc = real_tsc;
                assert(self@.pending->0.payload =~= payload.take(
                    bytes::min_nat(payload.len(), EVENT_PENDING_CAP as nat) as int,
                ));
            }
            return false;
        }
        let n: usize = head_len + tail_len;
        let header = EventHeader {
            seq: self.seq,
            tsc,
            real_tsc,
            kind: kind.as_u16(),
            flags,
            len: n as u32,
        };
        let record: Vec<u8> = build_record(&header, head, tail);
        let start: usize = self.len;
        let ghost before = self@.bytes;
        if let Some(buffer) = &mut self.buffer {
            copy_into(buffer.as_mut_slice(), start, record.as_slice(), 0, record.len());
        }
        self.seq = self.seq.wrapping_add(1);
        self.len = start + record.len();
        assert(record@.subrange(0, record@.len() as int) =~= record@);
        assert(self@.bytes =~= before + record@);
        true
    }

    /// Reset the cursor after a drain and write the staged record again.
    pub fn clear(&mut self)
        requires
            old(self).wf(),
        ensures
            final(self).wf(),
            final(self)@ == old(self)@.clear(),
    {
        proof {
            reveal(EventStreamView::clear);
            reveal(EventStreamView::append);
        }
        self.len = 0;
        let was_staged: bool = match self.exit_loc {
            Some(ExitLoc::Pending) => true,
            _ => false,
        };
        self.exit_loc = None;
        let staged: Option<EventKind> = self.pending.take();
        assert(self@.bytes =~= Seq::<u8>::empty());
        if let Some(kind) = staged {
            let flags: u16 = self.pending_flags;
            let tsc: u64 = self.pending_tsc;
            let real_tsc: u64 = self.pending_real_tsc;
            let payload: Vec<u8> = slice_to_vec(&*self.pending_buf, 0, self.pending_len);
            let empty: Vec<u8> = Vec::new();
            assert(payload@ + empty@ =~= payload@);
            let _ = self.append(kind, flags, tsc, real_tsc, payload.as_slice(), empty.as_slice());
            if was_staged && self.len > 0 {
                self.exit_loc = Some(ExitLoc::Buffer(EVENT_HEADER_SIZE));
            }
        }
        self.pending_len = 0;
    }

    /// Emit the serial line in progress, if any.
    pub fn flush_line(&mut self) -> (r: bool)
        requires
            old(self).wf(),
        ensures
            final(self).wf(),
            (final(self)@, r) == old(self)@.flush_line(),
    {
        proof {
            reveal(EventStreamView::flush_line);
        }
        if self.line_len == 0 {
            return true;
        }
        let line: Vec<u8> = slice_to_vec(&*self.line_buf, 0, self.line_len);
        let empty: Vec<u8> = Vec::new();
        let tsc: u64 = self.line_tsc;
        let real_tsc: u64 = self.line_real_tsc;
        self.line_len = 0;
        assert(self@.line =~= Seq::<u8>::empty());
        assert(line@ + empty@ =~= line@);
        self.append(
            EventKind::Serial,
            EventKind::Serial.default_flags(),
            tsc,
            real_tsc,
            line.as_slice(),
            empty.as_slice(),
        )
    }

    /// Accumulate one early-boot serial byte; a newline or a full accumulator
    /// emits the line, stamped with the time of its first byte.
    pub fn serial_byte(&mut self, byte: u8, tsc: u64, real_tsc: u64) -> (r: bool)
        requires
            old(self).wf(),
        ensures
            final(self).wf(),
            (final(self)@, r) == old(self)@.serial_byte(byte, tsc, real_tsc),
    {
        proof {
            reveal(EventStreamView::serial_byte);
        }
        if !self.categories.contains(EventCategories::serial()) {
            return true;
        }
        let ghost before = self@;
        if self.line_len == 0 {
            self.line_tsc = tsc;
            self.line_real_tsc = real_tsc;
        }
        if self.line_len < SERIAL_LINE_ACC_SIZE {
            let at: usize = self.line_len;
            self.line_buf[at] = byte;
            self.line_len = at + 1;
            assert(self@.line =~= before.line.push(byte));
        }
        if byte == 0x0A || self.line_len == SERIAL_LINE_ACC_SIZE {
            return self.flush_line();
        }
        true
    }

    /// Emit an `Exit` record and remember where its payload went.
    pub fn emit_exit(&mut self, payload: &[u8], deterministic: bool, tsc: u64, real_tsc: u64)
        requires
            old(self).wf(),
            payload@.len() == EXIT_RECORD_SIZE,
        ensures
            final(self).wf(),
            final(self)@ == old(self)@.emit_exit(payload@, deterministic, tsc, real_tsc),
    {
        proof {
            reveal(EventStreamView::emit_exit);
            reveal(EventStreamView::append);
        }
        self.exit_loc = None;
        if self.buffer.is_none() || !self.categories.contains(EventCategories::exit()) {
            return;
        }
        let flags: u16 = if deterministic { EVENT_FLAG_DETERMINISTIC } else { 0 };
        let payload_off: usize = self.len + EVENT_HEADER_SIZE;
        let free_slot: bool = self.pending.is_none();
        let empty: Vec<u8> = Vec::new();
        assert(payload@ + empty@ =~= payload@);
        let fit: bool = self.append(
            EventKind::Exit,
            flags,
            tsc,
            real_tsc,
            payload,
            empty.as_slice(),
        );
        if fit {
            self.exit_loc = Some(ExitLoc::Buffer(payload_off));
        } else if free_slot {
            self.exit_loc = Some(ExitLoc::Pending);
        }
    }

    /// Fill in the deferred fields of the waiting `Exit` record, if any.
    pub fn finalize_exit(&mut self, memory_hash: u64, cow_page_count: u32)
        requires
            old(self).wf(),
        ensures
            final(self).wf(),
            final(self)@ == old(self)@.finalize_exit(memory_hash, cow_page_count),
    {
        proof {
            reveal(EventStreamView::finalize_exit);
        }
        let loc: Option<ExitLoc> = self.exit_loc.take();
        let mut hash: Vec<u8> = Vec::new();
        push_u64(&mut hash, memory_hash);
        let mut count: Vec<u8> = Vec::new();
        push_u32(&mut count, cow_page_count);
        assert(hash@ =~= bytes::le64(memory_hash));
        assert(hash@.subrange(0, 8) =~= hash@);
        assert(count@ =~= bytes::le32(cow_page_count));
        assert(count@.subrange(0, 4) =~= count@);
        match loc {
            None => {},
            Some(ExitLoc::Buffer(off)) => {
                let ghost before = self@.bytes;
                let ghost len = self.len;
                if let Some(buffer) = &mut self.buffer {
                    copy_into(
                        buffer.as_mut_slice(),
                        off + EXIT_RECORD_MEMORY_HASH_OFFSET,
                        hash.as_slice(),
                        0,
                        8,
                    );
                    copy_into(
                        buffer.as_mut_slice(),
                        off + EXIT_RECORD_COW_PAGE_COUNT_OFFSET,
                        count.as_slice(),
                        0,
                        4,
                    );
                }
                assert(self@.bytes =~= patch_exit(before, off as int, memory_hash, cow_page_count));
            },
            Some(ExitLoc::Pending) => {
                let ghost before = self@.pending->0.payload;
                copy_into_page(
                    &mut *self.pending_buf,
                    EXIT_RECORD_MEMORY_HASH_OFFSET,
                    hash.as_slice(),
                    0,
                    8,
                );
                copy_into_page(
                    &mut *self.pending_buf,
                    EXIT_RECORD_COW_PAGE_COUNT_OFFSET,
                    count.as_slice(),
                    0,
                    4,
                );
                assert(self@.pending->0.payload =~= patch_exit(
                    before,
                    0,
                    memory_hash,
                    cow_page_count,
                ));
            },
        }
    }
}

} // verus!
