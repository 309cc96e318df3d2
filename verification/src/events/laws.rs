//! What readers of the event stream can rely on.

use vstd::prelude::*;

use crate::bytes;
use crate::events::stream;
use crate::events::stream::{
    EventStreamView, ExitLoc, EVENT_PENDING_CAP, SERIAL_LINE_ACC_SIZE,
};
use crate::events::types;
use crate::events::types::{
    EventHeader, EventKind, EVENT_FLAG_DETERMINISTIC, EVENT_HEADER_SIZE,
};
use crate::exit_record::EXIT_RECORD_SIZE;

verus! {

/// The integer whose two little-endian bytes stand at `off`.
pub open spec fn word16(s: Seq<u8>, off: int) -> u16 {
    (s[off] as u16) | ((s[off + 1] as u16) << 8)
}

/// The header that stands at `off`.
pub open spec fn header_at(s: Seq<u8>, off: int) -> EventHeader {
    EventHeader {
        seq: bytes::word64(s, off),
        tsc: bytes::word64(s, off + 8),
        real_tsc: bytes::word64(s, off + 16),
        kind: word16(s, off + 24),
        flags: word16(s, off + 26),
        len: bytes::word32(s, off + 28),
    }
}

/// Bytes taken by the record whose header starts `s`.
pub open spec fn record_len(s: Seq<u8>) -> int {
    EVENT_HEADER_SIZE + types::pad8(header_at(s, 0).len as nat)
}

/// `s` is a sequence of whole records, each followed at once by the next.
pub open spec fn framed(s: Seq<u8>) -> bool
    decreases s.len(),
{
    s.len() == 0 || (s.len() >= EVENT_HEADER_SIZE && record_len(s) <= s.len() && framed(
        s.skip(record_len(s)),
    ))
}

/// Number of records in `s`.
pub open spec fn record_count(s: Seq<u8>) -> nat
    decreases s.len(),
{
    if s.len() == 0 || s.len() < EVENT_HEADER_SIZE || record_len(s) > s.len() {
        0
    } else {
        1 + record_count(s.skip(record_len(s)))
    }
}

/// Writing an integer's bytes and reading them gives it back.
proof fn word64_of_le64(x: u64, s: Seq<u8>, off: int)
    requires
        0 <= off,
        off + 8 <= s.len(),
        s.subrange(off, off + 8) == bytes::le64(x),
    ensures
        bytes::word64(s, off) == x,
{
    bytes::le64_of_word64(s, off);
    bytes::le64_injective(bytes::word64(s, off), x);
}

proof fn word32_of_le32(x: u32, s: Seq<u8>, off: int)
    requires
        0 <= off,
        off + 4 <= s.len(),
        s.subrange(off, off + 4) == bytes::le32(x),
    ensures
        bytes::word32(s, off) == x,
{
    let t = s.subrange(off, off + 4);
    let le = bytes::le32(x);
    assert(t[0] == le[0] && t[1] == le[1] && t[2] == le[2] && t[3] == le[3]);
    assert(((x as u8) as u32) | (((x >> 8) as u8 as u32) << 8) | (((x >> 16) as u8 as u32) << 16)
        | (((x >> 24) as u8 as u32) << 24) == x) by (bit_vector);
}

proof fn word16_of_le16(x: u16, s: Seq<u8>, off: int)
    requires
        0 <= off,
        off + 2 <= s.len(),
        s.subrange(off, off + 2) == bytes::le16(x),
    ensures
        word16(s, off) == x,
{
    let t = s.subrange(off, off + 2);
    let le = bytes::le16(x);
    assert(t[0] == le[0] && t[1] == le[1]);
    assert(((x as u8) as u16) | (((x >> 8) as u8 as u16) << 8) == x) by (bit_vector);
}

/// Padding rounds up to the next multiple of eight.
proof fn lemma_pad8(n: nat)
    ensures
        types::pad8(n) >= n,
        types::pad8(n) < n + 8,
        types::pad8(n) % 8 == 0,
{
}

/// A record gives back its header and its payload, whatever follows it.
pub proof fn record_reads_back(h: EventHeader, payload: Seq<u8>, rest: Seq<u8>)
    requires
        h.len == payload.len(),
    ensures
        ({
            let s = types::encode_record(h, payload) + rest;
            &&& header_at(s, 0) == h
            &&& record_len(s) == types::encode_record(h, payload).len()
            &&& record_len(s) % 8 == 0
            &&& s.subrange(EVENT_HEADER_SIZE as int, EVENT_HEADER_SIZE + payload.len()) == payload
            &&& s.skip(record_len(s)) == rest
        }),
{
    let r = types::encode_record(h, payload);
    let s = r + rest;
    lemma_pad8(payload.len());
    assert(h.encode().len() == EVENT_HEADER_SIZE);
    assert(s.subrange(0, 8) =~= bytes::le64(h.seq));
    assert(s.subrange(8, 16) =~= bytes::le64(h.tsc));
    assert(s.subrange(16, 24) =~= bytes::le64(h.real_tsc));
    assert(s.subrange(24, 26) =~= bytes::le16(h.kind));
    assert(s.subrange(26, 28) =~= bytes::le16(h.flags));
    assert(s.subrange(28, 32) =~= bytes::le32(h.len));
    word64_of_le64(h.seq, s, 0);
    word64_of_le64(h.tsc, s, 8);
    word64_of_le64(h.real_tsc, s, 16);
    word16_of_le16(h.kind, s, 24);
    word16_of_le16(h.flags, s, 26);
    word32_of_le32(h.len, s, 28);
    assert(s.subrange(EVENT_HEADER_SIZE as int, EVENT_HEADER_SIZE + payload.len()) =~= payload);
    assert(s.skip(record_len(s)) =~= rest);
}

/// Putting a record behind whole records gives whole records, one more.
pub proof fn record_keeps_framing(s: Seq<u8>, h: EventHeader, payload: Seq<u8>)
    requires
        framed(s),
        h.len == payload.len(),
    ensures
        framed(s + types::encode_record(h, payload)),
        record_count(s + types::encode_record(h, payload)) == record_count(s) + 1,
    decreases s.len(),
{
    let r = types::encode_record(h, payload);
    if s.len() == 0 {
        record_reads_back(h, payload, Seq::empty());
        assert(s + r =~= r + Seq::<u8>::empty());
        assert(framed(Seq::<u8>::empty()));
        assert(record_count(Seq::<u8>::empty()) == 0);
        assert(record_count(s) == 0);
        assert(h.encode().len() == EVENT_HEADER_SIZE);
    } else {
        let n = record_len(s);
        assert(header_at(s + r, 0) == header_at(s, 0));
        assert((s + r).skip(n) =~= s.skip(n) + r);
        lemma_pad8(header_at(s, 0).len as nat);
        record_keeps_framing(s.skip(n), h, payload);
    }
}

/// An event of a disabled category, or without a buffer, leaves no trace: no
/// byte, no sequence number.
pub proof fn filtered_event_leaves_no_trace(
    v: EventStreamView,
    kind: EventKind,
    flags: u16,
    tsc: u64,
    real_tsc: u64,
    payload: Seq<u8>,
)
    requires
        !v.enabled(kind) || !v.attached,
    ensures
        v.append(kind, flags, tsc, real_tsc, payload) == (v, true),
{
    reveal(EventStreamView::append);
}

/// An event that fits stands behind all earlier ones, with the next sequence
/// number, and a reader finds it there.
pub proof fn appended_event_reads_back(
    v: EventStreamView,
    kind: EventKind,
    flags: u16,
    tsc: u64,
    real_tsc: u64,
    payload: Seq<u8>,
)
    requires
        v.wf(),
        v.enabled(kind),
        v.attached,
        v.fits(payload.len()),
    ensures
        ({
            let (after, ok) = v.append(kind, flags, tsc, real_tsc, payload);
            let at = v.bytes.len() as int;
            &&& ok
            &&& after.seq == v.seq.wrapping_add(1)
            &&& after.bytes.take(at) == v.bytes
            &&& after.bytes.len() % 8 == 0
            &&& header_at(after.bytes.skip(at), 0) == (EventHeader {
                seq: v.seq,
                tsc,
                real_tsc,
                kind: kind.spec_as_u16(),
                flags,
                len: payload.len() as u32,
            })
            &&& after.bytes.subrange(
                at + EVENT_HEADER_SIZE,
                at + EVENT_HEADER_SIZE + payload.len(),
            ) == payload
            &&& framed(v.bytes) ==> framed(after.bytes) && record_count(after.bytes)
                == record_count(v.bytes) + 1
        }),
{
    reveal(EventStreamView::append);
    let after = v.append(kind, flags, tsc, real_tsc, payload).0;
    let at = v.bytes.len() as int;
    lemma_pad8(payload.len());
    let h = EventHeader {
        seq: v.seq,
        tsc,
        real_tsc,
        kind: kind.spec_as_u16(),
        flags,
        len: payload.len() as u32,
    };
    let r = types::encode_record(h, payload);
    assert(h.encode().len() == EVENT_HEADER_SIZE);
    record_reads_back(h, payload, Seq::empty());
    assert(after.bytes.take(at) =~= v.bytes);
    assert(after.bytes.skip(at) =~= r + Seq::<u8>::empty());
    assert(after.bytes.subrange(
        at + EVENT_HEADER_SIZE,
        at + EVENT_HEADER_SIZE + payload.len(),
    ) =~= (r + Seq::<u8>::empty()).subrange(
        EVENT_HEADER_SIZE as int,
        EVENT_HEADER_SIZE + payload.len(),
    ));
    if framed(v.bytes) {
        record_keeps_framing(v.bytes, h, payload);
    }
}

/// An event that finds the buffer full is not lost: the caller is told to drain,
/// and after the drain the event starts the buffer, with its original stamps
/// and the sequence number it was due.
pub proof fn full_buffer_loses_nothing(
    v: EventStreamView,
    kind: EventKind,
    flags: u16,
    tsc: u64,
    real_tsc: u64,
    payload: Seq<u8>,
)
    requires
        v.wf(),
        v.enabled(kind),
        v.attached,
        !v.fits(payload.len()),
        v.pending is None,
        payload.len() <= EVENT_PENDING_CAP,
    ensures
        ({
            let (full, ok) = v.append(kind, flags, tsc, real_tsc, payload);
            let drained = full.clear();
            &&& !ok
            &&& full.bytes == v.bytes && full.seq == v.seq
            &&& drained.bytes == types::encode_record(
                EventHeader {
                    seq: v.seq,
                    tsc,
                    real_tsc,
                    kind: kind.spec_as_u16(),
                    flags,
                    len: payload.len() as u32,
                },
                payload,
            )
            &&& drained.seq == v.seq.wrapping_add(1)
            &&& drained.pending is None
        }),
{
    reveal(EventStreamView::append);
    reveal(EventStreamView::clear);
    lemma_pad8(payload.len());
    assert(payload.take(payload.len() as int) =~= payload);
    let full = v.append(kind, flags, tsc, real_tsc, payload).0;
    let drained = EventStreamView { bytes: Seq::empty(), pending: None, exit_loc: None, ..full };
    assert(drained.fits(payload.len()));
    let again = drained.append(kind, flags, tsc, real_tsc, payload).0;
    let h = EventHeader {
        seq: v.seq,
        tsc,
        real_tsc,
        kind: kind.spec_as_u16(),
        flags,
        len: payload.len() as u32,
    };
    assert(again.bytes =~= types::encode_record(h, payload));
}

/// A drain without a staged event empties the buffer and resets nothing else
/// that readers see: sequence numbers go on.
pub proof fn drain_keeps_sequence(v: EventStreamView)
    requires
        v.pending is None,
    ensures
        v.clear().bytes == Seq::<u8>::empty(),
        v.clear().seq == v.seq,
        v.clear().line == v.line,
{
    reveal(EventStreamView::clear);
}

/// An exit record is completed in place: after emission and completion the
/// buffer ends with one record that holds the payload with both deferred fields
/// filled in, and nothing before it has changed.
pub proof fn exit_record_is_completed_in_place(
    v: EventStreamView,
    payload: Seq<u8>,
    deterministic: bool,
    tsc: u64,
    real_tsc: u64,
    memory_hash: u64,
    cow_page_count: u32,
)
    requires
        v.wf(),
        v.attached,
        v.enabled(EventKind::Exit),
        payload.len() == EXIT_RECORD_SIZE,
        v.fits(payload.len()),
    ensures
        v.emit_exit(payload, deterministic, tsc, real_tsc).finalize_exit(
            memory_hash,
            cow_page_count,
        ).bytes == v.bytes + types::encode_record(
            EventHeader {
                seq: v.seq,
                tsc,
                real_tsc,
                kind: EventKind::Exit.spec_as_u16(),
                flags: if deterministic { EVENT_FLAG_DETERMINISTIC } else { 0u16 },
                len: EXIT_RECORD_SIZE as u32,
            },
            stream::patch_exit(payload, 0, memory_hash, cow_page_count),
        ),
{
    reveal(EventStreamView::append);
    reveal(EventStreamView::emit_exit);
    reveal(EventStreamView::finalize_exit);
    lemma_pad8(payload.len());
    let h = EventHeader {
        seq: v.seq,
        tsc,
        real_tsc,
        kind: EventKind::Exit.spec_as_u16(),
        flags: if deterministic { EVENT_FLAG_DETERMINISTIC } else { 0u16 },
        len: EXIT_RECORD_SIZE as u32,
    };
    assert(h.encode().len() == EVENT_HEADER_SIZE);
    let emitted = v.emit_exit(payload, deterministic, tsc, real_tsc);
    let off = (v.bytes.len() + EVENT_HEADER_SIZE) as usize;
    assert(emitted.bytes == v.bytes + types::encode_record(h, payload));
    assert(emitted.exit_loc == Some(ExitLoc::Buffer(off)));
    let done = emitted.finalize_exit(memory_hash, cow_page_count);
    let patched = stream::patch_exit(payload, 0, memory_hash, cow_page_count);
    assert(done.bytes =~= v.bytes + types::encode_record(h, patched));
}

/// The stream after early-boot serial bytes, each with its own stamps.
pub open spec fn serial_bytes(v: EventStreamView, s: Seq<u8>, stamps: Seq<(u64, u64)>) -> EventStreamView
    decreases s.len(),
{
    if s.len() == 0 {
        v
    } else {
        serial_bytes(v, s.drop_last(), stamps).serial_byte(
            s.last(),
            stamps[s.len() - 1].0,
            stamps[s.len() - 1].1,
        ).0
    }
}

/// A line in progress is the bytes so far, stamped with its first byte.
proof fn lemma_line_in_progress(v: EventStreamView, s: Seq<u8>, stamps: Seq<(u64, u64)>)
    requires
        v.line.len() == 0,
        v.enabled(EventKind::Serial),
        s.len() < SERIAL_LINE_ACC_SIZE,
        stamps.len() >= s.len(),
        forall|i: int| 0 <= i < s.len() ==> s[i] != 0x0A,
    ensures
        s.len() == 0 ==> serial_bytes(v, s, stamps) == v,
        s.len() > 0 ==> serial_bytes(v, s, stamps) == (EventStreamView {
            line: s,
            line_tsc: stamps[0].0,
            line_real_tsc: stamps[0].1,
            ..v
        }),
    decreases s.len(),
{
    if s.len() > 0 {
        lemma_line_in_progress(v, s.drop_last(), stamps);
        reveal(EventStreamView::serial_byte);
        let before = serial_bytes(v, s.drop_last(), stamps);
        assert(before.line =~= s.drop_last());
        assert(before.line.push(s.last()) =~= s);
    }
}

/// A serial line becomes one event when its newline arrives, or when it fills
/// the accumulator: the event holds the whole line and is stamped with the time
/// of its first byte.
pub proof fn serial_line_is_one_event(v: EventStreamView, s: Seq<u8>, stamps: Seq<(u64, u64)>)
    requires
        v.line.len() == 0,
        v.enabled(EventKind::Serial),
        0 < s.len() <= SERIAL_LINE_ACC_SIZE,
        stamps.len() >= s.len(),
        forall|i: int| 0 <= i < s.len() - 1 ==> s[i] != 0x0A,
        s.last() == 0x0A || s.len() == SERIAL_LINE_ACC_SIZE,
    ensures
        serial_bytes(v, s, stamps) == (EventStreamView {
            line_tsc: stamps[0].0,
            line_real_tsc: stamps[0].1,
            ..v
        }).append(
            EventKind::Serial,
            EVENT_FLAG_DETERMINISTIC,
            stamps[0].0,
            stamps[0].1,
            s,
        ).0,
{
    lemma_line_in_progress(v, s.drop_last(), stamps);
    reveal(EventStreamView::serial_byte);
    reveal(EventStreamView::flush_line);
    let before = serial_bytes(v, s.drop_last(), stamps);
    assert(before.line =~= s.drop_last());
    assert(before.line.push(s.last()) =~= s);
    assert(v.line =~= Seq::<u8>::empty());
}

} // verus!
