//! Host time in the event stream. Two streams that were fed the same events at
//! different host times differ in their host stamps and in nothing else.

use vstd::prelude::*;

use crate::bytes;
use crate::events::laws;
use crate::events::stream;
use crate::events::stream::{EventStreamView, ExitLoc, PendingEvent};
use crate::events::types;
use crate::events::types::{EventHeader, EventKind, EVENT_HEADER_SIZE};
use crate::exit_record::EXIT_RECORD_SIZE;

verus! {

/// The records of `s` with every host stamp set to zero.
pub open spec fn unstamped(s: Seq<u8>) -> Seq<u8>
    decreases s.len(),
{
    if s.len() < EVENT_HEADER_SIZE || laws::record_len(s) > s.len() {
        s
    } else {
        EventHeader { real_tsc: 0, ..laws::header_at(s, 0) }.encode() + s.subrange(
            EVENT_HEADER_SIZE as int,
            laws::record_len(s),
        ) + unstamped(s.skip(laws::record_len(s)))
    }
}

/// The payload of an exit record stands at `off` in `s`.
pub open spec fn exit_at(s: Seq<u8>, off: int) -> bool
    decreases s.len(),
{
    s.len() >= EVENT_HEADER_SIZE && laws::record_len(s) <= s.len() && ((off == EVENT_HEADER_SIZE
        && laws::header_at(s, 0).len == EXIT_RECORD_SIZE) || (off >= laws::record_len(s)
        && exit_at(s.skip(laws::record_len(s)), off - laws::record_len(s))))
}

/// The stream holds whole records, and the exit record that waits for its
/// memory hash is one of them.
pub open spec fn sound(v: EventStreamView) -> bool {
    &&& v.wf()
    &&& laws::framed(v.bytes)
    &&& match v.exit_loc {
        Some(ExitLoc::Buffer(off)) => exit_at(v.bytes, off as int),
        _ => true,
    }
}

/// The same staged record, whenever it was staged.
pub open spec fn same_pending(a: Option<PendingEvent>, b: Option<PendingEvent>) -> bool {
    match (a, b) {
        (None, None) => true,
        (Some(p), Some(q)) => p == (PendingEvent { real_tsc: p.real_tsc, ..q }),
        _ => false,
    }
}

/// The two streams are equal but for their host stamps.
#[verifier::opaque]
pub open spec fn same_events(a: EventStreamView, b: EventStreamView) -> bool {
    &&& sound(a)
    &&& sound(b)
    &&& unstamped(a.bytes) == unstamped(b.bytes)
    &&& same_pending(a.pending, b.pending)
    &&& a == (EventStreamView {
        bytes: a.bytes,
        pending: a.pending,
        line_real_tsc: a.line_real_tsc,
        ..b
    })
}

/// What two such streams agree on.
pub proof fn same_events_agree(a: EventStreamView, b: EventStreamView)
    requires
        same_events(a, b),
    ensures
        a.attached == b.attached,
        a.categories == b.categories,
        a.seq == b.seq,
        a.bytes.len() == b.bytes.len(),
        a.pending is Some <==> b.pending is Some,
        a.exit_loc == b.exit_loc,
        a.line == b.line,
{
    reveal(same_events);
    unstamped_len(a.bytes);
    unstamped_len(b.bytes);
}

/// Erasing stamps keeps lengths.
proof fn unstamped_len(s: Seq<u8>)
    ensures
        unstamped(s).len() == s.len(),
    decreases s.len(),
{
    if !(s.len() < EVENT_HEADER_SIZE || laws::record_len(s) > s.len()) {
        unstamped_len(s.skip(laws::record_len(s)));
        let h = EventHeader { real_tsc: 0, ..laws::header_at(s, 0) };
        assert(h.encode().len() == EVENT_HEADER_SIZE);
    }
}

/// A header is as long as its place.
proof fn header_len(h: EventHeader)
    ensures
        h.encode().len() == EVENT_HEADER_SIZE,
{
}

/// What stands behind the first `EVENT_HEADER_SIZE` bytes, taken apart and put
/// together.
proof fn behind_front(front: Seq<u8>, other: Seq<u8>, p: Seq<u8>, z: Seq<u8>)
    requires
        front.len() == EVENT_HEADER_SIZE,
    ensures
        other + (front + p + z).subrange(EVENT_HEADER_SIZE as int, (front + p + z).len() as int)
            + Seq::<u8>::empty() == other + p + z,
{
    assert((front + p + z).subrange(EVENT_HEADER_SIZE as int, (front + p + z).len() as int) =~= p
        + z);
    assert(other + (p + z) + Seq::<u8>::empty() =~= other + p + z);
}

/// Erasing stamps record by record: the record put behind `s` loses its own.
proof fn unstamped_push(s: Seq<u8>, h: EventHeader, payload: Seq<u8>)
    requires
        laws::framed(s),
        h.len == payload.len(),
    ensures
        unstamped(s + types::encode_record(h, payload)) == unstamped(s) + types::encode_record(
            EventHeader { real_tsc: 0, ..h },
            payload,
        ),
    decreases s.len(),
{
    let r = types::encode_record(h, payload);
    let h0 = EventHeader { real_tsc: 0, ..h };
    let r0 = types::encode_record(h0, payload);
    if s.len() == 0 {
        let e = Seq::<u8>::empty();
        unstamped_record(h, payload);
        assert(s =~= e);
        assert(e + r =~= r);
        assert(unstamped(e) == e);
        assert(e + r0 =~= r0);
    } else {
        let n = laws::record_len(s);
        let rest = s.skip(n);
        unstamped_push(rest, h, payload);
        unstamped_step(s, r);
        let front = EventHeader { real_tsc: 0, ..laws::header_at(s, 0) }.encode();
        let mid = s.subrange(EVENT_HEADER_SIZE as int, n);
        regroup(front, mid, unstamped(rest), r0);
    }
}

/// Concatenation associates.
proof fn regroup(a: Seq<u8>, b: Seq<u8>, c: Seq<u8>, d: Seq<u8>)
    ensures
        a + b + (c + d) == (a + b + c) + d,
{
    assert(a + b + (c + d) =~= (a + b + c) + d);
}

/// A single record loses its stamp.
proof fn unstamped_record(h: EventHeader, payload: Seq<u8>)
    requires
        h.len == payload.len(),
    ensures
        unstamped(types::encode_record(h, payload)) == types::encode_record(
            EventHeader { real_tsc: 0, ..h },
            payload,
        ),
{
    let e = Seq::<u8>::empty();
    let r = types::encode_record(h, payload);
    let h0 = EventHeader { real_tsc: 0, ..h };
    laws::record_reads_back(h, payload, e);
    assert(r + e =~= r);
    header_len(h);
    assert(unstamped(e) == e);
    behind_front(
        h.encode(),
        h0.encode(),
        payload,
        bytes::zeros((types::pad8(payload.len()) - payload.len()) as nat),
    );
}

/// What follows the first record does not matter for it.
proof fn unstamped_step(s: Seq<u8>, r: Seq<u8>)
    requires
        s.len() > 0,
        laws::framed(s),
    ensures
        unstamped(s + r) == (EventHeader { real_tsc: 0, ..laws::header_at(s, 0) }).encode()
            + s.subrange(EVENT_HEADER_SIZE as int, laws::record_len(s)) + unstamped(
            s.skip(laws::record_len(s)) + r,
        ),
{
    let n = laws::record_len(s);
    assert(laws::header_at(s + r, 0) == laws::header_at(s, 0));
    assert((s + r).skip(n) =~= s.skip(n) + r);
    assert((s + r).subrange(EVENT_HEADER_SIZE as int, n) =~= s.subrange(
        EVENT_HEADER_SIZE as int,
        n,
    ));
}

/// A record put behind `s` leaves the places of exit records, and is one if it
/// is as long as one.
proof fn exit_at_push(s: Seq<u8>, h: EventHeader, payload: Seq<u8>, off: int)
    requires
        laws::framed(s),
        h.len == payload.len(),
    ensures
        exit_at(s, off) ==> exit_at(s + types::encode_record(h, payload), off),
        payload.len() == EXIT_RECORD_SIZE && off == s.len() + EVENT_HEADER_SIZE ==> exit_at(
            s + types::encode_record(h, payload),
            off,
        ),
    decreases s.len(),
{
    let r = types::encode_record(h, payload);
    assert(h.encode().len() == EVENT_HEADER_SIZE);
    if s.len() == 0 {
        let e = Seq::<u8>::empty();
        laws::record_reads_back(h, payload, e);
        assert(s + r =~= r + e);
    } else {
        let n = laws::record_len(s);
        assert(laws::header_at(s + r, 0) == laws::header_at(s, 0));
        assert((s + r).skip(n) =~= s.skip(n) + r);
        exit_at_push(s.skip(n), h, payload, off - n);
    }
}

/// Completing an exit record touches no header and no other record.
proof fn patch_within_record(s: Seq<u8>, off: int, memory_hash: u64, cow_page_count: u32)
    requires
        laws::framed(s),
        exit_at(s, off),
    ensures
        ({
            let t = stream::patch_exit(s, off, memory_hash, cow_page_count);
            &&& t.len() == s.len()
            &&& laws::framed(t)
            &&& unstamped(t) == stream::patch_exit(
                unstamped(s),
                off,
                memory_hash,
                cow_page_count,
            )
        }),
    decreases s.len(),
{
    let t = stream::patch_exit(s, off, memory_hash, cow_page_count);
    let n = laws::record_len(s);
    let h = EventHeader { real_tsc: 0, ..laws::header_at(s, 0) };
    assert(h.encode().len() == EVENT_HEADER_SIZE);
    unstamped_len(s);
    unstamped_len(s.skip(n));
    if off == EVENT_HEADER_SIZE && laws::header_at(s, 0).len == EXIT_RECORD_SIZE {
        assert(laws::header_at(t, 0) == laws::header_at(s, 0));
        assert(t.skip(n) =~= s.skip(n));
        assert(unstamped(t) =~= stream::patch_exit(
            unstamped(s),
            off,
            memory_hash,
            cow_page_count,
        ));
    } else {
        assert(laws::header_at(t, 0) == laws::header_at(s, 0));
        let rest = s.skip(n);
        assert(t.skip(n) =~= stream::patch_exit(rest, off - n, memory_hash, cow_page_count));
        patch_within_record(rest, off - n, memory_hash, cow_page_count);
        assert(t.subrange(EVENT_HEADER_SIZE as int, n) =~= s.subrange(EVENT_HEADER_SIZE as int, n));
        assert(unstamped(t) =~= stream::patch_exit(
            unstamped(s),
            off,
            memory_hash,
            cow_page_count,
        ));
    }
}

/// Records that differ in their host stamps, put behind sequences that do.
proof fn push_same(
    s: Seq<u8>,
    t: Seq<u8>,
    h: EventHeader,
    g: EventHeader,
    payload: Seq<u8>,
)
    requires
        laws::framed(s),
        laws::framed(t),
        unstamped(s) == unstamped(t),
        s.len() % 8 == 0,
        h.len == payload.len(),
        g == (EventHeader { real_tsc: g.real_tsc, ..h }),
    ensures
        ({
            let u = s + types::encode_record(h, payload);
            let v = t + types::encode_record(g, payload);
            &&& laws::framed(u)
            &&& laws::framed(v)
            &&& unstamped(u) == unstamped(v)
            &&& u.len() == v.len()
            &&& u.len() == s.len() + EVENT_HEADER_SIZE + types::pad8(payload.len())
            &&& u.len() % 8 == 0
        }),
{
    unstamped_len(s);
    unstamped_len(t);
    header_len(h);
    header_len(g);
    laws::record_keeps_framing(s, h, payload);
    laws::record_keeps_framing(t, g, payload);
    unstamped_push(s, h, payload);
    unstamped_push(t, g, payload);
    assert((EventHeader { real_tsc: 0, ..h }) == (EventHeader { real_tsc: 0, ..g }));
}

/// A record that is kept, staged or dropped at one host time meets the same fate
/// at any other.
pub proof fn append_ignores_host_time(
    a: EventStreamView,
    b: EventStreamView,
    kind: EventKind,
    flags: u16,
    tsc: u64,
    host_a: u64,
    host_b: u64,
    payload: Seq<u8>,
)
    requires
        same_events(a, b),
    ensures
        same_events(
            a.append(kind, flags, tsc, host_a, payload).0,
            b.append(kind, flags, tsc, host_b, payload).0,
        ),
        a.append(kind, flags, tsc, host_a, payload).1 == b.append(
            kind,
            flags,
            tsc,
            host_b,
            payload,
        ).1,
{
    reveal(same_events);
    reveal(EventStreamView::append);
    unstamped_len(a.bytes);
    unstamped_len(b.bytes);
    if a.enabled(kind) && a.attached && a.fits(payload.len()) {
        let h = EventHeader {
            seq: a.seq,
            tsc,
            real_tsc: host_a,
            kind: kind.spec_as_u16(),
            flags,
            len: payload.len() as u32,
        };
        let g = EventHeader { real_tsc: host_b, ..h };
        push_same(a.bytes, b.bytes, h, g, payload);
        match a.exit_loc {
            Some(ExitLoc::Buffer(off)) => {
                exit_at_push(a.bytes, h, payload, off as int);
                exit_at_push(b.bytes, g, payload, off as int);
            },
            _ => {},
        }
    }
}

/// An exit record that is written to an empty buffer starts it.
proof fn first_exit_is_found(v: EventStreamView, flags: u16, tsc: u64, host: u64, payload: Seq<u8>)
    requires
        v.bytes == Seq::<u8>::empty(),
        payload.len() == EXIT_RECORD_SIZE,
    ensures
        ({
            let after = v.append(EventKind::Exit, flags, tsc, host, payload).0;
            &&& after.bytes.len() > 0 ==> exit_at(after.bytes, EVENT_HEADER_SIZE as int)
            &&& after.bytes.len() > 0 ==> after.bytes.len() == EVENT_HEADER_SIZE + EXIT_RECORD_SIZE
        }),
{
    reveal(EventStreamView::append);
    let h = EventHeader {
        seq: v.seq,
        tsc,
        real_tsc: host,
        kind: EventKind::Exit.spec_as_u16(),
        flags,
        len: payload.len() as u32,
    };
    header_len(h);
    assert(laws::framed(v.bytes));
    exit_at_push(v.bytes, h, payload, EVENT_HEADER_SIZE as int);
}

/// Remembering the exit record at the start of both buffers.
proof fn same_with_first_exit(a: EventStreamView, b: EventStreamView)
    requires
        same_events(a, b),
        a.attached,
        a.bytes.len() > 0 ==> exit_at(a.bytes, EVENT_HEADER_SIZE as int),
        a.bytes.len() > 0 ==> a.bytes.len() == EVENT_HEADER_SIZE + EXIT_RECORD_SIZE,
        b.bytes.len() > 0 ==> exit_at(b.bytes, EVENT_HEADER_SIZE as int),
        b.bytes.len() > 0 ==> b.bytes.len() == EVENT_HEADER_SIZE + EXIT_RECORD_SIZE,
    ensures
        a.bytes.len() == b.bytes.len(),
        a.bytes.len() > 0 ==> same_events(
            (EventStreamView { exit_loc: Some(ExitLoc::Buffer(EVENT_HEADER_SIZE)), ..a }),
            (EventStreamView { exit_loc: Some(ExitLoc::Buffer(EVENT_HEADER_SIZE)), ..b }),
        ),
{
    reveal(same_events);
    unstamped_len(a.bytes);
    unstamped_len(b.bytes);
}

/// Both buffers emptied, with nothing staged.
proof fn same_emptied(a: EventStreamView, b: EventStreamView)
    requires
        same_events(a, b),
    ensures
        a.attached == b.attached,
        a.exit_loc == b.exit_loc,
        same_pending(a.pending, b.pending),
        sound(a),
        same_events(
            (EventStreamView { bytes: Seq::empty(), pending: None, exit_loc: None, ..a }),
            (EventStreamView { bytes: Seq::empty(), pending: None, exit_loc: None, ..b }),
        ),
{
    reveal(same_events);
    assert(laws::framed(Seq::<u8>::empty()));
}

/// Appending attaches nothing.
proof fn append_keeps_attached(
    v: EventStreamView,
    kind: EventKind,
    flags: u16,
    tsc: u64,
    host: u64,
    payload: Seq<u8>,
)
    ensures
        v.append(kind, flags, tsc, host, payload).0.attached == v.attached,
{
    reveal(EventStreamView::append);
}

/// Draining ignores host time.
pub proof fn clear_ignores_host_time(a: EventStreamView, b: EventStreamView)
    requires
        same_events(a, b),
    ensures
        same_events(a.clear(), b.clear()),
{
    reveal(EventStreamView::clear);
    let da = EventStreamView { bytes: Seq::empty(), pending: None, exit_loc: None, ..a };
    let db = EventStreamView { bytes: Seq::empty(), pending: None, exit_loc: None, ..b };
    same_emptied(a, b);
    match (a.pending, b.pending) {
        (Some(p), Some(q)) => {
            append_ignores_host_time(
                da,
                db,
                p.kind,
                p.flags,
                p.tsc,
                p.real_tsc,
                q.real_tsc,
                p.payload,
            );
            if a.exit_loc == Some(ExitLoc::Pending) {
                first_exit_is_found(da, p.flags, p.tsc, p.real_tsc, p.payload);
                first_exit_is_found(db, p.flags, p.tsc, q.real_tsc, p.payload);
                append_keeps_attached(da, p.kind, p.flags, p.tsc, p.real_tsc, p.payload);
                same_with_first_exit(
                    da.append(p.kind, p.flags, p.tsc, p.real_tsc, p.payload).0,
                    db.append(p.kind, p.flags, p.tsc, q.real_tsc, p.payload).0,
                );
            }
        },
        _ => {},
    }
}

/// Ending a serial line ignores host time.
pub proof fn flush_line_ignores_host_time(a: EventStreamView, b: EventStreamView)
    requires
        same_events(a, b),
    ensures
        same_events(a.flush_line().0, b.flush_line().0),
        a.flush_line().1 == b.flush_line().1,
{
    reveal(EventStreamView::flush_line);
    reveal(same_events);
    if a.line.len() > 0 {
        let e = Seq::<u8>::empty();
        append_ignores_host_time(
            EventStreamView { line: e, ..a },
            EventStreamView { line: e, ..b },
            EventKind::Serial,
            types::EVENT_FLAG_DETERMINISTIC,
            a.line_tsc,
            a.line_real_tsc,
            b.line_real_tsc,
            a.line,
        );
    }
}

/// A serial byte is accumulated the same at any host time.
pub proof fn serial_byte_ignores_host_time(
    a: EventStreamView,
    b: EventStreamView,
    byte: u8,
    tsc: u64,
    host_a: u64,
    host_b: u64,
)
    requires
        same_events(a, b),
    ensures
        same_events(a.serial_byte(byte, tsc, host_a).0, b.serial_byte(byte, tsc, host_b).0),
        a.serial_byte(byte, tsc, host_a).1 == b.serial_byte(byte, tsc, host_b).1,
{
    reveal(EventStreamView::serial_byte);
    reveal(same_events);
    if a.enabled(EventKind::Serial) {
        let fresh = a.line.len() == 0;
        let line = if a.line.len() < stream::SERIAL_LINE_ACC_SIZE {
            a.line.push(byte)
        } else {
            a.line
        };
        let line_tsc = if fresh { tsc } else { a.line_tsc };
        let ga = EventStreamView {
            line,
            line_tsc,
            line_real_tsc: if fresh { host_a } else { a.line_real_tsc },
            ..a
        };
        let gb = EventStreamView {
            line,
            line_tsc,
            line_real_tsc: if fresh { host_b } else { b.line_real_tsc },
            ..b
        };
        assert(same_events(ga, gb));
        flush_line_ignores_host_time(ga, gb);
    }
}

/// An exit record is kept, staged or dropped the same at any host time.
pub proof fn emit_exit_ignores_host_time(
    a: EventStreamView,
    b: EventStreamView,
    payload: Seq<u8>,
    deterministic: bool,
    tsc: u64,
    host_a: u64,
    host_b: u64,
)
    requires
        same_events(a, b),
        payload.len() == EXIT_RECORD_SIZE,
    ensures
        same_events(
            a.emit_exit(payload, deterministic, tsc, host_a),
            b.emit_exit(payload, deterministic, tsc, host_b),
        ),
{
    reveal(EventStreamView::emit_exit);
    reveal(same_events);
    unstamped_len(a.bytes);
    unstamped_len(b.bytes);
    let fa = EventStreamView { exit_loc: None, ..a };
    let fb = EventStreamView { exit_loc: None, ..b };
    assert(same_events(fa, fb));
    if a.attached && a.enabled(EventKind::Exit) {
        let flags = if deterministic { types::EVENT_FLAG_DETERMINISTIC } else { 0u16 };
        append_ignores_host_time(fa, fb, EventKind::Exit, flags, tsc, host_a, host_b, payload);
        reveal(EventStreamView::append);
        let h = EventHeader {
            seq: a.seq,
            tsc,
            real_tsc: host_a,
            kind: EventKind::Exit.spec_as_u16(),
            flags,
            len: payload.len() as u32,
        };
        let g = EventHeader { real_tsc: host_b, ..h };
        assert(h.encode().len() == EVENT_HEADER_SIZE);
        assert(g.encode().len() == EVENT_HEADER_SIZE);
        if fa.fits(payload.len()) {
            let off = a.bytes.len() + EVENT_HEADER_SIZE;
            exit_at_push(a.bytes, h, payload, off as int);
            exit_at_push(b.bytes, g, payload, off as int);
        }
    }
}

/// Completing an exit record ignores host time.
pub proof fn finalize_exit_ignores_host_time(
    a: EventStreamView,
    b: EventStreamView,
    memory_hash: u64,
    cow_page_count: u32,
)
    requires
        same_events(a, b),
    ensures
        same_events(
            a.finalize_exit(memory_hash, cow_page_count),
            b.finalize_exit(memory_hash, cow_page_count),
        ),
{
    reveal(EventStreamView::finalize_exit);
    reveal(same_events);
    match a.exit_loc {
        Some(ExitLoc::Buffer(off)) => {
            patch_within_record(a.bytes, off as int, memory_hash, cow_page_count);
            patch_within_record(b.bytes, off as int, memory_hash, cow_page_count);
        },
        _ => {},
    }
}

} // verus!
