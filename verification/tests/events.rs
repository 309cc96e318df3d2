use bedrock_vmx::ept::EptPageTable;
use bedrock_vmx::events::types::{
    align_up, EventCategories, EventKind, InjectPayload, InjectSource, IoChannelPayload,
    IoChannelPhase, RandomPayload, RandomSource, EVENT_BUFFER_SIZE, EVENT_HEADER_SIZE,
};
use bedrock_vmx::host::HostState;
use bedrock_vmx::page::PagePool;
use bedrock_vmx::vm_pages::VmPages;
use bedrock_vmx::vm_state::VmState;
use bedrock_vmx::vmcs::Vmcs;

fn mock_state() -> VmState {
    let mut pool = PagePool::new();
    for i in 0..5 {
        pool.refill(0x10_0000 + i * 0x1000, 0xffff_8000_0010_0000 + i * 0x1000);
    }
    let pages = match VmPages::new(&mut pool) {
        Ok(pages) => pages,
        Err(_) => panic!("no pages"),
    };
    match VmState::new::<()>(
        Vmcs::new(),
        EptPageTable::new(0x9000),
        pages,
        Ok(()),
        Ok(()),
        HostState::default(),
        None,
        8,
        2_000_000_000,
    ) {
        Ok(state) => state,
        Err(_) => panic!("no state"),
    }
}

fn attached_state() -> VmState {
    let mut state = mock_state();
    state.set_event_buffer(vec![0u8; EVENT_BUFFER_SIZE]);
    state
}

fn bytes(state: &VmState, len: usize) -> &[u8] {
    &state.event_buffer_ptr().unwrap()[..len]
}

fn rd_u64(b: &[u8], off: usize) -> u64 {
    u64::from_le_bytes(b[off..off + 8].try_into().unwrap())
}

fn rd_u32(b: &[u8], off: usize) -> u32 {
    u32::from_le_bytes(b[off..off + 4].try_into().unwrap())
}

fn rd_u16(b: &[u8], off: usize) -> u16 {
    u16::from_le_bytes(b[off..off + 2].try_into().unwrap())
}

/// A parsed header.
struct Hdr {
    seq: u64,
    tsc: u64,
    real_tsc: u64,
    kind: u16,
    flags: u16,
    len: u32,
}

fn parse_header(b: &[u8], off: usize) -> Hdr {
    Hdr {
        seq: rd_u64(b, off),
        tsc: rd_u64(b, off + 8),
        real_tsc: rd_u64(b, off + 16),
        kind: rd_u16(b, off + 24),
        flags: rd_u16(b, off + 26),
        len: rd_u32(b, off + 28),
    }
}

#[test]
fn append_writes_framed_record() {
    let mut state = attached_state();
    state.set_event_categories(EventCategories::serial());
    state.core.emulated_tsc = 0xABCD;

    assert!(state.event_append(EventKind::Serial, b"hi\n"));

    let len = state.event_buffer_len();
    assert_eq!(len, EVENT_HEADER_SIZE + align_up(3, 8));

    let b = bytes(&state, len);
    let h = parse_header(b, 0);
    assert_eq!(h.seq, 0);
    assert_eq!(h.tsc, 0xABCD);
    assert_eq!(h.kind, EventKind::Serial.as_u16());
    assert_eq!(h.flags, 1);
    assert_eq!(h.len, 3);
    assert_eq!(&b[EVENT_HEADER_SIZE..EVENT_HEADER_SIZE + 3], b"hi\n");
    assert_eq!(&b[EVENT_HEADER_SIZE + 3..EVENT_HEADER_SIZE + 8], &[0u8; 5]);

    state.core.emulated_tsc = 0x1111;
    assert!(state.event_append(EventKind::Serial, b"x"));
    let len2 = state.event_buffer_len();
    let b2 = bytes(&state, len2);
    let h2 = parse_header(b2, 40);
    assert_eq!(h2.seq, 1);
    assert_eq!(h2.tsc, 0x1111);
    assert_eq!(h2.len, 1);
}

#[test]
fn disabled_category_is_dropped() {
    let mut state = attached_state();
    state.set_event_categories(EventCategories::serial());

    let inject = InjectPayload {
        vector: 0x20,
        source: InjectSource::Timer.as_u8(),
        target_tsc: 42,
    };
    assert!(state.event_append(EventKind::Inject, &inject.as_bytes()));
    assert_eq!(state.event_buffer_len(), 0);

    assert!(state.event_append(EventKind::Serial, b"a"));
    assert!(state.event_buffer_len() > 0);
}

#[test]
fn no_buffer_attached_drops_silently() {
    let mut state = mock_state();
    state.set_event_categories(EventCategories::serial());
    assert!(state.event_append(EventKind::Serial, b"hi"));
    assert_eq!(state.event_buffer_len(), 0);
}

#[test]
fn typed_payloads_roundtrip() {
    let mut state = attached_state();
    state.set_event_categories(
        EventCategories::inject()
            .union(EventCategories::randomness())
            .union(EventCategories::io_channel()),
    );

    let inject = InjectPayload {
        vector: 0xEC,
        source: InjectSource::Timer.as_u8(),
        target_tsc: 700,
    };
    assert!(state.event_append(EventKind::Inject, &inject.as_bytes()));

    let rand = RandomPayload {
        value: 0x0123_4567_89AB_CDEF,
        pid: 0,
        source: RandomSource::Rdrand.as_u8(),
        width: 4,
    };
    assert!(state.event_append(EventKind::Randomness, &rand.as_bytes()));

    let io = IoChannelPayload {
        phase: IoChannelPhase::Request.as_u8(),
        target_tsc: 900,
    };
    assert!(state.event_append(EventKind::IoChannel, &io.as_bytes()));

    let total = state.event_buffer_len();
    let b = bytes(&state, total);

    let h0 = parse_header(b, 0);
    assert_eq!(h0.kind, EventKind::Inject.as_u16());
    assert_eq!(h0.len, 16);
    assert_eq!(b[EVENT_HEADER_SIZE], 0xEC);
    assert_eq!(rd_u64(b, EVENT_HEADER_SIZE + 8), 700);

    let off1 = 48;
    let h1 = parse_header(b, off1);
    assert_eq!(h1.kind, EventKind::Randomness.as_u16());
    assert_eq!(h1.len, 16);
    assert_eq!(
        rd_u64(b, off1 + EVENT_HEADER_SIZE),
        0x0123_4567_89AB_CDEF
    );

    let off2 = 96;
    let h2 = parse_header(b, off2);
    assert_eq!(h2.kind, EventKind::IoChannel.as_u16());
    assert_eq!(h2.len, 16);
    assert_eq!(
        b[off2 + EVENT_HEADER_SIZE],
        IoChannelPhase::Request.as_u8()
    );
    assert_eq!(rd_u64(b, off2 + EVENT_HEADER_SIZE + 8), 900);
}

#[test]
fn buffer_full_stages_pending_then_event_clear_reappends() {
    let mut state = attached_state();
    state.set_event_categories(EventCategories::serial());

    let payload = vec![0xABu8; 4000];
    let mut appended = 0u64;
    loop {
        if !state.event_append(EventKind::Serial, &payload) {
            break;
        }
        appended += 1;
        assert!(
            appended < 1000,
            "buffer should fill well before 1000 records"
        );
    }

    let len_before_clear = state.event_buffer_len();
    assert!(len_before_clear > 0);
    assert!(state.events.seq == appended);

    state.event_clear();
    let len_after = state.event_buffer_len();
    let one_record = EVENT_HEADER_SIZE + align_up(4000, 8);
    assert_eq!(len_after, one_record);

    let b = bytes(&state, len_after);
    let h = parse_header(b, 0);
    assert_eq!(h.seq, appended);
    assert_eq!(h.len, 4000);
    assert_eq!(state.events.seq, appended + 1);
}

#[test]
fn serial_line_accumulator_emits_one_event_per_line() {
    let mut state = attached_state();
    state.set_event_categories(EventCategories::serial());
    state.core.emulated_tsc = 0x5000;

    assert!(state.event_serial_byte(b'a'));
    assert_eq!(state.event_buffer_len(), 0);
    state.core.emulated_tsc = 0x6000;
    assert!(state.event_serial_byte(b'b'));
    assert_eq!(state.event_buffer_len(), 0);
    state.core.emulated_tsc = 0x7000;
    assert!(state.event_serial_byte(b'\n'));

    let len = state.event_buffer_len();
    assert_eq!(len, EVENT_HEADER_SIZE + align_up(3, 8));
    let b = bytes(&state, len);
    let h = parse_header(b, 0);
    assert_eq!(h.kind, EventKind::Serial.as_u16());
    assert_eq!(h.len, 3);
    assert_eq!(h.tsc, 0x5000);
    assert_eq!(&b[EVENT_HEADER_SIZE..EVENT_HEADER_SIZE + 3], b"ab\n");
    assert_eq!(h.real_tsc, 0);
}

#[test]
fn serial_line_accumulator_disabled_is_noop() {
    let mut state = attached_state();
    state.set_event_categories(EventCategories::empty());
    for &b in b"hello\n" {
        assert!(state.event_serial_byte(b));
    }
    assert_eq!(state.event_buffer_len(), 0);
    assert_eq!(state.events.line_len, 0);
}

#[test]
fn serial_line_flush_tail_on_shutdown() {
    let mut state = attached_state();
    state.set_event_categories(EventCategories::serial());

    assert!(state.event_serial_byte(b'p'));
    assert!(state.event_serial_byte(b'q'));
    assert_eq!(state.event_buffer_len(), 0);

    assert!(state.event_flush_serial_line());
    let len = state.event_buffer_len();
    let b = bytes(&state, len);
    let h = parse_header(b, 0);
    assert_eq!(h.len, 2);
    assert_eq!(&b[EVENT_HEADER_SIZE..EVENT_HEADER_SIZE + 2], b"pq");

    assert!(state.event_flush_serial_line());
    assert_eq!(state.event_buffer_len(), len);
}

#[test]
fn long_serial_line_is_emitted_when_the_accumulator_fills() {
    let mut state = attached_state();
    state.set_event_categories(EventCategories::serial());
    for _ in 0..255 {
        assert!(state.event_serial_byte(b'x'));
    }
    assert_eq!(state.event_buffer_len(), 0);
    assert!(state.event_serial_byte(b'x'));
    assert_eq!(state.event_buffer_len(), EVENT_HEADER_SIZE + 256);
}

#[test]
fn host_time_stamps_records() {
    let mut state = attached_state();
    state.set_event_categories(EventCategories::diagnostic());
    state.host.tsc = 0x77;
    assert!(state.event_append(EventKind::Diagnostic, &[1, 2, 3]));
    let len = state.event_buffer_len();
    let h = parse_header(bytes(&state, len), 0);
    assert_eq!((h.real_tsc, h.tsc, h.len), (0x77, 0, 3));
    assert_eq!(h.kind, EventKind::Diagnostic.as_u16());
}
