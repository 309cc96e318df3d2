use bedrock_vmx::devices::random::{RandomState, RdrandMode, RANDOM_REPLY_MAX};
use bedrock_vmx::devices::rdrand;
use bedrock_vmx::devices::rdrand::RdrandState;

#[test]
fn seeded_is_deterministic_and_nonzero_seed() {
    let mut a = RandomState::default();
    a.configure(RdrandMode::SeededRng, 0);
    assert_ne!(a.seed, 0);

    let mut b = RandomState::default();
    b.configure(RdrandMode::SeededRng, 0);

    for _ in 0..16 {
        assert_eq!(a.next_seeded_u64(), b.next_seeded_u64());
    }
}

#[test]
fn seeded_streams_differ_by_seed() {
    let mut a = RandomState::default();
    a.configure(RdrandMode::SeededRng, 1);
    let mut b = RandomState::default();
    b.configure(RdrandMode::SeededRng, 2);
    let mut sa = [0u64; 8];
    let mut sb = [0u64; 8];
    for i in 0..8 {
        sa[i] = a.next_seeded_u64();
        sb[i] = b.next_seeded_u64();
    }
    assert_ne!(sa, sb);
}

#[test]
fn zero_seed_coerced_to_nonzero() {
    assert_eq!(RandomState::seeded_rng(0).seed, 1);
}

#[test]
fn generate_seeded_is_deterministic() {
    let mut a = RandomState::seeded_rng(12345);
    let mut b = RandomState::seeded_rng(12345);
    for _ in 0..100 {
        assert_eq!(a.generate(), b.generate());
    }
    let mut s = RandomState::seeded_rng(100);
    assert_ne!(s.generate(), s.generate());
}

#[test]
fn generate_exit_to_userspace_consumes_pending_value() {
    let mut s = RandomState::exit_to_userspace();
    assert!(s.needs_rdrand_exit());
    assert_eq!(s.generate(), None);

    s.set_pending_value(0x1234);
    assert!(!s.needs_rdrand_exit());
    assert_eq!(s.generate(), Some(0x1234));

    assert!(s.needs_rdrand_exit());
    assert_eq!(s.generate(), None);
}

#[test]
fn configure_resets_mode_and_pending_value() {
    let mut s = RandomState::default();
    s.set_pending_value(0xAA);
    s.configure(RdrandMode::ExitToUserspace, 0);
    assert_eq!(s.mode, RdrandMode::ExitToUserspace);
    assert!(s.needs_rdrand_exit(), "pending value cleared by configure");
}

#[test]
fn get_random_exit_only_in_source_mode_without_reply() {
    let mut s = RandomState::default();
    s.configure(RdrandMode::SeededRng, 7);
    assert!(
        !s.needs_get_random_exit(),
        "seeded never exits to userspace"
    );

    s.configure(RdrandMode::ExitToUserspace, 0);
    assert!(
        s.needs_get_random_exit(),
        "source mode with no staged reply"
    );

    s.begin_request(0xdead_0000, 32, 1234);
    assert!(s.awaiting);
    assert!(s.needs_get_random_exit(), "still awaiting before staging");

    s.stage_reply(&[0xAB; 32]);
    assert!(s.reply_valid);
    assert_eq!(s.reply_len, 32);
    assert!(!s.needs_get_random_exit(), "reply staged, no further exit");
    assert_eq!(&s.reply[..4], &[0xAB, 0xAB, 0xAB, 0xAB]);
}

#[test]
fn stage_reply_caps_at_max() {
    let mut s = RandomState::default();
    s.configure(RdrandMode::ExitToUserspace, 0);
    let big = [0x5A_u8; RANDOM_REPLY_MAX * 2];
    s.stage_reply(&big);
    assert_eq!(s.reply_len as usize, RANDOM_REPLY_MAX);
}

#[test]
fn clear_request_resets_in_flight_state() {
    let mut s = RandomState::default();
    s.configure(RdrandMode::ExitToUserspace, 0);
    s.begin_request(0x1000, 16, 42);
    s.stage_reply(&[1, 2, 3, 4]);
    s.clear_request();
    assert!(!s.awaiting);
    assert!(!s.reply_valid);
    assert_eq!(s.reply_len, 0);
    assert_eq!(s.buf_gva, 0);
    assert_eq!(s.req_len, 0);
    assert_eq!(s.pid, 0);
    assert!(s.needs_get_random_exit());
}

#[test]
fn test_seeded_rng_deterministic() {
    let mut state1 = RdrandState::seeded_rng(12345);
    let mut state2 = RdrandState::seeded_rng(12345);
    for _ in 0..100 {
        assert_eq!(state1.generate(), state2.generate());
    }
}

#[test]
fn test_seeded_rng_different_seeds() {
    let mut state1 = RdrandState::seeded_rng(12345);
    let mut state2 = RdrandState::seeded_rng(54321);
    let mut same_count = 0;
    for _ in 0..100 {
        if state1.generate() == state2.generate() {
            same_count += 1;
        }
    }
    assert!(same_count < 10);
}

#[test]
fn test_exit_to_userspace_mode() {
    let mut state = RdrandState::exit_to_userspace();
    assert!(state.needs_userspace_exit());
    assert_eq!(state.generate(), None);

    state.set_pending_value(0x1234);
    assert!(!state.needs_userspace_exit());
    assert_eq!(state.generate(), Some(0x1234));

    assert!(state.needs_userspace_exit());
    assert_eq!(state.generate(), None);
}

#[test]
fn test_configure() {
    let mut state = RdrandState::default();

    state.configure(rdrand::RdrandMode::SeededRng, 100);
    assert_eq!(state.mode, rdrand::RdrandMode::SeededRng);
    let first = state.generate();
    let second = state.generate();
    assert_ne!(first, second);

    state.configure(rdrand::RdrandMode::ExitToUserspace, 0);
    assert_eq!(state.mode, rdrand::RdrandMode::ExitToUserspace);
    assert!(state.needs_userspace_exit());
}

#[test]
fn test_zero_seed_handled() {
    let state = RdrandState::seeded_rng(0);
    assert_eq!(state.value, 1);
}

#[test]
fn xorshift_from_one_is_the_published_stream() {
    let mut s = RandomState::seeded_rng(1);
    assert_eq!(s.next_seeded_u64(), 0x4082_2041);
    assert_eq!(s.next_seeded_u64(), 0x1000_4106_0C01_1441);
}

#[test]
fn seeded_bytes_are_the_values_least_significant_byte_first() {
    let mut values = RandomState::seeded_rng(99);
    let mut buffer = RandomState::seeded_rng(99);
    let first = values.next_seeded_u64().to_le_bytes();
    let second = values.next_seeded_u64().to_le_bytes();
    let got = buffer.next_seeded_bytes(11);
    assert_eq!(got.len(), 11);
    assert_eq!(&got[..8], &first);
    assert_eq!(&got[8..], &second[..3]);
    assert_eq!(buffer.seed, values.seed);
    assert!(buffer.next_seeded_bytes(0).is_empty());
}
