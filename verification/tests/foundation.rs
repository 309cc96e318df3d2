use bedrock_vmx::compat::{heap_box_copy_from, heap_vec_push, heap_vec_remove_front};
use bedrock_vmx::devices::serial::SerialState;
use bedrock_vmx::events::types::{align_up, EventCategories};
use bedrock_vmx::exits::reasons::ExitReason;
use bedrock_vmx::hash::{StateHash, Xxh64Hasher};
use bedrock_vmx::logging::{LogEntry, LOG_ENTRY_SIZE, MAX_LOG_ENTRIES};
use bedrock_vmx::page::PagePool;
use bedrock_vmx::sorted_map::SortedMap;
use bedrock_vmx::stats::{AllExitStats, ExitStats};
use bedrock_vmx::vm_pages::{msr_bitmap_clear_intercept, VmPages, VmPagesError};

fn xxh64(b: &[u8]) -> u64 {
    let mut h = Xxh64Hasher::new();
    h.write_bytes(b);
    h.finish()
}

#[test]
fn xxh64_matches_published_values() {
    assert_eq!(xxh64(b""), 0xEF46_DB37_51D8_E999);
    assert_eq!(xxh64(b"a"), 0xD24E_C4F1_A98C_6E5B);
    assert_eq!(xxh64(b"abc"), 0x44BC_2CF5_AD77_0999);
}

#[test]
fn hashing_does_not_depend_on_how_bytes_arrive() {
    let data: Vec<u8> = (0..100u8).collect();
    let mut pieces = Xxh64Hasher::new();
    pieces.write_bytes(&data[..40]);
    for &b in &data[40..92] {
        pieces.write_u8(b);
    }
    pieces.write_u64(u64::from_le_bytes(data[92..].try_into().unwrap()));
    assert_eq!(pieces.finish(), xxh64(&data));
}

#[test]
fn device_hash_changes_with_the_device() {
    let mut serial = SerialState::default();
    let before = serial.state_hash();
    serial.scr = 1;
    assert_ne!(serial.state_hash(), before);
}

#[test]
fn sorted_map_keeps_keys_in_order() {
    let mut map: SortedMap<char> = SortedMap::new();
    map.insert(5, 'b');
    map.insert(1, 'a');
    map.insert(9, 'c');
    map.insert(5, 'B');
    assert_eq!(map.len(), 3);
    assert_eq!(
        (map.key_at(0), map.key_at(1), map.key_at(2)),
        (1, 5, 9)
    );
    assert_eq!(map.get(5), Some(&'B'));
    assert_eq!(map.get(2), None);
    assert!(map.contains(9));
}

#[test]
fn heap_helpers() {
    let mut v = Vec::new();
    assert!(heap_vec_push(&mut v, 1).is_ok());
    assert!(heap_vec_push(&mut v, 2).is_ok());
    assert_eq!(heap_vec_remove_front(&mut v), Some(1));
    assert_eq!(heap_vec_remove_front(&mut v), Some(2));
    assert_eq!(heap_vec_remove_front(&mut v), None);
    assert_eq!(*heap_box_copy_from(&[1u8, 2]).unwrap(), [1, 2]);
}

#[test]
fn alignment_rounds_up() {
    assert_eq!(align_up(0, 8), 0);
    assert_eq!(align_up(1, 8), 8);
    assert_eq!(align_up(8, 8), 8);
    assert_eq!(align_up(4097, 4096), 8192);
}

#[test]
fn categories_combine() {
    let both = EventCategories::exit().union(EventCategories::serial());
    assert!(both.contains(EventCategories::exit()));
    assert!(both.contains(EventCategories::serial()));
    assert!(!both.contains(EventCategories::inject()));
    assert!(both.contains(EventCategories::empty()));
}

#[test]
fn exit_reasons_round_trip() {
    assert_eq!(ExitReason::from_raw(12), Ok(ExitReason::Hlt));
    assert_eq!(ExitReason::Hlt.as_u32(), 12);
    assert_eq!(ExitReason::EptViolation.as_u32(), 48);
    assert!(ExitReason::from_raw(35).is_err());
}

#[test]
fn statistics_add_up() {
    let mut stats = AllExitStats::default();
    stats.record(ExitReason::Cpuid, 10);
    stats.record(ExitReason::Cpuid, 20);
    stats.record(ExitReason::Pause, 5);
    assert_eq!(stats.cpuid, ExitStats { count: 2, cycles: 30 });
    assert_eq!(stats.cpuid.avg_cycles(), 15);
    assert_eq!(stats.other.count, 1);
    assert_eq!(stats.total_exit_count(), 3);
    assert_eq!(stats.total_exit_cycles(), 35);
    stats.reset();
    assert_eq!(stats.total_exit_count(), 0);
    assert_eq!(ExitStats::default().avg_cycles(), 0);
}

#[test]
fn bitmap_lets_one_msr_through() {
    let mut bitmap = [0xFFu8; 4096];
    msr_bitmap_clear_intercept(&mut bitmap, 0x174);
    // Read and write bit of MSR 0x174: byte 0x2E, bit 4.
    assert_eq!(bitmap[0x2E], 0xEF);
    assert_eq!(bitmap[0x800 + 0x2E], 0xEF);
    assert_eq!(bitmap.iter().filter(|b| **b != 0xFF).count(), 2);
    msr_bitmap_clear_intercept(&mut bitmap, 0xC000_0082);
    assert_eq!(bitmap[0x400 + 0x10], 0xFB);
    assert_eq!(bitmap[0xC00 + 0x10], 0xFB);
}

#[test]
fn pages_come_from_the_pool() {
    let mut pool = PagePool::new();
    for i in 0..5 {
        pool.refill(0x1000 * i, 0);
    }
    let pages = VmPages::new(&mut pool).ok().unwrap();
    assert!(pool.frames.is_empty());
    assert_eq!(pages.host_xsave_page.bytes.len(), 4096);
    let mut short = PagePool::new();
    assert!(matches!(
        VmPages::new(&mut short),
        Err(VmPagesError::MsrBitmapAlloc)
    ));
}

#[test]
fn log_entries_start_empty() {
    let entry = LogEntry::new();
    assert_eq!((entry.tsc, entry.flags, entry.rip), (0, 0, 0));
    assert_eq!(LOG_ENTRY_SIZE * MAX_LOG_ENTRIES, 0x10_0000);
}
