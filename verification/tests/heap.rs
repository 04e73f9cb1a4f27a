use psx::sys::heap::{heap_region, BiosAllocator, HeapSize, KB_BYTES, MB_BYTES, WORD_BYTES};

#[test]
fn heap_in_bytes_is_rounded_up_to_whole_words() {
    assert_eq!(HeapSize::Bytes(256).words(), 64);
    assert_eq!(HeapSize::Bytes(257).words(), 65);
    assert_eq!(HeapSize::Bytes(259).words(), 65);
    assert_eq!(HeapSize::Bytes(260).words(), 65);
    assert_eq!(HeapSize::Bytes(1).words(), 1);
    assert_eq!(HeapSize::Bytes(0).words(), 0);
}

#[test]
fn heap_in_kb_and_mb_is_exact() {
    assert_eq!(HeapSize::KB(128).words(), 32768);
    assert_eq!(HeapSize::KB(1).words(), 256);
    assert_eq!(HeapSize::MB(1).words(), 262144);
    assert_eq!(HeapSize::MB(2).words() * WORD_BYTES, 2 * MB_BYTES);
    assert_eq!(HeapSize::KB(3).words() * WORD_BYTES, 3 * KB_BYTES);
}

#[test]
fn heap_covers_request_and_less_than_a_word_more() {
    for n in 0usize..64 {
        let len = HeapSize::Bytes(n).words() * WORD_BYTES;
        assert!(len >= n);
        assert!(len < n + WORD_BYTES);
        assert_eq!(len % WORD_BYTES, 0);
    }
}

#[test]
fn heap_region_is_the_whole_array() {
    let r = heap_region(0x8010_0000, HeapSize::KB(128).words());
    assert_eq!(r.start, 0x8010_0000);
    assert_eq!(r.len, 128 * 1024);
    let r = heap_region(0x1f80_0000, 256);
    assert_eq!(r.start, 0x1f80_0000);
    assert_eq!(r.len, 1024);
}

#[test]
fn malloc_is_asked_for_the_layout_size() {
    let a = BiosAllocator;
    assert_eq!(a.malloc_request(24, 8), 24);
    assert_eq!(a.malloc_request(1, 4096), 1);
    assert_eq!(a.malloc_request(0, 1), 0);
}

#[test]
fn checked_words_agrees_with_words() {
    assert_eq!(HeapSize::Bytes(257).checked_words(), Some(65));
    assert_eq!(HeapSize::KB(128).checked_words(), Some(32768));
    assert_eq!(HeapSize::MB(1).checked_words(), Some(262144));
}

#[test]
fn checked_words_refuses_what_overflows() {
    assert_eq!(HeapSize::Bytes(usize::MAX).checked_words(), None);
    assert_eq!(HeapSize::Bytes(usize::MAX - 2).checked_words(), None);
    assert_eq!(HeapSize::Bytes(usize::MAX - 3).checked_words(), Some(usize::MAX / 4));
    assert_eq!(HeapSize::KB(usize::MAX / 1024 + 1).checked_words(), None);
    assert_eq!(HeapSize::MB(usize::MAX / 1048576 + 1).checked_words(), None);
    assert!(HeapSize::MB(usize::MAX / 1048576).checked_words().is_some());
}
