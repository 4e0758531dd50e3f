use core_audio::vla::BorrowedRecord;
use core_audio::vla::RecordShape;
use core_audio::vla::VariableLengthArray;
use core_audio::vla::INLINE_WORDS;
use core_audio::vla::WORD_BYTES;

fn tiny_shape() -> RecordShape {
    // one count word as the whole header, one word per element
    RecordShape::new(4, 0, 4).unwrap()
}

fn list_shape() -> RecordShape {
    // the buffer-list layout: 8-byte header, count first, 16-byte items
    RecordShape::new(8, 0, 16).unwrap()
}

#[test]
fn shape_rejects_unaligned_sizes() {
    assert!(RecordShape::new(8, 0, 16).is_some());
    assert!(RecordShape::new(7, 0, 16).is_none());
    assert!(RecordShape::new(8, 0, 10).is_none());
    assert!(RecordShape::new(8, 2, 16).is_none());
    assert!(RecordShape::new(4, 4, 4).is_none());
}

#[test]
fn sizing_formula_is_exact() {
    let s = list_shape();
    assert_eq!(s.words_for(0), 2);
    assert_eq!(s.words_for(1), 6);
    assert_eq!(s.words_for(3), 14);
    let t = tiny_shape();
    assert_eq!(t.words_for(0), 1);
    assert_eq!(t.words_for(64), 65);
}

#[test]
fn round_trip_sizing() {
    for n in [0u32, 1, 2, 8, 15, 16, 63, 64, 200] {
        let r = VariableLengthArray::with_len(tiny_shape(), n);
        assert_eq!(r.len(), n as usize);
    }
}

#[test]
fn zero_length_record() {
    let r = VariableLengthArray::with_len(list_shape(), 0);
    assert_eq!(r.len(), 0);
    assert_eq!(r.release_words(), 2);
    assert!(matches!(r, VariableLengthArray::Inline(_)));
}

#[test]
fn alloc_release_symmetry_heap() {
    let r = VariableLengthArray::with_len(tiny_shape(), 100);
    assert!(matches!(r, VariableLengthArray::Heap(_)));
    assert_eq!(r.storage_words(), 101);
    assert_eq!(r.release_words(), r.storage_words());
}

#[test]
fn inline_storage_is_fixed_capacity() {
    let r = VariableLengthArray::with_len(tiny_shape(), 5);
    assert!(matches!(r, VariableLengthArray::Inline(_)));
    assert_eq!(r.storage_words(), INLINE_WORDS);
    assert_eq!(r.release_words(), 6);
}

#[test]
fn idempotent_read() {
    let mut r = VariableLengthArray::with_len(list_shape(), 2);
    r.set_item_word(1, 0, 7);
    r.set_item_word(1, 3, 9);
    let a = r.read_item(1);
    let b = r.read_item(1);
    assert_eq!(a, b);
    assert_eq!(a, vec![7, 0, 0, 9]);
}

#[test]
fn large_record_keeps_pattern() {
    let n: u32 = 64;
    let mut r = VariableLengthArray::with_len(tiny_shape(), n);
    assert!(matches!(r, VariableLengthArray::Heap(_)));
    for i in 0..n as usize {
        r.set_item_word(i, 0, i as u32);
    }
    for i in 0..n as usize {
        assert_eq!(r.item_word(i, 0), i as u32);
    }
    assert_eq!(r.len(), 64);
}

#[test]
fn inline_threshold_boundary() {
    // with a one-word header and one-word items the inline buffer holds
    // INLINE_WORDS - 1 elements; one more moves the record to the heap
    let k = (INLINE_WORDS - 1) as u32;
    let mut below = VariableLengthArray::with_len(tiny_shape(), k);
    let mut at = VariableLengthArray::with_len(tiny_shape(), k + 1);
    assert!(matches!(below, VariableLengthArray::Inline(_)));
    assert!(matches!(at, VariableLengthArray::Heap(_)));
    assert_eq!(below.len(), k as usize);
    assert_eq!(at.len(), k as usize + 1);
    for i in 0..k as usize {
        below.set_item_word(i, 0, 3 * i as u32);
        at.set_item_word(i, 0, 3 * i as u32);
    }
    for i in 0..k as usize {
        assert_eq!(below.item_word(i, 0), at.item_word(i, 0));
        assert_eq!(below.read_item(i), at.read_item(i));
    }
}

#[test]
fn count_is_read_fresh_and_never_written_by_items() {
    let mut r = VariableLengthArray::with_len(tiny_shape(), 3);
    r.set_item_word(0, 0, 0xFFFF_FFFF);
    r.set_item_word(2, 0, 0xFFFF_FFFF);
    assert_eq!(r.len(), 3);
}

#[test]
fn header_words_are_independent_of_items() {
    let s = RecordShape::new(12, 8, 20).unwrap();
    let mut r = VariableLengthArray::with_len(s, 2);
    r.set_header_word(0, 0x11);
    r.set_header_word(1, 0x22);
    r.set_item_word(0, 0, 0x33);
    assert_eq!(r.header_word(0), 0x11);
    assert_eq!(r.header_word(1), 0x22);
    assert_eq!(r.header_word(2), 2); // the count word
    assert_eq!(r.len(), 2);
}

#[test]
fn borrowed_view_reads_without_owning() {
    let s = list_shape();
    // a caller-owned buffer: count 2, then two 4-word items
    let mut buffer: Vec<u32> = vec![2, 0, 10, 11, 12, 13, 20, 21, 22, 23];
    let before = buffer.clone();
    {
        let view = BorrowedRecord::from_words(s, &buffer).unwrap();
        assert_eq!(view.len(), 2);
        assert_eq!(view.read_item(0), vec![10, 11, 12, 13]);
        assert_eq!(view.read_item(1), vec![20, 21, 22, 23]);
        assert_eq!(view.item_word(1, 2), 22);
        assert_eq!(view.header_word(0), 2);
        // dropping the view frees nothing
    }
    assert_eq!(buffer, before);
    buffer.push(99);
    assert_eq!(buffer.len(), 11);
}

#[test]
fn borrowed_view_rejects_short_buffers() {
    let s = list_shape();
    // the count claims two items but the buffer holds only one
    let buffer: Vec<u32> = vec![2, 0, 10, 11, 12, 13];
    assert!(BorrowedRecord::from_words(s, &buffer).is_none());
    let empty: Vec<u32> = Vec::new();
    assert!(BorrowedRecord::from_words(s, &empty).is_none());
    let exact: Vec<u32> = vec![1, 0, 10, 11, 12, 13];
    assert!(BorrowedRecord::from_words(s, &exact).is_some());
}

#[test]
fn word_size_is_the_allocation_unit() {
    assert_eq!(WORD_BYTES, 4);
}
