use tlsf::mapping::{mapping_insert, mapping_search};
use tlsf::{Index, ALIGN_SIZE, FLI, MAX_BLOCK_SIZE, MAX_REQUEST_SIZE, SIZE_THRESHOLD, SLI};

#[test]
fn insert_linear_region() {
    assert_eq!(mapping_insert(32), Index { fl: 0, sl: 8 });
    for size in (0..SIZE_THRESHOLD).step_by(ALIGN_SIZE as usize) {
        let idx = mapping_insert(size);
        assert_eq!(idx.fl, 0);
        assert_eq!(idx.sl, (size >> 2) as u8);
    }
}

#[test]
fn insert_at_threshold_takes_bracketed_path() {
    // 256 sits at the bottom of its power-of-two bracket: second level 0.
    let idx = mapping_insert(256);
    assert_ne!(idx.fl, 0);
    assert_eq!(idx, Index { fl: 3, sl: 0 });
    // The threshold itself is the first bracketed size.
    assert_eq!(mapping_insert(SIZE_THRESHOLD), Index { fl: 1, sl: 0 });
}

#[test]
fn insert_largest_block() {
    let idx = mapping_insert(MAX_BLOCK_SIZE);
    assert_eq!(idx, Index { fl: 10, sl: 15 });
    assert!(idx.fl < FLI && idx.sl < SLI);
}

#[test]
fn search_equals_insert_below_threshold() {
    for size in (0..SIZE_THRESHOLD).step_by(ALIGN_SIZE as usize) {
        assert_eq!(mapping_search(size), mapping_insert(size));
    }
}

#[test]
fn search_rounds_up_within_bracket() {
    // 100 rounds to the top of its subdivision, 103, still in class (1, 9).
    assert_eq!(mapping_search(100), Index { fl: 1, sl: 9 });
    // 104 is already a subdivision front, rounds to 107, same class (1, 10).
    assert_eq!(mapping_search(104), Index { fl: 1, sl: 10 });
}

#[test]
fn search_largest_request_stays_in_range() {
    let idx = mapping_search(MAX_REQUEST_SIZE);
    assert!(idx.fl < FLI && idx.sl < SLI);
    assert_eq!(idx, Index { fl: 10, sl: 15 });
}

#[test]
fn indices_are_always_in_range() {
    for size in (0..=MAX_BLOCK_SIZE).step_by(ALIGN_SIZE as usize) {
        let idx = mapping_insert(size);
        assert!(idx.fl < FLI && idx.sl < SLI);
        if size <= MAX_REQUEST_SIZE {
            let idx = mapping_search(size);
            assert!(idx.fl < FLI && idx.sl < SLI);
        }
    }
}

#[test]
fn insert_is_monotonic() {
    let mut prev = mapping_insert(0);
    for size in (0..=MAX_BLOCK_SIZE).step_by(ALIGN_SIZE as usize) {
        let idx = mapping_insert(size);
        assert!((prev.fl, prev.sl) <= (idx.fl, idx.sl));
        prev = idx;
    }
}

#[test]
fn search_never_underestimates() {
    for &size in &[64u16, 100, 104, 252, 256, 1000, 4096, 30000, MAX_REQUEST_SIZE] {
        let idx = mapping_search(size);
        let smallest = (0..=MAX_BLOCK_SIZE)
            .step_by(ALIGN_SIZE as usize)
            .find(|&block| mapping_insert(block) == idx)
            .expect("some block size maps to the searched class");
        assert!(smallest >= size);
    }
}
