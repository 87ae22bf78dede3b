use hypercubed::buffer_pool::{BufferArea, BufferAreaUsage, BufferManager};

#[test]
fn buffer_area_ownership() {
    let used = BufferArea { usage: BufferAreaUsage::Used([1, 2, 3]), num_chunks: 4 };
    let free = BufferArea { usage: BufferAreaUsage::Free, num_chunks: 4 };
    assert!(used.belongs_to([1, 2, 3]));
    assert!(!used.belongs_to([1, 2, 4]));
    assert!(!used.is_free());
    assert!(free.is_free());
    assert!(!free.belongs_to([1, 2, 3]));
}

#[test]
fn new_manager_is_all_free() {
    let m = BufferManager::new(1024, 64, 16);
    assert_eq!(m.free_bytes(), 1024);
}

#[test]
fn allocation_is_first_fit_in_whole_chunks() {
    let mut m = BufferManager::new(1024, 64, 16);
    // 100 bytes need two 64-byte chunks.
    assert_eq!(m.alloc_area([0, 0, 0], 100), (0, 0));
    assert_eq!(m.free_bytes(), 1024 - 128);
    // The next area starts right after, at byte 128, item 8.
    assert_eq!(m.alloc_area([1, 0, 0], 64), (128, 8));
    assert_eq!(m.free_bytes(), 1024 - 192);
}

#[test]
fn room_is_reported_before_allocation() {
    let mut m = BufferManager::new(256, 64, 16);
    assert!(!m.has_room_for(257));
    assert!(m.has_room_for(256));
    assert_eq!(m.free_bytes(), 256);
    assert_eq!(m.alloc_area([0, 0, 0], 256), (0, 0));
    assert!(!m.has_room_for(1));
    assert_eq!(m.free_bytes(), 0);
}

#[test]
fn freeing_a_subchunk_returns_all_its_areas() {
    let mut m = BufferManager::new(512, 64, 16);
    assert_eq!(m.alloc_area([0, 0, 0], 64), (0, 0));
    assert_eq!(m.alloc_area([5, 5, 5], 64), (64, 4));
    assert_eq!(m.alloc_area([0, 0, 0], 64), (128, 8));
    assert_eq!(m.free_bytes(), 512 - 192);
    m.free_subchunk_areas([0, 0, 0]);
    // The two chunks of [0, 0, 0] come back, and nothing else.
    assert_eq!(m.free_bytes(), 512 - 64);
    // The first gap (one chunk) is reused first.
    assert_eq!(m.alloc_area([7, 7, 7], 64), (0, 0));
    // A two-chunk request skips it and takes the merged run after [5, 5, 5].
    assert_eq!(m.alloc_area([8, 8, 8], 128), (128, 8));
}

#[test]
fn freeing_everything_restores_one_free_run() {
    let mut m = BufferManager::new(256, 64, 16);
    assert_eq!(m.alloc_area([0, 0, 0], 64), (0, 0));
    assert_eq!(m.alloc_area([1, 0, 0], 64), (64, 4));
    assert_eq!(m.alloc_area([2, 0, 0], 64), (128, 8));
    m.free_subchunk_areas([1, 0, 0]);
    m.free_subchunk_areas([0, 0, 0]);
    m.free_subchunk_areas([2, 0, 0]);
    assert_eq!(m.free_bytes(), 256);
    assert_eq!(m.alloc_area([3, 0, 0], 256), (0, 0));
}
