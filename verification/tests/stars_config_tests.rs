use starglow::config::WindowConfig;
use starglow::stars::{StarStore, UploadSlot, STAR_BUFFER_CAPACITY};

#[test]
fn batches_are_written_end_to_end() {
    let mut s = StarStore::new();
    assert_eq!(s.vertex_count(), 0);
    let slot = s.upload_batch(200).unwrap();
    assert_eq!(slot, UploadSlot { offset_bytes: 0, size_bytes: 2400 });
    let slot = s.upload_batch(200).unwrap();
    assert_eq!(slot, UploadSlot { offset_bytes: 2400, size_bytes: 2400 });
    assert_eq!(s.count, 400);
    assert_eq!(s.vertex_count(), 400);
}

#[test]
fn overfull_batch_is_refused_whole() {
    let mut s = StarStore { count: STAR_BUFFER_CAPACITY - 1 };
    assert!(s.upload_batch(2).is_none());
    assert_eq!(s.count, STAR_BUFFER_CAPACITY - 1);
    let slot = s.upload_batch(1).unwrap();
    assert_eq!(slot.offset_bytes, 12 * (STAR_BUFFER_CAPACITY - 1));
    assert_eq!(slot.size_bytes, 12);
    assert_eq!(s.count, STAR_BUFFER_CAPACITY);
    assert!(s.upload_batch(1).is_none());
}

#[test]
fn window_size_must_be_nonzero() {
    let ok = WindowConfig { title: String::from("galaxy"), size: [800, 600] };
    assert!(ok.valid_size());
    let flat = WindowConfig { title: String::from("galaxy"), size: [800, 0] };
    assert!(!flat.valid_size());
    let thin = WindowConfig { title: String::from("galaxy"), size: [0, 600] };
    assert!(!thin.valid_size());
}
