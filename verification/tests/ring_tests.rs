use starglow::timestamps::{decode_timestamps, TimestampRing, TIMESTAMP_BUFFER_BYTES};

#[test]
fn new_ring_holds_one_idle_buffer() {
    let r = TimestampRing::new();
    assert_eq!(r.idle, vec![0]);
    assert!(r.in_flight.is_empty());
    assert_eq!(r.next_id, 1);
    assert_eq!(r.last_times(), vec![0, 0, 0, 0]);
}

#[test]
fn no_stall_cycle_keeps_ring_size_stable() {
    let mut r = TimestampRing::new();
    for frame in 0..10u64 {
        let target = r.resolve();
        assert_eq!(target, 0, "the single buffer is reused every frame");
        let buffer = r.begin_readback();
        assert_eq!(buffer, target);
        r.complete_readback(buffer, Some(vec![frame, frame + 1, frame + 2, frame + 3]));
        assert_eq!(r.next_id, 1, "no allocation when mapping completes within the frame");
        assert_eq!(r.idle.len(), 1);
        assert!(r.in_flight.is_empty());
    }
    assert_eq!(r.last_times(), vec![9, 10, 11, 12]);
}

#[test]
fn stalled_mappings_grow_the_ring_one_buffer_per_outstanding_frame() {
    let mut r = TimestampRing::new();
    // frame 1: mapping never completes before frame 2
    let t1 = r.resolve();
    let b1 = r.begin_readback();
    assert_eq!((t1, b1), (0, 0));
    // frame 2: no idle buffer is left, so one is allocated
    let t2 = r.resolve();
    assert_eq!(t2, 1);
    assert_eq!(r.next_id, 2);
    let b2 = r.begin_readback();
    assert_eq!(b2, 1);
    // two outstanding frames, exactly two buffers awaiting their host map
    assert_eq!(r.in_flight, vec![0, 1]);
    // both callbacks arrive late, out of order; the buffers return idle
    r.complete_readback(1, Some(vec![5, 6, 7, 8]));
    r.complete_readback(0, Some(vec![1, 2, 3, 4]));
    assert_eq!(r.idle, vec![1, 0]);
    assert!(r.in_flight.is_empty());
    // the pool stabilized at the high-water mark; it never shrinks
    assert_eq!(r.next_id, 2);
}

#[test]
fn failed_mapping_retains_stale_times() {
    let mut r = TimestampRing::new();
    r.resolve();
    let b = r.begin_readback();
    r.complete_readback(b, Some(vec![10, 20, 30, 40]));
    assert_eq!(r.last_times(), vec![10, 20, 30, 40]);
    r.resolve();
    let b = r.begin_readback();
    r.complete_readback(b, None);
    // the mapping failed: stale timings stay, the buffer still returns
    assert_eq!(r.last_times(), vec![10, 20, 30, 40]);
    assert_eq!(r.idle.len(), 1);
    assert!(r.in_flight.is_empty());
}

#[test]
fn decode_timestamps_reads_little_endian_words() {
    let mut bytes = vec![0u8; TIMESTAMP_BUFFER_BYTES];
    bytes[0] = 1; // word 0 = 1
    bytes[8] = 0x02;
    bytes[9] = 0x01; // word 1 = 0x0102
    bytes[16] = 0xff; // word 2 = 255
    bytes[31] = 0x80; // word 3 = 0x8000_0000_0000_0000
    let decoded = decode_timestamps(&bytes).unwrap();
    assert_eq!(decoded, vec![1, 0x0102, 255, 0x8000_0000_0000_0000]);
}

#[test]
fn decode_timestamps_rejects_wrong_sizes() {
    assert!(decode_timestamps(&[]).is_none());
    assert!(decode_timestamps(&[0u8; 31]).is_none());
    assert!(decode_timestamps(&[0u8; 33]).is_none());
    assert_eq!(decode_timestamps(&[0u8; 32]).unwrap(), vec![0, 0, 0, 0]);
}
