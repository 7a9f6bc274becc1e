use drl::replay::{ReplayBuffer, ReplayError, Transition};

fn step_record(tag: i64) -> Transition {
    Transition {
        state: vec![tag; 4],
        action: (tag % 4) as u8,
        reward: -1,
        next_state: vec![tag + 1; 4],
        done: false,
    }
}

#[test]
fn test_fifo_eviction_keeps_last_capacity() {
    let mut buffer: ReplayBuffer<Transition> = ReplayBuffer::new(3);
    for tag in 0..5 {
        buffer.push(step_record(tag));
    }
    assert_eq!(buffer.len(), 3);
    for slot in 0..3 {
        let record = buffer.get(slot);
        let expected_tag = slot as i64 + 2;
        assert_eq!(record.state, vec![expected_tag; 4]);
        assert_eq!(record.next_state, vec![expected_tag + 1; 4]);
    }
}

#[test]
fn test_fifo_eviction_capacity_plus_k() {
    let mut buffer: ReplayBuffer<u64> = ReplayBuffer::new(10);
    for v in 0..17u64 {
        buffer.push(v);
    }
    assert_eq!(buffer.len(), 10);
    for slot in 0..10 {
        assert_eq!(*buffer.get(slot), slot as u64 + 7);
        assert!(*buffer.get(slot) >= 7, "the 7 oldest records must be gone");
    }
}

#[test]
fn test_push_below_capacity_appends() {
    let mut buffer: ReplayBuffer<u64> = ReplayBuffer::new(4);
    buffer.push(11);
    buffer.push(22);
    assert_eq!(buffer.len(), 2);
    assert_eq!(buffer.capacity(), 4);
    assert_eq!(*buffer.get(0), 11);
    assert_eq!(*buffer.get(1), 22);
}

#[test]
fn test_sample_needs_more_records_than_batch() {
    let mut buffer: ReplayBuffer<u64> = ReplayBuffer::new(8);
    for v in 0..3u64 {
        buffer.push(v);
    }
    assert_eq!(buffer.sample(3), Err(ReplayError::InsufficientData));
    assert_eq!(buffer.sample(4), Err(ReplayError::InsufficientData));
    assert!(buffer.sample(2).is_ok());
}

#[test]
fn test_sample_draws_distinct_positions() {
    let mut buffer: ReplayBuffer<u64> = ReplayBuffer::new(16);
    for v in 0..10u64 {
        buffer.push(v * 100);
    }
    for _ in 0..20 {
        let picks = buffer.sample(9).unwrap();
        assert_eq!(picks.len(), 9);
        let mut seen = [false; 10];
        for ix in &picks {
            assert!(*ix < 10);
            assert!(!seen[*ix], "a position may be drawn once only");
            seen[*ix] = true;
            assert_eq!(*buffer.get(*ix) % 100, 0);
        }
    }
}
