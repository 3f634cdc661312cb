use kornia::{FrameBuffer, FrameRing, RING_CAPACITY};

/// A tiny well-formed frame (1 x 1 pixel, 3 bytes) tagged by its first byte.
fn frame(tag: u8) -> FrameBuffer {
    FrameBuffer::new(vec![tag, 0, 0], 1, 1).unwrap()
}

fn tag_of(f: &FrameBuffer) -> u8 {
    f.data[0]
}

#[test]
fn ring_capacity_is_five() {
    assert_eq!(RING_CAPACITY, 5);
}

#[test]
fn push_then_pop_returns_the_same_frame() {
    let mut ring = FrameRing::new();
    assert_eq!(ring.len(), 0);
    assert!(ring.push(frame(42)).is_none());
    assert_eq!(ring.len(), 1);
    let f = ring.pop_oldest().unwrap();
    assert_eq!(tag_of(&f), 42);
    assert_eq!(f.width, 1);
    assert_eq!(f.height, 1);
    assert_eq!(ring.len(), 0);
    assert!(ring.pop_oldest().is_none());
}

#[test]
fn overflow_evicts_oldest_and_keeps_newest_in_order() {
    // Pushing capacity + 1 frames leaves exactly `capacity` entries: the
    // oldest was evicted, and the rest pop in push order.
    let mut ring = FrameRing::new();
    for tag in 1..=5u8 {
        assert!(ring.push(frame(tag)).is_none());
    }
    assert_eq!(ring.len(), 5);
    let evicted = ring.push(frame(6)).expect("push on a full ring evicts");
    assert_eq!(tag_of(&evicted), 1);
    assert_eq!(ring.len(), 5);
    for tag in 2..=6u8 {
        assert_eq!(tag_of(&ring.pop_oldest().unwrap()), tag);
    }
    assert!(ring.pop_oldest().is_none());
}

#[test]
fn seven_pushes_release_first_two_and_drain_the_rest() {
    let mut ring = FrameRing::new();
    let mut evicted_tags = Vec::new();
    for tag in 1..=7u8 {
        if let Some(old) = ring.push(frame(tag)) {
            evicted_tags.push(tag_of(&old));
        }
    }
    assert_eq!(evicted_tags, vec![1, 2]);
    let drained = ring.clear();
    let tags: Vec<u8> = drained.iter().map(tag_of).collect();
    assert_eq!(tags, vec![3, 4, 5, 6, 7]);
    assert_eq!(ring.len(), 0);
}

#[test]
fn clear_is_idempotent() {
    let mut ring = FrameRing::new();
    assert!(ring.clear().is_empty());
    assert_eq!(ring.len(), 0);

    ring.push(frame(1));
    ring.push(frame(2));
    let drained = ring.clear();
    assert_eq!(drained.len(), 2);
    assert_eq!(tag_of(&drained[0]), 1);
    assert_eq!(tag_of(&drained[1]), 2);
    assert_eq!(ring.len(), 0);

    assert!(ring.clear().is_empty());
    assert_eq!(ring.len(), 0);
}
