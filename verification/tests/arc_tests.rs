use concurrency::arc::{Arc, Heap};

#[test]
fn test_arc_strong_ref() {
    let mut heap: Heap<Vec<u8>> = Heap::new();
    let value: Vec<u8> = vec![1, 2, 3];
    let shared = Arc::new(&mut heap, value);
    let shared1 = shared.clone(&mut heap);
    let shared2 = shared.clone(&mut heap);
    assert_eq!(shared1.deref(&heap).len(), 3);
    assert_eq!(shared2.deref(&heap).len(), 3);
    shared1.drop(&mut heap);
    shared2.drop(&mut heap);
    shared.get_mut(&mut heap).unwrap().push(4);
    let shared1 = shared.clone(&mut heap);
    let shared2 = shared.clone(&mut heap);
    assert_eq!(shared1.deref(&heap).len(), 4);
    assert_eq!(shared2.deref(&heap).len(), 4);
}

#[test]
fn test_arc_get_mut_only_happens_with_one_ref() {
    let mut heap: Heap<Vec<u8>> = Heap::new();
    let value: Vec<u8> = Vec::new();
    let shared = Arc::new(&mut heap, value);
    assert!(shared.get_mut(&mut heap).is_some());
    let shared1 = shared.clone(&mut heap);
    assert!(shared1.get_mut(&mut heap).is_none());
    shared.drop(&mut heap);
    let weak1 = shared1.downgrade(&mut heap);
    assert!(shared1.get_mut(&mut heap).is_none());
    weak1.drop(&mut heap);
    assert!(shared1.get_mut(&mut heap).is_some());
}

#[test]
fn test_arc_is_correctly_dropped() {
    let mut heap: Heap<u8> = Heap::new();
    let shared = Arc::new(&mut heap, 7);
    let shared1 = shared.clone(&mut heap);
    let weak1 = shared.downgrade(&mut heap);
    shared.drop(&mut heap);
    assert_eq!(heap.destroyed_count(), 0);
    let shared2 = weak1.upgrade(&mut heap);
    assert!(shared2.is_some());
    shared1.drop(&mut heap);
    assert_eq!(heap.destroyed_count(), 0);
    shared2.unwrap().drop(&mut heap);
    assert_eq!(heap.destroyed_count(), 1);
    assert!(weak1.upgrade(&mut heap).is_none())
}

#[test]
fn test_arc_weak_ref() {
    let mut heap: Heap<Vec<u8>> = Heap::new();
    let value: Vec<u8> = vec![1, 2, 3];
    let shared = Arc::new(&mut heap, value);
    let weak1 = shared.downgrade(&mut heap);
    let weak2 = shared.downgrade(&mut heap);
    let shared1 = weak1.upgrade(&mut heap).unwrap();
    assert_eq!(shared1.deref(&heap).len(), 3);
    shared1.drop(&mut heap);
    let shared2 = weak2.upgrade(&mut heap).unwrap();
    assert_eq!(shared2.deref(&heap).len(), 3);
    shared2.drop(&mut heap);
    weak1.drop(&mut heap);
    weak2.drop(&mut heap);
    shared.get_mut(&mut heap).unwrap().push(4);
    let weak1 = shared.downgrade(&mut heap);
    let weak2 = shared.downgrade(&mut heap);
    let shared1 = weak1.upgrade(&mut heap).unwrap();
    assert_eq!(shared1.deref(&heap).len(), 4);
    shared1.drop(&mut heap);
    let shared2 = weak2.upgrade(&mut heap).unwrap();
    assert_eq!(shared2.deref(&heap).len(), 4);
}

// Create a shared [1, 2, 3]; clone twice, so three owning handles are
// live; drop the two clones; exclusive access is then granted and a
// pushed 4 lands in the payload.
#[test]
fn scenario_three_handles_then_exclusive() {
    let mut heap: Heap<Vec<u8>> = Heap::new();
    let shared = Arc::new(&mut heap, vec![1, 2, 3]);
    let clone1 = shared.clone(&mut heap);
    let clone2 = shared.clone(&mut heap);
    assert_eq!(shared.data(&heap).strong_count(), 3);
    assert!(shared.get_mut(&mut heap).is_none());
    clone1.drop(&mut heap);
    clone2.drop(&mut heap);
    let payload = shared.get_mut(&mut heap).unwrap();
    payload.push(4);
    assert_eq!(shared.deref(&heap), &vec![1, 2, 3, 4]);
}

// Create a shared value; downgrade to a weak handle; drop the owning
// handle: the payload is destroyed at once, and an upgrade now fails.
#[test]
fn scenario_weak_outlives_payload() {
    let mut heap: Heap<u8> = Heap::new();
    let shared = Arc::new(&mut heap, 5);
    let weak = shared.downgrade(&mut heap);
    shared.drop(&mut heap);
    assert_eq!(heap.destroyed_count(), 1);
    assert!(weak.upgrade(&mut heap).is_none());
}

// Create a shared value; clone it; downgrade; drop the first handle:
// the payload survives through the clone, the upgrade still succeeds,
// and the payload is destroyed exactly once, when the last owning
// handle goes.
#[test]
fn scenario_clone_keeps_payload_alive() {
    let mut heap: Heap<u8> = Heap::new();
    let shared = Arc::new(&mut heap, 5);
    let shared_prime = shared.clone(&mut heap);
    let weak = shared.downgrade(&mut heap);
    shared.drop(&mut heap);
    assert_eq!(heap.destroyed_count(), 0);
    let upgraded = weak.upgrade(&mut heap);
    assert!(upgraded.is_some());
    shared_prime.drop(&mut heap);
    assert_eq!(heap.destroyed_count(), 0);
    upgraded.unwrap().drop(&mut heap);
    assert_eq!(heap.destroyed_count(), 1);
    // The last weak handle out reclaims the block itself.
    weak.drop(&mut heap);
    assert_eq!(heap.destroyed_count(), 0);
}

// The counters follow the protocol step by step: creation starts at
// strong 1, total 2; each owning clone raises both; a downgrade raises
// only the total; drops undo them; the block is reclaimed when the
// last handle goes.
#[test]
fn counters_follow_protocol() {
    let mut heap: Heap<u8> = Heap::new();
    let shared = Arc::new(&mut heap, 1);
    assert_eq!(shared.data(&heap).strong_count(), 1);
    assert_eq!(shared.data(&heap).total_count(), 2);
    let clone = shared.clone(&mut heap);
    assert_eq!(shared.data(&heap).strong_count(), 2);
    assert_eq!(shared.data(&heap).total_count(), 3);
    let weak = shared.downgrade(&mut heap);
    assert_eq!(shared.data(&heap).strong_count(), 2);
    assert_eq!(shared.data(&heap).total_count(), 4);
    clone.drop(&mut heap);
    assert_eq!(shared.data(&heap).strong_count(), 1);
    assert_eq!(shared.data(&heap).total_count(), 3);
    shared.drop(&mut heap);
    assert_eq!(weak.data(&heap).strong_count(), 0);
    assert_eq!(weak.data(&heap).total_count(), 1);
    assert_eq!(heap.destroyed_count(), 1);
    weak.drop(&mut heap);
    assert_eq!(heap.destroyed_count(), 0);
}
