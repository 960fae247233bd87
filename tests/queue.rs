use nesbot::queue::{EventQueue, QUEUE_CAPACITY};

#[test]
fn queue_keeps_arrival_order() {
    let mut q = EventQueue::new(4);
    assert!(q.push("up".to_string()));
    assert!(q.push("next".to_string()));
    assert!(q.push("a".to_string()));
    assert_eq!(q.len(), 3);
    assert_eq!(q.pop().as_deref(), Some("up"));
    assert_eq!(q.pop().as_deref(), Some("next"));
    assert_eq!(q.pop().as_deref(), Some("a"));
    assert_eq!(q.pop(), None);
}

#[test]
fn full_queue_rejects_newest() {
    let mut q = EventQueue::new(2);
    assert!(q.push(1));
    assert!(q.push(2));
    assert!(!q.push(3));
    assert_eq!(q.len(), 2);
    assert_eq!(q.pop(), Some(1));
    assert!(q.push(4));
    assert_eq!(q.pop(), Some(2));
    assert_eq!(q.pop(), Some(4));
}

#[test]
fn zero_capacity_takes_nothing() {
    let mut q: EventQueue<u8> = EventQueue::new(0);
    assert!(!q.push(1));
    assert_eq!(q.len(), 0);
    assert_eq!(q.pop(), None);
}

#[test]
fn default_capacity_is_bounded() {
    let mut q = EventQueue::new(QUEUE_CAPACITY);
    for i in 0..QUEUE_CAPACITY {
        assert!(q.push(i));
    }
    assert!(!q.push(QUEUE_CAPACITY));
    assert_eq!(q.len(), QUEUE_CAPACITY);
}
