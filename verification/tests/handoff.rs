use oxxy::handoff::{HandoffQueue, HANDOFF_CAPACITY};

#[test]
fn capacity_is_one_hundred() {
    assert_eq!(HANDOFF_CAPACITY, 100);
}

#[test]
fn new_queue_is_empty() {
    let mut queue = HandoffQueue::new();
    assert_eq!(queue.len(), 0);
    assert!(queue.is_empty());
    assert!(!queue.is_full());
    assert_eq!(queue.take(), None);
    assert_eq!(queue.len(), 0);
}

#[test]
fn payloads_leave_in_the_order_they_came() {
    let mut queue = HandoffQueue::new();
    assert_eq!(queue.offer(b"first".to_vec()), Ok(()));
    assert_eq!(queue.offer(b"second".to_vec()), Ok(()));
    assert_eq!(queue.offer(b"third".to_vec()), Ok(()));
    assert_eq!(queue.len(), 3);
    assert_eq!(queue.take(), Some(b"first".to_vec()));
    assert_eq!(queue.take(), Some(b"second".to_vec()));
    assert_eq!(queue.offer(b"fourth".to_vec()), Ok(()));
    assert_eq!(queue.take(), Some(b"third".to_vec()));
    assert_eq!(queue.take(), Some(b"fourth".to_vec()));
    assert_eq!(queue.take(), None);
}

#[test]
fn the_hundred_and_first_payload_is_given_back() {
    let mut queue = HandoffQueue::new();
    for n in 0..100u8 {
        assert!(!queue.is_full());
        assert_eq!(queue.offer(vec![n]), Ok(()));
    }
    assert!(queue.is_full());
    assert_eq!(queue.len(), 100);
    assert_eq!(queue.offer(b"one too many".to_vec()), Err(b"one too many".to_vec()));
    assert_eq!(queue.len(), 100);
    assert_eq!(queue.offer(vec![]), Err(vec![]));
    assert_eq!(queue.len(), 100);
}

#[test]
fn a_full_queue_loses_nothing() {
    let mut queue = HandoffQueue::new();
    for n in 0..100u8 {
        assert_eq!(queue.offer(vec![n, n]), Ok(()));
    }
    assert_eq!(queue.offer(vec![200]), Err(vec![200]));
    for n in 0..100u8 {
        assert_eq!(queue.take(), Some(vec![n, n]));
    }
    assert_eq!(queue.take(), None);
}

#[test]
fn a_freed_slot_takes_the_payload_that_waited() {
    let mut queue = HandoffQueue::new();
    for n in 0..100u8 {
        assert_eq!(queue.offer(vec![n]), Ok(()));
    }
    let held = match queue.offer(b"late".to_vec()) {
        Err(back) => back,
        Ok(()) => panic!("a full queue accepted a payload"),
    };
    assert_eq!(queue.take(), Some(vec![0]));
    assert!(!queue.is_full());
    assert_eq!(queue.offer(held), Ok(()));
    assert!(queue.is_full());
    for n in 1..100u8 {
        assert_eq!(queue.take(), Some(vec![n]));
    }
    assert_eq!(queue.take(), Some(b"late".to_vec()));
    assert!(queue.is_empty());
}
