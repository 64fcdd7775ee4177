use zenoh_grpc::queue::{DropOldestQueue, QueueRecvError};

#[test]
fn drops_oldest_when_full() {
    let mut q = DropOldestQueue::new(2);
    q.push(1);
    q.push(2);
    q.push(3);

    assert_eq!(q.dropped_count(), 1);
    assert_eq!(q.try_recv(), Ok(2));
    assert_eq!(q.try_recv(), Ok(3));
}

#[test]
fn push_hands_back_the_evicted_item() {
    let mut q = DropOldestQueue::new(2);
    assert_eq!(q.push("a"), None);
    assert_eq!(q.push("b"), None);
    assert_eq!(q.push("c"), Some("a"));
    assert_eq!(q.push("d"), Some("b"));
    assert_eq!(q.len(), 2);
    assert_eq!(q.dropped_count(), 2);
}

#[test]
fn keeps_the_last_capacity_items_in_order() {
    let mut q = DropOldestQueue::new(3);
    for i in 0..10 {
        q.push(i);
    }
    assert_eq!(q.dropped_count(), 7);
    assert_eq!(q.try_recv(), Ok(7));
    assert_eq!(q.try_recv(), Ok(8));
    assert_eq!(q.try_recv(), Ok(9));
    assert_eq!(q.try_recv(), Err(QueueRecvError::Empty));
}

#[test]
fn pending_counts_items_not_yet_processed() {
    let mut q = DropOldestQueue::new(2);
    q.push(1);
    q.push(2);
    assert_eq!(q.pending_count(), 2);
    q.push(3);
    assert_eq!(q.pending_count(), 2);
    assert_eq!(q.try_recv(), Ok(2));
    assert_eq!(q.pending_count(), 2);
    q.processed_one();
    assert_eq!(q.pending_count(), 1);
    assert_eq!(q.try_recv(), Ok(3));
    q.processed_one();
    assert_eq!(q.pending_count(), 0);
}

#[test]
fn empty_queue_without_producers_is_disconnected() {
    let mut q: DropOldestQueue<u8> = DropOldestQueue::new(1);
    assert!(!q.is_disconnected());
    assert_eq!(q.try_recv(), Err(QueueRecvError::Empty));
    q.push(5);
    q.remove_sender();
    assert!(q.is_disconnected());
    assert_eq!(q.try_recv(), Ok(5));
    assert_eq!(q.try_recv(), Err(QueueRecvError::Disconnected));
    q.add_sender();
    assert_eq!(q.try_recv(), Err(QueueRecvError::Empty));
}

#[test]
fn capacity_one_keeps_only_the_newest() {
    let mut q = DropOldestQueue::new(1);
    for i in 0..5u64 {
        q.push(i);
    }
    assert_eq!(q.dropped_count(), 4);
    assert_eq!(q.len(), 1);
    assert_eq!(q.try_recv(), Ok(4));
}

#[test]
fn settles_when_every_item_is_evicted_or_processed() {
    let mut q = DropOldestQueue::new(2);
    assert!(q.is_settled());
    q.push(1);
    q.push(2);
    q.push(3);
    assert!(!q.is_settled());
    assert_eq!(q.try_recv(), Ok(2));
    q.processed_one();
    assert!(!q.is_settled());
    assert_eq!(q.try_recv(), Ok(3));
    q.processed_one();
    assert!(q.is_settled());
}
