use hchap::relay::{RelayPoll, RelayQueue};

#[test]
fn empty_open_queue_is_pending() {
    let mut q: RelayQueue<u32> = RelayQueue::new();
    assert_eq!(q.poll(), RelayPoll::Pending);
    assert!(!q.is_closed());
}

#[test]
fn items_come_out_oldest_first() {
    let mut q = RelayQueue::new();
    q.push(1);
    q.push(2);
    assert_eq!(q.len(), 2);
    assert_eq!(q.poll(), RelayPoll::Ready(1));
    assert_eq!(q.poll(), RelayPoll::Ready(2));
    assert_eq!(q.poll(), RelayPoll::Pending);
}

#[test]
fn closing_keeps_queued_items() {
    let mut q = RelayQueue::new();
    for i in 0..5u32 {
        q.push(i);
    }
    q.close();
    assert!(q.is_closed());
    for i in 0..5u32 {
        assert_eq!(q.poll(), RelayPoll::Ready(i));
    }
    assert_eq!(q.poll(), RelayPoll::Finished);
    assert_eq!(q.poll(), RelayPoll::Finished);
}

#[test]
fn close_while_consumer_waits() {
    let mut q = RelayQueue::new();
    assert_eq!(q.poll(), RelayPoll::Pending);
    q.push("late");
    q.close();
    assert_eq!(q.poll(), RelayPoll::Ready("late"));
    assert_eq!(q.poll(), RelayPoll::Finished);
}

#[test]
fn closed_empty_queue_is_finished() {
    let mut q: RelayQueue<u8> = RelayQueue::new();
    q.close();
    assert_eq!(q.len(), 0);
    assert_eq!(q.poll(), RelayPoll::Finished);
}
