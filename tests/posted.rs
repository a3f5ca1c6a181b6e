use ngx::posted::PostedQueue;

#[test]
fn posting_twice_queues_once() {
    let mut q = PostedQueue::new(8);
    q.post_to_queue(3);
    q.post_to_queue(3);
    assert!(q.is_posted(3));
    let out = q.drain();
    assert_eq!(out, vec![3]);
    assert_eq!(out.iter().filter(|h| **h == 3).count(), 1);
}

#[test]
fn drain_is_first_posted_first() {
    let mut q = PostedQueue::new(8);
    q.post_to_queue(1);
    q.post_to_queue(2);
    q.post_to_queue(3);
    assert_eq!(q.drain(), vec![1, 2, 3]);
    assert!(q.is_empty());
    assert!(!q.is_posted(1));
}

#[test]
fn empty_queue_drains_nothing() {
    let mut q = PostedQueue::new(4);
    assert!(q.is_empty());
    assert_eq!(q.drain(), Vec::<usize>::new());
    let mut none = PostedQueue::new(0);
    assert_eq!(none.drain(), Vec::<usize>::new());
}

#[test]
fn deleting_a_posted_event_keeps_the_others_in_order() {
    let mut q = PostedQueue::new(8);
    for h in [4, 0, 7, 2] {
        q.post_to_queue(h);
    }
    q.delete_posted_event(7);
    q.delete_posted_event(4);
    q.delete_posted_event(5);
    assert!(!q.is_posted(7));
    assert_eq!(q.drain(), vec![0, 2]);
}

#[test]
fn queue_is_reusable_after_drain() {
    let mut q = PostedQueue::new(3);
    q.post_to_queue(2);
    q.post_to_queue(0);
    assert_eq!(q.drain(), vec![2, 0]);
    q.post_to_queue(0);
    q.post_to_queue(1);
    q.post_to_queue(2);
    q.delete_posted_event(2);
    q.post_to_queue(2);
    assert_eq!(q.drain(), vec![0, 1, 2]);
    assert_eq!(q.capacity(), 3);
}
