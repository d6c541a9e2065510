use vban_xctrl::queue::WorkQueue;

#[test]
fn queue_starts_empty() {
    let mut q: WorkQueue<u32> = WorkQueue::new();
    assert!(q.get_work().is_none());
}

#[test]
fn queue_push_returns_length() {
    let mut q: WorkQueue<u32> = WorkQueue::new();
    assert_eq!(q.add_work(10), 1);
    assert_eq!(q.add_work(20), 2);
    assert_eq!(q.add_work(30), 3);
}

#[test]
fn queue_is_fifo() {
    let mut q: WorkQueue<u32> = WorkQueue::new();
    let items = [5u32, 7, 9, 11, 13];
    for item in items {
        q.add_work(item);
    }
    for item in items {
        assert_eq!(q.get_work(), Some(item));
    }
    assert!(q.get_work().is_none());
}

#[test]
fn queue_interleaved_push_pop_keeps_order() {
    let mut q: WorkQueue<&str> = WorkQueue::new();
    q.add_work("a");
    q.add_work("b");
    assert_eq!(q.get_work(), Some("a"));
    q.add_work("c");
    assert_eq!(q.get_work(), Some("b"));
    assert_eq!(q.get_work(), Some("c"));
    assert!(q.get_work().is_none());
}

#[test]
fn queue_delivers_each_item_exactly_once() {
    let mut q: WorkQueue<usize> = WorkQueue::new();
    let n: usize = 100;
    for i in 0..n {
        q.add_work(i);
    }
    let mut seen = vec![0usize; n];
    while let Some(item) = q.get_work() {
        seen[item] += 1;
    }
    for count in seen {
        assert_eq!(count, 1);
    }
}
