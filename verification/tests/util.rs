use aqueduct::util::atomic_take::AtomicTake;
use aqueduct::util::misc::remove_first;
use aqueduct::util::small_queue::SmallQueue;

#[test]
fn remove_first_keeps_rest() {
    let mut v = vec![1, 2, 3, 4];
    remove_first(&mut v, 0);
    assert_eq!(v, vec![1, 2, 3, 4]);
    remove_first(&mut v, 2);
    assert_eq!(v, vec![3, 4]);
    remove_first(&mut v, 2);
    assert!(v.is_empty());
}

#[test]
fn atomic_take_once() {
    let mut t = AtomicTake::some(5);
    assert_eq!(t.take(), Some(5));
    assert_eq!(t.take(), None);
    let mut n = AtomicTake::<u8>::none();
    assert_eq!(n.take(), None);
}

#[test]
fn small_queue_fifo() {
    let mut q: SmallQueue<u32, 2> = SmallQueue::new();
    for i in 0..5 {
        q.push_back(i);
    }
    assert_eq!(q.len(), 5);
    assert_eq!(*q.index(4), 4);
    assert_eq!(q.pop_front(), Some(0));
    assert_eq!(*q.index(0), 1);
    assert_eq!(q.len(), 4);
}

#[test]
fn small_queue_overflow_only_beyond_n() {
    let mut q: SmallQueue<u32, 2> = SmallQueue::new();
    assert_eq!(q.len(), 0);
    assert_eq!(q.pop_front(), None);
    assert!(!q.overflow_allocated());
    q.push_back(1);
    q.push_back(2);
    assert_eq!(q.pop_front(), Some(1));
    q.push_back(3);
    assert!(!q.overflow_allocated());
    q.push_back(4);
    assert!(q.overflow_allocated());
    assert_eq!(*q.index(0), 2);
    assert_eq!(*q.index(2), 4);
    for want in [2, 3, 4] {
        assert_eq!(q.pop_front(), Some(want));
    }
    assert_eq!(q.pop_front(), None);
    // more than 16 pushes, held at once
    for i in 0..40 {
        q.push_back(i);
    }
    for i in 0..40 {
        assert_eq!(q.pop_front(), Some(i));
    }
}
