use std::cell::Cell;
use std::rc::Rc;

use utils_atomics::fill_queue::{ChopIter, FillQueue};

/// A value that counts itself when dropped, to watch node reclamation.
struct Counted {
    hits: Rc<Cell<usize>>,
}

impl Drop for Counted {
    fn drop(&mut self) {
        self.hits.set(self.hits.get() + 1);
    }
}

fn drain<T>(mut iter: ChopIter<T>) -> Vec<T> {
    let mut out = Vec::new();
    while let Some(v) = iter.next() {
        out.push(v);
    }
    out
}

#[test]
fn fill_queue_test_basic_functionality() {
    let mut fill_queue = FillQueue::new();
    assert!(fill_queue.is_empty());

    fill_queue.push(1);
    fill_queue.push(2);
    fill_queue.push(3);

    assert!(!fill_queue.is_empty());

    let mut chop_iter = fill_queue.chop_mut();
    assert_eq!(chop_iter.next(), Some(3));
    assert_eq!(chop_iter.next(), Some(2));
    assert_eq!(chop_iter.next(), Some(1));
    assert_eq!(chop_iter.next(), None);

    fill_queue.push_mut(1);
    fill_queue.push_mut(2);
    fill_queue.push_mut(3);

    let mut chop_iter = fill_queue.chop();
    assert_eq!(chop_iter.next(), Some(3));
    assert_eq!(chop_iter.next(), Some(2));
    assert_eq!(chop_iter.next(), Some(1));
    assert_eq!(chop_iter.next(), None);

    assert!(fill_queue.is_empty());
}

#[test]
fn queue_lifo_order_single_chop() {
    let mut queue = FillQueue::new();
    queue.push(1);
    queue.push(2);
    queue.push(3);
    let mut iter = queue.chop();
    assert_eq!(iter.next(), Some(3));
    assert_eq!(iter.next(), Some(2));
    assert_eq!(iter.next(), Some(1));
    assert_eq!(iter.next(), None);
    assert_eq!(iter.next(), None);
}

#[test]
fn queue_empty_chop_is_empty() {
    let mut queue = FillQueue::<u64>::new();
    assert!(queue.is_empty());
    let mut iter = queue.chop();
    assert_eq!(iter.next(), None);
    assert!(queue.is_empty());
}

#[test]
fn queue_try_push_reports_ok() {
    let mut queue = FillQueue::new();
    assert!(queue.try_push(1).is_ok());
    assert!(queue.try_push_mut(2).is_ok());
    let got = drain(queue.chop_mut());
    assert_eq!(got, vec![2, 1]);
}

#[test]
fn queue_no_loss_no_duplication_across_chops() {
    let mut queue = FillQueue::new();
    let mut seen: Vec<i32> = Vec::new();

    queue.push(10);
    queue.push(20);
    seen.extend(drain(queue.chop()));

    queue.push(30);
    queue.push(20);
    seen.extend(drain(queue.chop()));

    // the final chop takes what is left; nothing was lost or repeated
    queue.push(40);
    seen.extend(drain(queue.chop()));
    assert!(queue.is_empty());

    seen.sort();
    assert_eq!(seen, vec![10, 20, 20, 30, 40]);
}

#[test]
fn queue_mut_variants_match_atomic_variants() {
    let mut atomic = FillQueue::new();
    let mut exclusive = FillQueue::new();
    let ops: Vec<i32> = vec![5, -3, 0, 7];

    for &v in &ops {
        atomic.push(v);
        exclusive.push_mut(v);
    }
    assert_eq!(atomic.is_empty(), exclusive.is_empty());
    assert_eq!(drain(atomic.chop()), drain(exclusive.chop_mut()));

    for &v in &ops {
        atomic.push(v);
        exclusive.push_mut(v);
    }
    atomic.push(99);
    exclusive.push_mut(99);
    assert_eq!(drain(atomic.chop()), drain(exclusive.chop_mut()));
    assert_eq!(atomic.is_empty(), exclusive.is_empty());
}

#[test]
fn queue_moves_owned_values() {
    let mut queue = FillQueue::new();
    queue.push(String::from("oldest"));
    queue.push(String::from("middle"));
    queue.push_mut(String::from("newest"));
    let got = drain(queue.chop());
    assert_eq!(got, vec!["newest", "middle", "oldest"]);
    assert!(queue.is_empty());
}

#[test]
fn chop_iter_early_drop_frees_remainder() {
    let hits = Rc::new(Cell::new(0));
    let mut queue = FillQueue::new();
    for _ in 0..5 {
        queue.push(Counted { hits: hits.clone() });
    }

    let mut iter = queue.chop();
    drop(iter.next());
    drop(iter.next());
    assert_eq!(hits.get(), 2);

    // dropping the iterator mid-way drops each remaining value exactly once
    drop(iter);
    assert_eq!(hits.get(), 5);
}

#[derive(Debug, Clone, Copy, PartialEq, Eq)]
struct Handle(u8);

#[test]
fn queue_new_in_carries_allocator_handle() {
    let mut queue: FillQueue<i32, Handle> = FillQueue::new_in(Handle(3));
    assert_eq!(*queue.allocator(), Handle(3));
    queue.push(1);
    let mut iter = queue.chop();
    assert_eq!(iter.next(), Some(1));
    assert_eq!(iter.next(), None);
}
