use utils_atomics::fill_queue::ChopIter;
use utils_atomics::flag::FlagState;
use utils_atomics::notify::NotifyState;

fn drain<T>(mut iter: ChopIter<T>) -> Vec<T> {
    let mut out = Vec::new();
    while let Some(v) = iter.next() {
        out.push(v);
    }
    out
}

#[test]
fn flag_wakes_all_registered_waiters_exactly_once() {
    let mut flag = FlagState::new();
    assert!(!flag.is_marked());

    // K subscribers register their wake tokens before completion
    for tok in 0..4 {
        assert_eq!(flag.register(tok), Ok(()));
    }

    let mut woken = drain(flag.complete());
    woken.sort();
    assert_eq!(woken, vec![0, 1, 2, 3]);
    assert!(flag.is_marked());

    // completion fires once: a second round has nobody left to wake
    assert_eq!(drain(flag.complete()), Vec::<i32>::new());
}

#[test]
fn flag_late_subscriber_returns_immediately() {
    let mut flag = FlagState::new();
    assert_eq!(flag.register(7), Ok(()));
    let woken = drain(flag.complete());
    assert_eq!(woken, vec![7]);

    // the flag is marked: registering hands the token straight back
    assert!(flag.is_marked());
    assert_eq!(flag.register(8), Err(8));
    assert_eq!(drain(flag.complete()), Vec::<i32>::new());
}

#[test]
fn flag_completes_with_no_waiters() {
    let mut flag = FlagState::<u32>::new();
    assert_eq!(drain(flag.complete()), Vec::<u32>::new());
    assert!(flag.is_marked());
}

#[test]
fn notify_rounds_are_scoped() {
    let mut notify = NotifyState::new();
    notify.register("early");

    let first_round = drain(notify.notify_all());
    assert_eq!(first_round, vec!["early"]);

    // a listener registering after the round is not woken by it
    notify.register("late");
    assert!(!first_round.contains(&"late"));

    // ... but the next round wakes it
    let second_round = drain(notify.notify_all());
    assert_eq!(second_round, vec!["late"]);
}

#[test]
fn notify_wakes_most_recent_registration_first() {
    let mut notify = NotifyState::new();
    notify.register(1);
    notify.register(2);
    notify.register(3);
    assert_eq!(drain(notify.notify_all()), vec![3, 2, 1]);
    assert_eq!(drain(notify.notify_all()), Vec::<i32>::new());
}
