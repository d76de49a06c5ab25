use ants_rs::aggregator::Aggregator;
use ants_rs::worker::Worker;

#[test]
fn fresh_aggregator_is_empty() {
    let a = Aggregator::new();
    let states = a.get_all_states();
    assert!(states.is_empty());
}

#[test]
fn collects_in_call_order() {
    let mut a = Aggregator::new();
    a.collect_state(5);
    a.collect_state(2);
    a.collect_state(9);
    a.collect_state(2);
    assert_eq!(a.get_all_states(), vec![5, 2, 9, 2]);
}

#[test]
fn duplicates_are_kept() {
    let mut a = Aggregator::new();
    a.collect_state(7);
    a.collect_state(7);
    a.collect_state(7);
    assert_eq!(a.get_all_states(), vec![7, 7, 7]);
}

#[test]
fn reads_are_idempotent_and_copies_independent() {
    let mut a = Aggregator::new();
    a.collect_state(1);
    a.collect_state(4);
    let mut first = a.get_all_states();
    let second = a.get_all_states();
    assert_eq!(first, second);
    first.push(99);
    first[0] = 0;
    assert_eq!(second, vec![1, 4]);
    assert_eq!(a.get_all_states(), vec![1, 4]);
}

#[test]
fn distinct_values_all_collected_exactly_once() {
    let mut a = Aggregator::new();
    let values = [11, 22, 33, 44, 55];
    for v in values {
        a.collect_state(v);
    }
    let states = a.get_all_states();
    assert_eq!(states.len(), values.len());
    for v in values {
        assert_eq!(states.iter().filter(|s| **s == v).count(), 1);
    }
}

#[test]
fn largest_value_is_kept_as_is() {
    let mut a = Aggregator::new();
    a.collect_state(usize::MAX);
    a.collect_state(0);
    assert_eq!(a.get_all_states(), vec![usize::MAX, 0]);
}

#[test]
fn end_to_end_worker_then_aggregator() {
    let mut w = Worker::new(1, 0);
    w.perform_task();
    w.perform_task();
    w.perform_task();
    assert_eq!(w.report_state(), 3);

    let mut a = Aggregator::new();
    a.collect_state(3);
    a.collect_state(7);
    assert_eq!(a.get_all_states(), vec![3, 7]);
}
