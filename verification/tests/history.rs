use eterm::history::{History, Ratio, Sample};

fn times(history: &History) -> Vec<u64> {
    (0..history.len())
        .map(|i| history.get(i).unwrap().time)
        .collect()
}

fn values(history: &History) -> Vec<u64> {
    (0..history.len())
        .map(|i| history.get(i).unwrap().value)
        .collect()
}

#[test]
fn new_history_is_empty() {
    let history = History::new(2, 100, 1_000_000);
    assert!(history.is_empty());
    assert_eq!(history.len(), 0);
    assert_eq!(history.get(0), None);
    assert_eq!(history.newest_time(), None);
    assert_eq!(history.sum(), 0);
    assert_eq!(history.duration(), 0);
    assert_eq!(history.average(), None);
    assert_eq!(history.rate(), None);
    assert_eq!(history.sum_over_time(), None);
}

#[test]
fn add_appends_in_order() {
    let mut history = History::new(0, 100, 1000);
    history.add(10, 7);
    history.add(10, 8);
    history.add(12, 9);
    assert_eq!(history.len(), 3);
    assert_eq!(history.get(0), Some(Sample { time: 10, value: 7 }));
    assert_eq!(history.get(1), Some(Sample { time: 10, value: 8 }));
    assert_eq!(history.get(2), Some(Sample { time: 12, value: 9 }));
    assert_eq!(history.get(3), None);
    assert_eq!(history.newest_time(), Some(12));
}

#[test]
fn windowing() {
    // Samples at t = 0, 1, ..., 10 with a maximum age of 2: after a flush at
    // t = 10 only those with a time of at least 8 remain.
    let mut history = History::new(0, 100, 2);
    for t in 0..=10 {
        history.add(t, 100 + t);
    }
    history.flush(10);
    assert_eq!(times(&history), vec![8, 9, 10]);
    assert_eq!(values(&history), vec![108, 109, 110]);
}

#[test]
fn windowing_with_a_floor() {
    let mut history = History::new(5, 100, 2);
    for t in 0..=10 {
        history.add(t, t);
    }
    history.flush(10);
    assert_eq!(times(&history), vec![6, 7, 8, 9, 10]);
}

#[test]
fn a_sample_exactly_max_age_old_stays() {
    let mut history = History::new(0, 100, 2);
    history.add(8, 1);
    history.flush(10);
    assert_eq!(times(&history), vec![8]);
    history.flush(11);
    assert!(history.is_empty());
}

#[test]
fn silence_does_not_empty_a_history_below_its_floor() {
    let mut history = History::new(2, 100, 10);
    for t in 0..5 {
        history.add(t, t);
    }
    history.flush(1_000_000);
    assert_eq!(times(&history), vec![3, 4]);
    history.flush(2_000_000);
    assert_eq!(times(&history), vec![3, 4]);
}

#[test]
fn flush_before_max_age_has_passed_drops_nothing() {
    let mut history = History::new(0, 100, 50);
    history.add(3, 1);
    history.add(4, 1);
    history.flush(20);
    assert_eq!(history.len(), 2);
}

#[test]
fn count_is_capped_whatever_the_age() {
    let mut history = History::new(0, 3, 1_000_000);
    for t in 0..10 {
        history.add(t, t * 2);
    }
    assert_eq!(times(&history), vec![7, 8, 9]);
    assert_eq!(values(&history), vec![14, 16, 18]);
}

#[test]
fn cap_below_the_floor_wins() {
    let mut history = History::new(5, 2, 1_000_000);
    for t in 0..10 {
        history.add(t, t);
    }
    assert_eq!(times(&history), vec![8, 9]);
}

#[test]
fn a_history_that_may_hold_nothing_holds_nothing() {
    let mut history = History::new(0, 0, 1_000_000);
    history.add(1, 1);
    assert!(history.is_empty());
}

#[test]
fn add_flushes() {
    let mut history = History::new(1, 100, 5);
    history.add(0, 1);
    history.add(1, 1);
    history.add(100, 1);
    assert_eq!(times(&history), vec![100]);
}

#[test]
fn average_is_sum_over_count() {
    let mut history = History::new(2, 100, 1_000_000);
    history.add(0, 40);
    history.add(0, 44);
    assert_eq!(history.sum(), 84);
    assert_eq!(
        history.average(),
        Some(Ratio {
            numerator: 84,
            denominator: 2
        })
    );
}

#[test]
fn rate_is_count_over_span() {
    let mut history = History::new(0, 100, 1_000_000);
    history.add(1000, 0);
    assert_eq!(history.rate(), None);
    history.add(1500, 0);
    history.add(3000, 0);
    assert_eq!(history.duration(), 2000);
    assert_eq!(
        history.rate(),
        Some(Ratio {
            numerator: 3,
            denominator: 2000
        })
    );
}

#[test]
fn sum_over_time_is_sum_over_span() {
    let mut history = History::new(0, 100, 1_000_000);
    history.add(10, 500);
    assert_eq!(history.sum_over_time(), None);
    history.add(20, 1500);
    history.add(30, 1000);
    assert_eq!(
        history.sum_over_time(),
        Some(Ratio {
            numerator: 3000,
            denominator: 20
        })
    );
}

#[test]
fn samples_at_one_time_have_no_span() {
    let mut history = History::new(0, 100, 1_000_000);
    history.add(5, 1);
    history.add(5, 2);
    assert_eq!(
        history.rate(),
        Some(Ratio {
            numerator: 2,
            denominator: 0
        })
    );
}

#[test]
fn sum_does_not_overflow() {
    let mut history = History::new(0, 100, 1_000_000);
    history.add(0, u64::MAX);
    history.add(0, u64::MAX);
    history.add(0, u64::MAX);
    assert_eq!(history.sum(), 3 * (u64::MAX as u128));
}

#[test]
fn times_near_the_end_of_time() {
    let mut history = History::new(0, 100, u64::MAX);
    history.add(0, 1);
    history.add(u64::MAX, 2);
    history.flush(u64::MAX);
    assert_eq!(history.len(), 2);
    assert_eq!(history.duration(), u64::MAX);
}

#[test]
fn record_files_under_the_time_it_is_given() {
    let mut history = History::new(0, 100, 1_000_000);
    history.record(5, 1);
    history.record(7, 2);
    assert_eq!(times(&history), vec![5, 7]);
    assert_eq!(values(&history), vec![1, 2]);
}

#[test]
fn record_files_a_sample_from_the_past_under_the_newest_time() {
    let mut history = History::new(0, 100, 1_000_000);
    history.record(10, 1);
    history.record(3, 2);
    history.record(10, 3);
    history.record(12, 4);
    assert_eq!(times(&history), vec![10, 10, 10, 12]);
    assert_eq!(values(&history), vec![1, 2, 3, 4]);
}

#[test]
fn record_flushes_at_the_time_it_files_under() {
    let mut history = History::new(1, 100, 5);
    history.record(0, 1);
    history.record(100, 2);
    // Filed under 100: nothing is older than five there but the first.
    history.record(50, 3);
    assert_eq!(times(&history), vec![100, 100]);
}
