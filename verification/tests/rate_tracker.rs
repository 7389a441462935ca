use assyst_core::rate_tracker::{rate, retain_fresh, RateTracker};
use std::time::Duration;
use tokio::time::Instant;

fn samples(values: &[isize]) -> Vec<(isize, Instant)> {
    let now = Instant::now();
    values.iter().map(|v| (*v, now)).collect()
}

fn values(samples: &[(isize, Instant)]) -> Vec<isize> {
    samples.iter().map(|s| s.0).collect()
}

#[test]
fn samples_beyond_the_limit_are_taken_out() {
    let mut kept = samples(&[1, 2, 3, 4, 5]);
    retain_fresh(&mut kept, &vec![10, 3, 11, 0, 4], 4);
    assert_eq!(values(&kept), vec![2, 4, 5]);
    let mut kept = samples(&[1, 2, 3]);
    retain_fresh(&mut kept, &vec![9, 9, 9], 4);
    assert_eq!(values(&kept), Vec::<isize>::new());
    let mut kept = samples(&[1, 2, 3]);
    retain_fresh(&mut kept, &vec![4, 4, 4], 4);
    assert_eq!(values(&kept), vec![1, 2, 3]);
    let mut kept = samples(&[]);
    retain_fresh(&mut kept, &vec![], 4);
    assert!(kept.is_empty());
}

#[test]
fn rate_is_the_rise_from_oldest_to_newest() {
    assert_eq!(rate(&samples(&[])), None);
    assert_eq!(rate(&samples(&[5])), Some(0));
    assert_eq!(rate(&samples(&[5, 9, 7])), Some(2));
    assert_eq!(rate(&samples(&[7, 9, 5])), Some(-2));
    assert_eq!(rate(&samples(&[isize::MIN, isize::MAX])), None);
    assert_eq!(rate(&samples(&[isize::MAX, isize::MIN])), None);
    assert_eq!(rate(&samples(&[0, isize::MAX])), Some(isize::MAX));
}

#[test]
fn tracker_with_a_long_memory_keeps_its_samples() {
    let mut tracker = RateTracker::new(Duration::from_secs(3600));
    assert_eq!(tracker.get_rate(), None);
    tracker.add_sample(10);
    assert_eq!(tracker.get_rate(), Some(0));
    tracker.add_sample(25);
    tracker.add_sample(40);
    assert_eq!(tracker.get_rate(), Some(30));
    tracker.remove_expired_samples();
    assert_eq!(tracker.get_rate(), Some(30));
}

#[test]
fn tracker_without_memory_forgets() {
    let mut tracker = RateTracker::new(Duration::ZERO);
    tracker.add_sample(10);
    tracker.add_sample(20);
    let added = Instant::now();
    while added.elapsed() < Duration::from_millis(2) {}
    assert_eq!(tracker.get_rate(), None);
    tracker.remove_expired_samples();
    assert_eq!(tracker.get_rate(), None);
}
