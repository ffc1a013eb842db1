use priority_actor::priority::{Prioritized, PrioritizedWrapper, Priority};
use std::cmp::Ordering;

struct Job(Priority);

impl Prioritized for Job {
    fn priority(&self) -> Priority {
        self.0
    }
}

#[test]
fn levels_rise_from_low_to_stop() {
    assert_eq!(Priority::Low.level(), 0);
    assert_eq!(Priority::Medium.level(), 1);
    assert_eq!(Priority::High.level(), 2);
    assert_eq!(Priority::Stop.level(), 3);
}

#[test]
fn stop_outranks_every_operational_level() {
    assert!(Priority::Stop.outranks(&Priority::High));
    assert!(Priority::Stop.outranks(&Priority::Medium));
    assert!(Priority::Stop.outranks(&Priority::Low));
    assert!(!Priority::Stop.outranks(&Priority::Stop));
    assert!(!Priority::High.outranks(&Priority::Stop));
}

#[test]
fn priorities_compare_by_rank() {
    assert!(Priority::Low < Priority::Medium);
    assert!(Priority::Medium < Priority::High);
    assert!(Priority::High < Priority::Stop);
    assert!(Priority::High >= Priority::High);
    assert_eq!(Priority::Low.partial_cmp(&Priority::Stop), Some(Ordering::Less));
    assert_eq!(Priority::High.partial_cmp(&Priority::High), Some(Ordering::Equal));
    assert_eq!(Priority::High.partial_cmp(&Priority::Medium), Some(Ordering::Greater));
}

#[test]
fn derived_order_agrees_with_rank() {
    let all = [Priority::Low, Priority::Medium, Priority::High, Priority::Stop];
    for a in all {
        for b in all {
            assert_eq!(a.cmp(&b), a.level().cmp(&b.level()));
            assert_eq!(a.partial_cmp(&b), Some(a.cmp(&b)));
            assert_eq!(a == b, a.level() == b.level());
        }
    }
    assert_eq!(all.iter().max(), Some(&Priority::Stop));
}

#[test]
fn default_priority_is_medium() {
    assert_eq!(Priority::default(), Priority::Medium);
}

#[test]
fn a_priority_ranks_as_itself() {
    assert_eq!(Priority::High.priority(), Priority::High);
    assert_eq!(Priority::Low.priority(), Priority::Low);
}

#[test]
fn wrappers_are_equal_when_they_rank_the_same() {
    let a = PrioritizedWrapper(Job(Priority::High));
    let b = PrioritizedWrapper(Job(Priority::High));
    let c = PrioritizedWrapper(Job(Priority::Low));
    assert!(a == b);
    assert!(a != c);
}

#[test]
fn wrapper_of_higher_priority_is_greater() {
    let high = PrioritizedWrapper(Job(Priority::High));
    let low = PrioritizedWrapper(Job(Priority::Low));
    let stop = PrioritizedWrapper(Job(Priority::Stop));
    assert_eq!(high.cmp(&low), Ordering::Greater);
    assert_eq!(low.cmp(&high), Ordering::Less);
    assert_eq!(high.cmp(&high), Ordering::Equal);
    assert_eq!(stop.cmp(&high), Ordering::Greater);
    assert_eq!(high.partial_cmp(&low), Some(Ordering::Greater));
    assert!(low < high);
    assert!(stop > high);
}
