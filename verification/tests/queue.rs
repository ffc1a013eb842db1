use priority_actor::priority::{Prioritized, Priority};
use priority_actor::queue::MessageQueue;

#[derive(Debug, PartialEq)]
struct Job(&'static str, Priority);

impl Prioritized for Job {
    fn priority(&self) -> Priority {
        self.1
    }
}

#[test]
fn new_queue_is_empty() {
    let mut q: MessageQueue<Job> = MessageQueue::new();
    assert!(q.is_empty());
    assert_eq!(q.len(), 0);
    assert_eq!(q.next_seq(), 0);
    assert_eq!(q.peek_priority(), None);
    assert_eq!(q.pop(), None);
    assert!(!q.is_exhausted());
}

#[test]
fn push_numbers_arrivals_in_order() {
    let mut q = MessageQueue::new();
    assert_eq!(q.push(Job("a", Priority::Low)), 0);
    assert_eq!(q.push(Job("b", Priority::High)), 1);
    assert_eq!(q.push(Job("c", Priority::Low)), 2);
    assert_eq!(q.len(), 3);
    assert_eq!(q.next_seq(), 3);
}

#[test]
fn pop_takes_highest_priority_first() {
    let mut q = MessageQueue::new();
    q.push(Job("low", Priority::Low));
    q.push(Job("medium", Priority::Medium));
    q.push(Job("stop", Priority::Stop));
    q.push(Job("high", Priority::High));
    assert_eq!(q.peek_priority(), Some(Priority::Stop));
    assert_eq!(q.pop(), Some(Job("stop", Priority::Stop)));
    assert_eq!(q.pop(), Some(Job("high", Priority::High)));
    assert_eq!(q.pop(), Some(Job("medium", Priority::Medium)));
    assert_eq!(q.pop(), Some(Job("low", Priority::Low)));
    assert_eq!(q.pop(), None);
}

#[test]
fn equal_priorities_leave_in_arrival_order() {
    let mut q = MessageQueue::new();
    q.push(Job("first", Priority::Medium));
    q.push(Job("second", Priority::Medium));
    q.push(Job("urgent", Priority::High));
    q.push(Job("third", Priority::Medium));
    q.push(Job("urgent too", Priority::High));
    assert_eq!(q.pop(), Some(Job("urgent", Priority::High)));
    assert_eq!(q.pop(), Some(Job("urgent too", Priority::High)));
    assert_eq!(q.pop(), Some(Job("first", Priority::Medium)));
    assert_eq!(q.pop(), Some(Job("second", Priority::Medium)));
    assert_eq!(q.pop(), Some(Job("third", Priority::Medium)));
}

#[test]
fn later_arrival_of_higher_priority_overtakes() {
    let mut q = MessageQueue::new();
    q.push(Job("a", Priority::Low));
    q.push(Job("b", Priority::Low));
    assert_eq!(q.pop(), Some(Job("a", Priority::Low)));
    q.push(Job("c", Priority::High));
    assert_eq!(q.pop(), Some(Job("c", Priority::High)));
    assert_eq!(q.pop(), Some(Job("b", Priority::Low)));
}

#[test]
fn clear_drops_everything_and_keeps_numbering() {
    let mut q = MessageQueue::new();
    q.push(Job("a", Priority::Low));
    q.push(Job("b", Priority::High));
    q.clear();
    assert!(q.is_empty());
    assert_eq!(q.pop(), None);
    assert_eq!(q.next_seq(), 2);
    assert_eq!(q.push(Job("c", Priority::Low)), 2);
}
