use priority_actor::actor::Actor;
use priority_actor::endpoint::{SubmissionError, Submitted};
use priority_actor::inbox::Phase;
use priority_actor::mailbox::{spawn_actor, Ingested, Mailbox, Processed};
use priority_actor::priority::{Prioritized, Priority};

#[derive(Debug, PartialEq)]
enum CounterMsg {
    Increment,
    GetValue,
    Decrement,
    Stop,
}

impl Prioritized for CounterMsg {
    fn priority(&self) -> Priority {
        match self {
            CounterMsg::Increment => Priority::Low,
            CounterMsg::GetValue => Priority::High,
            CounterMsg::Decrement => Priority::Medium,
            CounterMsg::Stop => Priority::Stop,
        }
    }
}

struct Counter {
    count: i32,
    reports: Vec<i32>,
}

impl Actor for Counter {
    type Msg = CounterMsg;

    fn handle(&mut self, msg: CounterMsg) -> bool {
        match msg {
            CounterMsg::Increment => {
                self.count += 1;
                true
            }
            CounterMsg::GetValue => {
                self.reports.push(self.count);
                true
            }
            CounterMsg::Decrement => {
                self.count -= 1;
                true
            }
            CounterMsg::Stop => false,
        }
    }
}

fn counter() -> Mailbox<Counter> {
    spawn_actor(Counter { count: 0, reports: Vec::new() })
}

fn accepted(r: Result<Submitted<CounterMsg>, SubmissionError<CounterMsg>>) -> bool {
    matches!(r, Ok(Submitted::Accepted))
}

#[test]
fn spawned_mailbox_runs_with_nothing_pending() {
    let mut mailbox = counter();
    assert_eq!(mailbox.phase(), Phase::Running);
    assert!(!mailbox.is_terminated());
    assert_eq!(mailbox.pending(), 0);
    assert_eq!(mailbox.waiting(), 0);
    assert_eq!(mailbox.actor().count, 0);
    assert_eq!(mailbox.ingest(), Ingested::Idle);
    assert_eq!(mailbox.process(), Processed::Waiting);
    assert_eq!(mailbox.phase(), Phase::Running);
}

#[test]
fn spawned_endpoint_holds_thirty_two_messages() {
    let mut mailbox = counter();
    for _ in 0..32 {
        assert!(accepted(mailbox.send(CounterMsg::Increment)));
    }
    assert_eq!(mailbox.waiting(), 32);
    assert!(matches!(
        mailbox.send(CounterMsg::GetValue),
        Ok(Submitted::Full(CounterMsg::GetValue))
    ));
    assert_eq!(mailbox.waiting(), 32);
}

#[test]
fn get_value_overtakes_later_increments() {
    let mut mailbox = counter();
    assert!(accepted(mailbox.send(CounterMsg::Increment)));
    // The first message finds the processing task idle and is dispatched at once.
    assert_eq!(mailbox.ingest(), Ingested::Queued(0));
    assert_eq!(mailbox.process(), Processed::Dispatched(true));
    assert!(accepted(mailbox.send(CounterMsg::GetValue)));
    assert!(accepted(mailbox.send(CounterMsg::Increment)));
    assert!(accepted(mailbox.send(CounterMsg::Increment)));
    assert_eq!(mailbox.run(), Phase::Running);
    assert_eq!(mailbox.actor().reports, vec![1]);
    assert_eq!(mailbox.actor().count, 3);
}

#[test]
fn get_value_overtakes_everything_queued_with_it() {
    let mut mailbox = counter();
    assert!(accepted(mailbox.send(CounterMsg::Increment)));
    assert!(accepted(mailbox.send(CounterMsg::GetValue)));
    assert!(accepted(mailbox.send(CounterMsg::Increment)));
    assert!(accepted(mailbox.send(CounterMsg::Increment)));
    assert_eq!(mailbox.drain(), Ingested::Idle);
    assert_eq!(mailbox.pending(), 4);
    assert_eq!(mailbox.process(), Processed::Dispatched(true));
    assert_eq!(mailbox.actor().reports, vec![0]);
    assert_eq!(mailbox.run(), Phase::Running);
    assert_eq!(mailbox.actor().count, 3);
}

#[test]
fn priorities_order_the_whole_backlog() {
    let mut mailbox = counter();
    assert!(accepted(mailbox.send(CounterMsg::Increment)));
    assert!(accepted(mailbox.send(CounterMsg::Decrement)));
    assert!(accepted(mailbox.send(CounterMsg::GetValue)));
    assert!(accepted(mailbox.send(CounterMsg::Increment)));
    assert!(accepted(mailbox.send(CounterMsg::Decrement)));
    mailbox.drain();
    mailbox.process();
    assert_eq!((mailbox.actor().count, mailbox.actor().reports.clone()), (0, vec![0]));
    mailbox.process();
    assert_eq!(mailbox.actor().count, -1);
    mailbox.process();
    assert_eq!(mailbox.actor().count, -2);
    mailbox.process();
    assert_eq!(mailbox.actor().count, -1);
    mailbox.process();
    assert_eq!(mailbox.actor().count, 0);
    assert_eq!(mailbox.process(), Processed::Waiting);
}

#[test]
fn test_actor_explicit_shutdown() {
    let mut mailbox = counter();
    for _ in 0..5 {
        assert!(accepted(mailbox.send(CounterMsg::Increment)));
    }
    assert!(accepted(mailbox.send(CounterMsg::Stop)));
    assert_eq!(mailbox.run(), Phase::Terminated);
    assert!(mailbox.is_terminated());
    let send_res = mailbox.send(CounterMsg::Increment);
    assert!(matches!(send_res, Err(SubmissionError(CounterMsg::Increment))));
    let send_res = mailbox.send(CounterMsg::GetValue);
    assert!(matches!(send_res, Err(SubmissionError(CounterMsg::GetValue))));
    assert_eq!(mailbox.run(), Phase::Terminated);
    assert!(mailbox.actor().reports.is_empty());
}

#[test]
fn stop_discards_what_was_queued_with_it() {
    let mut mailbox = counter();
    for _ in 0..5 {
        assert!(accepted(mailbox.send(CounterMsg::Increment)));
    }
    assert!(accepted(mailbox.send(CounterMsg::Stop)));
    assert!(accepted(mailbox.send(CounterMsg::GetValue)));
    mailbox.drain();
    assert_eq!(mailbox.pending(), 7);
    assert_eq!(mailbox.process(), Processed::Dispatched(false));
    assert_eq!(mailbox.phase(), Phase::Terminated);
    assert_eq!(mailbox.pending(), 0);
    assert_eq!(mailbox.waiting(), 0);
    assert_eq!(mailbox.process(), Processed::Exited);
    assert_eq!(mailbox.ingest(), Ingested::Closed);
    assert_eq!(mailbox.actor().count, 0);
    assert!(mailbox.actor().reports.is_empty());
}

#[test]
fn stop_after_work_keeps_what_was_done() {
    let mut mailbox = counter();
    for _ in 0..5 {
        assert!(accepted(mailbox.send(CounterMsg::Increment)));
    }
    assert_eq!(mailbox.run(), Phase::Running);
    assert_eq!(mailbox.actor().count, 5);
    assert!(accepted(mailbox.send(CounterMsg::Stop)));
    assert_eq!(mailbox.run(), Phase::Terminated);
    assert!(matches!(mailbox.send(CounterMsg::GetValue), Err(SubmissionError(_))));
    let actor = mailbox.into_actor();
    assert_eq!(actor.count, 5);
    assert!(actor.reports.is_empty());
}

#[test]
fn test_actor_priority() {
    let mut mailbox = counter();
    for i in 0..10 {
        assert!(accepted(mailbox.send(CounterMsg::Increment)));
        assert_eq!(mailbox.run(), Phase::Running);
        assert_eq!(mailbox.actor().count, i + 1);
    }
    assert!(accepted(mailbox.send(CounterMsg::GetValue)));
    assert!(accepted(mailbox.send(CounterMsg::Increment)));
    assert!(accepted(mailbox.send(CounterMsg::Increment)));
    assert_eq!(mailbox.run(), Phase::Running);
    let count = mailbox.actor().reports[0];
    assert_eq!(count, 10, "GetValue should see the count after the first 10 increments");
    assert!(accepted(mailbox.send(CounterMsg::GetValue)));
    assert_eq!(mailbox.run(), Phase::Running);
    let final_count = mailbox.actor().reports[1];
    assert_eq!(final_count, 12, "The final count should reflect all 12 increments");
    mailbox.drop_producer();
    assert_eq!(mailbox.run(), Phase::Terminated);
}

#[test]
fn test_actor_implicit_shutdown_completes() {
    let mut mailbox = counter();
    for _ in 0..5 {
        assert!(accepted(mailbox.send(CounterMsg::Increment)));
    }
    assert!(accepted(mailbox.send(CounterMsg::GetValue)));
    assert_eq!(mailbox.run(), Phase::Running);
    let count_before_drop = *mailbox.actor().reports.last().unwrap();
    assert!(count_before_drop <= 5);
    mailbox.drop_producer();
    assert_eq!(mailbox.ingest(), Ingested::Closed);
    assert_eq!(mailbox.process(), Processed::Exited);
    assert!(mailbox.is_terminated(), "Actor did not shut down within the timeout.");
    assert_eq!(mailbox.actor().count, 5);
}

#[test]
fn dropped_producers_let_the_backlog_drain_first() {
    let mut mailbox = counter();
    for _ in 0..3 {
        assert!(accepted(mailbox.send(CounterMsg::Increment)));
    }
    mailbox.drop_producer();
    assert!(matches!(mailbox.send(CounterMsg::Increment), Err(SubmissionError(_))));
    assert_eq!(mailbox.run(), Phase::Terminated);
    assert_eq!(mailbox.actor().count, 3);
}

#[test]
fn processing_before_ingestion_ends_waits() {
    let mut mailbox = counter();
    mailbox.drop_producer();
    assert_eq!(mailbox.process(), Processed::Waiting);
    assert_eq!(mailbox.phase(), Phase::Running);
    assert_eq!(mailbox.ingest(), Ingested::Closed);
    assert_eq!(mailbox.ingest(), Ingested::Closed);
    assert_eq!(mailbox.process(), Processed::Exited);
    assert_eq!(mailbox.phase(), Phase::Terminated);
    assert_eq!(mailbox.process(), Processed::Exited);
}

#[test]
fn full_endpoint_makes_the_producer_wait() {
    let mut mailbox = Mailbox::with_capacity(Counter { count: 0, reports: Vec::new() }, 2);
    assert!(accepted(mailbox.send(CounterMsg::Increment)));
    assert!(accepted(mailbox.send(CounterMsg::Increment)));
    let refused = mailbox.send(CounterMsg::GetValue);
    let kept = match refused {
        Ok(Submitted::Full(msg)) => msg,
        _ => panic!("the endpoint took a message beyond its capacity"),
    };
    assert_eq!(mailbox.waiting(), 2);
    assert_eq!(mailbox.ingest(), Ingested::Queued(0));
    assert_eq!(mailbox.waiting(), 1);
    assert!(accepted(mailbox.send(kept)));
    assert_eq!(mailbox.run(), Phase::Running);
    assert_eq!(mailbox.actor().count, 2);
    assert_eq!(mailbox.actor().reports.len(), 1);
}

#[test]
fn handles_are_counted() {
    let mut mailbox = counter();
    assert!(mailbox.add_producer());
    mailbox.drop_producer();
    assert!(accepted(mailbox.send(CounterMsg::Increment)));
    mailbox.drop_producer();
    assert!(!mailbox.add_producer());
    assert!(matches!(mailbox.send(CounterMsg::Increment), Err(SubmissionError(_))));
    assert_eq!(mailbox.run(), Phase::Terminated);
    assert_eq!(mailbox.actor().count, 1);
}

#[test]
fn sequence_numbers_rise_across_the_mailbox_life() {
    let mut mailbox = counter();
    assert!(accepted(mailbox.send(CounterMsg::Increment)));
    assert!(accepted(mailbox.send(CounterMsg::Increment)));
    assert_eq!(mailbox.ingest(), Ingested::Queued(0));
    assert_eq!(mailbox.ingest(), Ingested::Queued(1));
    assert_eq!(mailbox.ingest(), Ingested::Idle);
    assert_eq!(mailbox.run(), Phase::Running);
    assert!(accepted(mailbox.send(CounterMsg::Increment)));
    assert_eq!(mailbox.ingest(), Ingested::Queued(2));
}

#[test]
fn a_waiting_task_takes_no_step_until_the_signal_is_raised() {
    let mut mailbox = counter();
    assert_eq!(mailbox.process(), Processed::Waiting);
    assert!(mailbox.is_parked());
    assert!(!mailbox.is_signalled());
    assert!(accepted(mailbox.send(CounterMsg::Increment)));
    assert_eq!(mailbox.process(), Processed::Waiting);
    assert_eq!(mailbox.actor().count, 0);
    assert_eq!(mailbox.ingest(), Ingested::Queued(0));
    assert!(mailbox.is_signalled());
    assert_eq!(mailbox.process(), Processed::Dispatched(true));
    assert!(!mailbox.is_parked());
    assert!(!mailbox.is_signalled());
    assert_eq!(mailbox.actor().count, 1);
}

#[test]
fn a_signal_raised_while_nobody_waits_is_kept() {
    let mut mailbox = counter();
    assert!(accepted(mailbox.send(CounterMsg::Increment)));
    assert_eq!(mailbox.ingest(), Ingested::Queued(0));
    assert!(mailbox.is_signalled());
    assert_eq!(mailbox.process(), Processed::Dispatched(true));
    assert!(mailbox.is_signalled());
    assert_eq!(mailbox.process(), Processed::Waiting);
    assert!(mailbox.is_parked());
    // The signal that was kept wakes the task once; it finds nothing and waits again.
    assert_eq!(mailbox.process(), Processed::Waiting);
    assert!(mailbox.is_parked());
    assert!(!mailbox.is_signalled());
    assert_eq!(mailbox.process(), Processed::Waiting);
    assert_eq!(mailbox.actor().count, 1);
}

#[test]
fn the_end_of_ingestion_wakes_a_waiting_task() {
    let mut mailbox = counter();
    assert_eq!(mailbox.process(), Processed::Waiting);
    mailbox.drop_producer();
    assert_eq!(mailbox.process(), Processed::Waiting);
    assert_eq!(mailbox.ingest(), Ingested::Closed);
    assert!(mailbox.is_signalled());
    assert_eq!(mailbox.process(), Processed::Exited);
    assert!(mailbox.is_terminated());
    assert!(!mailbox.is_parked());
}
