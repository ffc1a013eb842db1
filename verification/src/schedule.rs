//! Schedules: what holds of a mailbox however the steps of producers and of
//! the two tasks interleave.

use crate::actor::Actor;
use crate::endpoint::{SubmissionError, Submitted};
use crate::mailbox::MailboxView;
use crate::priority::Prioritized;
use crate::queue::{lemma_next_exists, lemma_next_is_oldest, next_index, rank_at};
use vstd::prelude::*;

verus! {

/// One step of a producer or of one of the two tasks.
pub enum Move<A: Actor> {
    /// A producer submits a message.
    Submit(A::Msg),
    /// A producer handle is copied.
    AddProducer,
    /// A producer handle is discarded.
    DropProducer,
    /// The ingestion task takes a step.
    Ingest,
    /// The processing task takes a step; where it hands a message to the
    /// actor, the actor is left in this state and gives this answer.
    Process(A, bool),
}

impl<A: Actor> MailboxView<A> {
    /// The mailbox after `mv`.
    pub open spec fn after(self, mv: Move<A>) -> Self {
        match mv {
            Move::Submit(msg) => self.submit(msg),
            Move::AddProducer => MailboxView { endpoint: self.endpoint.add_producer(), ..self },
            Move::DropProducer => MailboxView { endpoint: self.endpoint.drop_producer(), ..self },
            Move::Ingest => self.ingest(),
            Move::Process(post, cont) => self.process(post, cont),
        }
    }

    /// The mailbox after the moves of `schedule`, in their order.
    pub open spec fn after_all(self, schedule: Seq<Move<A>>) -> Self
        decreases schedule.len(),
    {
        if schedule.len() == 0 {
            self
        } else {
            self.after_all(schedule.drop_last()).after(schedule.last())
        }
    }
}

/// Whether `schedule` has a step of the ingestion task and, later, one of the
/// processing task.
pub open spec fn ingests_then_processes<A: Actor>(schedule: Seq<Move<A>>) -> bool {
    exists|i: int, j: int|
        0 <= i < j < schedule.len() && schedule[i] is Ingest && schedule[j] is Process
}

/// No move breaks what holds of every mailbox.
pub proof fn lemma_after_wf<A: Actor>(s: MailboxView<A>, mv: Move<A>)
    requires
        s.wf(),
    ensures
        s.after(mv).wf(),
{
    match mv {
        Move::Ingest => {
            if s.ingested() is Queued {
                let e = crate::queue::Entry {
                    seq: s.inbox.next_seq as u64,
                    msg: s.endpoint.buffer.first(),
                };
                assert(s.ingest().inbox.queue == s.inbox.queue.push(e));
            }
        },
        Move::Process(..) => {
            if s.inbox.step() is Dispatch {
                lemma_next_exists(s.inbox.queue);
            }
        },
        _ => {},
    }
}

/// The message handed to the actor ranks at least as high as every message
/// that is pending with it, and of those that rank the same it has waited
/// longest.
pub proof fn law_highest_priority_first<A: Actor>(s: MailboxView<A>, j: int)
    requires
        s.wf(),
        s.next_message() is Some,
        0 <= j < s.inbox.queue.len(),
    ensures
        s.inbox.queue[j].msg.spec_priority().rank() <= s.next_message().unwrap().spec_priority().rank(),
        s.inbox.queue[j].msg.spec_priority() == s.next_message().unwrap().spec_priority()
            ==> s.inbox.queue[next_index(s.inbox.queue)].seq <= s.inbox.queue[j].seq,
{
    lemma_next_exists(s.inbox.queue);
    assert(rank_at(s.inbox.queue, j) <= rank_at(s.inbox.queue, next_index(s.inbox.queue)));
    if rank_at(s.inbox.queue, j) == rank_at(s.inbox.queue, next_index(s.inbox.queue)) {
        lemma_next_is_oldest(s.inbox.queue, s.inbox.next_seq, j);
    }
}

/// A mailbox is in order from the moment it is set up, whatever the producers
/// and the two tasks do.
pub proof fn law_every_mailbox_is_in_order<A: Actor>(
    actor: A,
    capacity: nat,
    schedule: Seq<Move<A>>,
)
    requires
        1 <= capacity <= usize::MAX,
    ensures
        MailboxView::spawned(actor, capacity).after_all(schedule).wf(),
    decreases schedule.len(),
{
    let s = MailboxView::spawned(actor, capacity);
    if schedule.len() > 0 {
        law_every_mailbox_is_in_order(actor, capacity, schedule.drop_last());
        lemma_after_wf(s.after_all(schedule.drop_last()), schedule.last());
    }
}

/// No wakeup is missed: while the actor runs and a message is pending, or
/// nothing can come any more, the processing task is not held up. Its next
/// step hands over the message, or terminates the actor.
pub proof fn law_work_is_never_left_waiting<A: Actor>(s: MailboxView<A>, post: A, cont: bool)
    requires
        s.wf(),
        !s.terminated(),
        s.inbox.queue.len() > 0 || s.inbox.sealed,
    ensures
        !s.blocked(),
        s.inbox.queue.len() > 0 ==> s.next_message() is Some,
        s.inbox.queue.len() == 0 ==> s.process(post, cont).terminated(),
{
}

/// A processing task that waits does not spin: until the ingestion task
/// takes a step, whatever the producers do and however often the processing
/// task is scheduled, it stays held up and nothing changes but the endpoint.
pub proof fn law_waiting_is_not_busy<A: Actor>(s: MailboxView<A>, schedule: Seq<Move<A>>)
    requires
        s.wf(),
        s.blocked(),
        forall|k: int| 0 <= k < schedule.len() ==> !(schedule[k] is Ingest),
    ensures
        s.after_all(schedule).blocked(),
        s.after_all(schedule).inbox == s.inbox,
        s.after_all(schedule).actor == s.actor,
    decreases schedule.len(),
{
    if schedule.len() > 0 {
        law_waiting_is_not_busy(s, schedule.drop_last());
    }
}

/// Once the actor has terminated, nothing is handed to it again: whatever
/// the producers and the tasks do, the actor's state stays as it is, nothing
/// is pending or waiting, and the processing task has no message to dispatch.
pub proof fn law_terminated_is_final<A: Actor>(s: MailboxView<A>, schedule: Seq<Move<A>>)
    requires
        s.wf(),
        s.terminated(),
    ensures
        s.after_all(schedule).wf(),
        s.after_all(schedule).terminated(),
        s.after_all(schedule).actor == s.actor,
        s.after_all(schedule).backlog() == 0,
        s.after_all(schedule).next_message() is None,
    decreases schedule.len(),
{
    if schedule.len() > 0 {
        law_terminated_is_final(s, schedule.drop_last());
        lemma_after_wf(s.after_all(schedule.drop_last()), schedule.last());
    }
}

/// A dispatch that the actor answers with `false` is the last one: the actor
/// has terminated, the messages that were pending or waiting at that moment
/// are dropped, and no schedule that follows hands the actor anything.
pub proof fn law_stop_precedes_termination<A: Actor>(
    s: MailboxView<A>,
    post: A,
    schedule: Seq<Move<A>>,
)
    requires
        s.wf(),
        s.next_message() is Some,
    ensures
        s.process(post, false).terminated(),
        s.process(post, false).backlog() == 0,
        s.process(post, false).after_all(schedule).terminated(),
        s.process(post, false).after_all(schedule).actor == post,
        s.process(post, false).after_all(schedule).next_message() is None,
{
    lemma_after_wf(s, Move::Process(post, false));
    law_terminated_is_final(s.process(post, false), schedule);
}

/// With every producer handle gone and nothing pending or waiting, the actor
/// terminates as soon as the ingestion task and, after it, the processing
/// task have each taken a step: the first ends, the second sees that nothing
/// can come. Until then neither task changes anything else, and no message is
/// handed to the actor.
pub proof fn law_abandoned_mailbox_terminates<A: Actor>(
    s: MailboxView<A>,
    schedule: Seq<Move<A>>,
)
    requires
        s.wf(),
        s.endpoint.producers == 0,
        s.backlog() == 0,
        forall|k: int| 0 <= k < schedule.len() ==> schedule[k] is Ingest || schedule[k] is Process,
    ensures
        s.after_all(schedule).wf(),
        s.after_all(schedule).actor == s.actor,
        s.after_all(schedule).backlog() == 0,
        s.after_all(schedule).endpoint.producers == 0,
        (exists|i: int| 0 <= i < schedule.len() && schedule[i] is Ingest) ==> s.after_all(
            schedule,
        ).inbox.sealed,
        ingests_then_processes(schedule) ==> s.after_all(schedule).terminated(),
    decreases schedule.len(),
{
    if schedule.len() > 0 {
        let init = schedule.drop_last();
        let last = schedule.last();
        let t = s.after_all(init);
        law_abandoned_mailbox_terminates(s, init);
        lemma_after_wf(t, last);
        if exists|i: int| 0 <= i < schedule.len() && schedule[i] is Ingest {
            let i = choose|i: int| 0 <= i < schedule.len() && schedule[i] is Ingest;
            if i < init.len() {
                assert(init[i] is Ingest);
            }
        }
        if ingests_then_processes(schedule) {
            let (i, j) = choose|i: int, j: int|
                0 <= i < j < schedule.len() && schedule[i] is Ingest && schedule[j] is Process;
            assert(init[i] is Ingest);
            if j < init.len() {
                assert(init[j] is Process);
                assert(ingests_then_processes(init));
            }
        }
    }
}

/// A submission after the actor has terminated is refused with an error that
/// carries the message back, and changes nothing.
pub proof fn law_send_after_termination_fails<A: Actor>(s: MailboxView<A>, msg: A::Msg)
    requires
        s.wf(),
        s.terminated(),
    ensures
        s.endpoint.submit_answer(msg) == Err::<Submitted<A::Msg>, _>(SubmissionError(msg)),
        s.submit(msg) == s,
{
}

/// A submission into a full endpoint is not taken and not lost: the message
/// comes back to the producer, to be submitted again, and the mailbox is as
/// before. After the next step of the ingestion task there is room: the same
/// submission is then accepted, behind the messages that waited.
pub proof fn law_backpressure<A: Actor>(s: MailboxView<A>, msg: A::Msg)
    requires
        s.wf(),
        s.endpoint.connected(),
        s.endpoint.full(),
    ensures
        s.endpoint.submit_answer(msg) == Ok::<_, SubmissionError<A::Msg>>(Submitted::Full(msg)),
        s.submit(msg) == s,
        s.inbox.accepts() ==> {
            &&& s.ingest().endpoint.submit_answer(msg) == Ok::<_, SubmissionError<A::Msg>>(
                Submitted::<A::Msg>::Accepted,
            )
            &&& s.ingest().submit(msg).endpoint.buffer == s.endpoint.buffer.drop_first().push(msg)
            &&& s.ingest().submit(msg).inbox.queue.last().msg == s.endpoint.buffer.first()
        },
{
}

} // verus!
