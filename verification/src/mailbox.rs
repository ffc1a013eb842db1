//! The mailbox of one actor: the bounded endpoint, the shared inbox and the
//! actor's state, with the steps of the two tasks that serve it.
//!
//! The ingestion task moves messages from the endpoint into the inbox. The
//! processing task takes the pending message of highest priority and hands it
//! to the actor. Each step here is one uninterrupted step of one of them, so a
//! caller that takes the steps in some order plays one schedule of the two.
//!
//! A processing task that finds nothing pending waits on the availability
//! signal. The ingestion task raises the signal whenever it has queued a
//! message and when it ends. A signal raised while nobody waits is kept until
//! the processing task next waits, so that none is missed; a waiting task
//! takes no step until the signal is raised, so that it does not spin.

use crate::actor::Actor;
use crate::endpoint::{
    Endpoint, EndpointView, Received, SubmissionError, Submitted, DEFAULT_CAPACITY,
};
use crate::inbox::{Inbox, InboxView, Phase, Step};
use crate::queue::{is_next, next_index};
use vstd::prelude::*;

verus! {

/// What one step of the ingestion task did.
#[derive(Debug, Clone, Copy, PartialEq, Eq, Structural)]
pub enum Ingested {
    /// A message went into the inbox under this sequence number, and the
    /// availability signal was raised.
    Queued(u64),
    /// The endpoint is empty and producers remain: the task waits.
    Idle,
    /// Every producer is gone and the endpoint is empty: the task has ended.
    Closed,
    /// A message waits but the inbox has no sequence number left for it.
    Stalled,
}

/// What one step of the processing task did.
#[derive(Debug, Clone, Copy, PartialEq, Eq, Structural)]
pub enum Processed {
    /// A message was handed to the actor, which gave this answer.
    Dispatched(bool),
    /// Nothing is pending and more may arrive: the task waits, or waits still.
    Waiting,
    /// The actor has terminated.
    Exited,
}

/// The state of a mailbox.
pub struct MailboxView<A: Actor> {
    /// The actor's state.
    pub actor: A,
    /// The endpoint that producers submit to.
    pub endpoint: EndpointView<A::Msg>,
    /// The state that the two tasks share.
    pub inbox: InboxView<A::Msg>,
    /// Whether the availability signal has been raised and not yet taken.
    pub signalled: bool,
    /// Whether the processing task waits on the availability signal.
    pub parked: bool,
}

impl<A: Actor> MailboxView<A> {
    /// What holds of every mailbox: once the actor has terminated the endpoint
    /// is closed; once ingestion has ended nothing waits or can come; and the
    /// processing task is held up only while it has nothing to do.
    pub open spec fn wf(self) -> bool {
        &&& self.endpoint.wf()
        &&& self.inbox.wf()
        &&& self.inbox.phase is Terminated ==> !self.endpoint.open
        &&& self.inbox.sealed ==> !self.endpoint.connected() && self.endpoint.buffer.len() == 0
        &&& self.blocked() ==> self.inbox.step() is Wait
    }

    /// Whether the processing task is held up: it waits on the availability
    /// signal, and the signal has not been raised.
    pub open spec fn blocked(self) -> bool {
        self.parked && !self.signalled
    }

    /// The mailbox of a freshly spawned actor.
    pub open spec fn spawned(actor: A, capacity: nat) -> Self {
        MailboxView {
            actor,
            endpoint: EndpointView {
                buffer: Seq::empty(),
                capacity,
                producers: 1,
                open: true,
            },
            inbox: InboxView {
                queue: Seq::empty(),
                next_seq: 0,
                sealed: false,
                phase: Phase::Running,
            },
            signalled: false,
            parked: false,
        }
    }

    /// Whether the actor has terminated.
    pub open spec fn terminated(self) -> bool {
        self.inbox.phase is Terminated
    }

    /// The number of messages submitted and not yet dispatched.
    pub open spec fn backlog(self) -> nat {
        self.endpoint.buffer.len() + self.inbox.queue.len()
    }

    /// The mailbox after a producer has submitted `msg`.
    pub open spec fn submit(self, msg: A::Msg) -> Self {
        MailboxView { endpoint: self.endpoint.submit(msg), ..self }
    }

    /// What one step of the ingestion task does.
    pub open spec fn ingested(self) -> Ingested {
        if self.inbox.sealed {
            Ingested::Closed
        } else {
            match self.endpoint.receive_answer() {
                Received::Message(_) => if self.inbox.accepts() {
                    Ingested::Queued(self.inbox.next_seq as u64)
                } else {
                    Ingested::Stalled
                },
                Received::Empty => Ingested::Idle,
                Received::Closed => Ingested::Closed,
            }
        }
    }

    /// The mailbox after one step of the ingestion task. Where the task
    /// queues a message, and where it ends, it raises the availability signal.
    pub open spec fn ingest(self) -> Self {
        match self.ingested() {
            Ingested::Queued(_) => MailboxView {
                endpoint: self.endpoint.receive(),
                inbox: self.inbox.accept(self.endpoint.buffer.first()),
                signalled: true,
                ..self
            },
            Ingested::Closed => if self.inbox.sealed {
                self
            } else {
                MailboxView { inbox: self.inbox.seal(), signalled: true, ..self }
            },
            _ => self,
        }
    }

    /// The mailbox after the ingestion task has taken in what the endpoint
    /// holds, for as long as the inbox accepts it.
    pub open spec fn drain(self) -> Self
        decreases self.endpoint.buffer.len(),
    {
        if self.ingested() is Queued {
            self.ingest().drain()
        } else {
            self.ingest()
        }
    }

    /// The message that the processing task hands to the actor in its next
    /// step, if it hands over any.
    pub open spec fn next_message(self) -> Option<A::Msg> {
        if self.blocked() {
            None
        } else {
            match self.inbox.step() {
                Step::Dispatch(msg) => Some(msg),
                _ => None,
            }
        }
    }

    /// The mailbox as the processing task finds it when it takes a step: a
    /// task that waited has taken the signal and waits no more.
    pub open spec fn woken(self) -> Self {
        MailboxView { signalled: self.signalled && !self.parked, parked: false, ..self }
    }

    /// The mailbox after one step of the processing task, where the actor, if
    /// a message was handed to it, was left in state `post` and answered
    /// `cont`. A task that is held up takes no step. One that finds nothing
    /// pending, and more to come, waits on the availability signal.
    pub open spec fn process(self, post: A, cont: bool) -> Self {
        if self.blocked() {
            self
        } else {
            match self.inbox.step() {
                Step::Dispatch(_) => MailboxView {
                    actor: post,
                    endpoint: if cont {
                        self.endpoint
                    } else {
                        self.endpoint.close()
                    },
                    inbox: self.inbox.take().finish(cont),
                    ..self.woken()
                },
                Step::Wait => MailboxView { parked: true, ..self.woken() },
                Step::Exit => MailboxView {
                    endpoint: self.endpoint.close(),
                    inbox: self.inbox.take(),
                    ..self.woken()
                },
            }
        }
    }

    /// Whether `post` is what one step of the processing task may leave, with
    /// the answer `done`.
    pub open spec fn processes(self, post: Self, done: Processed) -> bool {
        if self.blocked() {
            done == Processed::Waiting && post == self
        } else {
            match self.inbox.step() {
                Step::Dispatch(msg) => {
                    &&& done matches Processed::Dispatched(cont)
                    &&& A::handles(self.actor, msg, post.actor, cont)
                    &&& post == self.process(post.actor, cont)
                },
                Step::Wait => done == Processed::Waiting && post == self.process(self.actor, true),
                Step::Exit => done == Processed::Exited && post == self.process(self.actor, true),
            }
        }
    }

    /// Whether `post` is what one turn may leave: the ingestion task takes in
    /// what the endpoint holds, then the processing task takes one step.
    pub open spec fn turn(self, post: Self) -> bool {
        exists|done: Processed| self.drain().processes(post, done)
    }

    /// Whether `post` is what `n` turns may leave.
    pub open spec fn turns(self, post: Self, n: nat) -> bool
        decreases n,
    {
        if n == 0 {
            post == self
        } else {
            exists|mid: Self| self.turns(mid, (n - 1) as nat) && mid.turn(post)
        }
    }

    /// Whether neither task can do anything until a producer acts: the actor
    /// has terminated, or nothing is pending and the processing task waits.
    pub open spec fn settled(self) -> bool {
        self.terminated() || self.inbox.step() is Wait
    }
}

/// What taking in the endpoint's messages keeps and what it reaches: no message
/// is lost or handed over, the actor is untouched, and ingestion then has
/// nothing more to move. Where every producer is gone and sequence numbers
/// suffice for what waits, ingestion has ended.
pub proof fn lemma_drain<A: Actor>(s: MailboxView<A>)
    requires
        s.wf(),
    ensures
        s.drain().wf(),
        s.drain().backlog() == s.backlog(),
        s.drain().actor == s.actor,
        s.drain().inbox.phase == s.inbox.phase,
        s.drain().parked == s.parked,
        s.drain().endpoint.producers == s.endpoint.producers,
        s.drain().endpoint.open == s.endpoint.open,
        s.drain().inbox.next_seq + s.drain().endpoint.buffer.len() == s.inbox.next_seq
            + s.endpoint.buffer.len(),
        !(s.drain().ingested() is Queued),
        !s.endpoint.connected() && s.inbox.next_seq + s.endpoint.buffer.len() < u64::MAX
            ==> s.drain().inbox.sealed,
    decreases s.endpoint.buffer.len(),
{
    if s.ingested() is Queued {
        let t = s.ingest();
        assert(t.endpoint.buffer.len() == s.endpoint.buffer.len() - 1);
        assert(t.wf()) by {
            let q = s.inbox.queue;
            let e = crate::queue::Entry { seq: s.inbox.next_seq as u64, msg: s.endpoint.buffer.first() };
            assert(t.inbox.queue == q.push(e));
        }
        lemma_drain(t);
    }
}

/// The mailbox of one actor.
pub struct Mailbox<A: Actor> {
    actor: A,
    endpoint: Endpoint<A::Msg>,
    inbox: Inbox<A::Msg>,
    signalled: bool,
    parked: bool,
}

impl<A: Actor> View for Mailbox<A> {
    type V = MailboxView<A>;

    closed spec fn view(&self) -> MailboxView<A> {
        MailboxView {
            actor: self.actor,
            endpoint: self.endpoint@,
            inbox: self.inbox@,
            signalled: self.signalled,
            parked: self.parked,
        }
    }
}

/// Sets up the mailbox of `actor`: an empty endpoint of the default capacity
/// with one producer handle, an empty inbox, and the actor running.
pub fn spawn_actor<A: Actor>(actor: A) -> (mailbox: Mailbox<A>)
    ensures
        mailbox.wf(),
        mailbox@ == MailboxView::spawned(actor, DEFAULT_CAPACITY as nat),
{
    Mailbox::with_capacity(actor, DEFAULT_CAPACITY)
}

impl<A: Actor> Mailbox<A> {
    /// What holds of every mailbox.
    pub open spec fn wf(&self) -> bool {
        self@.wf()
    }

    /// Sets up the mailbox of `actor` with an endpoint for `capacity` messages.
    pub fn with_capacity(actor: A, capacity: usize) -> (mailbox: Self)
        requires
            capacity >= 1,
        ensures
            mailbox.wf(),
            mailbox@ == MailboxView::spawned(actor, capacity as nat),
    {
        Mailbox {
            actor,
            endpoint: Endpoint::new(capacity),
            inbox: Inbox::new(),
            signalled: false,
            parked: false,
        }
    }

    /// A producer submits `msg`. After the actor has terminated, or with no
    /// producer handle left, the submission is refused with an error. Into a
    /// full endpoint it is not taken either: the producer keeps the message and
    /// waits for room. In both cases the message comes back and the mailbox is
    /// as before. Otherwise the message waits in the endpoint behind the others.
    pub fn send(&mut self, msg: A::Msg) -> (r: Result<Submitted<A::Msg>, SubmissionError<A::Msg>>)
        requires
            old(self).wf(),
        ensures
            final(self).wf(),
            final(self)@ == old(self)@.submit(msg),
            r == old(self)@.endpoint.submit_answer(msg),
            old(self)@.terminated() ==> r == Err::<Submitted<A::Msg>, _>(SubmissionError(msg)),
    {
        self.endpoint.send(msg)
    }

    /// One step of the ingestion task: the message that has waited longest in
    /// the endpoint goes into the inbox; with the endpoint empty and every
    /// producer gone, the task ends. Either way it raises the availability
    /// signal.
    pub fn ingest(&mut self) -> (r: Ingested)
        requires
            old(self).wf(),
        ensures
            final(self).wf(),
            final(self)@ == old(self)@.ingest(),
            r == old(self)@.ingested(),
    {
        if self.inbox.is_sealed() {
            return Ingested::Closed;
        }
        if self.endpoint.len() > 0 && !self.inbox.accepts() {
            return Ingested::Stalled;
        }
        match self.endpoint.recv() {
            Received::Message(msg) => {
                match self.inbox.accept(msg) {
                    Ok(seq) => {
                        self.signalled = true;
                        Ingested::Queued(seq)
                    },
                    Err(_) => {
                        // The inbox was asked before the message was taken.
                        assert(false);
                        Ingested::Stalled
                    },
                }
            },
            Received::Empty => Ingested::Idle,
            Received::Closed => {
                self.inbox.seal();
                self.signalled = true;
                Ingested::Closed
            },
        }
    }

    /// One step of the processing task. While the actor runs and a message is
    /// pending, the one of highest priority is handed to the actor; when the
    /// actor answers `false` it terminates, and what is pending or waiting is
    /// dropped. With nothing pending the task waits on the availability
    /// signal, or, where nothing can come any more, the actor terminates. A
    /// task that waits takes no step before the signal is raised.
    pub fn process(&mut self) -> (r: Processed)
        requires
            old(self).wf(),
        ensures
            final(self).wf(),
            old(self)@.processes(final(self)@, r),
            r is Dispatched ==> is_next(old(self)@.inbox.queue, next_index(old(self)@.inbox.queue)),
    {
        if self.parked {
            if !self.signalled {
                return Processed::Waiting;
            }
            self.signalled = false;
            self.parked = false;
        }
        match self.inbox.take() {
            Step::Dispatch(msg) => {
                let cont = self.actor.handle(msg);
                self.inbox.finish(cont);
                if !cont {
                    self.endpoint.close();
                }
                Processed::Dispatched(cont)
            },
            Step::Wait => {
                self.parked = true;
                Processed::Waiting
            },
            Step::Exit => {
                self.endpoint.close();
                Processed::Exited
            },
        }
    }

    /// The ingestion task runs until it has to wait or has ended, and gives
    /// the answer of its last step.
    pub fn drain(&mut self) -> (r: Ingested)
        requires
            old(self).wf(),
        ensures
            final(self).wf(),
            final(self)@ == old(self)@.drain(),
            r == final(self)@.ingested(),
            !(r is Queued),
    {
        let ghost start = self@;
        loop
            invariant
                self.wf(),
                start == old(self)@,
                self@.drain() == start.drain(),
            decreases self@.endpoint.buffer.len(),
        {
            let ghost before = self@;
            let r = self.ingest();
            match r {
                Ingested::Queued(_) => {},
                _ => {
                    proof {
                        assert(before.drain() == before.ingest());
                        lemma_drain(before);
                    }
                    return r;
                },
            }
        }
    }

    /// Both tasks run until neither can go on without a producer: in each
    /// turn the ingestion task takes in what the endpoint holds and the
    /// processing task takes one step. It ends when the actor has terminated
    /// or nothing is pending. Where every producer was gone at the start, and
    /// sequence numbers suffice for what waits, the actor has terminated.
    pub fn run(&mut self) -> (phase: Phase)
        requires
            old(self).wf(),
        ensures
            final(self).wf(),
            exists|n: nat| old(self)@.turns(final(self)@, n),
            final(self)@.settled(),
            phase == final(self)@.inbox.phase,
            !old(self)@.endpoint.connected() && old(self)@.inbox.next_seq + old(
                self,
            )@.endpoint.buffer.len() < u64::MAX ==> phase is Terminated,
    {
        let ghost start = self@;
        let ghost mut n: nat = 0;
        loop
            invariant
                self.wf(),
                start.turns(self@, n),
                !start.endpoint.connected() ==> !self@.endpoint.connected(),
                self@.inbox.next_seq + self@.endpoint.buffer.len() <= start.inbox.next_seq
                    + start.endpoint.buffer.len(),
            ensures
                self.wf(),
                start.turns(self@, n),
                self@.settled(),
                !start.endpoint.connected() && start.inbox.next_seq + start.endpoint.buffer.len()
                    < u64::MAX ==> self@.terminated(),
            decreases self@.backlog(),
        {
            let ghost before = self@;
            self.drain();
            let done = self.process();
            proof {
                lemma_drain(before);
                assert(before.drain().processes(self@, done));
                assert(before.turn(self@));
                n = n + 1;
                assert(start.turns(self@, n));
            }
            match done {
                Processed::Dispatched(true) => {},
                _ => {
                    break ;
                },
            }
        }
        self.inbox.phase()
    }

    /// Copies a producer handle. Answers `false`, and changes nothing, when no
    /// handle is alive or no further one can be counted.
    pub fn add_producer(&mut self) -> (ok: bool)
        requires
            old(self).wf(),
        ensures
            final(self).wf(),
            final(self)@ == (MailboxView { endpoint: old(self)@.endpoint.add_producer(), ..old(self)@ }),
            ok == (0 < old(self)@.endpoint.producers < usize::MAX),
    {
        self.endpoint.add_producer()
    }

    /// Discards a producer handle.
    pub fn drop_producer(&mut self)
        requires
            old(self).wf(),
        ensures
            final(self).wf(),
            final(self)@ == (MailboxView { endpoint: old(self)@.endpoint.drop_producer(), ..old(self)@ }),
    {
        self.endpoint.drop_producer()
    }

    /// The actor's state.
    pub fn actor(&self) -> (a: &A)
        ensures
            *a == self@.actor,
    {
        &self.actor
    }

    /// Gives up the mailbox for the actor's state.
    pub fn into_actor(self) -> (a: A)
        ensures
            a == self@.actor,
    {
        self.actor
    }

    /// Whether the actor still runs.
    pub fn phase(&self) -> (phase: Phase)
        ensures
            phase == self@.inbox.phase,
    {
        self.inbox.phase()
    }

    /// Whether the actor has terminated.
    pub fn is_terminated(&self) -> (b: bool)
        ensures
            b == self@.terminated(),
    {
        self.inbox.phase() == Phase::Terminated
    }

    /// Whether the processing task waits on the availability signal.
    pub fn is_parked(&self) -> (b: bool)
        ensures
            b == self@.parked,
    {
        self.parked
    }

    /// Whether the availability signal has been raised and not yet taken.
    pub fn is_signalled(&self) -> (b: bool)
        ensures
            b == self@.signalled,
    {
        self.signalled
    }

    /// The number of messages in the inbox.
    pub fn pending(&self) -> (n: usize)
        ensures
            n == self@.inbox.queue.len(),
    {
        self.inbox.pending()
    }

    /// The number of messages in the endpoint.
    pub fn waiting(&self) -> (n: usize)
        ensures
            n == self@.endpoint.buffer.len(),
    {
        self.endpoint.len()
    }
}

} // verus!
