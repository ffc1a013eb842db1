//! The state that the ingestion task and the processing task share: the queue
//! of pending messages, whether more can arrive, and whether the actor still
//! runs. Both tasks touch it only while they hold it exclusively.

use crate::priority::Prioritized;
use crate::queue::{is_next, next_index, sequenced, Entry, MessageQueue};
use vstd::prelude::*;

verus! {

/// The life of an actor. `Terminated` is final.
#[derive(Debug, Clone, Copy, PartialEq, Eq, Structural)]
pub enum Phase {
    Running,
    Terminated,
}

/// What the processing task does next.
#[derive(Debug)]
pub enum Step<M> {
    /// Hand this message to the actor.
    Dispatch(M),
    /// Nothing is pending and more may arrive: wait to be woken.
    Wait,
    /// The actor has terminated: leave.
    Exit,
}

/// The state of an inbox.
pub struct InboxView<M> {
    /// The pending messages, in the order of their arrival.
    pub queue: Seq<Entry<M>>,
    /// The sequence number that the next arrival gets.
    pub next_seq: nat,
    /// Whether the ingestion task has ended, so that nothing more arrives.
    pub sealed: bool,
    /// Whether the actor still runs.
    pub phase: Phase,
}

impl<M: Prioritized> InboxView<M> {
    /// What holds of every inbox.
    pub open spec fn wf(self) -> bool {
        &&& sequenced(self.queue, self.next_seq)
        &&& self.next_seq <= u64::MAX
        &&& self.phase is Terminated ==> self.queue.len() == 0
    }

    /// Whether an arriving message is queued.
    pub open spec fn accepts(self) -> bool {
        &&& self.phase is Running
        &&& !self.sealed
        &&& self.next_seq < u64::MAX
    }

    /// The inbox after the arrival of `msg`.
    pub open spec fn accept(self, msg: M) -> Self {
        if self.accepts() {
            InboxView {
                queue: self.queue.push(Entry { seq: self.next_seq as u64, msg }),
                next_seq: self.next_seq + 1,
                ..self
            }
        } else {
            self
        }
    }

    /// The inbox after the ingestion task has ended.
    pub open spec fn seal(self) -> Self {
        InboxView { sealed: true, ..self }
    }

    /// What the processing task is told when it asks for work.
    pub open spec fn step(self) -> Step<M> {
        if self.phase is Terminated {
            Step::Exit
        } else if self.queue.len() > 0 {
            Step::Dispatch(self.queue[next_index(self.queue)].msg)
        } else if self.sealed {
            Step::Exit
        } else {
            Step::Wait
        }
    }

    /// The inbox after the processing task has asked for work.
    pub open spec fn take(self) -> Self {
        if self.phase is Terminated {
            self
        } else if self.queue.len() > 0 {
            InboxView { queue: self.queue.remove(next_index(self.queue)), ..self }
        } else if self.sealed {
            InboxView { phase: Phase::Terminated, ..self }
        } else {
            self
        }
    }

    /// The inbox after the actor has answered `cont` to a message: on `false`
    /// the actor terminates and what is pending is dropped.
    pub open spec fn finish(self, cont: bool) -> Self {
        if cont {
            self
        } else {
            InboxView { queue: Seq::empty(), phase: Phase::Terminated, ..self }
        }
    }
}

/// The shared state of one mailbox.
pub struct Inbox<M> {
    queue: MessageQueue<M>,
    sealed: bool,
    phase: Phase,
}

impl<M> View for Inbox<M> {
    type V = InboxView<M>;

    closed spec fn view(&self) -> InboxView<M> {
        InboxView {
            queue: self.queue@,
            next_seq: self.queue.spec_next_seq(),
            sealed: self.sealed,
            phase: self.phase,
        }
    }
}

impl<M: Prioritized> Inbox<M> {
    /// What holds of every inbox.
    pub open spec fn wf(&self) -> bool {
        self@.wf()
    }

    /// An inbox with nothing pending, for an actor that runs.
    pub fn new() -> (b: Self)
        ensures
            b.wf(),
            b@ == (InboxView::<M> {
                queue: Seq::empty(),
                next_seq: 0,
                sealed: false,
                phase: Phase::Running,
            }),
    {
        Inbox { queue: MessageQueue::new(), sealed: false, phase: Phase::Running }
    }

    /// Whether an arriving message would be queued.
    pub fn accepts(&self) -> (b: bool)
        ensures
            b == self@.accepts(),
    {
        self.phase == Phase::Running && !self.sealed && !self.queue.is_exhausted()
    }

    /// The ingestion task hands in a message it has received. Where the inbox
    /// accepts it, it is queued behind everything pending, under the sequence
    /// number returned, and one waiter is to be woken. Otherwise it comes back.
    pub fn accept(&mut self, msg: M) -> (r: Result<u64, M>)
        requires
            old(self).wf(),
        ensures
            final(self).wf(),
            final(self)@ == old(self)@.accept(msg),
            old(self)@.accepts() ==> r == Ok::<u64, M>(old(self)@.next_seq as u64),
            !old(self)@.accepts() ==> r == Err::<u64, M>(msg),
    {
        if self.phase == Phase::Running && !self.sealed && !self.queue.is_exhausted() {
            let seq: u64 = self.queue.push(msg);
            Ok(seq)
        } else {
            Err(msg)
        }
    }

    /// The ingestion task ends: nothing more will arrive. A waiter is to be
    /// woken, so that the processing task sees it.
    pub fn seal(&mut self)
        requires
            old(self).wf(),
        ensures
            final(self).wf(),
            final(self)@ == old(self)@.seal(),
    {
        self.sealed = true;
    }

    /// The processing task asks for work. While the actor runs and a message
    /// is pending, the one of highest priority leaves the queue; with nothing
    /// pending and nothing to come, the actor terminates.
    pub fn take(&mut self) -> (r: Step<M>)
        requires
            old(self).wf(),
        ensures
            final(self).wf(),
            final(self)@ == old(self)@.take(),
            r == old(self)@.step(),
            r is Dispatch ==> is_next(old(self)@.queue, next_index(old(self)@.queue)),
    {
        if self.phase == Phase::Terminated {
            return Step::Exit;
        }
        match self.queue.pop() {
            Some(msg) => Step::Dispatch(msg),
            None => {
                if self.sealed {
                    self.phase = Phase::Terminated;
                    Step::Exit
                } else {
                    Step::Wait
                }
            },
        }
    }

    /// The processing task reports the actor's answer to the message it
    /// dispatched. On `false` the actor terminates and what is pending is
    /// dropped.
    pub fn finish(&mut self, cont: bool) -> (phase: Phase)
        requires
            old(self).wf(),
        ensures
            final(self).wf(),
            final(self)@ == old(self)@.finish(cont),
            phase == final(self)@.phase,
    {
        if !cont {
            self.queue.clear();
            self.phase = Phase::Terminated;
        }
        self.phase
    }

    /// Whether the actor still runs.
    pub fn phase(&self) -> (phase: Phase)
        ensures
            phase == self@.phase,
    {
        self.phase
    }

    /// Whether the ingestion task has ended.
    pub fn is_sealed(&self) -> (b: bool)
        ensures
            b == self@.sealed,
    {
        self.sealed
    }

    /// The number of pending messages.
    pub fn pending(&self) -> (n: usize)
        ensures
            n == self@.queue.len(),
    {
        self.queue.len()
    }
}

} // verus!
