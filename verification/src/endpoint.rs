//! The bounded endpoint through which producers hand messages in.
//!
//! It holds at most a fixed number of messages, in the order of their
//! submission. A producer that finds it full keeps its message and waits; one
//! that finds it closed is told so.

use std::collections::VecDeque;
use vstd::prelude::*;

verus! {

/// The number of messages that an endpoint holds unless told otherwise.
pub const DEFAULT_CAPACITY: usize = 32;

/// The answer to a submission that can never be delivered: the receiving side
/// is gone. It carries the message back.
#[derive(Debug)]
pub struct SubmissionError<M>(pub M);

/// The answer to a submission into an endpoint that is still served.
#[derive(Debug)]
pub enum Submitted<M> {
    /// The message is in the endpoint.
    Accepted,
    /// The endpoint is full: the producer keeps the message and waits for room.
    Full(M),
}

/// What the receiving side finds.
#[derive(Debug)]
pub enum Received<M> {
    /// The message that has waited longest.
    Message(M),
    /// Nothing is waiting, but a producer may still submit.
    Empty,
    /// Nothing is waiting and nothing can come any more.
    Closed,
}

/// The state of an endpoint.
pub struct EndpointView<M> {
    /// The messages submitted and not yet received, oldest first.
    pub buffer: Seq<M>,
    /// The number of messages that fit.
    pub capacity: nat,
    /// The number of producer handles that are alive.
    pub producers: nat,
    /// Whether the receiving side is still there.
    pub open: bool,
}

impl<M> EndpointView<M> {
    /// What holds of every endpoint.
    pub open spec fn wf(self) -> bool {
        &&& 1 <= self.capacity <= usize::MAX
        &&& self.producers <= usize::MAX
        &&& self.buffer.len() <= self.capacity
        &&& !self.open ==> self.buffer.len() == 0
    }

    /// Whether a submission can still reach the receiving side.
    pub open spec fn connected(self) -> bool {
        self.open && self.producers > 0
    }

    /// Whether no further message fits.
    pub open spec fn full(self) -> bool {
        self.buffer.len() >= self.capacity
    }

    /// The endpoint after the submission of `msg`.
    pub open spec fn submit(self, msg: M) -> Self {
        if self.connected() && !self.full() {
            EndpointView { buffer: self.buffer.push(msg), ..self }
        } else {
            self
        }
    }

    /// The answer to the submission of `msg`.
    pub open spec fn submit_answer(self, msg: M) -> Result<Submitted<M>, SubmissionError<M>> {
        if !self.connected() {
            Err(SubmissionError(msg))
        } else if self.full() {
            Ok(Submitted::Full(msg))
        } else {
            Ok(Submitted::Accepted)
        }
    }

    /// The endpoint after the receiving side has asked for a message.
    pub open spec fn receive(self) -> Self {
        if self.buffer.len() > 0 {
            EndpointView { buffer: self.buffer.drop_first(), ..self }
        } else {
            self
        }
    }

    /// What the receiving side finds when it asks for a message.
    pub open spec fn receive_answer(self) -> Received<M> {
        if self.buffer.len() > 0 {
            Received::Message(self.buffer.first())
        } else if self.connected() {
            Received::Empty
        } else {
            Received::Closed
        }
    }

    /// The endpoint with one producer handle more, where there is one to copy.
    pub open spec fn add_producer(self) -> Self {
        if 0 < self.producers < usize::MAX {
            EndpointView { producers: self.producers + 1, ..self }
        } else {
            self
        }
    }

    /// The endpoint with one producer handle less.
    pub open spec fn drop_producer(self) -> Self {
        if self.producers > 0 {
            EndpointView { producers: (self.producers - 1) as nat, ..self }
        } else {
            self
        }
    }

    /// The endpoint after the receiving side has left: what waited is dropped.
    pub open spec fn close(self) -> Self {
        EndpointView { buffer: Seq::empty(), open: false, ..self }
    }
}

/// A bounded first-in, first-out buffer between the producers and the
/// ingestion task.
pub struct Endpoint<M> {
    buffer: VecDeque<M>,
    capacity: usize,
    producers: usize,
    open: bool,
}

impl<M> View for Endpoint<M> {
    type V = EndpointView<M>;

    closed spec fn view(&self) -> EndpointView<M> {
        EndpointView {
            buffer: self.buffer@,
            capacity: self.capacity as nat,
            producers: self.producers as nat,
            open: self.open,
        }
    }
}

impl<M> Endpoint<M> {
    /// What holds of every endpoint.
    pub open spec fn wf(&self) -> bool {
        self@.wf()
    }

    /// An empty endpoint for `capacity` messages, with one producer handle.
    pub fn new(capacity: usize) -> (e: Self)
        requires
            capacity >= 1,
        ensures
            e.wf(),
            e@ == (EndpointView::<M> {
                buffer: Seq::empty(),
                capacity: capacity as nat,
                producers: 1,
                open: true,
            }),
    {
        Endpoint { buffer: VecDeque::new(), capacity, producers: 1, open: true }
    }

    /// Submits `msg`. It is taken when the endpoint is served and has room;
    /// otherwise it comes back, and the endpoint is as before.
    pub fn send(&mut self, msg: M) -> (r: Result<Submitted<M>, SubmissionError<M>>)
        requires
            old(self).wf(),
        ensures
            final(self).wf(),
            final(self)@ == old(self)@.submit(msg),
            r == old(self)@.submit_answer(msg),
    {
        if !self.open || self.producers == 0 {
            Err(SubmissionError(msg))
        } else if self.buffer.len() >= self.capacity {
            Ok(Submitted::Full(msg))
        } else {
            self.buffer.push_back(msg);
            Ok(Submitted::Accepted)
        }
    }

    /// Takes the message that has waited longest, if there is one.
    pub fn recv(&mut self) -> (r: Received<M>)
        requires
            old(self).wf(),
        ensures
            final(self).wf(),
            final(self)@ == old(self)@.receive(),
            r == old(self)@.receive_answer(),
    {
        match self.buffer.pop_front() {
            Some(msg) => Received::Message(msg),
            None => {
                if self.open && self.producers > 0 {
                    Received::Empty
                } else {
                    Received::Closed
                }
            },
        }
    }

    /// Copies a producer handle. Answers `false`, and changes nothing, when no
    /// handle is alive or no further one can be counted.
    pub fn add_producer(&mut self) -> (ok: bool)
        requires
            old(self).wf(),
        ensures
            final(self).wf(),
            final(self)@ == old(self)@.add_producer(),
            ok == (0 < old(self)@.producers < usize::MAX),
    {
        if 0 < self.producers && self.producers < usize::MAX {
            self.producers = self.producers + 1;
            true
        } else {
            false
        }
    }

    /// Discards a producer handle. With the last one gone nothing can be
    /// submitted any more.
    pub fn drop_producer(&mut self)
        requires
            old(self).wf(),
        ensures
            final(self).wf(),
            final(self)@ == old(self)@.drop_producer(),
    {
        if self.producers > 0 {
            self.producers = self.producers - 1;
        }
    }

    /// The receiving side leaves: what waited is dropped, and every later
    /// submission is refused.
    pub fn close(&mut self)
        requires
            old(self).wf(),
        ensures
            final(self).wf(),
            final(self)@ == old(self)@.close(),
    {
        self.buffer.clear();
        self.open = false;
    }

    /// The number of messages waiting.
    pub fn len(&self) -> (n: usize)
        ensures
            n == self@.buffer.len(),
    {
        self.buffer.len()
    }

    /// The number of messages that fit.
    pub fn capacity(&self) -> (n: usize)
        ensures
            n == self@.capacity,
    {
        self.capacity
    }

    /// The number of producer handles that are alive.
    pub fn producers(&self) -> (n: usize)
        ensures
            n == self@.producers,
    {
        self.producers
    }

    /// Whether a submission can still reach the receiving side.
    pub fn is_connected(&self) -> (b: bool)
        ensures
            b == self@.connected(),
    {
        self.open && self.producers > 0
    }
}

} // verus!
