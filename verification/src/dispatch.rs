//! Messages of a declared message set, and their dispatch to the handlers of
//! the state they are meant for.

use crate::actor::Actor;
use crate::priority::{Prioritized, Priority};
use crate::schema::ActorSchema;
use vstd::prelude::*;

verus! {

/// A message of a declared message set: a call of one operation with its
/// arguments, or the order to stop.
#[derive(Debug)]
pub enum Message<P> {
    /// A call of the operation at position `op`, with the priority that the
    /// operation declares.
    Call { op: usize, priority: Priority, args: P },
    /// The order to stop. It carries nothing and outranks every call.
    Stop,
}

impl<P> Prioritized for Message<P> {
    open spec fn spec_priority(&self) -> Priority {
        match self {
            Message::Call { priority, .. } => *priority,
            Message::Stop => Priority::Stop,
        }
    }

    fn priority(&self) -> (p: Priority) {
        match self {
            Message::Call { priority, .. } => *priority,
            Message::Stop => Priority::Stop,
        }
    }
}

impl ActorSchema {
    /// The message that calls the operation at position `op` with `args`. It
    /// has the priority of that operation's variant. Where `op` is not the
    /// position of an operation, there is no such message and `args` come back.
    pub fn call<P>(&self, op: usize, args: P) -> (r: Result<Message<P>, P>)
        ensures
            op < self@.handlers.len() ==> r == Ok::<Message<P>, P>(
                Message::Call { op, priority: self@.variants[op as int].priority, args },
            ),
            op >= self@.handlers.len() ==> r == Err::<Message<P>, P>(args),
    {
        proof {
            use_type_invariant(self);
        }
        match self.handler_for(op) {
            Some(_) => {
                match self.priority_of(op) {
                    Some(priority) => Ok(Message::Call { op, priority, args }),
                    None => Err(args),
                }
            },
            None => Err(args),
        }
    }

    /// Whether `msg` is a message of this schema: the order to stop, or a call
    /// of one of its operations with that operation's priority.
    pub fn admits<P>(&self, msg: &Message<P>) -> (r: bool)
        ensures
            r == match *msg {
                Message::Stop => true,
                Message::Call { op, priority, .. } => op < self@.handlers.len()
                    && self@.variants[op as int].priority == priority,
            },
    {
        proof {
            use_type_invariant(self);
        }
        match msg {
            Message::Stop => true,
            Message::Call { op, priority, .. } => {
                match self.handler_for(*op) {
                    Some(_) => {
                        match self.priority_of(*op) {
                            Some(p) => p == *priority,
                            None => false,
                        }
                    },
                    None => false,
                }
            },
        }
    }

    /// The position of the variant of `msg` in the message set, where `msg` is
    /// a message of this schema.
    pub fn variant_of<P>(&self, msg: &Message<P>) -> (r: Option<usize>)
        ensures
            r == match *msg {
                Message::Stop => Some(self@.stop_index() as usize),
                Message::Call { op, .. } => if op < self@.handlers.len() {
                    Some(op)
                } else {
                    None
                },
            },
    {
        proof {
            use_type_invariant(self);
        }
        match msg {
            Message::Stop => Some(self.variant_count() - 1),
            Message::Call { op, .. } => self.handler_for(*op),
        }
    }
}

/// A state with its handlers: the operations that messages call.
pub trait Operations: Sized {
    /// The arguments of a call.
    type Args;

    /// What the handler at position `op` may do: called on the state `pre`
    /// with `args`, it may leave the state `post`. A state that does not say
    /// allows everything.
    open spec fn performs(pre: Self, op: usize, args: Self::Args, post: Self) -> bool {
        true
    }

    /// Runs the handler at position `op` with `args`.
    fn perform(&mut self, op: usize, args: Self::Args)
        ensures
            Self::performs(*old(self), op, args, *final(self)),
    ;
}

/// What the dispatch of `msg` may do to the state `pre`: on the order to stop
/// no handler runs, the state is `post` as it was, and the answer is `false`;
/// on a call the called handler runs, with the arguments of the call, and the
/// answer is `true`.
pub open spec fn dispatches<S: Operations>(
    pre: S,
    msg: Message<S::Args>,
    post: S,
    cont: bool,
) -> bool {
    match msg {
        Message::Stop => !cont && post == pre,
        Message::Call { op, args, .. } => cont && S::performs(pre, op, args, post),
    }
}

/// Dispatches `msg` to `state`, and answers whether the actor is to go on.
pub fn dispatch<S: Operations>(state: &mut S, msg: Message<S::Args>) -> (cont: bool)
    ensures
        dispatches(*old(state), msg, *final(state), cont),
        cont == !(msg is Stop),
{
    match msg {
        Message::Stop => false,
        Message::Call { op, args, .. } => {
            state.perform(op, args);
            true
        },
    }
}

/// A state with handlers, as the actor that its mailbox serves.
pub struct DeclaredActor<S>(pub S);

impl<S: Operations> Actor for DeclaredActor<S> {
    type Msg = Message<S::Args>;

    open spec fn handles(pre: Self, msg: Message<S::Args>, post: Self, cont: bool) -> bool {
        dispatches(pre.0, msg, post.0, cont)
    }

    fn handle(&mut self, msg: Message<S::Args>) -> (cont: bool) {
        dispatch(&mut self.0, msg)
    }
}

} // verus!
