//! The contract between the mailbox and the state it serves.

use crate::priority::Prioritized;
use vstd::prelude::*;

verus! {

/// A unit of private state with its operations. The mailbox hands it one
/// message at a time; no two invocations overlap.
pub trait Actor: Sized {
    /// The messages this actor understands.
    type Msg: Prioritized;

    /// What one invocation may do: in state `pre`, the message `msg` may leave
    /// the state `post` and give the answer `cont`. An actor that does not say
    /// allows everything.
    open spec fn handles(pre: Self, msg: Self::Msg, post: Self, cont: bool) -> bool {
        true
    }

    /// Handles one message. The answer is `false` when the actor is to stop:
    /// nothing is handed to it after that. A handler that fails is not caught
    /// and not called again: its failure ends the task that called it.
    fn handle(&mut self, msg: Self::Msg) -> (cont: bool)
        ensures
            Self::handles(*old(self), msg, *final(self), cont),
    ;
}

} // verus!
