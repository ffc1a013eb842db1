//! A priority mailbox for actors: messages from many producers are queued by
//! priority and handed, one at a time, to the single owner of the actor's state.

pub mod actor;
pub mod declaration;
pub mod dispatch;
pub mod endpoint;
pub mod inbox;
pub mod mailbox;
pub mod priority;
pub mod queue;
pub mod schedule;
pub mod schema;
pub mod syntax;
pub mod text;
pub mod token;
