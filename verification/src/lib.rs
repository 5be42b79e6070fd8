//! A minimal actor-model runtime core: actors hold private state, exchange
//! messages through per-actor mailboxes, and are scheduled for execution by an
//! external worker pool that this library only talks to through explicit
//! scheduling requests.

use vstd::prelude::*;

pub mod actor_cell;
pub mod actor_ref;
pub mod ask;
pub mod message;
pub mod props;

verus! {

use crate::message::{Message, MessageContent};

/// Errors reported at the dispatch boundary.
///
/// Both are local to the boundary: they are returned to the caller and never
/// abort the process or corrupt any actor's state.
#[derive(Clone, Copy, Debug, PartialEq, Eq, Structural)]
pub enum ActorError {
    /// A message was delivered to a receiver expecting a different concrete type.
    TypeMismatch,
    /// The processing trigger was invoked on a receiver that has no mailbox to
    /// drain (a one-shot completion handle).
    InvalidOperation,
}

/// An actor: private state and behavior that processes messages of one
/// concrete type, one at a time, from its own mailbox.
///
/// User code implements this trait; the runtime owns one instance per
/// [`actor_cell::ActorCell`] and touches it only inside the single active
/// processing call, so the state needs no locking of its own.
///
/// The handler does not get a handle onto its own cell: it returns the
/// messages it wants sent back to the sender of the envelope being processed,
/// and the cell routes them together with that sender's capability token.
pub trait Actor: Sized {
    /// The fixed construction arguments an instance is built from.
    type Args: Copy;

    /// The concrete message type this actor expects at the dispatch boundary.
    type M: MessageContent;

    /// The initial state built from given construction arguments.
    ///
    /// The default leaves the state unconstrained; an implementor proved
    /// against must supply its own.
    open spec fn initial(args: Self::Args) -> Self {
        arbitrary()
    }

    /// The state after handling one message.
    ///
    /// The default leaves the step unconstrained; an implementor proved
    /// against must supply its own.
    open spec fn next(pre: Self, message: Self::M) -> Self {
        arbitrary()
    }

    /// The replies handed back to the sender of the message being handled.
    ///
    /// The default leaves the replies unconstrained; an implementor proved
    /// against must supply its own.
    open spec fn replies(pre: Self, message: Self::M) -> Seq<Message> {
        arbitrary()
    }

    /// Construct one instance from the arguments. Deterministic: equal
    /// arguments build instances with equal initial state.
    fn create(args: Self::Args) -> (a: Self)
        ensures
            a == Self::initial(args),
    ;

    /// Handle one message: step the state and produce the replies owed to the
    /// sender of the message.
    fn receive(&mut self, message: Self::M) -> (replies: Vec<Message>)
        ensures
            *final(self) == Self::next(*old(self), message),
            replies@ == Self::replies(*old(self), message),
    ;
}

} // verus!
