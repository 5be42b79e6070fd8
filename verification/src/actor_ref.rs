//! The uniform, type-erased entry point external code uses to reach an actor:
//! the `CanReceive` capability interface, and `ActorRef`, the handle that
//! implements it on top of one `ActorCell`.

use vstd::prelude::*;

use crate::actor_cell::{ActorCell, ActorContext, HandleOutcome};
use crate::message::{Message, MessageContent, MessageView};
use crate::{Actor, ActorError};

verus! {

/// The capability interface for "accepts a type-erased message" and "process
/// pending work": anything messages can be sent to.
///
/// Implemented by [`ActorRef`] and by the ask adapter's one-shot completion
/// handle. Both outcomes of `receive` are pinned down by the implementor's
/// `receive_rel`; a payload of a type the receiver does not expect yields a
/// reported `TypeMismatch` and leaves the receiver exactly as it was — never
/// an abort, never a partial mutation.
pub trait CanReceive<S: Copy>: Sized {
    /// The receiver's internal validity, established by its constructor and
    /// preserved by every operation.
    spec fn inv(self) -> bool;

    /// Does this receiver expect the erased payload `m`?
    spec fn accepts_msg(self, m: MessageView) -> bool;

    /// What one accepted delivery does to this receiver: `post` is the state
    /// after accepting payload `m` from `sender`, and `schedule` the
    /// scheduling request it issued.
    spec fn receive_rel(self, post: Self, m: MessageView, sender: S, schedule: bool) -> bool;

    /// Does this receiver have a mailbox that a processing trigger can drain?
    spec fn handleable(self) -> bool;

    /// What one processing trigger does to this receiver.
    spec fn handle_rel(self, post: Self, out: HandleOutcome<S>) -> bool;

    /// Accepts an opaque message plus its sender's capability token. On
    /// success returns the receiver's scheduling request; on a type mismatch
    /// reports `TypeMismatch` and changes nothing.
    fn receive(&mut self, message: Message, sender: S) -> (r: Result<bool, ActorError>)
        requires
            old(self).inv(),
        ensures
            final(self).inv(),
            old(self).accepts_msg(message@) ==> (r matches Ok(schedule) && old(self).receive_rel(
                *final(self),
                message@,
                sender,
                schedule,
            )),
            !old(self).accepts_msg(message@) ==> r == Err::<bool, ActorError>(
                ActorError::TypeMismatch,
            ) && *final(self) == *old(self),
    ;

    /// Triggers processing of pending work. On a receiver with no mailbox
    /// this is always the distinct error `InvalidOperation`, and changes
    /// nothing.
    fn handle(&mut self) -> (r: Result<HandleOutcome<S>, ActorError>)
        requires
            old(self).inv(),
        ensures
            final(self).inv(),
            old(self).handleable() ==> (r matches Ok(out) && old(self).handle_rel(
                *final(self),
                out,
            )),
            !old(self).handleable() ==> r == Err::<HandleOutcome<S>, ActorError>(
                ActorError::InvalidOperation,
            ) && *final(self) == *old(self),
    ;
}

/// A handle onto one [`ActorCell`]: the object external code manipulates to
/// send messages to the actor and to trigger its processing.
pub struct ActorRef<A: Actor, S: Copy> {
    actor_cell: ActorCell<A, S>,
}

impl<A: Actor, S: Copy> ActorRef<A, S> {
    /// The cell this handle gives access to.
    pub closed spec fn cell(self) -> ActorCell<A, S> {
        self.actor_cell
    }

    /// Creates an `ActorRef` giving access to the given `ActorCell`.
    pub fn with_cell(cell: ActorCell<A, S>) -> (r: ActorRef<A, S>)
        ensures
            r.cell() == cell,
    {
        ActorRef { actor_cell: cell }
    }

    /// Sends a message to any receiver, with this actor's own token as the
    /// sender.
    pub fn tell_to<MC: MessageContent, T: CanReceive<S>>(&self, to: &mut T, message: MC) -> (r:
        Result<bool, ActorError>)
        requires
            old(to).inv(),
        ensures
            final(to).inv(),
            old(to).accepts_msg(message.inject()) ==> (r matches Ok(schedule)
                && old(to).receive_rel(
                *final(to),
                message.inject(),
                self.cell().own_ref(),
                schedule,
            )),
            !old(to).accepts_msg(message.inject()) ==> r == Err::<bool, ActorError>(
                ActorError::TypeMismatch,
            ) && *final(to) == *old(to),
    {
        self.actor_cell.tell(to, message)
    }
}

impl<A: Actor, S: Copy> CanReceive<S> for ActorRef<A, S> {
    /// A handle is valid when its cell's mailbox invariant holds.
    open spec fn inv(self) -> bool {
        self.cell().wf()
    }

    /// An actor's handle expects exactly the payloads that erase the actor's
    /// own concrete message type.
    open spec fn accepts_msg(self, m: MessageView) -> bool {
        <A::M as MessageContent>::accepts(m)
    }

    /// An accepted delivery enqueues the recovered value with its sender into
    /// the cell's mailbox.
    open spec fn receive_rel(self, post: Self, m: MessageView, sender: S, schedule: bool) -> bool {
        self.cell().enqueue_rel(post.cell(), <A::M as MessageContent>::extract(m), sender, schedule)
    }

    open spec fn handleable(self) -> bool {
        true
    }

    open spec fn handle_rel(self, post: Self, out: HandleOutcome<S>) -> bool {
        self.cell().handle_rel(post.cell(), out)
    }

    /// Recovers the concrete type the actor expects and, on success, forwards
    /// to the cell's `receive_message`; a wrongly-typed payload is reported,
    /// never panicked on.
    fn receive(&mut self, message: Message, sender: S) -> (r: Result<bool, ActorError>) {
        match <A::M as MessageContent>::from_message(message) {
            Ok(m) => Ok(self.actor_cell.receive_message(m, sender)),
            Err(e) => Err(e),
        }
    }

    /// Triggers `handle_envelope` on the cell.
    fn handle(&mut self) -> (r: Result<HandleOutcome<S>, ActorError>) {
        Ok(self.actor_cell.handle_envelope())
    }
}

} // verus!
