//! The ask adapter: request/response on top of `CanReceive`, with the reply
//! captured by a one-shot future/promise pair instead of delivered into a
//! mailbox.
//!
//! The future/promise pair itself comes from the `eventual` crate; this
//! module wraps its completion side in [`Completion`], which adds the typed
//! cast of the dispatch boundary and an explicit exactly-once guard.

use vstd::prelude::*;

use crate::actor_cell::{ActorCell, ActorContext, HandleOutcome};
use crate::actor_ref::CanReceive;
use crate::message::{Message, MessageContent, MessageView};
use crate::{Actor, ActorError};

verus! {

#[verifier::external_type_specification]
#[verifier::external_body]
#[verifier::reject_recursive_types(T)]
#[verifier::reject_recursive_types(E)]
pub struct ExFuture<T: Send + 'static, E: Send + 'static>(eventual::Future<T, E>);

#[verifier::external_type_specification]
#[verifier::external_body]
#[verifier::reject_recursive_types(T)]
#[verifier::reject_recursive_types(E)]
pub struct ExComplete<T: Send + 'static, E: Send + 'static>(eventual::Complete<T, E>);

/// Relies on eventual::Future::pair: manufactures a linked one-shot
/// completion/future pair; completing the first member resolves the second.
#[verifier::external_body]
fn future_pair<T: Send + 'static, E: Send + 'static>() -> (eventual::Complete<T, E>, eventual::Future<T, E>) {
    eventual::Future::pair()
}

/// Relies on eventual::Complete::complete: resolves the linked future with
/// `val`. It consumes the handle, so it can be invoked at most once per pair.
#[verifier::external_body]
fn complete_value<T: Send + 'static, E: Send + 'static>(complete: eventual::Complete<T, E>, val: T) {
    complete.complete(val);
}

/// The ask adapter's one-shot completion handle: the receiver an ask
/// substitutes as the sender capability, so that the target's reply resolves
/// the future handed back to the asker.
///
/// Exactly-once resolution: the first accepted reply consumes the inner
/// completion and resolves the future with the replied value. A second
/// accepted reply is — by this core's documented choice — a silent no-op: it
/// reports success but leaves the resolved value unchanged. A wrongly-typed
/// reply is a reported `TypeMismatch`, whether or not the handle is resolved.
#[verifier::reject_recursive_types(M)]
#[verifier::reject_recursive_types(E)]
pub struct Completion<M: MessageContent + Send + 'static, E: Send + 'static> {
    complete: Option<eventual::Complete<M, E>>,
    resolved: Ghost<Option<M>>,
}

impl<M: MessageContent + Send + 'static, E: Send + 'static> Completion<M, E> {
    /// Is the inner one-shot completion still unfired?
    pub closed spec fn pending(self) -> bool {
        self.complete is Some
    }

    /// The value the first accepted reply resolved the future with, if any.
    pub closed spec fn resolved_value(self) -> Option<M> {
        self.resolved@
    }

    /// A completion handle is valid when it is pending exactly as long as no
    /// reply has been accepted.
    pub open spec fn wf(self) -> bool {
        self.pending() <==> self.resolved_value() is None
    }

    /// What one accepted reply with payload `m` does: the first resolves the
    /// handle with the recovered value, every later one changes nothing.
    pub open spec fn resolve_rel(self, post: Self, m: MessageView) -> bool {
        if self.resolved_value() is None {
            &&& post.resolved_value() == Some(M::extract(m))
            &&& !post.pending()
        } else {
            &&& post.resolved_value() == self.resolved_value()
            &&& post.pending() == self.pending()
        }
    }
}

impl<S: Copy, M: MessageContent + Send + 'static, E: Send + 'static> CanReceive<S> for Completion<
    M,
    E,
> {
    open spec fn inv(self) -> bool {
        self.wf()
    }

    /// A completion handle expects exactly the payloads that erase the reply
    /// type the ask was issued for.
    open spec fn accepts_msg(self, m: MessageView) -> bool {
        M::accepts(m)
    }

    /// An accepted reply resolves the handle (first time) or is the
    /// documented no-op (later times); a completion never asks the scheduler
    /// for anything.
    open spec fn receive_rel(self, post: Self, m: MessageView, sender: S, schedule: bool) -> bool {
        &&& self.resolve_rel(post, m)
        &&& schedule == false
    }

    /// A completion handle has no mailbox to drain.
    open spec fn handleable(self) -> bool {
        false
    }

    open spec fn handle_rel(self, post: Self, out: HandleOutcome<S>) -> bool {
        post.resolved_value() == self.resolved_value()
    }

    /// Recovers the expected reply type from the opaque message and resolves
    /// the future with it; a mismatch is reported with the same
    /// `TypeMismatch` as the actor boundary, never silently dropped.
    fn receive(&mut self, message: Message, sender: S) -> (r: Result<bool, ActorError>) {
        match <M as MessageContent>::from_message(message) {
            Ok(v) => {
                let ghost gv = v;
                if self.complete.is_some() {
                    match self.complete.take() {
                        Some(c) => {
                            complete_value(c, v);
                            self.resolved = Ghost(Some(gv));
                        },
                        None => {},
                    }
                }
                Ok(false)
            },
            Err(e) => Err(e),
        }
    }

    /// Triggering processing on a completion handle is always an error — it
    /// has no mailbox — reported distinctly from `TypeMismatch`.
    fn handle(&mut self) -> (r: Result<HandleOutcome<S>, ActorError>) {
        Err(ActorError::InvalidOperation)
    }
}

/// Request/response: issue a message and capture the reply as a one-shot
/// future instead of a mailbox delivery.
pub trait AskPattern<S: Copy, M: MessageContent + Send + 'static, E: Send + 'static>: ActorContext<
    S,
> {
    /// Creates a one-shot completion/future pair, sends `message` to the
    /// target with `reply_token` — the capability token the surrounding
    /// scheduler routes back to the returned completion handle — as the
    /// sender, and returns the future at once, without blocking: the asker
    /// resolves it later, when the target's reply reaches the completion.
    ///
    /// On success the target's scheduling request is handed back as the third
    /// member. A wrongly-typed message is reported as `TypeMismatch` and the
    /// target is left untouched.
    fn ask<MC: MessageContent, T: CanReceive<S>>(&self, to: &mut T, message: MC, reply_token: S) -> (r:
        Result<(Completion<M, E>, eventual::Future<M, E>, bool), ActorError>)
        requires
            old(to).inv(),
        ensures
            final(to).inv(),
            old(to).accepts_msg(message.inject()) ==> (r matches Ok(ok) && ok.0.wf()
                && ok.0.resolved_value() is None && old(to).receive_rel(
                *final(to),
                message.inject(),
                reply_token,
                ok.2,
            )),
            !old(to).accepts_msg(message.inject()) ==> (r matches Err(e) && e
                == ActorError::TypeMismatch && *final(to) == *old(to)),
    ;
}

impl<A: Actor, S: Copy, M: MessageContent + Send + 'static, E: Send + 'static> AskPattern<
    S,
    M,
    E,
> for ActorCell<A, S> {
    fn ask<MC: MessageContent, T: CanReceive<S>>(&self, to: &mut T, message: MC, reply_token: S) -> (r:
        Result<(Completion<M, E>, eventual::Future<M, E>, bool), ActorError>) {
        let (complete, future) = future_pair::<M, E>();
        let completion = Completion { complete: Some(complete), resolved: Ghost(None) };
        match to.receive(message.to_message(), reply_token) {
            Ok(schedule) => Ok((completion, future, schedule)),
            Err(e) => Err(e),
        }
    }
}

/// Exactly-once ask resolution: from a fresh completion handle, the first
/// accepted reply resolves it with that reply's value, and a second accepted
/// reply — the documented no-op — leaves the resolved value exactly as the
/// first set it.
pub proof fn lemma_ask_exactly_once<M: MessageContent + Send + 'static, E: Send + 'static>(
    c0: Completion<M, E>,
    c1: Completion<M, E>,
    c2: Completion<M, E>,
    m1: MessageView,
    m2: MessageView,
)
    requires
        c0.resolved_value() is None,
        c0.resolve_rel(c1, m1),
        c1.resolve_rel(c2, m2),
    ensures
        c1.resolved_value() == Some(M::extract(m1)),
        c2.resolved_value() == Some(M::extract(m1)),
{
}

} // verus!
