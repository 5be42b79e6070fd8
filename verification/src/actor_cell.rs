//! The ActorCell / mailbox engine: one actor instance, its FIFO mailbox, the
//! current-sender slot, and the execution-exclusion latch that serializes
//! message processing.
//!
//! The cell never talks to the worker pool directly: every operation that
//! wants the actor run returns an explicit scheduling request, and the
//! surrounding scheduler performs it. The latch is the
//! Idle / Scheduled / Running status machine of [`SchedStatus`], an idempotent
//! hand-off that never piles worker threads up behind a busy actor.

use vstd::prelude::*;
use vstd::seq_lib::*;

use crate::actor_ref::{ActorRef, CanReceive};
use crate::message::{Message, MessageContent};
use crate::props::Props;
use crate::{Actor, ActorError};

verus! {

/// One mailbox entry: a message paired with the capability token of its
/// sender. Created at send time, consumed when dequeued.
///
/// Sender capabilities are plain copyable tokens (`S`); the scheduler that
/// drives the runtime maps each token back to the receiver it stands for.
pub struct Envelope<M, S> {
    pub message: M,
    pub sender: S,
}

/// The scheduling status of one actor: the execution-exclusion latch.
///
/// `Idle`: no work requested. `Scheduled`: a run has been requested and no
/// worker has picked the actor up yet. `Running`: one worker is inside a
/// processing call. A worker acquires the latch only by moving
/// `Scheduled -> Running`, so a second trigger during an active call finds
/// `Running`, fails to acquire, and returns at once instead of blocking.
#[derive(Clone, Copy, Debug, PartialEq, Eq, Structural)]
pub enum SchedStatus {
    Idle,
    Scheduled,
    Running,
}

/// What one processing trigger did.
pub enum HandleOutcome<S> {
    /// Nothing was pending: either no run was requested (or another worker
    /// holds the latch), or the mailbox was empty. A defined no-op.
    Noop,
    /// One envelope was drained: its sender, the replies the actor owes that
    /// sender, and whether the actor must be scheduled again because more
    /// messages are pending.
    Processed { sender: S, replies: Vec<Message>, reschedule: bool },
}

/// The status transition a producer's enqueue makes, with the scheduling
/// request it issues: a request is issued only on `Idle -> Scheduled`, at
/// most once per transition into `Scheduled`.
///
/// From `Running` the latch moves back to `Scheduled` without a request: the
/// worker inside the processing call re-checks the mailbox itself before
/// releasing the latch.
pub open spec fn enqueue_transition(st: SchedStatus) -> (SchedStatus, bool) {
    match st {
        SchedStatus::Idle => (SchedStatus::Scheduled, true),
        SchedStatus::Scheduled => (SchedStatus::Scheduled, false),
        SchedStatus::Running => (SchedStatus::Scheduled, false),
    }
}

/// The latch acquisition a worker attempts when it dequeues the actor:
/// it succeeds only from `Scheduled`, and lands in `Running`.
pub open spec fn acquire_transition(st: SchedStatus) -> Option<SchedStatus> {
    if st is Scheduled {
        Some(SchedStatus::Running)
    } else {
        None
    }
}

/// The latch release at the end of a processing call: back to `Scheduled`
/// (with a new scheduling request) when messages are still pending, else to
/// `Idle` with no request.
pub open spec fn release_transition(pending: bool) -> (SchedStatus, bool) {
    if pending {
        (SchedStatus::Scheduled, true)
    } else {
        (SchedStatus::Idle, false)
    }
}

/// Mutual exclusion of the latch: the only way into `Running` is a successful
/// acquisition, an acquisition succeeds only from `Scheduled`, and while one
/// processing call is active (status `Running`) every further acquisition
/// fails. Hence at most one processing call per actor is in flight at any
/// instant.
pub proof fn lemma_latch_mutual_exclusion(st: SchedStatus)
    ensures
        acquire_transition(st) is Some <==> st == SchedStatus::Scheduled,
        acquire_transition(st) is Some ==> acquire_transition(st) == Some(SchedStatus::Running),
        st == SchedStatus::Running ==> acquire_transition(st) is None,
{
}

/// Main structure owning one actor: the instance itself, its mailbox, the
/// current-sender slot, the exclusion latch, its own capability token, and the
/// `Props` that built it (kept so a supervisor could respawn the actor).
pub struct ActorCell<A: Actor, S: Copy> {
    actor: A,
    mailbox: Vec<Envelope<A::M, S>>,
    props: Props<A>,
    me: S,
    current_sender: Option<S>,
    status: SchedStatus,
    arrived: Ghost<Seq<Envelope<A::M, S>>>,
    delivered: Ghost<Seq<Envelope<A::M, S>>>,
}

impl<A: Actor, S: Copy> ActorCell<A, S> {
    /// The actor instance owned by this cell.
    pub closed spec fn actor(self) -> A {
        self.actor
    }

    /// The pending envelopes, oldest first.
    pub closed spec fn mailbox(self) -> Seq<Envelope<A::M, S>> {
        self.mailbox@
    }

    /// The factory this cell's actor was built from.
    pub closed spec fn props(self) -> Props<A> {
        self.props
    }

    /// The cell's own capability token.
    pub closed spec fn own_ref(self) -> S {
        self.me
    }

    /// The sender of the envelope most recently handed to the actor.
    pub closed spec fn cur_sender(self) -> Option<S> {
        self.current_sender
    }

    /// The scheduling status: the exclusion latch.
    pub closed spec fn status(self) -> SchedStatus {
        self.status
    }

    /// Every envelope that was ever enqueued, in arrival order.
    pub closed spec fn arrived(self) -> Seq<Envelope<A::M, S>> {
        self.arrived@
    }

    /// Every envelope already handed to the actor, in delivery order.
    pub closed spec fn delivered(self) -> Seq<Envelope<A::M, S>> {
        self.delivered@
    }

    /// The mailbox invariant: what has arrived is what has been delivered
    /// followed by what is still pending. Deliveries therefore happen in
    /// arrival order.
    pub open spec fn wf(self) -> bool {
        self.arrived() == self.delivered() + self.mailbox()
    }

    /// Creates a new cell owning `actor`, with an empty mailbox, a released
    /// latch, and `me` as the capability token other code reaches it by.
    pub fn new(actor: A, props: Props<A>, me: S) -> (r: ActorCell<A, S>)
        ensures
            r.actor() == actor,
            r.mailbox() == Seq::<Envelope<A::M, S>>::empty(),
            r.props() == props,
            r.own_ref() == me,
            r.cur_sender() is None,
            r.status() == SchedStatus::Idle,
            r.arrived() == Seq::<Envelope<A::M, S>>::empty(),
            r.delivered() == Seq::<Envelope<A::M, S>>::empty(),
            r.wf(),
    {
        let r = ActorCell {
            actor,
            mailbox: Vec::new(),
            props,
            me,
            current_sender: None,
            status: SchedStatus::Idle,
            arrived: Ghost(Seq::empty()),
            delivered: Ghost(Seq::empty()),
        };
        proof {
            assert(r.arrived() =~= r.delivered() + r.mailbox());
        }
        r
    }

    /// What one enqueue does: appends the envelope at the mailbox tail,
    /// records its arrival, moves the latch per [`enqueue_transition`], and
    /// touches nothing else.
    pub open spec fn enqueue_rel(self, post: Self, message: A::M, sender: S, schedule: bool) -> bool {
        let env = (Envelope { message, sender });
        &&& post.mailbox() == self.mailbox().push(env)
        &&& post.arrived() == self.arrived().push(env)
        &&& post.status() == enqueue_transition(self.status()).0
        &&& schedule == enqueue_transition(self.status()).1
        &&& post.actor() == self.actor()
        &&& post.delivered() == self.delivered()
        &&& post.cur_sender() == self.cur_sender()
        &&& post.own_ref() == self.own_ref()
        &&& post.props() == self.props()
    }

    /// Puts a message with its sender in the mailbox and returns whether the
    /// owning actor must now be scheduled: `true` exactly when the latch moved
    /// `Idle -> Scheduled`, so that the scheduler is asked at most once per
    /// transition. Always succeeds: the message type was already validated at
    /// the dispatch boundary.
    pub fn receive_message(&mut self, message: A::M, sender: S) -> (schedule: bool)
        requires
            old(self).wf(),
        ensures
            final(self).wf(),
            old(self).enqueue_rel(*final(self), message, sender, schedule),
    {
        let env = Envelope { message, sender };
        let ghost genv = env;
        self.mailbox.push(env);
        self.arrived = Ghost(self.arrived@.push(genv));
        let schedule = match self.status {
            SchedStatus::Idle => true,
            _ => false,
        };
        self.status = SchedStatus::Scheduled;
        proof {
            assert(self.arrived() =~= self.delivered() + self.mailbox());
        }
        schedule
    }

    /// What one processing trigger does.
    ///
    /// If the latch cannot be acquired (no run requested, or another worker is
    /// inside a call), or the mailbox turns out to be empty, nothing observable
    /// happens: the actor, the mailbox and the current-sender slot are left
    /// exactly as they were.
    ///
    /// Otherwise the head envelope is drained: the current-sender slot is set
    /// to its sender, the actor steps by [`Actor::next`], the replies of
    /// [`Actor::replies`] are handed out addressed to that sender, and the
    /// latch is released per [`release_transition`] — `reschedule` says whether
    /// the scheduler must be asked again for the messages still pending.
    pub open spec fn handle_rel(self, post: Self, out: HandleOutcome<S>) -> bool {
        if acquire_transition(self.status()) is None {
            &&& out is Noop
            &&& post == self
        } else if self.mailbox().len() == 0 {
            &&& out is Noop
            &&& post.status() == SchedStatus::Idle
            &&& post.actor() == self.actor()
            &&& post.mailbox() == self.mailbox()
            &&& post.cur_sender() == self.cur_sender()
            &&& post.arrived() == self.arrived()
            &&& post.delivered() == self.delivered()
            &&& post.own_ref() == self.own_ref()
            &&& post.props() == self.props()
        } else {
            let env = self.mailbox()[0];
            let pending = self.mailbox().len() > 1;
            &&& out matches HandleOutcome::Processed { sender, replies, reschedule }
                && sender == env.sender
                && replies@ == A::replies(self.actor(), env.message)
                && reschedule == pending
            &&& post.actor() == A::next(self.actor(), env.message)
            &&& post.mailbox() == self.mailbox().skip(1)
            &&& post.cur_sender() == Some(env.sender)
            &&& post.status() == release_transition(pending).0
            &&& post.arrived() == self.arrived()
            &&& post.delivered() == self.delivered().push(env)
            &&& post.own_ref() == self.own_ref()
            &&& post.props() == self.props()
        }
    }

    /// Makes the actor handle one envelope from its mailbox, under the
    /// exclusion latch; see [`ActorCell::handle_rel`] for exactly what happens
    /// on each path. The latch is released on every exit path.
    pub fn handle_envelope(&mut self) -> (out: HandleOutcome<S>)
        requires
            old(self).wf(),
        ensures
            final(self).wf(),
            old(self).handle_rel(*final(self), out),
    {
        if !matches!(self.status, SchedStatus::Scheduled) {
            return HandleOutcome::Noop;
        }
        self.status = SchedStatus::Running;
        if self.mailbox.len() == 0 {
            self.status = SchedStatus::Idle;
            return HandleOutcome::Noop;
        }
        let env = self.mailbox.remove(0);
        let ghost genv = env;
        let sender = env.sender;
        self.current_sender = Some(env.sender);
        let replies = self.actor.receive(env.message);
        self.delivered = Ghost(self.delivered@.push(genv));
        let reschedule = self.mailbox.len() > 0;
        self.status = if reschedule {
            SchedStatus::Scheduled
        } else {
            SchedStatus::Idle
        };
        proof {
            assert(self.mailbox() =~= old(self).mailbox().skip(1));
            assert(self.arrived() =~= self.delivered() + self.mailbox());
        }
        HandleOutcome::Processed { sender, replies, reschedule }
    }
}

/// The API an actor's surroundings see of its context while it is being
/// driven: obtaining the cell's own capability token, spawning further
/// actors, sending messages, and reading the sender of the envelope being
/// processed.
pub trait ActorContext<S: Copy>: Sized {
    /// The capability token other code reaches this context's actor by.
    spec fn own_token(self) -> S;

    /// The sender of the envelope most recently handed to the actor.
    spec fn current_sender_token(self) -> Option<S>;

    /// Returns the capability token of this context's own actor.
    fn actor_ref(&self) -> (r: S)
        ensures
            r == self.own_token(),
    ;

    /// Spawns an actor: manufactures a fresh instance through `props` and
    /// wraps it in a new cell, reached by the fresh capability token `token`.
    ///
    /// Supervision does not exist in this core, so this is plain creation.
    fn actor_of<B: Actor>(&self, props: Props<B>, token: S) -> (r: ActorRef<B, S>)
        ensures
            r.cell().actor() == B::initial(props.args()),
            r.cell().mailbox() == Seq::<Envelope<B::M, S>>::empty(),
            r.cell().props() == props,
            r.cell().own_ref() == token,
            r.cell().cur_sender() is None,
            r.cell().status() == SchedStatus::Idle,
            r.cell().arrived() == Seq::<Envelope<B::M, S>>::empty(),
            r.cell().delivered() == Seq::<Envelope<B::M, S>>::empty(),
            r.cell().wf(),
    ;

    /// Sends a message to any receiver, with this actor's own token as the
    /// sender, so that replies come back here. Reports `TypeMismatch` — and
    /// leaves the receiver untouched — when the receiver expects another
    /// type; on success returns the receiver's scheduling request.
    fn tell<MC: MessageContent, T: CanReceive<S>>(&self, to: &mut T, message: MC) -> (r: Result<
        bool,
        ActorError,
    >)
        requires
            old(to).inv(),
        ensures
            final(to).inv(),
            old(to).accepts_msg(message.inject()) ==> (r matches Ok(schedule)
                && old(to).receive_rel(*final(to), message.inject(), self.own_token(), schedule)),
            !old(to).accepts_msg(message.inject()) ==> r == Err::<bool, ActorError>(
                ActorError::TypeMismatch,
            ) && *final(to) == *old(to),
    ;

    /// Returns the sender of the message being handled. Meaningful only once
    /// a message has been handled, which the caller must know.
    fn sender(&self) -> (r: S)
        requires
            self.current_sender_token() is Some,
        ensures
            Some(r) == self.current_sender_token(),
    ;
}

impl<A: Actor, S: Copy> ActorContext<S> for ActorCell<A, S> {
    open spec fn own_token(self) -> S {
        self.own_ref()
    }

    open spec fn current_sender_token(self) -> Option<S> {
        self.cur_sender()
    }

    fn actor_ref(&self) -> (r: S) {
        self.me
    }

    fn actor_of<B: Actor>(&self, props: Props<B>, token: S) -> (r: ActorRef<B, S>) {
        let actor = props.create();
        ActorRef::with_cell(ActorCell::new(actor, props, token))
    }

    fn tell<MC: MessageContent, T: CanReceive<S>>(&self, to: &mut T, message: MC) -> (r: Result<
        bool,
        ActorError,
    >) {
        to.receive(message.to_message(), self.me)
    }

    fn sender(&self) -> (r: S) {
        match self.current_sender {
            Some(s) => s,
            None => unreached(),
        }
    }
}

/// FIFO delivery: under the mailbox invariant, what has been handed to the
/// actor is exactly a prefix of what has arrived, in arrival order. In
/// particular, any two messages enqueued one after the other — and so any
/// sequence of sends from one producer — are observed by the handler in that
/// same order.
pub proof fn lemma_fifo_delivery<A: Actor, S: Copy>(cell: ActorCell<A, S>)
    requires
        cell.wf(),
    ensures
        cell.delivered() == cell.arrived().take(cell.delivered().len() as int),
        cell.arrived() == cell.delivered() + cell.mailbox(),
{
    assert(cell.delivered() =~= cell.arrived().take(cell.delivered().len() as int));
}

/// FIFO per producer: restricted to the envelopes of one sender `s`, what has
/// been delivered is still a prefix of what that sender enqueued, in send
/// order; what is still pending from `s` follows it.
pub proof fn lemma_fifo_per_producer<A: Actor, S: Copy>(cell: ActorCell<A, S>, s: S)
    requires
        cell.wf(),
    ensures
        cell.arrived().filter(|e: Envelope<A::M, S>| e.sender == s) == cell.delivered().filter(
            |e: Envelope<A::M, S>| e.sender == s,
        ) + cell.mailbox().filter(|e: Envelope<A::M, S>| e.sender == s),
{
    Seq::filter_distributes_over_add(cell.delivered(), cell.mailbox(), |e: Envelope<A::M, S>| e.sender == s);
}

} // verus!
