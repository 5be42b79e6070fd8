//! Tests of the mailbox engine, the scheduling latch, the dispatch boundary
//! and the actor factory, driven the way an external scheduler would drive
//! them.

use robots::actor_cell::{ActorCell, ActorContext, HandleOutcome};
use robots::actor_ref::{ActorRef, CanReceive};
use robots::message::Message;
use robots::props::Props;
use robots::{Actor, ActorError};

/// Replies to every integer message with that integer, unchanged.
struct Echo;

impl Actor for Echo {
    type Args = ();
    type M = i64;

    fn create(_args: ()) -> Echo {
        Echo
    }

    fn receive(&mut self, message: i64) -> Vec<Message> {
        vec![Message::Int(message)]
    }
}

/// Adds every integer message into a running total and replies with the
/// new total.
#[derive(Debug, PartialEq)]
struct Counter {
    total: i64,
}

impl Actor for Counter {
    type Args = i64;
    type M = i64;

    fn create(args: i64) -> Counter {
        Counter { total: args }
    }

    fn receive(&mut self, message: i64) -> Vec<Message> {
        self.total = self.total.wrapping_add(message);
        vec![Message::Int(self.total)]
    }
}

fn echo_ref(token: u64) -> ActorRef<Echo, u64> {
    let props = Props::<Echo>::new(());
    let actor = props.create();
    ActorRef::with_cell(ActorCell::new(actor, props, token))
}

fn counter_ref(start: i64, token: u64) -> ActorRef<Counter, u64> {
    let props = Props::<Counter>::new(start);
    let actor = props.create();
    ActorRef::with_cell(ActorCell::new(actor, props, token))
}

fn expect_int(m: &Message) -> i64 {
    match m {
        Message::Int(i) => *i,
        other => panic!("expected an integer payload, got {:?}", other),
    }
}

#[test]
fn fifo_per_producer_order() {
    let mut target = echo_ref(1);
    // One producer (token 7) sends 10, 20, 30 in this order.
    assert_eq!(target.receive(Message::Int(10), 7), Ok(true));
    assert_eq!(target.receive(Message::Int(20), 7), Ok(false));
    assert_eq!(target.receive(Message::Int(30), 7), Ok(false));
    // The handler observes them in exactly the send order.
    let mut observed = Vec::new();
    loop {
        match target.handle().unwrap() {
            HandleOutcome::Processed { sender, replies, reschedule } => {
                assert_eq!(sender, 7);
                assert_eq!(replies.len(), 1);
                observed.push(expect_int(&replies[0]));
                if !reschedule {
                    break;
                }
            }
            HandleOutcome::Noop => panic!("work was pending"),
        }
    }
    assert_eq!(observed, vec![10, 20, 30]);
}

#[test]
fn enqueue_requests_scheduling_once_per_transition() {
    let mut target = echo_ref(1);
    // Idle -> Scheduled issues a request; further sends while already
    // scheduled do not.
    assert_eq!(target.receive(Message::Int(1), 2), Ok(true));
    assert_eq!(target.receive(Message::Int(2), 2), Ok(false));
    // Draining one of two messages keeps the actor scheduled, and says so.
    match target.handle().unwrap() {
        HandleOutcome::Processed { reschedule, .. } => assert!(reschedule),
        HandleOutcome::Noop => panic!("work was pending"),
    }
    // Draining the last message releases the latch to Idle.
    match target.handle().unwrap() {
        HandleOutcome::Processed { reschedule, .. } => assert!(!reschedule),
        HandleOutcome::Noop => panic!("work was pending"),
    }
    // The next send finds the latch Idle again and issues a new request.
    assert_eq!(target.receive(Message::Int(3), 2), Ok(true));
}

#[test]
fn idle_trigger_is_noop() {
    let mut target = echo_ref(1);
    // Triggering processing on an actor with an empty mailbox has no
    // observable effect: no handler invocation, just a defined no-op.
    match target.handle().unwrap() {
        HandleOutcome::Noop => {}
        HandleOutcome::Processed { .. } => panic!("nothing was pending"),
    }
    // Still fully functional afterwards.
    assert_eq!(target.receive(Message::Int(5), 3), Ok(true));
    match target.handle().unwrap() {
        HandleOutcome::Processed { sender, replies, .. } => {
            assert_eq!(sender, 3);
            assert_eq!(expect_int(&replies[0]), 5);
        }
        HandleOutcome::Noop => panic!("work was pending"),
    }
    // Drained again: back to the defined no-op.
    match target.handle().unwrap() {
        HandleOutcome::Noop => {}
        HandleOutcome::Processed { .. } => panic!("nothing was pending"),
    }
}

#[test]
fn wrong_type_to_actor_reports_mismatch() {
    let mut target = counter_ref(100, 1);
    // A wrongly-typed message is a reported, recoverable outcome...
    assert_eq!(
        target.receive(Message::Text(String::from("x")), 4),
        Err(ActorError::TypeMismatch)
    );
    // ...and it left the mailbox and the actor state untouched: the next
    // integer lands on the original total.
    assert_eq!(target.receive(Message::Int(1), 4), Ok(true));
    match target.handle().unwrap() {
        HandleOutcome::Processed { replies, .. } => assert_eq!(expect_int(&replies[0]), 101),
        HandleOutcome::Noop => panic!("work was pending"),
    }
}

#[test]
fn current_sender_matches_envelope_being_processed() {
    let props = Props::<Echo>::new(());
    let mut cell = ActorCell::new(props.create(), props, 1u64);
    cell.receive_message(10, 21);
    cell.receive_message(20, 22);
    match cell.handle_envelope() {
        HandleOutcome::Processed { sender, .. } => assert_eq!(sender, 21),
        HandleOutcome::Noop => panic!("work was pending"),
    }
    assert_eq!(cell.sender(), 21);
    match cell.handle_envelope() {
        HandleOutcome::Processed { sender, .. } => assert_eq!(sender, 22),
        HandleOutcome::Noop => panic!("work was pending"),
    }
    assert_eq!(cell.sender(), 22);
}

#[test]
fn context_tell_carries_own_token_as_sender() {
    let props = Props::<Echo>::new(());
    let parent = ActorCell::new(props.create(), props, 77u64);
    assert_eq!(parent.actor_ref(), 77);
    let mut child = echo_ref(5);
    assert_eq!(parent.tell(&mut child, 9i64), Ok(true));
    match child.handle().unwrap() {
        HandleOutcome::Processed { sender, replies, .. } => {
            assert_eq!(sender, 77);
            assert_eq!(expect_int(&replies[0]), 9);
        }
        HandleOutcome::Noop => panic!("work was pending"),
    }
}

#[test]
fn actor_of_spawns_fresh_actor() {
    let props = Props::<Echo>::new(());
    let parent = ActorCell::new(props.create(), props, 1u64);
    let child_props = Props::<Counter>::new(40);
    let mut child = parent.actor_of(child_props, 8u64);
    assert_eq!(child.receive(Message::Int(2), 1), Ok(true));
    match child.handle().unwrap() {
        HandleOutcome::Processed { replies, .. } => assert_eq!(expect_int(&replies[0]), 42),
        HandleOutcome::Noop => panic!("work was pending"),
    }
}

/// Flips its flag on every boolean message and replies with the new value.
struct Toggle {
    on: bool,
}

impl Actor for Toggle {
    type Args = bool;
    type M = bool;

    fn create(args: bool) -> Toggle {
        Toggle { on: args }
    }

    fn receive(&mut self, message: bool) -> Vec<Message> {
        self.on = self.on != message;
        vec![Message::Flag(self.on)]
    }
}

#[test]
fn boolean_payloads_cross_the_boundary() {
    let props = Props::<Toggle>::new(false);
    let actor = props.create();
    let mut target = ActorRef::with_cell(ActorCell::new(actor, props, 3u64));
    assert_eq!(target.receive(Message::Flag(true), 6), Ok(true));
    // An integer is the wrong type for this actor.
    assert_eq!(target.receive(Message::Int(1), 6), Err(ActorError::TypeMismatch));
    match target.handle().unwrap() {
        HandleOutcome::Processed { sender, replies, .. } => {
            assert_eq!(sender, 6);
            match replies[0] {
                Message::Flag(b) => assert!(b),
                _ => panic!("expected a boolean payload"),
            }
        }
        HandleOutcome::Noop => panic!("work was pending"),
    }
}

#[test]
fn respawn_determinism() {
    // Two creations from one factory (and from its clone) yield independent
    // instances with equal initial observable state.
    let props = Props::<Counter>::new(7);
    let first = props.create();
    let second = props.create();
    assert_eq!(first, second);
    let cloned = props.clone();
    let third = cloned.create();
    assert_eq!(first, third);
    // The instances share no mutable data: driving one leaves the others as
    // created.
    let mut driven = first;
    driven.receive(100);
    assert_eq!(second, Counter { total: 7 });
    assert_eq!(third, Counter { total: 7 });
    assert_eq!(driven, Counter { total: 107 });
}
