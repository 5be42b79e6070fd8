//! The type-erased payload that crosses the dispatch boundary, and the
//! fallible cast with which a receiver recovers the concrete type it expects.

use vstd::prelude::*;

use crate::ActorError;

verus! {

/// A type-erased message payload.
///
/// Message dispatch is closed over this tagged sum: a sender erases a concrete
/// value into a `Message`, and a receiver recovers the type it expects with
/// the fallible cast of [`MessageContent`]. A payload of the wrong variant is
/// reported as [`ActorError::TypeMismatch`], never aborted on.
#[derive(Clone, Debug)]
pub enum Message {
    Int(i64),
    Flag(bool),
    Text(String),
}

/// The mathematical value of a [`Message`].
pub ghost enum MessageView {
    Int(int),
    Flag(bool),
    Text(Seq<char>),
}

impl View for Message {
    type V = MessageView;

    open spec fn view(&self) -> MessageView {
        match self {
            Message::Int(i) => MessageView::Int(*i as int),
            Message::Flag(b) => MessageView::Flag(*b),
            Message::Text(s) => MessageView::Text(s@),
        }
    }
}

/// A concrete type that can cross the dispatch boundary: it can be erased
/// into a [`Message`] and recovered from one by a fallible cast.
pub trait MessageContent: Sized {
    /// Does the erased payload `m` hold a value of this type?
    spec fn accepts(m: MessageView) -> bool;

    /// The value of this type that an accepted payload holds.
    spec fn extract(m: MessageView) -> Self;

    /// The erased payload that `self` turns into.
    spec fn inject(self) -> MessageView;

    /// Recovering a value undoes erasing it: every value is accepted back and
    /// extracts to itself.
    proof fn lemma_inject_accepts(self)
        ensures
            Self::accepts(self.inject()),
            Self::extract(self.inject()) == self,
    ;

    /// Erase `self` into a type-erased payload.
    fn to_message(self) -> (m: Message)
        ensures
            m@ == self.inject(),
    ;

    /// The fallible cast at the boundary: recover a value of this type, or
    /// report a `TypeMismatch` when the payload holds another type.
    fn from_message(m: Message) -> (r: Result<Self, ActorError>)
        ensures
            Self::accepts(m@) ==> r == Ok::<Self, ActorError>(Self::extract(m@)),
            !Self::accepts(m@) ==> r == Err::<Self, ActorError>(ActorError::TypeMismatch),
    ;
}

impl MessageContent for i64 {
    open spec fn accepts(m: MessageView) -> bool {
        m is Int
    }

    open spec fn extract(m: MessageView) -> i64 {
        m->Int_0 as i64
    }

    open spec fn inject(self) -> MessageView {
        MessageView::Int(self as int)
    }

    proof fn lemma_inject_accepts(self) {
    }

    fn to_message(self) -> (m: Message) {
        Message::Int(self)
    }

    fn from_message(m: Message) -> (r: Result<i64, ActorError>) {
        match m {
            Message::Int(i) => Ok(i),
            _ => Err(ActorError::TypeMismatch),
        }
    }
}

impl MessageContent for bool {
    open spec fn accepts(m: MessageView) -> bool {
        m is Flag
    }

    open spec fn extract(m: MessageView) -> bool {
        m->Flag_0
    }

    open spec fn inject(self) -> MessageView {
        MessageView::Flag(self)
    }

    proof fn lemma_inject_accepts(self) {
    }

    fn to_message(self) -> (m: Message) {
        Message::Flag(self)
    }

    fn from_message(m: Message) -> (r: Result<bool, ActorError>) {
        match m {
            Message::Flag(b) => Ok(b),
            _ => Err(ActorError::TypeMismatch),
        }
    }
}

} // verus!
