//! `Props`: the immutable factory that manufactures actor instances from a
//! fixed constructor and fixed construction arguments.

use vstd::prelude::*;

use crate::Actor;

verus! {

/// Immutable factory for `A`.
///
/// It always creates an `A` with the same constructor ([`Actor::create`]) and
/// the same arguments, so it can be invoked repeatedly to produce independent
/// instances with equal initial state: once for the first spawn, and again
/// whenever a supervisor wants to respawn the actor.
pub struct Props<A: Actor> {
    args: A::Args,
}

impl<A: Actor> Props<A> {
    /// The stored construction arguments.
    pub closed spec fn args(self) -> A::Args {
        self.args
    }

    /// Creates a `Props`: a factory for `A` from the fixed arguments `args`.
    pub fn new(args: A::Args) -> (r: Props<A>)
        ensures
            r.args() == args,
    {
        Props { args }
    }

    /// Creates one new actor instance with the stored constructor arguments.
    ///
    /// Does not mutate the factory; two calls yield independent instances
    /// with equal initial observable state.
    pub fn create(&self) -> (a: A)
        ensures
            a == A::initial(self.args()),
    {
        A::create(self.args)
    }
}

impl<A: Actor> Clone for Props<A> {
    /// A clone is a factory with the same arguments, and so manufactures
    /// actors with the same initial state.
    fn clone(&self) -> (r: Self)
        ensures
            r.args() == self.args(),
    {
        Props { args: self.args }
    }
}

/// Respawn determinism: two factories with equal construction arguments
/// manufacture actor instances with equal initial observable state, however
/// often and in whatever order [`Props::create`] is called on them. The
/// instances themselves are separate values and share no mutable data.
pub proof fn lemma_respawn_determinism<A: Actor>(p: Props<A>, q: Props<A>)
    requires
        p.args() == q.args(),
    ensures
        A::initial(p.args()) == A::initial(q.args()),
{
}

} // verus!
