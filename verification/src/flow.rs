//! The contract between an application's state and the update loop.

use vstd::prelude::*;

verus! {

/// What the update loop does after a message has been handled.
#[derive(Clone, Copy, Debug, PartialEq, Eq, Structural)]
pub enum ControlFlow {
    /// The change, if any, does not affect rendering: the mounted tree stays as it is.
    Pending,
    /// The state changed in a way that affects rendering: render again.
    Rebuild,
}

/// Application state that reacts to messages of type `M`.
///
/// The transition is a function of the state and the message: it is defined
/// for every message, changes nothing but the state, and hands back the
/// signal that tells the update loop whether to render again.
pub trait Model<M>: Sized {
    /// The state after `msg`.
    spec fn next(self, msg: M) -> Self;

    /// The signal handed back for `msg`.
    spec fn signal(self, msg: M) -> ControlFlow;

    /// Applies `msg` to the state.
    fn handle(&mut self, msg: M) -> (flow: ControlFlow)
        ensures
            *final(self) == old(self).next(msg),
            flow == old(self).signal(msg),
    ;
}

} // verus!
