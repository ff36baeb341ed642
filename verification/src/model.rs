//! The state-transition contract a user state type implements.
use vstd::prelude::*;
use crate::cmd::Cmd;

verus! {

/// A model: exclusively owned state advanced one message at a time.
///
/// `update` applies one message, mutating the state, and returns the effect
/// to schedule next. `next` is the model's transition relation; it defaults
/// to the vacuous relation, and a verified model overrides it and proves its
/// `update` against it.
pub trait Model<Msg>: Sized where Msg: Send + 'static {
    /// The transition relation: whether one `update` call on `pre`, fed
    /// `msg`, may leave the state `post` and return the effect `cmd`.
    open spec fn next(pre: Self, msg: Msg, post: Self, cmd: Cmd<Msg>) -> bool {
        true
    }

    /// Applies one message to the state and returns the effect to run next.
    fn update(&mut self, msg: Msg) -> (cmd: Cmd<Msg>)
        ensures
            Self::next(*old(self), msg, *final(self), cmd),
    ;
}

} // verus!
