//! A component: an event attached to a piece of mutable state.
use vstd::prelude::*;
use crate::cmd::Cmd;

verus! {

/// A component over a state `S` and an event `E`.
///
/// `update` applies the event to the component's state and returns an effect
/// to be executed asynchronously, which sends back an event when finished.
pub trait Component<S, E> where E: Send + 'static {
    /// Applies one event and returns the effect to run next.
    fn update(&mut self, event: E) -> Cmd<E>;
}

} // verus!
