//! A read-only projection of a model's state.
use vstd::prelude::*;

verus! {

/// Data that can be derived from a state without modifying it.
///
/// A model can support several projections as long as they render different
/// types of data. `renders` describes which derived values the current state
/// admits; `render` builds one of them.
pub trait Projection<R> {
    /// Which derived values the current state admits; the vacuous default
    /// admits every value, and a projection that wants callers to reason
    /// about what it renders overrides it.
    open spec fn renders(&self, r: R) -> bool {
        true
    }

    /// Builds the derived representation from the current state.
    fn render(&self) -> (r: R)
        ensures
            self.renders(r),
    ;
}

} // verus!
