//! A minimal set of abstractions to create applications with an Elm-style
//! architecture: state advances only by discrete messages, and producing a
//! new state may also describe asynchronous side effects that feed their
//! results back in as new messages.
//!
//! States are mutable, and models may support multiple projections.
use vstd::prelude::*;

mod application;
mod cmd;
mod component;
mod executor;
mod mailbox;
mod model;
mod push;
mod sync;
mod task;
mod view;

pub use application::Application;
pub use application::lemma_stepped_cat;
pub use application::stepped;
pub use cmd::Cmd;
pub use cmd::EffectTree;
pub use cmd::leaves_of;
pub use cmd::pointwise;
pub use cmd::same_shape;
pub use component::Component;
pub use executor::Executor;
pub use executor::InlineExecutor;
pub use executor::Job;
pub use mailbox::Mailbox;
pub use model::Model;
pub use push::Notifier;
pub use push::PendingStore;
pub use push::PushApplication;
pub use task::Task;
pub use view::Projection;

verus! {

/// Every application whose model can render a projection renders the same
/// projection itself, without exposing its mutable state: what the
/// application renders is exactly what its model renders.
impl<S, M, R> Projection<R> for Application<S, M> where
    S: Model<M> + Projection<R>,
    M: Send + 'static,
 {
    open spec fn renders(&self, r: R) -> bool {
        self.spec_model().renders(r)
    }

    fn render(&self) -> (r: R) {
        self.model().render()
    }
}

} // verus!
