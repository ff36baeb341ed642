//! The leaf-task capability: one indivisible unit of asynchronous work that
//! produces a message when run.
use vstd::prelude::*;
use core::marker::PhantomData;

verus! {

/// One unit of side-effecting work that, when run, produces a message.
///
/// `post` describes which messages a given task value may produce; `run` is
/// total, so every task value must be runnable as it stands.
pub trait Task<M>: Send where M: Send {
    /// The result messages the work can hand back.
    spec fn post(&self, m: M) -> bool;

    /// Performs the work and returns the resulting message.
    fn run(self: Box<Self>) -> (m: M)
        ensures
            self.post(m),
    ;
}

/// A leaf task wrapping one nullary message-producing function.
#[verifier::reject_recursive_types(M)]
pub(crate) struct FnTask<M: Send, F: FnOnce() -> M + Send> {
    f: F,
    marker: PhantomData<M>,
}

impl<M: Send, F: FnOnce() -> M + Send> FnTask<M, F> {
    /// The wrapped function stays callable, so `run` can always invoke it.
    #[verifier::type_invariant]
    spec fn callable(self) -> bool {
        call_requires(self.f, ())
    }

    pub(crate) fn new(f: F) -> (r: Self)
        requires
            call_requires(f, ()),
        ensures
            forall|m: M| #[trigger] r.post(m) <==> call_ensures(f, (), m),
    {
        FnTask { f, marker: PhantomData }
    }
}

impl<M: Send + 'static, F: FnOnce() -> M + Send + 'static> Task<M> for FnTask<M, F> {
    closed spec fn post(&self, m: M) -> bool {
        call_ensures(self.f, (), m)
    }

    fn run(self: Box<Self>) -> (m: M) {
        proof {
            use_type_invariant(&*self);
        }
        let this = *self;
        (this.f)()
    }
}

/// A leaf task that runs an inner task, then applies a message transform to
/// its result.
#[verifier::reject_recursive_types(M1)]
#[verifier::reject_recursive_types(M2)]
pub(crate) struct MapTask<
    M1: Send + 'static,
    M2: Send + 'static,
    T: Task<M1> + 'static + ?Sized,
    F: Fn(M1) -> M2 + Send + 'static,
> {
    f: F,
    marker: PhantomData<(M1, M2)>,
    inner: Box<T>,
}

impl<
    M1: Send + 'static,
    M2: Send + 'static,
    T: Task<M1> + 'static + ?Sized,
    F: Fn(M1) -> M2 + Send + 'static,
> MapTask<M1, M2, T, F> {
    /// The transform accepts every message the inner task may hand it.
    #[verifier::type_invariant]
    spec fn callable(self) -> bool {
        forall|m: M1| call_requires(self.f, (m,))
    }

    pub(crate) fn new(inner: Box<T>, f: F) -> (r: Self)
        requires
            forall|m: M1| call_requires(f, (m,)),
        ensures
            forall|m2: M2|
                #[trigger] r.post(m2) <==> exists|m1: M1|
                    (*inner).post(m1) && call_ensures(f, (m1,), m2),
    {
        let r = MapTask { f, marker: PhantomData, inner };
        proof {
            assert(r.inner == inner);
            assert(forall|m2: M2|
                #[trigger] r.post(m2) <==> exists|m1: M1|
                    (*r.inner).post(m1) && call_ensures(r.f, (m1,), m2));
        }
        r
    }
}

impl<
    M1: Send + 'static,
    M2: Send + 'static,
    T: Task<M1> + 'static + ?Sized,
    F: Fn(M1) -> M2 + Send + 'static,
> Task<M2> for MapTask<M1, M2, T, F> {
    closed spec fn post(&self, m2: M2) -> bool {
        exists|m1: M1| (*self.inner).post(m1) && call_ensures(self.f, (m1,), m2)
    }

    fn run(self: Box<Self>) -> (m2: M2) {
        proof {
            use_type_invariant(&*self);
        }
        let this = *self;
        let m1 = this.inner.run();
        (this.f)(m1)
    }
}

} // verus!
