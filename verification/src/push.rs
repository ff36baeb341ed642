//! The notifier-push orchestration variant, for driving loops that cannot
//! block: messages accumulate in a shared pending store, and a side-channel
//! notifier tells the external driver to poll.
use vstd::prelude::*;
use std::sync::Arc;
use std::sync::Mutex;
use crate::cmd::Cmd;
use crate::executor::Executor;
use crate::executor::Job;
use crate::model::Model;
use crate::application::stepped;
use crate::task::Task;

verus! {

/// A cloneable, thread-safe signal with no arguments and no return value:
/// invoking it means "poll me"; it transfers no data, and message durability
/// never depends on it being invoked.
pub trait Notifier: Send + Sync + Clone {
    /// Signals the external driver that new messages may be pending.
    fn notify(&self);
}

/// A shared, lockable, ordered store of pending messages; both the
/// orchestrator and every in-flight task hold a handle to the same store.
/// Like the blocking inbox, it grows without bound when nobody drains.
#[verifier::reject_recursive_types(M)]
pub struct PendingStore<M: Send> {
    store: Arc<Mutex<Vec<M>>>,
}

impl<M: Send> Clone for PendingStore<M> {
    /// Relies on std::sync::Arc::clone: the clone is another handle to the
    /// same allocation, so as a value it equals the original.
    #[verifier::external_body]
    fn clone(&self) -> (r: Self)
        ensures
            r == *self,
    {
        PendingStore { store: Arc::clone(&self.store) }
    }
}

impl<M: Send> PendingStore<M> {
    /// Creates an empty store.
    pub fn new() -> Self {
        PendingStore { store: Arc::new(Mutex::new(Vec::new())) }
    }

    /// Appends one message atomically. Never blocks and signals nobody.
    ///
    /// Relies on std::sync::Mutex::lock and Vec::push: the message is
    /// enqueued behind all earlier ones while the lock is held. Panics only
    /// if the lock was poisoned by a holder that panicked.
    #[verifier::external_body]
    pub fn post(&self, m: M) {
        let mut store = self.store.lock().unwrap();
        store.push(m);
    }

    /// Atomically takes everything, leaving the store empty, without
    /// blocking: the result, possibly empty, keeps the arrival order.
    ///
    /// Relies on std::sync::Mutex::lock and std::mem::take: the swap happens
    /// under the lock, so no concurrent post is lost or delivered twice.
    #[verifier::external_body]
    pub fn drain_all(&self) -> Vec<M> {
        let mut store = self.store.lock().unwrap();
        std::mem::take(&mut *store)
    }
}

/// The job the push orchestrator schedules for one leaf task: run the task,
/// push the resulting message into the pending store, then fire the
/// notifier so the external driver learns to call update again.
#[verifier::reject_recursive_types(Msg)]
struct PushDispatch<Msg: Send + 'static, N: Notifier + 'static> {
    task: Box<dyn Task<Msg>>,
    pending: PendingStore<Msg>,
    notifier: N,
}

impl<Msg: Send + 'static, N: Notifier + 'static> Job for PushDispatch<Msg, N> {
    fn call(self: Box<Self>) {
        let this = *self;
        let msg = this.task.run();
        this.pending.post(msg);
        this.notifier.notify();
    }
}

/// The push-variant orchestrator: like [`crate::Application`], but never
/// blocks; it drains a pending store on demand and announces new messages
/// through a notifier instead of waking a parked drainer.
#[verifier::reject_recursive_types(Msg)]
pub struct PushApplication<M, Msg, N> where M: Model<Msg>, Msg: Send + 'static, N: Notifier {
    pending: PendingStore<Msg>,
    notifier: N,
    model: M,
    executor: Box<dyn Executor>,
}

impl<M, Msg, N> PushApplication<M, Msg, N> where
    M: Model<Msg>,
    Msg: Send + 'static,
    N: Notifier + 'static,
 {
    /// The model the application currently owns.
    pub closed spec fn spec_model(self) -> M {
        self.model
    }

    /// The pending store the application drains.
    pub closed spec fn spec_pending(self) -> PendingStore<Msg> {
        self.pending
    }

    /// How many jobs this application has handed its executor so far.
    pub closed spec fn spec_spawned(self) -> nat {
        self.executor.spawned()
    }

    /// Creates a push application from an initial state, an executor and the
    /// notifier used to announce new messages.
    pub fn new<E: Executor + 'static>(model: M, executor: E, notifier: N) -> (app:
        PushApplication<M, Msg, N>)
        ensures
            app.spec_model() == model,
    {
        PushApplication {
            pending: PendingStore::new(),
            notifier,
            model,
            executor: Box::new(executor),
        }
    }

    /// A handle to the pending store, for any thread that wants to schedule
    /// messages directly; posting there never invokes the notifier and never
    /// runs an update.
    pub fn pending(&self) -> (r: PendingStore<Msg>)
        ensures
            r == self.spec_pending(),
    {
        self.pending.clone()
    }

    /// Schedules one message: appends it to the pending store and nothing
    /// else; the caller decides when to notify and when to update.
    pub fn post(&self, msg: Msg) {
        self.pending.post(msg);
    }

    /// Invokes the notifier, and only that: no state mutation, no drain; the
    /// caller is expected to call update afterwards.
    pub fn notify(&self) {
        self.notifier.notify();
    }

    /// Updates the application's state without blocking.
    ///
    /// Drains the pending store fully - a no-op when it is empty - and hands
    /// the whole drained batch to [`PushApplication::deliver`].
    pub fn update(&mut self)
        ensures
            exists|batch: Seq<Msg>|
                stepped(old(self).spec_model(), batch, final(self).spec_model()),
            final(self).spec_pending() == old(self).spec_pending(),
    {
        let messages = self.pending.drain_all();
        let ghost batch = messages@;
        self.deliver(messages);
        proof {
            assert(stepped(old(self).spec_model(), batch, self.spec_model()));
        }
    }

    /// Delivers one drained batch: invokes the transition function exactly
    /// once per message, in the batch's order, scheduling each returned
    /// effect before the next delivery; the final model is related to the
    /// initial one by the transition relation folded over exactly these
    /// messages.
    pub fn deliver(&mut self, messages: Vec<Msg>)
        ensures
            stepped(old(self).spec_model(), messages@, final(self).spec_model()),
            final(self).spec_pending() == old(self).spec_pending(),
    {
        let ghost batch = messages@;
        let ghost m0 = self.model;
        let ghost mut done: Seq<Msg> = Seq::empty();
        let mut rest = messages;
        while rest.len() > 0
            invariant
                batch == done + rest@,
                stepped(m0, done, self.model),
                self.pending == old(self).spec_pending(),
            decreases rest.len(),
        {
            let ghost done_before = done;
            let ghost model_before = self.model;
            let msg = rest.remove(0);
            let cmd = self.model.update(msg);
            let ghost model_mid = self.model;
            let ghost gcmd = cmd;
            self.schedule(cmd);
            proof {
                crate::application::lemma_stepped_snoc(
                    m0,
                    done_before,
                    model_before,
                    msg,
                    model_mid,
                    gcmd,
                );
                done = done.push(msg);
                assert(batch =~= done + rest@);
            }
        }
        proof {
            assert(batch =~= done);
        }
    }

    /// Schedules an effect: unpacks it into leaf tasks and hands the
    /// executor, for each leaf in depth-first order, one job that runs the
    /// leaf, pushes its result into the pending store and fires the
    /// notifier: the executor takes in exactly one new job per leaf.
    pub fn schedule(&mut self, cmd: Cmd<Msg>)
        ensures
            final(self).spec_model() == old(self).spec_model(),
            final(self).spec_pending() == old(self).spec_pending(),
            final(self).spec_spawned() == old(self).spec_spawned() + cmd.leaves().len(),
    {
        let ghost n = cmd.leaves().len();
        let mut tasks = cmd.unpack();
        while tasks.len() > 0
            invariant
                self.model == old(self).spec_model(),
                self.pending == old(self).spec_pending(),
                tasks@.len() <= n,
                self.spec_spawned() == old(self).spec_spawned() + n - tasks@.len(),
            decreases tasks.len(),
        {
            let task = tasks.remove(0);
            let pending = self.pending.clone();
            let notifier = self.notifier.clone();
            let job: Box<dyn Job> = Box::new(PushDispatch { task, pending, notifier });
            self.executor.spawn(job);
        }
    }

    /// The current model of the application.
    pub fn model(&self) -> (r: &M)
        ensures
            *r == self.spec_model(),
    {
        &self.model
    }
}

} // verus!
