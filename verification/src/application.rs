//! The orchestrator: owns the state, the inbox and an executor, and runs the
//! update cycle.
use vstd::prelude::*;
use crate::cmd::Cmd;
use crate::executor::Executor;
use crate::executor::Job;
use crate::mailbox::Mailbox;
use crate::model::Model;
use crate::task::Task;

verus! {

/// Whether `m1` is reachable from `m0` by applying the model's transition
/// relation once per message of `batch`, in order.
pub open spec fn stepped<M: Model<Msg>, Msg: Send + 'static>(
    m0: M,
    batch: Seq<Msg>,
    m1: M,
) -> bool
    decreases batch.len(),
{
    if batch.len() == 0 {
        m1 == m0
    } else {
        exists|mid: M, cmd: Cmd<Msg>|
            M::next(m0, batch[0], mid, cmd) && stepped(mid, batch.drop_first(), m1)
    }
}

/// Delivering one batch and then another, without interference in between,
/// is the same as delivering their concatenation in one drain: batches
/// compose, and every message of each batch is consumed exactly once, in
/// order.
pub proof fn lemma_stepped_cat<M: Model<Msg>, Msg: Send + 'static>(
    m0: M,
    a: Seq<Msg>,
    mid: M,
    b: Seq<Msg>,
    m1: M,
)
    requires
        stepped(m0, a, mid),
        stepped(mid, b, m1),
    ensures
        stepped(m0, a + b, m1),
    decreases a.len(),
{
    if a.len() == 0 {
        assert(a + b =~= b);
    } else {
        let (x, c): (M, Cmd<Msg>) = choose|x: M, c: Cmd<Msg>|
            M::next(m0, a[0], x, c) && stepped(x, a.drop_first(), mid);
        lemma_stepped_cat(x, a.drop_first(), mid, b, m1);
        assert((a + b).drop_first() =~= a.drop_first() + b);
        assert((a + b)[0] == a[0]);
        assert(M::next(m0, (a + b)[0], x, c));
        assert(stepped(x, (a + b).drop_first(), m1));
    }
}

/// One more transition after a delivered batch extends the batch by one
/// message.
pub(crate) proof fn lemma_stepped_snoc<M: Model<Msg>, Msg: Send + 'static>(
    m0: M,
    batch: Seq<Msg>,
    m1: M,
    msg: Msg,
    m2: M,
    cmd: Cmd<Msg>,
)
    requires
        stepped(m0, batch, m1),
        M::next(m1, msg, m2, cmd),
    ensures
        stepped(m0, batch.push(msg), m2),
    decreases batch.len(),
{
    if batch.len() == 0 {
        assert(batch.push(msg).drop_first() =~= Seq::<Msg>::empty());
        assert(stepped(m2, batch.push(msg).drop_first(), m2));
        assert(batch.push(msg)[0] == msg);
        assert(M::next(m0, batch.push(msg)[0], m2, cmd));
    } else {
        let (mid, c): (M, Cmd<Msg>) = choose|mid: M, c: Cmd<Msg>|
            M::next(m0, batch[0], mid, c) && stepped(mid, batch.drop_first(), m1);
        lemma_stepped_snoc(mid, batch.drop_first(), m1, msg, m2, cmd);
        assert(batch.push(msg).drop_first() =~= batch.drop_first().push(msg));
        assert(batch.push(msg)[0] == batch[0]);
        assert(M::next(m0, batch.push(msg)[0], mid, c));
        assert(stepped(mid, batch.push(msg).drop_first(), m2));
    }
}

/// The job the orchestrator schedules for one leaf task: run the task, then
/// post the resulting message back to the inbox.
#[verifier::reject_recursive_types(Msg)]
struct Dispatch<Msg: Send + 'static> {
    task: Box<dyn Task<Msg>>,
    mailbox: Mailbox<Msg>,
}

impl<Msg: Send + 'static> Job for Dispatch<Msg> {
    fn call(self: Box<Self>) {
        let this = *self;
        let msg = this.task.run();
        this.mailbox.post(msg);
    }
}

/// The blocking-mailbox orchestrator: owns the model, a mailbox handle and a
/// boxed executor, and advances the model by draining the mailbox.
#[verifier::reject_recursive_types(Msg)]
pub struct Application<M, Msg> where M: Model<Msg>, Msg: Send + 'static {
    mailbox: Mailbox<Msg>,
    model: M,
    executor: Box<dyn Executor>,
}

impl<M, Msg> Application<M, Msg> where M: Model<Msg>, Msg: Send + 'static {
    /// The model the application currently owns.
    pub closed spec fn spec_model(self) -> M {
        self.model
    }

    /// The inbox the application drains.
    pub closed spec fn spec_mailbox(self) -> Mailbox<Msg> {
        self.mailbox
    }

    /// How many jobs this application has handed its executor so far.
    pub closed spec fn spec_spawned(self) -> nat {
        self.executor.spawned()
    }

    /// Creates an application from a mailbox, an initial state and an
    /// executor.
    pub fn new<E: Executor + 'static>(mailbox: Mailbox<Msg>, model: M, executor: E) -> (app:
        Application<M, Msg>)
        ensures
            app.spec_mailbox() == mailbox,
            app.spec_model() == model,
    {
        Application { mailbox, model, executor: Box::new(executor) }
    }

    /// Returns a handle to the application's inbox.
    ///
    /// The handle can be cloned and sent to other threads to post messages.
    pub fn mailbox(&self) -> (r: Mailbox<Msg>)
        ensures
            r == self.spec_mailbox(),
    {
        self.mailbox.clone()
    }

    /// Updates the application's state.
    ///
    /// Blocks until the inbox holds at least one message, drains it, and
    /// hands the whole drained batch to [`Application::deliver`].
    pub fn update(&mut self)
        ensures
            exists|batch: Seq<Msg>|
                batch.len() > 0 && stepped(
                    old(self).spec_model(),
                    batch,
                    final(self).spec_model(),
                ),
            final(self).spec_mailbox() == old(self).spec_mailbox(),
    {
        let messages = self.mailbox.take_all();
        let ghost batch = messages@;
        self.deliver(messages);
        proof {
            assert(batch.len() > 0);
            assert(stepped(old(self).spec_model(), batch, self.spec_model()));
        }
    }

    /// Delivers one drained batch: invokes the transition function exactly
    /// once per message, in the batch's order, scheduling each returned
    /// effect before the next delivery; the final model is related to the
    /// initial one by the transition relation folded over exactly these
    /// messages.
    pub fn deliver(&mut self, messages: Vec<Msg>)
        ensures
            stepped(old(self).spec_model(), messages@, final(self).spec_model()),
            final(self).spec_mailbox() == old(self).spec_mailbox(),
    {
        let ghost batch = messages@;
        let ghost m0 = self.model;
        let ghost mut done: Seq<Msg> = Seq::empty();
        let mut rest = messages;
        while rest.len() > 0
            invariant
                batch == done + rest@,
                stepped(m0, done, self.model),
                self.mailbox == old(self).mailbox,
            decreases rest.len(),
        {
            let ghost done_before = done;
            let ghost model_before = self.model;
            let msg = rest.remove(0);
            let cmd = self.model.update(msg);
            let ghost model_mid = self.model;
            let ghost gcmd = cmd;
            self.schedule(cmd);
            proof {
                lemma_stepped_snoc(m0, done_before, model_before, msg, model_mid, gcmd);
                done = done.push(msg);
                assert(batch =~= done + rest@);
            }
        }
        proof {
            assert(batch =~= done);
        }
    }

    /// Schedules an effect: unpacks it into leaf tasks and hands the
    /// executor, for each leaf in depth-first order, one job that runs the
    /// leaf and posts its result message to this application's inbox: the
    /// executor takes in exactly one new job per leaf, after everything it
    /// already held.
    pub fn schedule(&mut self, cmd: Cmd<Msg>)
        ensures
            final(self).spec_model() == old(self).spec_model(),
            final(self).spec_mailbox() == old(self).spec_mailbox(),
            final(self).spec_spawned() == old(self).spec_spawned() + cmd.leaves().len(),
    {
        let ghost n = cmd.leaves().len();
        let mut tasks = cmd.unpack();
        while tasks.len() > 0
            invariant
                self.model == old(self).model,
                self.mailbox == old(self).mailbox,
                tasks@.len() <= n,
                self.spec_spawned() == old(self).spec_spawned() + n - tasks@.len(),
            decreases tasks.len(),
        {
            let task = tasks.remove(0);
            let mailbox = self.mailbox.clone();
            let job: Box<dyn Job> = Box::new(Dispatch { task, mailbox });
            self.executor.spawn(job);
        }
    }

    /// The current model of the application.
    pub fn model(&self) -> (r: &M)
        ensures
            *r == self.spec_model(),
    {
        &self.model
    }

}

} // verus!
