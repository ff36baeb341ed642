use std::sync::atomic::AtomicUsize;
use std::sync::atomic::Ordering;
use std::sync::Arc;

use elmish::Application;
use elmish::Cmd;
use elmish::EffectTree;
use elmish::Executor;
use elmish::InlineExecutor;
use elmish::Job;
use elmish::Mailbox;
use elmish::Model;
use elmish::Projection;

/// An executor that counts how many jobs it was handed, then runs each
/// immediately.
#[derive(Clone)]
struct CountingExecutor {
    spawned: Arc<AtomicUsize>,
}

impl Executor for CountingExecutor {
    fn spawn(&mut self, f: Box<dyn Job>) {
        self.spawned.fetch_add(1, Ordering::SeqCst);
        f.call();
    }
}

#[derive(Clone, Copy, PartialEq, Eq, Debug)]
enum CounterMsg {
    Increment,
    Decrement,
}

struct Counter {
    value: i64,
}

impl Model<CounterMsg> for Counter {
    fn update(&mut self, msg: CounterMsg) -> Cmd<CounterMsg> {
        match msg {
            CounterMsg::Increment => self.value += 1,
            CounterMsg::Decrement => self.value -= 1,
        }
        EffectTree::Empty
    }
}

#[test]
fn test_counter_drain_applies_in_order_without_effects() {
    let mailbox = Mailbox::new();
    let spawned = Arc::new(AtomicUsize::new(0));
    let executor = CountingExecutor { spawned: spawned.clone() };
    let mut app = Application::new(mailbox, Counter { value: 0 }, executor);

    let handle = app.mailbox();
    handle.post(CounterMsg::Increment);
    handle.post(CounterMsg::Increment);
    handle.post(CounterMsg::Decrement);

    app.update();

    assert_eq!(app.model().value, 1);
    assert_eq!(spawned.load(Ordering::SeqCst), 0);
}

/// A model that only records every message it is given, in order.
struct Recorder {
    seen: Vec<u32>,
}

impl Model<u32> for Recorder {
    fn update(&mut self, msg: u32) -> Cmd<u32> {
        self.seen.push(msg);
        EffectTree::Empty
    }
}

#[test]
fn test_drain_delivers_each_message_once_in_arrival_order() {
    let mailbox = Mailbox::new();
    let mut app = Application::new(mailbox, Recorder { seen: Vec::new() }, InlineExecutor::default());

    let handle = app.mailbox();
    for n in 1..=5 {
        handle.post(n);
    }
    app.update();
    assert_eq!(app.model().seen, vec![1, 2, 3, 4, 5]);
}

#[test]
fn test_posts_from_many_handles_all_arrive_exactly_once() {
    let mailbox: Mailbox<u32> = Mailbox::new();
    let handles: Vec<Mailbox<u32>> = (0..8).map(|_| mailbox.clone()).collect();
    for (n, handle) in handles.iter().enumerate() {
        handle.post(n as u32);
    }
    let mut drained = mailbox.take_all();
    drained.sort();
    assert_eq!(drained, vec![0, 1, 2, 3, 4, 5, 6, 7]);
}

#[derive(Clone, Copy, PartialEq, Eq, Debug)]
enum RunMsg {
    Start,
    Finished(i64),
}

struct Runner {
    done: Option<i64>,
}

impl Model<RunMsg> for Runner {
    fn update(&mut self, msg: RunMsg) -> Cmd<RunMsg> {
        match msg {
            RunMsg::Start => Cmd::from(|| {
                let mut acc: i64 = 0;
                for n in 1..=6 {
                    acc += n;
                }
                RunMsg::Finished(acc * 2)
            }),
            RunMsg::Finished(n) => {
                self.done = Some(n);
                EffectTree::Empty
            }
        }
    }
}

#[test]
fn test_scheduled_effect_feeds_result_back_into_state() {
    let mailbox = Mailbox::new();
    let mut app = Application::new(mailbox, Runner { done: None }, InlineExecutor::default());

    app.mailbox().post(RunMsg::Start);
    app.update();
    assert_eq!(app.model().done, None);

    app.update();
    assert_eq!(app.model().done, Some(42));
}

#[test]
fn test_schedule_standalone_injects_initial_effect() {
    let mailbox = Mailbox::new();
    let mut app = Application::new(mailbox, Runner { done: None }, InlineExecutor::default());

    app.schedule(Cmd::from(|| RunMsg::Finished(7)));
    app.update();
    assert_eq!(app.model().done, Some(7));
}

#[test]
fn test_schedule_hands_one_job_per_leaf() {
    let mailbox = Mailbox::new();
    let spawned = Arc::new(AtomicUsize::new(0));
    let executor = CountingExecutor { spawned: spawned.clone() };
    let mut app = Application::new(mailbox, Runner { done: None }, executor);

    app.schedule(EffectTree::Batch(vec![
        Cmd::from(|| RunMsg::Finished(1)),
        EffectTree::Empty,
        Cmd::from(|| RunMsg::Finished(2)),
    ]));
    assert_eq!(spawned.load(Ordering::SeqCst), 2);
}

#[test]
fn test_take_all_empties_the_mailbox_and_keeps_values() {
    let mailbox: Mailbox<u32> = Mailbox::new();
    mailbox.post(11);
    mailbox.post(22);
    assert_eq!(mailbox.take_all(), vec![11, 22]);
    mailbox.post(33);
    assert_eq!(mailbox.take_all(), vec![33]);
}

#[test]
fn test_deliver_applies_a_batch_in_order() {
    let mailbox: Mailbox<u32> = Mailbox::new();
    let mut app = Application::new(mailbox, Recorder { seen: Vec::new() }, InlineExecutor::default());
    app.deliver(vec![7, 8, 9]);
    assert_eq!(app.model().seen, vec![7, 8, 9]);
    app.deliver(Vec::new());
    assert_eq!(app.model().seen, vec![7, 8, 9]);
}

impl Projection<String> for Counter {
    fn render(&self) -> String {
        format!("count: {}", self.value)
    }
}

#[test]
fn test_application_renders_its_model_projection() {
    let mailbox: Mailbox<CounterMsg> = Mailbox::new();
    let app = Application::new(mailbox, Counter { value: 3 }, InlineExecutor::default());
    let rendered: String = app.render();
    assert_eq!(rendered, "count: 3");
}
