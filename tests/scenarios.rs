use std::sync::{Arc, Weak};

use futures::channel::mpsc::{TryRecvError, UnboundedReceiver};
use futures::channel::oneshot;

use hannibal::addr::Addr;
use hannibal::broker::Broker;
use hannibal::channel::{ChannelWrapper, MailboxRx, MailboxTx};
use hannibal::environment::{Environment, Outcome, Step};
use hannibal::error::ActorError;
use hannibal::payload::Payload;
use hannibal::restart_strategy::RestartKind;

#[derive(Default)]
struct Counter {
    value: i32,
    seen: Vec<u32>,
}

impl Counter {
    fn add(&mut self, a: i32, b: i32) -> i32 {
        a + b
    }
}

type Task = Box<dyn FnOnce(&mut Counter) + Send>;

/// Runs the verified loop synchronously over a real mailbox.
struct Driver {
    env: Environment,
    rx: UnboundedReceiver<Payload<Task>>,
    actor: Counter,
    starts: u32,
    stops: u32,
    exited: Option<bool>,
}

impl Driver {
    fn spawn(actor: Counter, restart: RestartKind) -> (Driver, Addr<Task>) {
        let (tx, rx) = ChannelWrapper::<Payload<Task>>::unbounded().break_up();
        let rx = match rx {
            MailboxRx::Unbounded(rx) => rx,
            MailboxRx::Bounded(_) => panic!("an unbounded mailbox was asked for"),
        };
        let mut driver = Driver {
            env: Environment::new(restart),
            rx,
            actor,
            starts: 0,
            stops: 0,
            exited: None,
        };
        driver.drive(Outcome::Launched);
        (driver, Addr::new(tx))
    }

    fn drive(&mut self, first: Outcome<Task, u32>) {
        let mut outcome = first;
        loop {
            assert!(self.env.accepts(&outcome));
            outcome = match self.env.advance(outcome) {
                Step::RunOnStart => {
                    self.starts += 1;
                    Outcome::Started(true)
                }
                Step::Receive { .. } => match self.rx.try_recv() {
                    Ok(p) => Outcome::Received(Some(p)),
                    Err(TryRecvError::Closed) => Outcome::Received(None),
                    Err(TryRecvError::Empty) => return,
                },
                Step::Handle(task) => {
                    task(&mut self.actor);
                    Outcome::Handled
                }
                Step::HandleItem(item) => {
                    self.actor.seen.push(item);
                    Outcome::Handled
                }
                Step::RunOnStop => {
                    self.stops += 1;
                    Outcome::Stopped
                }
                Step::Recreate => {
                    self.actor = Counter::default();
                    Outcome::Recreated
                }
                Step::Finish { start_failed } => {
                    self.exited = Some(start_failed);
                    return;
                }
            };
        }
    }

    /// Handles whatever the mailbox holds now.
    fn pump(&mut self) {
        if self.exited.is_none() {
            match self.rx.try_recv() {
                Ok(p) => self.drive(Outcome::Received(Some(p))),
                Err(TryRecvError::Closed) => self.drive(Outcome::Received(None)),
                Err(TryRecvError::Empty) => {}
            }
        }
    }

    fn pump_all(&mut self) {
        for _ in 0..64 {
            self.pump();
        }
    }
}

fn push(v: u32) -> Task {
    Box::new(move |c: &mut Counter| c.seen.push(v))
}

#[test]
fn request_response_then_closed() {
    let (mut driver, addr) = Driver::spawn(Counter::default(), RestartKind::Never);
    let (tx, mut answer) = oneshot::channel::<i32>();
    addr.send(Box::new(move |c: &mut Counter| {
        let _ = tx.send(c.add(1, 2));
    }))
    .unwrap();
    driver.pump_all();
    assert_eq!(answer.try_recv().unwrap(), Some(3));

    addr.stop().unwrap();
    driver.pump_all();
    assert_eq!(driver.exited, Some(false));
    drop(driver);
    let (tx, _answer) = oneshot::channel::<i32>();
    let r = addr.send(Box::new(move |c: &mut Counter| {
        let _ = tx.send(c.add(1, 2));
    }));
    assert_eq!(r, Err(ActorError::Closed));
}

#[test]
fn fire_and_forget_keeps_order() {
    let (mut driver, addr) = Driver::spawn(Counter::default(), RestartKind::Never);
    addr.send(push(42)).unwrap();
    addr.send(push(23)).unwrap();
    addr.stop().unwrap();
    driver.pump_all();
    assert_eq!(driver.exited, Some(false));
    assert_eq!(driver.actor.seen, vec![42, 23]);
}

#[test]
fn restart_in_place_runs_on_start_again() {
    let (mut driver, addr) = Driver::spawn(Counter::default(), RestartKind::InPlace);
    assert_eq!(driver.starts, 1);
    addr.restart().unwrap();
    let (tx, mut answer) = oneshot::channel::<i32>();
    addr.send(Box::new(move |c: &mut Counter| {
        let _ = tx.send(c.add(0, 0));
    }))
    .unwrap();
    driver.pump_all();
    assert_eq!(answer.try_recv().unwrap(), Some(0));
    assert_eq!(driver.starts, 2);
    assert_eq!(driver.stops, 1);
}

#[test]
fn recreate_from_default_resets_state() {
    let (mut driver, addr) = Driver::spawn(Counter { value: 5, seen: vec![] }, RestartKind::FromDefault);
    assert_eq!(driver.actor.value, 5);
    addr.restart().unwrap();
    let (tx, mut answer) = oneshot::channel::<i32>();
    addr.send(Box::new(move |c: &mut Counter| {
        let _ = tx.send(c.value);
    }))
    .unwrap();
    driver.pump_all();
    assert_eq!(answer.try_recv().unwrap(), Some(0));
}

#[test]
fn broker_fans_out_in_order() {
    let (mut s1, a1) = Driver::spawn(Counter::default(), RestartKind::Never);
    let (mut s2, a2) = Driver::spawn(Counter::default(), RestartKind::Never);
    let topic: u64 = 1;
    let mut broker: Broker<Addr<Task>> = Broker::new();
    broker.subscribe(topic, a1);
    broker.subscribe(topic, a2);
    for v in [42u32, 23] {
        for sub in broker.subscribers(topic).unwrap() {
            sub.send(push(v)).unwrap();
        }
    }
    // two pings each, to drain
    for _ in 0..2 {
        for sub in broker.subscribers(topic).unwrap() {
            sub.send(Box::new(|_: &mut Counter| {})).unwrap();
        }
    }
    for sub in broker.subscribers(topic).unwrap() {
        sub.stop().unwrap();
    }
    s1.pump_all();
    s2.pump_all();
    assert_eq!(s1.actor.seen, vec![42, 23]);
    assert_eq!(s2.actor.seen, vec![42, 23]);
}

#[test]
fn weak_address_dies_with_the_actor() {
    let (mut driver, addr) = Driver::spawn(Counter::default(), RestartKind::Never);
    let weak: Weak<MailboxTx<Payload<Task>>> = Arc::downgrade(&addr.payload_tx);
    assert!(weak.upgrade().is_some());
    drop(addr);
    driver.pump_all();
    assert_eq!(driver.exited, Some(false));
    assert_eq!(driver.stops, 1);
    assert!(weak.upgrade().is_none());
}
