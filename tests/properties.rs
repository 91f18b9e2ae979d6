use std::sync::Arc;

use futures::channel::mpsc::TryRecvError;
use futures::future::AbortHandle;

use hannibal::addr::{call_result, try_restart, try_send, try_stop, Addr};
use hannibal::broker::Broker;
use hannibal::builder::build;
use hannibal::channel::{ChannelWrapper, MailboxRx, MailboxTx};
use hannibal::context::{tick_again, Context};
use hannibal::environment::{Environment, Outcome, Phase, Step};
use hannibal::error::ActorError;
use hannibal::payload::Payload;
use hannibal::restart_strategy::{
    NonRestartable, RecreateFromDefault, RefreshStep, RestartKind, RestartOnly, RestartStrategy,
    RestartableActor,
};
use hannibal::service::{service_action, ServiceAction, ServiceRegistry};

/// What a run did, in order: "start", "stop", "exit", or a handled value.
fn run(env: &mut Environment, script: Vec<Outcome<u32, u32>>) -> Vec<String> {
    let mut log = Vec::new();
    for o in script {
        if !env.accepts(&o) {
            log.push("refused".to_string());
            continue;
        }
        match env.advance(o) {
            Step::RunOnStart => log.push("start".to_string()),
            Step::RunOnStop => log.push("stop".to_string()),
            Step::Handle(t) => log.push(format!("task {}", t)),
            Step::HandleItem(i) => log.push(format!("item {}", i)),
            Step::Recreate => log.push("recreate".to_string()),
            Step::Finish { start_failed } => log.push(format!("exit {}", start_failed)),
            Step::Receive { with_stream } => {
                if !with_stream {
                    log.push("receive".to_string())
                } else {
                    log.push("receive+stream".to_string())
                }
            }
        }
    }
    log
}

fn task(t: u32) -> Outcome<u32, u32> {
    Outcome::Received(Some(Payload::Task(t)))
}

#[test]
fn single_sender_order_is_kept() {
    let (tx, rx) = ChannelWrapper::<Payload<u32>>::unbounded().break_up();
    let addr = Addr::new(tx);
    for i in 0..100u32 {
        addr.send(i).unwrap();
    }
    let mut rx = match rx {
        MailboxRx::Unbounded(rx) => rx,
        MailboxRx::Bounded(_) => panic!("unbounded mailbox expected"),
    };
    let mut env = Environment::new(RestartKind::Never);
    let mut handled = Vec::new();
    let mut step = env.advance(Outcome::<u32, u32>::Launched);
    loop {
        let o = match step {
            Step::RunOnStart => Outcome::Started(true),
            Step::Receive { .. } => match rx.try_recv() {
                Ok(p) => Outcome::Received(Some(p)),
                Err(_) => break,
            },
            Step::Handle(t) => {
                handled.push(t);
                Outcome::Handled
            }
            _ => break,
        };
        step = env.advance(o);
    }
    assert_eq!(handled, (0..100u32).collect::<Vec<_>>());
}

#[test]
fn start_completes_before_tasks() {
    let mut env = Environment::new(RestartKind::Never);
    let log = run(
        &mut env,
        vec![task(1), Outcome::Launched, task(1), Outcome::Started(true), task(1), Outcome::Handled],
    );
    assert_eq!(log, vec!["refused", "start", "refused", "receive", "task 1", "receive"]);
}

#[test]
fn failed_start_stops_without_tasks() {
    let mut env = Environment::new(RestartKind::InPlace);
    let log = run(
        &mut env,
        vec![Outcome::Launched, Outcome::Started(false), task(7), Outcome::Stopped],
    );
    assert_eq!(log, vec!["start", "stop", "refused", "exit true"]);
    assert!(env.is_finished());
}

#[test]
fn stop_runs_on_stop_once() {
    let mut env = Environment::new(RestartKind::Never);
    let log = run(
        &mut env,
        vec![
            Outcome::Launched,
            Outcome::Started(true),
            Outcome::Received(Some(Payload::Stop)),
            Outcome::Stopped,
            Outcome::Stopped,
            Outcome::Received(None),
        ],
    );
    assert_eq!(log, vec!["start", "receive", "stop", "exit false", "refused", "refused"]);
    assert_eq!(log.iter().filter(|e| *e == "stop").count(), 1);
}

#[test]
fn restart_splits_tasks_around_new_start() {
    let mut env = Environment::new(RestartKind::InPlace);
    let log = run(
        &mut env,
        vec![
            Outcome::Launched,
            Outcome::Started(true),
            task(1),
            Outcome::Handled,
            Outcome::Received(Some(Payload::Restart)),
            task(2),
            Outcome::Stopped,
            Outcome::Started(true),
            task(2),
            Outcome::Handled,
        ],
    );
    assert_eq!(
        log,
        vec![
            "start", "receive", "task 1", "receive", "stop", "refused", "start", "receive",
            "task 2", "receive"
        ]
    );
}

#[test]
fn recreate_runs_between_stop_and_start() {
    let mut env = Environment::for_strategy::<RecreateFromDefault>();
    let log = run(
        &mut env,
        vec![
            Outcome::Launched,
            Outcome::Started(true),
            Outcome::Received(Some(Payload::Restart)),
            Outcome::Stopped,
            Outcome::Recreated,
            Outcome::Started(true),
        ],
    );
    assert_eq!(log, vec!["start", "receive", "stop", "recreate", "start", "receive"]);
}

#[test]
fn restart_ignored_when_not_restartable() {
    let mut env = Environment::for_strategy::<NonRestartable>();
    let log = run(
        &mut env,
        vec![Outcome::Launched, Outcome::Started(true), Outcome::Received(Some(Payload::Restart))],
    );
    assert_eq!(log, vec!["start", "receive", "receive"]);
    assert_eq!(env.phase, Phase::Receiving);
}

#[test]
fn closed_mailbox_ends_the_loop() {
    let (tx, rx) = ChannelWrapper::<Payload<u32>>::unbounded().break_up();
    let addr = Addr::new(tx);
    let mut rx = match rx {
        MailboxRx::Unbounded(rx) => rx,
        MailboxRx::Bounded(_) => panic!("unbounded mailbox expected"),
    };
    drop(addr);
    assert!(matches!(rx.try_recv(), Err(TryRecvError::Closed)));
    let mut env = Environment::new(RestartKind::Never);
    let log = run(
        &mut env,
        vec![Outcome::Launched, Outcome::Started(true), Outcome::Received(None), Outcome::Stopped],
    );
    assert_eq!(log, vec!["start", "receive", "stop", "exit false"]);
}

#[test]
fn stream_items_and_stream_end() {
    let mut env = Environment::on_stream();
    let log = run(
        &mut env,
        vec![
            Outcome::Launched,
            Outcome::Started(true),
            Outcome::Item(5),
            Outcome::Handled,
            Outcome::StreamEnded,
            Outcome::Item(6),
            task(3),
            Outcome::Handled,
        ],
    );
    assert_eq!(
        log,
        vec![
            "start", "receive+stream", "item 5", "receive+stream", "receive", "refused", "task 3",
            "receive"
        ]
    );
}

#[test]
fn side_tasks_cancelled_at_shutdown() {
    let mut ctx: Context<u32> = Context::new();
    let (h1, _r1) = AbortHandle::new_pair();
    let (h2, _r2) = AbortHandle::new_pair();
    ctx.spawn_task(h1.clone());
    ctx.spawn_task(h2.clone());
    ctx.add_child(7);
    ctx.add_child(3);
    assert!(!h1.is_aborted());
    let children = ctx.shutdown();
    assert_eq!(children, vec![7, 3]);
    assert!(h1.is_aborted());
    assert!(h2.is_aborted());
    assert!(ctx.tasks.is_empty());
    assert!(ctx.children.is_empty());
}

#[test]
fn interval_stops_when_send_fails() {
    assert!(tick_again(true, &Ok(())));
    assert!(!tick_again(true, &Err(ActorError::Closed)));
    assert!(!tick_again(true, &Err(ActorError::AlreadyStopped)));
    assert!(!tick_again(false, &Ok(())));
}

#[test]
fn weak_upgrade_while_strong_lives() {
    let (tx, _rx) = ChannelWrapper::<Payload<u32>>::unbounded().break_up();
    let addr = Addr::new(tx);
    let other = addr.clone();
    let weak = Arc::downgrade(&addr.payload_tx);
    drop(addr);
    assert!(weak.upgrade().is_some());
    drop(other);
    assert!(weak.upgrade().is_none());
}

#[test]
fn registry_launches_once() {
    let mut reg: ServiceRegistry<&str> = ServiceRegistry::new();
    let key: u64 = 9;
    assert!(reg.get(key).is_none());
    assert_eq!(service_action(false, false), ServiceAction::Launch);
    assert_eq!(reg.register(key, "first"), None);
    let found = reg.get(key).copied();
    assert_eq!(found, Some("first"));
    assert_eq!(service_action(found.is_some(), false), ServiceAction::Reuse);
    assert_eq!(service_action(true, true), ServiceAction::Launch);
    assert_eq!(reg.register(key, "second"), Some("first"));
    assert_eq!(reg.unregister(key), Some("second"));
    assert!(reg.get(key).is_none());
}

#[test]
fn broker_prunes_dead_subscribers() {
    let mut broker: Broker<char> = Broker::new();
    broker.subscribe(1, 'a');
    broker.subscribe(1, 'b');
    broker.subscribe(1, 'c');
    broker.subscribe(2, 'z');
    broker.retain_live(1, &vec![true, false, true]);
    assert_eq!(broker.subscribers(1).unwrap(), &vec!['a', 'c']);
    assert_eq!(broker.subscribers(2).unwrap(), &vec!['z']);
    assert!(broker.subscribers(3).is_none());
}

#[test]
fn upgrade_failures_are_already_stopped() {
    assert_eq!(try_send::<u32>(None, 1), Err(ActorError::AlreadyStopped));
    assert_eq!(try_stop::<u32>(None), Err(ActorError::AlreadyStopped));
    assert_eq!(try_restart::<u32>(None), Err(ActorError::AlreadyStopped));
    let (tx, rx) = ChannelWrapper::<Payload<u32>>::unbounded().break_up();
    let addr = Addr::new(tx);
    assert_eq!(try_send(Some(addr.clone()), 1), Ok(()));
    drop(rx);
    assert_eq!(try_stop(Some(addr)), Err(ActorError::Closed));
}

#[test]
fn bounded_mailbox_delivers_and_closes() {
    let (tx, rx) = ChannelWrapper::<Payload<u32>>::bounded(1).break_up();
    assert!(matches!(*tx, MailboxTx::Bounded(_)));
    let addr = Addr::new(tx);
    addr.send(11).unwrap();
    addr.send(12).unwrap();
    addr.stop().unwrap();
    let mut rx = match rx {
        MailboxRx::Bounded(rx) => rx,
        MailboxRx::Unbounded(_) => panic!("bounded mailbox expected"),
    };
    assert!(matches!(rx.try_recv(), Ok(Payload::Task(11))));
    assert!(matches!(rx.try_recv(), Ok(Payload::Task(12))));
    assert!(matches!(rx.try_recv(), Ok(Payload::Stop)));
    drop(rx);
    assert_eq!(addr.restart(), Err(ActorError::Closed));
    assert_eq!(addr.sender().send(1), Err(ActorError::Closed));
}

#[test]
fn refresh_plans_per_policy() {
    assert_eq!(NonRestartable::refresh_plan(), vec![]);
    assert_eq!(RestartOnly::refresh_plan(), vec![RefreshStep::RunOnStop, RefreshStep::RunOnStart]);
    assert_eq!(
        RecreateFromDefault::refresh_plan(),
        vec![RefreshStep::RunOnStop, RefreshStep::ReplaceWithDefault, RefreshStep::RunOnStart]
    );
}

struct Resettable;
impl RestartableActor for Resettable {}

#[test]
fn builder_configures_loop_and_mailbox() {
    let (_, env, tx, _) = build(Resettable).bounded::<u32>(4).recreate_from_default().into_parts();
    assert_eq!(env, Environment::new(RestartKind::FromDefault));
    assert!(matches!(*tx, MailboxTx::Bounded(_)));
    let (_, env, _, rx) = build(Resettable).unbounded::<u32>().non_restartable().into_parts();
    assert_eq!(env.restart, RestartKind::Never);
    assert!(matches!(rx, MailboxRx::Unbounded(_)));
    let (_, env, _, _, stream) = build(Resettable).on_stream::<u32, Vec<u8>>(vec![1, 2]).into_parts();
    assert_eq!(env, Environment::on_stream());
    assert_eq!(stream, vec![1, 2]);
}

#[test]
fn call_settles_each_way() {
    assert_eq!(call_result(Ok(()), Some(Some(3))), Ok(3));
    assert_eq!(call_result::<i32>(Ok(()), Some(None)), Err(ActorError::Canceled));
    assert_eq!(call_result::<i32>(Ok(()), None), Err(ActorError::Timeout));
    assert_eq!(call_result(Err(ActorError::Closed), Some(Some(3))), Err(ActorError::Closed));
    assert_eq!(call_result::<i32>(Err(ActorError::Full), None), Err(ActorError::Full));
}

#[test]
fn strategy_picks_loop_policy() {
    assert_eq!(Environment::for_strategy::<RestartOnly>(), Environment::new(RestartKind::InPlace));
    assert_eq!(Environment::for_strategy::<NonRestartable>().restart, RestartKind::Never);
    assert_eq!(RecreateFromDefault::kind(), RestartKind::FromDefault);
}
