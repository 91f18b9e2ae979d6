use vstd::prelude::*;

use crate::environment::{accepts, initial, next, Environment, Outcome, Phase, Step};
use crate::payload::Payload;
use crate::restart_strategy::RestartKind;

verus! {

/// One observable event in the life of an actor, as a run of its loop
/// records it.
pub enum Mark<T> {
    /// `on_start` was called.
    StartBegan,
    /// `on_start` returned, successfully or not.
    StartDone(bool),
    /// The mailbox yielded a unit of work.
    GotTask(T),
    /// A unit of work was handed to its handler.
    TaskBegan(T),
    /// The mailbox yielded a restart request.
    GotRestart,
    /// `on_stop` was called.
    StopBegan,
    /// The loop exited.
    Exited,
}

pub open spec fn is_start<T>(m: Mark<T>) -> bool {
    m is StartBegan
}

pub open spec fn is_stop<T>(m: Mark<T>) -> bool {
    m is StopBegan
}

pub open spec fn outcome_marks<T, I>(o: Outcome<T, I>) -> Seq<Mark<T>> {
    match o {
        Outcome::Started(ok) => seq![Mark::StartDone(ok)],
        Outcome::Received(Some(Payload::Task(t))) => seq![Mark::GotTask(t)],
        Outcome::Received(Some(Payload::Restart)) => seq![Mark::GotRestart],
        _ => seq![],
    }
}

pub open spec fn step_marks<T, I>(st: Step<T, I>) -> Seq<Mark<T>> {
    match st {
        Step::RunOnStart => seq![Mark::StartBegan],
        Step::Handle(t) => seq![Mark::TaskBegan(t)],
        Step::RunOnStop => seq![Mark::StopBegan],
        Step::Finish { .. } => seq![Mark::Exited],
        _ => seq![],
    }
}

/// The state reached from `s` after the outcomes `os`, in order.
pub open spec fn run_state<T, I>(s: Environment, os: Seq<Outcome<T, I>>) -> Environment
    decreases os.len(),
{
    if os.len() == 0 {
        s
    } else {
        next(run_state(s, os.drop_last()), os.last()).0
    }
}

/// Whether each outcome of `os` is one that the loop waits for when it comes.
pub open spec fn valid_run<T, I>(s: Environment, os: Seq<Outcome<T, I>>) -> bool
    decreases os.len(),
{
    if os.len() == 0 {
        true
    } else {
        valid_run(s, os.drop_last()) && accepts(run_state(s, os.drop_last()), os.last())
    }
}

/// What happened, in order, while the loop took in the outcomes `os`.
pub open spec fn run_log<T, I>(s: Environment, os: Seq<Outcome<T, I>>) -> Seq<Mark<T>>
    decreases os.len(),
{
    if os.len() == 0 {
        seq![]
    } else {
        let prev = run_state(s, os.drop_last());
        run_log(s, os.drop_last()) + outcome_marks(os.last()) + step_marks(
            next(prev, os.last()).1,
        )
    }
}

/// How many times `on_start` was called in `log`.
pub open spec fn count_starts<T>(log: Seq<Mark<T>>) -> nat
    decreases log.len(),
{
    if log.len() == 0 {
        0
    } else {
        count_starts(log.drop_last()) + if is_start(log.last()) {
            1nat
        } else {
            0nat
        }
    }
}

/// How many times `on_stop` was called in `log`.
pub open spec fn count_stops<T>(log: Seq<Mark<T>>) -> nat
    decreases log.len(),
{
    if log.len() == 0 {
        0
    } else {
        count_stops(log.drop_last()) + if is_stop(log.last()) {
            1nat
        } else {
            0nat
        }
    }
}

/// The tasks that the mailbox yielded, in order.
pub open spec fn received_tasks<T>(log: Seq<Mark<T>>) -> Seq<T>
    decreases log.len(),
{
    if log.len() == 0 {
        seq![]
    } else {
        match log.last() {
            Mark::GotTask(t) => received_tasks(log.drop_last()).push(t),
            _ => received_tasks(log.drop_last()),
        }
    }
}

/// The tasks handed to their handlers, in order.
pub open spec fn handled_tasks<T>(log: Seq<Mark<T>>) -> Seq<T>
    decreases log.len(),
{
    if log.len() == 0 {
        seq![]
    } else {
        match log.last() {
            Mark::TaskBegan(t) => handled_tasks(log.drop_last()).push(t),
            _ => handled_tasks(log.drop_last()),
        }
    }
}

/// Whether a task may be handled after `log`: the latest call of `on_start`
/// has returned successfully and, for a restartable actor, no restart request
/// has come since.
pub open spec fn ready<T>(log: Seq<Mark<T>>, restartable: bool) -> bool
    decreases log.len(),
{
    if log.len() == 0 {
        false
    } else {
        match log.last() {
            Mark::StartDone(ok) => ok,
            Mark::StartBegan => false,
            Mark::GotRestart => if restartable {
                false
            } else {
                ready(log.drop_last(), restartable)
            },
            _ => ready(log.drop_last(), restartable),
        }
    }
}

/// Whether the loop has not exited during `log`.
pub open spec fn not_exited<T>(log: Seq<Mark<T>>) -> bool {
    forall|i: int| 0 <= i < log.len() ==> !(#[trigger] log[i] is Exited)
}

pub open spec fn run_open(p: Phase) -> bool {
    p == Phase::Starting || p == Phase::Receiving || p == Phase::Handling
}

/// The counting part of [`run_inv`]: one `on_stop` for every `on_start`,
/// once the run that it began is over.
pub open spec fn inv_counts<T>(s0: Environment, s: Environment, log: Seq<Mark<T>>) -> bool {
    &&& s.restart == s0.restart
    &&& (s.stream_open ==> s0.stream_open)
    &&& count_starts(log) == count_stops(log) + if run_open(s.phase) {
        1nat
    } else {
        0nat
    }
    &&& (s.restart == RestartKind::Never ==> s.phase != Phase::RestartStopping && s.phase
        != Phase::Recreating)
    &&& (s.restart == RestartKind::Never ==> count_starts(log) == if s.phase == Phase::Created {
        0nat
    } else {
        1nat
    })
    &&& (s.phase == Phase::Created ==> log.len() == 0)
}

/// The ordering part of [`run_inv`]: tasks are handled as they come, and
/// only when the actor is ready for them.
pub open spec fn inv_tasks<T>(s: Environment, log: Seq<Mark<T>>) -> bool {
    &&& ((s.phase == Phase::Receiving || s.phase == Phase::Handling) ==> ready(
        log,
        s.restart != RestartKind::Never,
    ))
    &&& received_tasks(log) == handled_tasks(log)
    &&& (forall|i: int|
        0 <= i < log.len() && #[trigger] log[i] is GotTask ==> i + 1 < log.len() && log[i + 1]
            == Mark::TaskBegan(log[i]->GotTask_0))
    &&& (forall|i: int|
        0 <= i < log.len() && #[trigger] log[i] is TaskBegan ==> ready(
            log.take(i),
            s.restart != RestartKind::Never,
        ))
}

/// The exit part of [`run_inv`]: the exit is recorded last, and only once
/// the loop has finished.
pub open spec fn inv_exit<T>(s: Environment, log: Seq<Mark<T>>) -> bool {
    &&& (s.phase != Phase::Finished ==> not_exited(log))
    &&& (s.phase == Phase::Finished ==> log.len() > 0 && log.last() is Exited && not_exited(
        log.drop_last(),
    ))
    &&& (s.phase == Phase::Stopping ==> log.len() > 0 && log.last() is StopBegan)
    &&& (s.phase == Phase::Finished ==> log.len() > 1 && log[log.len() - 2] is StopBegan)
}

/// What holds of every state and log that a valid run reaches.
pub open spec fn run_inv<T>(s0: Environment, s: Environment, log: Seq<Mark<T>>) -> bool {
    inv_counts(s0, s, log) && inv_tasks(s, log) && inv_exit(s, log)
}

/// The log after `log`, once the loop in state `s` has taken in `o`.
pub open spec fn step_log<T, I>(s: Environment, log: Seq<Mark<T>>, o: Outcome<T, I>) -> Seq<Mark<T>> {
    log + outcome_marks(o) + step_marks(next(s, o).1)
}

proof fn lemma_counts_append<T>(a: Seq<Mark<T>>, b: Seq<Mark<T>>)
    ensures
        count_starts(a + b) == count_starts(a) + count_starts(b),
        count_stops(a + b) == count_stops(a) + count_stops(b),
        received_tasks(a + b) == received_tasks(a) + received_tasks(b),
        handled_tasks(a + b) == handled_tasks(a) + handled_tasks(b),
    decreases b.len(),
{
    if b.len() == 0 {
        assert(a + b =~= a);
        assert(received_tasks(a) + received_tasks(b) =~= received_tasks(a));
        assert(handled_tasks(a) + handled_tasks(b) =~= handled_tasks(a));
    } else {
        assert((a + b).drop_last() =~= a + b.drop_last());
        assert((a + b).last() == b.last());
        lemma_counts_append(a, b.drop_last());
        match b.last() {
            Mark::GotTask(t) => {
                assert(received_tasks(a) + received_tasks(b.drop_last()).push(t) =~= (
                received_tasks(a) + received_tasks(b.drop_last())).push(t));
            },
            Mark::TaskBegan(t) => {
                assert(handled_tasks(a) + handled_tasks(b.drop_last()).push(t) =~= (
                handled_tasks(a) + handled_tasks(b.drop_last())).push(t));
            },
            _ => {},
        }
    }
}

/// Appending marks that are neither starts nor restart requests keeps
/// readiness as it was.
proof fn lemma_ready_append<T>(a: Seq<Mark<T>>, b: Seq<Mark<T>>, restartable: bool)
    requires
        forall|i: int|
            0 <= i < b.len() ==> !(#[trigger] b[i] is StartBegan) && !(b[i] is StartDone) && !(
            restartable && b[i] is GotRestart),
    ensures
        ready(a + b, restartable) == ready(a, restartable),
    decreases b.len(),
{
    if b.len() == 0 {
        assert(a + b =~= a);
    } else {
        assert((a + b).drop_last() =~= a + b.drop_last());
        assert((a + b).last() == b.last());
        assert(b.last() == b[b.len() - 1]);
        lemma_ready_append(a, b.drop_last(), restartable);
    }
}

proof fn lemma_not_exited_append<T>(a: Seq<Mark<T>>, b: Seq<Mark<T>>)
    requires
        not_exited(a),
        not_exited(b),
    ensures
        not_exited(a + b),
{
    assert forall|i: int| 0 <= i < (a + b).len() implies !(#[trigger] (a + b)[i] is Exited) by {
        if i < a.len() {
            assert((a + b)[i] == a[i]);
        } else {
            assert((a + b)[i] == b[i - a.len()]);
        }
    }
}

proof fn lemma_step_counts<T, I>(s0: Environment, s: Environment, log: Seq<Mark<T>>, o: Outcome<T, I>)
    requires
        inv_counts(s0, s, log),
        accepts(s, o),
    ensures
        inv_counts(s0, next(s, o).0, step_log(s, log, o)),
{
    let om = outcome_marks(o);
    let sm = step_marks(next(s, o).1);
    lemma_counts_append(log, om);
    lemma_counts_append(log + om, sm);
    assert(count_starts(Seq::<Mark<T>>::empty()) == 0);
    assert(count_stops(Seq::<Mark<T>>::empty()) == 0);
    match o {
        Outcome::Started(ok) => {
            assert(om.drop_last() =~= Seq::<Mark<T>>::empty());
        },
        Outcome::Received(p) => {
            if om.len() > 0 {
                assert(om.drop_last() =~= Seq::<Mark<T>>::empty());
            }
        },
        _ => {},
    }
    if sm.len() > 0 {
        assert(sm.drop_last() =~= Seq::<Mark<T>>::empty());
    }
}

proof fn lemma_step_ready<T, I>(s: Environment, log: Seq<Mark<T>>, o: Outcome<T, I>)
    requires
        inv_tasks(s, log),
        accepts(s, o),
    ensures
        inv_tasks(next(s, o).0, step_log(s, log, o)),
{
    let (s2, st) = next(s, o);
    let om = outcome_marks(o);
    let sm = step_marks(st);
    let log2 = step_log(s, log, o);
    let restartable = s.restart != RestartKind::Never;
    assert(s2.restart == s.restart);
    lemma_counts_append(log, om);
    lemma_counts_append(log + om, sm);
    assert(received_tasks(Seq::<Mark<T>>::empty()) =~= Seq::<T>::empty());
    assert(handled_tasks(Seq::<Mark<T>>::empty()) =~= Seq::<T>::empty());
    match o {
        Outcome::Received(Some(Payload::Task(t))) => {
            assert(om =~= seq![Mark::GotTask(t)]);
            assert(sm =~= seq![Mark::TaskBegan(t)]);
            assert(om.drop_last() =~= Seq::<Mark<T>>::empty());
            assert(sm.drop_last() =~= Seq::<Mark<T>>::empty());
            lemma_ready_append(log, om, restartable);
            assert forall|i: int|
                0 <= i < log2.len() && #[trigger] log2[i] is TaskBegan implies ready(
                log2.take(i),
                restartable,
            ) by {
                if i < log.len() {
                    assert(log2.take(i) =~= log.take(i));
                    assert(log2[i] == log[i]);
                } else if i == log.len() {
                    assert(log2[i] == Mark::<T>::GotTask(t));
                } else {
                    assert(log2.take(i) =~= log + om);
                }
            }
            assert forall|i: int|
                0 <= i < log2.len() && #[trigger] log2[i] is GotTask implies i + 1 < log2.len()
                && log2[i + 1] == Mark::TaskBegan(log2[i]->GotTask_0) by {
                if i < log.len() {
                    assert(log2[i] == log[i]);
                    assert(log2[i + 1] == log[i + 1]);
                } else if i == log.len() {
                    assert(log2[i] == Mark::<T>::GotTask(t));
                    assert(log2[i + 1] == Mark::<T>::TaskBegan(t));
                } else {
                    assert(log2[i] == Mark::<T>::TaskBegan(t));
                }
            }
        },
        _ => {
            assert(forall|i: int| 0 <= i < sm.len() ==> !(#[trigger] sm[i] is TaskBegan));
            assert forall|i: int|
                0 <= i < log2.len() && #[trigger] log2[i] is TaskBegan implies ready(
                log2.take(i),
                restartable,
            ) by {
                if i < log.len() {
                    assert(log2.take(i) =~= log.take(i));
                    assert(log2[i] == log[i]);
                } else if i < log.len() + om.len() {
                    assert(log2[i] == om[i - log.len()]);
                } else {
                    assert(log2[i] == sm[i - log.len() - om.len()]);
                }
            }
            assert forall|i: int|
                0 <= i < log2.len() && #[trigger] log2[i] is GotTask implies i + 1 < log2.len()
                && log2[i + 1] == Mark::TaskBegan(log2[i]->GotTask_0) by {
                if i < log.len() {
                    assert(log2[i] == log[i]);
                    assert(log2[i + 1] == log[i + 1]);
                } else if i < log.len() + om.len() {
                    assert(log2[i] == om[i - log.len()]);
                } else {
                    assert(log2[i] == sm[i - log.len() - om.len()]);
                }
            }
            if s2.phase == Phase::Receiving || s2.phase == Phase::Handling {
                match o {
                    Outcome::Started(ok) => {
                        assert(sm =~= Seq::<Mark<T>>::empty());
                        assert(log2 =~= log.push(Mark::StartDone(ok)));
                        assert(log2.drop_last() =~= log);
                    },
                    _ => {
                        assert(log2 =~= log + (om + sm));
                        lemma_ready_append(log, om + sm, restartable);
                    },
                }
            }
            if om.len() > 0 {
                assert(om.drop_last() =~= Seq::<Mark<T>>::empty());
            }
            if sm.len() > 0 {
                assert(sm.drop_last() =~= Seq::<Mark<T>>::empty());
            }
        },
    }
}

proof fn lemma_step_exit<T, I>(s: Environment, log: Seq<Mark<T>>, o: Outcome<T, I>)
    requires
        inv_exit(s, log),
        accepts(s, o),
    ensures
        inv_exit(next(s, o).0, step_log(s, log, o)),
{
    let (s2, st) = next(s, o);
    let om = outcome_marks(o);
    let sm = step_marks(st);
    assert(not_exited(om));
    if s2.phase != Phase::Finished {
        assert(not_exited(sm));
        lemma_not_exited_append(log + om, sm);
        lemma_not_exited_append(log, om);
    } else {
        assert(sm =~= seq![Mark::<T>::Exited]);
        assert(step_log(s, log, o).drop_last() =~= log + om);
        lemma_not_exited_append(log, om);
        assert(om =~= Seq::<Mark<T>>::empty());
        assert(step_log(s, log, o)[log.len() - 1] == log.last());
    }
}

/// Every valid run from a fresh loop keeps [`run_inv`].
pub proof fn lemma_run_inv<T, I>(s0: Environment, os: Seq<Outcome<T, I>>)
    requires
        s0 == initial(s0.restart, s0.stream_open),
        valid_run(s0, os),
    ensures
        run_inv(s0, run_state(s0, os), run_log(s0, os)),
    decreases os.len(),
{
    if os.len() == 0 {
        assert(run_log(s0, os) =~= Seq::<Mark<T>>::empty());
        assert(count_starts(Seq::<Mark<T>>::empty()) == 0);
        assert(count_stops(Seq::<Mark<T>>::empty()) == 0);
        assert(received_tasks(Seq::<Mark<T>>::empty()) =~= Seq::<T>::empty());
        assert(handled_tasks(Seq::<Mark<T>>::empty()) =~= Seq::<T>::empty());
    } else {
        let prev = os.drop_last();
        lemma_run_inv(s0, prev);
        let s = run_state(s0, prev);
        let log = run_log(s0, prev);
        assert(run_log(s0, os) == step_log(s, log, os.last()));
        lemma_step_counts(s0, s, log, os.last());
        lemma_step_ready(s, log, os.last());
        lemma_step_exit(s, log, os.last());
    }
}

/// A ready log holds a successful return of `on_start` after which neither
/// `on_start` was called again nor, for a restartable actor, a restart asked.
proof fn lemma_ready_witness<T>(log: Seq<Mark<T>>, restartable: bool) -> (k: int)
    requires
        ready(log, restartable),
    ensures
        0 <= k < log.len(),
        log[k] == Mark::<T>::StartDone(true),
        forall|m: int|
            k < m < log.len() ==> !(#[trigger] log[m] is StartBegan) && !(restartable
                && log[m] is GotRestart),
    decreases log.len(),
{
    match log.last() {
        Mark::StartDone(ok) => log.len() - 1,
        _ => {
            let k = lemma_ready_witness(log.drop_last(), restartable);
            assert forall|m: int| k < m < log.len() implies !(#[trigger] log[m] is StartBegan) && !(
            restartable && log[m] is GotRestart) by {
                if m < log.len() - 1 {
                    assert(log[m] == log.drop_last()[m]);
                }
            }
            k
        },
    }
}

/// Tasks are handed to their handlers in the order in which the mailbox
/// yields them, none skipped and none repeated; a task is handed over as soon
/// as it is received, before anything else happens.
pub proof fn law_tasks_in_mailbox_order<T, I>(s0: Environment, os: Seq<Outcome<T, I>>)
    requires
        s0 == initial(s0.restart, s0.stream_open),
        valid_run(s0, os),
    ensures
        handled_tasks(run_log(s0, os)) == received_tasks(run_log(s0, os)),
        forall|i: int|
            0 <= i < run_log(s0, os).len() && #[trigger] run_log(s0, os)[i] is GotTask ==> i + 1
                < run_log(s0, os).len() && run_log(s0, os)[i + 1] == Mark::TaskBegan(
                run_log(s0, os)[i]->GotTask_0,
            ),
{
    lemma_run_inv(s0, os);
}

/// No task is handled before `on_start` has returned successfully: before
/// each task there is a successful return of `on_start` after which
/// `on_start` was not called again.
pub proof fn law_start_before_tasks<T, I>(s0: Environment, os: Seq<Outcome<T, I>>, i: int)
    requires
        s0 == initial(s0.restart, s0.stream_open),
        valid_run(s0, os),
        0 <= i < run_log(s0, os).len(),
        run_log(s0, os)[i] is TaskBegan,
    ensures
        exists|k: int|
            0 <= k < i && run_log(s0, os)[k] == Mark::<T>::StartDone(true) && forall|m: int|
                k < m < i ==> !(#[trigger] run_log(s0, os)[m] is StartBegan),
{
    lemma_run_inv(s0, os);
    let log = run_log(s0, os);
    let restartable = s0.restart != RestartKind::Never;
    let k = lemma_ready_witness(log.take(i), restartable);
    assert(log.take(i)[k] == log[k]);
    assert forall|m: int| k < m < i implies !(#[trigger] log[m] is StartBegan) by {
        assert(log.take(i)[m] == log[m]);
    }
}

/// Across a restart, tasks received before the request are handled before
/// it, and a task handled after it comes after `on_start` of the new run has
/// returned successfully.
pub proof fn law_restart_ordering<T, I>(s0: Environment, os: Seq<Outcome<T, I>>, r: int, j: int)
    requires
        s0 == initial(s0.restart, s0.stream_open),
        s0.restart != RestartKind::Never,
        valid_run(s0, os),
        0 <= r < run_log(s0, os).len(),
        run_log(s0, os)[r] is GotRestart,
        0 <= j < run_log(s0, os).len(),
    ensures
        run_log(s0, os)[j] is GotTask && j < r ==> run_log(s0, os)[j + 1] is TaskBegan && j + 1
            < r,
        run_log(s0, os)[j] is TaskBegan && r < j ==> exists|k: int|
            r < k < j && run_log(s0, os)[k] == Mark::<T>::StartDone(true),
{
    lemma_run_inv(s0, os);
    let log = run_log(s0, os);
    if log[j] is TaskBegan && r < j {
        let k = lemma_ready_witness(log.take(j), true);
        assert(log.take(j)[k] == log[k]);
        if k < r {
            assert(log.take(j)[r] == log[r]);
        }
        assert(r < k);
    }
}

/// `on_stop` is called once for every call of `on_start`: at any point at
/// most one run is open, and once the loop has exited every run is closed. An
/// actor that cannot restart therefore sees `on_stop` exactly once.
pub proof fn law_stop_once_per_start<T, I>(s0: Environment, os: Seq<Outcome<T, I>>)
    requires
        s0 == initial(s0.restart, s0.stream_open),
        valid_run(s0, os),
    ensures
        count_stops(run_log(s0, os)) <= count_starts(run_log(s0, os)) <= count_stops(
            run_log(s0, os),
        ) + 1,
        run_state(s0, os).phase == Phase::Finished ==> count_stops(run_log(s0, os))
            == count_starts(run_log(s0, os)),
        run_state(s0, os).phase == Phase::Finished && s0.restart == RestartKind::Never
            ==> count_stops(run_log(s0, os)) == 1,
{
    lemma_run_inv(s0, os);
}

/// Once the loop has exited it waits for nothing more, and its last two
/// events are the final `on_stop` and the exit: no task is handled after the
/// final `on_stop` has begun.
pub proof fn law_nothing_after_exit<T, I>(s0: Environment, os: Seq<Outcome<T, I>>, o: Outcome<T, I>)
    requires
        s0 == initial(s0.restart, s0.stream_open),
        valid_run(s0, os),
        run_state(s0, os).phase == Phase::Finished,
    ensures
        !accepts(run_state(s0, os), o),
        run_log(s0, os).len() >= 2,
        run_log(s0, os)[run_log(s0, os).len() - 2] is StopBegan,
        run_log(s0, os).last() is Exited,
        not_exited(run_log(s0, os).drop_last()),
{
    lemma_run_inv(s0, os);
}

/// When the mailbox yields nothing more (every strong address is gone and
/// the mailbox is drained), the loop calls `on_stop` and then exits.
pub proof fn law_closed_mailbox_ends_loop<T, I>(s: Environment)
    requires
        s.phase == Phase::Receiving,
    ensures
        next::<T, I>(s, Outcome::Received(None)).1 is RunOnStop,
        accepts::<T, I>(next::<T, I>(s, Outcome::Received(None)).0, Outcome::Stopped),
        next::<T, I>(next::<T, I>(s, Outcome::Received(None)).0, Outcome::Stopped).1 is Finish,
        next::<T, I>(next::<T, I>(s, Outcome::Received(None)).0, Outcome::Stopped).0.phase
            == Phase::Finished,
{
}

} // verus!
