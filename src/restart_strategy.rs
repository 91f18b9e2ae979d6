use vstd::prelude::*;

verus! {

/// How an actor is carried from one run to the next when a restart arrives.
#[derive(Debug, Clone, Copy, PartialEq, Eq, Structural)]
pub enum RestartKind {
    /// Restarts are ignored: the actor keeps running as it is.
    Never,
    /// `on_stop` then `on_start` on the same actor value.
    InPlace,
    /// `on_stop`, then the value is replaced by its default, then `on_start`.
    FromDefault,
}

/// The hooks that a restart runs, in order.
#[derive(Debug, Clone, Copy, PartialEq, Eq, Structural)]
pub enum RefreshStep {
    RunOnStop,
    ReplaceWithDefault,
    RunOnStart,
}

/// The hooks that a restart under `kind` runs, in order.
pub open spec fn refresh_plan_spec(kind: RestartKind) -> Seq<RefreshStep> {
    match kind {
        RestartKind::Never => seq![],
        RestartKind::InPlace => seq![RefreshStep::RunOnStop, RefreshStep::RunOnStart],
        RestartKind::FromDefault => seq![
            RefreshStep::RunOnStop,
            RefreshStep::ReplaceWithDefault,
            RefreshStep::RunOnStart,
        ],
    }
}

/// A policy that decides what a restart does to the actor value.
pub trait RestartStrategy {
    spec fn spec_kind() -> RestartKind;

    fn kind() -> (k: RestartKind)
        ensures
            k == Self::spec_kind(),
    ;

    /// The hooks that a restart runs under this policy, in order.
    fn refresh_plan() -> (plan: Vec<RefreshStep>)
        ensures
            plan@ == refresh_plan_spec(Self::spec_kind()),
    {
        let kind = Self::kind();
        let mut plan: Vec<RefreshStep> = Vec::new();
        match kind {
            RestartKind::Never => {},
            RestartKind::InPlace => {
                plan.push(RefreshStep::RunOnStop);
                plan.push(RefreshStep::RunOnStart);
            },
            RestartKind::FromDefault => {
                plan.push(RefreshStep::RunOnStop);
                plan.push(RefreshStep::ReplaceWithDefault);
                plan.push(RefreshStep::RunOnStart);
            },
        }
        assert(plan@ =~= refresh_plan_spec(kind));
        plan
    }
}

/// Restarts are not recognised: the actor value stays as it is.
#[derive(Debug, Clone, Copy)]
pub struct NonRestartable;

/// A restart runs `on_stop` and then `on_start` on the same value.
#[derive(Debug, Clone, Copy)]
pub struct RestartOnly;

/// A restart runs `on_stop`, replaces the value by its default and runs
/// `on_start` on the fresh value.
#[derive(Debug, Clone, Copy)]
pub struct RecreateFromDefault;

impl RestartStrategy for NonRestartable {
    open spec fn spec_kind() -> RestartKind {
        RestartKind::Never
    }

    fn kind() -> (k: RestartKind) {
        RestartKind::Never
    }
}

impl RestartStrategy for RestartOnly {
    open spec fn spec_kind() -> RestartKind {
        RestartKind::InPlace
    }

    fn kind() -> (k: RestartKind) {
        RestartKind::InPlace
    }
}

impl RestartStrategy for RecreateFromDefault {
    open spec fn spec_kind() -> RestartKind {
        RestartKind::FromDefault
    }

    fn kind() -> (k: RestartKind) {
        RestartKind::FromDefault
    }
}

/// Marks an actor type whose restart can be asked for through its address
/// or its context.
pub trait RestartableActor {}

/// Marks an actor type that may be configured with a restarting policy.
pub trait Restartable {}

} // verus!
