use vstd::prelude::*;

verus! {

/// The failures that the runtime reports to its callers.
#[derive(Debug, Clone, Copy, PartialEq, Eq, Structural)]
pub enum ActorError {
    /// The destination mailbox has no receiver any more.
    Closed,
    /// A bounded mailbox had no free slot for a non-blocking send.
    Full,
    /// The response channel was dropped before a response arrived.
    Canceled,
    /// A stop or restart was asked of an actor that no strong address reaches.
    AlreadyStopped,
    /// A configured call deadline elapsed.
    Timeout,
    /// The actor's `on_start` hook failed.
    StartFailed,
    /// The registry held no service of the type asked for.
    ServiceNotFound,
}

pub type Result<T> = core::result::Result<T, ActorError>;

} // verus!
