use vstd::prelude::*;

verus! {

/// What travels through an actor's mailbox: a unit of work, or one of the
/// two lifecycle sentinels.
pub enum Payload<T> {
    /// Work that borrows the actor and runs one handler.
    Task(T),
    /// Ends the actor once everything enqueued before it has been handled.
    Stop,
    /// Re-initialises a restartable actor in place; the mailbox is kept.
    Restart,
}

} // verus!
