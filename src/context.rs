use vstd::prelude::*;

use futures::future::AbortHandle;

use crate::error::Result;

verus! {

#[verifier::external_type_specification]
#[verifier::external_body]
pub struct ExAbortHandle(AbortHandle);

/// Relies on futures' `AbortHandle::abort`: the task behind the handle is
/// cancelled at its next poll and never runs again.
#[verifier::external_body]
fn abort_task(handle: &AbortHandle) {
    handle.abort()
}

/// The per-run bookkeeping of an actor that its handlers can reach: the
/// children to stop when the actor stops, in the order they were added, and
/// the side tasks (intervals, delayed sends) to cancel when the run ends.
/// `C` is a handle that can stop one child.
pub struct Context<C> {
    pub children: Vec<C>,
    pub tasks: Vec<AbortHandle>,
}

impl<C> Context<C> {
    pub fn new() -> (r: Self)
        ensures
            r.children@ == Seq::<C>::empty(),
            r.tasks@ == Seq::<AbortHandle>::empty(),
    {
        Context { children: Vec::new(), tasks: Vec::new() }
    }

    /// Registers a child, to be stopped after the children added before it.
    pub fn add_child(&mut self, child: C)
        ensures
            final(self).children@ == old(self).children@.push(child),
            final(self).tasks@ == old(self).tasks@,
    {
        self.children.push(child);
    }

    /// Registers a side task, to be cancelled when the run ends.
    pub fn spawn_task(&mut self, handle: AbortHandle)
        ensures
            final(self).tasks@ == old(self).tasks@.push(handle),
            final(self).children@ == old(self).children@,
    {
        self.tasks.push(handle);
    }

    /// Cancels every side task, in the order they were registered, and
    /// forgets them.
    pub fn abort_tasks(&mut self)
        ensures
            final(self).tasks@ == Seq::<AbortHandle>::empty(),
            final(self).children@ == old(self).children@,
    {
        let mut i: usize = 0;
        while i < self.tasks.len()
            invariant
                i <= self.tasks@.len(),
                self.tasks@ == old(self).tasks@,
                self.children@ == old(self).children@,
            decreases self.tasks@.len() - i,
        {
            abort_task(&self.tasks[i]);
            i = i + 1;
        }
        self.tasks.clear();
    }

    /// Ends the run: cancels every side task and hands back the children, in
    /// the order they were added, to be stopped.
    pub fn shutdown(&mut self) -> (children: Vec<C>)
        ensures
            children@ == old(self).children@,
            final(self).children@ == Seq::<C>::empty(),
            final(self).tasks@ == Seq::<AbortHandle>::empty(),
    {
        self.abort_tasks();
        let mut children: Vec<C> = Vec::new();
        std::mem::swap(&mut children, &mut self.children);
        children
    }
}

/// Whether a side task goes on after one of its sends: an interval repeats
/// until its actor cannot be reached, a delayed send runs once.
pub fn tick_again(repeat: bool, sent: &Result<()>) -> (again: bool)
    ensures
        again == (repeat && sent is Ok),
{
    repeat && sent.is_ok()
}

} // verus!
