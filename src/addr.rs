use vstd::prelude::*;

use std::sync::Arc;

use crate::channel::MailboxTx;
use crate::error::{ActorError, Result};
use crate::payload::Payload;

verus! {

/// A strong handle to an actor: it keeps the actor's mailbox open and
/// enqueues payloads into it. `T` is the actor's unit of work.
#[verifier::reject_recursive_types(T)]
pub struct Addr<T> {
    pub payload_tx: Arc<MailboxTx<Payload<T>>>,
}

/// A handle that can only hand work to an actor, not stop or restart it.
#[verifier::reject_recursive_types(T)]
pub struct Sender<T> {
    pub tx: Arc<MailboxTx<Payload<T>>>,
}

/// What a send through a live handle can end in: success, or `Closed` when
/// the actor's event loop has dropped its mailbox.
pub open spec fn delivery_result(r: Result<()>) -> bool {
    r is Err ==> r->Err_0 == ActorError::Closed
}

/// What a send through a handle that may have to be upgraded first can end
/// in: `AlreadyStopped` exactly when no strong handle was left.
pub open spec fn upgraded_delivery_result<T>(addr: Option<Addr<T>>, r: Result<()>) -> bool {
    match addr {
        None => r == Err::<(), ActorError>(ActorError::AlreadyStopped),
        Some(_) => delivery_result(r),
    }
}

impl<T> Addr<T> {
    pub fn new(payload_tx: Arc<MailboxTx<Payload<T>>>) -> (r: Self)
        ensures
            r.payload_tx == payload_tx,
    {
        Addr { payload_tx }
    }

    /// Enqueues `task` as a unit of work.
    pub fn send(&self, task: T) -> (r: Result<()>)
        ensures
            delivery_result(r),
    {
        self.payload_tx.send(Payload::Task(task))
    }

    /// Enqueues a stop request behind everything already enqueued.
    pub fn stop(&self) -> (r: Result<()>)
        ensures
            delivery_result(r),
    {
        self.payload_tx.send(Payload::Stop)
    }

    /// Enqueues a restart request behind everything already enqueued.
    pub fn restart(&self) -> (r: Result<()>)
        ensures
            delivery_result(r),
    {
        self.payload_tx.send(Payload::Restart)
    }

    /// A handle to the same mailbox that can only hand over work.
    pub fn sender(&self) -> (r: Sender<T>)
        ensures
            r.tx == self.payload_tx,
    {
        Sender { tx: self.payload_tx.clone() }
    }
}

impl<T> Clone for Addr<T> {
    fn clone(&self) -> (r: Self)
        ensures
            r == *self,
    {
        Addr { payload_tx: self.payload_tx.clone() }
    }
}

impl<T> Sender<T> {
    /// Enqueues `task` as a unit of work.
    pub fn send(&self, task: T) -> (r: Result<()>)
        ensures
            delivery_result(r),
    {
        self.tx.send(Payload::Task(task))
    }
}

impl<T> Clone for Sender<T> {
    fn clone(&self) -> (r: Self)
        ensures
            r == *self,
    {
        Sender { tx: self.tx.clone() }
    }
}

/// Sends `task` through the strong handle that upgrading a weak one gave, if
/// any.
pub fn try_send<T>(addr: Option<Addr<T>>, task: T) -> (r: Result<()>)
    ensures
        upgraded_delivery_result(addr, r),
{
    match addr {
        Some(a) => a.send(task),
        None => Err(ActorError::AlreadyStopped),
    }
}

/// Asks the actor behind the upgraded handle, if any, to stop.
pub fn try_stop<T>(addr: Option<Addr<T>>) -> (r: Result<()>)
    ensures
        upgraded_delivery_result(addr, r),
{
    match addr {
        Some(a) => a.stop(),
        None => Err(ActorError::AlreadyStopped),
    }
}

/// Asks the actor behind the upgraded handle, if any, to restart.
pub fn try_restart<T>(addr: Option<Addr<T>>) -> (r: Result<()>)
    ensures
        upgraded_delivery_result(addr, r),
{
    match addr {
        Some(a) => a.restart(),
        None => Err(ActorError::AlreadyStopped),
    }
}

/// What a request/response call returns, given how its send ended and what
/// came back on the response channel: `None` when the actor dropped the
/// channel before answering, `Some(None)` when it answered, inner `Some`
/// holding the response; `waited` is `None` when the call's deadline elapsed
/// first.
pub open spec fn call_result_spec<R>(sent: Result<()>, waited: Option<Option<R>>) -> Result<R> {
    match sent {
        Err(e) => Err(e),
        Ok(_) => match waited {
            None => Err(ActorError::Timeout),
            Some(None) => Err(ActorError::Canceled),
            Some(Some(r)) => Ok(r),
        },
    }
}

/// Settles a request/response call: a failed send gives its error, an
/// elapsed deadline `Timeout`, a dropped response channel `Canceled`, and an
/// answer the response.
pub fn call_result<R>(sent: Result<()>, waited: Option<Option<R>>) -> (r: Result<R>)
    ensures
        r == call_result_spec(sent, waited),
{
    match sent {
        Err(e) => Err(e),
        Ok(_) => match waited {
            None => Err(ActorError::Timeout),
            Some(None) => Err(ActorError::Canceled),
            Some(Some(r)) => Ok(r),
        },
    }
}

} // verus!
