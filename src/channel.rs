use vstd::prelude::*;

use futures::channel::mpsc;
use futures::channel::mpsc::Sender as BoundedSender;
use std::sync::Arc;

use crate::error::{ActorError, Result};

verus! {

#[verifier::external_type_specification]
#[verifier::external_body]
#[verifier::reject_recursive_types(T)]
pub struct ExBoundedSender<T>(BoundedSender<T>);

#[verifier::external_type_specification]
#[verifier::external_body]
#[verifier::reject_recursive_types(T)]
pub struct ExBoundedReceiver<T>(mpsc::Receiver<T>);

#[verifier::external_type_specification]
#[verifier::external_body]
#[verifier::reject_recursive_types(T)]
pub struct ExUnboundedSender<T>(mpsc::UnboundedSender<T>);

#[verifier::external_type_specification]
#[verifier::external_body]
#[verifier::reject_recursive_types(T)]
pub struct ExUnboundedReceiver<T>(mpsc::UnboundedReceiver<T>);

/// The largest capacity a bounded mailbox can be opened with, plus one.
pub const MAX_BUFFER: usize = usize::MAX >> 2;

/// Relies on futures' `mpsc::channel`: it opens a bounded channel and panics
/// unless `buffer` is below its own limit, `usize::MAX >> 2`.
#[verifier::external_body]
fn open_bounded<T>(buffer: usize) -> (r: (BoundedSender<T>, mpsc::Receiver<T>))
    requires
        buffer < MAX_BUFFER,
{
    mpsc::channel(buffer)
}

/// Relies on futures' `mpsc::unbounded`: it opens an unbounded channel.
#[verifier::external_body]
fn open_unbounded<T>() -> (r: (mpsc::UnboundedSender<T>, mpsc::UnboundedReceiver<T>)) {
    mpsc::unbounded()
}

/// Relies on futures' `mpsc::Sender::try_send`, on a fresh clone of `tx`:
/// a fresh clone owns a guaranteed slot, so the only failure left is a
/// receiver that is gone.
#[verifier::external_body]
fn send_bounded<T>(tx: &BoundedSender<T>, msg: T) -> (r: Result<()>)
    ensures
        r is Err ==> r->Err_0 == ActorError::Closed,
{
    let mut tx = tx.clone();
    match tx.try_send(msg) {
        Ok(()) => Ok(()),
        Err(_) => Err(ActorError::Closed),
    }
}

/// Relies on futures' `mpsc::UnboundedSender::unbounded_send`: it fails only
/// when the receiver is gone.
#[verifier::external_body]
fn send_unbounded<T>(tx: &mpsc::UnboundedSender<T>, msg: T) -> (r: Result<()>)
    ensures
        r is Err ==> r->Err_0 == ActorError::Closed,
{
    match tx.unbounded_send(msg) {
        Ok(()) => Ok(()),
        Err(_) => Err(ActorError::Closed),
    }
}

/// The sending half of a mailbox.
#[verifier::reject_recursive_types(T)]
pub enum MailboxTx<T> {
    Bounded(BoundedSender<T>),
    Unbounded(mpsc::UnboundedSender<T>),
}

/// The receiving half of a mailbox, owned by the actor's event loop.
#[verifier::reject_recursive_types(T)]
pub enum MailboxRx<T> {
    Bounded(mpsc::Receiver<T>),
    Unbounded(mpsc::UnboundedReceiver<T>),
}

impl<T> MailboxTx<T> {
    /// Enqueues `msg`; fails with `Closed` once the receiving half is gone.
    pub fn send(&self, msg: T) -> (r: Result<()>)
        ensures
            r is Err ==> r->Err_0 == ActorError::Closed,
    {
        match self {
            MailboxTx::Bounded(tx) => send_bounded(tx, msg),
            MailboxTx::Unbounded(tx) => send_unbounded(tx, msg),
        }
    }
}

/// A mailbox as it is opened: a shared sending half and the receiving half.
#[verifier::reject_recursive_types(T)]
pub struct ChannelWrapper<T> {
    pub tx_fn: Arc<MailboxTx<T>>,
    pub rx_fn: MailboxRx<T>,
}

impl<T> ChannelWrapper<T> {
    pub fn wrap(tx_fn: Arc<MailboxTx<T>>, rx_fn: MailboxRx<T>) -> (r: Self)
        ensures
            r.tx_fn == tx_fn,
            r.rx_fn == rx_fn,
    {
        ChannelWrapper { tx_fn, rx_fn }
    }

    /// A mailbox that holds at most `buffer` payloads beyond one slot per
    /// sender.
    pub fn bounded(buffer: usize) -> (r: Self)
        requires
            buffer < MAX_BUFFER,
        ensures
            *r.tx_fn is Bounded,
            r.rx_fn is Bounded,
    {
        let (tx, rx) = open_bounded(buffer);
        Self::wrap(Arc::new(MailboxTx::Bounded(tx)), MailboxRx::Bounded(rx))
    }

    /// A mailbox without a bound.
    pub fn unbounded() -> (r: Self)
        ensures
            *r.tx_fn is Unbounded,
            r.rx_fn is Unbounded,
    {
        let (tx, rx) = open_unbounded();
        Self::wrap(Arc::new(MailboxTx::Unbounded(tx)), MailboxRx::Unbounded(rx))
    }

    /// Both halves, for the address and for the event loop.
    pub fn break_up(self) -> (r: (Arc<MailboxTx<T>>, MailboxRx<T>))
        ensures
            r.0 == self.tx_fn,
            r.1 == self.rx_fn,
    {
        (self.tx_fn, self.rx_fn)
    }
}

} // verus!
