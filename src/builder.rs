use vstd::prelude::*;

use crate::channel::{ChannelWrapper, MailboxRx, MailboxTx, MAX_BUFFER};
use crate::environment::{initial, Environment};
use crate::payload::Payload;
use crate::restart_strategy::{RestartKind, RestartableActor};

verus! {

/// The first stage of configuring an actor: only the actor value is known.
pub struct BaseActorBuilder<A> {
    pub actor: A,
}

/// An actor with its mailbox chosen, and the restart policy it runs under
/// (in place unless configured otherwise).
#[verifier::reject_recursive_types(T)]
pub struct ActorBuilderWithChannel<A, T> {
    pub actor: A,
    pub channel: ChannelWrapper<Payload<T>>,
    pub restart: RestartKind,
}

/// An actor whose loop also serves the stream `S`; it is never restarted.
#[verifier::reject_recursive_types(T)]
pub struct StreamActorBuilder<A, T, S> {
    pub with_channel: ActorBuilderWithChannel<A, T>,
    pub stream: S,
}

/// Starts configuring `actor`.
pub fn build<A>(actor: A) -> (r: BaseActorBuilder<A>)
    ensures
        r.actor == actor,
{
    BaseActorBuilder { actor }
}

impl<A> BaseActorBuilder<A> {
    pub fn new(actor: A) -> (r: Self)
        ensures
            r.actor == actor,
    {
        BaseActorBuilder { actor }
    }

    pub fn with_channel<T>(self, channel: ChannelWrapper<Payload<T>>) -> (r: ActorBuilderWithChannel<A, T>)
        ensures
            r.actor == self.actor,
            r.channel == channel,
            r.restart == RestartKind::InPlace,
    {
        ActorBuilderWithChannel { actor: self.actor, channel, restart: RestartKind::InPlace }
    }

    /// A mailbox that holds `capacity` payloads beyond one slot per sender.
    pub fn bounded<T>(self, capacity: usize) -> (r: ActorBuilderWithChannel<A, T>)
        requires
            capacity < MAX_BUFFER,
        ensures
            r.actor == self.actor,
            *r.channel.tx_fn is Bounded,
            r.channel.rx_fn is Bounded,
            r.restart == RestartKind::InPlace,
    {
        self.with_channel(ChannelWrapper::bounded(capacity))
    }

    /// A mailbox without a bound.
    pub fn unbounded<T>(self) -> (r: ActorBuilderWithChannel<A, T>)
        ensures
            r.actor == self.actor,
            *r.channel.tx_fn is Unbounded,
            r.channel.rx_fn is Unbounded,
            r.restart == RestartKind::InPlace,
    {
        self.with_channel(ChannelWrapper::unbounded())
    }

    /// An unbounded mailbox and the stream `stream`.
    pub fn on_stream<T, S>(self, stream: S) -> (r: StreamActorBuilder<A, T, S>)
        ensures
            r.with_channel.actor == self.actor,
            *r.with_channel.channel.tx_fn is Unbounded,
            r.with_channel.restart == RestartKind::Never,
            r.stream == stream,
    {
        self.unbounded().with_stream(stream)
    }

    /// A mailbox of `capacity` and the stream `stream`.
    pub fn bounded_on_stream<T, S>(self, capacity: usize, stream: S) -> (r: StreamActorBuilder<A, T, S>)
        requires
            capacity < MAX_BUFFER,
        ensures
            r.with_channel.actor == self.actor,
            *r.with_channel.channel.tx_fn is Bounded,
            r.with_channel.restart == RestartKind::Never,
            r.stream == stream,
    {
        self.bounded(capacity).with_stream(stream)
    }
}

impl<A, T> ActorBuilderWithChannel<A, T> {
    /// Restart requests are ignored.
    pub fn non_restartable(self) -> (r: Self)
        ensures
            r.actor == self.actor,
            r.channel == self.channel,
            r.restart == RestartKind::Never,
    {
        ActorBuilderWithChannel { actor: self.actor, channel: self.channel, restart: RestartKind::Never }
    }

    /// A restart replaces the actor by its default value.
    pub fn recreate_from_default(self) -> (r: Self)
        where
            A: RestartableActor,
        ensures
            r.actor == self.actor,
            r.channel == self.channel,
            r.restart == RestartKind::FromDefault,
    {
        ActorBuilderWithChannel {
            actor: self.actor,
            channel: self.channel,
            restart: RestartKind::FromDefault,
        }
    }

    /// Attaches `stream`; the actor becomes non-restartable.
    pub fn with_stream<S>(self, stream: S) -> (r: StreamActorBuilder<A, T, S>)
        ensures
            r.with_channel.actor == self.actor,
            r.with_channel.channel == self.channel,
            r.with_channel.restart == RestartKind::Never,
            r.stream == stream,
    {
        StreamActorBuilder { with_channel: self.non_restartable(), stream }
    }

    /// What launching needs: the actor, its fresh loop, the mailbox's
    /// sending half for the address, and its receiving half for the loop.
    pub fn into_parts(self) -> (r: (A, Environment, std::sync::Arc<MailboxTx<Payload<T>>>, MailboxRx<Payload<T>>))
        ensures
            r.0 == self.actor,
            r.1 == initial(self.restart, false),
            r.2 == self.channel.tx_fn,
            r.3 == self.channel.rx_fn,
    {
        let (tx, rx) = self.channel.break_up();
        (self.actor, Environment::new(self.restart), tx, rx)
    }
}

impl<A, T, S> StreamActorBuilder<A, T, S> {
    /// What launching needs: the actor, its fresh loop over mailbox and
    /// stream, both halves of the mailbox, and the stream.
    pub fn into_parts(self) -> (r: (A, Environment, std::sync::Arc<MailboxTx<Payload<T>>>, MailboxRx<Payload<T>>, S))
        ensures
            r.0 == self.with_channel.actor,
            r.1 == initial(RestartKind::Never, true),
            r.2 == self.with_channel.channel.tx_fn,
            r.3 == self.with_channel.channel.rx_fn,
            r.4 == self.stream,
    {
        let (tx, rx) = self.with_channel.channel.break_up();
        (self.with_channel.actor, Environment::on_stream(), tx, rx, self.stream)
    }
}

} // verus!
