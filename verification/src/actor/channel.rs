//! The channel through which messages reach an actor.
use crate::runtime::routing::LanePoll;
use vstd::prelude::*;

verus! {

/// Why a message could not be sent to an actor.
#[derive(Clone, Copy, Debug, PartialEq, Eq, Structural)]
pub enum ActorChannelSendError {
    /// The message may not cross threads, but the channel transports it there.
    NotSendable,
    /// The actor is dead: the receiving end of its channel is gone.
    ActorDead,
    /// The channel has no lane for the message.
    Unroutable,
    /// The mailbox is full and waiting for room was not asked for.
    MailboxFull,
}

/// The sending side of an actor's mailbox for messages `M`.
pub trait ActorChannel<'c, M> {
    /// A message prepared to be sent, and not yet sent.
    type Sendable;

    /// Prepare sending a message through this channel.
    fn prepare_send(&'c self, message: M) -> Self::Sendable;
}

/// Whether `sendable` is what the channel's [`ActorChannel::prepare_send`] made of
/// the message.
pub open spec fn prepared_by<'c, M, C: ActorChannel<'c, M>>(
    channel: C,
    message: M,
    sendable: C::Sendable,
) -> bool {
    call_ensures(C::prepare_send, (&channel, message), sendable)
}

/// The receiving side of an actor's channel.
pub trait ActorMailbox {
    /// What the mailbox receives.
    type Message;

    /// Look for the next message without waiting: a message, `None` if there will
    /// be none any more, or nothing yet.
    fn try_receive(&mut self) -> LanePoll<Self::Message>;
}

/// A message prepared to be sent, that can be sent without waiting.
pub trait ActorChannelSendable: Sized {
    /// Send the message without waiting: it fails immediately if there is no room.
    fn try_send(self) -> Result<(), ActorChannelSendError>;
}

} // verus!
