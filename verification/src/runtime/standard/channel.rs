//! Channels that can be made from options.
use crate::runtime::kanal_backend::channel::made_together;
use crate::runtime::kanal_backend::channel::{
    KanalActorChannel, KanalActorChannelCapacity, KanalActorChannelOptions, KanalActorMailbox,
};
use crate::runtime::tokio_backend::channel::made_together as unbounded_made_together;
use crate::runtime::tokio_backend::channel::{are_ends_of_one_lane, bounded_made_together};
use crate::runtime::tokio_backend::channel::{
    TokioMpscChannelCapacity, TokioMpscChannelOptions, TokioMpscMultiLineActorChannel,
    TokioMpscMultilaneActorMailbox, TokioMpscReceiver, TokioMpscSender,
};
use vstd::prelude::*;

verus! {

/// An actor channel that can be made from options, together with its mailbox.
pub trait StandardChannel: Sized {
    /// Options that can be passed into the creator.
    type CreationOptions;

    /// The mailbox type of this channel.
    type Mailbox;

    /// Whether a channel can be made with the options.
    spec fn can_create(options: Self::CreationOptions) -> bool;

    /// Whether the two ends are of a channel as the options ask for.
    spec fn is_created(options: Self::CreationOptions, channel: Self, mailbox: Self::Mailbox) -> bool;

    /// Create the channel with the given options.
    fn create(options: Self::CreationOptions) -> (ends: (Self, Self::Mailbox))
        requires
            Self::can_create(options),
        ensures
            Self::is_created(options, ends.0, ends.1),
    ;
}

impl<const SEND_LANES: usize, T, R> StandardChannel for TokioMpscMultiLineActorChannel<
    SEND_LANES,
    T,
    R,
> {
    type CreationOptions = TokioMpscChannelOptions<R>;

    type Mailbox = TokioMpscMultilaneActorMailbox<SEND_LANES, T>;

    open spec fn can_create(options: TokioMpscChannelOptions<R>) -> bool {
        options.capacity.is_valid()
    }

    open spec fn is_created(
        options: TokioMpscChannelOptions<R>,
        channel: Self,
        mailbox: TokioMpscMultilaneActorMailbox<SEND_LANES, T>,
    ) -> bool {
        &&& channel.spec_router() == options.router
        &&& channel.lanes().len() == SEND_LANES
        &&& mailbox.lanes().len() == SEND_LANES
        &&& forall|i: int|
            0 <= i < SEND_LANES ==> (#[trigger] channel.lanes()[i]).spec_capacity()
                == options.capacity && are_ends_of_one_lane(channel.lanes()[i], mailbox.lanes()[i])
    }

    fn create(options: TokioMpscChannelOptions<R>) -> (ends: (
        Self,
        TokioMpscMultilaneActorMailbox<SEND_LANES, T>,
    ))
        ensures
            ends.0.spec_router() == options.router,
            ends.0.lanes().len() == SEND_LANES,
            ends.1.lanes().len() == SEND_LANES,
            forall|i: int|
                0 <= i < SEND_LANES ==> (#[trigger] ends.0.lanes()[i]).spec_capacity()
                    == options.capacity && are_ends_of_one_lane(
                    ends.0.lanes()[i],
                    ends.1.lanes()[i],
                ),
    {
        TokioMpscMultiLineActorChannel::create(options)
    }
}

impl<const SEND_LANES: usize, T, R> StandardChannel for KanalActorChannel<SEND_LANES, T, R> {
    type CreationOptions = KanalActorChannelOptions<SEND_LANES, R>;

    type Mailbox = KanalActorMailbox<SEND_LANES, T>;

    open spec fn can_create(options: KanalActorChannelOptions<SEND_LANES, R>) -> bool {
        &&& options.capacity.len() == SEND_LANES
        &&& forall|i: int|
            0 <= i < options.capacity.len() ==> (#[trigger] options.capacity@[i]).is_valid::<T>()
    }

    open spec fn is_created(
        options: KanalActorChannelOptions<SEND_LANES, R>,
        channel: Self,
        mailbox: KanalActorMailbox<SEND_LANES, T>,
    ) -> bool {
        &&& channel.spec_router() == options.router
        &&& channel.lanes().len() == SEND_LANES
        &&& mailbox.lanes().len() == SEND_LANES
        &&& channel.spec_limits() == options.capacity@.map_values(
            |capacity: KanalActorChannelCapacity| capacity.limit(),
        )
        &&& forall|i: int|
            0 <= i < SEND_LANES ==> made_together(
                #[trigger] options.capacity@[i],
                channel.lanes()[i],
                mailbox.lanes()[i],
            )
    }

    fn create(options: KanalActorChannelOptions<SEND_LANES, R>) -> (ends: (
        Self,
        KanalActorMailbox<SEND_LANES, T>,
    ))
        ensures
            ends.0.spec_router() == options.router,
            ends.0.lanes().len() == SEND_LANES,
            ends.1.lanes().len() == SEND_LANES,
            ends.0.spec_limits() == options.capacity@.map_values(
                |capacity: KanalActorChannelCapacity| capacity.limit(),
            ),
            forall|i: int|
                0 <= i < SEND_LANES ==> made_together(
                    #[trigger] options.capacity@[i],
                    ends.0.lanes()[i],
                    ends.1.lanes()[i],
                ),
    {
        KanalActorChannel::create(options)
    }
}

/// A channel made from options has a lane for every number, each with the room that the
/// options ask for, its own receiving end under the same number in the mailbox, and the
/// router that the options name. It can be made wherever every lane has room for a
/// message and none for more than can be.
pub proof fn tokio_channels_are_made_as_asked_for<const SEND_LANES: usize, T, R>(
    options: TokioMpscChannelOptions<R>,
    channel: TokioMpscMultiLineActorChannel<SEND_LANES, T, R>,
    mailbox: TokioMpscMultilaneActorMailbox<SEND_LANES, T>,
    lane: usize,
    capacity: TokioMpscChannelCapacity,
)
    requires
        call_ensures(
            <TokioMpscMultiLineActorChannel<SEND_LANES, T, R> as StandardChannel>::create,
            (options,),
            (channel, mailbox),
        ),
        lane < SEND_LANES,
        call_ensures(TokioMpscSender::<T>::capacity, (&channel.lanes()[lane as int],), capacity),
    ensures
        channel.spec_router() == options.router,
        channel.lanes().len() == SEND_LANES && mailbox.lanes().len() == SEND_LANES,
        capacity == options.capacity,
        channel.lanes()[lane as int] matches TokioMpscSender::Bounded(sender) ==> (
        mailbox.lanes()[lane as int] matches TokioMpscReceiver::Bounded(receiver)
            && bounded_made_together(sender.spec_capacity(), sender.spec_sender(), receiver)),
        channel.lanes()[lane as int] matches TokioMpscSender::Unbounded(sender) ==> (
        mailbox.lanes()[lane as int] matches TokioMpscReceiver::Unbounded(receiver)
            && unbounded_made_together(sender, receiver)),
        (options.capacity matches TokioMpscChannelCapacity::Bounded(room) ==> 0 < room
            <= usize::MAX / 8)
            ==> <TokioMpscMultiLineActorChannel<SEND_LANES, T, R> as StandardChannel>::can_create(
            options,
        ),
{
}

/// A channel made from options has a lane for every capacity that the options list, with
/// that room, its own receiving end under the same number in the mailbox, and the router
/// that the options name.
pub proof fn kanal_channels_are_made_as_asked_for<const SEND_LANES: usize, T, R>(
    options: KanalActorChannelOptions<SEND_LANES, R>,
    channel: KanalActorChannel<SEND_LANES, T, R>,
    mailbox: KanalActorMailbox<SEND_LANES, T>,
    limits: &Vec<usize>,
    lane: usize,
)
    requires
        call_ensures(
            <KanalActorChannel<SEND_LANES, T, R> as StandardChannel>::create,
            (options,),
            (channel, mailbox),
        ),
        call_ensures(KanalActorChannel::<SEND_LANES, T, R>::limits, (&channel,), limits),
        lane < SEND_LANES,
        options.capacity.len() == SEND_LANES,
    ensures
        channel.spec_router() == options.router,
        channel.lanes().len() == SEND_LANES && mailbox.lanes().len() == SEND_LANES,
        options.capacity@[lane as int] matches KanalActorChannelCapacity::Bounded(room)
            ==> limits@[lane as int] == room,
        options.capacity@[lane as int] is Unbounded ==> limits@[lane as int] == usize::MAX,
        made_together(
            options.capacity@[lane as int],
            channel.lanes()[lane as int],
            mailbox.lanes()[lane as int],
        ),
{
    let capacity = options.capacity@[lane as int];
    assert(options.capacity@.map_values(|capacity: KanalActorChannelCapacity| capacity.limit())[lane
        as int] == capacity.limit());
}

} // verus!
