//! `kanal`-backed multi-priority actor channel.
use crate::actor::channel::{ActorChannel, ActorChannelSendError, ActorMailbox};
use crate::actor::dispatch::DispatchedActorMessage;
use crate::message::envelope::EnvelopeType;
use crate::runtime::routing::{
    ends_at, has_lane, met_at, select_biased, stops_at, ActorMessagePriorityRouter, LanePoll,
    NoPriorityRouter, SelectStep,
};
use vstd::prelude::*;

verus! {

/// [`kanal::Sender`].
#[verifier::external_type_specification]
#[verifier::external_body]
#[verifier::reject_recursive_types(T)]
pub struct ExKanalSender<T>(kanal::Sender<T>);

/// [`kanal::Receiver`].
#[verifier::external_type_specification]
#[verifier::external_body]
#[verifier::reject_recursive_types(T)]
pub struct ExKanalReceiver<T>(kanal::Receiver<T>);

/// [`kanal::SendError`].
#[verifier::external_type_specification]
#[verifier::external_body]
pub struct ExKanalSendError(kanal::SendError);

/// Whether [`kanal::bounded`] can make room for the given number of messages of
/// type `T`, which it does up front.
pub open spec fn has_room<T>(capacity: usize) -> bool {
    capacity * vstd::layout::size_of::<T>() <= isize::MAX
}

/// Calls [`kanal::bounded`], which makes the two ends of a new bounded channel,
/// and reads back with [`kanal::Sender::capacity`] the capacity it was made with.
/// `bounded` allocates its queue up front, so the queue must not be larger than an
/// allocation can be.
#[verifier::external_body]
fn kanal_bounded<T>(capacity: usize) -> (made: (kanal::Sender<T>, kanal::Receiver<T>, usize))
    requires
        has_room::<T>(capacity),
    ensures
        made.2 == capacity,
{
    let (sender, receiver) = kanal::bounded(capacity);
    let limit = sender.capacity();
    (sender, receiver, limit)
}

/// Calls [`kanal::unbounded`], which makes the two ends of a new unbounded
/// channel, and reads back its capacity with [`kanal::Sender::capacity`], which
/// gives `usize::MAX` for such a channel. It starts with room for 32 messages.
#[verifier::external_body]
fn kanal_unbounded<T>() -> (made: (kanal::Sender<T>, kanal::Receiver<T>, usize))
    requires
        has_room::<T>(32),
    ensures
        made.2 == usize::MAX,
{
    let (sender, receiver) = kanal::unbounded();
    let limit = sender.capacity();
    (sender, receiver, limit)
}

/// Calls [`kanal::Sender::capacity`], the capacity that the channel of a sender
/// was made with. Which one that was, whoever made the channel knows.
#[verifier::external_body]
fn kanal_capacity<T>(sender: &kanal::Sender<T>) -> (capacity: usize) {
    sender.capacity()
}

/// Whether `capacity` is what [`kanal::Sender::capacity`] returned, called on
/// `sender`.
pub closed spec fn capacity_returned<T>(sender: kanal::Sender<T>, capacity: usize) -> bool {
    call_ensures(kanal_capacity::<T>, (&sender,), capacity)
}

/// Whether the two ends are what one call made: of [`kanal::bounded`] with the
/// given capacity, or of [`kanal::unbounded`].
pub closed spec fn made_together<T>(
    capacity: KanalActorChannelCapacity,
    sender: kanal::Sender<T>,
    receiver: kanal::Receiver<T>,
) -> bool {
    match capacity {
        KanalActorChannelCapacity::Bounded(capacity) => call_ensures(
            kanal_bounded::<T>,
            (capacity,),
            (sender, receiver, capacity),
        ),
        KanalActorChannelCapacity::Unbounded => call_ensures(
            kanal_unbounded::<T>,
            (),
            (sender, receiver, usize::MAX),
        ),
    }
}

/// Calls [`kanal::Receiver::try_recv`]. What it finds is up to the sending ends.
#[verifier::external_body]
fn kanal_try_recv<T>(receiver: &mut kanal::Receiver<T>) -> (found: LanePoll<T>) {
    match receiver.try_recv() {
        Ok(Some(message)) => LanePoll::Ready(Some(message)),
        Ok(None) => LanePoll::Pending,
        Err(kanal::ReceiveError::Closed) => LanePoll::Ready(None),
        Err(kanal::ReceiveError::SendClosed) => LanePoll::Ready(None),
    }
}

/// Whether `found` is what [`kanal::Receiver::try_recv`] found, called on
/// `receiver`.
pub closed spec fn try_recv_found<T>(
    receiver: &mut kanal::Receiver<T>,
    found: LanePoll<T>,
) -> bool {
    call_ensures(kanal_try_recv::<T>, (receiver,), found)
}

/// Look for a message in a lane, without waiting.
pub fn look_into<T>(lane: &mut kanal::Receiver<T>) -> (found: LanePoll<T>)
    ensures
        exists|receiver: &mut kanal::Receiver<T>|
            #[trigger] try_recv_found(receiver, found) && *receiver == *old(lane)
                && *final(receiver) == *final(lane),
{
    let found = kanal_try_recv(lane);
    proof {
        let polled = choose|polled: &mut kanal::Receiver<T>| #[trigger]
            call_ensures(kanal_try_recv::<T>, (polled,), found) && *polled == *old(lane)
                && *final(polled) == *lane;
        assert(try_recv_found(polled, found));
    }
    found
}

/// How large an actor channel is.
#[derive(Clone, Copy, Debug, PartialEq, Eq, Hash, Structural)]
pub enum KanalActorChannelCapacity {
    /// The channel has unbounded capacity.
    Unbounded,
    /// The channel has the bounded specified capacity.
    Bounded(usize),
}

impl KanalActorChannelCapacity {
    /// Whether a channel for messages of type `T` can be made with the capacity.
    pub open spec fn is_valid<T>(self) -> bool {
        match self {
            KanalActorChannelCapacity::Unbounded => has_room::<T>(32),
            KanalActorChannelCapacity::Bounded(capacity) => has_room::<T>(capacity),
        }
    }

    /// The number of messages that a lane of the capacity has room for; an
    /// unbounded lane has room for `usize::MAX`.
    pub open spec fn limit(self) -> usize {
        match self {
            KanalActorChannelCapacity::Unbounded => usize::MAX,
            KanalActorChannelCapacity::Bounded(capacity) => capacity,
        }
    }
}

impl Default for KanalActorChannelCapacity {
    fn default() -> (capacity: Self)
        ensures
            capacity == KanalActorChannelCapacity::Bounded(64),
    {
        KanalActorChannelCapacity::Bounded(64)
    }
}

/// The options used for building a kanal actor channel: the router, and the
/// capacity of each lane.
#[derive(Debug)]
pub struct KanalActorChannelOptions<const SEND_LANES: usize, R> {
    pub router: R,
    pub capacity: Vec<KanalActorChannelCapacity>,
}

impl<const SEND_LANES: usize, R> KanalActorChannelOptions<SEND_LANES, R> {
    /// Options with the default capacity for each lane.
    pub fn with_default_capacity(router: R) -> (options: Self)
        ensures
            options.router == router,
            options.capacity.len() == SEND_LANES,
            forall|i: int|
                0 <= i < SEND_LANES ==> #[trigger] options.capacity@[i]
                    == KanalActorChannelCapacity::Bounded(64),
    {
        let mut capacity: Vec<KanalActorChannelCapacity> = Vec::new();
        while capacity.len() < SEND_LANES
            invariant
                capacity.len() <= SEND_LANES,
                forall|i: int|
                    0 <= i < capacity.len() ==> #[trigger] capacity@[i]
                        == KanalActorChannelCapacity::Bounded(64),
            decreases SEND_LANES - capacity.len(),
        {
            capacity.push(KanalActorChannelCapacity::default());
        }
        KanalActorChannelOptions { router, capacity }
    }
}

impl<const SEND_LANES: usize, R: Default> Default for KanalActorChannelOptions<SEND_LANES, R> {
    fn default() -> (options: Self)
        ensures
            call_ensures(R::default, (), options.router),
            options.capacity.len() == SEND_LANES,
            forall|i: int|
                0 <= i < SEND_LANES ==> #[trigger] options.capacity@[i]
                    == KanalActorChannelCapacity::Bounded(64),
    {
        Self::with_default_capacity(R::default())
    }
}

/// `kanal` backed multi-priority actor channel: one queue per priority lane, lane
/// `0` first.
#[verifier::reject_recursive_types(T)]
#[derive(Debug)]
pub struct KanalActorChannel<const SEND_LANES: usize, T, R> {
    senders: Vec<kanal::Sender<T>>,
    limits: Vec<usize>,
    router: R,
}

/// The mailbox half of a [`KanalActorChannel`].
#[verifier::reject_recursive_types(T)]
#[derive(Debug)]
pub struct KanalActorMailbox<const SEND_LANES: usize, T> {
    receivers: Vec<kanal::Receiver<T>>,
}

/// A sender for one lane of a [`KanalActorChannel`].
#[verifier::reject_recursive_types(T)]
#[derive(Debug)]
pub struct KanalActorChannelSender<'a, T> {
    sender: &'a kanal::Sender<T>,
}

impl<'a, T> Copy for KanalActorChannelSender<'a, T> {

}

impl<'a, T> Clone for KanalActorChannelSender<'a, T> {
    fn clone(&self) -> (cloned: Self)
        ensures
            cloned == *self,
    {
        *self
    }
}

impl<'a, T> KanalActorChannelSender<'a, T> {
    /// The sending end of the lane.
    pub closed spec fn lane(self) -> kanal::Sender<T> {
        *self.sender
    }

    /// The sender for a lane.
    pub fn new(sender: &'a kanal::Sender<T>) -> (lane: Self)
        ensures
            lane.lane() == *sender,
    {
        KanalActorChannelSender { sender }
    }

    /// The sending end of the lane.
    pub fn sender(&self) -> (sender: &'a kanal::Sender<T>)
        ensures
            *sender == self.lane(),
    {
        self.sender
    }

    /// What the sender of a message is told when a lane does not take it: however
    /// the lane was closed, the actor is dead.
    pub fn handle_send_error(err: kanal::SendError) -> (error: ActorChannelSendError)
        ensures
            error == ActorChannelSendError::ActorDead,
    {
        ActorChannelSendError::ActorDead
    }
}

impl<const SEND_LANES: usize, T, R> KanalActorChannel<SEND_LANES, T, R> {
    /// The sending ends of the lanes.
    pub closed spec fn lanes(self) -> Seq<kanal::Sender<T>> {
        self.senders@
    }

    /// The number of messages that each lane has room for.
    pub closed spec fn spec_limits(self) -> Seq<usize> {
        self.limits@
    }

    /// The priority router.
    pub closed spec fn spec_router(self) -> R {
        self.router
    }

    /// There is one sending end, with one limit, per lane.
    #[verifier::type_invariant]
    spec fn has_its_lanes(self) -> bool {
        self.senders@.len() == SEND_LANES && self.limits@.len() == SEND_LANES
    }

    /// The number of messages that each lane has room for; `usize::MAX` for an
    /// unbounded lane.
    pub fn limits(&self) -> (limits: &Vec<usize>)
        ensures
            limits@ == self.spec_limits(),
            self.spec_limits().len() == SEND_LANES,
            self.lanes().len() == SEND_LANES,
    {
        proof {
            use_type_invariant(self);
        }
        &self.limits
    }

    /// Create the channel with the given sender factory, which is called for each
    /// lane, with the router and the lane's number.
    pub fn new_with<F: FnMut(&R, usize) -> kanal::Sender<T>>(
        router: R,
        mut sender_factory: F,
    ) -> (channel: Self)
        requires
            forall|lane: usize|
                lane < SEND_LANES ==> #[trigger] call_requires(sender_factory, (&router, lane)),
        ensures
            channel.lanes().len() == SEND_LANES,
            channel.spec_limits().len() == SEND_LANES,
            forall|lane: int| #[trigger]
                has_lane(SEND_LANES as nat, lane) ==> call_ensures(
                    sender_factory,
                    (&router, lane as usize),
                    channel.lanes()[lane],
                ) && capacity_returned(channel.lanes()[lane], channel.spec_limits()[lane]),
            channel.spec_router() == router,
    {
        let ghost factory = sender_factory;
        let mut senders: Vec<kanal::Sender<T>> = Vec::new();
        let mut limits: Vec<usize> = Vec::new();
        while senders.len() < SEND_LANES
            invariant
                sender_factory == factory,
                senders.len() == limits.len(),
                senders.len() <= SEND_LANES,
                forall|lane: usize|
                    lane < SEND_LANES ==> #[trigger] call_requires(sender_factory, (&router, lane)),
                forall|lane: int| #[trigger]
                    has_lane(senders.len() as nat, lane) ==> call_ensures(
                        sender_factory,
                        (&router, lane as usize),
                        senders@[lane],
                    ) && capacity_returned(senders@[lane], limits@[lane]),
            decreases SEND_LANES - senders.len(),
        {
            let ghost count = senders.len();
            let sender = sender_factory(&router, senders.len());
            let limit: usize = kanal_capacity(&sender);
            assert(capacity_returned(sender, limit));
            senders.push(sender);
            limits.push(limit);
            assert forall|lane: int| #[trigger]
                has_lane(senders.len() as nat, lane) implies call_ensures(
                sender_factory,
                (&router, lane as usize),
                senders@[lane],
            ) && capacity_returned(senders@[lane], limits@[lane]) by {
                if lane < count {
                    assert(has_lane(count as nat, lane));
                }
            }
        }
        KanalActorChannel { senders, limits, router }
    }

    /// Create the channel and its mailbox with the given options.
    pub fn create(options: KanalActorChannelOptions<SEND_LANES, R>) -> (result: (
        Self,
        KanalActorMailbox<SEND_LANES, T>,
    ))
        requires
            options.capacity.len() == SEND_LANES,
            forall|i: int|
                0 <= i < options.capacity.len() ==> (
                #[trigger] options.capacity@[i]).is_valid::<T>(),
        ensures
            result.0.lanes().len() == options.capacity.len(),
            result.1.lanes().len() == options.capacity.len(),
            result.0.spec_limits() == options.capacity@.map_values(
                |capacity: KanalActorChannelCapacity| capacity.limit(),
            ),
            forall|i: int|
                0 <= i < options.capacity.len() ==> made_together(
                    #[trigger] options.capacity@[i],
                    result.0.lanes()[i],
                    result.1.lanes()[i],
                ),
            result.0.spec_router() == options.router,
    {
        let mut senders: Vec<kanal::Sender<T>> = Vec::new();
        let mut receivers: Vec<kanal::Receiver<T>> = Vec::new();
        let mut limits: Vec<usize> = Vec::new();
        while senders.len() < options.capacity.len()
            invariant
                senders.len() == receivers.len(),
                senders.len() == limits.len(),
                forall|i: int|
                    0 <= i < limits.len() ==> limits@[i] == (
                    #[trigger] options.capacity@[i]).limit() && made_together(
                        options.capacity@[i],
                        senders@[i],
                        receivers@[i],
                    ),
                senders.len() <= options.capacity.len(),
                forall|i: int|
                    0 <= i < options.capacity.len() ==> (
                    #[trigger] options.capacity@[i]).is_valid::<T>(),
            decreases options.capacity.len() - senders.len(),
        {
            assert(options.capacity@[senders.len() as int].is_valid::<T>());
            let (sender, receiver, limit) = match options.capacity[senders.len()] {
                KanalActorChannelCapacity::Unbounded => kanal_unbounded(),
                KanalActorChannelCapacity::Bounded(capacity) => kanal_bounded(capacity),
            };
            assert(made_together(options.capacity@[senders.len() as int], sender, receiver));
            senders.push(sender);
            receivers.push(receiver);
            limits.push(limit);
        }
        (
            KanalActorChannel { senders, limits, router: options.router },
            KanalActorMailbox { receivers },
        )
    }

    /// The sender of the given lane, which the channel has.
    pub fn sender(&self, index: usize) -> (sender: KanalActorChannelSender<'_, T>)
        requires
            index < self.lanes().len(),
        ensures
            sender.lane() == self.lanes()[index as int],
    {
        KanalActorChannelSender::new(&self.senders[index])
    }

    /// The sender of the given lane, if the channel has it.
    pub fn maybe_sender(&self, index: usize) -> (sender: Option<KanalActorChannelSender<'_, T>>)
        ensures
            sender is Some <==> index < self.lanes().len(),
            sender matches Some(sender) ==> sender.lane() == self.lanes()[index as int],
    {
        if index < self.senders.len() {
            Some(self.sender(index))
        } else {
            None
        }
    }
}

impl<T, R> KanalActorChannel<1, T, R> {
    /// Create the channel with the given sender factory for exactly 1 lane.
    pub fn new_single_lane_with<F: FnOnce(&R) -> kanal::Sender<T>>(
        router: R,
        sender_factory: F,
    ) -> (channel: Self)
        requires
            call_requires(sender_factory, (&router,)),
        ensures
            channel.lanes().len() == 1,
            channel.spec_limits().len() == 1,
            call_ensures(sender_factory, (&router,), channel.lanes()[0]),
            capacity_returned(channel.lanes()[0], channel.spec_limits()[0]),
            channel.spec_router() == router,
    {
        let sender = sender_factory(&router);
        let limit: usize = kanal_capacity(&sender);
        Self::single_lane(router, sender, limit)
    }

    /// The channel of one lane with room for `limit` messages.
    fn single_lane(router: R, sender: kanal::Sender<T>, limit: usize) -> (channel: Self)
        ensures
            channel.lanes() == seq![sender],
            channel.spec_limits() == seq![limit],
            channel.spec_router() == router,
    {
        let mut senders: Vec<kanal::Sender<T>> = Vec::new();
        senders.push(sender);
        let mut limits: Vec<usize> = Vec::new();
        limits.push(limit);
        assert(senders@ =~= seq![sender]);
        assert(limits@ =~= seq![limit]);
        KanalActorChannel { senders, limits, router }
    }

    /// Create the channel with a bounded capacity for exactly 1 lane.
    pub fn new_bounded_single_lane(router: R, capacity: usize) -> (result: (
        kanal::Receiver<T>,
        Self,
    ))
        requires
            has_room::<T>(capacity),
        ensures
            result.1.lanes().len() == 1,
            result.1.spec_limits() == seq![capacity],
            made_together(
                KanalActorChannelCapacity::Bounded(capacity),
                result.1.lanes()[0],
                result.0,
            ),
            result.1.spec_router() == router,
    {
        let (sender, receiver, limit) = kanal_bounded(capacity);
        (receiver, Self::single_lane(router, sender, limit))
    }

    /// Create the channel with an unbounded capacity for exactly 1 lane.
    pub fn new_unbounded_single_lane(router: R) -> (result: (kanal::Receiver<T>, Self))
        requires
            has_room::<T>(32),
        ensures
            result.1.lanes().len() == 1,
            result.1.spec_limits() == seq![usize::MAX],
            made_together(
                KanalActorChannelCapacity::Unbounded,
                result.1.lanes()[0],
                result.0,
            ),
            result.1.spec_router() == router,
    {
        let (sender, receiver, limit) = kanal_unbounded();
        (receiver, Self::single_lane(router, sender, limit))
    }
}

impl<T> KanalActorChannel<1, T, NoPriorityRouter> {
    /// Create the channel with a bounded capacity for exactly 1 lane.
    pub fn new_bounded(capacity: usize) -> (result: (kanal::Receiver<T>, Self))
        requires
            has_room::<T>(capacity),
        ensures
            result.1.lanes().len() == 1,
            result.1.spec_limits() == seq![capacity],
            made_together(
                KanalActorChannelCapacity::Bounded(capacity),
                result.1.lanes()[0],
                result.0,
            ),
            result.1.spec_router() == NoPriorityRouter,
    {
        Self::new_bounded_single_lane(NoPriorityRouter, capacity)
    }

    /// Create the channel with an unbounded capacity for exactly 1 lane.
    pub fn new_unbounded() -> (result: (kanal::Receiver<T>, Self))
        requires
            has_room::<T>(32),
        ensures
            result.1.lanes().len() == 1,
            result.1.spec_limits() == seq![usize::MAX],
            made_together(
                KanalActorChannelCapacity::Unbounded,
                result.1.lanes()[0],
                result.0,
            ),
            result.1.spec_router() == NoPriorityRouter,
    {
        Self::new_unbounded_single_lane(NoPriorityRouter)
    }
}

/// A prepared, not-yet-sent message for a [`KanalActorChannel`].
#[verifier::reject_recursive_types(P)]
#[verifier::reject_recursive_types(S)]
#[verifier::reject_recursive_types(H)]
#[derive(Debug)]
pub struct KanalChannelSendable<'a, 'm, P, S, H> {
    message: DispatchedActorMessage<'m, P, S, H>,
    sender: Option<KanalActorChannelSender<'a, DispatchedActorMessage<'m, P, S, H>>>,
}

impl<
    'm,
    const SEND_LANES: usize,
    P,
    S,
    H,
    R: ActorMessagePriorityRouter<DispatchedActorMessage<'m, P, S, H>>,
> KanalActorChannel<SEND_LANES, DispatchedActorMessage<'m, P, S, H>, R> {
    /// The lane with the given number, where the channel has it.
    pub open spec fn lane_at(self, lane: usize) -> Option<
        kanal::Sender<DispatchedActorMessage<'m, P, S, H>>,
    > {
        if lane < self.lanes().len() {
            Some(self.lanes()[lane as int])
        } else {
            None
        }
    }

    /// Prepare sending a message through this channel: it goes to the lane that
    /// the router gives it.
    pub fn prepare_send(&self, message: DispatchedActorMessage<'m, P, S, H>) -> (sendable:
        KanalChannelSendable<'_, 'm, P, S, H>)
        ensures
            exists|lane: usize|
                call_ensures(R::priority, (&self.spec_router(), &message), lane) && sendable.lane()
                    == #[trigger] self.lane_at(lane),
            exists|lane: usize| #[trigger]
                call_ensures(R::priority, (&self.spec_router(), &message), lane) && (lane
                    < SEND_LANES ==> sendable.lane() == Some(self.lanes()[lane as int])) && (lane
                    >= SEND_LANES ==> sendable.lane() is None),
            self.lanes().len() == SEND_LANES,
            sendable.spec_message() == message,
    {
        proof {
            use_type_invariant(self);
        }
        let lane: usize = self.router.priority(&message);
        let sendable = KanalChannelSendable { sender: self.maybe_sender(lane), message };
        assert(sendable.lane() == self.lane_at(lane));
        sendable
    }
}

impl<
    'c,
    'm,
    const SEND_LANES: usize,
    P: 'c,
    S: 'c,
    H: 'c,
    R: ActorMessagePriorityRouter<DispatchedActorMessage<'m, P, S, H>>,
> ActorChannel<'c, DispatchedActorMessage<'m, P, S, H>> for KanalActorChannel<
    SEND_LANES,
    DispatchedActorMessage<'m, P, S, H>,
    R,
> where 'm: 'c {
    type Sendable = KanalChannelSendable<'c, 'm, P, S, H>;

    fn prepare_send(&'c self, message: DispatchedActorMessage<'m, P, S, H>) -> (sendable:
        KanalChannelSendable<'c, 'm, P, S, H>)
        ensures
            exists|lane: usize|
                call_ensures(R::priority, (&self.spec_router(), &message), lane) && sendable.lane()
                    == #[trigger] self.lane_at(lane),
            exists|lane: usize| #[trigger]
                call_ensures(R::priority, (&self.spec_router(), &message), lane) && (lane
                    < SEND_LANES ==> sendable.lane() == Some(self.lanes()[lane as int])) && (lane
                    >= SEND_LANES ==> sendable.lane() is None),
            self.lanes().len() == SEND_LANES,
            sendable.spec_message() == message,
    {
        KanalActorChannel::prepare_send(self, message)
    }
}

impl<'a, 'm, P, S, H> KanalActorChannelSender<'a, DispatchedActorMessage<'m, P, S, H>> {
    /// Prepare sending a message through this sender.
    pub fn prepare_send(self, message: DispatchedActorMessage<'m, P, S, H>) -> (sendable:
        KanalChannelSendable<'a, 'm, P, S, H>)
        ensures
            sendable.lane() == Some(self.lane()),
            sendable.spec_message() == message,
    {
        KanalChannelSendable { message, sender: Some(self) }
    }
}

impl<'c, 'a, 'm, P: 'c, S: 'c, H: 'c> ActorChannel<
    'c,
    DispatchedActorMessage<'m, P, S, H>,
> for KanalActorChannelSender<'a, DispatchedActorMessage<'m, P, S, H>> where 'm: 'c, 'a: 'c {
    type Sendable = KanalChannelSendable<'a, 'm, P, S, H>;

    fn prepare_send(&'c self, message: DispatchedActorMessage<'m, P, S, H>) -> (sendable:
        KanalChannelSendable<'a, 'm, P, S, H>)
        ensures
            sendable.lane() == Some(self.lane()),
            sendable.spec_message() == message,
    {
        KanalActorChannelSender::prepare_send(*self, message)
    }
}

impl<'a, 'm, P, S, H> KanalChannelSendable<'a, 'm, P, S, H> {
    /// The lane the message goes to.
    pub closed spec fn lane(self) -> Option<kanal::Sender<DispatchedActorMessage<'m, P, S, H>>> {
        match self.sender {
            Some(sender) => Some(sender.lane()),
            None => None,
        }
    }

    /// The message.
    pub closed spec fn spec_message(self) -> DispatchedActorMessage<'m, P, S, H> {
        self.message
    }

    /// The error that a message meets before it is handed to any lane: there must
    /// be a lane for it; and the channel transports messages across threads, so
    /// the envelope must be sendable.
    pub open spec fn refusal(self) -> Option<ActorChannelSendError> {
        if self.lane() is None {
            Some(ActorChannelSendError::Unroutable)
        } else if !self.spec_message().spec_envelope().spec_is_sendable() {
            Some(ActorChannelSendError::NotSendable)
        } else {
            None
        }
    }

    /// The lane and the message to hand to it, unless the message is refused.
    pub fn route(self) -> (result: Result<
        (
            &'a kanal::Sender<DispatchedActorMessage<'m, P, S, H>>,
            DispatchedActorMessage<'m, P, S, H>,
        ),
        ActorChannelSendError,
    >)
        ensures
            match result {
                Ok(parts) => self.refusal() is None && Some(*parts.0) == self.lane() && parts.1
                    == self.spec_message(),
                Err(error) => self.refusal() == Some(error),
            },
    {
        match self.sender {
            None => Err(ActorChannelSendError::Unroutable),
            Some(sender) => {
                if !self.message.envelope().is_sendable() {
                    return Err(ActorChannelSendError::NotSendable);
                }
                Ok((sender.sender(), self.message))
            },
        }
    }
}

impl<const SEND_LANES: usize, T> KanalActorMailbox<SEND_LANES, T> {
    /// The receiving ends of the lanes.
    pub closed spec fn lanes(self) -> Seq<kanal::Receiver<T>> {
        self.receivers@
    }

    /// The receiving end of the given lane, which the mailbox has.
    pub fn receiver(&self, index: usize) -> (receiver: &kanal::Receiver<T>)
        requires
            index < self.lanes().len(),
        ensures
            *receiver == self.lanes()[index as int],
    {
        &self.receivers[index]
    }

    /// The receiving end of the given lane, which the mailbox has.
    pub fn receiver_mut(&mut self, index: usize) -> (receiver: &mut kanal::Receiver<T>)
        requires
            index < old(self).lanes().len(),
        ensures
            *receiver == old(self).lanes()[index as int],
            final(self).lanes() == old(self).lanes().update(index as int, *final(receiver)),
    {
        &mut self.receivers[index]
    }

    /// Look for a message without waiting, in the lanes from `0` up. The first
    /// lane that has something, a message or its end, decides; the lanes behind
    /// it are not touched.
    pub fn try_receive(&mut self) -> (found: LanePoll<T>)
        ensures
            old(self).lanes().len() == 0 ==> found is Pending,
            final(self).lanes().len() == old(self).lanes().len(),
            old(self).lanes().len() > 0 ==> exists|last: int| #[trigger]
                ends_at(found, last, old(self).lanes().len()) && forall|i: int| #[trigger]
                    has_lane(old(self).lanes().len(), i) ==> {
                        let after = final(self).lanes()[i];
                        &&& i <= last ==> exists|lane: &mut kanal::Receiver<T>|
                            #[trigger] call_ensures(
                                look_into::<T>,
                                (lane,),
                                met_at(found, last, i),
                            ) && *lane == old(self).lanes()[i] && *final(lane) == after
                        &&& i > last ==> after == old(self).lanes()[i]
                    },
    {
        let lanes: usize = self.receivers.len();
        let mut lane: usize = 0;
        while lane < lanes
            invariant
                lane <= lanes,
                lanes == self.receivers.len(),
                lanes == old(self).lanes().len(),
                lanes > 0 ==> lane < lanes,
                forall|i: int| #[trigger]
                    has_lane(old(self).lanes().len(), i) ==> {
                        let after = self.lanes()[i];
                        &&& i < lane ==> exists|polled: &mut kanal::Receiver<T>|
                            #[trigger] call_ensures(
                                look_into::<T>,
                                (polled,),
                                LanePoll::Pending,
                            ) && *polled == old(self).lanes()[i] && *final(polled) == after
                        &&& i >= lane ==> after == old(self).lanes()[i]
                    },
            decreases lanes - lane,
        {
            let ghost before = self.lanes();
            let found = look_into(&mut self.receivers[lane]);
            assert(exists|polled: &mut kanal::Receiver<T>|
                #[trigger] call_ensures(look_into::<T>, (polled,), found) && *polled
                    == before[lane as int] && *final(polled) == self.lanes()[lane as int]);
            assert(self.lanes() =~= before.update(lane as int, self.lanes()[lane as int]));
            assert forall|i: int| 0 <= i < lanes && i != lane implies (#[trigger] self.lanes()[i])
                == before[i] by {}
            match select_biased(lane, lanes, found) {
                SelectStep::Yield(message) => {
                    assert(ends_at(LanePoll::Ready(message), lane as int, lanes as nat));
                    return LanePoll::Ready(message);
                },
                SelectStep::TryLane(next) => {
                    lane = next;
                },
                SelectStep::Pending => {
                    assert(ends_at(LanePoll::<T>::Pending, lane as int, lanes as nat));
                    return LanePoll::Pending;
                },
            }
        }
        LanePoll::Pending
    }
}

impl<const SEND_LANES: usize, T> ActorMailbox for KanalActorMailbox<SEND_LANES, T> {
    type Message = T;

    fn try_receive(&mut self) -> (found: LanePoll<T>)
        ensures
            exists|mailbox: &mut KanalActorMailbox<SEND_LANES, T>|
                #[trigger] call_ensures(
                    KanalActorMailbox::<SEND_LANES, T>::try_receive,
                    (mailbox,),
                    found,
                ) && *mailbox == *old(self) && *final(mailbox) == *final(self),
    {
        KanalActorMailbox::try_receive(self)
    }
}

/// A message goes to the lane that its router names: to the sender with that number,
/// as it came from the factory that the channel was made with, for every number that
/// there is a lane for. It is refused where there is none, which comes first, and
/// where the message or, for an ask, its answer sender may not cross threads.
pub proof fn messages_go_to_the_lane_their_router_names<
    'a,
    'm,
    const SEND_LANES: usize,
    P,
    S,
    H,
    R: ActorMessagePriorityRouter<DispatchedActorMessage<'m, P, S, H>>,
    F: FnMut(&R, usize) -> kanal::Sender<DispatchedActorMessage<'m, P, S, H>>,
>(
    router: R,
    factory: F,
    channel: KanalActorChannel<SEND_LANES, DispatchedActorMessage<'m, P, S, H>, R>,
    message: DispatchedActorMessage<'m, P, S, H>,
    sendable: KanalChannelSendable<'a, 'm, P, S, H>,
    result: Result<
        (
            &'a kanal::Sender<DispatchedActorMessage<'m, P, S, H>>,
            DispatchedActorMessage<'m, P, S, H>,
        ),
        ActorChannelSendError,
    >,
)
    requires
        call_ensures(
            KanalActorChannel::<SEND_LANES, DispatchedActorMessage<'m, P, S, H>, R>::new_with::<F>,
            (router, factory),
            channel,
        ),
        call_ensures(
            KanalActorChannel::<
                SEND_LANES,
                DispatchedActorMessage<'m, P, S, H>,
                R,
            >::prepare_send,
            (&channel, message),
            sendable,
        ),
        call_ensures(KanalChannelSendable::<'a, 'm, P, S, H>::route, (sendable,), result),
    ensures
        exists|lane: usize| #[trigger]
            call_ensures(R::priority, (&router, &message), lane) && ({
                let rtti = message.spec_envelope().spec_rtti();
                let may_cross = rtti.spec_is_send() && (message.spec_envelope().spec_ty()
                    == EnvelopeType::Ask ==> rtti.spec_is_answer_sender_send());
                &&& result is Ok <==> may_cross && lane < SEND_LANES
                &&& result matches Ok(parts) ==> call_ensures(factory, (&router, lane), *parts.0)
                    && parts.1 == message
                &&& result matches Err(error) ==> error == if lane < SEND_LANES {
                    ActorChannelSendError::NotSendable
                } else {
                    ActorChannelSendError::Unroutable
                }
            }),
{
    let lane = choose|lane: usize| #[trigger]
        call_ensures(R::priority, (&router, &message), lane) && (lane < SEND_LANES
            ==> sendable.lane() == Some(channel.lanes()[lane as int])) && (lane >= SEND_LANES
            ==> sendable.lane() is None);
    assert(has_lane(SEND_LANES as nat, lane as int) <==> lane < SEND_LANES);
}

/// Lower lane numbers come first: what a look into the mailbox finds comes from a
/// lane before which every lane was looked into in vain, and every lane behind it is
/// left as it was. Nothing is found only where every lane was looked into in vain.
/// Each lane is looked into once at most.
pub proof fn lower_lanes_are_drained_first<const SEND_LANES: usize, T>(
    before: KanalActorMailbox<SEND_LANES, T>,
    after: KanalActorMailbox<SEND_LANES, T>,
    found: LanePoll<T>,
    i: int,
)
    requires
        exists|mailbox: &mut KanalActorMailbox<SEND_LANES, T>|
            #[trigger] call_ensures(
                KanalActorMailbox::<SEND_LANES, T>::try_receive,
                (mailbox,),
                found,
            ) && *mailbox == before && *final(mailbox) == after,
        0 <= i < before.lanes().len(),
    ensures
        after.lanes().len() == before.lanes().len(),
        exists|from: int|
            {
                &&& #[trigger] stops_at(before.lanes().len(), from)
                &&& 0 <= from <= before.lanes().len()
                &&& found is Pending <==> from == before.lanes().len()
                &&& i < from ==> exists|lane: &mut kanal::Receiver<T>|
                    #[trigger] call_ensures(look_into::<T>, (lane,), LanePoll::Pending) && *lane
                        == before.lanes()[i] && *final(lane) == after.lanes()[i]
                &&& found is Ready ==> exists|lane: &mut kanal::Receiver<T>|
                    #[trigger] call_ensures(look_into::<T>, (lane,), found) && *lane
                        == before.lanes()[from] && *final(lane) == after.lanes()[from]
                &&& i > from ==> after.lanes()[i] == before.lanes()[i]
            },
{
    let lanes = before.lanes().len();
    let last = choose|last: int| #[trigger]
        ends_at(found, last, lanes) && forall|i: int| #[trigger]
            has_lane(lanes, i) ==> {
                let left = after.lanes()[i];
                &&& i <= last ==> exists|lane: &mut kanal::Receiver<T>|
                    #[trigger] call_ensures(look_into::<T>, (lane,), met_at(found, last, i))
                        && *lane == before.lanes()[i] && *final(lane) == left
                &&& i > last ==> left == before.lanes()[i]
            };
    assert(has_lane(lanes, i));
    assert(has_lane(lanes, last));
    assert(stops_at(before.lanes().len(), last) && stops_at(before.lanes().len(), lanes as int));
}

/// Every lane of a channel has the room that was asked for it, however many lanes
/// there are, and its own receiving end behind it in the mailbox, under the same
/// number.
pub proof fn every_lane_is_made_as_asked_for<const SEND_LANES: usize, T, R>(
    options: KanalActorChannelOptions<SEND_LANES, R>,
    channel: KanalActorChannel<SEND_LANES, T, R>,
    mailbox: KanalActorMailbox<SEND_LANES, T>,
    limits: &Vec<usize>,
    lane: usize,
)
    requires
        call_ensures(
            KanalActorChannel::<SEND_LANES, T, R>::create,
            (options,),
            (channel, mailbox),
        ),
        call_ensures(KanalActorChannel::<SEND_LANES, T, R>::limits, (&channel,), limits),
        lane < SEND_LANES,
        options.capacity.len() == SEND_LANES,
    ensures
        channel.lanes().len() == SEND_LANES && mailbox.lanes().len() == SEND_LANES,
        limits.len() == SEND_LANES,
        options.capacity@[lane as int] matches KanalActorChannelCapacity::Bounded(room)
            ==> limits@[lane as int] == room,
        options.capacity@[lane as int] is Unbounded ==> limits@[lane as int] == usize::MAX,
        made_together(
            options.capacity@[lane as int],
            channel.lanes()[lane as int],
            mailbox.lanes()[lane as int],
        ),
{
    let capacity = options.capacity@[lane as int];
    assert(options.capacity@.map_values(|capacity: KanalActorChannelCapacity| capacity.limit())[lane
        as int] == capacity.limit());
}

/// The lanes of a channel are kanal's: the two ends of a bounded one are those of one
/// [`kanal::bounded`] with the room that was asked for, the two ends of an unbounded one
/// those of one [`kanal::unbounded`].
proof fn lanes_are_made_by_kanal<const SEND_LANES: usize, T, R>(
    options: KanalActorChannelOptions<SEND_LANES, R>,
    channel: KanalActorChannel<SEND_LANES, T, R>,
    mailbox: KanalActorMailbox<SEND_LANES, T>,
    lane: usize,
)
    requires
        call_ensures(
            KanalActorChannel::<SEND_LANES, T, R>::create,
            (options,),
            (channel, mailbox),
        ),
        lane < options.capacity.len(),
    ensures
        match options.capacity@[lane as int] {
            KanalActorChannelCapacity::Bounded(room) => call_ensures(
                kanal_bounded::<T>,
                (room,),
                (channel.lanes()[lane as int], mailbox.lanes()[lane as int], room),
            ),
            KanalActorChannelCapacity::Unbounded => call_ensures(
                kanal_unbounded::<T>,
                (),
                (channel.lanes()[lane as int], mailbox.lanes()[lane as int], usize::MAX),
            ),
        },
{
    assert(made_together(
        options.capacity@[lane as int],
        channel.lanes()[lane as int],
        mailbox.lanes()[lane as int],
    ));
}

/// A look into a lane is a look of kanal's: what is found is what
/// [`kanal::Receiver::try_recv`] found there. And the limit of a lane over an existing
/// sender is what [`kanal::Sender::capacity`] says of that sender.
proof fn lanes_tell_what_kanal_tells<T, R, F: FnOnce(&R) -> kanal::Sender<T>>(
    before: kanal::Receiver<T>,
    after: kanal::Receiver<T>,
    found: LanePoll<T>,
    router: R,
    factory: F,
    channel: KanalActorChannel<1, T, R>,
)
    requires
        exists|lane: &mut kanal::Receiver<T>|
            #[trigger] call_ensures(look_into::<T>, (lane,), found) && *lane == before
                && *final(lane) == after,
        call_ensures(
            KanalActorChannel::<1, T, R>::new_single_lane_with::<F>,
            (router, factory),
            channel,
        ),
    ensures
        exists|receiver: &mut kanal::Receiver<T>|
            #[trigger] call_ensures(kanal_try_recv::<T>, (receiver,), found) && *receiver == before
                && *final(receiver) == after,
        call_ensures(factory, (&router,), channel.lanes()[0]),
        call_ensures(kanal_capacity::<T>, (&channel.lanes()[0],), channel.spec_limits()[0]),
{
    assert(exists|receiver: &mut kanal::Receiver<T>|
        #[trigger] try_recv_found(receiver, found) && *receiver == before && *final(receiver)
            == after);
}

/// A single-lane channel has one lane with the room that was asked for, whose receiving
/// end comes with it.
pub proof fn single_lanes_are_made_as_asked_for<T>(
    capacity: usize,
    bounded: (kanal::Receiver<T>, KanalActorChannel<1, T, NoPriorityRouter>),
    unbounded: (kanal::Receiver<T>, KanalActorChannel<1, T, NoPriorityRouter>),
    limits: (&Vec<usize>, &Vec<usize>),
)
    requires
        call_ensures(
            KanalActorChannel::<1, T, NoPriorityRouter>::new_bounded,
            (capacity,),
            bounded,
        ),
        call_ensures(KanalActorChannel::<1, T, NoPriorityRouter>::new_unbounded, (), unbounded),
        call_ensures(
            KanalActorChannel::<1, T, NoPriorityRouter>::limits,
            (&bounded.1,),
            limits.0,
        ),
        call_ensures(
            KanalActorChannel::<1, T, NoPriorityRouter>::limits,
            (&unbounded.1,),
            limits.1,
        ),
    ensures
        bounded.1.lanes().len() == 1 && unbounded.1.lanes().len() == 1,
        limits.0@[0] == capacity,
        limits.1@[0] == usize::MAX,
        made_together(
            KanalActorChannelCapacity::Bounded(capacity),
            bounded.1.lanes()[0],
            bounded.0,
        ),
        made_together(KanalActorChannelCapacity::Unbounded, unbounded.1.lanes()[0], unbounded.0),
{
}

/// A lane is found by its number, for every number that there is a lane for.
pub proof fn lanes_are_found_by_number<'a, const SEND_LANES: usize, T, R>(
    channel: KanalActorChannel<SEND_LANES, T, R>,
    index: usize,
    found: Option<KanalActorChannelSender<'a, T>>,
)
    requires
        call_ensures(
            KanalActorChannel::<SEND_LANES, T, R>::maybe_sender,
            (&channel, index),
            found,
        ),
    ensures
        found is Some <==> index < channel.lanes().len(),
        found matches Some(found) ==> forall|sender: &'a kanal::Sender<T>| #[trigger]
            call_ensures(KanalActorChannelSender::<'a, T>::sender, (&found,), sender) ==> *sender
                == channel.lanes()[index as int],
{
}

} // verus!
