//! Tokio-`mpsc`-backed actor channel - the default mailbox.
use crate::actor::channel::{
    ActorChannel, ActorChannelSendError, ActorChannelSendable, ActorMailbox,
};
use crate::actor::dispatch::DispatchedActorMessage;
use crate::message::envelope::EnvelopeType;
use crate::runtime::routing::{
    ends_at, has_lane, met_at, select_biased, stops_at, ActorMessagePriorityRouter, LanePoll,
    NoPriorityRouter, SelectStep,
};
use tokio::sync::mpsc;
use vstd::prelude::*;
use vstd::std_specs::convert::FromSpecImpl;

verus! {

/// [`tokio::sync::mpsc::Sender`].
#[verifier::external_type_specification]
#[verifier::external_body]
#[verifier::reject_recursive_types(T)]
pub struct ExMpscSender<T>(mpsc::Sender<T>);

/// [`tokio::sync::mpsc::Receiver`].
#[verifier::external_type_specification]
#[verifier::external_body]
#[verifier::reject_recursive_types(T)]
pub struct ExMpscReceiver<T>(mpsc::Receiver<T>);

/// [`tokio::sync::mpsc::UnboundedSender`].
#[verifier::external_type_specification]
#[verifier::external_body]
#[verifier::reject_recursive_types(T)]
pub struct ExMpscUnboundedSender<T>(mpsc::UnboundedSender<T>);

/// [`tokio::sync::mpsc::UnboundedReceiver`].
#[verifier::external_type_specification]
#[verifier::external_body]
#[verifier::reject_recursive_types(T)]
pub struct ExMpscUnboundedReceiver<T>(mpsc::UnboundedReceiver<T>);

/// Whether [`mpsc::channel`] can be made with the given capacity.
pub open spec fn is_capacity(capacity: usize) -> bool {
    0 < capacity <= usize::MAX / 8
}

/// Calls [`mpsc::channel`], which makes the two ends of a new bounded channel, and
/// reads back with [`mpsc::Sender::max_capacity`] the capacity it was made with.
/// `channel` refuses a capacity of zero and one above `usize::MAX >> 3`.
#[verifier::external_body]
fn mpsc_channel<T>(capacity: usize) -> (made: (mpsc::Sender<T>, mpsc::Receiver<T>, usize))
    requires
        is_capacity(capacity),
    ensures
        made.2 == capacity,
{
    let (sender, receiver) = mpsc::channel(capacity);
    let limit = sender.max_capacity();
    (sender, receiver, limit)
}

/// Whether the two ends are what one call of [`mpsc::channel`] made with the given
/// capacity.
pub closed spec fn bounded_made_together<T>(
    capacity: usize,
    sender: mpsc::Sender<T>,
    receiver: mpsc::Receiver<T>,
) -> bool {
    call_ensures(mpsc_channel::<T>, (capacity,), (sender, receiver, capacity))
}

/// Calls [`mpsc::Sender::max_capacity`], the capacity that the channel of a sender
/// was made with. Which one that was, whoever made the channel knows.
#[verifier::external_body]
fn mpsc_max_capacity<T>(sender: &mpsc::Sender<T>) -> (capacity: usize) {
    sender.max_capacity()
}

/// Whether `capacity` is what [`mpsc::Sender::max_capacity`] returned, called on
/// `sender`.
pub closed spec fn max_capacity_returned<T>(sender: mpsc::Sender<T>, capacity: usize) -> bool {
    call_ensures(mpsc_max_capacity::<T>, (&sender,), capacity)
}

/// Calls [`mpsc::unbounded_channel`], which makes the two ends of a new unbounded
/// channel.
#[verifier::external_body]
fn mpsc_unbounded_channel<T>() -> (ends: (mpsc::UnboundedSender<T>, mpsc::UnboundedReceiver<T>)) {
    mpsc::unbounded_channel()
}

/// Whether the two ends are what one call of [`mpsc::unbounded_channel`] made.
pub closed spec fn made_together<T>(
    sender: mpsc::UnboundedSender<T>,
    receiver: mpsc::UnboundedReceiver<T>,
) -> bool {
    call_ensures(mpsc_unbounded_channel::<T>, (), (sender, receiver))
}

/// What became of a message handed to a lane.
#[derive(Debug)]
pub enum SendOutcome<T> {
    /// The message is in the lane.
    Sent,
    /// The lane had no room; the message comes back.
    Full(T),
    /// The receiving end is gone; the message comes back.
    Closed(T),
}

/// Calls [`mpsc::Sender::try_send`]. A message that was not sent comes back as it
/// was; whether there was room is up to the receiving end and the other senders.
#[verifier::external_body]
fn mpsc_try_send<T>(sender: &mpsc::Sender<T>, message: T) -> (outcome: SendOutcome<T>)
    ensures
        outcome matches SendOutcome::Full(returned) ==> returned == message,
        outcome matches SendOutcome::Closed(returned) ==> returned == message,
{
    match sender.try_send(message) {
        Ok(()) => SendOutcome::Sent,
        Err(mpsc::error::TrySendError::Full(message)) => SendOutcome::Full(message),
        Err(mpsc::error::TrySendError::Closed(message)) => SendOutcome::Closed(message),
    }
}

/// Whether `outcome` is what [`mpsc::Sender::try_send`] came to, called on `sender`
/// with `message`.
pub closed spec fn try_send_returned<T>(
    sender: mpsc::Sender<T>,
    message: T,
    outcome: SendOutcome<T>,
) -> bool {
    call_ensures(mpsc_try_send::<T>, (&sender, message), outcome)
}

/// Calls [`mpsc::UnboundedSender::send`]. There is always room; a message that was
/// not sent, for want of a receiving end, comes back as it was.
#[verifier::external_body]
fn mpsc_unbounded_send<T>(sender: &mpsc::UnboundedSender<T>, message: T) -> (outcome:
    SendOutcome<T>)
    ensures
        !(outcome is Full),
        outcome matches SendOutcome::Closed(returned) ==> returned == message,
{
    match sender.send(message) {
        Ok(()) => SendOutcome::Sent,
        Err(mpsc::error::SendError(message)) => SendOutcome::Closed(message),
    }
}

/// Whether `outcome` is what [`mpsc::UnboundedSender::send`] came to, called on
/// `sender` with `message`.
pub closed spec fn unbounded_send_returned<T>(
    sender: mpsc::UnboundedSender<T>,
    message: T,
    outcome: SendOutcome<T>,
) -> bool {
    call_ensures(mpsc_unbounded_send::<T>, (&sender, message), outcome)
}

/// Calls [`mpsc::Receiver::try_recv`]. What it finds is up to the sending ends.
#[verifier::external_body]
fn mpsc_try_recv<T>(receiver: &mut mpsc::Receiver<T>) -> (found: LanePoll<T>) {
    match receiver.try_recv() {
        Ok(message) => LanePoll::Ready(Some(message)),
        Err(mpsc::error::TryRecvError::Disconnected) => LanePoll::Ready(None),
        Err(mpsc::error::TryRecvError::Empty) => LanePoll::Pending,
    }
}

/// Whether `found` is what [`mpsc::Receiver::try_recv`] found, called on
/// `receiver`.
pub closed spec fn try_recv_found<T>(receiver: &mut mpsc::Receiver<T>, found: LanePoll<T>) -> bool {
    call_ensures(mpsc_try_recv::<T>, (receiver,), found)
}

/// Calls [`mpsc::UnboundedReceiver::try_recv`]. What it finds is up to the sending
/// ends.
#[verifier::external_body]
fn mpsc_unbounded_try_recv<T>(receiver: &mut mpsc::UnboundedReceiver<T>) -> (found: LanePoll<T>) {
    match receiver.try_recv() {
        Ok(message) => LanePoll::Ready(Some(message)),
        Err(mpsc::error::TryRecvError::Disconnected) => LanePoll::Ready(None),
        Err(mpsc::error::TryRecvError::Empty) => LanePoll::Pending,
    }
}

/// Whether `found` is what [`mpsc::UnboundedReceiver::try_recv`] found, called on
/// `receiver`.
pub closed spec fn unbounded_try_recv_found<T>(
    receiver: &mut mpsc::UnboundedReceiver<T>,
    found: LanePoll<T>,
) -> bool {
    call_ensures(mpsc_unbounded_try_recv::<T>, (receiver,), found)
}

/// The sending end of a bounded lane, with the number of messages that the lane
/// has room for.
#[verifier::reject_recursive_types(T)]
#[derive(Debug)]
pub struct BoundedSender<T> {
    sender: mpsc::Sender<T>,
    capacity: usize,
}

impl<T> BoundedSender<T> {
    /// The tokio sender.
    pub closed spec fn spec_sender(self) -> mpsc::Sender<T> {
        self.sender
    }

    /// The number of messages that the lane has room for.
    pub closed spec fn spec_capacity(self) -> usize {
        self.capacity
    }

    /// The sending end of a lane over an existing channel.
    pub fn new(sender: mpsc::Sender<T>) -> (bounded: Self)
        ensures
            bounded.spec_sender() == sender,
            max_capacity_returned(sender, bounded.spec_capacity()),
    {
        let capacity: usize = mpsc_max_capacity(&sender);
        BoundedSender { sender, capacity }
    }

    /// The two ends of a new lane.
    pub fn channel(capacity: usize) -> (ends: (Self, mpsc::Receiver<T>))
        requires
            is_capacity(capacity),
        ensures
            ends.0.spec_capacity() == capacity,
            bounded_made_together(capacity, ends.0.spec_sender(), ends.1),
    {
        let (sender, receiver, limit) = mpsc_channel(capacity);
        (BoundedSender { sender, capacity: limit }, receiver)
    }

    /// The tokio sender.
    pub fn sender(&self) -> (sender: &mpsc::Sender<T>)
        ensures
            *sender == self.spec_sender(),
    {
        &self.sender
    }

    /// The number of messages that the lane has room for.
    pub fn capacity(&self) -> (capacity: usize)
        ensures
            capacity == self.spec_capacity(),
    {
        self.capacity
    }
}

/// A tokio mpsc channel sender and receiver pair.
#[verifier::reject_recursive_types(T)]
#[derive(Debug)]
pub enum TokioMpscChannel<T> {
    Bounded(BoundedSender<T>, mpsc::Receiver<T>),
    Unbounded(mpsc::UnboundedSender<T>, mpsc::UnboundedReceiver<T>),
}

/// The sending end of one lane.
#[verifier::reject_recursive_types(T)]
#[derive(Debug)]
pub enum TokioMpscSender<T> {
    Bounded(BoundedSender<T>),
    Unbounded(mpsc::UnboundedSender<T>),
}

/// The receiving end of one lane.
#[verifier::reject_recursive_types(T)]
#[derive(Debug)]
pub enum TokioMpscReceiver<T> {
    Bounded(mpsc::Receiver<T>),
    Unbounded(mpsc::UnboundedReceiver<T>),
}

/// Whether the two ends are those of one lane: what one call of [`mpsc::channel`]
/// made with the lane's capacity, or one of [`mpsc::unbounded_channel`].
pub open spec fn are_ends_of_one_lane<T>(
    sender: TokioMpscSender<T>,
    receiver: TokioMpscReceiver<T>,
) -> bool {
    match (sender, receiver) {
        (
            TokioMpscSender::Bounded(sender),
            TokioMpscReceiver::Bounded(receiver),
        ) => bounded_made_together(sender.spec_capacity(), sender.spec_sender(), receiver),
        (
            TokioMpscSender::Unbounded(sender),
            TokioMpscReceiver::Unbounded(receiver),
        ) => made_together(sender, receiver),
        _ => false,
    }
}

/// Whether `outcome` is what became of `message` in the given lane: what trying to
/// send it into a bounded one, or sending it into an unbounded one, came to.
pub open spec fn lane_returned<T>(
    lane: TokioMpscSender<T>,
    message: T,
    outcome: SendOutcome<T>,
) -> bool {
    match lane {
        TokioMpscSender::Bounded(sender) => try_send_returned(
            sender.spec_sender(),
            message,
            outcome,
        ),
        TokioMpscSender::Unbounded(sender) => unbounded_send_returned(sender, message, outcome),
    }
}

impl<T> TokioMpscSender<T> {
    /// How much the lane has room for.
    pub open spec fn spec_capacity(self) -> TokioMpscChannelCapacity {
        match self {
            TokioMpscSender::Bounded(sender) => TokioMpscChannelCapacity::Bounded(
                sender.spec_capacity(),
            ),
            TokioMpscSender::Unbounded(_) => TokioMpscChannelCapacity::Unbounded,
        }
    }

    /// How much the lane has room for.
    pub fn capacity(&self) -> (capacity: TokioMpscChannelCapacity)
        ensures
            capacity == self.spec_capacity(),
    {
        match self {
            TokioMpscSender::Bounded(sender) => TokioMpscChannelCapacity::Bounded(
                sender.capacity(),
            ),
            TokioMpscSender::Unbounded(_) => TokioMpscChannelCapacity::Unbounded,
        }
    }
}

impl<T> TokioMpscChannel<T> {
    /// How much the lane has room for.
    pub open spec fn spec_capacity(self) -> TokioMpscChannelCapacity {
        match self {
            TokioMpscChannel::Bounded(sender, _) => TokioMpscChannelCapacity::Bounded(
                sender.spec_capacity(),
            ),
            TokioMpscChannel::Unbounded(_, _) => TokioMpscChannelCapacity::Unbounded,
        }
    }

    /// Whether the two ends are those of one lane.
    pub open spec fn is_one_lane(self) -> bool {
        are_ends_of_one_lane(self.spec_parts().0, self.spec_parts().1)
    }

    /// Create a new mpsc channel with the given capacity.
    pub fn new_bounded(capacity: usize) -> (channel: Self)
        requires
            is_capacity(capacity),
        ensures
            channel.spec_capacity() == TokioMpscChannelCapacity::Bounded(capacity),
            channel.is_one_lane(),
    {
        let (sender, receiver) = BoundedSender::channel(capacity);
        TokioMpscChannel::Bounded(sender, receiver)
    }

    /// Create a new unbounded mpsc channel.
    pub fn new_unbounded() -> (channel: Self)
        ensures
            channel.spec_capacity() == TokioMpscChannelCapacity::Unbounded,
            channel.is_one_lane(),
    {
        let (sender, receiver) = mpsc_unbounded_channel();
        TokioMpscChannel::Unbounded(sender, receiver)
    }

    /// The sender and the receiver of the channel.
    pub open spec fn spec_parts(self) -> (TokioMpscSender<T>, TokioMpscReceiver<T>) {
        match self {
            TokioMpscChannel::Bounded(sender, receiver) => (
                TokioMpscSender::Bounded(sender),
                TokioMpscReceiver::Bounded(receiver),
            ),
            TokioMpscChannel::Unbounded(sender, receiver) => (
                TokioMpscSender::Unbounded(sender),
                TokioMpscReceiver::Unbounded(receiver),
            ),
        }
    }

    /// Split the channel into a sender and receiver.
    pub fn into_parts(self) -> (parts: (TokioMpscSender<T>, TokioMpscReceiver<T>))
        ensures
            parts == self.spec_parts(),
    {
        match self {
            TokioMpscChannel::Bounded(sender, receiver) => (
                TokioMpscSender::Bounded(sender),
                TokioMpscReceiver::Bounded(receiver),
            ),
            TokioMpscChannel::Unbounded(sender, receiver) => (
                TokioMpscSender::Unbounded(sender),
                TokioMpscReceiver::Unbounded(receiver),
            ),
        }
    }
}

impl<T> From<mpsc::Sender<T>> for TokioMpscSender<T> {
    fn from(sender: mpsc::Sender<T>) -> (lane: Self)
        ensures
            lane matches TokioMpscSender::Bounded(bounded) && bounded.spec_sender() == sender
                && max_capacity_returned(sender, bounded.spec_capacity()),
    {
        TokioMpscSender::Bounded(BoundedSender::new(sender))
    }
}

impl<T> FromSpecImpl<mpsc::Sender<T>> for TokioMpscSender<T> {
    open spec fn obeys_from_spec() -> bool {
        false
    }

    open spec fn from_spec(sender: mpsc::Sender<T>) -> Self {
        arbitrary()
    }
}

impl<T> From<mpsc::UnboundedSender<T>> for TokioMpscSender<T> {
    fn from(sender: mpsc::UnboundedSender<T>) -> (lane: Self) {
        TokioMpscSender::Unbounded(sender)
    }
}

impl<T> FromSpecImpl<mpsc::UnboundedSender<T>> for TokioMpscSender<T> {
    open spec fn obeys_from_spec() -> bool {
        true
    }

    open spec fn from_spec(sender: mpsc::UnboundedSender<T>) -> Self {
        TokioMpscSender::Unbounded(sender)
    }
}

impl<T> From<mpsc::Receiver<T>> for TokioMpscReceiver<T> {
    fn from(receiver: mpsc::Receiver<T>) -> (lane: Self) {
        TokioMpscReceiver::Bounded(receiver)
    }
}

impl<T> FromSpecImpl<mpsc::Receiver<T>> for TokioMpscReceiver<T> {
    open spec fn obeys_from_spec() -> bool {
        true
    }

    open spec fn from_spec(receiver: mpsc::Receiver<T>) -> Self {
        TokioMpscReceiver::Bounded(receiver)
    }
}

impl<T> From<mpsc::UnboundedReceiver<T>> for TokioMpscReceiver<T> {
    fn from(receiver: mpsc::UnboundedReceiver<T>) -> (lane: Self) {
        TokioMpscReceiver::Unbounded(receiver)
    }
}

impl<T> FromSpecImpl<mpsc::UnboundedReceiver<T>> for TokioMpscReceiver<T> {
    open spec fn obeys_from_spec() -> bool {
        true
    }

    open spec fn from_spec(receiver: mpsc::UnboundedReceiver<T>) -> Self {
        TokioMpscReceiver::Unbounded(receiver)
    }
}

impl<T> TokioMpscReceiver<T> {
    /// Look for a message in the lane, without waiting.
    pub fn try_receive(&mut self) -> (found: LanePoll<T>)
        ensures
            (*final(self)) is Bounded <==> (*old(self)) is Bounded,
            (*old(self)) is Bounded ==> exists|receiver: &mut mpsc::Receiver<T>|
                #[trigger] try_recv_found(receiver, found) && *receiver == (*old(self))->Bounded_0
                    && *final(receiver) == (*final(self))->Bounded_0,
            (*old(self)) is Unbounded ==> exists|receiver: &mut mpsc::UnboundedReceiver<T>|
                #[trigger] unbounded_try_recv_found(receiver, found) && *receiver == (*old(
                    self,
                ))->Unbounded_0 && *final(receiver) == (*final(self))->Unbounded_0,
    {
        match self {
            TokioMpscReceiver::Bounded(receiver) => {
                let found = mpsc_try_recv(receiver);
                proof {
                    let polled = choose|polled: &mut mpsc::Receiver<T>| #[trigger]
                        call_ensures(mpsc_try_recv::<T>, (polled,), found) && *polled == (*old(
                            self,
                        ))->Bounded_0 && *final(polled) == *receiver;
                    assert(try_recv_found(polled, found));
                }
                found
            },
            TokioMpscReceiver::Unbounded(receiver) => {
                let found = mpsc_unbounded_try_recv(receiver);
                proof {
                    let polled = choose|polled: &mut mpsc::UnboundedReceiver<T>| #[trigger]
                        call_ensures(mpsc_unbounded_try_recv::<T>, (polled,), found) && *polled
                            == (*old(self))->Unbounded_0 && *final(polled) == *receiver;
                    assert(unbounded_try_recv_found(polled, found));
                }
                found
            },
        }
    }
}

/// How large the actor mailbox is.
#[derive(Clone, Copy, Debug, PartialEq, Eq, Hash, Structural)]
pub enum TokioMpscChannelCapacity {
    /// The channel has unbounded capacity (senders never block).
    Unbounded,
    /// The channel is bounded to the given capacity (senders apply
    /// backpressure).
    Bounded(usize),
}

impl TokioMpscChannelCapacity {
    /// Whether a channel can be made with the capacity.
    pub open spec fn is_valid(self) -> bool {
        self matches TokioMpscChannelCapacity::Bounded(capacity) ==> is_capacity(capacity)
    }
}

impl Default for TokioMpscChannelCapacity {
    fn default() -> (capacity: Self)
        ensures
            capacity == TokioMpscChannelCapacity::Bounded(64),
            capacity.is_valid(),
    {
        TokioMpscChannelCapacity::Bounded(64)
    }
}

/// Options for building a [`TokioMpscMultiLineActorChannel`].
#[derive(Clone, Copy, Debug)]
pub struct TokioMpscChannelOptions<R> {
    /// The mailbox capacity (bounded or unbounded).
    pub capacity: TokioMpscChannelCapacity,
    /// The priority router to use.
    pub router: R,
}

impl<R: Default> Default for TokioMpscChannelOptions<R> {
    fn default() -> (options: Self)
        ensures
            options.capacity == TokioMpscChannelCapacity::Bounded(64),
            options.capacity.is_valid(),
            call_ensures(R::default, (), options.router),
    {
        TokioMpscChannelOptions {
            capacity: TokioMpscChannelCapacity::default(),
            router: R::default(),
        }
    }
}

/// Actor channel with one `tokio::sync::mpsc` queue per priority lane, lane `0`
/// first. Bounded by default, applying backpressure to senders when a lane fills.
#[verifier::reject_recursive_types(T)]
#[derive(Debug)]
pub struct TokioMpscMultiLineActorChannel<const SEND_LANES: usize, T, R> {
    sender: Vec<TokioMpscSender<T>>,
    router: R,
}

/// The mailbox half of a [`TokioMpscMultiLineActorChannel`].
#[verifier::reject_recursive_types(T)]
#[derive(Debug)]
pub struct TokioMpscMultilaneActorMailbox<const SEND_LANES: usize, T> {
    receiver: Vec<TokioMpscReceiver<T>>,
}

impl<const SEND_LANES: usize, T, R> TokioMpscMultiLineActorChannel<SEND_LANES, T, R> {
    /// The sending ends of the lanes.
    pub closed spec fn lanes(self) -> Seq<TokioMpscSender<T>> {
        self.sender@
    }

    /// There is one sending end per lane.
    #[verifier::type_invariant]
    spec fn has_its_lanes(self) -> bool {
        self.sender@.len() == SEND_LANES
    }

    /// The sending ends of the lanes.
    pub fn senders(&self) -> (senders: &Vec<TokioMpscSender<T>>)
        ensures
            senders@ == self.lanes(),
            self.lanes().len() == SEND_LANES,
    {
        proof {
            use_type_invariant(self);
        }
        &self.sender
    }

    /// The priority router.
    pub closed spec fn spec_router(self) -> R {
        self.router
    }

    /// Create a new mpsc multilane actor channel from its components.
    pub fn new(sender: Vec<TokioMpscSender<T>>, router: R) -> (channel: Self)
        requires
            sender.len() == SEND_LANES,
        ensures
            channel.lanes() == sender@,
            channel.spec_router() == router,
    {
        TokioMpscMultiLineActorChannel { sender, router }
    }

    /// Build a new mpsc multilane actor channel from a function that builds a channel
    /// for each lane, given the router and the lane's number.
    pub fn build_with<F: FnMut(&R, usize) -> TokioMpscChannel<T>>(
        mut lane_builder: F,
        router: R,
    ) -> (result: (Self, TokioMpscMultilaneActorMailbox<SEND_LANES, T>))
        requires
            forall|lane: usize|
                lane < SEND_LANES ==> #[trigger] call_requires(lane_builder, (&router, lane)),
        ensures
            result.0.spec_router() == router,
            result.0.lanes().len() == SEND_LANES,
            result.1.lanes().len() == SEND_LANES,
            forall|lane: int| #[trigger]
                has_lane(SEND_LANES as nat, lane) ==> exists|channel: TokioMpscChannel<T>|
                    #[trigger] call_ensures(lane_builder, (&router, lane as usize), channel)
                        && channel.spec_parts() == (
                        result.0.lanes()[lane],
                        result.1.lanes()[lane],
                    ),
    {
        let ghost builder = lane_builder;
        let mut senders: Vec<TokioMpscSender<T>> = Vec::new();
        let mut receivers: Vec<TokioMpscReceiver<T>> = Vec::new();
        while senders.len() < SEND_LANES
            invariant
                lane_builder == builder,
                senders.len() == receivers.len(),
                senders.len() <= SEND_LANES,
                forall|lane: usize|
                    lane < SEND_LANES ==> #[trigger] call_requires(lane_builder, (&router, lane)),
                forall|lane: int| #[trigger]
                    has_lane(senders.len() as nat, lane) ==> exists|channel: TokioMpscChannel<T>|
                        #[trigger] call_ensures(lane_builder, (&router, lane as usize), channel)
                            && channel.spec_parts() == (senders@[lane], receivers@[lane]),
            decreases SEND_LANES - senders.len(),
        {
            let ghost count = senders.len();
            let channel = lane_builder(&router, senders.len());
            let ghost built = channel;
            let (sender, receiver) = channel.into_parts();
            senders.push(sender);
            receivers.push(receiver);
            assert forall|lane: int| #[trigger]
                has_lane(senders.len() as nat, lane) implies exists|channel: TokioMpscChannel<T>|
                #[trigger] call_ensures(lane_builder, (&router, lane as usize), channel)
                    && channel.spec_parts() == (senders@[lane], receivers@[lane]) by {
                if lane < count {
                    assert(has_lane(count as nat, lane));
                } else {
                    assert(call_ensures(lane_builder, (&router, lane as usize), built));
                }
            }
        }
        (
            TokioMpscMultiLineActorChannel { sender: senders, router },
            TokioMpscMultilaneActorMailbox { receiver: receivers },
        )
    }

    /// Create a new mpsc multilane actor channel with the given capacity for each
    /// lane.
    pub fn new_all_bounded(capacity: usize, router: R) -> (result: (
        Self,
        TokioMpscMultilaneActorMailbox<SEND_LANES, T>,
    ))
        requires
            is_capacity(capacity),
        ensures
            result.0.spec_router() == router,
            result.0.lanes().len() == SEND_LANES,
            result.1.lanes().len() == SEND_LANES,
            forall|i: int|
                0 <= i < SEND_LANES ==> (#[trigger] result.0.lanes()[i]).spec_capacity()
                    == TokioMpscChannelCapacity::Bounded(capacity) && are_ends_of_one_lane(
                    result.0.lanes()[i],
                    result.1.lanes()[i],
                ),
    {
        let lane_builder = |router: &R, lane: usize| -> (channel: TokioMpscChannel<T>)
            requires
                is_capacity(capacity),
            ensures
                channel.spec_capacity() == TokioMpscChannelCapacity::Bounded(capacity),
                channel.is_one_lane(),
            { TokioMpscChannel::new_bounded(capacity) };
        let result = Self::build_with(lane_builder, router);
        assert forall|i: int| 0 <= i < SEND_LANES implies (
        #[trigger] result.0.lanes()[i]).spec_capacity() == TokioMpscChannelCapacity::Bounded(
            capacity,
        ) && are_ends_of_one_lane(result.0.lanes()[i], result.1.lanes()[i]) by {
            assert(has_lane(SEND_LANES as nat, i));
        }
        result
    }

    /// Create a new unbounded mpsc multilane actor channel.
    pub fn new_all_unbounded(router: R) -> (result: (
        Self,
        TokioMpscMultilaneActorMailbox<SEND_LANES, T>,
    ))
        ensures
            result.0.spec_router() == router,
            result.0.lanes().len() == SEND_LANES,
            result.1.lanes().len() == SEND_LANES,
            forall|i: int|
                0 <= i < SEND_LANES ==> (#[trigger] result.0.lanes()[i]).spec_capacity()
                    == TokioMpscChannelCapacity::Unbounded && are_ends_of_one_lane(
                    result.0.lanes()[i],
                    result.1.lanes()[i],
                ),
    {
        let lane_builder = |router: &R, lane: usize| -> (channel: TokioMpscChannel<T>)
            ensures
                channel.spec_capacity() == TokioMpscChannelCapacity::Unbounded,
                channel.is_one_lane(),
            { TokioMpscChannel::new_unbounded() };
        let result = Self::build_with(lane_builder, router);
        assert forall|i: int| 0 <= i < SEND_LANES implies (
        #[trigger] result.0.lanes()[i]).spec_capacity() == TokioMpscChannelCapacity::Unbounded
            && are_ends_of_one_lane(result.0.lanes()[i], result.1.lanes()[i]) by {
            assert(has_lane(SEND_LANES as nat, i));
        }
        result
    }

    /// Create the channel with the given options.
    pub fn create(options: TokioMpscChannelOptions<R>) -> (result: (
        Self,
        TokioMpscMultilaneActorMailbox<SEND_LANES, T>,
    ))
        requires
            options.capacity.is_valid(),
        ensures
            result.0.spec_router() == options.router,
            result.0.lanes().len() == SEND_LANES,
            result.1.lanes().len() == SEND_LANES,
            forall|i: int|
                0 <= i < SEND_LANES ==> (#[trigger] result.0.lanes()[i]).spec_capacity()
                    == options.capacity && are_ends_of_one_lane(
                    result.0.lanes()[i],
                    result.1.lanes()[i],
                ),
    {
        match options.capacity {
            TokioMpscChannelCapacity::Bounded(capacity) => Self::new_all_bounded(
                capacity,
                options.router,
            ),
            TokioMpscChannelCapacity::Unbounded => Self::new_all_unbounded(options.router),
        }
    }
}

impl<T, R: Default> TokioMpscMultiLineActorChannel<1, T, R> {
    /// Create a new single-lane bounded mpsc actor channel with the given
    /// capacity.
    pub fn new_bounded(capacity: usize) -> (result: (Self, TokioMpscMultilaneActorMailbox<1, T>))
        requires
            is_capacity(capacity),
        ensures
            result.0.lanes().len() == 1,
            result.0.lanes()[0].spec_capacity() == TokioMpscChannelCapacity::Bounded(capacity),
            result.1.lanes().len() == 1,
            are_ends_of_one_lane(result.0.lanes()[0], result.1.lanes()[0]),
            call_ensures(R::default, (), result.0.spec_router()),
    {
        Self::new_all_bounded(capacity, R::default())
    }

    /// Create a new single-lane unbounded mpsc actor channel.
    pub fn new_unbounded() -> (result: (Self, TokioMpscMultilaneActorMailbox<1, T>))
        ensures
            result.0.lanes().len() == 1,
            result.0.lanes()[0].spec_capacity() == TokioMpscChannelCapacity::Unbounded,
            result.1.lanes().len() == 1,
            are_ends_of_one_lane(result.0.lanes()[0], result.1.lanes()[0]),
            call_ensures(R::default, (), result.0.spec_router()),
    {
        Self::new_all_unbounded(R::default())
    }
}

/// What the sender of a message is told of what became of it.
pub open spec fn outcome_result<T>(outcome: SendOutcome<T>) -> Result<(), ActorChannelSendError> {
    match outcome {
        SendOutcome::Sent => Ok(()),
        SendOutcome::Full(_) => Err(ActorChannelSendError::MailboxFull),
        SendOutcome::Closed(_) => Err(ActorChannelSendError::ActorDead),
    }
}

/// What the sender of a message is told of what became of it.
pub fn report_outcome<T>(outcome: SendOutcome<T>) -> (result: Result<(), ActorChannelSendError>)
    ensures
        result == outcome_result(outcome),
{
    match outcome {
        SendOutcome::Sent => Ok(()),
        SendOutcome::Full(_) => Err(ActorChannelSendError::MailboxFull),
        SendOutcome::Closed(_) => Err(ActorChannelSendError::ActorDead),
    }
}

impl<
    'm,
    const SEND_LANES: usize,
    P,
    S,
    H,
    R: ActorMessagePriorityRouter<DispatchedActorMessage<'m, P, S, H>>,
> TokioMpscMultiLineActorChannel<SEND_LANES, DispatchedActorMessage<'m, P, S, H>, R> {
    /// The lane with the given number, where the channel has it.
    pub open spec fn lane_at(self, lane: usize) -> Option<
        TokioMpscSender<DispatchedActorMessage<'m, P, S, H>>,
    > {
        if lane < self.lanes().len() {
            Some(self.lanes()[lane as int])
        } else {
            None
        }
    }

    /// Prepare sending a message through this channel: it goes to the lane that
    /// the router gives it.
    pub fn prepare_send(&self, message: DispatchedActorMessage<'m, P, S, H>) -> (sendable:
        TokioMpscChannelSendable<'_, 'm, P, S, H>)
        ensures
            exists|lane: usize|
                call_ensures(R::priority, (&self.spec_router(), &message), lane) && sendable.lane()
                    == #[trigger] self.lane_at(lane),
            exists|lane: usize| #[trigger]
                call_ensures(R::priority, (&self.spec_router(), &message), lane) && (lane
                    < SEND_LANES ==> sendable.lane() == Some(self.lanes()[lane as int])) && (lane
                    >= SEND_LANES ==> sendable.lane() is None),
            self.lanes().len() == SEND_LANES,
            sendable.spec_message() == message,
    {
        proof {
            use_type_invariant(self);
        }
        let lane: usize = self.router.priority(&message);
        let sender = if lane < self.sender.len() {
            Some(&self.sender[lane])
        } else {
            None
        };
        let sendable = TokioMpscChannelSendable { sender, message };
        assert(sendable.lane() == self.lane_at(lane));
        sendable
    }
}

impl<
    'c,
    'm,
    const SEND_LANES: usize,
    P: 'c,
    S: 'c,
    H: 'c,
    R: ActorMessagePriorityRouter<DispatchedActorMessage<'m, P, S, H>>,
> ActorChannel<'c, DispatchedActorMessage<'m, P, S, H>> for TokioMpscMultiLineActorChannel<
    SEND_LANES,
    DispatchedActorMessage<'m, P, S, H>,
    R,
> where 'm: 'c {
    type Sendable = TokioMpscChannelSendable<'c, 'm, P, S, H>;

    fn prepare_send(&'c self, message: DispatchedActorMessage<'m, P, S, H>) -> (sendable:
        TokioMpscChannelSendable<'c, 'm, P, S, H>)
        ensures
            exists|lane: usize|
                call_ensures(R::priority, (&self.spec_router(), &message), lane) && sendable.lane()
                    == #[trigger] self.lane_at(lane),
            exists|lane: usize| #[trigger]
                call_ensures(R::priority, (&self.spec_router(), &message), lane) && (lane
                    < SEND_LANES ==> sendable.lane() == Some(self.lanes()[lane as int])) && (lane
                    >= SEND_LANES ==> sendable.lane() is None),
            self.lanes().len() == SEND_LANES,
            sendable.spec_message() == message,
    {
        TokioMpscMultiLineActorChannel::prepare_send(self, message)
    }
}

/// A prepared, not-yet-sent message for a [`TokioMpscMultiLineActorChannel`].
#[verifier::reject_recursive_types(P)]
#[verifier::reject_recursive_types(S)]
#[verifier::reject_recursive_types(H)]
#[derive(Debug)]
pub struct TokioMpscChannelSendable<'a, 'm, P, S, H> {
    sender: Option<&'a TokioMpscSender<DispatchedActorMessage<'m, P, S, H>>>,
    message: DispatchedActorMessage<'m, P, S, H>,
}

impl<'a, 'm, P, S, H> TokioMpscChannelSendable<'a, 'm, P, S, H> {
    /// The lane the message goes to.
    pub closed spec fn lane(self) -> Option<
        TokioMpscSender<DispatchedActorMessage<'m, P, S, H>>,
    > {
        match self.sender {
            Some(sender) => Some(*sender),
            None => None,
        }
    }

    /// The message.
    pub closed spec fn spec_message(self) -> DispatchedActorMessage<'m, P, S, H> {
        self.message
    }

    /// The error that a message meets before it is handed to any lane: the
    /// channel transports messages across threads, so the envelope must be
    /// sendable; and there must be a lane for it.
    pub open spec fn refusal(self) -> Option<ActorChannelSendError> {
        if !self.spec_message().spec_envelope().spec_is_sendable() {
            Some(ActorChannelSendError::NotSendable)
        } else if self.lane() is None {
            Some(ActorChannelSendError::Unroutable)
        } else {
            None
        }
    }

    /// The lane and the message to hand to it, unless the message is refused.
    pub fn route(self) -> (result: Result<
        (
            &'a TokioMpscSender<DispatchedActorMessage<'m, P, S, H>>,
            DispatchedActorMessage<'m, P, S, H>,
        ),
        ActorChannelSendError,
    >)
        ensures
            match result {
                Ok(parts) => self.refusal() is None && Some(*parts.0) == self.lane() && parts.1
                    == self.spec_message(),
                Err(error) => self.refusal() == Some(error),
            },
    {
        if !self.message.envelope().is_sendable() {
            return Err(ActorChannelSendError::NotSendable);
        }
        match self.sender {
            Some(sender) => Ok((sender, self.message)),
            None => Err(ActorChannelSendError::Unroutable),
        }
    }

    /// Send the message without waiting: it fails immediately if the lane has no
    /// room.
    pub fn try_send(self) -> (result: Result<(), ActorChannelSendError>)
        ensures
            self.refusal() matches Some(error) ==> result == Err::<(), ActorChannelSendError>(error),
            self.refusal() is None ==> (result is Ok || result == Err::<(), ActorChannelSendError>(
                ActorChannelSendError::ActorDead,
            ) || (result == Err::<(), ActorChannelSendError>(ActorChannelSendError::MailboxFull)
                && self.lane()->0 is Bounded)),
            self.refusal() is None ==> exists|
                outcome: SendOutcome<DispatchedActorMessage<'m, P, S, H>>,
            | #[trigger]
                lane_returned(self.lane()->0, self.spec_message(), outcome) && result
                    == outcome_result(outcome),
    {
        match self.route() {
            Ok((TokioMpscSender::Bounded(sender), message)) => {
                let outcome = mpsc_try_send(sender.sender(), message);
                assert(lane_returned(self.lane()->0, self.spec_message(), outcome));
                report_outcome(outcome)
            },
            Ok((TokioMpscSender::Unbounded(sender), message)) => {
                let outcome = mpsc_unbounded_send(sender, message);
                assert(lane_returned(self.lane()->0, self.spec_message(), outcome));
                report_outcome(outcome)
            },
            Err(error) => Err(error),
        }
    }
}

impl<'a, 'm, P, S, H> ActorChannelSendable for TokioMpscChannelSendable<'a, 'm, P, S, H> {
    fn try_send(self) -> (result: Result<(), ActorChannelSendError>)
        ensures
            self.refusal() matches Some(error) ==> result == Err::<(), ActorChannelSendError>(error),
            self.refusal() is None ==> exists|
                outcome: SendOutcome<DispatchedActorMessage<'m, P, S, H>>,
            | #[trigger]
                lane_returned(self.lane()->0, self.spec_message(), outcome) && result
                    == outcome_result(outcome),
    {
        TokioMpscChannelSendable::try_send(self)
    }
}

impl<const SEND_LANES: usize, T> TokioMpscMultilaneActorMailbox<SEND_LANES, T> {
    /// The receiving ends of the lanes.
    pub closed spec fn lanes(self) -> Seq<TokioMpscReceiver<T>> {
        self.receiver@
    }

    /// The receiving ends of the lanes, to be polled from lane `0` up.
    pub fn receivers_mut(&mut self) -> (receivers: &mut Vec<TokioMpscReceiver<T>>)
        ensures
            receivers@ == old(self).lanes(),
            final(self).lanes() == final(receivers)@,
    {
        &mut self.receiver
    }

    /// Look for a message without waiting, in the lanes from `0` up. The first
    /// lane that has something, a message or its end, decides; the lanes behind
    /// it are not touched.
    pub fn try_receive(&mut self) -> (found: LanePoll<T>)
        ensures
            old(self).lanes().len() == 0 ==> found is Pending,
            final(self).lanes().len() == old(self).lanes().len(),
            forall|i: int|
                0 <= i < old(self).lanes().len() ==> ((
                #[trigger] final(self).lanes()[i]) is Bounded <==> old(
                    self,
                ).lanes()[i] is Bounded),
            old(self).lanes().len() > 0 ==> exists|last: int| #[trigger]
                ends_at(found, last, old(self).lanes().len()) && forall|i: int| #[trigger]
                    has_lane(old(self).lanes().len(), i) ==> {
                        let after = final(self).lanes()[i];
                        &&& i <= last ==> exists|lane: &mut TokioMpscReceiver<T>|
                            #[trigger] call_ensures(
                                TokioMpscReceiver::<T>::try_receive,
                                (lane,),
                                met_at(found, last, i),
                            ) && *lane == old(self).lanes()[i] && *final(lane) == after
                        &&& i > last ==> after == old(self).lanes()[i]
                    },
    {
        let lanes: usize = self.receiver.len();
        let mut lane: usize = 0;
        while lane < lanes
            invariant
                lane <= lanes,
                lanes == self.receiver.len(),
                lanes == old(self).lanes().len(),
                lanes > 0 ==> lane < lanes,
                forall|i: int|
                    #![trigger has_lane(old(self).lanes().len(), i)]
                    #![trigger self.lanes()[i]]
                    has_lane(old(self).lanes().len(), i) ==> {
                        let after = self.lanes()[i];
                        &&& after is Bounded <==> old(self).lanes()[i] is Bounded
                        &&& i < lane ==> exists|polled: &mut TokioMpscReceiver<T>|
                            #[trigger] call_ensures(
                                TokioMpscReceiver::<T>::try_receive,
                                (polled,),
                                LanePoll::Pending,
                            ) && *polled == old(self).lanes()[i] && *final(polled) == after
                        &&& i >= lane ==> after == old(self).lanes()[i]
                    },
            decreases lanes - lane,
        {
            let ghost before = self.lanes();
            let found = self.receiver[lane].try_receive();
            assert(exists|polled: &mut TokioMpscReceiver<T>|
                #[trigger] call_ensures(TokioMpscReceiver::<T>::try_receive, (polled,), found)
                    && *polled == before[lane as int] && *final(polled)
                    == self.lanes()[lane as int]);
            assert(self.lanes() =~= before.update(lane as int, self.lanes()[lane as int]));
            assert forall|i: int| 0 <= i < lanes && i != lane implies (#[trigger] self.lanes()[i])
                == before[i] by {}
            match select_biased(lane, lanes, found) {
                SelectStep::Yield(message) => {
                    assert(ends_at(LanePoll::Ready(message), lane as int, lanes as nat));
                    return LanePoll::Ready(message);
                },
                SelectStep::TryLane(next) => {
                    lane = next;
                },
                SelectStep::Pending => {
                    assert(ends_at(LanePoll::<T>::Pending, lane as int, lanes as nat));
                    return LanePoll::Pending;
                },
            }
        }
        LanePoll::Pending
    }
}

impl<const SEND_LANES: usize, T> ActorMailbox for TokioMpscMultilaneActorMailbox<SEND_LANES, T> {
    type Message = T;

    fn try_receive(&mut self) -> (found: LanePoll<T>)
        ensures
            exists|mailbox: &mut TokioMpscMultilaneActorMailbox<SEND_LANES, T>|
                #[trigger] call_ensures(
                    TokioMpscMultilaneActorMailbox::<SEND_LANES, T>::try_receive,
                    (mailbox,),
                    found,
                ) && *mailbox == *old(self) && *final(mailbox) == *final(self),
    {
        TokioMpscMultilaneActorMailbox::try_receive(self)
    }
}

/// A message goes to the lane that its router names: of all the senders that the
/// channel was made of, to the one with that number, for every number that there is
/// a lane for. It is refused where there is none, and where the message or, for an
/// ask, its answer sender may not cross threads, which comes first.
pub proof fn messages_go_to_the_lane_their_router_names<
    'a,
    'm,
    const SEND_LANES: usize,
    P,
    S,
    H,
    R: ActorMessagePriorityRouter<DispatchedActorMessage<'m, P, S, H>>,
>(
    senders: Vec<TokioMpscSender<DispatchedActorMessage<'m, P, S, H>>>,
    router: R,
    channel: TokioMpscMultiLineActorChannel<SEND_LANES, DispatchedActorMessage<'m, P, S, H>, R>,
    message: DispatchedActorMessage<'m, P, S, H>,
    sendable: TokioMpscChannelSendable<'a, 'm, P, S, H>,
    result: Result<
        (
            &'a TokioMpscSender<DispatchedActorMessage<'m, P, S, H>>,
            DispatchedActorMessage<'m, P, S, H>,
        ),
        ActorChannelSendError,
    >,
)
    requires
        call_ensures(
            TokioMpscMultiLineActorChannel::<
                SEND_LANES,
                DispatchedActorMessage<'m, P, S, H>,
                R,
            >::new,
            (senders, router),
            channel,
        ),
        call_ensures(
            TokioMpscMultiLineActorChannel::<
                SEND_LANES,
                DispatchedActorMessage<'m, P, S, H>,
                R,
            >::prepare_send,
            (&channel, message),
            sendable,
        ),
        call_ensures(TokioMpscChannelSendable::<'a, 'm, P, S, H>::route, (sendable,), result),
    ensures
        exists|lane: usize| #[trigger]
            call_ensures(R::priority, (&router, &message), lane) && ({
                let rtti = message.spec_envelope().spec_rtti();
                let may_cross = rtti.spec_is_send() && (message.spec_envelope().spec_ty()
                    == EnvelopeType::Ask ==> rtti.spec_is_answer_sender_send());
                &&& result is Ok <==> may_cross && lane < SEND_LANES
                &&& result matches Ok(parts) ==> *parts.0 == senders@[lane as int] && parts.1
                    == message
                &&& result matches Err(error) ==> error == if may_cross {
                    ActorChannelSendError::Unroutable
                } else {
                    ActorChannelSendError::NotSendable
                }
            }),
{
}

/// Lower lane numbers come first: what a look into the mailbox finds comes from a
/// lane before which every lane was looked into in vain, and every lane behind it is
/// left as it was. Nothing is found only where every lane was looked into in vain.
/// Each lane is looked into once at most.
pub proof fn lower_lanes_are_drained_first<const SEND_LANES: usize, T>(
    before: TokioMpscMultilaneActorMailbox<SEND_LANES, T>,
    after: TokioMpscMultilaneActorMailbox<SEND_LANES, T>,
    found: LanePoll<T>,
    i: int,
)
    requires
        exists|mailbox: &mut TokioMpscMultilaneActorMailbox<SEND_LANES, T>|
            #[trigger] call_ensures(
                TokioMpscMultilaneActorMailbox::<SEND_LANES, T>::try_receive,
                (mailbox,),
                found,
            ) && *mailbox == before && *final(mailbox) == after,
        0 <= i < before.lanes().len(),
    ensures
        after.lanes().len() == before.lanes().len(),
        exists|from: int|
            {
                &&& #[trigger] stops_at(before.lanes().len(), from)
                &&& 0 <= from <= before.lanes().len()
                &&& found is Pending <==> from == before.lanes().len()
                &&& i < from ==> exists|lane: &mut TokioMpscReceiver<T>|
                    #[trigger] call_ensures(
                        TokioMpscReceiver::<T>::try_receive,
                        (lane,),
                        LanePoll::Pending,
                    ) && *lane == before.lanes()[i] && *final(lane) == after.lanes()[i]
                &&& found is Ready ==> exists|lane: &mut TokioMpscReceiver<T>|
                    #[trigger] call_ensures(
                        TokioMpscReceiver::<T>::try_receive,
                        (lane,),
                        found,
                    ) && *lane == before.lanes()[from] && *final(lane) == after.lanes()[from]
                &&& i > from ==> after.lanes()[i] == before.lanes()[i]
            },
{
    let lanes = before.lanes().len();
    let last = choose|last: int| #[trigger]
        ends_at(found, last, lanes) && forall|i: int| #[trigger]
            has_lane(lanes, i) ==> {
                let left = after.lanes()[i];
                &&& i <= last ==> exists|lane: &mut TokioMpscReceiver<T>|
                    #[trigger] call_ensures(
                        TokioMpscReceiver::<T>::try_receive,
                        (lane,),
                        met_at(found, last, i),
                    ) && *lane == before.lanes()[i] && *final(lane) == left
                &&& i > last ==> left == before.lanes()[i]
            };
    assert(has_lane(lanes, i));
    assert(has_lane(lanes, last));
    assert(stops_at(before.lanes().len(), last) && stops_at(before.lanes().len(), lanes as int));
}

/// The sender is told what became of its message: that it was sent where its lane
/// took it, that the mailbox is full where the lane had no room for it, and that the
/// actor is dead where the lane was closed. It was this message, and no other lane.
pub proof fn senders_are_told_what_became_of_their_message<'a, 'm, P, S, H>(
    sendable: TokioMpscChannelSendable<'a, 'm, P, S, H>,
    result: Result<(), ActorChannelSendError>,
)
    requires
        call_ensures(TokioMpscChannelSendable::<'a, 'm, P, S, H>::try_send, (sendable,), result),
        sendable.lane() is Some,
        sendable.spec_message().spec_envelope().spec_rtti().spec_is_send(),
        sendable.spec_message().spec_envelope().spec_ty() == EnvelopeType::Ask
            ==> sendable.spec_message().spec_envelope().spec_rtti().spec_is_answer_sender_send(),
    ensures
        sendable.lane()->0 matches TokioMpscSender::Bounded(lane) ==> exists|
            outcome: SendOutcome<DispatchedActorMessage<'m, P, S, H>>,
        |
            {
                &&& #[trigger] try_send_returned(
                    lane.spec_sender(),
                    sendable.spec_message(),
                    outcome,
                )
                &&& outcome is Sent <==> result is Ok
                &&& outcome is Full <==> result == Err::<(), ActorChannelSendError>(
                    ActorChannelSendError::MailboxFull,
                )
                &&& outcome is Closed <==> result == Err::<(), ActorChannelSendError>(
                    ActorChannelSendError::ActorDead,
                )
            },
        sendable.lane()->0 matches TokioMpscSender::Unbounded(lane) ==> exists|
            outcome: SendOutcome<DispatchedActorMessage<'m, P, S, H>>,
        |
            {
                &&& #[trigger] unbounded_send_returned(lane, sendable.spec_message(), outcome)
                &&& outcome is Sent <==> result is Ok
                &&& outcome is Closed <==> result == Err::<(), ActorChannelSendError>(
                    ActorChannelSendError::ActorDead,
                )
                &&& result != Err::<(), ActorChannelSendError>(ActorChannelSendError::MailboxFull)
            },
{
}

/// A message that is not sendable, or that there is no lane for, reaches no lane, and
/// its sender is told which of the two it was.
pub proof fn refused_messages_are_told_why<'a, 'm, P, S, H>(
    sendable: TokioMpscChannelSendable<'a, 'm, P, S, H>,
    result: Result<(), ActorChannelSendError>,
)
    requires
        call_ensures(TokioMpscChannelSendable::<'a, 'm, P, S, H>::try_send, (sendable,), result),
    ensures
        ({
            let envelope = sendable.spec_message().spec_envelope();
            let may_cross = envelope.spec_rtti().spec_is_send() && (envelope.spec_ty()
                == EnvelopeType::Ask ==> envelope.spec_rtti().spec_is_answer_sender_send());
            &&& result == Err::<(), ActorChannelSendError>(ActorChannelSendError::NotSendable)
                <==> !may_cross
            &&& result == Err::<(), ActorChannelSendError>(ActorChannelSendError::Unroutable)
                <==> may_cross && sendable.lane() is None
        }),
{
}

/// Every lane of a channel has the capacity that was asked for, and its own receiving
/// end behind it in the mailbox, under the same number.
pub proof fn every_lane_is_made_as_asked_for<const SEND_LANES: usize, T, R>(
    options: TokioMpscChannelOptions<R>,
    channel: TokioMpscMultiLineActorChannel<SEND_LANES, T, R>,
    mailbox: TokioMpscMultilaneActorMailbox<SEND_LANES, T>,
    lane: usize,
    capacity: TokioMpscChannelCapacity,
)
    requires
        call_ensures(
            TokioMpscMultiLineActorChannel::<SEND_LANES, T, R>::create,
            (options,),
            (channel, mailbox),
        ),
        lane < SEND_LANES,
        call_ensures(TokioMpscSender::<T>::capacity, (&channel.lanes()[lane as int],), capacity),
    ensures
        channel.lanes().len() == SEND_LANES && mailbox.lanes().len() == SEND_LANES,
        capacity == options.capacity,
        match options.capacity {
            TokioMpscChannelCapacity::Bounded(room) => {
                &&& channel.lanes()[lane as int] matches TokioMpscSender::Bounded(sender)
                &&& mailbox.lanes()[lane as int] matches TokioMpscReceiver::Bounded(receiver)
                &&& bounded_made_together(room, sender.spec_sender(), receiver)
            },
            TokioMpscChannelCapacity::Unbounded => {
                &&& channel.lanes()[lane as int] matches TokioMpscSender::Unbounded(sender)
                &&& mailbox.lanes()[lane as int] matches TokioMpscReceiver::Unbounded(receiver)
                &&& made_together(sender, receiver)
            },
        },
{
}

/// The lanes of a channel are tokio's: the two ends of a bounded one are those of one
/// [`mpsc::channel`] of the room that was asked for, the two ends of an unbounded one
/// those of one [`mpsc::unbounded_channel`].
proof fn lanes_are_made_by_tokio<T>(
    capacity: usize,
    bounded: TokioMpscChannel<T>,
    unbounded: TokioMpscChannel<T>,
    existing: mpsc::Sender<T>,
    lane: BoundedSender<T>,
)
    requires
        call_ensures(TokioMpscChannel::<T>::new_bounded, (capacity,), bounded),
        call_ensures(TokioMpscChannel::<T>::new_unbounded, (), unbounded),
        call_ensures(BoundedSender::<T>::new, (existing,), lane),
    ensures
        bounded matches TokioMpscChannel::Bounded(sender, receiver) && call_ensures(
            mpsc_channel::<T>,
            (capacity,),
            (sender.spec_sender(), receiver, capacity),
        ) && sender.spec_capacity() == capacity,
        unbounded matches TokioMpscChannel::Unbounded(sender, receiver) && call_ensures(
            mpsc_unbounded_channel::<T>,
            (),
            (sender, receiver),
        ),
        lane.spec_sender() == existing,
        call_ensures(mpsc_max_capacity::<T>, (&existing,), lane.spec_capacity()),
{
}

/// A message that is not refused is handed to tokio, with its lane: what the sender is
/// told is what [`mpsc::Sender::try_send`] or [`mpsc::UnboundedSender::send`] made of
/// that message.
proof fn sent_messages_are_handed_to_tokio<'a, 'm, P, S, H>(
    sendable: TokioMpscChannelSendable<'a, 'm, P, S, H>,
    result: Result<(), ActorChannelSendError>,
)
    requires
        call_ensures(TokioMpscChannelSendable::<'a, 'm, P, S, H>::try_send, (sendable,), result),
        sendable.lane() is Some,
        sendable.spec_message().spec_envelope().spec_rtti().spec_is_send(),
        sendable.spec_message().spec_envelope().spec_ty() == EnvelopeType::Ask
            ==> sendable.spec_message().spec_envelope().spec_rtti().spec_is_answer_sender_send(),
    ensures
        sendable.lane()->0 matches TokioMpscSender::Bounded(lane) ==> exists|
            outcome: SendOutcome<DispatchedActorMessage<'m, P, S, H>>,
        |
            #[trigger] call_ensures(
                mpsc_try_send::<DispatchedActorMessage<'m, P, S, H>>,
                (&lane.spec_sender(), sendable.spec_message()),
                outcome,
            ) && (outcome is Sent <==> result is Ok),
        sendable.lane()->0 matches TokioMpscSender::Unbounded(lane) ==> exists|
            outcome: SendOutcome<DispatchedActorMessage<'m, P, S, H>>,
        |
            #[trigger] call_ensures(
                mpsc_unbounded_send::<DispatchedActorMessage<'m, P, S, H>>,
                (&lane, sendable.spec_message()),
                outcome,
            ) && (outcome is Sent <==> result is Ok),
{
    senders_are_told_what_became_of_their_message(sendable, result);
}

/// A look into a lane is a look of tokio's: what is found is what
/// [`mpsc::Receiver::try_recv`] or [`mpsc::UnboundedReceiver::try_recv`] found there.
proof fn found_messages_come_from_tokio<T>(
    before: TokioMpscReceiver<T>,
    after: TokioMpscReceiver<T>,
    found: LanePoll<T>,
)
    requires
        exists|lane: &mut TokioMpscReceiver<T>|
            #[trigger] call_ensures(TokioMpscReceiver::<T>::try_receive, (lane,), found) && *lane
                == before && *final(lane) == after,
    ensures
        before is Bounded ==> exists|receiver: &mut mpsc::Receiver<T>|
            #[trigger] call_ensures(mpsc_try_recv::<T>, (receiver,), found) && before
                == TokioMpscReceiver::Bounded(*receiver) && after == TokioMpscReceiver::Bounded(
                *final(receiver),
            ),
        before is Unbounded ==> exists|receiver: &mut mpsc::UnboundedReceiver<T>|
            #[trigger] call_ensures(mpsc_unbounded_try_recv::<T>, (receiver,), found) && before
                == TokioMpscReceiver::Unbounded(*receiver) && after
                == TokioMpscReceiver::Unbounded(*final(receiver)),
{
}

/// A single-lane channel has one lane with the room that was asked for, and the mailbox
/// its receiving end.
pub proof fn single_lanes_are_made_as_asked_for<T, R: Default>(
    capacity: usize,
    bounded: (
        TokioMpscMultiLineActorChannel<1, T, R>,
        TokioMpscMultilaneActorMailbox<1, T>,
    ),
    unbounded: (
        TokioMpscMultiLineActorChannel<1, T, R>,
        TokioMpscMultilaneActorMailbox<1, T>,
    ),
)
    requires
        call_ensures(
            TokioMpscMultiLineActorChannel::<1, T, R>::new_bounded,
            (capacity,),
            bounded,
        ),
        call_ensures(TokioMpscMultiLineActorChannel::<1, T, R>::new_unbounded, (), unbounded),
    ensures
        bounded.0.lanes().len() == 1 && bounded.1.lanes().len() == 1,
        bounded.0.lanes()[0] matches TokioMpscSender::Bounded(sender) && (
        bounded.1.lanes()[0] matches TokioMpscReceiver::Bounded(receiver)
            && bounded_made_together(capacity, sender.spec_sender(), receiver)
            && sender.spec_capacity() == capacity),
        unbounded.0.lanes().len() == 1 && unbounded.1.lanes().len() == 1,
        unbounded.0.lanes()[0] matches TokioMpscSender::Unbounded(sender) && (
        unbounded.1.lanes()[0] matches TokioMpscReceiver::Unbounded(receiver) && made_together(
            sender,
            receiver,
        )),
{
}

} // verus!
