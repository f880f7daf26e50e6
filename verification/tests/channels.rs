//! Multi-lane channels over tokio and kanal, and answer channels.
use factories_actor::actor::channel::{ActorChannel, ActorChannelSendError, ActorMailbox};
use factories_actor::actor::dispatch::{ActorMessageDispatcher, DispatchedActorMessage};
use factories_actor::actor::protocol::dispatched;
use factories_actor::message::channel::{answer_channel, AnswerPoll, AnswerReceiver, AnswerSender};
use factories_actor::message::rtti::{BasicTypeRtti, MessageRtti};
use factories_actor::runtime::kanal_backend::channel::{
    KanalActorChannel, KanalActorChannelCapacity, KanalActorChannelOptions,
    KanalActorChannelSender,
};
use factories_actor::runtime::routing::{
    select_biased, ActorMessagePriorityRouter, LanePoll, NoPriorityRouter, SelectStep,
};
use factories_actor::runtime::standard::channel::StandardChannel;
use factories_actor::runtime::tokio_backend::channel::{
    report_outcome, BoundedSender, SendOutcome, TokioMpscChannel, TokioMpscChannelCapacity,
    TokioMpscChannelOptions, TokioMpscMultiLineActorChannel, TokioMpscReceiver, TokioMpscSender,
};

type Dispatched = DispatchedActorMessage<'static, u32, AnswerSender<u32>, ()>;

fn message(identity: usize, name: &'static str, send: bool) -> &'static MessageRtti {
    let info = BasicTypeRtti::new::<u32>();
    let sender = BasicTypeRtti::new::<AnswerSender<u32>>();
    Box::leak(Box::new(MessageRtti::new_named(
        identity, name, info, true, send, true, sender,
    )))
}

fn control() -> &'static MessageRtti {
    message(8, "Control", true)
}

fn data() -> &'static MessageRtti {
    message(16, "Data", true)
}

fn homebound() -> &'static MessageRtti {
    message(24, "Homebound", false)
}

fn of(rtti: &'static MessageRtti) -> Dispatched {
    dispatched(ActorMessageDispatcher::new(()), rtti, 0, None)
}

#[derive(Default, Clone, Copy, Debug)]
struct ControlFirstRouter;

impl ActorMessagePriorityRouter<Dispatched> for ControlFirstRouter {
    fn priority(&self, dispatched: &Dispatched) -> usize {
        if dispatched.envelope().rtti() == control() {
            0
        } else {
            1
        }
    }
}

fn received(found: LanePoll<Dispatched>) -> &'static MessageRtti {
    match found {
        LanePoll::Ready(Some(message)) => message.envelope().rtti(),
        other => panic!("expected a message, got {other:?}"),
    }
}

#[test]
fn priority_lane_drains_before_lower_lane() {
    let (channel, mut mailbox) =
        TokioMpscMultiLineActorChannel::<2, _, _>::new_all_bounded(8, ControlFirstRouter);

    // Data (lane 1) is enqueued first.
    channel.prepare_send(of(data())).try_send().unwrap();

    // Control (lane 0) is enqueued second, but must come out first.
    channel.prepare_send(of(control())).try_send().unwrap();

    assert_eq!(received(mailbox.try_receive()), control(), "lane 0 must win");
    assert_eq!(received(mailbox.try_receive()), data());
}

#[test]
fn single_lane_is_fifo() {
    let (channel, mut mailbox) =
        TokioMpscMultiLineActorChannel::<1, Dispatched, NoPriorityRouter>::new_bounded(8);

    channel.prepare_send(of(data())).try_send().unwrap();
    channel.prepare_send(of(control())).try_send().unwrap();

    assert_eq!(received(mailbox.try_receive()), data());
    assert_eq!(received(mailbox.try_receive()), control());
}

#[test]
fn per_lane_backpressure() {
    let (channel, _mailbox) =
        TokioMpscMultiLineActorChannel::<2, _, _>::new_all_bounded(1, ControlFirstRouter);

    channel.prepare_send(of(data())).try_send().unwrap();
    match channel.prepare_send(of(data())).try_send() {
        Err(ActorChannelSendError::MailboxFull) => {}
        other => panic!("expected MailboxFull, got {other:?}"),
    }

    channel.prepare_send(of(control())).try_send().unwrap();
}

#[derive(Default)]
struct AlwaysLaneFive;

impl ActorMessagePriorityRouter<Dispatched> for AlwaysLaneFive {
    fn priority(&self, _: &Dispatched) -> usize {
        5
    }
}

#[test]
fn out_of_range_lane_is_unroutable() {
    let (channel, _mailbox) =
        TokioMpscMultiLineActorChannel::<2, _, _>::new_all_bounded(1, AlwaysLaneFive);

    match channel.prepare_send(of(data())).try_send() {
        Err(ActorChannelSendError::Unroutable) => {}
        other => panic!("expected Unroutable, got {other:?}"),
    }
}

#[test]
fn receive_is_cancel_safe() {
    let (channel, mut mailbox) =
        TokioMpscMultiLineActorChannel::<2, _, _>::new_all_bounded(8, ControlFirstRouter);

    assert!(matches!(mailbox.try_receive(), LanePoll::Pending));

    channel.prepare_send(of(control())).try_send().unwrap();
    assert_eq!(received(mailbox.try_receive()), control());
}

#[test]
fn unbounded_lanes_always_have_room() {
    let (channel, mut mailbox) =
        TokioMpscMultiLineActorChannel::<1, Dispatched, NoPriorityRouter>::new_unbounded();
    for _ in 0..200 {
        channel.prepare_send(of(data())).try_send().unwrap();
    }
    for _ in 0..200 {
        assert_eq!(received(mailbox.try_receive()), data());
    }
    assert!(matches!(mailbox.try_receive(), LanePoll::Pending));
    drop(channel);
    assert!(matches!(mailbox.try_receive(), LanePoll::Ready(None)));
}

#[test]
fn dead_actors_take_nothing() {
    let (channel, mailbox) =
        TokioMpscMultiLineActorChannel::<1, Dispatched, NoPriorityRouter>::new_bounded(1);
    drop(mailbox);
    assert_eq!(
        channel.prepare_send(of(data())).try_send(),
        Err(ActorChannelSendError::ActorDead)
    );
    let (channel, mailbox) =
        TokioMpscMultiLineActorChannel::<1, Dispatched, NoPriorityRouter>::new_unbounded();
    drop(mailbox);
    assert_eq!(
        channel.prepare_send(of(data())).try_send(),
        Err(ActorChannelSendError::ActorDead)
    );
}

#[test]
fn homebound_messages_are_refused_first() {
    let (channel, _mailbox) =
        TokioMpscMultiLineActorChannel::<2, _, _>::new_all_bounded(1, AlwaysLaneFive);
    assert_eq!(
        channel.prepare_send(of(homebound())).route().unwrap_err(),
        ActorChannelSendError::NotSendable
    );
}

/// Routes to one fixed lane.
#[derive(Default)]
struct ToLane(usize);

impl ActorMessagePriorityRouter<Dispatched> for ToLane {
    fn priority(&self, _: &Dispatched) -> usize {
        self.0
    }
}

#[test]
fn the_number_of_lanes_bounds_the_routable_lanes() {
    for (lane, routed) in [(0, true), (1, true), (2, true), (3, false), (usize::MAX, false)] {
        let (channel, _mailbox) =
            TokioMpscMultiLineActorChannel::<3, _, _>::new_all_bounded(1, ToLane(lane));
        assert_eq!(channel.prepare_send(of(data())).route().is_ok(), routed);
        let options = KanalActorChannelOptions::<3, _>::with_default_capacity(ToLane(lane));
        let (channel, _mailbox) = KanalActorChannel::<3, Dispatched, _>::create(options);
        assert_eq!(channel.prepare_send(of(data())).route().is_ok(), routed);
    }
}

#[test]
fn lanes_are_built_one_by_one() {
    let mut built = Vec::new();
    let (channel, mut mailbox) = TokioMpscMultiLineActorChannel::<3, Dispatched, _>::build_with(
        |router: &ToLane, lane| {
            built.push((router.0, lane));
            if lane == 1 {
                TokioMpscChannel::new_unbounded()
            } else {
                TokioMpscChannel::new_bounded(lane + 5)
            }
        },
        ToLane(1),
    );
    assert_eq!(built, vec![(1, 0), (1, 1), (1, 2)]);
    let capacities: Vec<_> = channel.senders().iter().map(|sender| sender.capacity()).collect();
    assert_eq!(
        capacities,
        vec![
            TokioMpscChannelCapacity::Bounded(5),
            TokioMpscChannelCapacity::Unbounded,
            TokioMpscChannelCapacity::Bounded(7),
        ]
    );
    channel.prepare_send(of(data())).try_send().unwrap();
    assert_eq!(received(mailbox.receivers_mut()[1].try_receive()), data());

    let (sender, receiver) = kanal::bounded::<Dispatched>(2);
    let mut built = Vec::new();
    let channel = KanalActorChannel::<2, _, _>::new_with(ToLane(1), |router, lane| {
        built.push((router.0, lane));
        if lane == 1 {
            sender.clone()
        } else {
            kanal::unbounded().0
        }
    });
    assert_eq!(built, vec![(1, 0), (1, 1)]);
    assert_eq!(channel.limits(), &vec![usize::MAX, 2]);
    let (lane, message) = channel.prepare_send(of(data())).route().unwrap();
    assert!(lane.try_send(message).unwrap());
    assert_eq!(receiver.try_recv().unwrap().unwrap().envelope().rtti(), data());
}

#[test]
fn default_options() {
    let options = TokioMpscChannelOptions::<ToLane>::default();
    assert_eq!(options.capacity, TokioMpscChannelCapacity::Bounded(64));
    assert_eq!(options.router.0, 0);
    let options = KanalActorChannelOptions::<3, ToLane>::default();
    assert_eq!(options.capacity, vec![KanalActorChannelCapacity::Bounded(64); 3]);
    assert_eq!(options.router.0, 0);
    let (channel, _mailbox) =
        TokioMpscMultiLineActorChannel::<1, Dispatched, ControlFirstRouter>::new_bounded(2);
    assert_eq!(
        channel.prepare_send(of(data())).route().unwrap_err(),
        ActorChannelSendError::Unroutable
    );
    channel.prepare_send(of(control())).try_send().unwrap();
}

#[test]
fn a_kanal_lane_is_a_channel() {
    let options = KanalActorChannelOptions::with_default_capacity(AlwaysLaneFive);
    let (channel, mut mailbox) = KanalActorChannel::<2, Dispatched, _>::create(options);
    let lane = channel.sender(1);
    let copy = lane;
    for rtti in [control(), data()] {
        let (sender, message) = ActorChannel::prepare_send(&lane, of(rtti)).route().unwrap();
        assert!(sender.try_send(message).unwrap());
    }
    let (sender, message) = copy.clone().prepare_send(of(data())).route().unwrap();
    assert!(sender.try_send(message).unwrap());
    assert_eq!(mailbox.receiver(0).len(), 0);
    let next = mailbox.receiver_mut(1).try_recv().unwrap().unwrap();
    assert_eq!(next.envelope().rtti(), control());
    assert_eq!(received(ActorMailbox::try_receive(&mut mailbox)), data());
    assert_eq!(received(ActorMailbox::try_receive(&mut mailbox)), data());
}

#[test]
fn routed_message_reaches_its_lane() {
    let (channel, mut mailbox) =
        TokioMpscMultiLineActorChannel::<2, _, _>::new_all_unbounded(ControlFirstRouter);
    let (sender, message) = channel.prepare_send(of(data())).route().unwrap();
    match sender {
        TokioMpscSender::Unbounded(sender) => sender.send(message).unwrap(),
        other => panic!("expected an unbounded lane, got {other:?}"),
    }
    assert_eq!(received(mailbox.try_receive()), data());
}

#[test]
fn tokio_channels_come_with_the_capacity_asked_for() {
    assert_eq!(
        TokioMpscChannelCapacity::default(),
        TokioMpscChannelCapacity::Bounded(64)
    );
    for capacity in [
        TokioMpscChannelCapacity::Bounded(3),
        TokioMpscChannelCapacity::Unbounded,
    ] {
        let options = TokioMpscChannelOptions {
            capacity,
            router: ControlFirstRouter,
        };
        let (channel, _mailbox) =
            <TokioMpscMultiLineActorChannel<2, Dispatched, _> as StandardChannel>::create(options);
        assert_eq!(channel.senders().len(), 2);
        for sender in channel.senders() {
            assert_eq!(sender.capacity(), capacity);
        }
    }
    let (sender, _receiver) = tokio::sync::mpsc::channel::<u8>(9);
    assert_eq!(BoundedSender::new(sender).capacity(), 9);
    let (sender, _receiver) = TokioMpscChannel::<u8>::new_bounded(4).into_parts();
    assert_eq!(sender.capacity(), TokioMpscChannelCapacity::Bounded(4));
    let (sender, _receiver) = TokioMpscChannel::<u8>::new_unbounded().into_parts();
    assert_eq!(sender.capacity(), TokioMpscChannelCapacity::Unbounded);
}

#[test]
fn a_channel_over_existing_senders() {
    let (tx, mut rx) = tokio::sync::mpsc::unbounded_channel();
    let channel: TokioMpscMultiLineActorChannel<1, Dispatched, _> =
        TokioMpscMultiLineActorChannel::new(vec![TokioMpscSender::from(tx)], NoPriorityRouter);
    channel.prepare_send(of(data())).try_send().unwrap();
    assert_eq!(rx.try_recv().unwrap().envelope().rtti(), data());
    channel.prepare_send(of(control())).try_send().unwrap();
    assert_eq!(
        received(TokioMpscReceiver::from(rx).try_receive()),
        control()
    );
    let (_tx, rx) = tokio::sync::mpsc::channel::<Dispatched>(1);
    assert!(matches!(
        TokioMpscReceiver::from(rx).try_receive(),
        LanePoll::Pending
    ));
}

#[test]
fn lanes_are_paired() {
    let (channel, mut mailbox) =
        TokioMpscMultiLineActorChannel::<2, u32, NoPriorityRouter>::new_all_bounded(
            3,
            NoPriorityRouter,
        );
    for (lane, sender) in channel.senders().iter().enumerate() {
        match sender {
            TokioMpscSender::Bounded(sender) => sender.sender().try_send(lane as u32).unwrap(),
            TokioMpscSender::Unbounded(_) => panic!("expected a bounded lane"),
        }
    }
    for (lane, receiver) in mailbox.receivers_mut().iter_mut().enumerate() {
        assert_eq!(receiver.try_receive(), LanePoll::Ready(Some(lane as u32)));
        assert_eq!(receiver.try_receive(), LanePoll::Pending);
    }

    let (channel, mailbox) =
        KanalActorChannel::<3, u32, NoPriorityRouter>::create(KanalActorChannelOptions {
            router: NoPriorityRouter,
            capacity: vec![
                KanalActorChannelCapacity::Bounded(1),
                KanalActorChannelCapacity::Unbounded,
                KanalActorChannelCapacity::Bounded(2),
            ],
        });
    for lane in 0..3 {
        channel.sender(lane).sender().send(lane as u32).unwrap();
    }
    for lane in 0..3 {
        assert_eq!(mailbox.receiver(lane).try_recv().unwrap(), Some(lane as u32));
        assert_eq!(mailbox.receiver(lane).try_recv().unwrap(), None);
    }
}

#[test]
fn lanes_over_existing_senders_know_their_room() {
    let (sender, mut receiver) = tokio::sync::mpsc::channel::<u32>(7);
    let lane = TokioMpscSender::from(sender);
    assert_eq!(lane.capacity(), TokioMpscChannelCapacity::Bounded(7));
    match &lane {
        TokioMpscSender::Bounded(sender) => sender.sender().try_send(1).unwrap(),
        TokioMpscSender::Unbounded(_) => panic!("expected a bounded lane"),
    }
    assert_eq!(receiver.try_recv(), Ok(1));

    let (sender, _receiver) = kanal::bounded::<u32>(4);
    let (other, _other_receiver) = kanal::unbounded::<u32>();
    let channel =
        KanalActorChannel::<2, u32, _>::new_with(NoPriorityRouter, |_, lane| {
            if lane == 0 {
                sender.clone()
            } else {
                other.clone()
            }
        });
    assert_eq!(*channel.limits(), vec![4, usize::MAX]);
    let channel = KanalActorChannel::new_single_lane_with(NoPriorityRouter, |_| sender);
    assert_eq!(*channel.limits(), vec![4]);
}

#[test]
fn send_outcomes() {
    assert_eq!(report_outcome(SendOutcome::<u8>::Sent), Ok(()));
    assert_eq!(
        report_outcome(SendOutcome::Full(1u8)),
        Err(ActorChannelSendError::MailboxFull)
    );
    assert_eq!(
        report_outcome(SendOutcome::Closed(1u8)),
        Err(ActorChannelSendError::ActorDead)
    );
}

#[test]
fn kanal_lane_zero_is_drained_first() {
    let options = KanalActorChannelOptions::with_default_capacity(ControlFirstRouter);
    let (channel, mut mailbox) = KanalActorChannel::<2, Dispatched, _>::create(options);
    assert_eq!(channel.limits(), &vec![64, 64]);
    assert!(matches!(mailbox.try_receive(), LanePoll::Pending));
    for rtti in [data(), control()] {
        let (sender, message) = channel.prepare_send(of(rtti)).route().unwrap();
        assert!(sender.try_send(message).unwrap());
    }
    assert_eq!(received(mailbox.try_receive()), control());
    assert_eq!(received(mailbox.try_receive()), data());
    assert_eq!(mailbox.receiver(1).len(), 0);
    drop(channel);
    assert!(matches!(mailbox.try_receive(), LanePoll::Ready(None)));
}

#[test]
fn kanal_refuses_by_lane_before_sendability() {
    let options = KanalActorChannelOptions::with_default_capacity(AlwaysLaneFive);
    let (channel, _mailbox) = KanalActorChannel::<2, Dispatched, _>::create(options);
    assert_eq!(
        channel.prepare_send(of(homebound())).route().unwrap_err(),
        ActorChannelSendError::Unroutable
    );
    assert!(channel.maybe_sender(2).is_none());
    assert_eq!(
        channel
            .sender(1)
            .prepare_send(of(homebound()))
            .route()
            .unwrap_err(),
        ActorChannelSendError::NotSendable
    );
}

#[test]
fn kanal_channels_come_with_the_capacity_asked_for() {
    assert_eq!(
        KanalActorChannelCapacity::default(),
        KanalActorChannelCapacity::Bounded(64)
    );
    let options = KanalActorChannelOptions {
        router: ControlFirstRouter,
        capacity: vec![
            KanalActorChannelCapacity::Bounded(2),
            KanalActorChannelCapacity::Unbounded,
        ],
    };
    let (channel, _mailbox) =
        <KanalActorChannel<2, Dispatched, _> as StandardChannel>::create(options);
    assert_eq!(channel.limits(), &vec![2, usize::MAX]);
    let (_receiver, channel) = KanalActorChannel::<1, u8, NoPriorityRouter>::new_bounded(5);
    assert_eq!(channel.limits(), &vec![5]);
    let (_receiver, channel) = KanalActorChannel::<1, u8, NoPriorityRouter>::new_unbounded();
    assert_eq!(channel.limits(), &vec![usize::MAX]);
    let (sender, _receiver) = kanal::bounded::<u8>(11);
    let channel =
        KanalActorChannel::new_single_lane_with(NoPriorityRouter, |_| sender.clone());
    assert_eq!(channel.limits(), &vec![11]);
    let channel = KanalActorChannel::<2, u8, _>::new_with(NoPriorityRouter, |_, _| sender.clone());
    assert_eq!(channel.limits(), &vec![11, 11]);
}

#[test]
fn kanal_send_failure_means_death() {
    let (receiver, channel) =
        KanalActorChannel::<1, Dispatched, NoPriorityRouter>::new_bounded(1);
    drop(receiver);
    let (sender, message) = channel.prepare_send(of(data())).route().unwrap();
    let error = sender.send(message).unwrap_err();
    assert_eq!(
        KanalActorChannelSender::<Dispatched>::handle_send_error(error),
        ActorChannelSendError::ActorDead
    );
}

#[test]
fn biased_selection_goes_lane_by_lane() {
    assert_eq!(
        select_biased(0, 3, LanePoll::Ready(Some('m'))),
        SelectStep::Yield(Some('m'))
    );
    assert_eq!(
        select_biased::<char>(1, 3, LanePoll::Ready(None)),
        SelectStep::Yield(None)
    );
    assert_eq!(
        select_biased::<char>(0, 3, LanePoll::Pending),
        SelectStep::TryLane(1)
    );
    assert_eq!(
        select_biased::<char>(2, 3, LanePoll::Pending),
        SelectStep::Pending
    );
}

#[test]
fn an_answer_comes_through() {
    let (sender, mut receiver) = answer_channel::<u32>();
    assert_eq!(receiver.try_recv(), None);
    assert_eq!(sender.send(42), Ok(()));
    assert_eq!(receiver.try_recv(), Some(Some(42)));
}

#[test]
fn a_dropped_sender_answers_nothing() {
    let (sender, mut receiver) = answer_channel::<u32>();
    drop(sender);
    assert_eq!(receiver.try_recv(), Some(None));
}

#[test]
fn an_unwanted_answer_comes_back() {
    let (sender, receiver) = answer_channel::<u32>();
    drop(receiver);
    assert_eq!(sender.send(7), Err(7));
}

#[test]
fn waiting_to_the_end() {
    let (sender, receiver) = answer_channel::<u32>();
    sender.send(5).unwrap();
    let AnswerReceiver::Tokio(receiver) = receiver;
    assert_eq!(AnswerReceiver::received(receiver.blocking_recv()), Some(5));
    let (sender, receiver) = answer_channel::<u32>();
    drop(sender);
    let AnswerReceiver::Tokio(receiver) = receiver;
    assert_eq!(AnswerReceiver::received(receiver.blocking_recv()), None);
    assert_eq!(AnswerPoll::<u32>::Pending.reply(), None);
}
