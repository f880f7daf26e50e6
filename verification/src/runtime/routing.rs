//! Priority routing for multi-lane actor channels.
//!
//! A multi-lane channel keeps one queue per priority lane and, at send time, asks
//! an [`ActorMessagePriorityRouter`] which lane a given message belongs in. The
//! mailbox then drains higher-priority lanes ahead of lower-priority ones.
use vstd::prelude::*;

verus! {

/// Decides which lane to use for routing an actor message.
///
/// Lane `0` is the highest priority (drained first); larger indices are lower
/// priority. An index for which the channel has no lane makes the message
/// unroutable.
pub trait ActorMessagePriorityRouter<M> {
    /// Determine the priority lane of the dispatched message.
    fn priority(&self, dispatched: &M) -> usize;
}

/// Message priority router that applies no priority to any message.
///
/// Everything lands in lane `0`, degenerating a multi-lane channel to a single
/// FIFO queue.
#[derive(Clone, Copy, Debug)]
pub struct NoPriorityRouter;

impl Default for NoPriorityRouter {
    fn default() -> (router: Self)
        ensures
            router == NoPriorityRouter,
    {
        NoPriorityRouter
    }
}

impl<M> ActorMessagePriorityRouter<M> for NoPriorityRouter {
    fn priority(&self, dispatched: &M) -> (lane: usize)
        ensures
            lane == 0,
    {
        0
    }
}

/// What polling one lane of a mailbox found.
#[derive(Clone, Copy, Debug, PartialEq, Eq)]
pub enum LanePoll<M> {
    /// A message, or `None` if the lane is closed and drained.
    Ready(Option<M>),
    /// Nothing yet.
    Pending,
}

/// How a mailbox goes on after polling one lane.
#[derive(Clone, Copy, Debug, PartialEq, Eq)]
pub enum SelectStep<M> {
    /// The mailbox yields what the lane had.
    Yield(Option<M>),
    /// The next lane is to be polled.
    TryLane(usize),
    /// No lane has anything.
    Pending,
}

/// How a mailbox of the given number of lanes goes on after polling one of them.
pub open spec fn select_step<M>(lane: usize, lanes: usize, poll: LanePoll<M>) -> SelectStep<M> {
    match poll {
        LanePoll::Ready(message) => SelectStep::Yield(message),
        LanePoll::Pending => if lane + 1 < lanes {
            SelectStep::TryLane((lane + 1) as usize)
        } else {
            SelectStep::Pending
        },
    }
}

/// Biased selection over the lanes of a mailbox, from lane `0` up: the first
/// ready lane is yielded, and no lane behind it is touched.
pub fn select_biased<M>(lane: usize, lanes: usize, poll: LanePoll<M>) -> (step: SelectStep<M>)
    requires
        lane < lanes,
    ensures
        step == select_step(lane, lanes, poll),
{
    match poll {
        LanePoll::Ready(message) => SelectStep::Yield(message),
        LanePoll::Pending => if lane + 1 < lanes {
            SelectStep::TryLane(lane + 1)
        } else {
            SelectStep::Pending
        },
    }
}

/// Whether there is a lane with the given number among that many lanes.
pub open spec fn has_lane(lanes: nat, lane: int) -> bool {
    0 <= lane < lanes
}

/// Whether a look through that many lanes can stop at the given lane, or behind them
/// all.
pub open spec fn stops_at(lanes: nat, lane: int) -> bool {
    0 <= lane <= lanes
}

/// Whether a look through that many lanes, from lane `0` up, that found `found` can
/// have ended at lane `last`: any lane that has something ends it, and without one
/// only the last lane does.
pub open spec fn ends_at<M>(found: LanePoll<M>, last: int, lanes: nat) -> bool {
    &&& 0 <= last < lanes
    &&& found is Pending ==> last == lanes - 1
}

/// What a look that found `found` and ended at lane `last` met in a lane on its way:
/// nothing before that lane.
pub open spec fn met_at<M>(found: LanePoll<M>, last: int, lane: int) -> LanePoll<M> {
    if lane < last {
        LanePoll::Pending
    } else {
        found
    }
}

/// What a mailbox yields that goes on step by step from the given lane, where
/// polling its lanes finds `polls`.
pub open spec fn selected_from<M>(polls: Seq<LanePoll<M>>, lane: int) -> LanePoll<M>
    decreases polls.len() - lane,
{
    if 0 <= lane < polls.len() <= usize::MAX {
        match select_step(lane as usize, polls.len() as usize, polls[lane]) {
            SelectStep::Yield(message) => LanePoll::Ready(message),
            SelectStep::TryLane(next) => selected_from(polls, next as int),
            SelectStep::Pending => LanePoll::Pending,
        }
    } else {
        LanePoll::Pending
    }
}

/// Lower lane numbers win: a mailbox yields what its first ready lane has,
/// whatever the lanes behind that one have.
pub proof fn lower_lane_numbers_win<M>(polls: Seq<LanePoll<M>>, lane: int)
    requires
        0 <= lane < polls.len() <= usize::MAX,
        polls[lane] is Ready,
        forall|i: int| 0 <= i < lane ==> (#[trigger] polls[i]) is Pending,
    ensures
        selected_from(polls, 0) == polls[lane],
{
    first_ready_is_reached(polls, 0, lane);
}

/// From any lane on, the first ready lane is reached.
proof fn first_ready_is_reached<M>(polls: Seq<LanePoll<M>>, from: int, lane: int)
    requires
        0 <= from <= lane < polls.len() <= usize::MAX,
        polls[lane] is Ready,
        forall|i: int| from <= i < lane ==> (#[trigger] polls[i]) is Pending,
    ensures
        selected_from(polls, from) == polls[lane],
    decreases lane - from,
{
    if from < lane {
        first_ready_is_reached(polls, from + 1, lane);
    }
}

/// A mailbox waits exactly while none of its lanes has anything.
pub proof fn pending_means_nothing_anywhere<M>(polls: Seq<LanePoll<M>>)
    requires
        polls.len() <= usize::MAX,
    ensures
        selected_from(polls, 0) is Pending <==> forall|i: int|
            0 <= i < polls.len() ==> (#[trigger] polls[i]) is Pending,
{
    pending_means_nothing_from(polls, 0);
}

/// From any lane on, a mailbox waits exactly while none of the lanes has
/// anything.
proof fn pending_means_nothing_from<M>(polls: Seq<LanePoll<M>>, from: int)
    requires
        0 <= from <= polls.len() <= usize::MAX,
    ensures
        selected_from(polls, from) is Pending <==> forall|i: int|
            from <= i < polls.len() ==> (#[trigger] polls[i]) is Pending,
    decreases polls.len() - from,
{
    if from < polls.len() {
        pending_means_nothing_from(polls, from + 1);
        assert(polls[from] is Pending || polls[from] is Ready);
    }
}

/// What a lane has is yielded at once; where it has nothing, the lane behind it is
/// tried, whichever number it has, and after the last lane there is nothing to yield.
pub proof fn lanes_are_tried_in_order<M>(
    lane: usize,
    lanes: usize,
    poll: LanePoll<M>,
    step: SelectStep<M>,
)
    requires
        lane < lanes,
        call_ensures(select_biased::<M>, (lane, lanes, poll), step),
    ensures
        forall|message: Option<M>|
            step == SelectStep::Yield(message) <==> poll == LanePoll::Ready(message),
        step matches SelectStep::TryLane(next) ==> next == lane + 1 && next < lanes,
        step is Pending <==> poll is Pending && lane == lanes - 1,
{
}

} // verus!
