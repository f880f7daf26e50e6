//! Linkage: watching an actor's termination.
//!
//! A watch registers an opt-in, unidirectional, non-owning subscription on the
//! watched actor: when that actor terminates, a [`Terminated`] signal is pushed
//! into the watcher's mailbox as an ordinary message.
use crate::actor::lifecycle::TerminationKind;
use crate::actor::rtti::ActorRtti;
use crate::actor::run_loop::is_turn;
use vstd::prelude::*;
use vstd::std_specs::cmp::PartialEqSpecImpl;
use vstd::std_specs::convert::FromSpecImpl;

verus! {

/// A non-zero number, held as [`core::num::NonZeroUsize`] so that an absent one
/// takes no extra space.
#[verifier::external_body]
#[derive(Debug, Hash)]
pub struct NonZeroId {
    inner: core::num::NonZeroUsize,
}

impl Clone for NonZeroId {
    fn clone(&self) -> (copy: Self)
        ensures
            copy == *self,
    {
        *self
    }
}

impl Copy for NonZeroId {

}

/// The number that a [`NonZeroId`] holds.
pub uninterp spec fn non_zero_id_value(id: NonZeroId) -> usize;

/// Calls [`core::num::NonZeroUsize::new`]: a number other than zero is held,
/// zero is refused.
#[verifier::external_body]
fn non_zero_id_new(value: usize) -> (id: Option<NonZeroId>)
    ensures
        id is None <==> value == 0,
        id matches Some(id) ==> non_zero_id_value(id) == value,
{
    core::num::NonZeroUsize::new(value).map(|inner| NonZeroId { inner })
}

/// Calls [`core::num::NonZeroUsize::get`]: the number held, which is not zero.
#[verifier::external_body]
fn non_zero_id_get(id: NonZeroId) -> (value: usize)
    ensures
        value == non_zero_id_value(id),
        value != 0,
{
    id.inner.get()
}

impl NonZeroId {
    /// Hold a number, unless it is zero.
    pub fn new(value: usize) -> (id: Option<NonZeroId>)
        ensures
            id is None <==> value == 0,
            id matches Some(id) ==> non_zero_id_value(id) == value,
    {
        non_zero_id_new(value)
    }

    /// The number held.
    pub fn get(self) -> (value: usize)
        ensures
            value == non_zero_id_value(self),
            value != 0,
    {
        non_zero_id_get(self)
    }
}

/// Source of process-unique [`ActorId`]s. Monotonic, so an id is never reused;
/// starts at 1 so that 0 is free to serve as the `Option<ActorId>` niche.
#[derive(Debug)]
pub struct ActorIdSource {
    next: usize,
}

impl ActorIdSource {
    /// The number of the next id; zero once all numbers were given out.
    pub closed spec fn next(self) -> usize {
        self.next
    }

    /// A source that has given out no id yet.
    pub fn new() -> (source: Self)
        ensures
            source.next() == 1,
    {
        ActorIdSource { next: 1 }
    }

    /// Whether all numbers were given out.
    pub fn is_exhausted(&self) -> (exhausted: bool)
        ensures
            exhausted == (self.next() == 0),
    {
        self.next == 0
    }
}

/// Whether a source whose next number is `before` gives out `id` and then has
/// `after` as its next number: the numbers go up by one, until they run out.
pub open spec fn gives_out(before: usize, id: usize, after: usize) -> bool {
    &&& before != 0
    &&& id == before
    &&& after == if before == usize::MAX {
        0
    } else {
        before + 1
    }
}

/// A process-unique identifier for an actor.
#[derive(Clone, Copy, Debug, Hash)]
pub struct ActorId {
    id: NonZeroId,
}

impl ActorId {
    /// The counter value backing this id.
    pub closed spec fn number(self) -> usize {
        non_zero_id_value(self.id)
    }

    /// The next id of a source that has not given out all numbers yet.
    pub fn new(source: &mut ActorIdSource) -> (id: Self)
        requires
            old(source).next() != 0,
        ensures
            gives_out(old(source).next(), id.number(), final(source).next()),
    {
        let raw: usize = source.next;
        source.next = raw.wrapping_add(1);
        ActorId { id: NonZeroId::new(raw).unwrap() }
    }

    /// The raw counter value backing this id (never 0).
    pub fn as_usize(self) -> (value: usize)
        ensures
            value == self.number(),
            value != 0,
    {
        self.id.get()
    }

    /// The raw non-zero counter value backing this id.
    pub fn as_non_zero_usize(self) -> (value: NonZeroId)
        ensures
            non_zero_id_value(value) == self.number(),
    {
        self.id
    }

    /// The id as text: `Actor#` and its number.
    pub fn to_text(self) -> (text: String)
        ensures
            text@ == "Actor#"@ + decimal(self.number() as nat),
    {
        let mut text = String::new();
        text.append("Actor#");
        append_decimal(&mut text, self.as_usize());
        assert(text@ =~= "Actor#"@ + decimal(self.number() as nat));
        text
    }
}

/// Two ids are equal when their numbers are.
impl PartialEq for ActorId {
    fn eq(&self, other: &Self) -> (equal: bool) {
        self.as_usize() == other.as_usize()
    }
}

impl PartialEqSpecImpl for ActorId {
    open spec fn obeys_eq_spec() -> bool {
        true
    }

    open spec fn eq_spec(&self, other: &Self) -> bool {
        self.number() == other.number()
    }
}

impl Eq for ActorId {

}

impl From<ActorId> for usize {
    fn from(id: ActorId) -> (value: usize) {
        id.as_usize()
    }
}

impl FromSpecImpl<ActorId> for usize {
    open spec fn obeys_from_spec() -> bool {
        true
    }

    open spec fn from_spec(id: ActorId) -> usize {
        id.number()
    }
}

impl From<ActorId> for NonZeroId {
    fn from(id: ActorId) -> (value: NonZeroId)
        ensures
            non_zero_id_value(value) == id.number(),
    {
        id.id
    }
}

impl FromSpecImpl<ActorId> for NonZeroId {
    open spec fn obeys_from_spec() -> bool {
        true
    }

    closed spec fn from_spec(id: ActorId) -> NonZeroId {
        id.id
    }
}

/// The digit character for a number below ten.
pub open spec fn digit(n: nat) -> char {
    (('0' as u32) + n) as char
}

/// A number in decimal notation.
pub open spec fn decimal(n: nat) -> Seq<char>
    decreases n,
{
    if n < 10 {
        seq![digit(n)]
    } else {
        decimal(n / 10).push(digit(n % 10))
    }
}

/// Append a number in decimal notation.
fn append_decimal(text: &mut String, n: usize)
    ensures
        final(text)@ == old(text)@ + decimal(n as nat),
    decreases n,
{
    if n >= 10 {
        append_decimal(text, n / 10);
    }
    let ghost head = text@;
    proof {
        reveal_strlit("0");
        reveal_strlit("1");
        reveal_strlit("2");
        reveal_strlit("3");
        reveal_strlit("4");
        reveal_strlit("5");
        reveal_strlit("6");
        reveal_strlit("7");
        reveal_strlit("8");
        reveal_strlit("9");
    }
    let last: &str = match n % 10 {
        0 => "0",
        1 => "1",
        2 => "2",
        3 => "3",
        4 => "4",
        5 => "5",
        6 => "6",
        7 => "7",
        8 => "8",
        _ => "9",
    };
    text.append(last);
    assert(last@ =~= seq![digit((n % 10) as nat)]);
    assert(text@ =~= old(text)@ + decimal(n as nat));
}

/// Ids of one source increase and are never reused: among all ids a source gives
/// out, every later one is larger than every earlier one, and none is zero.
pub proof fn ids_are_monotonic(counters: Seq<usize>, ids: Seq<usize>, i: int, j: int)
    requires
        counters.len() == ids.len() + 1,
        forall|k: int|
            0 <= k < ids.len() ==> gives_out(#[trigger] counters[k], ids[k], counters[k + 1]),
        0 <= i < j < ids.len(),
    ensures
        ids[i] < ids[j],
        ids[i] != 0,
    decreases j,
{
    assert(gives_out(counters[j], ids[j], counters[j + 1]));
    assert(gives_out(counters[j - 1], ids[j - 1], counters[j]));
    if i < j - 1 {
        ids_are_monotonic(counters, ids, i, j - 1);
    }
}

/// The signal pushed into a watcher's mailbox when a watched actor terminates.
///
/// It carries the watcher-chosen tag plus the watched actor's identity and
/// error-free [`TerminationKind`].
#[derive(Clone, Copy, Debug)]
pub struct Terminated {
    watched: ActorId,
    rtti: ActorRtti,
    kind: TerminationKind,
    tag: u64,
}

impl Terminated {
    /// The identity of the watched actor.
    pub closed spec fn spec_watched(self) -> ActorId {
        self.watched
    }

    /// The RTTI of the watched actor's type.
    pub closed spec fn spec_rtti(self) -> ActorRtti {
        self.rtti
    }

    /// How the watched actor terminated.
    pub closed spec fn spec_kind(self) -> TerminationKind {
        self.kind
    }

    /// The watcher-assigned correlation key.
    pub closed spec fn spec_tag(self) -> u64 {
        self.tag
    }

    /// The signal that `watched` terminated.
    pub fn new(watched: ActorId, rtti: ActorRtti, kind: TerminationKind, tag: u64) -> (signal: Self)
        ensures
            signal.spec_watched() == watched,
            signal.spec_rtti() == rtti,
            signal.spec_kind() == kind,
            signal.spec_tag() == tag,
    {
        Terminated { watched, rtti, kind, tag }
    }

    /// The watcher-assigned correlation key from the `watch` call.
    pub fn tag(&self) -> (tag: u64)
        ensures
            tag == self.spec_tag(),
    {
        self.tag
    }

    /// How the watched actor terminated.
    pub fn kind(&self) -> (kind: TerminationKind)
        ensures
            kind == self.spec_kind(),
    {
        self.kind
    }

    /// The identity of the watched actor.
    pub fn watched(&self) -> (watched: ActorId)
        ensures
            watched == self.spec_watched(),
    {
        self.watched
    }

    /// The RTTI of the watched actor's type.
    pub fn rtti(&self) -> (rtti: ActorRtti)
        ensures
            rtti == self.spec_rtti(),
    {
        self.rtti
    }
}

/// Under which circumstances a [`Terminated`] signal is delivered to a watcher.
#[derive(Clone, Copy, Debug, PartialEq, Eq, Hash, Structural)]
pub enum WatchDeliveryPolicy {
    /// Always deliver the signal. Waits asynchronously for room in the watcher's
    /// mailbox where that is possible, and blocks where it is not.
    Always,
    /// Deliver the signal if the mailbox accepts it immediately, or if waiting
    /// for room is possible without blocking.
    WaitNonblockingOnly,
    /// Deliver the signal only if the mailbox accepts it immediately.
    NoWait,
}

impl Default for WatchDeliveryPolicy {
    fn default() -> (policy: Self)
        ensures
            policy == WatchDeliveryPolicy::Always,
    {
        WatchDeliveryPolicy::Always
    }
}

/// Where a termination signal is sent from.
#[derive(Clone, Copy, Debug, PartialEq, Eq, Structural)]
pub enum TerminalPath {
    /// The run loop's orderly end, which can await.
    Async,
    /// The drop of the run loop (panic or task abort), which cannot.
    Drop,
}

/// What a full mailbox means to a termination signal.
#[derive(Clone, Copy, Debug, PartialEq, Eq, Structural)]
pub enum DeliveryMode {
    /// Await room in the mailbox.
    WaitAsync,
    /// Block the current thread until there is room.
    WaitBlocking,
    /// Drop the signal.
    Nonblocking,
}

impl WatchDeliveryPolicy {
    /// How the policy delivers a signal on the given path.
    pub open spec fn spec_mode(self, path: TerminalPath) -> DeliveryMode {
        match (path, self) {
            (TerminalPath::Async, WatchDeliveryPolicy::NoWait) => DeliveryMode::Nonblocking,
            (TerminalPath::Async, _) => DeliveryMode::WaitAsync,
            (TerminalPath::Drop, WatchDeliveryPolicy::Always) => DeliveryMode::WaitBlocking,
            (TerminalPath::Drop, _) => DeliveryMode::Nonblocking,
        }
    }

    /// How the policy delivers a signal on the given path.
    pub fn mode(self, path: TerminalPath) -> (mode: DeliveryMode)
        ensures
            mode == self.spec_mode(path),
    {
        match path {
            TerminalPath::Async => match self {
                WatchDeliveryPolicy::Always | WatchDeliveryPolicy::WaitNonblockingOnly => DeliveryMode::WaitAsync,
                WatchDeliveryPolicy::NoWait => DeliveryMode::Nonblocking,
            },
            TerminalPath::Drop => match self {
                WatchDeliveryPolicy::Always => DeliveryMode::WaitBlocking,
                WatchDeliveryPolicy::WaitNonblockingOnly | WatchDeliveryPolicy::NoWait => DeliveryMode::Nonblocking,
            },
        }
    }
}

/// A registered termination subscription, stored on the *watched* actor.
///
/// Holds a weak reference `W` to the watcher and the watcher's pre-bound
/// [`Terminated`] dispatcher `D`.
#[derive(Debug)]
pub struct Subscription<W, D> {
    watcher: W,
    watcher_id: ActorId,
    dispatcher: D,
    tag: u64,
    delivery_policy: WatchDeliveryPolicy,
}

/// A termination signal on its way to a watcher.
#[derive(Debug)]
pub struct Delivery<W, D> {
    /// The weak reference to the watcher.
    pub watcher: W,
    /// The watcher's dispatcher for the signal.
    pub dispatcher: D,
    pub signal: Terminated,
    /// What a full mailbox means to the signal.
    pub mode: DeliveryMode,
}

impl<W, D> Subscription<W, D> {
    /// The weak reference to the watcher.
    pub closed spec fn spec_watcher(self) -> W {
        self.watcher
    }

    /// The id of the watcher.
    pub closed spec fn spec_watcher_id(self) -> ActorId {
        self.watcher_id
    }

    /// The watcher's dispatcher for the signal.
    pub closed spec fn spec_dispatcher(self) -> D {
        self.dispatcher
    }

    /// The watcher-assigned correlation key.
    pub closed spec fn spec_tag(self) -> u64 {
        self.tag
    }

    /// The watcher's delivery policy.
    pub closed spec fn spec_delivery_policy(self) -> WatchDeliveryPolicy {
        self.delivery_policy
    }

    /// Whether `delivery` is this subscription's signal that `watched`
    /// terminated.
    pub open spec fn delivers(
        self,
        watched: ActorId,
        rtti: ActorRtti,
        kind: TerminationKind,
        path: TerminalPath,
        delivery: Delivery<W, D>,
    ) -> bool {
        &&& delivery.watcher == self.spec_watcher()
        &&& delivery.dispatcher == self.spec_dispatcher()
        &&& delivery.mode == self.spec_delivery_policy().spec_mode(path)
        &&& delivery.signal.spec_watched() == watched
        &&& delivery.signal.spec_rtti() == rtti
        &&& delivery.signal.spec_kind() == kind
        &&& delivery.signal.spec_tag() == self.spec_tag()
    }

    /// A watcher's subscription.
    pub fn new(
        watcher: W,
        watcher_id: ActorId,
        dispatcher: D,
        tag: u64,
        delivery_policy: WatchDeliveryPolicy,
    ) -> (subscription: Self)
        ensures
            subscription.spec_watcher() == watcher,
            subscription.spec_watcher_id() == watcher_id,
            subscription.spec_dispatcher() == dispatcher,
            subscription.spec_tag() == tag,
            subscription.spec_delivery_policy() == delivery_policy,
    {
        Subscription { watcher, watcher_id, dispatcher, tag, delivery_policy }
    }

    /// The id of the watcher this subscription notifies.
    pub fn watcher_id(&self) -> (id: ActorId)
        ensures
            id == self.spec_watcher_id(),
    {
        self.watcher_id
    }

    /// The signal for a watcher on the run loop's orderly end: it waits for room
    /// in the mailbox unless the policy says never to.
    pub fn deliver(self, watched: ActorId, rtti: ActorRtti, kind: TerminationKind) -> (delivery:
        Delivery<W, D>)
        ensures
            self.delivers(watched, rtti, kind, TerminalPath::Async, delivery),
    {
        let mode = self.delivery_policy.mode(TerminalPath::Async);
        let signal = Terminated::new(watched, rtti, kind, self.tag);
        Delivery { watcher: self.watcher, dispatcher: self.dispatcher, signal, mode }
    }

    /// The signal for a watcher on the drop path, where awaiting is impossible:
    /// it blocks for room in the mailbox if the policy is to always deliver.
    pub fn deliver_now(self, watched: ActorId, rtti: ActorRtti, kind: TerminationKind) -> (delivery:
        Delivery<W, D>)
        ensures
            self.delivers(watched, rtti, kind, TerminalPath::Drop, delivery),
    {
        let mode = self.delivery_policy.mode(TerminalPath::Drop);
        let signal = Terminated::new(watched, rtti, kind, self.tag);
        Delivery { watcher: self.watcher, dispatcher: self.dispatcher, signal, mode }
    }
}

impl<W, D> Delivery<W, D> {
    /// The signal and the dispatcher for the watcher, or `None` if the watcher
    /// is already gone.
    pub fn prepare<H>(self, watcher: Option<H>) -> (prepared: Option<(H, D, Terminated)>)
        ensures
            prepared is Some <==> watcher is Some,
            prepared matches Some(parts) ==> parts.0 == watcher->0 && parts.1 == self.dispatcher
                && parts.2 == self.signal,
    {
        match watcher {
            Some(watcher) => Some((watcher, self.dispatcher, self.signal)),
            None => None,
        }
    }
}

/// With the default policy a signal is never dropped for want of room, on
/// either path.
pub proof fn always_waits_for_room(path: TerminalPath)
    ensures
        WatchDeliveryPolicy::Always.spec_mode(path) != DeliveryMode::Nonblocking,
{
}

/// Nothing ever blocks a thread for a watcher that did not ask for it, and
/// nothing waits at all for one that asked for no waiting.
pub proof fn only_always_blocks(policy: WatchDeliveryPolicy, path: TerminalPath)
    ensures
        policy.spec_mode(path) == DeliveryMode::WaitBlocking ==> policy
            == WatchDeliveryPolicy::Always,
        policy == WatchDeliveryPolicy::NoWait ==> policy.spec_mode(path)
            == DeliveryMode::Nonblocking,
{
}

/// A watcher hears what it asked to hear, of the actor that it watched: the signal of
/// a subscription goes to the subscription's watcher, for its dispatcher, and tells
/// the tag that the watcher chose, whatever number that is, which actor terminated,
/// of which type it was, and how it ended. It waits for room on the orderly end
/// unless the watcher wants no waiting, and blocks on the drop path only where the
/// watcher always wants the signal.
pub proof fn signals_tell_the_watcher_its_tag<W, D>(
    watcher: W,
    watcher_id: ActorId,
    dispatcher: D,
    tag: u64,
    policy: WatchDeliveryPolicy,
    subscription: Subscription<W, D>,
    watched: ActorId,
    rtti: ActorRtti,
    kind: TerminationKind,
    path: TerminalPath,
    delivery: Delivery<W, D>,
)
    requires
        call_ensures(
            Subscription::<W, D>::new,
            (watcher, watcher_id, dispatcher, tag, policy),
            subscription,
        ),
        match path {
            TerminalPath::Async => call_ensures(
                Subscription::<W, D>::deliver,
                (subscription, watched, rtti, kind),
                delivery,
            ),
            TerminalPath::Drop => call_ensures(
                Subscription::<W, D>::deliver_now,
                (subscription, watched, rtti, kind),
                delivery,
            ),
        },
    ensures
        delivery.watcher == watcher,
        delivery.dispatcher == dispatcher,
        forall|told: u64| #[trigger]
            call_ensures(Terminated::tag, (&delivery.signal,), told) ==> told == tag,
        forall|told: ActorId| #[trigger]
            call_ensures(Terminated::watched, (&delivery.signal,), told) ==> told == watched,
        forall|told: ActorRtti| #[trigger]
            call_ensures(Terminated::rtti, (&delivery.signal,), told) ==> told == rtti,
        forall|told: TerminationKind| #[trigger]
            call_ensures(Terminated::kind, (&delivery.signal,), told) ==> told == kind,
        forall|id: ActorId| #[trigger]
            call_ensures(Subscription::<W, D>::watcher_id, (&subscription,), id) ==> id
                == watcher_id,
        delivery.mode == DeliveryMode::WaitAsync <==> path == TerminalPath::Async && policy
            != WatchDeliveryPolicy::NoWait,
        delivery.mode == DeliveryMode::WaitBlocking <==> path == TerminalPath::Drop && policy
            == WatchDeliveryPolicy::Always,
{
}

/// Two watches are told apart by their tags: the signals of subscriptions with
/// different tags tell different tags, whoever terminated and however.
pub proof fn different_tags_stay_different<W, D>(
    watcher: W,
    watcher_id: ActorId,
    dispatcher: D,
    tags: (u64, u64),
    policies: (WatchDeliveryPolicy, WatchDeliveryPolicy),
    subscriptions: (Subscription<W, D>, Subscription<W, D>),
    watched: (ActorId, ActorId),
    rtti: ActorRtti,
    kind: TerminationKind,
    paths: (TerminalPath, TerminalPath),
    deliveries: (Delivery<W, D>, Delivery<W, D>),
    told: (u64, u64),
)
    requires
        call_ensures(
            Subscription::<W, D>::new,
            (watcher, watcher_id, dispatcher, tags.0, policies.0),
            subscriptions.0,
        ),
        call_ensures(
            Subscription::<W, D>::new,
            (watcher, watcher_id, dispatcher, tags.1, policies.1),
            subscriptions.1,
        ),
        match paths.0 {
            TerminalPath::Async => call_ensures(
                Subscription::<W, D>::deliver,
                (subscriptions.0, watched.0, rtti, kind),
                deliveries.0,
            ),
            TerminalPath::Drop => call_ensures(
                Subscription::<W, D>::deliver_now,
                (subscriptions.0, watched.0, rtti, kind),
                deliveries.0,
            ),
        },
        match paths.1 {
            TerminalPath::Async => call_ensures(
                Subscription::<W, D>::deliver,
                (subscriptions.1, watched.1, rtti, kind),
                deliveries.1,
            ),
            TerminalPath::Drop => call_ensures(
                Subscription::<W, D>::deliver_now,
                (subscriptions.1, watched.1, rtti, kind),
                deliveries.1,
            ),
        },
        call_ensures(Terminated::tag, (&deliveries.0.signal,), told.0),
        call_ensures(Terminated::tag, (&deliveries.1.signal,), told.1),
    ensures
        told.0 == told.1 <==> tags.0 == tags.1,
{
}

/// No id is given out twice: the ids of one source count up from the first, by one
/// each, none of them is zero, and the source is exhausted when the largest number
/// was given out and not before.
pub proof fn fresh_ids_count_up(
    sources: Seq<ActorIdSource>,
    ids: Seq<ActorId>,
    numbers: Seq<usize>,
    i: int,
    exhausted: bool,
)
    requires
        sources.len() == ids.len() + 1,
        numbers.len() == ids.len(),
        call_ensures(ActorIdSource::new, (), sources[0]),
        forall|k: int, next: int| #[trigger]
            is_turn(ids.len(), k) && next == k + 1 && #[trigger] is_turn(sources.len(), next)
                ==> exists|source: &mut ActorIdSource| #[trigger]
                call_ensures(ActorId::new, (source,), ids[k]) && *source == sources[k]
                    && *final(source) == sources[next],
        forall|k: int| #[trigger]
            is_turn(ids.len(), k) ==> call_ensures(ActorId::as_usize, (ids[k],), numbers[k]),
        0 <= i < ids.len(),
        call_ensures(ActorIdSource::is_exhausted, (&sources[i + 1],), exhausted),
    ensures
        numbers[i] == i + 1,
        exhausted <==> numbers[i] == usize::MAX,
        forall|source: &mut ActorIdSource|
            *source == sources[i + 1] && !exhausted ==> #[trigger] call_requires(
                ActorId::new,
                (source,),
            ),
{
    counts_up(sources, ids, numbers, i);
    assert(is_turn(ids.len(), i));
    assert(is_turn(sources.len(), i + 1));
}

/// The numbers of the ids of one source, and what the source has next.
proof fn counts_up(sources: Seq<ActorIdSource>, ids: Seq<ActorId>, numbers: Seq<usize>, i: int)
    requires
        sources.len() == ids.len() + 1,
        numbers.len() == ids.len(),
        call_ensures(ActorIdSource::new, (), sources[0]),
        forall|k: int, next: int| #[trigger]
            is_turn(ids.len(), k) && next == k + 1 && #[trigger] is_turn(sources.len(), next)
                ==> exists|source: &mut ActorIdSource| #[trigger]
                call_ensures(ActorId::new, (source,), ids[k]) && *source == sources[k]
                    && *final(source) == sources[next],
        forall|k: int| #[trigger]
            is_turn(ids.len(), k) ==> call_ensures(ActorId::as_usize, (ids[k],), numbers[k]),
        0 <= i < ids.len(),
    ensures
        sources[i].next() == i + 1,
        numbers[i] == i + 1,
    decreases i,
{
    assert(is_turn(ids.len(), i));
    assert(is_turn(sources.len(), i + 1));
    if i > 0 {
        counts_up(sources, ids, numbers, i - 1);
        assert(is_turn(ids.len(), i - 1));
        assert(is_turn(sources.len(), i));
    }
}

/// Two ids are equal exactly when their numbers are, and every way to ask for the
/// number tells the same.
pub proof fn ids_are_told_apart_by_number(
    a: ActorId,
    b: ActorId,
    numbers: (usize, usize),
    equal: bool,
    held: NonZeroId,
    value: usize,
)
    requires
        call_ensures(ActorId::as_usize, (a,), numbers.0),
        call_ensures(ActorId::as_usize, (b,), numbers.1),
        call_ensures(ActorId::eq, (&a, &b), equal),
        call_ensures(ActorId::as_non_zero_usize, (a,), held),
        call_ensures(NonZeroId::get, (held,), value),
    ensures
        equal <==> numbers.0 == numbers.1,
        value == numbers.0,
        value != 0,
{
}

/// The number that decimal digits stand for, the most significant one first.
pub open spec fn read_decimal(digits: Seq<char>) -> int
    decreases digits.len(),
{
    if digits.len() == 0 {
        0
    } else {
        read_decimal(digits.drop_last()) * 10 + (digits.last() as int - '0' as int)
    }
}

/// An id's text is `Actor#` and digits that read as its number, without leading
/// zeros: so different ids have different texts.
pub proof fn texts_name_their_id(id: ActorId, number: usize, text: String)
    requires
        call_ensures(ActorId::as_usize, (id,), number),
        call_ensures(ActorId::to_text, (id,), text),
    ensures
        text@.len() > 6,
        text@.take(6) == "Actor#"@,
        forall|k: int| 6 <= k < text@.len() ==> '0' <= #[trigger] text@[k] <= '9',
        text@[6] != '0',
        read_decimal(text@.skip(6)) == number,
{
    reveal_strlit("Actor#");
    let digits = decimal(number as nat);
    decimal_reads_back(number as nat);
    assert(text@.take(6) =~= "Actor#"@);
    assert(text@.skip(6) =~= digits);
    assert forall|k: int| 6 <= k < text@.len() implies '0' <= #[trigger] text@[k] <= '9' by {
        assert(text@[k] == digits[k - 6]);
    }
    assert(text@[6] == digits[0]);
}

/// Decimal notation reads as the number it was made of.
proof fn decimal_reads_back(n: nat)
    ensures
        decimal(n).len() > 0,
        forall|k: int| 0 <= k < decimal(n).len() ==> '0' <= #[trigger] decimal(n)[k] <= '9',
        n > 0 ==> decimal(n)[0] != '0',
        read_decimal(decimal(n)) == n,
    decreases n,
{
    let digits = decimal(n);
    if n >= 10 {
        decimal_reads_back(n / 10);
        assert(digits.drop_last() =~= decimal(n / 10));
    } else {
        assert(digits.drop_last() =~= Seq::<char>::empty());
        assert(read_decimal(digits.drop_last()) == 0);
    }
    assert(digits.last() == digit(n % 10));
}

/// A signal reaches its watcher as it is, or not at all where the watcher is gone.
pub proof fn signals_reach_their_watcher_as_they_are<W, D, H>(
    delivery: Delivery<W, D>,
    watcher: Option<H>,
    prepared: Option<(H, D, Terminated)>,
)
    requires
        call_ensures(Delivery::<W, D>::prepare::<H>, (delivery, watcher), prepared),
    ensures
        watcher is None ==> prepared is None,
        watcher matches Some(watcher) ==> prepared == Some(
            (watcher, delivery.dispatcher, delivery.signal),
        ),
{
}

} // verus!
