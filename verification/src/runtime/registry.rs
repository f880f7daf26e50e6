//! Registry for dynamically dispatched message handlers.
//!
//! Building the registry freezes a set of handler registrations into one
//! dispatch table per actor:
//!
//! - Every registered message gets a globally unique dynamic dispatch ID.
//! - Messages handled by exactly one actor type get *consecutive* IDs per actor,
//!   so binding them is a subtraction and an array index.
//! - Messages handled by multiple actor types land in small per-actor tables
//!   sorted by ID (binary search).
//!
//! Registrations that arrive after the registry was built are not part of the
//! tables: their messages never receive a dispatch ID and fail to bind.
use crate::actor::rtti::ActorRtti;
use crate::message::rtti::{with_dispatch_slot_keeps_the_rest, DispatchId, MessageRtti};
use std::collections::BTreeMap;
use vstd::prelude::*;

verus! {

/// A single handler registration: actor type, message type and the dispatcher
/// connecting them.
#[derive(Clone, Copy, Debug)]
pub struct DynamicHandlerRegistration<D> {
    actor: ActorRtti,
    message: MessageRtti,
    dispatcher: D,
}

impl<D: Copy> DynamicHandlerRegistration<D> {
    /// The actor type the registration binds to.
    pub closed spec fn spec_actor(self) -> ActorRtti {
        self.actor
    }

    /// The message type the registration binds.
    pub closed spec fn spec_message(self) -> MessageRtti {
        self.message
    }

    /// The dispatcher connecting actor and message.
    pub closed spec fn spec_dispatcher(self) -> D {
        self.dispatcher
    }

    /// The identities of the actor and the message.
    pub open spec fn pair(self) -> (usize, usize) {
        (self.spec_actor().spec_identity(), self.spec_message().spec_identity())
    }

    /// Create a registration for an actor/message pair from its dispatcher.
    pub fn from_raw(actor: ActorRtti, message: MessageRtti, dispatcher: D) -> (reg: Self)
        ensures
            reg.spec_actor() == actor,
            reg.spec_message() == message,
            reg.spec_dispatcher() == dispatcher,
    {
        DynamicHandlerRegistration { actor, message, dispatcher }
    }

    /// The actor type the registration binds to.
    pub fn actor(&self) -> (actor: ActorRtti)
        ensures
            actor == self.spec_actor(),
    {
        self.actor
    }

    /// The message type the registration binds.
    pub fn message(&self) -> (message: MessageRtti)
        ensures
            message == self.spec_message(),
    {
        self.message
    }

    /// The dispatcher connecting actor and message.
    pub fn dispatcher(&self) -> (dispatcher: D)
        ensures
            dispatcher == self.spec_dispatcher(),
    {
        self.dispatcher
    }
}

/// The dispatcher of the first registration of actor `a` and message `m`.
pub open spec fn find_handler<D: Copy>(
    regs: Seq<DynamicHandlerRegistration<D>>,
    a: usize,
    m: usize,
) -> Option<D>
    decreases regs.len(),
{
    if regs.len() == 0 {
        None
    } else {
        match find_handler(regs.drop_last(), a, m) {
            Some(dispatcher) => Some(dispatcher),
            None => if regs.last().pair() == (a, m) {
                Some(regs.last().spec_dispatcher())
            } else {
                None
            },
        }
    }
}

/// The registered actor/message pairs.
pub open spec fn handled_pairs<D: Copy>(regs: Seq<DynamicHandlerRegistration<D>>) -> Set<
    (usize, usize),
> {
    Set::new(|p: (usize, usize)| find_handler(regs, p.0, p.1) is Some)
}

/// Whether some registration is for the actor type described by `actor`.
pub open spec fn names_actor<D: Copy>(
    regs: Seq<DynamicHandlerRegistration<D>>,
    actor: ActorRtti,
) -> bool {
    exists|i: int| 0 <= i < regs.len() && (#[trigger] regs[i]).spec_actor() == actor
}

/// Whether some actor handles message `m`.
pub open spec fn is_registered(pairs: Set<(usize, usize)>, m: usize) -> bool {
    exists|a: usize| pairs.contains((a, m))
}

/// Whether more than one actor type handles message `m`.
pub open spec fn is_shared(pairs: Set<(usize, usize)>, m: usize) -> bool {
    exists|a: usize, b: usize| a != b && pairs.contains((a, m)) && pairs.contains((b, m))
}

/// Whether `a` is the lowest actor identity handling message `m`.
pub open spec fn is_first_actor(pairs: Set<(usize, usize)>, m: usize, a: usize) -> bool {
    &&& pairs.contains((a, m))
    &&& forall|b: usize| pairs.contains((b, m)) ==> a <= b
}

/// The lowest actor identity handling message `m`.
pub open spec fn first_actor(pairs: Set<(usize, usize)>, m: usize) -> usize {
    choose|a: usize| is_first_actor(pairs, m, a)
}

/// The order in which messages get their IDs: messages handled by one actor type
/// come before shared ones; within each group they go by the lowest handling
/// actor identity, then by message identity.
pub open spec fn precedes(pairs: Set<(usize, usize)>, m: usize, n: usize) -> bool {
    if is_shared(pairs, m) != is_shared(pairs, n) {
        is_shared(pairs, n)
    } else {
        pair_before((first_actor(pairs, m), m), (first_actor(pairs, n), n))
    }
}

/// Lexicographic order on pairs.
pub open spec fn pair_before(p: (usize, usize), q: (usize, usize)) -> bool {
    p.0 < q.0 || (p.0 == q.0 && p.1 < q.1)
}

/// The registered messages whose ID comes before that of message `m`.
pub open spec fn preceding(pairs: Set<(usize, usize)>, m: usize) -> Set<usize> {
    Set::new(|x: usize| is_registered(pairs, x) && precedes(pairs, x, m))
}

/// The dynamic dispatch ID of a registered message: one more than the number of
/// messages that come before it.
pub open spec fn dispatch_id(pairs: Set<(usize, usize)>, m: usize) -> nat {
    1 + preceding(pairs, m).len()
}

/// The messages that only actors below `bound` handle, each of them alone.
pub open spec fn unique_below(pairs: Set<(usize, usize)>, bound: usize) -> Set<usize> {
    Set::new(
        |x: usize|
            !is_shared(pairs, x) && exists|a: usize| a < bound && pairs.contains((a, x)),
    )
}

/// The messages that only actor `a` handles.
pub open spec fn unique_of(pairs: Set<(usize, usize)>, a: usize) -> Set<usize> {
    Set::new(|x: usize| !is_shared(pairs, x) && pairs.contains((a, x)))
}

/// The dispatch table of a single actor type.
#[derive(Debug)]
pub struct ActorDispatchTable<D> {
    actor: ActorRtti,
    /// First dynamic dispatch ID of the actor's uniquely handled messages.
    unique_base: DispatchId,
    /// Dispatchers of messages only this actor handles, indexed by
    /// `id - unique_base`.
    unique: Vec<D>,
    /// Dispatchers of messages handled by multiple actor types, sorted by ID.
    shared: Vec<(DispatchId, D)>,
}

/// Whether the entries are sorted by ID, with no ID twice.
pub open spec fn sorted_by_id<D>(shared: Seq<(DispatchId, D)>) -> bool {
    forall|i: int, j: int|
        #![trigger shared[i], shared[j]]
        0 <= i < j < shared.len() ==> shared[i].0.spec_get() < shared[j].0.spec_get()
}

/// The first position in `shared` whose ID is not below `id`.
fn lower_bound<D>(shared: &Vec<(DispatchId, D)>, id: usize) -> (pos: usize)
    requires
        sorted_by_id(shared@),
    ensures
        pos <= shared.len(),
        forall|i: int| 0 <= i < pos ==> (#[trigger] shared@[i]).0.spec_get() < id,
        forall|i: int| pos <= i < shared.len() ==> (#[trigger] shared@[i]).0.spec_get() >= id,
{
    let mut low: usize = 0;
    let mut high: usize = shared.len();
    while low < high
        invariant
            low <= high <= shared.len(),
            sorted_by_id(shared@),
            forall|i: int| 0 <= i < low ==> (#[trigger] shared@[i]).0.spec_get() < id,
            forall|i: int| high <= i < shared.len() ==> (#[trigger] shared@[i]).0.spec_get() >= id,
        decreases high - low,
    {
        let mid: usize = low + (high - low) / 2;
        if shared[mid].0.get() < id {
            low = mid + 1;
        } else {
            high = mid;
        }
    }
    low
}

impl<D> ActorDispatchTable<D> {
    #[verifier::type_invariant]
    spec fn is_sorted(self) -> bool {
        sorted_by_id(self.shared@)
    }
}

impl<D: Copy> ActorDispatchTable<D> {
    /// The actor type the table belongs to.
    pub closed spec fn spec_actor(self) -> ActorRtti {
        self.actor
    }

    /// First dynamic dispatch ID of the actor's uniquely handled messages.
    pub closed spec fn spec_unique_base(self) -> usize {
        self.unique_base.spec_get()
    }

    /// Dispatchers of the uniquely handled messages, in ID order.
    pub closed spec fn spec_unique(self) -> Seq<D> {
        self.unique@
    }

    /// Dispatchers of the shared messages with their IDs.
    pub closed spec fn spec_shared(self) -> Seq<(DispatchId, D)> {
        self.shared@
    }

    /// The shared entries are sorted by ID, with no ID twice.
    pub open spec fn wf(self) -> bool {
        sorted_by_id(self.spec_shared())
    }

    /// The dispatcher the table holds for a dispatch ID.
    pub open spec fn lookup(self, id: usize) -> Option<D> {
        if self.spec_unique_base() <= id < self.spec_unique_base() + self.spec_unique().len() {
            Some(self.spec_unique()[id - self.spec_unique_base()])
        } else if exists|k: int|
            0 <= k < self.spec_shared().len() && (#[trigger] self.spec_shared()[k]).0.spec_get()
                == id {
            let k = choose|k: int|
                0 <= k < self.spec_shared().len() && (#[trigger] self.spec_shared()[k]).0.spec_get()
                    == id;
            Some(self.spec_shared()[k].1)
        } else {
            None
        }
    }

    /// A table from its parts.
    pub fn from_parts(
        actor: ActorRtti,
        unique_base: DispatchId,
        unique: Vec<D>,
        shared: Vec<(DispatchId, D)>,
    ) -> (table: Self)
        requires
            sorted_by_id(shared@),
        ensures
            table.wf(),
            table.spec_actor() == actor,
            table.spec_unique_base() == unique_base.spec_get(),
            table.spec_unique() == unique@,
            table.spec_shared() == shared@,
    {
        ActorDispatchTable { actor, unique_base, unique, shared }
    }

    /// The actor type the table belongs to.
    pub fn actor(&self) -> (actor: ActorRtti)
        ensures
            actor == self.spec_actor(),
    {
        self.actor
    }

    /// Look up the dispatcher for the given message.
    ///
    /// Returns `None` if the message was never registered for this actor.
    pub fn bind(&self, message: &MessageRtti) -> (dispatcher: Option<D>)
        ensures
            dispatcher == if message.dispatch_slot() == 0 {
                None
            } else {
                self.lookup(message.dispatch_slot())
            },
    {
        proof {
            use_type_invariant(self);
        }
        let id: usize = match message.dynamic_dispatch_id() {
            Some(id) => id.get(),
            None => {
                return None;
            },
        };
        let base: usize = self.unique_base.get();
        if id >= base && id - base < self.unique.len() {
            return Some(self.unique[id - base]);
        }
        let pos: usize = lower_bound(&self.shared, id);
        if pos < self.shared.len() && self.shared[pos].0.get() == id {
            assert(self.spec_shared()[pos as int].0.spec_get() == id);
            Some(self.shared[pos].1)
        } else {
            assert forall|k: int| 0 <= k < self.spec_shared().len() implies (
            #[trigger] self.spec_shared()[k]).0.spec_get() != id by {
                if k > pos {
                    assert(self.shared@[pos as int].0.spec_get() < self.shared@[k].0.spec_get());
                }
            }
            None
        }
    }
}

/// One registered pair with its dispatcher, as the build works on it.
#[derive(Clone, Copy)]
struct Entry<D> {
    actor: ActorRtti,
    message: usize,
    dispatcher: D,
}

impl<D: Copy> Entry<D> {
    spec fn pair(self) -> (usize, usize) {
        (self.actor.spec_identity(), self.message)
    }
}

/// Whether the entries are in pair order, with no pair twice.
spec fn entries_sorted<D: Copy>(entries: Seq<Entry<D>>) -> bool {
    forall|i: int, j: int|
        #![trigger entries[i], entries[j]]
        0 <= i < j < entries.len() ==> pair_before(entries[i].pair(), entries[j].pair())
}

/// Whether the entries hold each registered pair with its first dispatcher.
spec fn entries_cover<D: Copy>(
    entries: Seq<Entry<D>>,
    regs: Seq<DynamicHandlerRegistration<D>>,
) -> bool {
    &&& forall|k: int|
        0 <= k < entries.len() ==> find_handler(
            regs,
            (#[trigger] entries[k]).pair().0,
            entries[k].pair().1,
        ) == Some(entries[k].dispatcher)
    &&& forall|a: usize, m: usize| #[trigger]
        find_handler(regs, a, m) is Some ==> exists|k: int|
            0 <= k < entries.len() && (#[trigger] entries[k]).pair() == (a, m)
}

/// The first position in `entries` whose pair is not before `(actor, message)`.
fn entry_position<D: Copy>(entries: &Vec<Entry<D>>, actor: usize, message: usize) -> (pos: usize)
    requires
        entries_sorted(entries@),
    ensures
        pos <= entries.len(),
        forall|i: int|
            0 <= i < pos ==> pair_before((#[trigger] entries@[i]).pair(), (actor, message)),
        forall|i: int|
            pos <= i < entries.len() ==> !pair_before(
                (#[trigger] entries@[i]).pair(),
                (actor, message),
            ),
{
    let mut low: usize = 0;
    let mut high: usize = entries.len();
    while low < high
        invariant
            low <= high <= entries.len(),
            entries_sorted(entries@),
            forall|i: int|
                0 <= i < low ==> pair_before((#[trigger] entries@[i]).pair(), (actor, message)),
            forall|i: int|
                high <= i < entries.len() ==> !pair_before(
                    (#[trigger] entries@[i]).pair(),
                    (actor, message),
                ),
        decreases high - low,
    {
        let mid: usize = low + (high - low) / 2;
        let a: usize = entries[mid].actor.identity();
        let m: usize = entries[mid].message;
        if a < actor || (a == actor && m < message) {
            low = mid + 1;
        } else {
            high = mid;
        }
    }
    low
}

/// Collect the registrations in pair order. Duplicate registrations of a pair
/// collapse into the first.
fn sorted_entries<D: Copy>(regs: &Vec<DynamicHandlerRegistration<D>>) -> (entries: Vec<Entry<D>>)
    ensures
        entries_sorted(entries@),
        entries_cover(entries@, regs@),
        entries.len() <= regs.len(),
        forall|k: int|
            0 <= k < entries.len() ==> names_actor(regs@, (#[trigger] entries@[k]).actor),
{
    let mut entries: Vec<Entry<D>> = Vec::new();
    let mut i: usize = 0;
    while i < regs.len()
        invariant
            i <= regs.len(),
            entries.len() <= i,
            entries_sorted(entries@),
            entries_cover(entries@, regs@.take(i as int)),
            forall|k: int|
                0 <= k < entries.len() ==> names_actor(regs@, (#[trigger] entries@[k]).actor),
        decreases regs.len() - i,
    {
        let ghost before = regs@.take(i as int);
        let ghost after = regs@.take(i + 1);
        let ghost previous = entries@;
        assert(after.drop_last() == before);
        assert(after.last() == regs@[i as int]);
        let reg = regs[i];
        let actor: usize = reg.actor.identity();
        let message: usize = reg.message.identity();
        let pos: usize = entry_position(&entries, actor, message);
        if pos < entries.len() && entries[pos].actor.identity() == actor && entries[pos].message
            == message {
            assert(find_handler(before, actor, message) is Some);
            assert forall|a: usize, m: usize| #[trigger]
                find_handler(after, a, m) is Some implies exists|k: int|
                0 <= k < entries.len() && (#[trigger] entries@[k]).pair() == (a, m) by {
                assert(find_handler(before, a, m) is Some);
            }
            assert(entries_cover(entries@, after));
        } else {
            entries.insert(pos, Entry { actor: reg.actor, message, dispatcher: reg.dispatcher });
            proof {
                assert(entries@ == previous.insert(
                    pos as int,
                    Entry { actor: reg.actor, message, dispatcher: reg.dispatcher },
                ));
                if find_handler(before, actor, message) is Some {
                    let k = choose|k: int|
                        0 <= k < previous.len() && (#[trigger] previous[k]).pair() == (
                            actor,
                            message,
                        );
                    assert(k != pos);
                    if k > pos {
                        assert(pair_before(previous[pos as int].pair(), previous[k].pair()));
                    }
                    assert(false);
                }
                assert forall|k: int| 0 <= k < entries.len() implies find_handler(
                    after,
                    (#[trigger] entries@[k]).pair().0,
                    entries@[k].pair().1,
                ) == Some(entries@[k].dispatcher) by {
                    if k < pos {
                        assert(entries@[k] == previous[k]);
                    } else if k > pos {
                        assert(entries@[k] == previous[k - 1]);
                    }
                }
                assert forall|a: usize, m: usize| #[trigger]
                    find_handler(after, a, m) is Some implies exists|k: int|
                    0 <= k < entries.len() && (#[trigger] entries@[k]).pair() == (a, m) by {
                    if find_handler(before, a, m) is Some {
                        let k = choose|k: int|
                            0 <= k < previous.len() && (#[trigger] previous[k]).pair() == (a, m);
                        if k < pos {
                            assert(entries@[k] == previous[k]);
                        } else {
                            assert(entries@[k + 1] == previous[k]);
                        }
                    } else {
                        assert(entries@[pos as int].pair() == (a, m));
                    }
                }
                assert forall|k: int| 0 <= k < entries.len() implies names_actor(
                    regs@,
                    (#[trigger] entries@[k]).actor,
                ) by {
                    if k < pos {
                        assert(entries@[k] == previous[k]);
                    } else if k > pos {
                        assert(entries@[k] == previous[k - 1]);
                    } else {
                        assert(regs@[i as int].spec_actor() == entries@[k].actor);
                    }
                }
                assert forall|x: int, y: int| 0 <= x < y < entries.len() implies pair_before(
                    (#[trigger] entries@[x]).pair(),
                    (#[trigger] entries@[y]).pair(),
                ) by {
                    if y < pos {
                        assert(entries@[x] == previous[x] && entries@[y] == previous[y]);
                    } else if y == pos {
                        assert(entries@[x] == previous[x]);
                    } else if x < pos {
                        assert(entries@[x] == previous[x] && entries@[y] == previous[y - 1]);
                    } else if x == pos {
                        assert(entries@[y] == previous[y - 1]);
                        if y - 1 > pos {
                            assert(pair_before(previous[pos as int].pair(), previous[y - 1].pair()));
                        }
                    } else {
                        assert(entries@[x] == previous[x - 1] && entries@[y] == previous[y - 1]);
                    }
                }
            }
        }
        i = i + 1;
    }
    assert(regs@.take(i as int) == regs@);
    entries
}

/// Among the first `n` entries, the messages that one actor type handles.
spec fn unique_before<D: Copy>(
    pairs: Set<(usize, usize)>,
    entries: Seq<Entry<D>>,
    n: int,
) -> Set<usize> {
    Set::new(
        |x: usize|
            !is_shared(pairs, x) && exists|k: int|
                0 <= k < n && (#[trigger] entries[k]).message == x,
    )
}

/// Among the first `n` entries, the messages that several actor types handle.
spec fn shared_before<D: Copy>(
    pairs: Set<(usize, usize)>,
    entries: Seq<Entry<D>>,
    n: int,
) -> Set<usize> {
    Set::new(
        |x: usize|
            is_shared(pairs, x) && exists|k: int|
                0 <= k < n && (#[trigger] entries[k]).message == x,
    )
}

/// Whether `entries` is the pair-ordered listing of `pairs`.
spec fn lists<D: Copy>(entries: Seq<Entry<D>>, pairs: Set<(usize, usize)>) -> bool {
    &&& entries_sorted(entries)
    &&& forall|k: int| 0 <= k < entries.len() ==> pairs.contains((#[trigger] entries[k]).pair())
    &&& forall|a: usize, m: usize| #[trigger]
        pairs.contains((a, m)) ==> exists|k: int|
            0 <= k < entries.len() && (#[trigger] entries[k]).pair() == (a, m)
}

proof fn lists_from_cover<D: Copy>(
    entries: Seq<Entry<D>>,
    regs: Seq<DynamicHandlerRegistration<D>>,
)
    requires
        entries_sorted(entries),
        entries_cover(entries, regs),
    ensures
        lists(entries, handled_pairs(regs)),
{
    let pairs = handled_pairs(regs);
    assert forall|a: usize, m: usize| #[trigger] pairs.contains((a, m)) implies exists|k: int|
        0 <= k < entries.len() && (#[trigger] entries[k]).pair() == (a, m) by {
        assert(find_handler(regs, a, m) is Some);
    }
}

/// The position of a registered pair in the listing.
spec fn index_of<D: Copy>(entries: Seq<Entry<D>>, a: usize, m: usize) -> int {
    choose|k: int| 0 <= k < entries.len() && (#[trigger] entries[k]).pair() == (a, m)
}

/// Two entries of one message make it shared, and the other way round.
proof fn shared_means_two_entries<D: Copy>(
    pairs: Set<(usize, usize)>,
    entries: Seq<Entry<D>>,
    m: usize,
)
    requires
        lists(entries, pairs),
    ensures
        is_shared(pairs, m) <==> exists|i: int, j: int|
            0 <= i < j < entries.len() && (#[trigger] entries[i]).message == m && (
            #[trigger] entries[j]).message == m,
{
    if is_shared(pairs, m) {
        let (a, b) = choose|a: usize, b: usize|
            a != b && pairs.contains((a, m)) && pairs.contains((b, m));
        let i = index_of(entries, a, m);
        let j = index_of(entries, b, m);
        assert(entries[i].message == m && entries[j].message == m);
        assert(i < j || j < i);
    }
    if exists|i: int, j: int|
        0 <= i < j < entries.len() && (#[trigger] entries[i]).message == m && (
        #[trigger] entries[j]).message == m {
        let (i, j) = choose|i: int, j: int|
            0 <= i < j < entries.len() && (#[trigger] entries[i]).message == m && (
            #[trigger] entries[j]).message == m;
        assert(pair_before(entries[i].pair(), entries[j].pair()));
        assert(pairs.contains((entries[i].pair().0, m)) && pairs.contains(
            (entries[j].pair().0, m),
        ));
    }
}

/// Taking one more entry adds its message to its group.
proof fn group_step<D: Copy>(pairs: Set<(usize, usize)>, entries: Seq<Entry<D>>, n: int)
    requires
        lists(entries, pairs),
        0 <= n < entries.len(),
    ensures
        is_shared(pairs, entries[n].message) ==> unique_before(pairs, entries, n + 1)
            == unique_before(pairs, entries, n) && shared_before(pairs, entries, n + 1)
            == shared_before(pairs, entries, n).insert(entries[n].message),
        !is_shared(pairs, entries[n].message) ==> unique_before(pairs, entries, n + 1)
            == unique_before(pairs, entries, n).insert(entries[n].message) && shared_before(
            pairs,
            entries,
            n + 1,
        ) == shared_before(pairs, entries, n) && !unique_before(pairs, entries, n).contains(
            entries[n].message,
        ),
{
    let m = entries[n].message;
    shared_means_two_entries(pairs, entries, m);
    assert(unique_before(pairs, entries, n + 1) =~= if is_shared(pairs, m) {
        unique_before(pairs, entries, n)
    } else {
        unique_before(pairs, entries, n).insert(m)
    });
    assert(shared_before(pairs, entries, n + 1) =~= if is_shared(pairs, m) {
        shared_before(pairs, entries, n).insert(m)
    } else {
        shared_before(pairs, entries, n)
    });
}

/// The groups are finite and no larger than the number of entries taken.
proof fn groups_are_finite<D: Copy>(pairs: Set<(usize, usize)>, entries: Seq<Entry<D>>, n: int)
    requires
        lists(entries, pairs),
        0 <= n <= entries.len(),
    ensures
        unique_before(pairs, entries, n).finite(),
        shared_before(pairs, entries, n).finite(),
        unique_before(pairs, entries, n).len() + shared_before(pairs, entries, n).len() <= n,
    decreases n,
{
    if n == 0 {
        assert(unique_before(pairs, entries, 0) =~= Set::empty());
        assert(shared_before(pairs, entries, 0) =~= Set::empty());
    } else {
        groups_are_finite(pairs, entries, n - 1);
        group_step(pairs, entries, n - 1);
    }
}

/// The number of uniquely handled messages grows with the entries taken.
proof fn unique_count_grows<D: Copy>(
    pairs: Set<(usize, usize)>,
    entries: Seq<Entry<D>>,
    i: int,
    j: int,
)
    requires
        lists(entries, pairs),
        0 <= i <= j <= entries.len(),
    ensures
        unique_before(pairs, entries, i).len() <= unique_before(pairs, entries, j).len(),
{
    groups_are_finite(pairs, entries, j);
    assert(unique_before(pairs, entries, i).subset_of(unique_before(pairs, entries, j)));
    vstd::set_lib::lemma_len_subset(
        unique_before(pairs, entries, i),
        unique_before(pairs, entries, j),
    );
}

/// The lowest actor handling a registered message exists, and is the one of the
/// message's first entry.
proof fn first_entry_names_first_actor<D: Copy>(
    pairs: Set<(usize, usize)>,
    entries: Seq<Entry<D>>,
    n: int,
)
    requires
        lists(entries, pairs),
        0 <= n < entries.len(),
        forall|k: int| 0 <= k < n ==> (#[trigger] entries[k]).message != entries[n].message,
    ensures
        is_first_actor(pairs, entries[n].message, entries[n].pair().0),
        first_actor(pairs, entries[n].message) == entries[n].pair().0,
{
    let m = entries[n].message;
    let a = entries[n].pair().0;
    assert forall|b: usize| pairs.contains((b, m)) implies a <= b by {
        let k = index_of(entries, b, m);
        assert(entries[k].message == m);
        if k > n {
            assert(pair_before(entries[n].pair(), entries[k].pair()));
        }
    }
    assert(is_first_actor(pairs, m, a));
    let f = first_actor(pairs, m);
    assert(is_first_actor(pairs, m, f));
    assert(a <= f && f <= a);
}

/// The position of the first entry of message `m`, at or below `k`.
proof fn first_entry_of<D: Copy>(entries: Seq<Entry<D>>, m: usize, k: int) -> (n: int)
    requires
        0 <= k < entries.len(),
        entries[k].message == m,
    ensures
        0 <= n <= k,
        entries[n].message == m,
        forall|i: int| 0 <= i < n ==> (#[trigger] entries[i]).message != m,
    decreases k,
{
    if exists|i: int| 0 <= i < k && (#[trigger] entries[i]).message == m {
        let i = choose|i: int| 0 <= i < k && (#[trigger] entries[i]).message == m;
        first_entry_of(entries, m, i)
    } else {
        k
    }
}

/// A registered message has an entry.
proof fn registered_has_entry<D: Copy>(
    pairs: Set<(usize, usize)>,
    entries: Seq<Entry<D>>,
    m: usize,
) -> (k: int)
    requires
        lists(entries, pairs),
        is_registered(pairs, m),
    ensures
        0 <= k < entries.len(),
        entries[k].message == m,
{
    let a = choose|a: usize| pairs.contains((a, m));
    index_of(entries, a, m)
}

/// What comes before a message is what was taken before its first entry: the
/// unique messages, and for a shared message all unique ones besides.
proof fn preceding_is_what_was_taken<D: Copy>(
    pairs: Set<(usize, usize)>,
    entries: Seq<Entry<D>>,
    n: int,
)
    requires
        lists(entries, pairs),
        0 <= n < entries.len(),
        forall|k: int| 0 <= k < n ==> (#[trigger] entries[k]).message != entries[n].message,
    ensures
        !is_shared(pairs, entries[n].message) ==> preceding(pairs, entries[n].message)
            == unique_before(pairs, entries, n),
        is_shared(pairs, entries[n].message) ==> preceding(pairs, entries[n].message)
            == unique_before(pairs, entries, entries.len() as int).union(
            shared_before(pairs, entries, n),
        ),
{
    let m = entries[n].message;
    first_entry_names_first_actor(pairs, entries, n);
    let taken = if is_shared(pairs, m) {
        unique_before(pairs, entries, entries.len() as int).union(shared_before(pairs, entries, n))
    } else {
        unique_before(pairs, entries, n)
    };
    assert forall|x: usize| preceding(pairs, m).contains(x) <==> taken.contains(x) by {
        if is_registered(pairs, x) {
            let k0 = registered_has_entry(pairs, entries, x);
            let k = first_entry_of(entries, x, k0);
            first_entry_names_first_actor(pairs, entries, k);
            if x != m {
                assert(k != n);
                if k < n {
                    assert(pair_before(entries[k].pair(), entries[n].pair()));
                } else {
                    assert(pair_before(entries[n].pair(), entries[k].pair()));
                }
            }
        } else {
            assert forall|k: int| 0 <= k < entries.len() implies (
            #[trigger] entries[k]).message != x by {
                assert(pairs.contains(entries[k].pair()));
            }
        }
    }
    assert(preceding(pairs, m) =~= taken);
}

/// The ID of a uniquely handled message counts the unique messages before it.
proof fn unique_dispatch_id<D: Copy>(pairs: Set<(usize, usize)>, entries: Seq<Entry<D>>, n: int)
    requires
        lists(entries, pairs),
        0 <= n < entries.len(),
        !is_shared(pairs, entries[n].message),
    ensures
        dispatch_id(pairs, entries[n].message) == 1 + unique_before(pairs, entries, n).len(),
{
    shared_means_two_entries(pairs, entries, entries[n].message);
    preceding_is_what_was_taken(pairs, entries, n);
}

/// The ID of a shared message, from its first entry.
proof fn shared_dispatch_id<D: Copy>(pairs: Set<(usize, usize)>, entries: Seq<Entry<D>>, n: int)
    requires
        lists(entries, pairs),
        0 <= n < entries.len(),
        is_shared(pairs, entries[n].message),
        forall|k: int| 0 <= k < n ==> (#[trigger] entries[k]).message != entries[n].message,
    ensures
        dispatch_id(pairs, entries[n].message) == 1 + unique_before(
            pairs,
            entries,
            entries.len() as int,
        ).len() + shared_before(pairs, entries, n).len(),
{
    preceding_is_what_was_taken(pairs, entries, n);
    let all = entries.len() as int;
    groups_are_finite(pairs, entries, all);
    groups_are_finite(pairs, entries, n);
    assert(unique_before(pairs, entries, all).disjoint(shared_before(pairs, entries, n)));
    vstd::set_lib::lemma_set_disjoint_lens(
        unique_before(pairs, entries, all),
        shared_before(pairs, entries, n),
    );
}

/// The number of shared messages grows with the entries taken.
proof fn shared_count_grows<D: Copy>(
    pairs: Set<(usize, usize)>,
    entries: Seq<Entry<D>>,
    i: int,
    j: int,
)
    requires
        lists(entries, pairs),
        0 <= i <= j <= entries.len(),
    ensures
        shared_before(pairs, entries, i).len() <= shared_before(pairs, entries, j).len(),
{
    groups_are_finite(pairs, entries, j);
    assert(shared_before(pairs, entries, i).subset_of(shared_before(pairs, entries, j)));
    vstd::set_lib::lemma_len_subset(
        shared_before(pairs, entries, i),
        shared_before(pairs, entries, j),
    );
}

/// IDs of uniquely handled messages come first: they lie in `1..=U` for `U`
/// such messages, and those of shared messages above, up to the number of
/// registered pairs.
proof fn dispatch_id_ranges<D: Copy>(pairs: Set<(usize, usize)>, entries: Seq<Entry<D>>, m: usize)
    requires
        lists(entries, pairs),
        is_registered(pairs, m),
    ensures
        1 <= dispatch_id(pairs, m) <= entries.len(),
        !is_shared(pairs, m) <==> dispatch_id(pairs, m) <= unique_before(
            pairs,
            entries,
            entries.len() as int,
        ).len(),
{
    let k0 = registered_has_entry(pairs, entries, m);
    let k = first_entry_of(entries, m, k0);
    let all = entries.len() as int;
    groups_are_finite(pairs, entries, all);
    groups_are_finite(pairs, entries, k);
    groups_are_finite(pairs, entries, k + 1);
    group_step(pairs, entries, k);
    unique_count_grows(pairs, entries, k + 1, all);
    shared_count_grows(pairs, entries, k + 1, all);
    if is_shared(pairs, m) {
        shared_dispatch_id(pairs, entries, k);
        assert(!shared_before(pairs, entries, k).contains(m));
    } else {
        unique_dispatch_id(pairs, entries, k);
    }
}

/// Later first entries of the same group get larger IDs.
proof fn dispatch_id_increases<D: Copy>(
    pairs: Set<(usize, usize)>,
    entries: Seq<Entry<D>>,
    i: int,
    j: int,
)
    requires
        lists(entries, pairs),
        0 <= i < j < entries.len(),
        is_shared(pairs, entries[i].message) == is_shared(pairs, entries[j].message),
        forall|k: int| 0 <= k < i ==> (#[trigger] entries[k]).message != entries[i].message,
        forall|k: int| 0 <= k < j ==> (#[trigger] entries[k]).message != entries[j].message,
    ensures
        dispatch_id(pairs, entries[i].message) < dispatch_id(pairs, entries[j].message),
{
    groups_are_finite(pairs, entries, i);
    group_step(pairs, entries, i);
    if is_shared(pairs, entries[i].message) {
        shared_dispatch_id(pairs, entries, i);
        shared_dispatch_id(pairs, entries, j);
        assert(!shared_before(pairs, entries, i).contains(entries[i].message));
        shared_count_grows(pairs, entries, i + 1, j);
    } else {
        unique_dispatch_id(pairs, entries, i);
        unique_dispatch_id(pairs, entries, j);
        unique_count_grows(pairs, entries, i + 1, j);
    }
}

/// Distinct registered messages have distinct IDs.
proof fn dispatch_ids_differ<D: Copy>(
    pairs: Set<(usize, usize)>,
    entries: Seq<Entry<D>>,
    m: usize,
    n: usize,
)
    requires
        lists(entries, pairs),
        is_registered(pairs, m),
        is_registered(pairs, n),
        m != n,
    ensures
        dispatch_id(pairs, m) != dispatch_id(pairs, n),
{
    dispatch_id_ranges(pairs, entries, m);
    dispatch_id_ranges(pairs, entries, n);
    let i0 = registered_has_entry(pairs, entries, m);
    let i = first_entry_of(entries, m, i0);
    let j0 = registered_has_entry(pairs, entries, n);
    let j = first_entry_of(entries, n, j0);
    if is_shared(pairs, m) == is_shared(pairs, n) {
        if i < j {
            dispatch_id_increases(pairs, entries, i, j);
        } else {
            dispatch_id_increases(pairs, entries, j, i);
        }
    }
}

/// For each message among the entries, whether a second entry names it too.
fn shared_flags<D: Copy>(entries: &Vec<Entry<D>>) -> (flags: BTreeMap<usize, bool>)
    ensures
        forall|k: int|
            0 <= k < entries.len() ==> flags@.contains_key((#[trigger] entries@[k]).message),
        forall|m: usize| #[trigger]
            flags@.contains_key(m) ==> (flags@[m] <==> exists|i: int, j: int|
                0 <= i < j < entries.len() && (#[trigger] entries@[i]).message == m && (
                #[trigger] entries@[j]).message == m),
{
    let mut flags: BTreeMap<usize, bool> = BTreeMap::new();
    let mut n: usize = 0;
    while n < entries.len()
        invariant
            n <= entries.len(),
            forall|k: int|
                0 <= k < n ==> flags@.contains_key((#[trigger] entries@[k]).message),
            forall|m: usize| #[trigger]
                flags@.contains_key(m) ==> exists|k: int|
                    0 <= k < n && (#[trigger] entries@[k]).message == m,
            forall|m: usize| #[trigger]
                flags@.contains_key(m) ==> (flags@[m] <==> exists|i: int, j: int|
                    0 <= i < j < n && (#[trigger] entries@[i]).message == m && (
                    #[trigger] entries@[j]).message == m),
        decreases entries.len() - n,
    {
        let message: usize = entries[n].message;
        let ghost before = flags@;
        let seen: bool = flags.contains_key(&message);
        flags.insert(message, seen);
        proof {
            assert(flags@ == before.insert(message, seen));
            if seen {
                let k = choose|k: int| 0 <= k < n && (#[trigger] entries@[k]).message == message;
                assert(entries@[k].message == message && entries@[n as int].message == message);
            }
            assert forall|m: usize| #[trigger] flags@.contains_key(m) implies exists|k: int|
                0 <= k < n + 1 && (#[trigger] entries@[k]).message == m by {
                if m == message {
                    assert(entries@[n as int].message == m);
                } else {
                    assert(before.contains_key(m));
                }
            }
            assert forall|m: usize| #[trigger] flags@.contains_key(m) implies (flags@[m]
                <==> exists|i: int, j: int|
                0 <= i < j < n + 1 && (#[trigger] entries@[i]).message == m && (
                #[trigger] entries@[j]).message == m) by {
                if m != message {
                    assert(before.contains_key(m));
                }
            }
        }
        n = n + 1;
    }
    flags
}

/// Whether no identity occurs twice among the message RTTIs.
pub open spec fn distinct_identities(messages: Seq<MessageRtti>) -> bool {
    forall|i: int, j: int|
        0 <= i < j < messages.len() ==> (#[trigger] messages[i]).spec_identity() != (
        #[trigger] messages[j]).spec_identity()
}

/// Whether the message with the given identity is among the RTTIs, with no
/// dispatch ID assigned yet.
pub open spec fn is_assignable(messages: Seq<MessageRtti>, identity: usize) -> bool {
    exists|i: int|
        0 <= i < messages.len() && (#[trigger] messages[i]).spec_identity() == identity
            && messages[i].dispatch_slot() == 0
}

/// The RTTIs after the messages in `assigned` got their dispatch IDs.
pub open spec fn with_assigned_ids(
    pairs: Set<(usize, usize)>,
    messages: Seq<MessageRtti>,
    assigned: Set<usize>,
) -> Seq<MessageRtti> {
    messages.map_values(
        |rtti: MessageRtti|
            if assigned.contains(rtti.spec_identity()) {
                rtti.with_dispatch_slot(dispatch_id(pairs, rtti.spec_identity()) as usize)
            } else {
                rtti
            },
    )
}

/// Give the message with the given identity its dispatch ID.
fn assign_id(
    messages: &mut Vec<MessageRtti>,
    identity: usize,
    id: usize,
    Ghost(pairs): Ghost<Set<(usize, usize)>>,
    Ghost(initial): Ghost<Seq<MessageRtti>>,
    Ghost(assigned): Ghost<Set<usize>>,
)
    requires
        distinct_identities(initial),
        old(messages)@ == with_assigned_ids(pairs, initial, assigned),
        is_assignable(initial, identity),
        !assigned.contains(identity),
        id != 0,
        id == dispatch_id(pairs, identity),
    ensures
        final(messages)@ == with_assigned_ids(pairs, initial, assigned.insert(identity)),
{
    broadcast use with_dispatch_slot_keeps_the_rest;

    let mut i: usize = 0;
    while i < messages.len() && messages[i].identity() != identity
        invariant
            i <= messages.len(),
            messages@ == with_assigned_ids(pairs, initial, assigned),
            forall|k: int| 0 <= k < i ==> (#[trigger] messages@[k]).spec_identity() != identity,
        decreases messages.len() - i,
    {
        i = i + 1;
    }
    let ghost at = choose|i: int|
        0 <= i < initial.len() && (#[trigger] initial[i]).spec_identity() == identity
            && initial[i].dispatch_slot() == 0;
    assert(messages@[at].spec_identity() == identity);
    assert(i <= at);
    assert(messages@[i as int].spec_identity() == initial[i as int].spec_identity());
    assert(i == at);
    let mut rtti = messages[i];
    if let Some(id) = DispatchId::new(id) {
        let result = rtti.assign_dynamic_dispatch_id(id);
        assert(result is Ok);
    }
    messages.set(i, rtti);
    assert(messages@ =~= with_assigned_ids(pairs, initial, assigned.insert(identity))) by {
        assert forall|k: int| 0 <= k < initial.len() && k != at implies (
        #[trigger] initial[k]).spec_identity() != identity by {}
    }
}

/// Whether every entry names one of the message RTTIs, with a free ID slot.
spec fn entries_assignable<D: Copy>(entries: Seq<Entry<D>>, messages: Seq<MessageRtti>) -> bool {
    forall|k: int|
        0 <= k < entries.len() ==> is_assignable(messages, (#[trigger] entries[k]).message)
}

/// Whether `flags` tells the shared messages among the entries from the others.
spec fn flags_match<D: Copy>(
    flags: Map<usize, bool>,
    entries: Seq<Entry<D>>,
    pairs: Set<(usize, usize)>,
) -> bool {
    forall|k: int|
        0 <= k < entries.len() ==> flags.contains_key((#[trigger] entries[k]).message)
            && flags[entries[k].message] == is_shared(pairs, entries[k].message)
}

/// Whether the message of an entry has more than one handling actor type.
fn entry_is_shared<D: Copy>(
    flags: &BTreeMap<usize, bool>,
    entries: &Vec<Entry<D>>,
    k: usize,
    Ghost(pairs): Ghost<Set<(usize, usize)>>,
) -> (shared: bool)
    requires
        flags_match(flags@, entries@, pairs),
        k < entries.len(),
    ensures
        shared == is_shared(pairs, entries@[k as int].message),
{
    assert(flags@.contains_key(entries@[k as int].message));
    match flags.get(&entries[k].message) {
        Some(shared) => *shared,
        None => false,
    }
}

/// Messages handled by exactly one actor type get consecutive IDs, in entry
/// order. Returns the next free ID.
fn assign_unique_ids<D: Copy>(
    entries: &Vec<Entry<D>>,
    flags: &BTreeMap<usize, bool>,
    messages: &mut Vec<MessageRtti>,
    Ghost(pairs): Ghost<Set<(usize, usize)>>,
) -> (next_id: usize)
    requires
        lists(entries@, pairs),
        flags_match(flags@, entries@, pairs),
        distinct_identities(old(messages)@),
        entries_assignable(entries@, old(messages)@),
        entries.len() < usize::MAX,
    ensures
        next_id == 1 + unique_before(pairs, entries@, entries.len() as int).len(),
        final(messages)@ == with_assigned_ids(
            pairs,
            old(messages)@,
            unique_before(pairs, entries@, entries.len() as int),
        ),
{
    // IDs start at 1: zero is the unassigned sentinel of the RTTI slot.
    let mut next_id: usize = 1;
    let ghost initial = messages@;
    let mut n: usize = 0;
    proof {
        assert(unique_before(pairs, entries@, 0) =~= Set::empty());
        assert(with_assigned_ids(pairs, initial, Set::empty()) =~= initial);
    }
    while n < entries.len()
        invariant
            n <= entries.len(),
            entries.len() < usize::MAX,
            lists(entries@, pairs),
            flags_match(flags@, entries@, pairs),
            distinct_identities(initial),
            entries_assignable(entries@, initial),
            next_id == 1 + unique_before(pairs, entries@, n as int).len(),
            messages@ == with_assigned_ids(
                pairs,
                initial,
                unique_before(pairs, entries@, n as int),
            ),
        decreases entries.len() - n,
    {
        proof {
            group_step(pairs, entries@, n as int);
            groups_are_finite(pairs, entries@, n as int);
        }
        if !entry_is_shared(flags, entries, n, Ghost(pairs)) {
            proof {
                unique_dispatch_id(pairs, entries@, n as int);
            }
            assign_id(
                messages,
                entries[n].message,
                next_id,
                Ghost(pairs),
                Ghost(initial),
                Ghost(unique_before(pairs, entries@, n as int)),
            );
            next_id = next_id + 1;
        }
        n = n + 1;
    }
    next_id
}

/// Messages handled by several actor types get the remaining IDs, once per
/// message, in entry order. Returns their IDs by message identity.
fn assign_shared_ids<D: Copy>(
    entries: &Vec<Entry<D>>,
    flags: &BTreeMap<usize, bool>,
    messages: &mut Vec<MessageRtti>,
    first_id: usize,
    Ghost(pairs): Ghost<Set<(usize, usize)>>,
    Ghost(initial): Ghost<Seq<MessageRtti>>,
) -> (ids: BTreeMap<usize, usize>)
    requires
        lists(entries@, pairs),
        flags_match(flags@, entries@, pairs),
        distinct_identities(initial),
        entries_assignable(entries@, initial),
        entries.len() < usize::MAX,
        first_id == 1 + unique_before(pairs, entries@, entries.len() as int).len(),
        old(messages)@ == with_assigned_ids(
            pairs,
            initial,
            unique_before(pairs, entries@, entries.len() as int),
        ),
    ensures
        ids@.dom() == shared_before(pairs, entries@, entries.len() as int),
        forall|m: usize| #[trigger]
            ids@.contains_key(m) ==> ids@[m] == dispatch_id(pairs, m) && ids@[m] != 0,
        final(messages)@ == with_assigned_ids(
            pairs,
            initial,
            unique_before(pairs, entries@, entries.len() as int).union(
                shared_before(pairs, entries@, entries.len() as int),
            ),
        ),
{
    let mut ids: BTreeMap<usize, usize> = BTreeMap::new();
    let mut next_id: usize = first_id;
    let ghost all = unique_before(pairs, entries@, entries.len() as int);
    let mut n: usize = 0;
    proof {
        assert(shared_before(pairs, entries@, 0) =~= Set::empty());
        assert(all.union(Set::empty()) =~= all);
    }
    while n < entries.len()
        invariant
            n <= entries.len(),
            entries.len() < usize::MAX,
            lists(entries@, pairs),
            flags_match(flags@, entries@, pairs),
            distinct_identities(initial),
            entries_assignable(entries@, initial),
            all == unique_before(pairs, entries@, entries.len() as int),
            next_id == 1 + all.len() + shared_before(pairs, entries@, n as int).len(),
            ids@.dom() == shared_before(pairs, entries@, n as int),
            forall|m: usize| #[trigger]
                ids@.contains_key(m) ==> ids@[m] == dispatch_id(pairs, m) && ids@[m] != 0,
            messages@ == with_assigned_ids(
                pairs,
                initial,
                all.union(shared_before(pairs, entries@, n as int)),
            ),
        decreases entries.len() - n,
    {
        let message: usize = entries[n].message;
        let ghost taken = shared_before(pairs, entries@, n as int);
        proof {
            group_step(pairs, entries@, n as int);
            groups_are_finite(pairs, entries@, n as int);
            groups_are_finite(pairs, entries@, n + 1);
            groups_are_finite(pairs, entries@, entries.len() as int);
            shared_count_grows(pairs, entries@, n + 1, entries.len() as int);
        }
        if entry_is_shared(flags, entries, n, Ghost(pairs)) {
            if ids.contains_key(&message) {
                assert(taken.insert(message) =~= taken);
            } else {
                assert(!taken.contains(message)) by {
                    assert(!ids@.dom().contains(message));
                }
                proof {
                    assert forall|k: int| 0 <= k < n implies (
                    #[trigger] entries@[k]).message != message by {}
                    shared_dispatch_id(pairs, entries@, n as int);
                    assert(!all.union(taken).contains(message));
                }
                assign_id(
                    messages,
                    message,
                    next_id,
                    Ghost(pairs),
                    Ghost(initial),
                    Ghost(all.union(taken)),
                );
                ids.insert(message, next_id);
                next_id = next_id + 1;
                assert(all.union(taken).insert(message) =~= all.union(taken.insert(message)));
                assert(ids@.dom() =~= taken.insert(message));
            }
        }
        n = n + 1;
    }
    ids
}

/// The offset of entry `k`'s ID in the unique range of the actor whose entries
/// begin at `start`, when entry `k` names a uniquely handled message.
spec fn unique_offset<D: Copy>(
    pairs: Set<(usize, usize)>,
    entries: Seq<Entry<D>>,
    start: int,
    k: int,
) -> int {
    unique_before(pairs, entries, k).len() - unique_before(pairs, entries, start).len()
}

/// Whether one of entries `start..end` names the uniquely handled message at
/// offset `j`.
spec fn offset_taken<D: Copy>(
    pairs: Set<(usize, usize)>,
    entries: Seq<Entry<D>>,
    start: int,
    end: int,
    j: int,
) -> bool {
    exists|k: int|
        start <= k < end && !is_shared(pairs, (#[trigger] entries[k]).message) && unique_offset(
            pairs,
            entries,
            start,
            k,
        ) == j
}

/// Whether `unique` holds the dispatchers of the uniquely handled messages among
/// entries `start..end`, by their offset.
spec fn unique_matches<D: Copy>(
    pairs: Set<(usize, usize)>,
    entries: Seq<Entry<D>>,
    start: int,
    end: int,
    unique: Seq<D>,
) -> bool {
    &&& unique.len() == unique_offset(pairs, entries, start, end)
    &&& forall|k: int|
        start <= k < end && !is_shared(pairs, (#[trigger] entries[k]).message) ==> 0
            <= unique_offset(pairs, entries, start, k) < unique.len() && unique[unique_offset(
            pairs,
            entries,
            start,
            k,
        )] == entries[k].dispatcher
    &&& forall|j: int|
        0 <= j < unique.len() ==> #[trigger] offset_taken(pairs, entries, start, end, j)
}

/// Whether entry `k` names a shared message and is what `slot` holds.
spec fn shared_entry_is<D: Copy>(
    pairs: Set<(usize, usize)>,
    entry: Entry<D>,
    slot: (DispatchId, D),
) -> bool {
    &&& is_shared(pairs, entry.message)
    &&& slot.0.spec_get() == dispatch_id(pairs, entry.message)
    &&& slot.1 == entry.dispatcher
}

/// Whether `shared` holds the entry's ID and dispatcher.
spec fn entry_held<D: Copy>(
    pairs: Set<(usize, usize)>,
    entry: Entry<D>,
    shared: Seq<(DispatchId, D)>,
) -> bool {
    exists|j: int|
        0 <= j < shared.len() && shared_entry_is(pairs, entry, #[trigger] shared[j])
}

/// Whether `slot` comes from one of entries `start..end`.
spec fn slot_taken<D: Copy>(
    pairs: Set<(usize, usize)>,
    entries: Seq<Entry<D>>,
    start: int,
    end: int,
    slot: (DispatchId, D),
) -> bool {
    exists|k: int| start <= k < end && shared_entry_is(pairs, #[trigger] entries[k], slot)
}

/// Whether `shared` holds the dispatchers of the shared messages among entries
/// `start..end`, by ID.
spec fn shared_matches<D: Copy>(
    pairs: Set<(usize, usize)>,
    entries: Seq<Entry<D>>,
    start: int,
    end: int,
    shared: Seq<(DispatchId, D)>,
) -> bool {
    &&& sorted_by_id(shared)
    &&& forall|k: int|
        start <= k < end && is_shared(pairs, (#[trigger] entries[k]).message) ==> entry_held(
            pairs,
            entries[k],
            shared,
        )
    &&& forall|j: int|
        0 <= j < shared.len() ==> #[trigger] slot_taken(pairs, entries, start, end, shared[j])
}

/// A shared entry leaves the unique dispatchers as they are.
proof fn unique_matches_skip<D: Copy>(
    pairs: Set<(usize, usize)>,
    entries: Seq<Entry<D>>,
    start: int,
    end: int,
    unique: Seq<D>,
)
    requires
        lists(entries, pairs),
        0 <= start <= end < entries.len(),
        is_shared(pairs, entries[end].message),
        unique_matches(pairs, entries, start, end, unique),
    ensures
        unique_matches(pairs, entries, start, end + 1, unique),
{
    group_step(pairs, entries, end);
    assert forall|j: int| 0 <= j < unique.len() implies #[trigger] offset_taken(
        pairs,
        entries,
        start,
        end + 1,
        j,
    ) by {
        assert(offset_taken(pairs, entries, start, end, j));
    }
}

/// A uniquely handled entry appends its dispatcher to the unique dispatchers.
proof fn unique_matches_push<D: Copy>(
    pairs: Set<(usize, usize)>,
    entries: Seq<Entry<D>>,
    start: int,
    end: int,
    unique: Seq<D>,
)
    requires
        lists(entries, pairs),
        0 <= start <= end < entries.len(),
        !is_shared(pairs, entries[end].message),
        unique_matches(pairs, entries, start, end, unique),
    ensures
        unique_matches(pairs, entries, start, end + 1, unique.push(entries[end].dispatcher)),
{
    group_step(pairs, entries, end);
    groups_are_finite(pairs, entries, end);
    let pushed = unique.push(entries[end].dispatcher);
    assert(unique_offset(pairs, entries, start, end) == unique.len());
    assert forall|j: int| 0 <= j < pushed.len() implies #[trigger] offset_taken(
        pairs,
        entries,
        start,
        end + 1,
        j,
    ) by {
        if j < unique.len() {
            assert(offset_taken(pairs, entries, start, end, j));
        } else {
            assert(!is_shared(pairs, entries[end].message));
        }
    }
}

/// A uniquely handled entry leaves the shared dispatchers as they are.
proof fn shared_matches_skip<D: Copy>(
    pairs: Set<(usize, usize)>,
    entries: Seq<Entry<D>>,
    start: int,
    end: int,
    shared: Seq<(DispatchId, D)>,
)
    requires
        0 <= start <= end < entries.len(),
        !is_shared(pairs, entries[end].message),
        shared_matches(pairs, entries, start, end, shared),
    ensures
        shared_matches(pairs, entries, start, end + 1, shared),
{
    assert forall|j: int| 0 <= j < shared.len() implies #[trigger] slot_taken(
        pairs,
        entries,
        start,
        end + 1,
        shared[j],
    ) by {
        assert(slot_taken(pairs, entries, start, end, shared[j]));
    }
}

/// A shared entry's ID is not yet among those of the actor's earlier entries.
proof fn shared_id_is_new<D: Copy>(
    pairs: Set<(usize, usize)>,
    entries: Seq<Entry<D>>,
    start: int,
    end: int,
    shared: Seq<(DispatchId, D)>,
    id: DispatchId,
)
    requires
        lists(entries, pairs),
        0 <= start <= end < entries.len(),
        shared_matches(pairs, entries, start, end, shared),
        id.spec_get() == dispatch_id(pairs, entries[end].message),
        forall|k: int| start <= k < end ==> (#[trigger] entries[k]).pair().0 == entries[end].pair().0,
    ensures
        forall|j: int|
            0 <= j < shared.len() ==> (#[trigger] shared[j]).0.spec_get() != id.spec_get(),
{
    assert forall|j: int| 0 <= j < shared.len() implies (#[trigger] shared[j]).0.spec_get()
        != id.spec_get() by {
        assert(slot_taken(pairs, entries, start, end, shared[j]));
        let k = choose|k: int|
            start <= k < end && shared_entry_is(pairs, #[trigger] entries[k], shared[j]);
        assert(pair_before(entries[k].pair(), entries[end].pair()));
        assert(pairs.contains(entries[k].pair()));
        assert(pairs.contains(entries[end].pair()));
        dispatch_ids_differ(pairs, entries, entries[k].message, entries[end].message);
    }
}

/// A shared entry goes into the shared dispatchers with its ID.
proof fn shared_matches_insert<D: Copy>(
    pairs: Set<(usize, usize)>,
    entries: Seq<Entry<D>>,
    start: int,
    end: int,
    previous: Seq<(DispatchId, D)>,
    shared: Seq<(DispatchId, D)>,
    slot: (DispatchId, D),
)
    requires
        0 <= start <= end < entries.len(),
        shared_matches(pairs, entries, start, end, previous),
        shared_entry_is(pairs, entries[end], slot),
        sorted_by_id(shared),
        exists|pos: int|
            0 <= pos <= previous.len() && shared == #[trigger] previous.insert(pos, slot),
    ensures
        shared_matches(pairs, entries, start, end + 1, shared),
{
    let pos = choose|pos: int|
        0 <= pos <= previous.len() && shared == #[trigger] previous.insert(pos, slot);
    assert(shared[pos] == slot);
    assert forall|k: int|
        start <= k < end + 1 && is_shared(
            pairs,
            (#[trigger] entries[k]).message,
        ) implies entry_held(pairs, entries[k], shared) by {
        if k < end {
            assert(entry_held(pairs, entries[k], previous));
            let j = choose|j: int|
                0 <= j < previous.len() && shared_entry_is(pairs, entries[k], #[trigger] previous[j]);
            let moved = if j < pos {
                j
            } else {
                j + 1
            };
            assert(shared[moved] == previous[j]);
        }
    }
    assert forall|j: int| 0 <= j < shared.len() implies #[trigger] slot_taken(
        pairs,
        entries,
        start,
        end + 1,
        shared[j],
    ) by {
        if j == pos {
            assert(shared_entry_is(pairs, entries[end], shared[j]));
        } else {
            let from = if j < pos {
                j
            } else {
                j - 1
            };
            assert(shared[j] == previous[from]);
            assert(slot_taken(pairs, entries, start, end, previous[from]));
        }
    }
}

/// Put a dispatcher into the shared entries at the place of its ID.
fn insert_shared<D: Copy>(shared: &mut Vec<(DispatchId, D)>, id: DispatchId, dispatcher: D)
    requires
        sorted_by_id(old(shared)@),
        forall|j: int|
            0 <= j < old(shared).len() ==> (#[trigger] old(shared)@[j]).0.spec_get()
                != id.spec_get(),
    ensures
        sorted_by_id(final(shared)@),
        exists|pos: int|
            0 <= pos <= old(shared).len() && final(shared)@ == #[trigger] old(shared)@.insert(
                pos,
                (id, dispatcher),
            ),
{
    let ghost previous = shared@;
    let pos: usize = lower_bound(shared, id.get());
    shared.insert(pos, (id, dispatcher));
    proof {
        assert(shared@ == previous.insert(pos as int, (id, dispatcher)));
        assert forall|x: int, y: int| 0 <= x < y < shared.len() implies (
        #[trigger] shared@[x]).0.spec_get() < (#[trigger] shared@[y]).0.spec_get() by {
            let px = if x < pos { x } else { x - 1 };
            let py = if y < pos { y } else { y - 1 };
            if x != pos {
                assert(shared@[x] == previous[px]);
            }
            if y != pos {
                assert(shared@[y] == previous[py]);
            }
        }
    }
}

/// Build the dispatch table of the actor whose entries begin at `start`. Returns
/// the table and the position behind the actor's entries.
fn build_table<D: Copy>(
    entries: &Vec<Entry<D>>,
    flags: &BTreeMap<usize, bool>,
    ids: &BTreeMap<usize, usize>,
    start: usize,
    base: DispatchId,
    Ghost(pairs): Ghost<Set<(usize, usize)>>,
) -> (result: (ActorDispatchTable<D>, usize))
    requires
        lists(entries@, pairs),
        flags_match(flags@, entries@, pairs),
        ids@.dom() == shared_before(pairs, entries@, entries.len() as int),
        forall|m: usize| #[trigger]
            ids@.contains_key(m) ==> ids@[m] == dispatch_id(pairs, m) && ids@[m] != 0,
        start < entries.len(),
        base.spec_get() == 1 + unique_before(pairs, entries@, start as int).len(),
    ensures
        start < result.1 <= entries.len(),
        forall|k: int|
            start <= k < result.1 ==> (#[trigger] entries@[k]).pair().0
                == result.0.spec_actor().spec_identity(),
        result.1 < entries.len() ==> entries@[result.1 as int].pair().0
            > result.0.spec_actor().spec_identity(),
        result.0.spec_actor() == entries@[start as int].actor,
        result.0.spec_unique_base() == base.spec_get(),
        unique_matches(pairs, entries@, start as int, result.1 as int, result.0.spec_unique()),
        shared_matches(pairs, entries@, start as int, result.1 as int, result.0.spec_shared()),
{
    let actor = entries[start].actor;
    let mut unique: Vec<D> = Vec::new();
    let mut shared: Vec<(DispatchId, D)> = Vec::new();
    let mut end: usize = start;
    while end < entries.len() && entries[end].actor.identity() == actor.identity()
        invariant
            start <= end <= entries.len(),
            start < entries.len(),
            actor == entries@[start as int].actor,
            lists(entries@, pairs),
            flags_match(flags@, entries@, pairs),
            ids@.dom() == shared_before(pairs, entries@, entries.len() as int),
            forall|m: usize| #[trigger]
                ids@.contains_key(m) ==> ids@[m] == dispatch_id(pairs, m) && ids@[m] != 0,
            forall|k: int|
                start <= k < end ==> (#[trigger] entries@[k]).pair().0 == actor.spec_identity(),
            unique_matches(pairs, entries@, start as int, end as int, unique@),
            shared_matches(pairs, entries@, start as int, end as int, shared@),
        decreases entries.len() - end,
    {
        let entry = entries[end];
        if entry_is_shared(flags, entries, end, Ghost(pairs)) {
            assert(shared_before(pairs, entries@, entries.len() as int).contains(entry.message)) by {
                assert(entries@[end as int].message == entry.message);
            }
            assert(ids@.contains_key(entry.message));
            if let Some(id) = ids.get(&entry.message) {
                if let Some(id) = DispatchId::new(*id) {
                    let ghost previous = shared@;
                    proof {
                        shared_id_is_new(
                            pairs,
                            entries@,
                            start as int,
                            end as int,
                            shared@,
                            id,
                        );
                    }
                    insert_shared(&mut shared, id, entry.dispatcher);
                    proof {
                        shared_matches_insert(
                            pairs,
                            entries@,
                            start as int,
                            end as int,
                            previous,
                            shared@,
                            (id, entry.dispatcher),
                        );
                    }
                }
            }
            proof {
                unique_matches_skip(pairs, entries@, start as int, end as int, unique@);
            }
        } else {
            proof {
                unique_matches_push(pairs, entries@, start as int, end as int, unique@);
                shared_matches_skip(pairs, entries@, start as int, end as int, shared@);
            }
            unique.push(entry.dispatcher);
        }
        end = end + 1;
    }
    assert(end > start) by {
        assert(entries@[start as int].actor == actor);
    }
    assert(end < entries.len() ==> entries@[end as int].pair().0 > actor.spec_identity()) by {
        if end < entries.len() {
            assert(pair_before(entries@[start as int].pair(), entries@[end as int].pair()));
        }
    }
    (ActorDispatchTable { actor, unique_base: base, unique, shared }, end)
}

/// Whether the table binds exactly the messages registered for its actor, each
/// by its dispatch ID to its first dispatcher, with the uniquely handled ones in
/// one dense range of IDs.
pub open spec fn table_serves<D: Copy>(
    table: ActorDispatchTable<D>,
    regs: Seq<DynamicHandlerRegistration<D>>,
) -> bool {
    let pairs = handled_pairs(regs);
    let a = table.spec_actor().spec_identity();
    let base = table.spec_unique_base();
    &&& table.wf()
    &&& names_actor(regs, table.spec_actor())
    &&& base == 1 + unique_below(pairs, a).len()
    &&& table.spec_unique().len() == unique_of(pairs, a).len()
    &&& forall|m: usize| #[trigger]
        pairs.contains((a, m)) ==> {
            &&& table.lookup(dispatch_id(pairs, m) as usize) == find_handler(regs, a, m)
            &&& !is_shared(pairs, m) <==> base <= dispatch_id(pairs, m) < base
                + table.spec_unique().len()
        }
    &&& forall|id: usize| #[trigger]
        table.lookup(id) is Some ==> exists|m: usize| #[trigger]
            pairs.contains((a, m)) && dispatch_id(pairs, m) == id
}

/// The entries of one actor are what is handled by it: the unique messages
/// before them belong to lower actors.
proof fn unique_counts_by_actor<D: Copy>(
    pairs: Set<(usize, usize)>,
    entries: Seq<Entry<D>>,
    start: int,
    end: int,
    a: usize,
)
    requires
        lists(entries, pairs),
        0 <= start < end <= entries.len(),
        forall|k: int| start <= k < end ==> (#[trigger] entries[k]).pair().0 == a,
        start > 0 ==> entries[start - 1].pair().0 < a,
        end < entries.len() ==> entries[end].pair().0 > a,
    ensures
        forall|m: usize| #[trigger]
            pairs.contains((a, m)) ==> exists|k: int|
                start <= k < end && (#[trigger] entries[k]).pair() == (a, m),
        unique_before(pairs, entries, start) == unique_below(pairs, a),
        unique_before(pairs, entries, end).len() == unique_below(pairs, a).len() + unique_of(
            pairs,
            a,
        ).len(),
{
    assert forall|k: int| 0 <= k < start implies (#[trigger] entries[k]).pair().0 < a by {
        if k < start - 1 {
            assert(pair_before(entries[k].pair(), entries[start - 1].pair()));
        }
    }
    assert forall|k: int| end <= k < entries.len() implies (#[trigger] entries[k]).pair().0
        > a by {
        if k > end {
            assert(pair_before(entries[end].pair(), entries[k].pair()));
        }
    }
    assert forall|m: usize| #[trigger] pairs.contains((a, m)) implies exists|k: int|
        start <= k < end && (#[trigger] entries[k]).pair() == (a, m) by {
        let k = index_of(entries, a, m);
        assert(entries[k].pair() == (a, m));
    }
    assert forall|x: usize|
        unique_before(pairs, entries, start).contains(x) <==> unique_below(pairs, a).contains(
            x,
        ) by {
        if unique_below(pairs, a).contains(x) {
            let b = choose|b: usize| b < a && pairs.contains((b, x));
            let k = index_of(entries, b, x);
            assert(entries[k].pair() == (b, x));
            assert(k < start);
        }
        if unique_before(pairs, entries, start).contains(x) {
            let k = choose|k: int| 0 <= k < start && (#[trigger] entries[k]).message == x;
            assert(pairs.contains((entries[k].pair().0, x)));
        }
    }
    assert(unique_before(pairs, entries, start) =~= unique_below(pairs, a));
    let own = unique_of(pairs, a);
    assert forall|x: usize|
        unique_before(pairs, entries, end).contains(x) <==> unique_below(pairs, a).union(
            own,
        ).contains(x) by {
        if own.contains(x) {
            let k = index_of(entries, a, x);
            assert(entries[k].pair() == (a, x));
            assert(k < end);
        }
        if unique_below(pairs, a).contains(x) {
            assert(unique_before(pairs, entries, start).contains(x));
        }
        if unique_before(pairs, entries, end).contains(x) {
            let k = choose|k: int| 0 <= k < end && (#[trigger] entries[k]).message == x;
            assert(pairs.contains(entries[k].pair()));
            if k < start {
                assert(unique_before(pairs, entries, start).contains(x));
            } else {
                assert(entries[k].pair() == (a, x));
            }
        }
    }
    assert(unique_before(pairs, entries, end) =~= unique_below(pairs, a).union(own));
    groups_are_finite(pairs, entries, start);
    groups_are_finite(pairs, entries, end);
    assert(own.subset_of(unique_before(pairs, entries, end)));
    vstd::set_lib::lemma_set_subset_finite(unique_before(pairs, entries, end), own);
    assert(unique_below(pairs, a).disjoint(own)) by {
        assert forall|x: usize| own.contains(x) implies !unique_below(pairs, a).contains(x) by {
            if unique_below(pairs, a).contains(x) {
                let b = choose|b: usize| b < a && pairs.contains((b, x));
                assert(is_shared(pairs, x));
            }
        }
    }
    vstd::set_lib::lemma_set_disjoint_lens(unique_below(pairs, a), own);
}

/// A table built from all entries of its actor serves the registrations.
proof fn built_table_serves<D: Copy>(
    table: ActorDispatchTable<D>,
    regs: Seq<DynamicHandlerRegistration<D>>,
    entries: Seq<Entry<D>>,
    start: int,
    end: int,
)
    requires
        lists(entries, handled_pairs(regs)),
        entries_cover(entries, regs),
        entries.len() < usize::MAX,
        0 <= start < end <= entries.len(),
        names_actor(regs, table.spec_actor()),
        forall|k: int|
            start <= k < end ==> (#[trigger] entries[k]).pair().0
                == table.spec_actor().spec_identity(),
        start > 0 ==> entries[start - 1].pair().0 < table.spec_actor().spec_identity(),
        end < entries.len() ==> entries[end].pair().0 > table.spec_actor().spec_identity(),
        table.spec_unique_base() == 1 + unique_before(handled_pairs(regs), entries, start).len(),
        unique_matches(handled_pairs(regs), entries, start, end, table.spec_unique()),
        shared_matches(handled_pairs(regs), entries, start, end, table.spec_shared()),
    ensures
        table_serves(table, regs),
{
    let pairs = handled_pairs(regs);
    let a = table.spec_actor().spec_identity();
    let base = table.spec_unique_base();
    let all = entries.len() as int;
    unique_counts_by_actor(pairs, entries, start, end, a);
    unique_count_grows(pairs, entries, end, all);
    groups_are_finite(pairs, entries, all);
    assert forall|m: usize| #[trigger] pairs.contains((a, m)) implies {
        &&& table.lookup(dispatch_id(pairs, m) as usize) == find_handler(regs, a, m)
        &&& !is_shared(pairs, m) <==> base <= dispatch_id(pairs, m) < base
            + table.spec_unique().len()
    } by {
        let k = choose|k: int| start <= k < end && (#[trigger] entries[k]).pair() == (a, m);
        let id = dispatch_id(pairs, m) as usize;
        dispatch_id_ranges(pairs, entries, m);
        assert(find_handler(regs, entries[k].pair().0, entries[k].pair().1) == Some(
            entries[k].dispatcher,
        ));
        if is_shared(pairs, m) {
            assert(entry_held(pairs, entries[k], table.spec_shared()));
            let j = choose|j: int|
                0 <= j < table.spec_shared().len() && shared_entry_is(
                    pairs,
                    entries[k],
                    #[trigger] table.spec_shared()[j],
                );
            assert(table.spec_shared()[j].0.spec_get() == id);
            let found = choose|k: int|
                0 <= k < table.spec_shared().len() && (
                #[trigger] table.spec_shared()[k]).0.spec_get() == id;
            assert(found == j);
        } else {
            unique_dispatch_id(pairs, entries, k);
            assert(unique_offset(pairs, entries, start, k) == id - base);
        }
    }
    assert forall|id: usize| #[trigger] table.lookup(id) is Some implies exists|m: usize| #[trigger]
        pairs.contains((a, m)) && dispatch_id(pairs, m) == id by {
        if base <= id < base + table.spec_unique().len() {
            assert(offset_taken(pairs, entries, start, end, id - base));
            let k = choose|k: int|
                start <= k < end && !is_shared(pairs, (#[trigger] entries[k]).message)
                    && unique_offset(pairs, entries, start, k) == id - base;
            unique_dispatch_id(pairs, entries, k);
            assert(pairs.contains((a, entries[k].message)));
        } else {
            let j = choose|k: int|
                0 <= k < table.spec_shared().len() && (
                #[trigger] table.spec_shared()[k]).0.spec_get() == id;
            assert(slot_taken(pairs, entries, start, end, table.spec_shared()[j]));
            let k = choose|k: int|
                start <= k < end && shared_entry_is(
                    pairs,
                    #[trigger] entries[k],
                    table.spec_shared()[j],
                );
            assert(pairs.contains((a, entries[k].message)));
        }
    }
}

/// The built form of a set of handler registrations.
#[derive(Debug)]
pub struct DispatchRegistry<D> {
    /// Per-actor tables, sorted by actor RTTI identity.
    actors: Vec<ActorDispatchTable<D>>,
    /// Number of registrations at build time, used to detect registrations that
    /// arrived too late to be part of the tables.
    frozen_count: usize,
}

/// Registrations that arrived after the registry was frozen and never bind.
#[derive(Clone, Debug)]
pub struct StaleRegistry {
    /// Number of late registrations.
    pub late_count: usize,
    /// The late registrations as `actor/message`, separated by commas.
    pub late: String,
}

/// The listing of registrations as `actor/message`, separated by commas.
pub open spec fn listing<D: Copy>(regs: Seq<DynamicHandlerRegistration<D>>) -> Seq<char>
    decreases regs.len(),
{
    if regs.len() == 0 {
        Seq::empty()
    } else {
        let head = listing(regs.drop_last());
        let entry = regs.last().spec_actor().spec_name() + seq!['/']
            + regs.last().spec_message().spec_name();
        if head.len() == 0 {
            entry
        } else {
            head + seq![',', ' '] + entry
        }
    }
}

/// Write down registrations as `actor/message`, separated by commas.
fn write_listing<D: Copy>(regs: &Vec<DynamicHandlerRegistration<D>>, count: usize) -> (text: String)
    requires
        count <= regs.len(),
    ensures
        text@ == listing(regs@.take(count as int)),
{
    let mut text = String::new();
    let mut i: usize = 0;
    while i < count
        invariant
            i <= count <= regs.len(),
            text@ == listing(regs@.take(i as int)),
        decreases count - i,
    {
        assert(regs@.take(i + 1).drop_last() == regs@.take(i as int));
        proof {
            reveal_strlit(", ");
            reveal_strlit("/");
        }
        let ghost head = text@;
        if !text.as_str().is_empty() {
            text.append(", ");
        }
        text.append(regs[i].actor().name());
        text.append("/");
        text.append(regs[i].message().name());
        assert(", "@ =~= seq![',', ' ']);
        assert("/"@ =~= seq!['/']);
        assert(text@ =~= listing(regs@.take(i + 1)));
        i = i + 1;
    }
    text
}

impl<D> DispatchRegistry<D> {
    #[verifier::type_invariant]
    spec fn is_sorted(self) -> bool {
        forall|i: int, j: int|
            0 <= i < j < self.actors.len() ==> (#[trigger] self.actors@[i]).actor.spec_identity()
                < (#[trigger] self.actors@[j]).actor.spec_identity()
    }
}

impl<D: Copy> DispatchRegistry<D> {
    /// The per-actor tables.
    pub closed spec fn tables(self) -> Seq<ActorDispatchTable<D>> {
        self.actors@
    }

    /// Number of registrations at build time.
    pub closed spec fn spec_frozen_registration_count(self) -> usize {
        self.frozen_count
    }

    /// The tables are well-formed and sorted by actor identity, one per actor.
    pub open spec fn wf(self) -> bool {
        &&& forall|i: int| 0 <= i < self.tables().len() ==> (#[trigger] self.tables()[i]).wf()
        &&& forall|i: int, j: int|
            0 <= i < j < self.tables().len() ==> (
            #[trigger] self.tables()[i]).spec_actor().spec_identity() < (
            #[trigger] self.tables()[j]).spec_actor().spec_identity()
    }

    /// Whether the registry holds exactly one table per registered actor, each
    /// serving the registrations.
    pub open spec fn serves(self, regs: Seq<DynamicHandlerRegistration<D>>) -> bool {
        &&& self.wf()
        &&& self.spec_frozen_registration_count() == regs.len()
        &&& forall|i: int|
            0 <= i < self.tables().len() ==> table_serves(#[trigger] self.tables()[i], regs)
        &&& forall|a: usize, m: usize| #[trigger]
            handled_pairs(regs).contains((a, m)) ==> has_table(self.tables(), a)
    }

    /// Build a registry from a set of registrations, assigning every registered
    /// message its dispatch ID in `messages`.
    ///
    /// Duplicate registrations of the same actor/message pair collapse into the
    /// first; apart from that the registration order is irrelevant.
    pub fn build(
        regs: &Vec<DynamicHandlerRegistration<D>>,
        messages: &mut Vec<MessageRtti>,
    ) -> (registry: Self)
        requires
            regs.len() < usize::MAX,
            distinct_identities(old(messages)@),
            forall|k: int|
                0 <= k < regs.len() ==> is_assignable(
                    old(messages)@,
                    (#[trigger] regs@[k]).spec_message().spec_identity(),
                ),
        ensures
            registry.serves(regs@),
            final(messages)@ == with_assigned_ids(
                handled_pairs(regs@),
                old(messages)@,
                Set::new(|m: usize| is_registered(handled_pairs(regs@), m)),
            ),
            forall|m: usize| #[trigger]
                is_registered(handled_pairs(regs@), m) ==> 1 <= dispatch_id(
                    handled_pairs(regs@),
                    m,
                ) <= regs.len(),
    {
        let ghost pairs = handled_pairs(regs@);
        let ghost initial = messages@;
        let entries = sorted_entries(regs);
        let flags = shared_flags(&entries);
        proof {
            lists_from_cover(entries@, regs@);
            assert forall|k: int| 0 <= k < entries.len() implies is_assignable(
                initial,
                (#[trigger] entries@[k]).message,
            ) by {
                found_is_registered(regs@, entries@[k].pair().0, entries@[k].pair().1);
            }
            assert forall|k: int| 0 <= k < entries.len() implies flags@.contains_key(
                (#[trigger] entries@[k]).message,
            ) && flags@[entries@[k].message] == is_shared(pairs, entries@[k].message) by {
                shared_means_two_entries(pairs, entries@, entries@[k].message);
            }
        }
        let first_shared: usize = assign_unique_ids(&entries, &flags, messages, Ghost(pairs));
        let ids = assign_shared_ids(
            &entries,
            &flags,
            messages,
            first_shared,
            Ghost(pairs),
            Ghost(initial),
        );
        proof {
            all_registered_are_taken(pairs, entries@);
        }
        let mut actors: Vec<ActorDispatchTable<D>> = Vec::new();
        let mut base: usize = 1;
        let mut start: usize = 0;
        assert(unique_before(pairs, entries@, 0) =~= Set::empty());
        while start < entries.len()
            invariant
                start <= entries.len(),
                entries.len() <= regs.len() < usize::MAX,
                pairs == handled_pairs(regs@),
                lists(entries@, pairs),
                entries_cover(entries@, regs@),
                flags_match(flags@, entries@, pairs),
                forall|k: int|
                    0 <= k < entries.len() ==> names_actor(regs@, (#[trigger] entries@[k]).actor),
                ids@.dom() == shared_before(pairs, entries@, entries.len() as int),
                forall|m: usize| #[trigger]
                    ids@.contains_key(m) ==> ids@[m] == dispatch_id(pairs, m) && ids@[m] != 0,
                base == 1 + unique_before(pairs, entries@, start as int).len(),
                forall|i: int|
                    0 <= i < actors.len() ==> table_serves(#[trigger] actors@[i], regs@),
                forall|i: int, j: int|
                    0 <= i < j < actors.len() ==> (
                    #[trigger] actors@[i]).spec_actor().spec_identity() < (
                    #[trigger] actors@[j]).spec_actor().spec_identity(),
                forall|i: int|
                    0 <= i < actors.len() && start > 0 ==> (
                    #[trigger] actors@[i]).spec_actor().spec_identity() <= entries@[start
                        - 1].pair().0,
                0 < start < entries.len() ==> entries@[start - 1].pair().0
                    < entries@[start as int].pair().0,
                start == 0 ==> actors.len() == 0,
                forall|k: int|
                    0 <= k < start ==> has_table(actors@, (#[trigger] entries@[k]).pair().0),
            ensures
                start == entries.len(),
            decreases entries.len() - start,
        {
            let ghost previous = actors@;
            let base_id = match DispatchId::new(base) {
                Some(id) => id,
                None => {
                    assert(false);
                    break ;
                },
            };
            let (table, end) = build_table(&entries, &flags, &ids, start, base_id, Ghost(pairs));
            proof {
                built_table_serves(table, regs@, entries@, start as int, end as int);
                groups_are_finite(pairs, entries@, end as int);
            }
            base = base + table.unique.len();
            actors.push(table);
            proof {
                assert(actors@ == previous.push(table));
                assert(has_table(actors@, table.spec_actor().spec_identity())) by {
                    assert(actors@[previous.len() as int] == table);
                }
                assert forall|k: int| 0 <= k < end implies has_table(
                    actors@,
                    (#[trigger] entries@[k]).pair().0,
                ) by {
                    if k < start {
                        let i = choose|i: int|
                            0 <= i < previous.len() && (
                            #[trigger] previous[i]).spec_actor().spec_identity()
                                == entries@[k].pair().0;
                        assert(actors@[i] == previous[i]);
                    }
                }
            }
            start = end;
        }
        proof {
            let registry = DispatchRegistry { actors, frozen_count: regs@.len() as usize };
            assert forall|a: usize, m: usize| #[trigger] pairs.contains((a, m)) implies has_table(
                registry.tables(),
                a,
            ) by {
                let k = index_of(entries@, a, m);
                assert(entries@[k].pair() == (a, m));
            }
        }
        DispatchRegistry { actors, frozen_count: regs.len() }
    }

    /// Number of registrations when this registry was built.
    pub fn frozen_registration_count(&self) -> (count: usize)
        ensures
            count == self.spec_frozen_registration_count(),
    {
        self.frozen_count
    }

    /// Whether handler registrations were collected after this registry was
    /// built, given how many there are by now.
    pub fn is_stale(&self, current_count: usize) -> (stale: bool)
        ensures
            stale == (current_count > self.spec_frozen_registration_count()),
    {
        current_count > self.frozen_count
    }

    /// Report the late registrations by name when the registry is stale.
    ///
    /// New registrations are at the head of `current`, so the late ones are
    /// exactly its first `current - frozen` entries.
    pub fn debug_assert_fresh(&self, current: &Vec<DynamicHandlerRegistration<D>>) -> (result:
        Result<(), StaleRegistry>)
        ensures
            result is Ok <==> current.len() <= self.spec_frozen_registration_count(),
            result matches Err(stale) ==> stale.late_count == current.len()
                - self.spec_frozen_registration_count() && stale.late@ == listing(
                current@.take(current.len() - self.spec_frozen_registration_count()),
            ),
    {
        if !self.is_stale(current.len()) {
            return Ok(());
        }
        let late_count: usize = current.len() - self.frozen_count;
        Err(StaleRegistry { late_count, late: write_listing(current, late_count) })
    }

    /// Look up the dispatch table of the given actor type.
    ///
    /// Returns `None` if no handlers were registered for the actor.
    pub fn table_for(&self, actor: &ActorRtti) -> (table: Option<&ActorDispatchTable<D>>)
        ensures
            table is Some <==> has_table(self.tables(), actor.spec_identity()),
            table matches Some(table) ==> table.spec_actor().spec_identity()
                == actor.spec_identity() && self.tables().contains(*table),
    {
        proof {
            use_type_invariant(self);
        }
        let mut low: usize = 0;
        let mut high: usize = self.actors.len();
        while low < high
            invariant
                low <= high <= self.actors.len(),
                self.is_sorted(),
                forall|i: int|
                    0 <= i < low ==> (#[trigger] self.tables()[i]).spec_actor().spec_identity()
                        < actor.spec_identity(),
                forall|i: int|
                    high <= i < self.tables().len() ==> (
                    #[trigger] self.tables()[i]).spec_actor().spec_identity()
                        >= actor.spec_identity(),
            decreases high - low,
        {
            let mid: usize = low + (high - low) / 2;
            assert(self.tables()[mid as int] == self.actors@[mid as int]);
            if self.actors[mid].actor.identity() < actor.identity() {
                low = mid + 1;
            } else {
                high = mid;
            }
        }
        if low < self.actors.len() {
            assert(self.tables()[low as int] == self.actors@[low as int]);
            if self.actors[low].actor.identity() == actor.identity() {
                return Some(&self.actors[low]);
            }
        }
        None
    }
}

/// Whether one of the tables belongs to the actor with the given identity.
pub open spec fn has_table<D: Copy>(tables: Seq<ActorDispatchTable<D>>, actor: usize) -> bool {
    exists|i: int| 0 <= i < tables.len() && (#[trigger] tables[i]).spec_actor().spec_identity() == actor
}

/// A found handler comes from a registration of the pair.
proof fn found_is_registered<D: Copy>(
    regs: Seq<DynamicHandlerRegistration<D>>,
    a: usize,
    m: usize,
)
    requires
        find_handler(regs, a, m) is Some,
    ensures
        exists|i: int| 0 <= i < regs.len() && (#[trigger] regs[i]).pair() == (a, m),
    decreases regs.len(),
{
    if find_handler(regs.drop_last(), a, m) is Some {
        found_is_registered(regs.drop_last(), a, m);
        let i = choose|i: int|
            0 <= i < regs.len() - 1 && (#[trigger] regs.drop_last()[i]).pair() == (a, m);
        assert(regs[i].pair() == (a, m));
    } else {
        assert(regs[regs.len() - 1].pair() == (a, m));
    }
}

/// Every registered message is in one of the two groups, and has its ID.
proof fn all_registered_are_taken<D: Copy>(pairs: Set<(usize, usize)>, entries: Seq<Entry<D>>)
    requires
        lists(entries, pairs),
    ensures
        unique_before(pairs, entries, entries.len() as int).union(
            shared_before(pairs, entries, entries.len() as int),
        ) == Set::new(|m: usize| is_registered(pairs, m)),
        forall|m: usize| #[trigger]
            is_registered(pairs, m) ==> 1 <= dispatch_id(pairs, m) <= entries.len(),
{
    let all = entries.len() as int;
    let taken = unique_before(pairs, entries, all).union(shared_before(pairs, entries, all));
    assert forall|m: usize| taken.contains(m) <==> is_registered(pairs, m) by {
        if is_registered(pairs, m) {
            let k = registered_has_entry(pairs, entries, m);
            assert(entries[k].message == m);
        }
        if taken.contains(m) {
            let k = choose|k: int| 0 <= k < all && (#[trigger] entries[k]).message == m;
            assert(pairs.contains(entries[k].pair()));
        }
    }
    assert(taken =~= Set::new(|m: usize| is_registered(pairs, m)));
    assert forall|m: usize| #[trigger] is_registered(pairs, m) implies 1 <= dispatch_id(pairs, m)
        <= entries.len() by {
        dispatch_id_ranges(pairs, entries, m);
    }
}

/// Runtime binder backed by a dispatch registry.
///
/// The binder resolves its actor's dispatch table once at construction. Binding
/// afterwards never touches the registry.
#[derive(Clone, Copy, Debug)]
pub struct RegistryBinder<'r, D> {
    /// The actor's dispatch table; `None` if the actor has no registered
    /// dynamic handlers.
    table: Option<&'r ActorDispatchTable<D>>,
}

impl<'r, D: Copy> RegistryBinder<'r, D> {
    /// The actor's dispatch table, if it has registered dynamic handlers.
    pub closed spec fn spec_table(self) -> Option<ActorDispatchTable<D>> {
        match self.table {
            Some(table) => Some(*table),
            None => None,
        }
    }

    /// What the binder binds a message to whose dispatch ID slot holds `slot`.
    pub open spec fn binds(self, slot: usize) -> Option<D> {
        match self.spec_table() {
            Some(table) => if slot == 0 {
                None
            } else {
                table.lookup(slot)
            },
            None => None,
        }
    }

    /// Create the binder of an actor type.
    pub fn new(registry: &'r DispatchRegistry<D>, actor: &ActorRtti) -> (binder: Self)
        ensures
            binder.spec_table() is Some <==> has_table(registry.tables(), actor.spec_identity()),
            binder.spec_table() matches Some(table) ==> registry.tables().contains(table)
                && table.spec_actor().spec_identity() == actor.spec_identity(),
    {
        RegistryBinder { table: registry.table_for(actor) }
    }

    /// Create the binder of an actor type, unless handlers were registered after
    /// the registry was frozen.
    pub fn new_fresh(
        registry: &'r DispatchRegistry<D>,
        current: &Vec<DynamicHandlerRegistration<D>>,
        actor: &ActorRtti,
    ) -> (result: Result<Self, StaleRegistry>)
        ensures
            result is Ok <==> current.len() <= registry.spec_frozen_registration_count(),
            result matches Ok(binder) ==> {
                &&& binder.spec_table() is Some <==> has_table(
                    registry.tables(),
                    actor.spec_identity(),
                )
                &&& binder.spec_table() matches Some(table) ==> registry.tables().contains(table)
                    && table.spec_actor().spec_identity() == actor.spec_identity()
            },
            result matches Err(stale) ==> stale.late_count == current.len()
                - registry.spec_frozen_registration_count() && stale.late@ == listing(
                current@.take(current.len() - registry.spec_frozen_registration_count()),
            ),
    {
        match registry.debug_assert_fresh(current) {
            Ok(()) => Ok(RegistryBinder::new(registry, actor)),
            Err(stale) => Err(stale),
        }
    }

    /// Look up the dispatcher for the given message.
    pub fn bind(&self, message: &MessageRtti) -> (dispatcher: Option<D>)
        ensures
            dispatcher == self.binds(message.dispatch_slot()),
    {
        match self.table {
            Some(table) => table.bind(message),
            None => None,
        }
    }
}

/// The set of registered messages is finite.
proof fn registered_messages_are_finite<D: Copy>(regs: Seq<DynamicHandlerRegistration<D>>)
    ensures
        Set::new(|m: usize| is_registered(handled_pairs(regs), m)).finite(),
    decreases regs.len(),
{
    let registered = Set::new(|m: usize| is_registered(handled_pairs(regs), m));
    if regs.len() == 0 {
        assert(registered =~= Set::empty());
    } else {
        let before = Set::new(|m: usize| is_registered(handled_pairs(regs.drop_last()), m));
        registered_messages_are_finite(regs.drop_last());
        let last = regs.last().pair();
        assert forall|m: usize| registered.contains(m) <==> before.insert(last.1).contains(m) by {
            if registered.contains(m) {
                let a = choose|a: usize| handled_pairs(regs).contains((a, m));
                if (a, m) != last {
                    assert(handled_pairs(regs.drop_last()).contains((a, m)));
                }
            }
            if before.contains(m) {
                let a = choose|a: usize| handled_pairs(regs.drop_last()).contains((a, m));
                assert(handled_pairs(regs).contains((a, m)));
            }
            if m == last.1 {
                assert(handled_pairs(regs).contains(last));
            }
        }
        assert(registered =~= before.insert(last.1));
    }
}

/// Dispatch IDs are globally unique: distinct registered messages have distinct
/// IDs, in the order of [`precedes`].
pub proof fn dispatch_ids_are_unique<D: Copy>(
    regs: Seq<DynamicHandlerRegistration<D>>,
    m: usize,
    n: usize,
)
    requires
        is_registered(handled_pairs(regs), m),
        is_registered(handled_pairs(regs), n),
        m != n,
    ensures
        dispatch_id(handled_pairs(regs), m) != dispatch_id(handled_pairs(regs), n),
        dispatch_id(handled_pairs(regs), m) < dispatch_id(handled_pairs(regs), n) <==> precedes(
            handled_pairs(regs),
            m,
            n,
        ),
{
    let pairs = handled_pairs(regs);
    if precedes(pairs, m, n) {
        dispatch_id_follows_order(regs, m, n);
    } else {
        dispatch_id_follows_order(regs, n, m);
    }
}

/// A message that comes before another one has the smaller ID.
proof fn dispatch_id_follows_order<D: Copy>(
    regs: Seq<DynamicHandlerRegistration<D>>,
    m: usize,
    n: usize,
)
    requires
        is_registered(handled_pairs(regs), m),
        precedes(handled_pairs(regs), m, n),
    ensures
        dispatch_id(handled_pairs(regs), m) < dispatch_id(handled_pairs(regs), n),
{
    let pairs = handled_pairs(regs);
    let registered = Set::new(|m: usize| is_registered(handled_pairs(regs), m));
    registered_messages_are_finite(regs);
    vstd::set_lib::lemma_set_subset_finite(registered, preceding(pairs, n));
    vstd::set_lib::lemma_set_subset_finite(registered, preceding(pairs, m));
    assert(!preceding(pairs, m).contains(m));
    let lower = preceding(pairs, m).insert(m);
    assert(lower.subset_of(preceding(pairs, n)));
    vstd::set_lib::lemma_len_subset(lower, preceding(pairs, n));
}

/// Binding is exact: whatever table of the registry is asked, a message binds
/// to the first dispatcher registered for it and the table's actor, and to
/// nothing where no such registration was there when the registry was built.
pub proof fn binding_is_exact<D: Copy>(
    registry: DispatchRegistry<D>,
    regs: Seq<DynamicHandlerRegistration<D>>,
    initial: Seq<MessageRtti>,
    table: ActorDispatchTable<D>,
    k: int,
)
    requires
        registry.serves(regs),
        registry.tables().contains(table),
        regs.len() <= usize::MAX,
        0 <= k < initial.len(),
        initial[k].dispatch_slot() == 0,
    ensures
        ({
            let pairs = handled_pairs(regs);
            let registered = Set::new(|m: usize| is_registered(pairs, m));
            let message = with_assigned_ids(pairs, initial, registered)[k];
            let bound = if message.dispatch_slot() == 0 {
                None
            } else {
                table.lookup(message.dispatch_slot())
            };
            bound == find_handler(
                regs,
                table.spec_actor().spec_identity(),
                initial[k].spec_identity(),
            )
        }),
{
    broadcast use with_dispatch_slot_keeps_the_rest;

    let pairs = handled_pairs(regs);
    let registered = Set::new(|m: usize| is_registered(pairs, m));
    let message = with_assigned_ids(pairs, initial, registered)[k];
    let m = initial[k].spec_identity();
    let a = table.spec_actor().spec_identity();
    let i = choose|i: int| 0 <= i < registry.tables().len() && registry.tables()[i] == table;
    assert(table_serves(registry.tables()[i], regs));
    if is_registered(pairs, m) {
        dispatch_id_is_bounded(regs, m);
        assert(message.dispatch_slot() == dispatch_id(pairs, m));
        if !pairs.contains((a, m)) && table.lookup(message.dispatch_slot()) is Some {
            let n = choose|n: usize| #[trigger]
                pairs.contains((a, n)) && dispatch_id(pairs, n) == message.dispatch_slot();
            dispatch_ids_are_unique(regs, m, n);
        }
    } else {
        assert(!pairs.contains((a, m)));
    }
}

/// An actor type that the registry has no table for had no handler registered, for
/// any message.
pub proof fn unlisted_actors_handle_nothing<D: Copy>(
    registry: DispatchRegistry<D>,
    regs: Seq<DynamicHandlerRegistration<D>>,
    actor: usize,
    message: usize,
)
    requires
        registry.serves(regs),
        !has_table(registry.tables(), actor),
    ensures
        find_handler(regs, actor, message) is None,
{
    assert(!handled_pairs(regs).contains((actor, message)));
}

/// Dispatch IDs lie in `1..=N` for `N` registrations.
pub proof fn dispatch_id_is_bounded<D: Copy>(regs: Seq<DynamicHandlerRegistration<D>>, m: usize)
    requires
        is_registered(handled_pairs(regs), m),
    ensures
        1 <= dispatch_id(handled_pairs(regs), m) <= regs.len(),
{
    let pairs = handled_pairs(regs);
    let registered = Set::new(|m: usize| is_registered(pairs, m));
    registered_messages_are_finite(regs);
    let through = preceding(pairs, m).insert(m);
    assert(through.subset_of(registered));
    vstd::set_lib::lemma_set_subset_finite(registered, preceding(pairs, m));
    assert(!preceding(pairs, m).contains(m));
    vstd::set_lib::lemma_len_subset(through, registered);
    registered_count_is_bounded(regs);
}

/// There are no more registered messages than registrations.
proof fn registered_count_is_bounded<D: Copy>(regs: Seq<DynamicHandlerRegistration<D>>)
    ensures
        Set::new(|m: usize| is_registered(handled_pairs(regs), m)).len() <= regs.len(),
    decreases regs.len(),
{
    let registered = Set::new(|m: usize| is_registered(handled_pairs(regs), m));
    if regs.len() == 0 {
        assert(registered =~= Set::empty());
    } else {
        let before = Set::new(|m: usize| is_registered(handled_pairs(regs.drop_last()), m));
        registered_count_is_bounded(regs.drop_last());
        registered_messages_are_finite(regs.drop_last());
        let last = regs.last().pair();
        assert(registered.subset_of(before.insert(last.1))) by {
            assert forall|m: usize| registered.contains(m) implies before.insert(last.1).contains(
                m,
            ) by {
                let a = choose|a: usize| handled_pairs(regs).contains((a, m));
                if (a, m) != last {
                    assert(handled_pairs(regs.drop_last()).contains((a, m)));
                }
            }
        }
        vstd::set_lib::lemma_len_subset(registered, before.insert(last.1));
    }
}

/// Registering a pair again changes nothing: the first registration stays.
pub proof fn duplicates_collapse<D: Copy>(
    regs: Seq<DynamicHandlerRegistration<D>>,
    again: DynamicHandlerRegistration<D>,
)
    requires
        handled_pairs(regs).contains(again.pair()),
    ensures
        handled_pairs(regs.push(again)) == handled_pairs(regs),
        forall|a: usize, m: usize| #[trigger]
            find_handler(regs.push(again), a, m) == find_handler(regs, a, m),
{
    assert(regs.push(again).drop_last() == regs);
    assert forall|a: usize, m: usize| #[trigger]
        find_handler(regs.push(again), a, m) == find_handler(regs, a, m) by {}
    assert(handled_pairs(regs.push(again)) =~= handled_pairs(regs));
}

/// Whether every registration of `regs` has a counterpart in `others` for the
/// same pair and with the same dispatcher.
pub open spec fn registered_in<D: Copy>(
    regs: Seq<DynamicHandlerRegistration<D>>,
    others: Seq<DynamicHandlerRegistration<D>>,
) -> bool {
    forall|i: int| 0 <= i < regs.len() ==> has_counterpart(#[trigger] regs[i], others)
}

/// Whether a registration has a counterpart among others for the same pair and with
/// the same dispatcher.
pub open spec fn has_counterpart<D: Copy>(
    reg: DynamicHandlerRegistration<D>,
    others: Seq<DynamicHandlerRegistration<D>>,
) -> bool {
    exists|j: int| 0 <= j < others.len() && same_handler(reg, #[trigger] others[j])
}

/// Whether two registrations connect the same pair by the same dispatcher.
pub open spec fn same_handler<D: Copy>(
    one: DynamicHandlerRegistration<D>,
    other: DynamicHandlerRegistration<D>,
) -> bool {
    one.pair() == other.pair() && one.spec_dispatcher() == other.spec_dispatcher()
}

/// Whether no pair is registered with two different dispatchers.
pub open spec fn one_dispatcher_per_pair<D: Copy>(
    regs: Seq<DynamicHandlerRegistration<D>>,
) -> bool {
    forall|i: int, j: int|
        0 <= i < regs.len() && 0 <= j < regs.len() && (#[trigger] regs[i]).pair() == (
        #[trigger] regs[j]).pair() ==> regs[i].spec_dispatcher() == regs[j].spec_dispatcher()
}

/// A pair with a single dispatcher is found with it.
proof fn found_is_the_only_dispatcher<D: Copy>(
    regs: Seq<DynamicHandlerRegistration<D>>,
    i: int,
)
    requires
        one_dispatcher_per_pair(regs),
        0 <= i < regs.len(),
    ensures
        find_handler(regs, regs[i].pair().0, regs[i].pair().1) == Some(regs[i].spec_dispatcher()),
    decreases regs.len(),
{
    let (a, m) = regs[i].pair();
    let rest = regs.drop_last();
    assert(one_dispatcher_per_pair(rest)) by {
        assert forall|x: int, y: int|
            0 <= x < rest.len() && 0 <= y < rest.len() && (#[trigger] rest[x]).pair() == (
            #[trigger] rest[y]).pair() implies rest[x].spec_dispatcher()
            == rest[y].spec_dispatcher() by {
            assert(regs[x] == rest[x] && regs[y] == rest[y]);
        }
    }
    if find_handler(rest, a, m) is Some {
        found_is_registered(rest, a, m);
        let j = choose|j: int| 0 <= j < rest.len() && (#[trigger] rest[j]).pair() == (a, m);
        found_is_the_only_dispatcher(rest, j);
        assert(regs[j] == rest[j]);
    } else if i < regs.len() - 1 {
        assert(rest[i] == regs[i]);
        found_is_the_only_dispatcher(rest, i);
    }
}

/// The registration order, and how often a pair is registered, are irrelevant:
/// two sets of the same registrations, each pair with one dispatcher, handle the
/// same pairs with the same dispatchers, hence give every message the same ID.
pub proof fn registration_order_is_irrelevant<D: Copy>(
    regs: Seq<DynamicHandlerRegistration<D>>,
    others: Seq<DynamicHandlerRegistration<D>>,
)
    requires
        one_dispatcher_per_pair(regs),
        one_dispatcher_per_pair(others),
        registered_in(regs, others),
        registered_in(others, regs),
    ensures
        handled_pairs(regs) == handled_pairs(others),
        forall|m: usize| #[trigger]
            dispatch_id(handled_pairs(regs), m) == dispatch_id(handled_pairs(others), m),
        forall|a: usize, m: usize| #[trigger]
            find_handler(regs, a, m) == find_handler(others, a, m),
{
    assert forall|a: usize, m: usize| #[trigger]
        find_handler(regs, a, m) == find_handler(others, a, m) by {
        if find_handler(regs, a, m) is Some {
            handlers_carry_over(regs, others, a, m);
        } else if find_handler(others, a, m) is Some {
            handlers_carry_over(others, regs, a, m);
        }
    }
    assert(handled_pairs(regs) =~= handled_pairs(others));
}

/// What is found in one set of registrations is found in any that holds it.
proof fn handlers_carry_over<D: Copy>(
    regs: Seq<DynamicHandlerRegistration<D>>,
    others: Seq<DynamicHandlerRegistration<D>>,
    a: usize,
    m: usize,
)
    requires
        one_dispatcher_per_pair(regs),
        one_dispatcher_per_pair(others),
        registered_in(regs, others),
        find_handler(regs, a, m) is Some,
    ensures
        find_handler(regs, a, m) == find_handler(others, a, m),
{
    found_is_registered(regs, a, m);
    let i = choose|i: int| 0 <= i < regs.len() && (#[trigger] regs[i]).pair() == (a, m);
    found_is_the_only_dispatcher(regs, i);
    assert(has_counterpart(regs[i], others));
    let j = choose|j: int| 0 <= j < others.len() && same_handler(regs[i], #[trigger] others[j]);
    found_is_the_only_dispatcher(others, j);
}

/// What is found for a pair is the first registration of it, and nothing is found
/// only where there is none.
proof fn found_is_the_first<D: Copy>(
    regs: Seq<DynamicHandlerRegistration<D>>,
    a: usize,
    m: usize,
)
    ensures
        match find_handler(regs, a, m) {
            Some(dispatcher) => exists|i: int|
                {
                    &&& 0 <= i < regs.len()
                    &&& (#[trigger] regs[i]).spec_actor().spec_identity() == a
                    &&& regs[i].spec_message().spec_identity() == m
                    &&& regs[i].spec_dispatcher() == dispatcher
                    &&& forall|j: int|
                        0 <= j < i ==> (#[trigger] regs[j]).spec_actor().spec_identity() != a
                            || regs[j].spec_message().spec_identity() != m
                },
            None => forall|i: int|
                0 <= i < regs.len() ==> (#[trigger] regs[i]).spec_actor().spec_identity() != a
                    || regs[i].spec_message().spec_identity() != m,
        },
    decreases regs.len(),
{
    if regs.len() > 0 {
        let rest = regs.drop_last();
        found_is_the_first(rest, a, m);
        assert forall|i: int| 0 <= i < rest.len() implies rest[i] == #[trigger] regs[i] by {}
        if find_handler(rest, a, m) is Some {
            let i = choose|i: int|
                {
                    &&& 0 <= i < rest.len()
                    &&& (#[trigger] rest[i]).spec_actor().spec_identity() == a
                    &&& rest[i].spec_message().spec_identity() == m
                    &&& rest[i].spec_dispatcher() == find_handler(rest, a, m)->0
                    &&& forall|j: int|
                        0 <= j < i ==> (#[trigger] rest[j]).spec_actor().spec_identity() != a
                            || rest[j].spec_message().spec_identity() != m
                };
            assert(regs[i].spec_dispatcher() == find_handler(regs, a, m)->0);
        } else {
            let i = regs.len() - 1;
            assert(regs[i] == regs.last());
        }
    }
}

/// A message binds to the handler that was registered for it. Whatever was registered,
/// for however many actor and message types: a binder of an actor type, made from the
/// registry, hands a message that the registry was built with to the dispatcher that
/// was registered first for that actor type and that message type, and to nothing
/// where none was registered for them.
pub proof fn messages_bind_to_their_registered_handler<'r, D: Copy>(
    regs: Vec<DynamicHandlerRegistration<D>>,
    initial: Vec<MessageRtti>,
    assigned: Vec<MessageRtti>,
    registry: DispatchRegistry<D>,
    actor: ActorRtti,
    binder: RegistryBinder<'r, D>,
    k: int,
    bound: Option<D>,
)
    requires
        exists|messages: &mut Vec<MessageRtti>|
            #[trigger] call_ensures(
                DispatchRegistry::<D>::build,
                (&regs, messages),
                registry,
            ) && *messages == initial && *final(messages) == assigned,
        call_ensures(RegistryBinder::<'r, D>::new, (&registry, &actor), binder),
        0 <= k < initial.len(),
        call_ensures(MessageRtti::dynamic_dispatch_id, (&initial@[k],), None),
        call_ensures(RegistryBinder::<'r, D>::bind, (&binder, &assigned@[k]), bound),
    ensures
        ({
            let a = actor.spec_identity();
            let m = initial@[k].spec_identity();
            match bound {
                Some(dispatcher) => exists|i: int|
                    {
                        &&& 0 <= i < regs.len()
                        &&& (#[trigger] regs@[i]).spec_actor().spec_identity() == a
                        &&& regs@[i].spec_message().spec_identity() == m
                        &&& regs@[i].spec_dispatcher() == dispatcher
                        &&& forall|j: int|
                            0 <= j < i ==> (#[trigger] regs@[j]).spec_actor().spec_identity() != a
                                || regs@[j].spec_message().spec_identity() != m
                    },
                None => forall|i: int|
                    0 <= i < regs.len() ==> (#[trigger] regs@[i]).spec_actor().spec_identity() != a
                        || regs@[i].spec_message().spec_identity() != m,
            }
        }),
{
    let a = actor.spec_identity();
    let m = initial@[k].spec_identity();
    assert(bound == find_handler(regs@, a, m)) by {
        match binder.spec_table() {
            Some(table) => {
                binding_is_exact(registry, regs@, initial@, table, k);
            },
            None => {
                unlisted_actors_handle_nothing(registry, regs@, a, m);
            },
        }
    }
    found_is_the_first(regs@, a, m);
}

/// Every registered message type gets a dispatch ID of its own, between one and the
/// number of registrations; a message type that is not registered gets none; and
/// nothing else of a message's RTTI changes, least of all which type it describes.
pub proof fn every_registered_message_gets_its_own_id<D: Copy>(
    regs: Vec<DynamicHandlerRegistration<D>>,
    initial: Vec<MessageRtti>,
    assigned: Vec<MessageRtti>,
    registry: DispatchRegistry<D>,
    k: int,
    other: int,
    id: Option<DispatchId>,
    other_id: Option<DispatchId>,
)
    requires
        exists|messages: &mut Vec<MessageRtti>|
            #[trigger] call_ensures(
                DispatchRegistry::<D>::build,
                (&regs, messages),
                registry,
            ) && *messages == initial && *final(messages) == assigned,
        0 <= k < initial.len(),
        0 <= other < initial.len(),
        initial@[k].spec_identity() != initial@[other].spec_identity(),
        call_ensures(MessageRtti::dynamic_dispatch_id, (&initial@[k],), None),
        call_ensures(MessageRtti::dynamic_dispatch_id, (&initial@[other],), None),
        call_ensures(MessageRtti::dynamic_dispatch_id, (&assigned@[k],), id),
        call_ensures(MessageRtti::dynamic_dispatch_id, (&assigned@[other],), other_id),
    ensures
        assigned.len() == initial.len(),
        id is Some <==> exists|i: int|
            0 <= i < regs.len() && (#[trigger] regs@[i]).spec_message().spec_identity()
                == initial@[k].spec_identity(),
        id matches Some(id) ==> 1 <= id.spec_get() <= regs.len(),
        id matches Some(id) ==> (other_id matches Some(other_id) ==> id.spec_get()
            != other_id.spec_get()),
        assigned@[k].spec_identity() == initial@[k].spec_identity(),
        assigned@[k].spec_name() == initial@[k].spec_name(),
        assigned@[k].spec_message_type_info() == initial@[k].spec_message_type_info(),
        assigned@[k].spec_is_clonable() == initial@[k].spec_is_clonable(),
        assigned@[k].spec_is_send() == initial@[k].spec_is_send(),
        assigned@[k].spec_is_answer_sender_send() == initial@[k].spec_is_answer_sender_send(),
        assigned@[k].spec_answer_sender_type_info() == initial@[k].spec_answer_sender_type_info(),
{
    broadcast use with_dispatch_slot_keeps_the_rest;

    let pairs = handled_pairs(regs@);
    let m = initial@[k].spec_identity();
    let n = initial@[other].spec_identity();
    registered_by_a_registration(regs@, m);
    registered_by_a_registration(regs@, n);
    if is_registered(pairs, m) {
        dispatch_id_is_bounded(regs@, m);
    }
    if is_registered(pairs, n) {
        dispatch_id_is_bounded(regs@, n);
    }
    if is_registered(pairs, m) && is_registered(pairs, n) {
        dispatch_ids_are_unique(regs@, m, n);
    }
}

/// A message is registered by a registration that names it.
proof fn registered_by_a_registration<D: Copy>(
    regs: Seq<DynamicHandlerRegistration<D>>,
    m: usize,
)
    ensures
        is_registered(handled_pairs(regs), m) <==> exists|i: int|
            0 <= i < regs.len() && (#[trigger] regs[i]).spec_message().spec_identity() == m,
{
    if is_registered(handled_pairs(regs), m) {
        let a = choose|a: usize| handled_pairs(regs).contains((a, m));
        found_is_registered(regs, a, m);
    }
    if exists|i: int|
        0 <= i < regs.len() && (#[trigger] regs[i]).spec_message().spec_identity() == m {
        let i = choose|i: int|
            0 <= i < regs.len() && (#[trigger] regs[i]).spec_message().spec_identity() == m;
        let a = regs[i].spec_actor().spec_identity();
        found_is_the_first(regs, a, m);
        assert(handled_pairs(regs).contains((a, m)));
    }
}

/// A registry is stale exactly when there are more registrations than it was built
/// from. A stale one says how many came late, and lists each of them, the last of
/// them at the end; a fresh one binds as ever.
pub proof fn late_registrations_are_reported<'r, D: Copy>(
    regs: Vec<DynamicHandlerRegistration<D>>,
    registry: DispatchRegistry<D>,
    current: Vec<DynamicHandlerRegistration<D>>,
    actor: ActorRtti,
    result: Result<RegistryBinder<'r, D>, StaleRegistry>,
)
    requires
        exists|messages: &mut Vec<MessageRtti>| #[trigger]
            call_ensures(DispatchRegistry::<D>::build, (&regs, messages), registry),
        call_ensures(RegistryBinder::<'r, D>::new_fresh, (&registry, &current, &actor), result),
    ensures
        result is Err <==> current.len() > regs.len(),
        result matches Err(stale) ==> {
            let late = current.len() - regs.len();
            let last = current@[late - 1];
            let entry = last.spec_actor().spec_name() + "/"@ + last.spec_message().spec_name();
            &&& stale.late_count == late
            &&& late == 1 ==> stale.late@ == entry
            &&& late > 1 ==> stale.late@ == listing(current@.take(late - 1)) + ", "@ + entry
        },
{
    if result is Err {
        let late = current.len() - regs.len();
        reveal_strlit("/");
        reveal_strlit(", ");
        assert("/"@ =~= seq!['/']);
        assert(", "@ =~= seq![',', ' ']);
        assert(current@.take(late).drop_last() =~= current@.take(late - 1));
        assert(current@.take(late).last() == current@[late - 1]);
        if late > 1 {
            listings_are_not_empty(current@.take(late - 1));
        } else {
            assert(listing(current@.take(0)) =~= Seq::empty());
        }
    }
}

/// A listing of something is not empty: each entry has its slash.
proof fn listings_are_not_empty<D: Copy>(regs: Seq<DynamicHandlerRegistration<D>>)
    requires
        regs.len() > 0,
    ensures
        listing(regs).len() > 0,
{
}

/// A table binds as its registry does: the table of an actor type hands a message that
/// the registry was built with to the dispatcher that was registered first for the two,
/// and there is no table only where nothing was registered for the actor type.
pub proof fn tables_bind_to_their_registered_handler<D: Copy>(
    regs: Vec<DynamicHandlerRegistration<D>>,
    initial: Vec<MessageRtti>,
    assigned: Vec<MessageRtti>,
    registry: DispatchRegistry<D>,
    actor: ActorRtti,
    found: Option<&ActorDispatchTable<D>>,
    k: int,
)
    requires
        exists|messages: &mut Vec<MessageRtti>|
            #[trigger] call_ensures(
                DispatchRegistry::<D>::build,
                (&regs, messages),
                registry,
            ) && *messages == initial && *final(messages) == assigned,
        call_ensures(DispatchRegistry::<D>::table_for, (&registry, &actor), found),
        0 <= k < initial.len(),
        call_ensures(MessageRtti::dynamic_dispatch_id, (&initial@[k],), None),
    ensures
        found is None ==> forall|i: int|
            0 <= i < regs.len() ==> (#[trigger] regs@[i]).spec_actor().spec_identity()
                != actor.spec_identity(),
        found matches Some(table) ==> forall|bound: Option<D>| #[trigger]
            call_ensures(ActorDispatchTable::<D>::bind, (table, &assigned@[k]), bound) ==> {
                let a = actor.spec_identity();
                let m = initial@[k].spec_identity();
                match bound {
                    Some(dispatcher) => exists|i: int|
                        {
                            &&& 0 <= i < regs.len()
                            &&& (#[trigger] regs@[i]).spec_actor().spec_identity() == a
                            &&& regs@[i].spec_message().spec_identity() == m
                            &&& regs@[i].spec_dispatcher() == dispatcher
                            &&& forall|j: int|
                                0 <= j < i ==> (#[trigger] regs@[j]).spec_actor().spec_identity()
                                    != a || regs@[j].spec_message().spec_identity() != m
                        },
                    None => forall|i: int|
                        0 <= i < regs.len() ==> (#[trigger] regs@[i]).spec_actor().spec_identity()
                            != a || regs@[i].spec_message().spec_identity() != m,
                }
            },
{
    let a = actor.spec_identity();
    let m = initial@[k].spec_identity();
    found_is_the_first(regs@, a, m);
    match found {
        Some(table) => {
            binding_is_exact(registry, regs@, initial@, *table, k);
        },
        None => {
            assert forall|i: int| 0 <= i < regs.len() implies (
            #[trigger] regs@[i]).spec_actor().spec_identity() != a by {
                let n = regs@[i].spec_message().spec_identity();
                unlisted_actors_handle_nothing(registry, regs@, a, n);
                found_is_the_first(regs@, a, n);
            }
        },
    }
}

/// Dispatch IDs go by who handles a message: those that one actor type alone handles
/// come first, actor type by actor type, so that each has a run of IDs of its own, and
/// by their own order within it; those that several handle come behind all of them.
pub proof fn dispatch_ids_are_grouped_by_actor<D: Copy>(
    regs: Vec<DynamicHandlerRegistration<D>>,
    initial: Vec<MessageRtti>,
    assigned: Vec<MessageRtti>,
    registry: DispatchRegistry<D>,
    k: int,
    other: int,
    id: DispatchId,
    other_id: DispatchId,
    i: int,
    j: int,
)
    requires
        exists|messages: &mut Vec<MessageRtti>|
            #[trigger] call_ensures(
                DispatchRegistry::<D>::build,
                (&regs, messages),
                registry,
            ) && *messages == initial && *final(messages) == assigned,
        0 <= k < initial.len(),
        0 <= other < initial.len(),
        initial@[k].spec_identity() != initial@[other].spec_identity(),
        call_ensures(MessageRtti::dynamic_dispatch_id, (&initial@[k],), None),
        call_ensures(MessageRtti::dynamic_dispatch_id, (&initial@[other],), None),
        call_ensures(MessageRtti::dynamic_dispatch_id, (&assigned@[k],), Some(id)),
        call_ensures(MessageRtti::dynamic_dispatch_id, (&assigned@[other],), Some(other_id)),
        0 <= i < regs.len() && regs@[i].spec_message().spec_identity()
            == initial@[k].spec_identity(),
        0 <= j < regs.len() && regs@[j].spec_message().spec_identity()
            == initial@[other].spec_identity(),
        forall|r: int|
            0 <= r < regs.len() && (#[trigger] regs@[r]).spec_message().spec_identity()
                == initial@[k].spec_identity() ==> regs@[r].spec_actor().spec_identity()
                == regs@[i].spec_actor().spec_identity(),
    ensures
        (exists|r: int|
            0 <= r < regs.len() && (#[trigger] regs@[r]).spec_message().spec_identity()
                == initial@[other].spec_identity() && regs@[r].spec_actor().spec_identity()
                != regs@[j].spec_actor().spec_identity()) ==> id.spec_get()
            < other_id.spec_get(),
        (forall|r: int|
            0 <= r < regs.len() && (#[trigger] regs@[r]).spec_message().spec_identity()
                == initial@[other].spec_identity() ==> regs@[r].spec_actor().spec_identity()
                == regs@[j].spec_actor().spec_identity()) ==> {
            let a = regs@[i].spec_actor().spec_identity();
            let b = regs@[j].spec_actor().spec_identity();
            &&& a < b ==> id.spec_get() < other_id.spec_get()
            &&& a == b ==> (id.spec_get() < other_id.spec_get() <==> initial@[k].spec_identity()
                < initial@[other].spec_identity())
        },
{
    broadcast use with_dispatch_slot_keeps_the_rest;

    let pairs = handled_pairs(regs@);
    let m = initial@[k].spec_identity();
    let n = initial@[other].spec_identity();
    let a = regs@[i].spec_actor().spec_identity();
    let b = regs@[j].spec_actor().spec_identity();
    registered_by_a_registration(regs@, m);
    registered_by_a_registration(regs@, n);
    dispatch_id_is_bounded(regs@, m);
    dispatch_id_is_bounded(regs@, n);
    dispatch_ids_are_unique(regs@, m, n);
    assert forall|x: usize| #[trigger] pairs.contains((x, m)) implies x == a by {
        found_is_the_first(regs@, x, m);
    }
    found_is_the_first(regs@, a, m);
    found_is_the_first(regs@, b, n);
    assert(pairs.contains((a, m)) && pairs.contains((b, n)));
    assert(is_first_actor(pairs, m, a));
    assert(!is_shared(pairs, m));
    if exists|r: int|
        0 <= r < regs.len() && (#[trigger] regs@[r]).spec_message().spec_identity() == n
            && regs@[r].spec_actor().spec_identity() != b {
        let r = choose|r: int|
            0 <= r < regs.len() && (#[trigger] regs@[r]).spec_message().spec_identity() == n
                && regs@[r].spec_actor().spec_identity() != b;
        let c = regs@[r].spec_actor().spec_identity();
        found_is_the_first(regs@, c, n);
        assert(pairs.contains((c, n)));
        assert(is_shared(pairs, n));
    } else {
        assert forall|x: usize| #[trigger] pairs.contains((x, n)) implies x == b by {
            found_is_the_first(regs@, x, n);
        }
        assert(is_first_actor(pairs, n, b));
        assert(!is_shared(pairs, n));
    }
}

/// A registry can be built from any registrations, however many there are and in
/// whatever order, as long as each message type is listed once and those that are
/// registered have no dispatch ID yet.
pub proof fn any_registrations_can_be_built<D: Copy>(
    regs: Vec<DynamicHandlerRegistration<D>>,
    initial: Vec<MessageRtti>,
    listed: spec_fn(int) -> int,
)
    requires
        regs.len() < usize::MAX,
        forall|i: int, j: int|
            0 <= i < initial.len() && 0 <= j < initial.len() && (
            #[trigger] initial@[i]).spec_identity() == (#[trigger] initial@[j]).spec_identity()
                ==> i == j,
        forall|r: int|
            0 <= r < regs.len() ==> {
                &&& 0 <= listed(r) < initial.len()
                &&& initial@[listed(r)].spec_identity() == (
                #[trigger] regs@[r]).spec_message().spec_identity()
                &&& call_ensures(MessageRtti::dynamic_dispatch_id, (&initial@[listed(r)],), None)
            },
    ensures
        forall|messages: &mut Vec<MessageRtti>|
            *messages == initial ==> #[trigger] call_requires(
                DispatchRegistry::<D>::build,
                (&regs, messages),
            ),
{
    assert forall|r: int| 0 <= r < regs.len() implies is_assignable(
        initial@,
        (#[trigger] regs@[r]).spec_message().spec_identity(),
    ) by {
        assert(initial@[listed(r)].spec_identity() == regs@[r].spec_message().spec_identity());
        assert(initial@[listed(r)].dispatch_slot() == 0);
    }
}

} // verus!
