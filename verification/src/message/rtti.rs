//! Runtime type information about messages.
use vstd::prelude::*;
use vstd::std_specs::cmp::PartialEqSpecImpl;

verus! {

/// Alignment of every message RTTI: its low three address bits are zero, which
/// is what lets an envelope header tag the address.
pub const RTTI_ALIGN: usize = 8;

/// Size and alignment of a type.
#[derive(Clone, Copy, Debug, PartialEq, Eq, Structural)]
pub struct BasicTypeRtti {
    pub size: usize,
    pub align: usize,
}

impl BasicTypeRtti {
    /// The layout of `T`.
    pub fn new<T>() -> (info: Self)
        ensures
            info.size as nat == vstd::layout::size_of::<T>(),
            info.align as nat == vstd::layout::align_of::<T>(),
    {
        BasicTypeRtti { size: core::mem::size_of::<T>(), align: core::mem::align_of::<T>() }
    }
}

/// A non-zero dynamic dispatch ID. Zero is the unassigned sentinel of a message
/// RTTI's ID slot.
#[derive(Clone, Copy, Debug, PartialEq, Eq, Structural)]
pub struct DispatchId {
    pub(crate) value: usize,
}

impl DispatchId {
    #[verifier::type_invariant]
    pub(crate) closed spec fn non_zero(self) -> bool {
        self.value != 0
    }

    /// The number behind the ID.
    pub closed spec fn spec_get(self) -> usize {
        self.value
    }

    /// An ID from its number, or `None` for zero.
    pub fn new(value: usize) -> (id: Option<DispatchId>)
        ensures
            value == 0 <==> id is None,
            id matches Some(id) ==> id.spec_get() == value,
    {
        if value == 0 {
            None
        } else {
            Some(DispatchId { value })
        }
    }

    /// The number behind the ID.
    #[verifier::when_used_as_spec(spec_get)]
    pub fn get(self) -> (value: usize)
        ensures
            value == self.spec_get(),
            value != 0,
    {
        proof {
            use_type_invariant(&self);
        }
        self.value
    }
}

/// Two IDs with the same number are the same ID.
pub proof fn dispatch_id_is_its_number(a: DispatchId, b: DispatchId)
    ensures
        a.spec_get() == b.spec_get() <==> a == b,
{
}

/// Everything required at runtime about a message type.
///
/// A message RTTI is identified by its address, which is a multiple of
/// [`RTTI_ALIGN`].
#[derive(Clone, Copy, Debug)]
pub struct MessageRtti {
    identity: usize,
    name: &'static str,
    message_info: BasicTypeRtti,
    clonable: bool,
    message_send: bool,
    answer_sender_send: bool,
    answer_sender_info: BasicTypeRtti,
    /// Runtime-assigned dynamic dispatch ID, zero while unassigned.
    dynamic_dispatch_id: usize,
}

impl MessageRtti {
    #[verifier::type_invariant]
    pub(crate) closed spec fn aligned(self) -> bool {
        self.identity % RTTI_ALIGN == 0
    }

    /// The address identifying the RTTI.
    pub closed spec fn spec_identity(self) -> usize {
        self.identity
    }

    /// The debug name of the message type.
    pub closed spec fn spec_name(self) -> Seq<char> {
        self.name@
    }

    /// Layout of the message type.
    pub closed spec fn spec_message_type_info(self) -> BasicTypeRtti {
        self.message_info
    }

    /// Whether values of the message type can be cloned.
    pub closed spec fn spec_is_clonable(self) -> bool {
        self.clonable
    }

    /// Whether values of the message type may cross threads.
    pub closed spec fn spec_is_send(self) -> bool {
        self.message_send
    }

    /// Whether the message's answer sender may cross threads.
    pub closed spec fn spec_is_answer_sender_send(self) -> bool {
        self.answer_sender_send
    }

    /// Layout of the message's answer sender.
    pub closed spec fn spec_answer_sender_type_info(self) -> BasicTypeRtti {
        self.answer_sender_info
    }

    /// The number in the dispatch ID slot: zero while unassigned.
    pub closed spec fn dispatch_slot(self) -> usize {
        self.dynamic_dispatch_id
    }

    /// The same RTTI with another number in its dispatch ID slot.
    pub closed spec fn with_dispatch_slot(self, slot: usize) -> MessageRtti {
        MessageRtti { dynamic_dispatch_id: slot, ..self }
    }

    /// Create the RTTI of a message type, living at address `identity`, with an
    /// unassigned dispatch ID.
    pub fn new_named(
        identity: usize,
        name: &'static str,
        message_info: BasicTypeRtti,
        clonable: bool,
        message_send: bool,
        answer_sender_send: bool,
        answer_sender_info: BasicTypeRtti,
    ) -> (rtti: Self)
        requires
            identity % RTTI_ALIGN == 0,
        ensures
            rtti.spec_identity() == identity,
            rtti.spec_name() == name@,
            rtti.spec_message_type_info() == message_info,
            rtti.spec_is_clonable() == clonable,
            rtti.spec_is_send() == message_send,
            rtti.spec_is_answer_sender_send() == answer_sender_send,
            rtti.spec_answer_sender_type_info() == answer_sender_info,
            rtti.dispatch_slot() == 0,
    {
        MessageRtti {
            identity,
            name,
            message_info,
            clonable,
            message_send,
            answer_sender_send,
            answer_sender_info,
            dynamic_dispatch_id: 0,
        }
    }

    /// The name of the message type. Names are for debugging and not
    /// necessarily unique.
    pub fn name(&self) -> (name: &'static str)
        ensures
            name@ == self.spec_name(),
    {
        self.name
    }

    /// Layout of the message type.
    pub fn message_type_info(&self) -> (info: BasicTypeRtti)
        ensures
            info == self.spec_message_type_info(),
    {
        self.message_info
    }

    /// Whether values of the message type can be cloned.
    pub fn is_clonable(&self) -> (clonable: bool)
        ensures
            clonable == self.spec_is_clonable(),
    {
        self.clonable
    }

    /// Whether values of the message type may cross threads.
    pub fn is_send(&self) -> (send: bool)
        ensures
            send == self.spec_is_send(),
    {
        self.message_send
    }

    /// Whether the message's answer sender may cross threads.
    pub fn is_answer_sender_send(&self) -> (send: bool)
        ensures
            send == self.spec_is_answer_sender_send(),
    {
        self.answer_sender_send
    }

    /// Layout of the message's answer sender.
    pub fn answer_sender_type_info(&self) -> (info: BasicTypeRtti)
        ensures
            info == self.spec_answer_sender_type_info(),
    {
        self.answer_sender_info
    }

    /// The address identifying the RTTI.
    pub fn identity(&self) -> (identity: usize)
        ensures
            identity == self.spec_identity(),
            identity % RTTI_ALIGN == 0,
    {
        proof {
            use_type_invariant(self);
        }
        self.identity
    }

    /// The dynamic dispatch ID assigned to the message type, if any.
    pub fn dynamic_dispatch_id(&self) -> (id: Option<DispatchId>)
        ensures
            self.dispatch_slot() == 0 <==> id is None,
            id matches Some(id) ==> id.spec_get() == self.dispatch_slot(),
    {
        DispatchId::new(self.dynamic_dispatch_id)
    }

    /// Assign the dynamic dispatch ID of the message type.
    ///
    /// The slot is write-once: a second assignment fails with the ID that is
    /// already there.
    pub fn assign_dynamic_dispatch_id(&mut self, id: DispatchId) -> (result: Result<(), DispatchId>)
        ensures
            old(self).dispatch_slot() == 0 ==> result is Ok && *final(self)
                == old(self).with_dispatch_slot(id.spec_get()),
            old(self).dispatch_slot() != 0 ==> *final(self) == *old(self) && (result matches Err(
                existing,
            ) && existing.spec_get() == old(self).dispatch_slot()),
    {
        proof {
            use_type_invariant(&*self);
        }
        match DispatchId::new(self.dynamic_dispatch_id) {
            Some(existing) => Err(existing),
            None => {
                self.dynamic_dispatch_id = id.get();
                Ok(())
            },
        }
    }
}

/// Filling the dispatch ID slot changes nothing else of an RTTI.
pub broadcast proof fn with_dispatch_slot_keeps_the_rest(rtti: MessageRtti, slot: usize)
    ensures
        (#[trigger] rtti.with_dispatch_slot(slot)).dispatch_slot() == slot,
        rtti.with_dispatch_slot(slot).spec_identity() == rtti.spec_identity(),
        rtti.with_dispatch_slot(slot).spec_name() == rtti.spec_name(),
        rtti.with_dispatch_slot(slot).spec_message_type_info() == rtti.spec_message_type_info(),
        rtti.with_dispatch_slot(slot).spec_is_clonable() == rtti.spec_is_clonable(),
        rtti.with_dispatch_slot(slot).spec_is_send() == rtti.spec_is_send(),
        rtti.with_dispatch_slot(slot).spec_is_answer_sender_send()
            == rtti.spec_is_answer_sender_send(),
        rtti.with_dispatch_slot(slot).spec_answer_sender_type_info()
            == rtti.spec_answer_sender_type_info(),
        forall|other: usize|
            #![trigger rtti.with_dispatch_slot(slot).with_dispatch_slot(other)]
            rtti.with_dispatch_slot(slot).with_dispatch_slot(other) == rtti.with_dispatch_slot(other),
{
}

/// A message RTTI is only equal to itself: equality goes by identity.
impl PartialEq for MessageRtti {
    fn eq(&self, other: &Self) -> (equal: bool) {
        self.identity == other.identity
    }
}

impl PartialEqSpecImpl for MessageRtti {
    open spec fn obeys_eq_spec() -> bool {
        true
    }

    open spec fn eq_spec(&self, other: &Self) -> bool {
        self.spec_identity() == other.spec_identity()
    }
}

impl Eq for MessageRtti {

}

/// A message RTTI tells what it was made of, has no dispatch ID to begin with, and is
/// equal to those that live at the same address, whatever else they tell.
pub proof fn message_rtti_tells_what_it_was_made_of(
    identity: usize,
    name: &'static str,
    message_info: BasicTypeRtti,
    clonable: bool,
    message_send: bool,
    answer_sender_send: bool,
    answer_sender_info: BasicTypeRtti,
    rtti: MessageRtti,
    other: MessageRtti,
    other_identity: usize,
)
    requires
        call_ensures(
            MessageRtti::new_named,
            (
                identity,
                name,
                message_info,
                clonable,
                message_send,
                answer_sender_send,
                answer_sender_info,
            ),
            rtti,
        ),
        call_ensures(MessageRtti::identity, (&other,), other_identity),
    ensures
        forall|told: usize| #[trigger]
            call_ensures(MessageRtti::identity, (&rtti,), told) ==> told == identity,
        forall|told: &'static str| #[trigger]
            call_ensures(MessageRtti::name, (&rtti,), told) ==> told@ == name@,
        forall|told: BasicTypeRtti| #[trigger]
            call_ensures(MessageRtti::message_type_info, (&rtti,), told) ==> told == message_info,
        forall|told: bool| #[trigger]
            call_ensures(MessageRtti::is_clonable, (&rtti,), told) ==> told == clonable,
        forall|told: bool| #[trigger]
            call_ensures(MessageRtti::is_send, (&rtti,), told) ==> told == message_send,
        forall|told: bool| #[trigger]
            call_ensures(MessageRtti::is_answer_sender_send, (&rtti,), told) ==> told
                == answer_sender_send,
        forall|told: BasicTypeRtti| #[trigger]
            call_ensures(MessageRtti::answer_sender_type_info, (&rtti,), told) ==> told
                == answer_sender_info,
        forall|told: Option<DispatchId>| #[trigger]
            call_ensures(MessageRtti::dynamic_dispatch_id, (&rtti,), told) ==> told is None,
        forall|equal: bool| #[trigger]
            call_ensures(MessageRtti::eq, (&rtti, &other), equal) ==> (equal <==> identity
                == other_identity),
{
}

/// A dispatch ID is assigned once: the first one that is assigned is the one that is
/// told from then on, whatever number it is, and every later assignment fails with it.
pub proof fn the_first_dispatch_id_stays(
    unassigned: MessageRtti,
    id: DispatchId,
    number: usize,
    assigned: MessageRtti,
    result: Result<(), DispatchId>,
    later: DispatchId,
    again: MessageRtti,
    later_result: Result<(), DispatchId>,
)
    requires
        call_ensures(MessageRtti::dynamic_dispatch_id, (&unassigned,), None),
        call_ensures(DispatchId::new, (number,), Some(id)),
        exists|rtti: &mut MessageRtti|
            #[trigger] call_ensures(MessageRtti::assign_dynamic_dispatch_id, (rtti, id), result)
                && *rtti == unassigned && *final(rtti) == assigned,
        exists|rtti: &mut MessageRtti|
            #[trigger] call_ensures(
                MessageRtti::assign_dynamic_dispatch_id,
                (rtti, later),
                later_result,
            ) && *rtti == assigned && *final(rtti) == again,
    ensures
        result is Ok,
        forall|told: Option<DispatchId>, told_number: usize|
            call_ensures(MessageRtti::dynamic_dispatch_id, (&assigned,), told) && told is Some
                && #[trigger] call_ensures(DispatchId::get, (told->0,), told_number) ==> told_number
                == number,
        forall|told: Option<DispatchId>| #[trigger]
            call_ensures(MessageRtti::dynamic_dispatch_id, (&assigned,), told) ==> told is Some,
        later_result matches Err(existing) && existing == id,
        again == assigned,
        assigned.spec_identity() == unassigned.spec_identity(),
        assigned.spec_name() == unassigned.spec_name(),
        assigned.spec_message_type_info() == unassigned.spec_message_type_info(),
        assigned.spec_is_clonable() == unassigned.spec_is_clonable(),
        assigned.spec_is_send() == unassigned.spec_is_send(),
        assigned.spec_is_answer_sender_send() == unassigned.spec_is_answer_sender_send(),
        assigned.spec_answer_sender_type_info() == unassigned.spec_answer_sender_type_info(),
{
    broadcast use with_dispatch_slot_keeps_the_rest;

    assert(number != 0);
    assert(assigned.dispatch_slot() == number);
    dispatch_id_is_its_number(later_result->Err_0, id);
}

} // verus!
