//! Envelopes: the carriers of all message types.
//!
//! An envelope carries one message payload together with the RTTI of its message
//! type and, for ask messages, the sender for the answer. Payloads travel in a
//! common carrier type `P`, answer senders in a common carrier type `S`; which
//! message type a payload belongs to is told by the RTTI alone.
use crate::message::rtti::{BasicTypeRtti, MessageRtti};
use vstd::prelude::*;
use vstd::std_specs::convert::{FromSpecImpl, TryFromSpecImpl};

verus! {

/// The expected size of an architecture native CPU cache line.
pub open spec fn spec_cache_line_size() -> nat {
    8 * vstd::layout::size_of::<usize>()
}

/// The expected size of an architecture native CPU cache line.
pub fn cache_line_size() -> (size: usize)
    ensures
        size == spec_cache_line_size(),
{
    broadcast use vstd::layout::group_layout_axioms;

    core::mem::size_of::<usize>() * 8
}

/// Bytes available for the payload of a tell message: a cache line without the
/// envelope header.
pub open spec fn spec_tell_payload_size() -> nat {
    7 * vstd::layout::size_of::<usize>()
}

/// Bytes available for the answer sender of an ask message: those of a pointer,
/// rounded up to the area's alignment of eight.
pub open spec fn spec_answer_sender_size() -> nat {
    (vstd::layout::size_of::<usize>() + 7) / 8 * 8
}

/// Bytes available for the payload of an ask message: a cache line without the
/// envelope header and the answer sender.
pub open spec fn spec_ask_payload_size() -> nat {
    (spec_tell_payload_size() - spec_answer_sender_size()) as nat
}

/// Bytes available for the payload of a tell message.
pub fn tell_payload_size() -> (size: usize)
    ensures
        size == spec_tell_payload_size(),
{
    broadcast use vstd::layout::group_layout_axioms;

    cache_line_size() - core::mem::size_of::<usize>()
}

/// Bytes available for the payload of an ask message.
pub fn ask_payload_size() -> (size: usize)
    ensures
        size == spec_ask_payload_size(),
{
    broadcast use vstd::layout::group_layout_axioms;

    tell_payload_size() - answer_sender_size()
}

/// Bytes available for the answer sender of an ask message.
pub fn answer_sender_size() -> (size: usize)
    ensures
        size == spec_answer_sender_size(),
{
    broadcast use vstd::layout::group_layout_axioms;

    (core::mem::size_of::<usize>() + 7) / 8 * 8
}

/// The type of a message envelope: whether it expects an answer or not.
#[derive(Clone, Copy, Debug, PartialEq, Eq, Hash, Structural)]
pub enum EnvelopeType {
    /// No answer is expected.
    Tell,
    /// An answer is expected.
    Ask,
}

/// Pointer sized packed header: the address of the message RTTI, tagged in its
/// lowest bit with whether an answer is expected.
#[derive(Clone, Copy, Debug, PartialEq, Eq, Structural)]
pub struct PackedEnvelopeHeader {
    tagged: usize,
}

impl PackedEnvelopeHeader {
    /// The address of the message RTTI.
    pub closed spec fn spec_rtti(self) -> usize {
        self.tagged & !1usize
    }

    /// Whether an answer is expected.
    pub closed spec fn spec_expects_answer(self) -> bool {
        (self.tagged & 1usize) != 0
    }

    /// Create a new packed envelope header.
    pub fn new(rtti: &MessageRtti, with_answer: bool) -> (header: Self)
        ensures
            header.spec_rtti() == rtti.spec_identity(),
            header.spec_expects_answer() == with_answer,
    {
        let address: usize = rtti.identity();
        assert(address % 8 == 0);
        assert((address & !1usize) == address && (address & 1usize) == 0 && ((address | 1usize)
            & !1usize) == address && ((address | 1usize) & 1usize) != 0) by (bit_vector)
            requires
                address % 8 == 0,
        ;
        let tagged: usize = if with_answer {
            address | 1
        } else {
            address
        };
        PackedEnvelopeHeader { tagged }
    }

    /// The address of the RTTI this envelope header points to.
    pub fn rtti(&self) -> (address: usize)
        ensures
            address == self.spec_rtti(),
    {
        self.tagged & !1
    }

    /// Check whether this envelope expects an answer.
    pub fn expects_answer(&self) -> (expects: bool)
        ensures
            expects == self.spec_expects_answer(),
    {
        (self.tagged & 1) != 0
    }
}

/// A data area of the envelope: a value that fits is stored in the area itself,
/// a larger one is boxed.
#[derive(Debug)]
pub enum DataArea<T> {
    Inline(T),
    Boxed(Box<T>),
}

impl<T> DataArea<T> {
    /// The stored value.
    pub open spec fn value(self) -> T {
        match self {
            DataArea::Inline(value) => value,
            DataArea::Boxed(value) => *value,
        }
    }

    /// Store a value of `size` bytes in an area of `capacity` bytes.
    pub fn pack_or_box(value: T, size: usize, capacity: usize) -> (area: Self)
        ensures
            area.value() == value,
            area is Inline <==> size <= capacity,
    {
        if size <= capacity {
            DataArea::Inline(value)
        } else {
            DataArea::Boxed(Box::new(value))
        }
    }

    /// Take the stored value out.
    pub fn unpack_or_unbox(self) -> (value: T)
        ensures
            value == self.value(),
    {
        match self {
            DataArea::Inline(value) => value,
            DataArea::Boxed(boxed) => *boxed,
        }
    }

    /// The stored value as a reference.
    pub fn unwrap_payload_ref(&self) -> (value: &T)
        ensures
            *value == self.value(),
    {
        match self {
            DataArea::Inline(value) => value,
            DataArea::Boxed(boxed) => &**boxed,
        }
    }

    /// The stored value as a mutable reference.
    pub fn unwrap_payload_mut(&mut self) -> (value: &mut T)
        ensures
            *value == old(self).value(),
            final(self).value() == *final(value),
            (*final(self)) is Inline <==> (*old(self)) is Inline,
    {
        match self {
            DataArea::Inline(value) => value,
            DataArea::Boxed(boxed) => &mut **boxed,
        }
    }
}

/// The payload body of a message envelope.
#[derive(Debug)]
enum MessageEnvelopePayload<P, S> {
    /// No answer is expected.
    Tell { data: DataArea<P> },
    /// An answer is expected.
    Ask { data: DataArea<P>, answer_sender: DataArea<S> },
}

/// Carrier for all message types.
#[derive(Debug)]
pub struct MessageEnvelope<'a, P, S> {
    payload: MessageEnvelopePayload<P, S>,
    header: PackedEnvelopeHeader,
    rtti: &'a MessageRtti,
}

impl<'a, P, S> MessageEnvelope<'a, P, S> {
    /// The RTTI of the message carried by this envelope.
    pub closed spec fn spec_rtti(self) -> MessageRtti {
        *self.rtti
    }

    /// The type of the envelope.
    pub closed spec fn spec_ty(self) -> EnvelopeType {
        if self.header.spec_expects_answer() {
            EnvelopeType::Ask
        } else {
            EnvelopeType::Tell
        }
    }

    /// The carried message.
    pub closed spec fn spec_payload(self) -> P {
        self.data_area().value()
    }

    /// The sender for the answer, where one is expected.
    pub closed spec fn spec_answer_sender(self) -> Option<S> {
        match self.payload {
            MessageEnvelopePayload::Tell { .. } => None,
            MessageEnvelopePayload::Ask { answer_sender, .. } => Some(answer_sender.value()),
        }
    }

    /// Whether the message is boxed, rather than stored in the envelope itself.
    pub closed spec fn spec_is_boxed(self) -> bool {
        self.data_area() is Boxed
    }

    spec fn data_area(self) -> DataArea<P> {
        match self.payload {
            MessageEnvelopePayload::Tell { data } => data,
            MessageEnvelopePayload::Ask { data, .. } => data,
        }
    }

    /// The header agrees with the RTTI and the payload body, and exactly the
    /// values that are too large for their data area are boxed.
    pub closed spec fn wf(self) -> bool {
        let size = self.rtti.spec_message_type_info().size;
        &&& self.header.spec_rtti() == self.rtti.spec_identity()
        &&& match self.payload {
            MessageEnvelopePayload::Tell { data } => {
                &&& !self.header.spec_expects_answer()
                &&& data is Boxed <==> size > spec_tell_payload_size()
            },
            MessageEnvelopePayload::Ask { data, answer_sender } => {
                &&& self.header.spec_expects_answer()
                &&& data is Boxed <==> size > spec_ask_payload_size()
                &&& answer_sender is Boxed <==> self.rtti.spec_answer_sender_type_info().size
                    > spec_answer_sender_size()
            },
        }
    }

    /// Whether this envelope can be safely sent across thread boundaries: a tell
    /// message needs only the message to be sendable, an ask message its answer
    /// sender as well.
    pub open spec fn spec_is_sendable(self) -> bool {
        self.spec_rtti().spec_is_send() && (self.spec_ty() == EnvelopeType::Ask
            ==> self.spec_rtti().spec_is_answer_sender_send())
    }

    /// Whether the envelope carries a message of the type described by `rtti`.
    pub open spec fn carries(self, rtti: MessageRtti) -> bool {
        self.spec_rtti().spec_identity() == rtti.spec_identity()
    }

    /// Create a new message envelope for a message of the type described by
    /// `rtti`.
    pub fn new(rtti: &'a MessageRtti, message: P, answer_sender: Option<S>) -> (envelope: Self)
        ensures
            envelope.wf(),
            envelope.spec_rtti() == *rtti,
            envelope.spec_payload() == message,
            envelope.spec_answer_sender() == answer_sender,
            envelope.spec_ty() == if answer_sender is Some {
                EnvelopeType::Ask
            } else {
                EnvelopeType::Tell
            },
    {
        let header = PackedEnvelopeHeader::new(rtti, answer_sender.is_some());
        let size: usize = rtti.message_type_info().size;
        let payload = match answer_sender {
            None => MessageEnvelopePayload::Tell {
                data: DataArea::pack_or_box(message, size, tell_payload_size()),
            },
            Some(answer_sender) => MessageEnvelopePayload::Ask {
                data: DataArea::pack_or_box(message, size, ask_payload_size()),
                answer_sender: DataArea::pack_or_box(
                    answer_sender,
                    rtti.answer_sender_type_info().size,
                    answer_sender_size(),
                ),
            },
        };
        MessageEnvelope { payload, header, rtti }
    }

    /// The RTTI of the message carried by this envelope.
    pub fn rtti(&self) -> (rtti: &'a MessageRtti)
        ensures
            *rtti == self.spec_rtti(),
    {
        self.rtti
    }

    /// Determine the type of the envelope.
    pub fn ty(&self) -> (ty: EnvelopeType)
        ensures
            ty == self.spec_ty(),
            self.wf() ==> (ty == EnvelopeType::Ask <==> self.spec_answer_sender() is Some),
    {
        if self.header.expects_answer() {
            EnvelopeType::Ask
        } else {
            EnvelopeType::Tell
        }
    }

    /// Retrieve the wrapped payload of this envelope as a reference.
    ///
    /// Returns `None` if the payload is of a different type.
    pub fn payload(&self, rtti: &MessageRtti) -> (payload: Option<&P>)
        ensures
            payload is Some <==> self.carries(*rtti),
            payload matches Some(payload) ==> *payload == self.spec_payload(),
    {
        if *rtti != *self.rtti() {
            return None;
        }
        Some(self.payload_unchecked(rtti))
    }

    /// Retrieve the wrapped payload of this envelope as a mutable reference.
    ///
    /// Returns `None` if the payload is of a different type.
    pub fn payload_mut(&mut self, rtti: &MessageRtti) -> (payload: Option<&mut P>)
        ensures
            payload is Some <==> old(self).carries(*rtti),
            payload is None ==> *final(self) == *old(self),
            payload matches Some(payload) ==> {
                &&& *payload == old(self).spec_payload()
                &&& final(self).spec_payload() == *final(payload)
                &&& final(self).spec_rtti() == old(self).spec_rtti()
                &&& final(self).spec_ty() == old(self).spec_ty()
                &&& final(self).spec_answer_sender() == old(self).spec_answer_sender()
                &&& final(self).wf() == old(self).wf()
            },
    {
        if *rtti != *self.rtti() {
            return None;
        }
        Some(self.payload_mut_unchecked(rtti))
    }

    /// Retrieve the wrapped payload of this envelope, known to be of the type
    /// described by `rtti`, as a reference.
    pub fn payload_unchecked(&self, rtti: &MessageRtti) -> (payload: &P)
        requires
            self.carries(*rtti),
        ensures
            *payload == self.spec_payload(),
    {
        match &self.payload {
            MessageEnvelopePayload::Tell { data } => data.unwrap_payload_ref(),
            MessageEnvelopePayload::Ask { data, .. } => data.unwrap_payload_ref(),
        }
    }

    /// Retrieve the wrapped payload of this envelope, known to be of the type
    /// described by `rtti`, as a mutable reference.
    pub fn payload_mut_unchecked(&mut self, rtti: &MessageRtti) -> (payload: &mut P)
        requires
            old(self).carries(*rtti),
        ensures
            *payload == old(self).spec_payload(),
            final(self).spec_payload() == *final(payload),
            final(self).spec_rtti() == old(self).spec_rtti(),
            final(self).spec_ty() == old(self).spec_ty(),
            final(self).spec_answer_sender() == old(self).spec_answer_sender(),
            final(self).wf() == old(self).wf(),
    {
        match &mut self.payload {
            MessageEnvelopePayload::Tell { data } => data.unwrap_payload_mut(),
            MessageEnvelopePayload::Ask { data, .. } => data.unwrap_payload_mut(),
        }
    }

    /// Unwrap this envelope and reveal its parts.
    ///
    /// Fails with the unchanged envelope if the payload is of a different type.
    pub fn unwrap(self, rtti: &MessageRtti) -> (result: Result<(P, Option<S>), Self>)
        ensures
            result is Ok <==> self.carries(*rtti),
            result matches Ok(parts) ==> parts.0 == self.spec_payload() && parts.1
                == self.spec_answer_sender(),
            result matches Err(envelope) ==> envelope == self,
    {
        if *rtti != *self.rtti() {
            return Err(self);
        }
        Ok(self.unwrap_unchecked(rtti))
    }

    /// Unwrap this envelope, known to carry a payload of the type described by
    /// `rtti`, and reveal its parts.
    pub fn unwrap_unchecked(self, rtti: &MessageRtti) -> (parts: (P, Option<S>))
        requires
            self.carries(*rtti),
        ensures
            parts.0 == self.spec_payload(),
            parts.1 == self.spec_answer_sender(),
    {
        match self.payload {
            MessageEnvelopePayload::Tell { data } => (data.unpack_or_unbox(), None),
            MessageEnvelopePayload::Ask { data, answer_sender } => (
                data.unpack_or_unbox(),
                Some(answer_sender.unpack_or_unbox()),
            ),
        }
    }

    /// Check whether this envelope can be safely sent across thread boundaries.
    pub fn is_sendable(&self) -> (sendable: bool)
        ensures
            sendable == self.spec_is_sendable(),
    {
        if !self.rtti().is_send() {
            return false;
        }
        match self.ty() {
            EnvelopeType::Tell => true,
            EnvelopeType::Ask => self.rtti().is_answer_sender_send(),
        }
    }

    /// The payload, and whether it is boxed rather than stored in the envelope
    /// itself: it is where it does not fit the envelope's data area.
    pub fn payload_ptr(&self) -> (result: (&P, bool))
        requires
            self.wf(),
        ensures
            *result.0 == self.spec_payload(),
            result.1 == self.spec_is_boxed(),
            result.1 == (self.spec_rtti().spec_message_type_info().size > if self.spec_ty()
                == EnvelopeType::Ask {
                spec_ask_payload_size()
            } else {
                spec_tell_payload_size()
            }),
    {
        let message_size: usize = self.rtti().message_type_info().size;
        match &self.payload {
            MessageEnvelopePayload::Tell { data } => (
                data.unwrap_payload_ref(),
                message_size > tell_payload_size(),
            ),
            MessageEnvelopePayload::Ask { data, .. } => (
                data.unwrap_payload_ref(),
                message_size > ask_payload_size(),
            ),
        }
    }
}

impl<'a, P: Clone, S> MessageEnvelope<'a, P, S> {
    /// Try cloning the envelope.
    ///
    /// The clone succeeds for a tell message of a clonable type. Ask messages
    /// are never clonable: one message can only receive one answer.
    pub fn try_clone(&self) -> (clone: Option<Self>)
        ensures
            clone is Some <==> self.spec_ty() == EnvelopeType::Tell
                && self.spec_rtti().spec_is_clonable(),
            clone matches Some(clone) ==> {
                &&& clone.wf()
                &&& clone.spec_rtti() == self.spec_rtti()
                &&& clone.spec_ty() == EnvelopeType::Tell
                &&& clone.spec_answer_sender() is None
                &&& cloned(self.spec_payload(), clone.spec_payload())
            },
    {
        match self.ty() {
            EnvelopeType::Tell => self.try_clone_as_tell(),
            EnvelopeType::Ask => None,
        }
    }

    /// Try cloning the envelope as a tell message.
    ///
    /// The clone succeeds for a message of a clonable type. An ask message
    /// effectively decomposes into a new tell message.
    pub fn try_clone_as_tell(&self) -> (clone: Option<Self>)
        ensures
            clone is Some <==> self.spec_rtti().spec_is_clonable(),
            clone matches Some(clone) ==> {
                &&& clone.wf()
                &&& clone.spec_rtti() == self.spec_rtti()
                &&& clone.spec_ty() == EnvelopeType::Tell
                &&& clone.spec_answer_sender() is None
                &&& cloned(self.spec_payload(), clone.spec_payload())
            },
    {
        if !self.rtti().is_clonable() {
            return None;
        }
        let payload: P = self.payload_unchecked(self.rtti()).clone();
        Some(MessageEnvelope::new(self.rtti(), payload, None))
    }
}

/// A [`MessageEnvelope`] that is guaranteed to be sendable across threads.
#[derive(Debug)]
pub struct SendableEnvelope<'a, P, S> {
    inner: MessageEnvelope<'a, P, S>,
}

impl<'a, P, S> SendableEnvelope<'a, P, S> {
    /// The wrapped envelope.
    pub closed spec fn spec_inner(self) -> MessageEnvelope<'a, P, S> {
        self.inner
    }

    /// The given envelope, wrapped.
    pub closed spec fn around(inner: MessageEnvelope<'a, P, S>) -> Self {
        SendableEnvelope { inner }
    }

    /// The wrapped envelope is well-formed and sendable.
    pub open spec fn wf(self) -> bool {
        self.spec_inner().wf() && self.spec_inner().spec_is_sendable()
    }

    /// Create a new [`SendableEnvelope`] from a message of a type that is
    /// sendable together with its answer sender.
    pub fn new(rtti: &'a MessageRtti, message: P, answer_sender: Option<S>) -> (envelope: Self)
        requires
            rtti.spec_is_send(),
            rtti.spec_is_answer_sender_send(),
        ensures
            envelope.wf(),
            envelope.spec_inner().spec_rtti() == *rtti,
            envelope.spec_inner().spec_payload() == message,
            envelope.spec_inner().spec_answer_sender() == answer_sender,
            envelope.spec_inner().spec_ty() == if answer_sender is Some {
                EnvelopeType::Ask
            } else {
                EnvelopeType::Tell
            },
    {
        SendableEnvelope { inner: MessageEnvelope::new(rtti, message, answer_sender) }
    }

    /// Try to wrap a [`MessageEnvelope`] in a [`SendableEnvelope`].
    ///
    /// Fails with the unchanged envelope if it is not sendable.
    pub fn try_from_envelope(envelope: MessageEnvelope<'a, P, S>) -> (result: Result<
        Self,
        MessageEnvelope<'a, P, S>,
    >)
        ensures
            result is Ok <==> envelope.spec_is_sendable(),
            result matches Ok(sendable) ==> {
                &&& sendable == SendableEnvelope::around(envelope)
                &&& sendable.spec_inner() == envelope
                &&& envelope.wf() ==> sendable.wf()
            },
            result matches Err(rejected) ==> rejected == envelope,
    {
        if envelope.is_sendable() {
            Ok(SendableEnvelope { inner: envelope })
        } else {
            Err(envelope)
        }
    }

    /// Unwrap the [`SendableEnvelope`] into the inner [`MessageEnvelope`].
    pub fn into_inner(self) -> (envelope: MessageEnvelope<'a, P, S>)
        ensures
            envelope == self.spec_inner(),
    {
        self.inner
    }

    /// The wrapped envelope.
    pub fn envelope(&self) -> (envelope: &MessageEnvelope<'a, P, S>)
        ensures
            *envelope == self.spec_inner(),
    {
        &self.inner
    }

    /// Retrieve the wrapped payload as a mutable reference.
    ///
    /// Returns `None` if the payload is of a different type.
    pub fn payload_mut(&mut self, rtti: &MessageRtti) -> (payload: Option<&mut P>)
        ensures
            payload is Some <==> old(self).spec_inner().carries(*rtti),
            payload is None ==> *final(self) == *old(self),
            payload matches Some(payload) ==> {
                &&& *payload == old(self).spec_inner().spec_payload()
                &&& final(self).spec_inner().spec_payload() == *final(payload)
                &&& final(self).spec_inner().spec_rtti() == old(self).spec_inner().spec_rtti()
                &&& final(self).spec_inner().spec_ty() == old(self).spec_inner().spec_ty()
                &&& final(self).spec_inner().spec_answer_sender()
                    == old(self).spec_inner().spec_answer_sender()
                &&& final(self).wf() == old(self).wf()
            },
    {
        self.inner.payload_mut(rtti)
    }
}

impl<'a, P: Clone, S> SendableEnvelope<'a, P, S> {
    /// Try cloning the envelope, see [`MessageEnvelope::try_clone`]. The clone is
    /// sendable as well.
    pub fn try_clone(&self) -> (clone: Option<Self>)
        requires
            self.wf(),
        ensures
            clone is Some <==> self.spec_inner().spec_ty() == EnvelopeType::Tell
                && self.spec_inner().spec_rtti().spec_is_clonable(),
            clone matches Some(clone) ==> {
                &&& clone.wf()
                &&& clone.spec_inner().spec_rtti() == self.spec_inner().spec_rtti()
                &&& clone.spec_inner().spec_ty() == EnvelopeType::Tell
                &&& cloned(self.spec_inner().spec_payload(), clone.spec_inner().spec_payload())
            },
    {
        match self.inner.try_clone() {
            Some(inner) => Some(SendableEnvelope { inner }),
            None => None,
        }
    }

    /// Try cloning the envelope as a tell message, see
    /// [`MessageEnvelope::try_clone_as_tell`]. The clone is sendable as well.
    pub fn try_clone_as_tell(&self) -> (clone: Option<Self>)
        requires
            self.wf(),
        ensures
            clone is Some <==> self.spec_inner().spec_rtti().spec_is_clonable(),
            clone matches Some(clone) ==> {
                &&& clone.wf()
                &&& clone.spec_inner().spec_rtti() == self.spec_inner().spec_rtti()
                &&& clone.spec_inner().spec_ty() == EnvelopeType::Tell
                &&& cloned(self.spec_inner().spec_payload(), clone.spec_inner().spec_payload())
            },
    {
        match self.inner.try_clone_as_tell() {
            Some(inner) => Some(SendableEnvelope { inner }),
            None => None,
        }
    }
}

impl<'a, P, S> From<SendableEnvelope<'a, P, S>> for MessageEnvelope<'a, P, S> {
    fn from(envelope: SendableEnvelope<'a, P, S>) -> (inner: Self) {
        envelope.into_inner()
    }
}

impl<'a, P, S> FromSpecImpl<SendableEnvelope<'a, P, S>> for MessageEnvelope<'a, P, S> {
    open spec fn obeys_from_spec() -> bool {
        true
    }

    open spec fn from_spec(envelope: SendableEnvelope<'a, P, S>) -> Self {
        envelope.spec_inner()
    }
}

impl<'a, P, S> TryFrom<MessageEnvelope<'a, P, S>> for SendableEnvelope<'a, P, S> {
    type Error = MessageEnvelope<'a, P, S>;

    fn try_from(envelope: MessageEnvelope<'a, P, S>) -> (result: Result<
        Self,
        MessageEnvelope<'a, P, S>,
    >) {
        SendableEnvelope::try_from_envelope(envelope)
    }
}

impl<'a, P, S> TryFromSpecImpl<MessageEnvelope<'a, P, S>> for SendableEnvelope<'a, P, S> {
    open spec fn obeys_try_from_spec() -> bool {
        true
    }

    open spec fn try_from_spec(envelope: MessageEnvelope<'a, P, S>) -> Result<
        Self,
        MessageEnvelope<'a, P, S>,
    > {
        if envelope.spec_is_sendable() {
            Ok(SendableEnvelope::around(envelope))
        } else {
            Err(envelope)
        }
    }
}

/// Unwrapping reveals what was wrapped: the very message and answer sender, for
/// whoever names the message's type, and the unchanged envelope for whoever names
/// another.
pub proof fn unwrap_reveals_what_was_wrapped<'a, P, S>(
    rtti: &'a MessageRtti,
    message: P,
    answer_sender: Option<S>,
    envelope: MessageEnvelope<'a, P, S>,
    named: &MessageRtti,
    result: Result<(P, Option<S>), MessageEnvelope<'a, P, S>>,
)
    requires
        call_ensures(MessageEnvelope::<'a, P, S>::new, (rtti, message, answer_sender), envelope),
        call_ensures(MessageEnvelope::<'a, P, S>::unwrap, (envelope, named), result),
    ensures
        rtti.spec_identity() == named.spec_identity() ==> result == Ok::<
            (P, Option<S>),
            MessageEnvelope<'a, P, S>,
        >((message, answer_sender)),
        rtti.spec_identity() != named.spec_identity() ==> result == Err::<
            (P, Option<S>),
            MessageEnvelope<'a, P, S>,
        >(envelope),
{
}

/// An ask message that may cross threads may do so as a tell message too; so what
/// it decomposes into by [`MessageEnvelope::try_clone_as_tell`] is sendable where
/// it was.
pub proof fn sendable_ask_decomposes_into_sendable_tell<'a, P, S>(
    ask: MessageEnvelope<'a, P, S>,
    tell: MessageEnvelope<'a, P, S>,
)
    requires
        ask.spec_is_sendable(),
        tell.spec_rtti() == ask.spec_rtti(),
        tell.spec_ty() == EnvelopeType::Tell,
    ensures
        tell.spec_is_sendable(),
{
}

/// Header and data areas fill a cache line, with or without an answer sender, and
/// each area has room for at least a pointer to what it boxes.
pub proof fn areas_fill_a_cache_line()
    ensures
        vstd::layout::size_of::<usize>() + spec_tell_payload_size() == spec_cache_line_size(),
        vstd::layout::size_of::<usize>() + spec_ask_payload_size() + spec_answer_sender_size()
            == spec_cache_line_size(),
        vstd::layout::size_of::<usize>() <= spec_answer_sender_size(),
        vstd::layout::size_of::<usize>() <= spec_ask_payload_size(),
        spec_ask_payload_size() <= spec_tell_payload_size(),
{
    broadcast use vstd::layout::group_layout_axioms;

}

/// A message may cross threads if its type may, and an ask only if its answer sender
/// may too; otherwise the envelope comes back as it was.
pub proof fn envelopes_cross_threads_as_their_type_may<'a, P, S>(
    identity: usize,
    name: &'static str,
    message_info: BasicTypeRtti,
    clonable: bool,
    message_send: bool,
    answer_sender_send: bool,
    answer_sender_info: BasicTypeRtti,
    rtti: &'a MessageRtti,
    message: P,
    answer_sender: Option<S>,
    envelope: MessageEnvelope<'a, P, S>,
    result: Result<SendableEnvelope<'a, P, S>, MessageEnvelope<'a, P, S>>,
)
    requires
        call_ensures(
            MessageRtti::new_named,
            (
                identity,
                name,
                message_info,
                clonable,
                message_send,
                answer_sender_send,
                answer_sender_info,
            ),
            *rtti,
        ),
        call_ensures(MessageEnvelope::<'a, P, S>::new, (rtti, message, answer_sender), envelope),
        call_ensures(
            SendableEnvelope::<'a, P, S>::try_from_envelope,
            (envelope,),
            result,
        ),
    ensures
        forall|sendable: bool| #[trigger]
            call_ensures(MessageEnvelope::<'a, P, S>::is_sendable, (&envelope,), sendable) ==> (
            sendable <==> message_send && (answer_sender is None || answer_sender_send)),
        result is Ok <==> message_send && (answer_sender is None || answer_sender_send),
        result matches Err(back) ==> back == envelope,
        result matches Ok(sendable) ==> forall|inner: MessageEnvelope<'a, P, S>| #[trigger]
            call_ensures(SendableEnvelope::<'a, P, S>::into_inner, (sendable,), inner) ==> inner
                == envelope,
{
}

/// An envelope tells of its message what it was made with: its type, whether an answer
/// is expected, and the very message, in the envelope itself where it fits, which is in
/// a cache line beside the header and the answer sender.
pub proof fn envelopes_tell_what_was_wrapped<'a, P, S>(
    rtti: &'a MessageRtti,
    message: P,
    answer_sender: Option<S>,
    envelope: MessageEnvelope<'a, P, S>,
)
    requires
        call_ensures(MessageEnvelope::<'a, P, S>::new, (rtti, message, answer_sender), envelope),
    ensures
        forall|told: &'a MessageRtti| #[trigger]
            call_ensures(MessageEnvelope::<'a, P, S>::rtti, (&envelope,), told) ==> *told == *rtti,
        forall|ty: EnvelopeType| #[trigger]
            call_ensures(MessageEnvelope::<'a, P, S>::ty, (&envelope,), ty) ==> (ty is Ask
                <==> answer_sender is Some),
        forall|named: &MessageRtti, payload: Option<&P>| #[trigger]
            call_ensures(MessageEnvelope::<'a, P, S>::payload, (&envelope, named), payload) ==> {
                &&& payload is Some <==> named.spec_identity() == rtti.spec_identity()
                &&& payload matches Some(payload) ==> *payload == message
            },
        forall|stored: (&P, bool)| #[trigger]
            call_ensures(MessageEnvelope::<'a, P, S>::payload_ptr, (&envelope,), stored) ==> {
                &&& *stored.0 == message
                &&& answer_sender is None ==> (stored.1 <==> rtti.spec_message_type_info().size > 7
                    * vstd::layout::size_of::<usize>())
                &&& answer_sender is Some ==> (stored.1 <==> rtti.spec_message_type_info().size > 7
                    * vstd::layout::size_of::<usize>() - 8)
            },
{
    pointers_take_four_or_eight_bytes();
}

/// A change of the message in an envelope is a change of the message alone.
pub proof fn changing_a_message_keeps_the_rest<'a, P, S>(
    rtti: &'a MessageRtti,
    message: P,
    answer_sender: Option<S>,
    envelope: MessageEnvelope<'a, P, S>,
    named: MessageRtti,
)
    requires
        call_ensures(MessageEnvelope::<'a, P, S>::new, (rtti, message, answer_sender), envelope),
    ensures
        forall|changed: &mut MessageEnvelope<'a, P, S>, payload: Option<&mut P>|
            *changed == envelope && #[trigger] call_ensures(
                MessageEnvelope::<'a, P, S>::payload_mut,
                (changed, &named),
                payload,
            ) ==> {
                &&& payload is Some <==> named.spec_identity() == rtti.spec_identity()
                &&& payload is None ==> *final(changed) == envelope
                &&& payload matches Some(payload) ==> {
                    &&& *payload == message
                    &&& final(changed).spec_payload() == *final(payload)
                    &&& final(changed).spec_rtti() == *rtti
                    &&& final(changed).spec_answer_sender() == answer_sender
                }
            },
{
}

/// A message is cloned where its type can be: as a tell only, since one message can
/// only receive one answer; so an ask is cloned only by giving up its answer.
pub proof fn clones_are_tells_of_clonable_types<'a, P: Clone, S>(
    rtti: &'a MessageRtti,
    clonable: bool,
    message: P,
    answer_sender: Option<S>,
    envelope: MessageEnvelope<'a, P, S>,
)
    requires
        call_ensures(MessageRtti::is_clonable, (rtti,), clonable),
        call_ensures(MessageEnvelope::<'a, P, S>::new, (rtti, message, answer_sender), envelope),
    ensures
        forall|clone: Option<MessageEnvelope<'a, P, S>>| #[trigger]
            call_ensures(MessageEnvelope::<'a, P, S>::try_clone, (&envelope,), clone) ==> {
                &&& clone is Some <==> clonable && answer_sender is None
                &&& clone matches Some(clone) ==> cloned(message, clone.spec_payload())
                    && clone.spec_rtti() == *rtti && clone.spec_answer_sender() is None
            },
        forall|clone: Option<MessageEnvelope<'a, P, S>>| #[trigger]
            call_ensures(MessageEnvelope::<'a, P, S>::try_clone_as_tell, (&envelope,), clone) ==> {
                &&& clone is Some <==> clonable
                &&& clone matches Some(clone) ==> cloned(message, clone.spec_payload())
                    && clone.spec_rtti() == *rtti && clone.spec_answer_sender() is None
            },
{
}

/// A header tells the address and the tag it was packed from, whatever they are.
pub proof fn headers_unpack_what_was_packed(
    rtti: &MessageRtti,
    with_answer: bool,
    header: PackedEnvelopeHeader,
    identity: usize,
)
    requires
        call_ensures(PackedEnvelopeHeader::new, (rtti, with_answer), header),
        call_ensures(MessageRtti::identity, (rtti,), identity),
    ensures
        forall|told: usize| #[trigger]
            call_ensures(PackedEnvelopeHeader::rtti, (&header,), told) ==> told == identity,
        forall|told: bool| #[trigger]
            call_ensures(PackedEnvelopeHeader::expects_answer, (&header,), told) ==> told
                == with_answer,
{
}

/// A cache line is eight pointers: one is the header, and the answer sender of an ask
/// takes eight bytes of the seven others.
pub proof fn a_cache_line_is_eight_pointers(line: usize, tell: usize, ask: usize, answer: usize)
    requires
        call_ensures(cache_line_size, (), line),
        call_ensures(tell_payload_size, (), tell),
        call_ensures(ask_payload_size, (), ask),
        call_ensures(answer_sender_size, (), answer),
    ensures
        line == 8 * vstd::layout::size_of::<usize>(),
        tell == 7 * vstd::layout::size_of::<usize>(),
        answer == 8,
        ask == tell - 8,
{
    pointers_take_four_or_eight_bytes();
}

/// A pointer takes four or eight bytes.
proof fn pointers_take_four_or_eight_bytes()
    ensures
        vstd::layout::size_of::<usize>() == 4 || vstd::layout::size_of::<usize>() == 8,
{
    broadcast use vstd::layout::group_layout_axioms;

}

} // verus!
