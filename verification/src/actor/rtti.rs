//! Runtime type information about actors.
use vstd::prelude::*;
use vstd::std_specs::cmp::PartialEqSpecImpl;

verus! {

/// Whether a type may be sent to, and shared with, other threads.
#[derive(Clone, Copy, Debug, PartialEq, Eq, Structural)]
pub struct SendSyncRtti {
    pub send: bool,
    pub sync: bool,
}

/// Runtime type information about an actor's channel.
#[derive(Clone, Copy, Debug, PartialEq, Eq, Structural)]
pub struct ChannelRtti {
    pub send_sync: SendSyncRtti,
}

impl ChannelRtti {
    /// Create a new channel RTTI.
    pub fn new(send_sync: SendSyncRtti) -> (rtti: Self)
        ensures
            rtti.send_sync == send_sync,
    {
        ChannelRtti { send_sync }
    }

    /// Whether the channel may be sent to other threads.
    pub fn is_send(&self) -> (send: bool)
        ensures
            send == self.send_sync.send,
    {
        self.send_sync.send
    }

    /// Whether the channel may be shared with other threads.
    pub fn is_sync(&self) -> (sync: bool)
        ensures
            sync == self.send_sync.sync,
    {
        self.send_sync.sync
    }
}

/// Everything required at runtime about an actor type. An actor RTTI is
/// identified by its address.
#[derive(Clone, Copy, Debug)]
pub struct ActorRtti {
    identity: usize,
    name: &'static str,
    channel_rtti: ChannelRtti,
    error_rtti: SendSyncRtti,
}

impl ActorRtti {
    /// The address identifying the RTTI.
    pub closed spec fn spec_identity(self) -> usize {
        self.identity
    }

    /// The debug name of the actor type.
    pub closed spec fn spec_name(self) -> Seq<char> {
        self.name@
    }

    /// The RTTI of the actor's channel.
    pub closed spec fn spec_channel(self) -> ChannelRtti {
        self.channel_rtti
    }

    /// The thread-safety of the actor's error type.
    pub closed spec fn spec_error(self) -> SendSyncRtti {
        self.error_rtti
    }

    /// Create the RTTI of an actor type, living at address `identity`.
    pub fn new_named(
        identity: usize,
        name: &'static str,
        channel_rtti: ChannelRtti,
        error_rtti: SendSyncRtti,
    ) -> (rtti: Self)
        ensures
            rtti.spec_identity() == identity,
            rtti.spec_name() == name@,
            rtti.spec_channel() == channel_rtti,
            rtti.spec_error() == error_rtti,
    {
        ActorRtti { identity, name, channel_rtti, error_rtti }
    }

    /// The name of the actor type. Names are for debugging and not necessarily
    /// unique.
    pub fn name(&self) -> (name: &'static str)
        ensures
            name@ == self.spec_name(),
    {
        self.name
    }

    /// The RTTI of the actor's channel.
    pub fn channel(&self) -> (rtti: ChannelRtti)
        ensures
            rtti == self.spec_channel(),
    {
        self.channel_rtti
    }

    /// The thread-safety of the actor's error type.
    pub fn error(&self) -> (rtti: SendSyncRtti)
        ensures
            rtti == self.spec_error(),
    {
        self.error_rtti
    }

    /// The address identifying the RTTI.
    pub fn identity(&self) -> (identity: usize)
        ensures
            identity == self.spec_identity(),
    {
        self.identity
    }
}

/// An actor RTTI is only equal to itself: equality goes by identity.
impl PartialEq for ActorRtti {
    fn eq(&self, other: &Self) -> (equal: bool) {
        self.identity == other.identity
    }
}

impl PartialEqSpecImpl for ActorRtti {
    open spec fn obeys_eq_spec() -> bool {
        true
    }

    open spec fn eq_spec(&self, other: &Self) -> bool {
        self.spec_identity() == other.spec_identity()
    }
}

impl Eq for ActorRtti {

}

/// An actor RTTI tells what it was made of, and is equal to those that live at the
/// same address, whatever else they tell.
pub proof fn actor_rtti_tells_what_it_was_made_of(
    identity: usize,
    name: &'static str,
    channel: SendSyncRtti,
    channel_rtti: ChannelRtti,
    error_rtti: SendSyncRtti,
    rtti: ActorRtti,
    other: ActorRtti,
    other_identity: usize,
)
    requires
        call_ensures(ChannelRtti::new, (channel,), channel_rtti),
        call_ensures(ActorRtti::new_named, (identity, name, channel_rtti, error_rtti), rtti),
        call_ensures(ActorRtti::identity, (&other,), other_identity),
    ensures
        forall|told: usize| #[trigger]
            call_ensures(ActorRtti::identity, (&rtti,), told) ==> told == identity,
        forall|told: &'static str| #[trigger]
            call_ensures(ActorRtti::name, (&rtti,), told) ==> told@ == name@,
        forall|told: ChannelRtti, send: bool|
            call_ensures(ActorRtti::channel, (&rtti,), told) && #[trigger] call_ensures(
                ChannelRtti::is_send,
                (&told,),
                send,
            ) ==> send == channel.send,
        forall|told: ChannelRtti, sync: bool|
            call_ensures(ActorRtti::channel, (&rtti,), told) && #[trigger] call_ensures(
                ChannelRtti::is_sync,
                (&told,),
                sync,
            ) ==> sync == channel.sync,
        forall|told: SendSyncRtti| #[trigger]
            call_ensures(ActorRtti::error, (&rtti,), told) ==> told == error_rtti,
        forall|equal: bool| #[trigger]
            call_ensures(ActorRtti::eq, (&rtti, &other), equal) ==> (equal <==> identity
                == other_identity),
{
}

} // verus!
