//! Envelopes: carrying, unwrapping, cloning and sending messages.
use factories_actor::message::channel::AnswerSender;
use factories_actor::message::envelope::{
    answer_sender_size, ask_payload_size, cache_line_size, tell_payload_size, EnvelopeType,
    MessageEnvelope, PackedEnvelopeHeader, SendableEnvelope,
};
use factories_actor::message::rtti::{BasicTypeRtti, MessageRtti};
use std::mem::size_of;
use std::rc::Rc;
use std::sync::atomic::{AtomicUsize, Ordering};
use std::sync::Arc;

/// A message type, with the RTTI of its own.
trait Message: Sized {
    type Answer;

    const IDENTITY: usize;
    const NAME: &'static str;
    const CLONABLE: bool = true;
    const SEND: bool = true;
    const ANSWER_SEND: bool = true;

    fn rtti() -> &'static MessageRtti {
        Box::leak(Box::new(MessageRtti::new_named(
            Self::IDENTITY,
            Self::NAME,
            BasicTypeRtti::new::<Self>(),
            Self::CLONABLE,
            Self::SEND,
            Self::SEND && Self::ANSWER_SEND,
            BasicTypeRtti::new::<AnswerSender<Self::Answer>>(),
        )))
    }
}

fn envelope<T: Message>(
    message: T,
    answer: Option<AnswerSender<T::Answer>>,
) -> MessageEnvelope<'static, T, AnswerSender<T::Answer>> {
    MessageEnvelope::new(T::rtti(), message, answer)
}

const NO_ANSWER: Option<AnswerSender<()>> = None;

/// Small message that fits inline in both tell and ask data areas.
#[derive(Debug, Clone, PartialEq, Eq)]
struct SmallMsg {
    value: u64,
}

impl Message for SmallMsg {
    type Answer = ();
    const IDENTITY: usize = 8;
    const NAME: &'static str = "SmallMsg";
}

/// Large message that exceeds the data area and must be boxed.
#[derive(Debug, Clone, PartialEq, Eq)]
struct LargeMsg {
    data: [u8; 128],
}

impl Message for LargeMsg {
    type Answer = ();
    const IDENTITY: usize = 16;
    const NAME: &'static str = "LargeMsg";
}

/// Message that tracks drops via a shared counter.
#[derive(Debug, Clone)]
struct DropTracker {
    counter: Arc<AtomicUsize>,
}

impl Drop for DropTracker {
    fn drop(&mut self) {
        self.counter.fetch_add(1, Ordering::SeqCst);
    }
}

impl Message for DropTracker {
    type Answer = ();
    const IDENTITY: usize = 24;
    const NAME: &'static str = "DropTracker";
}

/// Small message that must not be cloned.
#[derive(Debug)]
struct SmallNonClone {
    #[allow(dead_code)]
    value: u64,
}

impl Clone for SmallNonClone {
    fn clone(&self) -> Self {
        unreachable!("the message type is not clonable")
    }
}

impl Message for SmallNonClone {
    type Answer = ();
    const IDENTITY: usize = 32;
    const NAME: &'static str = "SmallNonClone";
    const CLONABLE: bool = false;
}

/// Message that must stay on its thread.
#[derive(Debug, Clone)]
struct NonSendMsg {
    #[allow(dead_code)]
    shared: Rc<()>,
}

impl Message for NonSendMsg {
    type Answer = ();
    const IDENTITY: usize = 40;
    const NAME: &'static str = "NonSendMsg";
    const SEND: bool = false;
}

/// Message that may cross threads, with an answer that may not.
#[derive(Debug, Clone)]
struct SendMsgNonSendAnswer {
    #[allow(dead_code)]
    value: u64,
}

impl Message for SendMsgNonSendAnswer {
    type Answer = Rc<()>;
    const IDENTITY: usize = 48;
    const NAME: &'static str = "SendMsgNonSendAnswer";
    const ANSWER_SEND: bool = false;
}

/// Large variant of the drop tracker (forces boxing).
#[derive(Debug)]
struct LargeDropTracker {
    counter: Arc<AtomicUsize>,
    _pad: [u8; 128],
}

impl Drop for LargeDropTracker {
    fn drop(&mut self) {
        self.counter.fetch_add(1, Ordering::SeqCst);
    }
}

impl Clone for LargeDropTracker {
    fn clone(&self) -> Self {
        unreachable!("the message type is not clonable")
    }
}

impl Message for LargeDropTracker {
    type Answer = ();
    const IDENTITY: usize = 56;
    const NAME: &'static str = "LargeDropTracker";
    const CLONABLE: bool = false;
}

#[test]
fn header_size_is_ptr_size() {
    assert_eq!(size_of::<PackedEnvelopeHeader>(), size_of::<usize>());

}

#[test]
fn header_roundtrip_tell() {
    let header = PackedEnvelopeHeader::new(SmallMsg::rtti(), false);
    assert!(!header.expects_answer());
    assert_eq!(header.rtti(), SmallMsg::rtti().identity());

}

#[test]
fn header_roundtrip_ask() {
    let header = PackedEnvelopeHeader::new(SmallMsg::rtti(), true);
    assert!(header.expects_answer());
    assert_eq!(header.rtti(), SmallMsg::rtti().identity());

}

#[test]
fn header_rtti_identity_preserved() {
    // The tagged pointer must resolve back to the exact same RTTI static
    let header_tell = PackedEnvelopeHeader::new(SmallMsg::rtti(), false);
    let header_ask = PackedEnvelopeHeader::new(SmallMsg::rtti(), true);
    assert_eq!(header_tell.rtti(), SmallMsg::rtti().identity());
    assert_eq!(header_ask.rtti(), SmallMsg::rtti().identity());

}

#[test]
fn header_different_rtti_not_equal() {
    let h1 = PackedEnvelopeHeader::new(SmallMsg::rtti(), false);
    let h2 = PackedEnvelopeHeader::new(LargeMsg::rtti(), false);
    assert_ne!(h1.rtti(), h2.rtti());

}

#[test]
fn tell_payload_at_least_pointer_sized() {
    assert!(tell_payload_size() >= size_of::<usize>());

}

#[test]
fn ask_payload_at_least_pointer_sized() {
    assert!(ask_payload_size() >= size_of::<usize>());

}

#[test]
fn answer_sender_data_at_least_pointer_sized() {
    assert!(answer_sender_size() >= size_of::<usize>());

}

#[test]
fn tell_small_msg_type() {
    let env = envelope(SmallMsg { value: 1 }, None);
    assert_eq!(env.ty(), EnvelopeType::Tell);
    assert_eq!(env.rtti(), SmallMsg::rtti());

}

#[test]
fn tell_small_msg_payload_ref() {
    let env = envelope(SmallMsg { value: 42 }, None);
    let payload = env.payload(SmallMsg::rtti()).expect("type should match");
    assert_eq!(payload.value, 42);

}

#[test]
fn tell_small_msg_payload_mut() {
    let mut env = envelope(SmallMsg { value: 1 }, None);
    let payload = env.payload_mut(SmallMsg::rtti()).expect("type should match");
    payload.value = 99;
    assert_eq!(env.payload(SmallMsg::rtti()).unwrap().value, 99);

}

#[test]
fn tell_small_msg_unwrap() {
    let env = envelope(SmallMsg { value: 7 }, None);
    let (msg, sender) = env.unwrap(SmallMsg::rtti()).expect("type should match");
    assert_eq!(msg.value, 7);
    assert!(sender.is_none());

}

#[test]
fn tell_large_msg_type() {
    let env = envelope(LargeMsg { data: [0xAB; 128] }, None);
    assert_eq!(env.ty(), EnvelopeType::Tell);
    assert_eq!(env.rtti(), LargeMsg::rtti());

}

#[test]
fn tell_large_msg_payload_ref() {
    let env = envelope(LargeMsg { data: [0xCD; 128] }, None);
    let payload = env.payload(LargeMsg::rtti()).expect("type should match");
    assert_eq!(payload.data, [0xCD; 128]);

}

#[test]
fn tell_large_msg_payload_mut() {
    let mut env = envelope(LargeMsg { data: [0; 128] }, None);
    let payload = env.payload_mut(LargeMsg::rtti()).expect("type should match");
    payload.data[0] = 0xFF;
    assert_eq!(env.payload(LargeMsg::rtti()).unwrap().data[0], 0xFF);

}

#[test]
fn tell_large_msg_unwrap() {
    let env = envelope(LargeMsg { data: [0xEF; 128] }, None);
    let (msg, sender) = env.unwrap(LargeMsg::rtti()).expect("type should match");
    assert_eq!(msg.data, [0xEF; 128]);
    assert!(sender.is_none());

}

#[test]
fn payload_wrong_type_returns_none() {
    let env = envelope(SmallMsg { value: 1 }, None);
    assert!(env.payload(LargeMsg::rtti()).is_none());

}

#[test]
fn payload_mut_wrong_type_returns_none() {
    let mut env = envelope(SmallMsg { value: 1 }, None);
    assert!(env.payload_mut(LargeMsg::rtti()).is_none());

}

#[test]
fn unwrap_wrong_type_returns_err() {
    let env = envelope(SmallMsg { value: 1 }, None);
    let result = env.unwrap(LargeMsg::rtti());
    assert!(result.is_err());
    // The original envelope is returned back on type mismatch
    let env = result.unwrap_err();
    assert_eq!(env.rtti(), SmallMsg::rtti());

}

#[test]
fn tell_small_msg_drop_runs() {
    let counter = Arc::new(AtomicUsize::new(0));
    {
        let _env = envelope(
            DropTracker {
                counter: counter.clone(),
            },
            None,
        );
    }
    assert_eq!(
        counter.load(Ordering::SeqCst),
        1,
        "drop must run exactly once"
    );

}

#[test]
fn tell_large_msg_drop_runs() {
    let counter = Arc::new(AtomicUsize::new(0));
    {
        let _env = envelope(
            LargeDropTracker {
                counter: counter.clone(),
                _pad: [0; 128],
            },
            None,
        );
    }
    assert_eq!(
        counter.load(Ordering::SeqCst),
        1,
        "drop must run exactly once for boxed payload"
    );

}

#[test]
fn unwrap_small_msg_does_not_double_drop() {
    let counter = Arc::new(AtomicUsize::new(0));
    let env = envelope(
        DropTracker {
            counter: counter.clone(),
        },
        None,
    );
    let (msg, _) = env.unwrap(DropTracker::rtti()).unwrap();
    assert_eq!(counter.load(Ordering::SeqCst), 0, "unwrap must not drop");
    drop(msg);
    assert_eq!(
        counter.load(Ordering::SeqCst),
        1,
        "drop must run exactly once"
    );

}

#[test]
fn unwrap_large_msg_does_not_double_drop() {
    let counter = Arc::new(AtomicUsize::new(0));
    let env = envelope(
        LargeDropTracker {
            counter: counter.clone(),
            _pad: [0; 128],
        },
        None,
    );
    let (msg, _) = env.unwrap(LargeDropTracker::rtti()).unwrap();
    assert_eq!(counter.load(Ordering::SeqCst), 0, "unwrap must not drop");
    drop(msg);
    assert_eq!(
        counter.load(Ordering::SeqCst),
        1,
        "drop must run exactly once"
    );

}

#[test]
fn unwrap_type_mismatch_then_drop_runs_once() {
    let counter = Arc::new(AtomicUsize::new(0));
    let env = envelope(
        DropTracker {
            counter: counter.clone(),
        },
        None,
    );
    // Unwrap with wrong type - should fail and return the envelope
    let env = env.unwrap(LargeMsg::rtti()).unwrap_err();
    assert_eq!(
        counter.load(Ordering::SeqCst),
        0,
        "failed unwrap must not drop"
    );
    drop(env);
    assert_eq!(
        counter.load(Ordering::SeqCst),
        1,
        "drop must run exactly once"
    );

}

#[test]
fn inline_payload_provenance_survives_ref() {
    let env = envelope(SmallMsg { value: 0xCAFE }, None);
    let r = env.payload(SmallMsg::rtti()).unwrap();
    // The reference must point inside the envelope itself (inline storage)
    let env_start = core::ptr::from_ref(&env).addr();
    let env_end = env_start + core::mem::size_of_val(&env);
    let r_addr = core::ptr::from_ref(r).addr();
    assert!(
        r_addr >= env_start && r_addr < env_end,
        "inline payload ref should point inside the envelope"
    );

}

#[test]
fn boxed_payload_provenance_survives_ref() {
    let env = envelope(LargeMsg { data: [0; 128] }, None);
    let r = env.payload(LargeMsg::rtti()).unwrap();
    // The reference must point OUTSIDE the envelope (heap allocated)
    let env_start = core::ptr::from_ref(&env).addr();
    let env_end = env_start + core::mem::size_of_val(&env);
    let r_addr = core::ptr::from_ref(r).addr();
    assert!(
        r_addr < env_start || r_addr >= env_end,
        "boxed payload ref should point outside the envelope (on the heap)"
    );

}

#[test]
fn inline_payload_mut_provenance_survives() {
    let mut env = envelope(SmallMsg { value: 1 }, None);
    let r = env.payload_mut(SmallMsg::rtti()).unwrap();
    r.value = 123;
    // Re-read to confirm the write went through
    assert_eq!(env.payload(SmallMsg::rtti()).unwrap().value, 123);

}

#[test]
fn boxed_payload_mut_provenance_survives() {
    let mut env = envelope(LargeMsg { data: [0; 128] }, None);
    let r = env.payload_mut(LargeMsg::rtti()).unwrap();
    r.data[127] = 0xFF;
    assert_eq!(env.payload(LargeMsg::rtti()).unwrap().data[127], 0xFF);

}

#[test]
fn ask_small_msg_type() {
    let (tx, _rx) = tokio::sync::oneshot::channel();
    let env = envelope(SmallMsg { value: 5 }, Some(AnswerSender::Tokio(tx)));
    assert_eq!(env.ty(), EnvelopeType::Ask);
    assert_eq!(env.rtti(), SmallMsg::rtti());

}

#[test]
fn ask_small_msg_payload_ref() {
    let (tx, _rx) = tokio::sync::oneshot::channel();
    let env = envelope(SmallMsg { value: 77 }, Some(AnswerSender::Tokio(tx)));
    let payload = env.payload(SmallMsg::rtti()).expect("type should match");
    assert_eq!(payload.value, 77);

}

#[test]
fn ask_small_msg_unwrap_returns_sender() {
    let (tx, _rx) = tokio::sync::oneshot::channel();
    let env = envelope(SmallMsg { value: 10 }, Some(AnswerSender::Tokio(tx)));
    let (msg, sender) = env.unwrap(SmallMsg::rtti()).expect("type should match");
    assert_eq!(msg.value, 10);
    assert!(sender.is_some());

}

#[test]
fn ask_large_msg_payload_ref() {
    let (tx, _rx) = tokio::sync::oneshot::channel();
    let env = envelope(
        LargeMsg { data: [0xAA; 128] },
        Some(AnswerSender::Tokio(tx)),
    );
    let payload = env.payload(LargeMsg::rtti()).expect("type should match");
    assert_eq!(payload.data, [0xAA; 128]);

}

#[test]
fn ask_large_msg_unwrap_returns_sender() {
    let (tx, _rx) = tokio::sync::oneshot::channel();
    let env = envelope(
        LargeMsg { data: [0xBB; 128] },
        Some(AnswerSender::Tokio(tx)),
    );
    let (msg, sender) = env.unwrap(LargeMsg::rtti()).expect("type should match");
    assert_eq!(msg.data, [0xBB; 128]);
    assert!(sender.is_some());

}

#[test]
fn ask_drop_runs_for_both_payload_and_sender() {
    let counter = Arc::new(AtomicUsize::new(0));
    let (tx, _rx) = tokio::sync::oneshot::channel();
    {
        let _env = envelope(
            DropTracker {
                counter: counter.clone(),
            },
            Some(AnswerSender::Tokio(tx)),
        );
    }
    assert_eq!(
        counter.load(Ordering::SeqCst),
        1,
        "message drop must run exactly once"
    );

}

#[test]
fn ask_unwrap_does_not_double_drop() {
    let counter = Arc::new(AtomicUsize::new(0));
    let (tx, _rx) = tokio::sync::oneshot::channel();
    let env = envelope(
        DropTracker {
            counter: counter.clone(),
        },
        Some(AnswerSender::Tokio(tx)),
    );
    let (msg, sender) = env.unwrap(DropTracker::rtti()).unwrap();
    assert_eq!(counter.load(Ordering::SeqCst), 0);
    drop(msg);
    assert_eq!(counter.load(Ordering::SeqCst), 1);
    drop(sender);
    assert_eq!(counter.load(Ordering::SeqCst), 1);

}

#[test]
fn ask_large_drop_runs() {
    let counter = Arc::new(AtomicUsize::new(0));
    let (tx, _rx) = tokio::sync::oneshot::channel();
    {
        let _env = envelope(
            LargeDropTracker {
                counter: counter.clone(),
                _pad: [0; 128],
            },
            Some(AnswerSender::Tokio(tx)),
        );
    }
    assert_eq!(counter.load(Ordering::SeqCst), 1);

}

#[test]
fn ask_payload_mut_works() {
    let (tx, _rx) = tokio::sync::oneshot::channel();
    let mut env =
        envelope(SmallMsg { value: 0 }, Some(AnswerSender::Tokio(tx)));
    env.payload_mut(SmallMsg::rtti()).unwrap().value = 42;
    assert_eq!(env.payload(SmallMsg::rtti()).unwrap().value, 42);

}

#[test]
fn ask_large_msg_payload_mut() {
    let (tx, _rx) = tokio::sync::oneshot::channel();
    let mut env =
        envelope(LargeMsg { data: [0; 128] }, Some(AnswerSender::Tokio(tx)));
    env.payload_mut(LargeMsg::rtti()).unwrap().data[0] = 0xFE;
    assert_eq!(env.payload(LargeMsg::rtti()).unwrap().data[0], 0xFE);

}

#[test]
fn ask_large_unwrap_does_not_double_drop() {
    let counter = Arc::new(AtomicUsize::new(0));
    let (tx, _rx) = tokio::sync::oneshot::channel();
    let env = envelope(
        LargeDropTracker {
            counter: counter.clone(),
            _pad: [0; 128],
        },
        Some(AnswerSender::Tokio(tx)),
    );
    let (msg, sender) = env.unwrap(LargeDropTracker::rtti()).unwrap();
    assert_eq!(counter.load(Ordering::SeqCst), 0);
    drop(msg);
    assert_eq!(counter.load(Ordering::SeqCst), 1);
    drop(sender);
    assert_eq!(counter.load(Ordering::SeqCst), 1);

}

#[test]
fn ask_inline_payload_provenance() {
    let (tx, _rx) = tokio::sync::oneshot::channel();
    let env =
        envelope(SmallMsg { value: 0xBEEF }, Some(AnswerSender::Tokio(tx)));
    let r = env.payload(SmallMsg::rtti()).unwrap();
    let env_start = core::ptr::from_ref(&env).addr();
    let env_end = env_start + core::mem::size_of_val(&env);
    let r_addr = core::ptr::from_ref(r).addr();
    assert!(
        r_addr >= env_start && r_addr < env_end,
        "inline ask payload ref should point inside the envelope"
    );

}

#[test]
fn ask_boxed_payload_provenance() {
    let (tx, _rx) = tokio::sync::oneshot::channel();
    let env =
        envelope(LargeMsg { data: [0; 128] }, Some(AnswerSender::Tokio(tx)));
    let r = env.payload(LargeMsg::rtti()).unwrap();
    let env_start = core::ptr::from_ref(&env).addr();
    let env_end = env_start + core::mem::size_of_val(&env);
    let r_addr = core::ptr::from_ref(r).addr();
    assert!(
        r_addr < env_start || r_addr >= env_end,
        "boxed ask payload ref should point outside the envelope"
    );

}

#[test]
fn ask_type_mismatch_then_drop() {
    let counter = Arc::new(AtomicUsize::new(0));
    let (tx, _rx) = tokio::sync::oneshot::channel();
    let env = envelope(
        DropTracker {
            counter: counter.clone(),
        },
        Some(AnswerSender::Tokio(tx)),
    );
    let env = env.unwrap(LargeMsg::rtti()).unwrap_err();
    assert_eq!(counter.load(Ordering::SeqCst), 0);
    drop(env);
    assert_eq!(counter.load(Ordering::SeqCst), 1);

}

#[test]
fn try_clone_tell_small_msg() {
    let env = envelope(SmallMsg { value: 42 }, None);
    let cloned = env.try_clone().expect("clonable tell should clone");
    assert_eq!(cloned.ty(), EnvelopeType::Tell);
    assert_eq!(cloned.rtti(), SmallMsg::rtti());
    assert_eq!(cloned.payload(SmallMsg::rtti()).unwrap().value, 42);

}

#[test]
fn try_clone_tell_large_msg() {
    let env = envelope(LargeMsg { data: [0xAB; 128] }, None);
    let cloned = env.try_clone().expect("clonable tell should clone");
    assert_eq!(cloned.ty(), EnvelopeType::Tell);
    assert_eq!(cloned.payload(LargeMsg::rtti()).unwrap().data, [0xAB; 128]);

}

#[test]
fn try_clone_non_clonable_returns_none() {
    let env = envelope(SmallNonClone { value: 1 }, None);
    assert!(env.try_clone().is_none());

}

#[test]
fn try_clone_non_clonable_large_returns_none() {
    let env = envelope(
        LargeDropTracker {
            counter: Arc::new(AtomicUsize::new(0)),
            _pad: [0; 128],
        },
        None,
    );
    assert!(env.try_clone().is_none());

}

#[test]
fn try_clone_as_tell_small_msg() {
    let env = envelope(SmallMsg { value: 99 }, None);
    let cloned = env.try_clone_as_tell().expect("clonable should clone");
    assert_eq!(cloned.ty(), EnvelopeType::Tell);
    assert_eq!(cloned.payload(SmallMsg::rtti()).unwrap().value, 99);

}

#[test]
fn try_clone_as_tell_large_msg() {
    let env = envelope(LargeMsg { data: [0xFE; 128] }, None);
    let cloned = env.try_clone_as_tell().expect("clonable should clone");
    assert_eq!(cloned.ty(), EnvelopeType::Tell);
    assert_eq!(cloned.payload(LargeMsg::rtti()).unwrap().data, [0xFE; 128]);

}

#[test]
fn try_clone_as_tell_non_clonable_returns_none() {
    let env = envelope(SmallNonClone { value: 1 }, None);
    assert!(env.try_clone_as_tell().is_none());

}

#[test]
fn try_clone_is_independent_small() {
    let mut env = envelope(SmallMsg { value: 10 }, None);
    let cloned = env.try_clone().unwrap();
    env.payload_mut(SmallMsg::rtti()).unwrap().value = 20;
    assert_eq!(cloned.payload(SmallMsg::rtti()).unwrap().value, 10);
    assert_eq!(env.payload(SmallMsg::rtti()).unwrap().value, 20);

}

#[test]
fn try_clone_is_independent_large() {
    let mut env = envelope(LargeMsg { data: [0; 128] }, None);
    let cloned = env.try_clone().unwrap();
    env.payload_mut(LargeMsg::rtti()).unwrap().data[0] = 0xFF;
    assert_eq!(cloned.payload(LargeMsg::rtti()).unwrap().data[0], 0);
    assert_eq!(env.payload(LargeMsg::rtti()).unwrap().data[0], 0xFF);

}

#[test]
fn try_clone_drop_semantics() {
    let counter = Arc::new(AtomicUsize::new(0));
    let env = envelope(
        DropTracker {
            counter: counter.clone(),
        },
        None,
    );
    let cloned = env.try_clone().unwrap();
    assert_eq!(counter.load(Ordering::SeqCst), 0);
    drop(env);
    assert_eq!(counter.load(Ordering::SeqCst), 1);
    drop(cloned);
    assert_eq!(counter.load(Ordering::SeqCst), 2);

}

#[test]
fn try_clone_original_survives() {
    let env = envelope(SmallMsg { value: 7 }, None);
    let _cloned = env.try_clone().unwrap();
    // Original is still usable
    assert_eq!(env.payload(SmallMsg::rtti()).unwrap().value, 7);

}

#[test]
fn try_clone_ask_returns_none() {
    let (tx, _rx) = tokio::sync::oneshot::channel();
    let env = envelope(SmallMsg { value: 1 }, Some(AnswerSender::Tokio(tx)));
    assert!(
        env.try_clone().is_none(),
        "ask messages should never be clonable via try_clone"
    );

}

#[test]
fn try_clone_ask_large_returns_none() {
    let (tx, _rx) = tokio::sync::oneshot::channel();
    let env =
        envelope(LargeMsg { data: [0; 128] }, Some(AnswerSender::Tokio(tx)));
    assert!(env.try_clone().is_none());

}

#[test]
fn try_clone_as_tell_from_ask_small() {
    let (tx, _rx) = tokio::sync::oneshot::channel();
    let env = envelope(SmallMsg { value: 77 }, Some(AnswerSender::Tokio(tx)));
    let cloned = env
        .try_clone_as_tell()
        .expect("clonable ask should decompose into tell");
    assert_eq!(cloned.ty(), EnvelopeType::Tell);
    assert_eq!(cloned.payload(SmallMsg::rtti()).unwrap().value, 77);

}

#[test]
fn try_clone_as_tell_from_ask_large() {
    let (tx, _rx) = tokio::sync::oneshot::channel();
    let env = envelope(
        LargeMsg { data: [0xCC; 128] },
        Some(AnswerSender::Tokio(tx)),
    );
    let cloned = env
        .try_clone_as_tell()
        .expect("clonable ask should decompose into tell");
    assert_eq!(cloned.ty(), EnvelopeType::Tell);
    assert_eq!(cloned.payload(LargeMsg::rtti()).unwrap().data, [0xCC; 128]);

}

#[test]
fn try_clone_as_tell_from_ask_non_clonable() {
    let (tx, _rx) = tokio::sync::oneshot::channel();
    let env =
        envelope(SmallNonClone { value: 1 }, Some(AnswerSender::Tokio(tx)));
    assert!(env.try_clone_as_tell().is_none());

}

#[test]
fn try_clone_as_tell_from_ask_drop_semantics() {
    let counter = Arc::new(AtomicUsize::new(0));
    let (tx, _rx) = tokio::sync::oneshot::channel();
    let env = envelope(
        DropTracker {
            counter: counter.clone(),
        },
        Some(AnswerSender::Tokio(tx)),
    );
    let cloned = env.try_clone_as_tell().unwrap();
    assert_eq!(counter.load(Ordering::SeqCst), 0);
    drop(env);
    assert_eq!(counter.load(Ordering::SeqCst), 1);
    drop(cloned);
    assert_eq!(counter.load(Ordering::SeqCst), 2);

}

#[test]
fn ask_send_msg_send_answer_is_sendable() {
    let (tx, _rx) = tokio::sync::oneshot::channel();
    let env = envelope(SmallMsg { value: 1 }, Some(AnswerSender::Tokio(tx)));
    assert!(env.is_sendable());

}

#[test]
fn ask_send_msg_non_send_answer_is_not_sendable() {
    let (tx, _rx) = tokio::sync::oneshot::channel();
    let env = envelope(
        SendMsgNonSendAnswer { value: 1 },
        Some(AnswerSender::Tokio(tx)),
    );
    assert!(
        !env.is_sendable(),
        "ask with !Send answer must not be sendable"
    );

}

#[test]
fn sendable_envelope_rejects_ask_with_non_send_answer() {
    let (tx, _rx) = tokio::sync::oneshot::channel();
    let env = envelope(
        SendMsgNonSendAnswer { value: 1 },
        Some(AnswerSender::Tokio(tx)),
    );
    assert!(SendableEnvelope::try_from_envelope(env).is_err());

}

#[test]
fn sendable_envelope_accepts_ask_with_send_answer() {
    let (tx, _rx) = tokio::sync::oneshot::channel();
    let env = envelope(SmallMsg { value: 42 }, Some(AnswerSender::Tokio(tx)));
    assert!(SendableEnvelope::try_from_envelope(env).is_ok());

}

#[test]
fn zero_sized_inline_check() {
    // Verify that a ZST would be considered "inline" (size 0 <= PAYLOAD_SIZE)
    assert!(size_of::<()>() <= tell_payload_size());

}

#[test]
fn envelope_size_constants_consistent() {
    // Tell data area + header = cache line
    assert_eq!(
        tell_payload_size() + size_of::<PackedEnvelopeHeader>(),
        cache_line_size()
    );
    // Ask data area + answer sender data + header = cache line
    assert_eq!(
        ask_payload_size()
            + answer_sender_size()
            + size_of::<PackedEnvelopeHeader>(),
        cache_line_size()
    );

}

#[test]
fn small_msg_is_inline() {
    assert!(
        size_of::<SmallMsg>() <= tell_payload_size(),
        "SmallMsg should fit inline in tell payload"
    );
    assert!(
        size_of::<SmallMsg>() <= ask_payload_size(),
        "SmallMsg should fit inline in ask payload"
    );

}

#[test]
fn large_msg_is_boxed() {
    assert!(
        size_of::<LargeMsg>() > tell_payload_size(),
        "LargeMsg should exceed tell payload"
    );
    assert!(
        size_of::<LargeMsg>() > ask_payload_size(),
        "LargeMsg should exceed ask payload"
    );

}

#[test]
fn clonable_message_has_clone_rtti() {
    // SmallMsg derives Clone
    assert!(
        SmallMsg::rtti().is_clonable(),
        "SmallMsg is Clone, so clone info should be Some"
    );

}

#[test]
fn clonable_large_message_has_clone_rtti() {
    assert!(
        LargeMsg::rtti().is_clonable(),
        "LargeMsg is Clone, so clone info should be Some"
    );

}

#[test]
fn non_clonable_message_has_no_clone_rtti() {
    // LargeDropTracker does NOT derive Clone
    assert!(
        !LargeDropTracker::rtti().is_clonable(),
        "LargeDropTracker is not Clone, so clone info should be None"
    );

}

#[test]
fn clone_rtti_via_envelope_rtti() {
    let env = envelope(SmallMsg { value: 1 }, None);
    assert!(env.rtti().is_clonable());

    let env = envelope(
        LargeDropTracker {
            counter: Arc::new(AtomicUsize::new(0)),
            _pad: [0; 128],
        },
        None,
    );
    assert!(!env.rtti().is_clonable());

}

#[test]
fn send_message_has_send_rtti() {
    assert!(
        SmallMsg::rtti().is_send(),
        "SmallMsg is Send, so is_send should be true"
    );

}

#[test]
fn send_large_message_has_send_rtti() {
    assert!(LargeMsg::rtti().is_send());

}

#[test]
fn non_send_message_has_no_send_rtti() {
    assert!(
        !NonSendMsg::rtti().is_send(),
        "NonSendMsg is !Send, so is_send should be false"
    );

}

#[test]
fn send_rtti_via_envelope_rtti() {
    let env = envelope(SmallMsg { value: 1 }, None);
    assert!(env.rtti().is_send());

    let env = envelope(
        NonSendMsg {
            shared: Rc::new(()),
        },
        None,
    );
    assert!(!env.rtti().is_send());

}

#[test]
fn sendable_envelope_from_send_message() {
    let env = envelope(SmallMsg { value: 42 }, None);
    let sendable = SendableEnvelope::try_from_envelope(env);
    assert!(sendable.is_ok());

}

#[test]
fn sendable_envelope_from_non_send_message() {
    let env = envelope(
        NonSendMsg {
            shared: Rc::new(()),
        },
        None,
    );
    let result = SendableEnvelope::try_from_envelope(env);
    assert!(result.is_err());

}

#[test]
fn sendable_envelope_deref_payload() {
    let env = envelope(SmallMsg { value: 77 }, None);
    let sendable = SendableEnvelope::try_from_envelope(env).unwrap();
    assert_eq!(sendable.envelope().payload(SmallMsg::rtti()).unwrap().value, 77);

}

#[test]
fn sendable_envelope_deref_mut_payload() {
    let env = envelope(SmallMsg { value: 1 }, None);
    let mut sendable = SendableEnvelope::try_from_envelope(env).unwrap();
    sendable.payload_mut(SmallMsg::rtti()).unwrap().value = 99;
    assert_eq!(sendable.envelope().payload(SmallMsg::rtti()).unwrap().value, 99);

}

#[test]
fn sendable_envelope_into_inner() {
    let env = envelope(SmallMsg { value: 10 }, None);
    let sendable = SendableEnvelope::try_from_envelope(env).unwrap();
    let env = sendable.into_inner();
    assert_eq!(env.payload(SmallMsg::rtti()).unwrap().value, 10);

}

#[test]
fn sendable_envelope_rejected_returns_original() {
    let env = envelope(
        NonSendMsg {
            shared: Rc::new(()),
        },
        None,
    );
    let env = SendableEnvelope::try_from_envelope(env).unwrap_err();
    assert_eq!(env.rtti(), NonSendMsg::rtti());

}

#[test]
fn sendable_envelope_large_msg() {
    let env = envelope(LargeMsg { data: [0xAB; 128] }, None);
    let sendable = SendableEnvelope::try_from_envelope(env).unwrap();
    assert_eq!(sendable.envelope().payload(LargeMsg::rtti()).unwrap().data, [0xAB; 128]);

}

#[test]
fn sendable_envelope_drop_runs() {
    let counter = Arc::new(AtomicUsize::new(0));
    {
        let env = envelope(
            DropTracker {
                counter: counter.clone(),
            },
            None,
        );
        let _sendable = SendableEnvelope::try_from_envelope(env).unwrap();
    }
    assert_eq!(counter.load(Ordering::SeqCst), 1);

}

#[test]
fn sendable_envelope_is_send() {
    fn assert_send<T: Send>() {}
    assert_send::<SendableEnvelope<'static, SmallMsg, AnswerSender<()>>>();

}

#[test]
fn send_msg_non_send_answer_rtti() {
    assert!(
        SendMsgNonSendAnswer::rtti().is_send(),
        "message itself is Send"
    );
    assert!(
        !SendMsgNonSendAnswer::rtti().is_answer_sender_send(),
        "answer sender is !Send due to *const () answer"
    );

}

#[test]
fn send_msg_send_answer_rtti() {
    assert!(SmallMsg::rtti().is_send());
    assert!(SmallMsg::rtti().is_answer_sender_send());

}

#[test]
fn non_send_msg_is_not_sendable() {
    let env = envelope(
        NonSendMsg {
            shared: Rc::new(()),
        },
        None,
    );
    assert!(!env.is_sendable());

}

#[test]
fn tell_send_msg_non_send_answer_is_sendable() {
    // A tell message doesn't carry an answer sender, so only the message's
    // Send-ness matters.
    let env = envelope(SendMsgNonSendAnswer { value: 1 }, None);
    assert!(env.is_sendable());

}

#[test]
fn sendable_envelope_accepts_tell_with_non_send_answer() {
    let env = envelope(SendMsgNonSendAnswer { value: 1 }, None);
    assert!(SendableEnvelope::try_from_envelope(env).is_ok());

}

#[test]
fn sendable_envelope_new_static() {
    let sendable = SendableEnvelope::new(SmallMsg::rtti(), SmallMsg { value: 42 }, NO_ANSWER);
    assert_eq!(sendable.envelope().payload(SmallMsg::rtti()).unwrap().value, 42);

}

#[test]
fn cache_line_is_eight_words() {
    assert_eq!(cache_line_size(), 8 * size_of::<usize>());
    assert_eq!(tell_payload_size(), 7 * size_of::<usize>());
    assert_eq!(ask_payload_size(), 6 * size_of::<usize>());
    assert_eq!(answer_sender_size(), size_of::<usize>());
}

#[test]
fn payload_is_boxed_where_it_does_not_fit() {
    let small = envelope(SmallMsg { value: 3 }, None);
    assert_eq!(small.payload_ptr(), (&SmallMsg { value: 3 }, false));
    let large = envelope(LargeMsg { data: [1; 128] }, None);
    assert_eq!(large.payload_ptr(), (&LargeMsg { data: [1; 128] }, true));
}

/// As large as a tell message's data area, so too large for an ask message's.
#[derive(Debug, Clone, PartialEq, Eq)]
struct Brimful {
    words: [usize; 7],
}

impl Message for Brimful {
    type Answer = ();
    const IDENTITY: usize = 64;
    const NAME: &'static str = "Brimful";
}

#[test]
fn answer_sender_takes_room_from_the_payload() {
    let tell = envelope(Brimful { words: [5; 7] }, None);
    assert!(!tell.payload_ptr().1);
    let (tx, _rx) = tokio::sync::oneshot::channel();
    let ask = envelope(Brimful { words: [5; 7] }, Some(AnswerSender::Tokio(tx)));
    assert!(ask.payload_ptr().1);
    assert_eq!(ask.payload_ptr().0.words, [5; 7]);
}

#[test]
fn wrapped_ask_unwraps_to_a_working_sender() {
    let (tx, mut rx) = tokio::sync::oneshot::channel();
    let env = envelope(SmallMsg { value: 10 }, Some(AnswerSender::Tokio(tx)));
    let (message, sender) = env.unwrap(SmallMsg::rtti()).unwrap();
    assert_eq!(message, SmallMsg { value: 10 });
    assert_eq!(sender.unwrap().send(()), Ok(()));
    assert_eq!(rx.try_recv(), Ok(()));
}

#[test]
fn sendable_ask_decomposes_into_sendable_tell() {
    let (tx, _rx) = tokio::sync::oneshot::channel::<()>();
    let ask = SendableEnvelope::new(
        SmallMsg::rtti(),
        SmallMsg { value: 4 },
        Some(AnswerSender::Tokio(tx)),
    );
    assert!(ask.try_clone().is_none());
    let tell = ask.try_clone_as_tell().unwrap();
    assert_eq!(tell.envelope().ty(), EnvelopeType::Tell);
    assert!(tell.envelope().is_sendable());
    assert_eq!(tell.into_inner().payload(SmallMsg::rtti()).unwrap().value, 4);
}

#[test]
fn sendable_conversions_round_trip() {
    let sendable = SendableEnvelope::try_from(envelope(SmallMsg { value: 6 }, None)).unwrap();
    let plain: MessageEnvelope<'static, SmallMsg, AnswerSender<()>> = sendable.into();
    assert_eq!(plain.payload(SmallMsg::rtti()).unwrap().value, 6);
    let kept = envelope(NonSendMsg { shared: Rc::new(()) }, None);
    assert_eq!(
        SendableEnvelope::try_from(kept).unwrap_err().rtti(),
        NonSendMsg::rtti()
    );
}

#[test]
fn layout_of_a_type() {
    let info = BasicTypeRtti::new::<[u64; 3]>();
    assert_eq!(info.size, 24);
    assert_eq!(info.align, 8);
    assert_eq!(SmallMsg::rtti().message_type_info().size, 8);
    assert_eq!(SmallMsg::rtti().name(), "SmallMsg");
}
