//! Answer channels: how the answer to an ask message finds its way back.
use tokio::sync::oneshot;
use vstd::prelude::*;

verus! {

/// [`tokio::sync::oneshot::Sender`].
#[verifier::external_type_specification]
#[verifier::external_body]
#[verifier::reject_recursive_types(T)]
pub struct ExOneshotSender<T>(oneshot::Sender<T>);

/// [`tokio::sync::oneshot::Receiver`].
#[verifier::external_type_specification]
#[verifier::external_body]
#[verifier::reject_recursive_types(T)]
pub struct ExOneshotReceiver<T>(oneshot::Receiver<T>);

/// [`tokio::sync::oneshot::error::RecvError`], which waiting for a
/// [`oneshot::Receiver`] can end in.
#[verifier::external_type_specification]
#[verifier::external_body]
pub struct ExRecvError(oneshot::error::RecvError);

/// Calls [`oneshot::channel`], which makes the two ends of a new channel. What
/// comes out of the one is up to what the holder of the other does.
#[verifier::external_body]
fn oneshot_channel<T>() -> (ends: (oneshot::Sender<T>, oneshot::Receiver<T>)) {
    oneshot::channel()
}

/// Whether the two ends are what one call of [`oneshot::channel`] made.
pub closed spec fn made_together<T>(
    sender: oneshot::Sender<T>,
    receiver: oneshot::Receiver<T>,
) -> bool {
    call_ensures(oneshot_channel::<T>, (), (sender, receiver))
}

/// Calls [`oneshot::Sender::send`]. A value that cannot be sent comes back as it
/// was; whether it can be is up to the receiving end.
#[verifier::external_body]
fn oneshot_send<T>(sender: oneshot::Sender<T>, value: T) -> (result: Result<(), T>)
    ensures
        result matches Err(returned) ==> returned == value,
{
    sender.send(value)
}

/// Whether `result` is what [`oneshot::Sender::send`] returned, called on `sender`
/// with `value`.
pub closed spec fn send_returned<T>(
    sender: oneshot::Sender<T>,
    value: T,
    result: Result<(), T>,
) -> bool {
    call_ensures(oneshot_send::<T>, (sender, value), result)
}

/// Calls [`oneshot::Receiver::try_recv`]. What it finds is up to the sending
/// end.
#[verifier::external_body]
fn oneshot_try_recv<T>(receiver: &mut oneshot::Receiver<T>) -> (found: AnswerPoll<T>) {
    match receiver.try_recv() {
        Ok(answer) => AnswerPoll::Answered(answer),
        Err(oneshot::error::TryRecvError::Empty) => AnswerPoll::Pending,
        Err(oneshot::error::TryRecvError::Closed) => AnswerPoll::Closed,
    }
}

/// Whether `found` is what [`oneshot::Receiver::try_recv`] found, called on
/// `receiver`.
pub closed spec fn try_recv_found<T>(
    receiver: &mut oneshot::Receiver<T>,
    found: AnswerPoll<T>,
) -> bool {
    call_ensures(oneshot_try_recv::<T>, (receiver,), found)
}

/// What a look at an answer channel finds.
#[derive(Clone, Copy, Debug, PartialEq, Eq)]
pub enum AnswerPoll<T> {
    /// The answer.
    Answered(T),
    /// No answer yet.
    Pending,
    /// There will be no answer: the sender is gone.
    Closed,
}

impl<T> AnswerPoll<T> {
    /// What an asker makes of what was found: nothing while the answer is
    /// pending, then the answer, or `None` if there will be none.
    pub open spec fn spec_reply(self) -> Option<Option<T>> {
        match self {
            AnswerPoll::Answered(answer) => Some(Some(answer)),
            AnswerPoll::Closed => Some(None),
            AnswerPoll::Pending => None,
        }
    }

    /// What an asker makes of what was found: nothing while the answer is
    /// pending, then the answer, or `None` if there will be none.
    pub fn reply(self) -> (reply: Option<Option<T>>)
        ensures
            reply == self.spec_reply(),
    {
        match self {
            AnswerPoll::Answered(answer) => Some(Some(answer)),
            AnswerPoll::Closed => Some(None),
            AnswerPoll::Pending => None,
        }
    }
}

/// The sender used to answer a message.
#[verifier::reject_recursive_types(T)]
#[derive(Debug)]
pub enum AnswerSender<T> {
    Tokio(oneshot::Sender<T>),
}

/// The receiver used to receive the answer to a message.
#[verifier::reject_recursive_types(T)]
#[derive(Debug)]
pub enum AnswerReceiver<T> {
    Tokio(oneshot::Receiver<T>),
}

impl<T> AnswerSender<T> {
    /// Send the answer. Fails with the answer if no one waits for it any more.
    pub fn send(self, answer: T) -> (result: Result<(), T>)
        ensures
            send_returned(self->Tokio_0, answer, result),
            result matches Err(returned) ==> returned == answer,
    {
        match self {
            AnswerSender::Tokio(sender) => oneshot_send(sender, answer),
        }
    }
}

impl<T> AnswerReceiver<T> {
    /// Look for the answer: nothing while it is pending, then the answer, or
    /// `None` if there will be none.
    pub fn try_recv(&mut self) -> (reply: Option<Option<T>>)
        ensures
            exists|receiver: &mut oneshot::Receiver<T>, found: AnswerPoll<T>|
                #[trigger] try_recv_found(receiver, found) && *receiver == (*old(self))->Tokio_0
                    && *final(receiver) == (*final(self))->Tokio_0 && reply == found.spec_reply(),
    {
        match self {
            AnswerReceiver::Tokio(receiver) => {
                let found = oneshot_try_recv(receiver);
                proof {
                    let polled = choose|polled: &mut oneshot::Receiver<T>| #[trigger]
                        call_ensures(oneshot_try_recv::<T>, (polled,), found) && *polled == (*old(
                            self,
                        ))->Tokio_0 && *final(polled) == *receiver;
                    assert(try_recv_found(polled, found));
                }
                found.reply()
            },
        }
    }

    /// What waiting for the answer to its end comes to: the answer, or `None` if
    /// there will be none.
    pub fn received(result: Result<T, oneshot::error::RecvError>) -> (answer: Option<T>)
        ensures
            answer == match result {
                Ok(received) => Some(received),
                Err(_) => None,
            },
    {
        match result {
            Ok(answer) => Some(answer),
            Err(_) => None,
        }
    }
}

/// Create an answer channel.
pub fn answer_channel<T>() -> (ends: (AnswerSender<T>, AnswerReceiver<T>))
    ensures
        made_together(ends.0->Tokio_0, ends.1->Tokio_0),
{
    let (sender, receiver) = oneshot_channel();
    (AnswerSender::Tokio(sender), AnswerReceiver::Tokio(receiver))
}

/// What an asker makes of what it found: nothing yet while the answer is pending, the
/// very answer once there is one, and that there will be none once the sender is gone.
pub proof fn replies_are_what_was_found<T>(found: AnswerPoll<T>, reply: Option<Option<T>>)
    requires
        call_ensures(AnswerPoll::<T>::reply, (found,), reply),
    ensures
        reply is None <==> found is Pending,
        reply == Some(None::<T>) <==> found is Closed,
        forall|answer: T| reply == Some(Some(answer)) <==> found == AnswerPoll::Answered(answer),
{
}

/// The two ends of an answer channel are those of one [`oneshot::channel`]; what is
/// sent goes into its sending end, and what is found comes from its receiving end.
proof fn answers_go_through_one_channel<T>(
    ends: (AnswerSender<T>, AnswerReceiver<T>),
    answer: T,
    sent: Result<(), T>,
    before: AnswerReceiver<T>,
    after: AnswerReceiver<T>,
    reply: Option<Option<T>>,
)
    requires
        call_ensures(answer_channel::<T>, (), ends),
        call_ensures(AnswerSender::<T>::send, (ends.0, answer), sent),
        exists|receiver: &mut AnswerReceiver<T>|
            #[trigger] call_ensures(AnswerReceiver::<T>::try_recv, (receiver,), reply) && *receiver
                == before && *final(receiver) == after,
    ensures
        ends.0 matches AnswerSender::Tokio(sender) && (ends.1 matches AnswerReceiver::Tokio(
            receiver,
        ) && call_ensures(oneshot_channel::<T>, (), (sender, receiver)) && call_ensures(
            oneshot_send::<T>,
            (sender, answer),
            sent,
        )),
        exists|receiver: &mut oneshot::Receiver<T>, found: AnswerPoll<T>|
            {
                &&& #[trigger] call_ensures(oneshot_try_recv::<T>, (receiver,), found)
                &&& before == AnswerReceiver::Tokio(*receiver)
                &&& after == AnswerReceiver::Tokio(*final(receiver))
                &&& reply is None <==> found is Pending
                &&& reply == Some(None::<T>) <==> found is Closed
                &&& found matches AnswerPoll::Answered(answer) ==> reply == Some(Some(answer))
            },
{
    assert(exists|receiver: &mut oneshot::Receiver<T>, found: AnswerPoll<T>|
        #[trigger] try_recv_found(receiver, found) && *receiver == before->Tokio_0
            && *final(receiver) == after->Tokio_0 && reply == found.spec_reply());
}

} // verus!
