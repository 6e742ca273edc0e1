//! The handles a session owns: its outbound channel to the device, the signal
//! that stops its background tasks, and its queue of pending actions.

use crate::communication::types::HOIActionData;
use futures_channel::mpsc::UnboundedSender;
use futures_channel::oneshot::Sender;
use queues::IsQueue;
use queues::Queue;
use tokio_tungstenite::tungstenite::protocol::Message;
use vstd::prelude::*;

verus! {

/// `futures_channel::mpsc::UnboundedSender`, carried as an opaque value.
#[verifier::external_type_specification]
#[verifier::external_body]
#[verifier::reject_recursive_types(T)]
pub struct ExUnboundedSender<T>(UnboundedSender<T>);

/// `tungstenite::protocol::Message`, carried as an opaque value.
#[verifier::external_type_specification]
#[verifier::external_body]
pub struct ExMessage(Message);

/// `futures_channel::oneshot::Sender`, carried as an opaque value.
#[verifier::external_type_specification]
#[verifier::external_body]
#[verifier::reject_recursive_types(T)]
pub struct ExSender<T>(Sender<T>);

/// `queues::Queue`, whose contents [`queue_items`] names.
#[verifier::external_type_specification]
#[verifier::external_body]
#[verifier::reject_recursive_types(T)]
pub struct ExQueue<T: Clone>(Queue<T>);

/// The actions waiting in a queue, oldest first.
pub uninterp spec fn queue_items(queue: Queue<HOIActionData>) -> Seq<HOIActionData>;

/// `UnboundedSender::unbounded_send` with a text frame. Whether the frame
/// was accepted depends on the receiving end, so nothing is claimed of the
/// answer.
#[verifier::external_body]
pub(crate) fn send_text(connection: &UnboundedSender<Message>, text: String) -> (accepted: bool) {
    connection.unbounded_send(Message::text(text)).is_ok()
}

/// `oneshot::Sender::send` with the unit value. Whether anybody still
/// listens is not known, so nothing is claimed of the answer.
#[verifier::external_body]
pub(crate) fn signal_cancel(cancel: Sender<()>) -> (delivered: bool) {
    cancel.send(()).is_ok()
}

/// `Queue::new`: a queue that holds nothing.
#[verifier::external_body]
pub(crate) fn queue_new() -> (queue: Queue<HOIActionData>)
    ensures
        queue_items(queue) == Seq::<HOIActionData>::empty(),
{
    Queue::new()
}

/// `Queue::add`: the item goes to the back and everything else stays.
#[verifier::external_body]
pub(crate) fn queue_add(queue: &mut Queue<HOIActionData>, item: HOIActionData)
    ensures
        queue_items(*final(queue)) == queue_items(*old(queue)).push(item),
{
    let _ = queue.add(item);
}

/// `Queue::remove`: hands out the oldest item and keeps the rest in order; an
/// empty queue stays empty and the answer is `None`.
#[verifier::external_body]
pub(crate) fn queue_remove(queue: &mut Queue<HOIActionData>) -> (front: Option<HOIActionData>)
    ensures
        queue_items(*old(queue)).len() == 0 ==> front is None && queue_items(*final(queue))
            == queue_items(*old(queue)),
        queue_items(*old(queue)).len() > 0 ==> front == Some(queue_items(*old(queue))[0])
            && queue_items(*final(queue)) == queue_items(*old(queue)).drop_first(),
{
    queue.remove().ok()
}

/// `Queue::size`: how many items wait.
#[verifier::external_body]
pub(crate) fn queue_size(queue: &Queue<HOIActionData>) -> (count: usize)
    ensures
        count == queue_items(*queue).len(),
{
    queue.size()
}

} // verus!
