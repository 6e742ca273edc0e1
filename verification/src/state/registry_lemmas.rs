//! What holds of the registry whatever sequence of operations led to it.

use crate::communication::types::ActionDataView;
use crate::communication::types::CredentialsView;
use crate::state::state_types::RegistryView;
use futures_channel::mpsc::UnboundedSender;
use futures_channel::oneshot::Sender;
use tokio_tungstenite::tungstenite::protocol::Message;
use vstd::prelude::*;

verus! {

/// In any registry an id is in all five sub-state maps or in none of them,
/// and it is in all five exactly when it names a live session.
pub proof fn lemma_presence_is_whole(registry: RegistryView, id: Seq<char>)
    ensures
        registry.fully_present(id) || registry.fully_absent(id),
        registry.fully_present(id) == registry.contains(id),
{
}

/// After a registration the new id is in all five sub-state maps, with the
/// handles and credentials it was registered with, an empty queue and no
/// action in flight. Every other session is as it was.
pub proof fn lemma_register_installs_whole_session(
    registry: RegistryView,
    id: Seq<char>,
    credentials: CredentialsView,
    connection: UnboundedSender<Message>,
    cancel: Sender<()>,
)
    ensures
        registry.register(id, credentials, connection, cancel).fully_present(id),
        registry.register(id, credentials, connection, cancel).connections()[id] == connection,
        registry.register(id, credentials, connection, cancel).credentials()[id] == credentials,
        registry.register(id, credentials, connection, cancel).queues()[id]
            == Seq::<ActionDataView>::empty(),
        registry.register(id, credentials, connection, cancel).in_progress()[id] == false,
        registry.register(id, credentials, connection, cancel).cancels()[id] == cancel,
        forall|other: Seq<char>|
            other != id ==> registry.register(id, credentials, connection, cancel).contains(other)
                == registry.contains(other),
        forall|other: Seq<char>|
            other != id && registry.contains(other) ==> registry.register(
                id,
                credentials,
                connection,
                cancel,
            ).sessions[other] == registry.sessions[other],
{
}

/// After a removal the id is in none of the five sub-state maps, and every
/// other session is as it was.
pub proof fn lemma_remove_clears_whole_session(registry: RegistryView, id: Seq<char>)
    ensures
        registry.remove(id).fully_absent(id),
        forall|other: Seq<char>|
            other != id ==> registry.remove(id).contains(other) == registry.contains(other),
        forall|other: Seq<char>|
            other != id && registry.contains(other) ==> registry.remove(id).sessions[other]
                == registry.sessions[other],
{
}

/// Removing an id that names no live session changes nothing.
pub proof fn lemma_remove_absent_is_noop(registry: RegistryView, id: Seq<char>)
    requires
        !registry.contains(id),
    ensures
        registry.remove(id) == registry,
{
    assert(registry.sessions.remove(id) =~= registry.sessions);
}

/// Queueing, beginning, completing and dispatching neither add nor remove a
/// session, and none of them touches the issued ids.
pub proof fn lemma_actions_keep_sessions(
    registry: RegistryView,
    id: Seq<char>,
    action: ActionDataView,
    other: Seq<char>,
)
    ensures
        registry.enqueue(id, action).contains(other) == registry.contains(other),
        registry.begin(id).contains(other) == registry.contains(other),
        registry.complete(id).contains(other) == registry.contains(other),
        registry.dequeue(id).contains(other) == registry.contains(other),
        registry.dispatch(id).contains(other) == registry.contains(other),
        registry.enqueue(id, action).issued == registry.issued,
        registry.begin(id).issued == registry.issued,
        registry.complete(id).issued == registry.issued,
        registry.dequeue(id).issued == registry.issued,
        registry.dispatch(id).issued == registry.issued,
{
}

/// How many of `attempts` attempts in a row to begin an action for `id`
/// succeed.
pub open spec fn begun_count(registry: RegistryView, id: Seq<char>, attempts: nat) -> nat
    decreases attempts,
{
    if attempts == 0 {
        0
    } else {
        let first: nat = if registry.may_begin(id) {
            1
        } else {
            0
        };
        first + begun_count(registry.begin(id), id, (attempts - 1) as nat)
    }
}

/// The registry after `attempts` attempts in a row to begin an action for
/// `id`.
pub open spec fn after_attempts(registry: RegistryView, id: Seq<char>, attempts: nat) -> RegistryView
    decreases attempts,
{
    if attempts == 0 {
        registry
    } else {
        after_attempts(registry.begin(id), id, (attempts - 1) as nat)
    }
}

/// Once an action is in flight for a session, no attempt to begin another
/// succeeds, however many are made, and none of them changes the registry.
pub proof fn lemma_busy_session_refuses(registry: RegistryView, id: Seq<char>, attempts: nat)
    requires
        !registry.may_begin(id),
    ensures
        begun_count(registry, id, attempts) == 0,
        after_attempts(registry, id, attempts) == registry,
    decreases attempts,
{
    if attempts > 0 {
        lemma_busy_session_refuses(registry.begin(id), id, (attempts - 1) as nat);
    }
}

/// Of any number of attempts in a row to begin an action for a live session
/// with nothing in flight, exactly one succeeds: the first. Afterwards the
/// session is busy.
pub proof fn lemma_exactly_one_begins(registry: RegistryView, id: Seq<char>, attempts: nat)
    requires
        registry.may_begin(id),
        attempts >= 1,
    ensures
        begun_count(registry, id, attempts) == 1,
        after_attempts(registry, id, attempts) == registry.begin(id),
        !after_attempts(registry, id, attempts).may_begin(id),
        after_attempts(registry, id, attempts).contains(id),
{
    lemma_busy_session_refuses(registry.begin(id), id, (attempts - 1) as nat);
}

/// Completing the action of a live session lets the next attempt to begin
/// one succeed.
pub proof fn lemma_complete_frees_session(registry: RegistryView, id: Seq<char>)
    requires
        registry.contains(id),
    ensures
        registry.complete(id).may_begin(id),
{
}

/// Beginning an action for one session has no effect on whether another may
/// begin one.
pub proof fn lemma_begin_is_per_session(registry: RegistryView, id: Seq<char>, other: Seq<char>)
    requires
        other != id,
    ensures
        registry.begin(id).may_begin(other) == registry.may_begin(other),
{
}

/// An id that was never issued names no live session.
pub proof fn lemma_unissued_id_is_not_live(registry: RegistryView, id: Seq<char>)
    requires
        registry.wf(),
        !registry.issued.contains(id),
    ensures
        !registry.contains(id),
{
}

/// An id stays issued for good: a removal keeps it, and so does every other
/// operation. So an id that once named a session is never registered again.
pub proof fn lemma_issued_ids_stay(
    registry: RegistryView,
    id: Seq<char>,
    seen: Seq<char>,
    credentials: CredentialsView,
    connection: UnboundedSender<Message>,
    cancel: Sender<()>,
)
    requires
        registry.issued.contains(seen),
    ensures
        registry.register(id, credentials, connection, cancel).issued.contains(seen),
        registry.register(id, credentials, connection, cancel).issued.contains(id),
        registry.remove(id).issued.contains(seen),
{
}

/// Every operation takes a well-formed registry to a well-formed one.
pub proof fn lemma_operations_keep_wf(
    registry: RegistryView,
    id: Seq<char>,
    action: ActionDataView,
    credentials: CredentialsView,
    connection: UnboundedSender<Message>,
    cancel: Sender<()>,
)
    requires
        registry.wf(),
    ensures
        RegistryView::empty().wf(),
        registry.register(id, credentials, connection, cancel).wf(),
        registry.remove(id).wf(),
        registry.enqueue(id, action).wf(),
        registry.begin(id).wf(),
        registry.complete(id).wf(),
        registry.dequeue(id).wf(),
        registry.dispatch(id).wf(),
{
}

/// Actions leave a session in the order in which they were queued: after
/// queueing `action` on a session with nothing waiting and nothing in
/// flight, the dispatcher hands out `action` itself.
pub proof fn lemma_dispatch_is_fifo(registry: RegistryView, id: Seq<char>, action: ActionDataView)
    requires
        registry.contains(id),
    ensures
        registry.enqueue(id, action).sessions[id].queue == registry.sessions[id].queue.push(action),
        registry.has_pending(id) ==> registry.enqueue(id, action).sessions[id].queue[0]
            == registry.sessions[id].queue[0],
        !registry.has_pending(id) ==> registry.enqueue(id, action).sessions[id].queue[0] == action,
        registry.may_dispatch(id) ==> registry.dispatch(id).sessions[id].queue
            == registry.sessions[id].queue.drop_first(),
        registry.may_dispatch(id) ==> !registry.dispatch(id).may_dispatch(id),
{
}

} // verus!
