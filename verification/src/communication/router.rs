//! Dispatch of inbound control-bus messages: each message is of one kind out
//! of a closed set, and each kind has one effect on the registry.

use crate::communication::codec::action_of_json;
use crate::communication::codec::credentials_of_json;
use crate::communication::codec::decode_action;
use crate::communication::codec::decode_credentials;
use crate::communication::json::json_of_text;
use crate::communication::json::parse_json;
use crate::communication::json::text_is;
use crate::communication::json::Json;
use crate::communication::json::JsonValue;
use crate::communication::types::ActionDataView;
use crate::communication::types::CredentialsView;
use crate::communication::types::GeneralMessage;
use crate::communication::types::GeneralMessageView;
use crate::communication::types::HOIActionData;
use crate::communication::types::HouseOfIoTCredentials;
use crate::integration::house_of_iot::queue_up_action_execution;
use crate::state::state_types::MainState;
use crate::state::state_types::RegistryView;
use vstd::prelude::*;

verus! {

/// The kinds of control-bus message.
#[derive(Clone, Copy, PartialEq, Eq, Debug, Structural)]
pub enum MessageKind {
    /// A request to connect to a device server.
    Connect,
    /// A request to end a session.
    Disconnect,
    /// A request to run an action on a device.
    Action,
    /// Any other message; it is ignored.
    Unknown,
}

/// The kind that a category names.
pub open spec fn kind_of(category: Seq<char>) -> MessageKind {
    if category == "connect_hoi"@ {
        MessageKind::Connect
    } else if category == "disconnect_hoi"@ {
        MessageKind::Disconnect
    } else if category == "action_hoi"@ {
        MessageKind::Action
    } else {
        MessageKind::Unknown
    }
}

/// Decodes the category of a control-bus message.
pub fn message_kind(category: &String) -> (kind: MessageKind)
    ensures
        kind == kind_of(category@),
{
    if text_is(category, "connect_hoi") {
        MessageKind::Connect
    } else if text_is(category, "disconnect_hoi") {
        MessageKind::Disconnect
    } else if text_is(category, "action_hoi") {
        MessageKind::Action
    } else {
        MessageKind::Unknown
    }
}

/// What the router asks of its caller after a message.
pub enum RouterOutcome {
    /// Run a handshake with these credentials.
    Connect(HouseOfIoTCredentials),
    /// The session was removed; publish this notification.
    Disconnected(GeneralMessage),
    /// An action was queued; send this one now, if there is one.
    Queued(Option<HOIActionData>),
    /// Nothing is to be done.
    Ignored,
}

/// The mathematical value of a [`RouterOutcome`].
pub enum RouterOutcomeView {
    Connect(CredentialsView),
    Disconnected(GeneralMessageView),
    Queued(Option<ActionDataView>),
    Ignored,
}

impl View for RouterOutcome {
    type V = RouterOutcomeView;

    open spec fn view(&self) -> RouterOutcomeView {
        match self {
            RouterOutcome::Connect(credentials) => RouterOutcomeView::Connect(credentials@),
            RouterOutcome::Disconnected(notice) => RouterOutcomeView::Disconnected(notice@),
            RouterOutcome::Queued(next) => RouterOutcomeView::Queued(
                match next {
                    Some(action) => Some(action@),
                    None => None,
                },
            ),
            RouterOutcome::Ignored => RouterOutcomeView::Ignored,
        }
    }
}

/// The notification that session `server_id` is gone.
pub open spec fn disconnected_notice(server_id: Seq<char>) -> GeneralMessageView {
    GeneralMessageView { category: "disconnected"@, data: Seq::empty(), server_id }
}

/// The registry after a message. Only two kinds change it: a disconnect
/// request removes the session it names, and an action request with a
/// well-formed payload queues the action and lets the dispatcher look at its
/// session.
pub open spec fn routed_state(
    message: GeneralMessageView,
    payload: Option<JsonValue>,
    state: RegistryView,
) -> RegistryView {
    match kind_of(message.category) {
        MessageKind::Disconnect => state.remove(message.server_id),
        MessageKind::Action => match payload {
            Some(document) => match action_of_json(document) {
                Some(action) => state.enqueue(action.server_id, action).dispatch(action.server_id),
                None => state,
            },
            None => state,
        },
        _ => state,
    }
}

/// What the router asks of its caller after a message. A connect request
/// with well-formed credentials asks for a handshake. A disconnect request
/// for a live session asks for a notification; for any other id it asks for
/// nothing. An action request with a well-formed payload hands out the
/// action to send now, if the dispatcher found one. A malformed payload and
/// an unknown category ask for nothing.
pub open spec fn routed_outcome(
    message: GeneralMessageView,
    payload: Option<JsonValue>,
    state: RegistryView,
) -> RouterOutcomeView {
    match kind_of(message.category) {
        MessageKind::Connect => match payload {
            Some(document) => match credentials_of_json(document) {
                Some(credentials) => RouterOutcomeView::Connect(credentials),
                None => RouterOutcomeView::Ignored,
            },
            None => RouterOutcomeView::Ignored,
        },
        MessageKind::Disconnect => if state.contains(message.server_id) {
            RouterOutcomeView::Disconnected(disconnected_notice(message.server_id))
        } else {
            RouterOutcomeView::Ignored
        },
        MessageKind::Action => match payload {
            Some(document) => match action_of_json(document) {
                Some(action) => {
                    let queued = state.enqueue(action.server_id, action);
                    RouterOutcomeView::Queued(
                        if queued.may_dispatch(action.server_id) {
                            Some(queued.sessions[action.server_id].queue[0])
                        } else {
                            None
                        },
                    )
                },
                None => RouterOutcomeView::Ignored,
            },
            None => RouterOutcomeView::Ignored,
        },
        MessageKind::Unknown => RouterOutcomeView::Ignored,
    }
}

/// The document of an optional payload.
pub open spec fn payload_view(payload: Option<Json>) -> Option<JsonValue> {
    match payload {
        Some(document) => Some(document@),
        None => None,
    }
}

/// Routes one control-bus message, with the document that its payload holds,
/// if it holds one, at hand.
pub fn route_decoded(msg: GeneralMessage, payload: Option<Json>, server_state: &mut MainState) -> (outcome:
    RouterOutcome)
    ensures
        outcome@ == routed_outcome(msg@, payload_view(payload), old(server_state)@),
        final(server_state)@ == routed_state(msg@, payload_view(payload), old(server_state)@),
{
    match message_kind(&msg.category) {
        MessageKind::Connect => match payload {
            Some(document) => match decode_credentials(&document) {
                Some(credentials) => RouterOutcome::Connect(credentials),
                None => RouterOutcome::Ignored,
            },
            None => RouterOutcome::Ignored,
        },
        MessageKind::Disconnect => {
            if server_state.remove(&msg.server_id) {
                RouterOutcome::Disconnected(
                    GeneralMessage {
                        category: "disconnected".to_owned(),
                        data: String::new(),
                        server_id: msg.server_id,
                    },
                )
            } else {
                RouterOutcome::Ignored
            }
        },
        MessageKind::Action => match payload {
            Some(document) => match decode_action(&document) {
                Some(action) => RouterOutcome::Queued(
                    queue_up_action_execution(server_state, action),
                ),
                None => RouterOutcome::Ignored,
            },
            None => RouterOutcome::Ignored,
        },
        MessageKind::Unknown => RouterOutcome::Ignored,
    }
}

/// Routes one control-bus message: decodes its category and, where the kind
/// carries one, its payload, and applies the effect of its kind to the
/// registry.
pub fn route_rabbit_message(msg: GeneralMessage, server_state: &mut MainState) -> (outcome:
    RouterOutcome)
    ensures
        outcome@ == routed_outcome(msg@, json_of_text(msg@.data), old(server_state)@),
        final(server_state)@ == routed_state(msg@, json_of_text(msg@.data), old(server_state)@),
{
    match message_kind(&msg.category) {
        MessageKind::Connect | MessageKind::Action => {
            let payload = parse_json(msg.data.as_str());
            route_decoded(msg, payload, server_state)
        },
        _ => route_decoded(msg, None, server_state),
    }
}

/// A disconnect request for an id that names no live session does nothing:
/// the registry stays as it is and nothing is to be published.
pub proof fn lemma_disconnect_unregistered_is_noop(
    message: GeneralMessageView,
    payload: Option<JsonValue>,
    state: RegistryView,
)
    requires
        kind_of(message.category) == MessageKind::Disconnect,
        !state.contains(message.server_id),
    ensures
        routed_outcome(message, payload, state) == RouterOutcomeView::Ignored,
        routed_state(message, payload, state) == state,
{
    assert(state.sessions.remove(message.server_id) =~= state.sessions);
}

/// A disconnect request for a live session removes it from every sub-state
/// map and asks for one notification that names it.
pub proof fn lemma_disconnect_removes_session(
    message: GeneralMessageView,
    payload: Option<JsonValue>,
    state: RegistryView,
)
    requires
        kind_of(message.category) == MessageKind::Disconnect,
        state.contains(message.server_id),
    ensures
        routed_outcome(message, payload, state) == RouterOutcomeView::Disconnected(
            disconnected_notice(message.server_id),
        ),
        routed_state(message, payload, state).fully_absent(message.server_id),
{
}

/// A message of an unknown category, and a message whose payload is no
/// document, are ignored: the registry stays as it is and nothing is asked
/// of the caller. The one exception is the disconnect request, which has no
/// payload to read.
pub proof fn lemma_unreadable_messages_are_ignored(
    message: GeneralMessageView,
    payload: Option<JsonValue>,
    state: RegistryView,
)
    requires
        kind_of(message.category) == MessageKind::Unknown || (payload is None && kind_of(
            message.category,
        ) != MessageKind::Disconnect),
    ensures
        routed_outcome(message, payload, state) == RouterOutcomeView::Ignored,
        routed_state(message, payload, state) == state,
{
}

/// A connect request never changes the registry: a session appears only
/// once its handshake has passed.
pub proof fn lemma_connect_leaves_registry(
    message: GeneralMessageView,
    payload: Option<JsonValue>,
    state: RegistryView,
)
    requires
        kind_of(message.category) == MessageKind::Connect,
    ensures
        routed_state(message, payload, state) == state,
{
}

} // verus!
