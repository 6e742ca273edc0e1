//! One device session from handshake to relay: the frames to send, what a
//! reply means, which event a device frame becomes, when the poller stops and
//! which action runs next.

use crate::communication::codec::decode_telemetry;
use crate::communication::codec::encode_auth_response;
use crate::communication::codec::encode_passive_list;
use crate::communication::codec::auth_response_text;
use crate::communication::codec::passive_list_text;
use crate::communication::codec::telemetry_of_json;
use crate::communication::json::json_of_text;
use crate::communication::json::parse_json;
use crate::communication::json::text_is;
use crate::communication::json::Json;
use crate::communication::json::JsonValue;
use crate::communication::types::AuthResponse;
use crate::communication::types::AuthResponseView;
use crate::communication::types::GeneralMessage;
use crate::communication::types::GeneralMessageView;
use crate::communication::types::HOIActionData;
use crate::communication::types::HouseOfIoTCredentials;
use crate::state::channels::send_text;
use crate::state::state_types::MainState;
use crate::state::state_types::RegistryView;
use futures_channel::mpsc::UnboundedSender;
use futures_channel::oneshot::Sender;
use tokio_tungstenite::tungstenite::protocol::Message;
use vstd::prelude::*;

verus! {

/// The seconds between two passive-data requests of a session.
pub const PASSIVE_DATA_INTERVAL_SECS: u64 = 5;

/// The seconds a device has to answer the handshake.
pub const HANDSHAKE_REPLY_TIMEOUT_SECS: u64 = 10;

/// Whether `Url::parse` accepts an address.
pub uninterp spec fn url_parses(address: Seq<char>) -> bool;

/// `Url::parse`, of which only success or failure is kept.
#[verifier::external_body]
fn address_parses(address: &str) -> (accepted: bool)
    ensures
        accepted == url_parses(address@),
{
    url::Url::parse(address).is_ok()
}

/// A frame received from a device: whether it is a text frame, and its text.
pub struct DeviceFrame {
    pub is_text: bool,
    pub text: String,
}

/// The mathematical value of a [`DeviceFrame`].
pub struct DeviceFrameView {
    pub is_text: bool,
    pub text: Seq<char>,
}

impl View for DeviceFrame {
    type V = DeviceFrameView;

    open spec fn view(&self) -> DeviceFrameView {
        DeviceFrameView { is_text: self.is_text, text: self.text@ }
    }
}

/// Where a handshake stands.
#[derive(Clone, Copy, PartialEq, Eq, Debug, Structural)]
pub enum HandshakeState {
    /// The transport is being opened.
    Connecting,
    /// The credentials were sent and the reply is awaited.
    Authenticating,
    /// The device accepted the credentials.
    Authenticated,
    /// The device refused, or the stream ended before it replied.
    Rejected,
    /// The transport could not be opened; nothing is reported.
    Failed,
}

/// What happened to a handshake.
pub enum HandshakeEvent {
    /// The transport is open.
    Opened,
    /// The transport could not be opened.
    OpenFailed,
    /// A credential frame was not accepted by the transport.
    SendFailed,
    /// The device replied with this frame.
    Replied(DeviceFrame),
    /// The stream ended before a reply.
    StreamEnded,
    /// No reply came within [`HANDSHAKE_REPLY_TIMEOUT_SECS`] seconds.
    ReplyTimedOut,
}

/// The mathematical value of a [`HandshakeEvent`].
pub enum HandshakeEventView {
    Opened,
    OpenFailed,
    SendFailed,
    Replied(DeviceFrameView),
    StreamEnded,
    ReplyTimedOut,
}

impl View for HandshakeEvent {
    type V = HandshakeEventView;

    open spec fn view(&self) -> HandshakeEventView {
        match self {
            HandshakeEvent::Opened => HandshakeEventView::Opened,
            HandshakeEvent::OpenFailed => HandshakeEventView::OpenFailed,
            HandshakeEvent::SendFailed => HandshakeEventView::SendFailed,
            HandshakeEvent::Replied(frame) => HandshakeEventView::Replied(frame@),
            HandshakeEvent::StreamEnded => HandshakeEventView::StreamEnded,
            HandshakeEvent::ReplyTimedOut => HandshakeEventView::ReplyTimedOut,
        }
    }
}

/// Whether a reply frame grants authentication: a text frame that reads
/// `success`.
pub open spec fn is_success_reply(frame: DeviceFrameView) -> bool {
    frame.is_text && frame.text == "success"@
}

/// Whether a handshake passed: the three frames went out and the reply is a
/// text frame that reads `success`. No reply, for a stream that ended, does
/// not pass.
pub open spec fn handshake_passed(sent: bool, reply: Option<DeviceFrameView>) -> bool {
    sent && match reply {
        Some(frame) => is_success_reply(frame),
        None => false,
    }
}

/// The state that follows `state` on `event`. The three final states stay
/// as they are, and so does a state on an event that cannot happen in it.
pub open spec fn handshake_next(state: HandshakeState, event: HandshakeEventView) -> HandshakeState {
    match state {
        HandshakeState::Connecting => match event {
            HandshakeEventView::Opened => HandshakeState::Authenticating,
            HandshakeEventView::OpenFailed => HandshakeState::Failed,
            _ => state,
        },
        HandshakeState::Authenticating => match event {
            HandshakeEventView::Replied(frame) => if is_success_reply(frame) {
                HandshakeState::Authenticated
            } else {
                HandshakeState::Rejected
            },
            HandshakeEventView::StreamEnded => HandshakeState::Rejected,
            HandshakeEventView::ReplyTimedOut => HandshakeState::Rejected,
            HandshakeEventView::SendFailed => HandshakeState::Rejected,
            _ => state,
        },
        _ => state,
    }
}

/// The state in which a handshake with these credentials starts:
/// `Connecting`, or `Failed` where the address is no URL.
pub fn begin_handshake(credentials: &HouseOfIoTCredentials) -> (state: HandshakeState)
    ensures
        state == if url_parses(credentials@.connection_str) {
            HandshakeState::Connecting
        } else {
            HandshakeState::Failed
        },
{
    if address_parses(credentials.connection_str.as_str()) {
        HandshakeState::Connecting
    } else {
        HandshakeState::Failed
    }
}

/// Advances a handshake by one event.
pub fn handshake_step(state: HandshakeState, event: &HandshakeEvent) -> (next: HandshakeState)
    ensures
        next == handshake_next(state, event@),
{
    match state {
        HandshakeState::Connecting => match event {
            HandshakeEvent::Opened => HandshakeState::Authenticating,
            HandshakeEvent::OpenFailed => HandshakeState::Failed,
            _ => state,
        },
        HandshakeState::Authenticating => match event {
            HandshakeEvent::Replied(frame) => if authenticate(true, Some(frame)) {
                HandshakeState::Authenticated
            } else {
                HandshakeState::Rejected
            },
            HandshakeEvent::StreamEnded => HandshakeState::Rejected,
            HandshakeEvent::ReplyTimedOut => HandshakeState::Rejected,
            HandshakeEvent::SendFailed => HandshakeState::Rejected,
            _ => state,
        },
        _ => state,
    }
}

/// The frames that open a handshake, in the order in which they are sent:
/// password, identity, outward-facing name.
pub fn authenticate_frames(credentials: &HouseOfIoTCredentials) -> (frames: Vec<String>)
    ensures
        frames@.len() == 3,
        frames@[0]@ == credentials@.password,
        frames@[1]@ == credentials@.name_and_type,
        frames@[2]@ == credentials@.outside_name,
{
    let mut frames: Vec<String> = Vec::new();
    frames.push(credentials.password.clone());
    frames.push(credentials.name_and_type.clone());
    frames.push(credentials.outside_name.clone());
    frames
}

/// Whether the handshake frames went out: each of the three was accepted.
pub open spec fn all_accepted(password: bool, name_and_type: bool, outside_name: bool) -> bool {
    password && name_and_type && outside_name
}

/// Whether the handshake frames went out, from what became of each of the
/// three sends.
pub fn credentials_accepted(password: bool, name_and_type: bool, outside_name: bool) -> (sent: bool)
    ensures
        sent == all_accepted(password, name_and_type, outside_name),
{
    password && name_and_type && outside_name
}

/// Hands the three handshake frames to the connection: the frames that
/// [`authenticate_frames`] gives, in its order, each of them whatever became
/// of the one before. The answer is that of [`credentials_accepted`] on the
/// three sends, each of which the receiving end decides.
pub fn send_credentials(
    connection: &UnboundedSender<Message>,
    credentials: &HouseOfIoTCredentials,
) -> (sent: bool) {
    let frames = authenticate_frames(credentials);
    let password = send_text(connection, frames[0].clone());
    let name_and_type = send_text(connection, frames[1].clone());
    let outside_name = send_text(connection, frames[2].clone());
    credentials_accepted(password, name_and_type, outside_name)
}

/// Decides whether a handshake passed, from whether the three frames went
/// out and from the one reply, if there was one.
pub fn authenticate(sent: bool, reply: Option<&DeviceFrame>) -> (passed: bool)
    ensures
        passed == handshake_passed(
            sent,
            match reply {
                Some(frame) => Some(frame@),
                None => None,
            },
        ),
{
    if !sent {
        return false;
    }
    match reply {
        Some(frame) => frame.is_text && text_is(&frame.text, "success"),
        None => false,
    }
}

/// The authentication event for a handshake that ended with `passed`, as an
/// [`AuthResponse`] and written as JSON text.
pub fn send_auth_response(outside_name: String, passed: bool, server_id: Option<String>) -> (text: String)
    ensures
        text@ == auth_response_text(
            AuthResponseView {
                outside_name: outside_name@,
                passed_auth: passed,
                server_id: match server_id {
                    Some(id) => Some(id@),
                    None => None,
                },
            },
        ),
{
    let response = AuthResponse { outside_name, passed_auth: passed, server_id };
    encode_auth_response(&response)
}

/// Ends a handshake with the session id `id` at hand. Where the handshake
/// passed and `id` was never issued, the session is registered under `id`
/// and the event is positive and carries `id`. Otherwise the registry stays
/// as it is and the event is negative, without an id.
pub fn complete_handshake(
    credentials: HouseOfIoTCredentials,
    connection: UnboundedSender<Message>,
    cancel: Sender<()>,
    passed: bool,
    id: String,
    server_state: &mut MainState,
) -> (response: AuthResponse)
    ensures
        response@.outside_name == credentials@.outside_name,
        response@.passed_auth == (passed && !old(server_state)@.issued.contains(id@)),
        response@.passed_auth ==> response@.server_id == Some(id@) && final(server_state)@ == old(
            server_state,
        )@.register(id@, credentials@, connection, cancel) && final(server_state)@.fully_present(
            id@,
        ),
        !response@.passed_auth ==> response@.server_id is None && final(server_state)@ == old(
            server_state,
        )@,
{
    let outside_name = credentials.outside_name.clone();
    if passed {
        let copy = id.clone();
        if server_state.register_with_id(id, credentials, connection, cancel) {
            return AuthResponse { outside_name, passed_auth: true, server_id: Some(copy) };
        }
    }
    AuthResponse { outside_name, passed_auth: false, server_id: None }
}

/// Whether a handshake that ended in `state` is reported to the control
/// bus: one that the device accepted or rejected is, one whose transport
/// never opened is not, and neither is one that has not ended.
pub open spec fn handshake_reports(state: HandshakeState) -> bool {
    state == HandshakeState::Authenticated || state == HandshakeState::Rejected
}

/// Ends a handshake that stands at `outcome`.
///
/// An authenticated one mints a session id that the registry never issued,
/// registers the session under it and gives a positive event that carries
/// the id. A rejected one gives a negative event without an id. Any other
/// state gives no event. Only the authenticated one mints an id or changes
/// the registry.
pub fn connect_and_begin_listening(
    credentials: HouseOfIoTCredentials,
    connection: UnboundedSender<Message>,
    cancel: Sender<()>,
    outcome: HandshakeState,
    server_state: &mut MainState,
) -> (response: Option<AuthResponse>)
    ensures
        response is Some == handshake_reports(outcome),
        match response {
            Some(event) => {
                &&& event@.outside_name == credentials@.outside_name
                &&& event@.passed_auth == (outcome == HandshakeState::Authenticated)
                &&& event@.server_id is Some == (outcome == HandshakeState::Authenticated)
                &&& match event@.server_id {
                    Some(id) => {
                        &&& id.len() >= 36
                        &&& !old(server_state)@.issued.contains(id)
                        &&& !old(server_state)@.contains(id)
                        &&& final(server_state)@ == old(server_state)@.register(
                            id,
                            credentials@,
                            connection,
                            cancel,
                        )
                        &&& final(server_state)@.fully_present(id)
                    },
                    None => true,
                }
            },
            None => true,
        },
        outcome != HandshakeState::Authenticated ==> final(server_state)@ == old(server_state)@,
{
    match outcome {
        HandshakeState::Authenticated => {
            let id = server_state.fresh_session_id();
            Some(complete_handshake(credentials, connection, cancel, true, id, server_state))
        },
        HandshakeState::Rejected => Some(
            AuthResponse {
                outside_name: credentials.outside_name,
                passed_auth: false,
                server_id: None,
            },
        ),
        _ => None,
    }
}

/// The event that a device frame becomes. The literals `success` and `issue`
/// become an action response that carries the literal. Any other frame
/// becomes a passive-data event where it is a JSON document that carries
/// telemetry, with the records written anew as its payload. Everything else
/// is dropped.
pub open spec fn relay_event(
    frame: Seq<char>,
    document: Option<JsonValue>,
    server_id: Seq<char>,
) -> Option<GeneralMessageView> {
    if frame == "success"@ || frame == "issue"@ {
        Some(GeneralMessageView { category: "action_response"@, data: frame, server_id })
    } else {
        match document {
            Some(value) => match telemetry_of_json(value) {
                Some(records) => Some(
                    GeneralMessageView {
                        category: "passive_data"@,
                        data: passive_list_text(records),
                        server_id,
                    },
                ),
                None => None,
            },
            None => None,
        }
    }
}

/// Whether a device frame reports the outcome of an action.
pub open spec fn is_action_outcome(frame: Seq<char>) -> bool {
    frame == "success"@ || frame == "issue"@
}

/// Classifies a device frame of session `server_id`, with the document that
/// the frame holds, if it holds one, at hand.
pub fn classify_frame(msg: String, document: Option<Json>, server_id: String) -> (event: Option<
    GeneralMessage,
>)
    ensures
        match event {
            Some(e) => relay_event(
                msg@,
                match document {
                    Some(d) => Some(d@),
                    None => None,
                },
                server_id@,
            ) == Some(e@),
            None => relay_event(
                msg@,
                match document {
                    Some(d) => Some(d@),
                    None => None,
                },
                server_id@,
            ) is None,
        },
{
    if text_is(&msg, "success") || text_is(&msg, "issue") {
        return Some(
            GeneralMessage { category: "action_response".to_owned(), data: msg, server_id },
        );
    }
    match document {
        Some(value) => match decode_telemetry(&value) {
            Some(records) => Some(
                GeneralMessage {
                    category: "passive_data".to_owned(),
                    data: encode_passive_list(&records),
                    server_id,
                },
            ),
            None => None,
        },
        None => None,
    }
}

/// What one round of the passive poller came to.
#[derive(Clone, Copy, PartialEq, Eq, Debug, Structural)]
pub enum PollOutcome {
    /// The request went out; the poller goes on.
    Sent,
    /// The session is there but its connection took no frame; the poller
    /// stops.
    SendFailed,
    /// The session is gone and nothing was sent; the poller stops.
    SessionGone,
}

/// The outcome of a round, from whether the session is live and whether its
/// connection accepted the request.
pub open spec fn poll_outcome_of(live: bool, accepted: bool) -> PollOutcome {
    if !live {
        PollOutcome::SessionGone
    } else if accepted {
        PollOutcome::Sent
    } else {
        PollOutcome::SendFailed
    }
}

/// The outcome of a round, from whether the session is live and whether its
/// connection accepted the request.
pub fn poll_outcome(live: bool, accepted: bool) -> (outcome: PollOutcome)
    ensures
        outcome == poll_outcome_of(live, accepted),
{
    if !live {
        PollOutcome::SessionGone
    } else if accepted {
        PollOutcome::Sent
    } else {
        PollOutcome::SendFailed
    }
}

/// Whether the poller runs another round after `outcome`: only after a
/// request that went out.
pub fn poller_continues(outcome: PollOutcome) -> (again: bool)
    ensures
        again == (outcome == PollOutcome::Sent),
{
    match outcome {
        PollOutcome::Sent => true,
        _ => false,
    }
}

/// The frame that asks a device for its passive data.
pub fn passive_data_request() -> (frame: String)
    ensures
        frame@ == "passive_data"@,
{
    "passive_data".to_owned()
}

/// What one round of the passive poller hands out, and to whom: the
/// passive-data request, to the connection of session `server_id`. Without
/// such a session there is nothing to hand out.
pub fn poll_request<'a>(server_state: &'a MainState, server_id: &String) -> (request: Option<
    (&'a UnboundedSender<Message>, String),
>)
    ensures
        request is Some == server_state@.contains(server_id@),
        request matches Some((connection, frame)) ==> *connection
            == server_state@.sessions[server_id@].connection && frame@ == "passive_data"@,
{
    match server_state.lookup_handle(server_id) {
        Some(connection) => Some((connection, passive_data_request())),
        None => None,
    }
}

/// One round of the passive poller, run every
/// [`PASSIVE_DATA_INTERVAL_SECS`] seconds: hands what [`poll_request`]
/// gives to the connection it names. Without a live session nothing is sent
/// and the outcome is `SessionGone`. With it, the outcome is `Sent` or
/// `SendFailed`, as the connection decides.
pub fn request_passive_data_on_interval(server_state: &MainState, server_id: &String) -> (outcome:
    PollOutcome)
    ensures
        outcome == PollOutcome::SessionGone <==> !server_state@.contains(server_id@),
        exists|accepted: bool|
            outcome == poll_outcome_of(server_state@.contains(server_id@), accepted),
{
    match poll_request(server_state, server_id) {
        Some((connection, frame)) => {
            let accepted = send_text(connection, frame);
            assert(poll_outcome_of(true, accepted) == poll_outcome_of(
                server_state@.contains(server_id@),
                accepted,
            ));
            poll_outcome(true, accepted)
        },
        None => {
            assert(poll_outcome_of(false, false) == poll_outcome_of(
                server_state@.contains(server_id@),
                false,
            ));
            poll_outcome(false, false)
        },
    }
}

/// The dispatcher's look at session `id`: where an action waits and none is
/// in flight, the oldest one leaves the queue, the session is marked busy
/// and the action is handed out to be sent. Otherwise nothing changes.
pub fn dispatch_next(server_state: &mut MainState, id: &String) -> (action: Option<HOIActionData>)
    ensures
        action is Some == old(server_state)@.may_dispatch(id@),
        action matches Some(a) ==> a@ == old(server_state)@.sessions[id@].queue[0],
        final(server_state)@ == old(server_state)@.dispatch(id@),
{
    if server_state.pending_actions(id) > 0 && server_state.try_begin_action(id) {
        server_state.dequeue_action(id)
    } else {
        None
    }
}

/// Queues an action for the session it names and lets the dispatcher look at
/// that session. The action is dropped where the session is not live. The
/// answer is the action to send now, if there is one.
pub fn queue_up_action_execution(server_state: &mut MainState, action_data: HOIActionData) -> (next:
    Option<HOIActionData>)
    ensures
        final(server_state)@ == old(server_state)@.enqueue(
            action_data@.server_id,
            action_data@,
        ).dispatch(action_data@.server_id),
        next is Some == old(server_state)@.enqueue(
            action_data@.server_id,
            action_data@,
        ).may_dispatch(action_data@.server_id),
        next matches Some(a) ==> a@ == old(server_state)@.enqueue(
            action_data@.server_id,
            action_data@,
        ).sessions[action_data@.server_id].queue[0],
{
    let id = action_data.server_id.clone();
    server_state.enqueue_action(&id, action_data);
    dispatch_next(server_state, &id)
}

/// Ends the action in flight for session `id` and lets the dispatcher look
/// at the session again. The answer is the action to send now, if there is
/// one.
pub fn finish_action(server_state: &mut MainState, id: &String) -> (next: Option<HOIActionData>)
    ensures
        final(server_state)@ == old(server_state)@.complete(id@).dispatch(id@),
        next is Some == old(server_state)@.complete(id@).may_dispatch(id@),
        next matches Some(a) ==> a@ == old(server_state)@.complete(id@).sessions[id@].queue[0],
{
    server_state.complete_action(id);
    dispatch_next(server_state, id)
}

/// What the relay does with one device frame.
pub struct RelayOutcome {
    /// The event to publish, if the frame calls for one.
    pub event: Option<GeneralMessage>,
    /// The action to send next, if the frame ended one and another waits.
    pub next_action: Option<HOIActionData>,
}

/// Handles one device frame of session `server_id`.
///
/// The event is the one that [`relay_event`] gives for the frame. A frame
/// that reports the outcome of an action also ends the action in flight and
/// lets the dispatcher look at the session again, as [`finish_action`] does:
/// with nothing waiting the session is free, otherwise the oldest waiting
/// action is handed out and the session stays busy. Any other frame leaves
/// the registry as it is.
pub fn route_message(msg: String, server_state: &mut MainState, server_id: String) -> (outcome:
    RelayOutcome)
    ensures
        match outcome.event {
            Some(e) => relay_event(msg@, json_of_text(msg@), server_id@) == Some(e@),
            None => relay_event(msg@, json_of_text(msg@), server_id@) is None,
        },
        is_action_outcome(msg@) ==> {
            &&& final(server_state)@ == old(server_state)@.complete(server_id@).dispatch(
                server_id@,
            )
            &&& outcome.next_action is Some == old(server_state)@.complete(
                server_id@,
            ).may_dispatch(server_id@)
            &&& outcome.next_action matches Some(a) ==> a@ == old(server_state)@.complete(
                server_id@,
            ).sessions[server_id@].queue[0]
        },
        !is_action_outcome(msg@) ==> final(server_state)@ == old(server_state)@
            && outcome.next_action is None,
{
    if text_is(&msg, "success") || text_is(&msg, "issue") {
        let next_action = finish_action(server_state, &server_id);
        let event = classify_frame(msg, None, server_id);
        RelayOutcome { event, next_action }
    } else {
        let document = parse_json(msg.as_str());
        let event = classify_frame(msg, document, server_id);
        RelayOutcome { event, next_action: None }
    }
}

/// After a frame that reports the outcome of an action, at most one action
/// is in flight for the session: with a live session and an empty queue the
/// session is free and nothing is handed out, and with a waiting action the
/// session is busy, the oldest action is the one handed out and the rest of
/// the queue waits in its order.
pub proof fn lemma_outcome_frame_moves_the_queue(registry: RegistryView, id: Seq<char>)
    requires
        registry.contains(id),
    ensures
        registry.sessions[id].queue.len() == 0 ==> {
            &&& !registry.complete(id).may_dispatch(id)
            &&& !registry.complete(id).dispatch(id).sessions[id].in_progress
            &&& registry.complete(id).dispatch(id).sessions[id].queue.len() == 0
        },
        registry.sessions[id].queue.len() > 0 ==> {
            &&& registry.complete(id).may_dispatch(id)
            &&& registry.complete(id).sessions[id].queue[0] == registry.sessions[id].queue[0]
            &&& registry.complete(id).dispatch(id).sessions[id].in_progress
            &&& registry.complete(id).dispatch(id).sessions[id].queue
                == registry.sessions[id].queue.drop_first()
            &&& !registry.complete(id).dispatch(id).may_dispatch(id)
        },
{
}

/// A handshake that reached one of its three final states stays there,
/// whatever happens next.
pub proof fn lemma_final_states_stay(state: HandshakeState, event: HandshakeEventView)
    requires
        state == HandshakeState::Authenticated || state == HandshakeState::Rejected || state
            == HandshakeState::Failed,
    ensures
        handshake_next(state, event) == state,
{
}

/// A handshake becomes authenticated in one way only: while it awaits the
/// reply, by a text frame that reads `success`.
pub proof fn lemma_authenticated_needs_success(state: HandshakeState, event: HandshakeEventView)
    requires
        state != HandshakeState::Authenticated,
        handshake_next(state, event) == HandshakeState::Authenticated,
    ensures
        state == HandshakeState::Authenticating,
        event matches HandshakeEventView::Replied(frame) && is_success_reply(frame),
{
}

/// While a handshake awaits the reply, any reply other than the success
/// frame rejects it, and so do the end of the stream and a reply that does
/// not come in time.
pub proof fn lemma_other_replies_reject(event: HandshakeEventView)
    requires
        event is StreamEnded || event is ReplyTimedOut || (event matches HandshakeEventView::Replied(frame)
            && !is_success_reply(frame)),
    ensures
        handshake_next(HandshakeState::Authenticating, event) == HandshakeState::Rejected,
{
}

/// A frame that reads `success` or `issue` becomes one action response that
/// carries the frame as its payload, whatever else the frame might be read
/// as.
pub proof fn lemma_action_outcome_is_relayed(
    frame: Seq<char>,
    document: Option<JsonValue>,
    server_id: Seq<char>,
)
    requires
        is_action_outcome(frame),
    ensures
        relay_event(frame, document, server_id) == Some(
            GeneralMessageView { category: "action_response"@, data: frame, server_id },
        ),
{
}

/// A frame that is no action outcome becomes an event only where it holds a
/// document with telemetry, and then the event is of the passive-data
/// category and carries the records of the frame.
pub proof fn lemma_only_telemetry_is_relayed(
    frame: Seq<char>,
    document: Option<JsonValue>,
    server_id: Seq<char>,
)
    requires
        !is_action_outcome(frame),
    ensures
        relay_event(frame, document, server_id) is Some <==> (document matches Some(value)
            && telemetry_of_json(value) is Some),
        relay_event(frame, document, server_id) matches Some(event) ==> event.category
            == "passive_data"@ && event.server_id == server_id && event.data == passive_list_text(
            telemetry_of_json(document->0)->0,
        ),
{
}

/// Without a live session a round of the poller sends nothing and stops the
/// poller, and the poller goes on only after a request that went out.
pub proof fn lemma_poller_stops_without_session(live: bool, accepted: bool)
    ensures
        !live ==> poll_outcome_of(live, accepted) == PollOutcome::SessionGone,
        poll_outcome_of(live, accepted) == PollOutcome::Sent <==> live && accepted,
{
}

} // verus!
