use futures_channel::mpsc::unbounded;
use futures_channel::mpsc::UnboundedReceiver;
use futures_channel::oneshot;
use hoi_bridge::communication::codec::encode_passive_list;
use hoi_bridge::communication::json::parse_json;
use hoi_bridge::communication::types::HOIActionData;
use hoi_bridge::communication::types::HOIBasicPassiveSingle;
use hoi_bridge::communication::types::GeneralMessage;
use hoi_bridge::communication::types::HouseOfIoTCredentials;
use hoi_bridge::integration::house_of_iot::classify_frame;
use hoi_bridge::integration::house_of_iot::dispatch_next;
use hoi_bridge::integration::house_of_iot::finish_action;
use hoi_bridge::integration::house_of_iot::passive_data_request;
use hoi_bridge::integration::house_of_iot::poll_outcome;
use hoi_bridge::integration::house_of_iot::poll_request;
use hoi_bridge::integration::house_of_iot::poller_continues;
use hoi_bridge::integration::house_of_iot::queue_up_action_execution;
use hoi_bridge::integration::house_of_iot::request_passive_data_on_interval;
use hoi_bridge::integration::house_of_iot::route_message;
use hoi_bridge::integration::house_of_iot::PollOutcome;
use hoi_bridge::integration::house_of_iot::PASSIVE_DATA_INTERVAL_SECS;
use hoi_bridge::state::state_types::MainState;
use tokio_tungstenite::tungstenite::protocol::Message;

fn credentials() -> HouseOfIoTCredentials {
    HouseOfIoTCredentials {
        connection_str: "ws://device.local".to_owned(),
        name_and_type: "bot1:lamp".to_owned(),
        password: "p1".to_owned(),
        admin_password: "root".to_owned(),
        outside_name: "kitchen".to_owned(),
    }
}

fn action(server_id: &str, bot_name: &str, name: &str) -> HOIActionData {
    HOIActionData {
        server_id: server_id.to_owned(),
        bot_name: bot_name.to_owned(),
        action: name.to_owned(),
    }
}

fn relay(msg: &str, server_id: &str) -> Option<GeneralMessage> {
    let mut state = MainState::new();
    let outcome = route_message(msg.to_owned(), &mut state, server_id.to_owned());
    assert!(outcome.next_action.is_none());
    outcome.event
}

fn add_session(
    state: &mut MainState,
    id: &str,
) -> (UnboundedReceiver<Message>, oneshot::Receiver<()>) {
    let (tx, rx) = unbounded::<Message>();
    let (cancel_tx, cancel_rx) = oneshot::channel::<()>();
    assert!(state.register_with_id(id.to_owned(), credentials(), tx, cancel_tx));
    (rx, cancel_rx)
}

#[test]
fn issue_frame_becomes_one_action_response() {
    let event = relay("issue", "s1").unwrap();
    assert_eq!(event.category, "action_response");
    assert_eq!(event.data, "issue");
    assert_eq!(event.server_id, "s1");
}

#[test]
fn success_frame_becomes_one_action_response() {
    let event = relay("success", "s1").unwrap();
    assert_eq!(event.category, "action_response");
    assert_eq!(event.data, "success");
    assert_eq!(event.server_id, "s1");
}

#[test]
fn telemetry_frame_becomes_passive_data_that_reads_back_the_same() {
    let array = "[{\"active_status\":true,\"device_name\":\"lamp\",\"device_type\":\"light\"},{\"active_status\":false,\"device_name\":\"fan\",\"device_type\":\"motor\"}]";
    let frame = format!("{{\"bots\":{}}}", array);
    let event = relay(&frame, "s1").unwrap();
    assert_eq!(event.category, "passive_data");
    assert_eq!(event.server_id, "s1");
    assert_eq!(event.data, array);
    let expected = serde_json::from_str::<serde_json::Value>(array).unwrap();
    let relayed = serde_json::from_str::<serde_json::Value>(&event.data).unwrap();
    assert_eq!(relayed, expected);
}

#[test]
fn telemetry_with_awkward_names_reads_back_the_same() {
    let array = "[{\"active_status\":true,\"device_name\":\"a \\\"quoted\\\" \\\\ name\\n\\u00e9\\u0001\",\"device_type\":\"\",\"extra\":[1,2]}]";
    let frame = format!("{{\"bots\":{},\"more\":1}}", array);
    let event = relay(&frame, "s1").unwrap();
    assert_eq!(event.category, "passive_data");
    let relayed = serde_json::from_str::<serde_json::Value>(&event.data).unwrap();
    let items = relayed.as_array().unwrap();
    assert_eq!(items.len(), 1);
    assert_eq!(items[0]["active_status"], serde_json::Value::Bool(true));
    assert_eq!(
        items[0]["device_name"],
        serde_json::Value::String("a \"quoted\" \\ name\n\u{e9}\u{1}".to_owned())
    );
    assert_eq!(items[0]["device_type"], serde_json::Value::String(String::new()));
    assert_eq!(items[0].as_object().unwrap().len(), 3);
}

#[test]
fn empty_telemetry_list_is_relayed_as_empty_array() {
    let event = relay("{\"bots\":[]}", "s1").unwrap();
    assert_eq!(event.category, "passive_data");
    assert_eq!(event.data, "[]");
}

#[test]
fn frames_that_are_neither_outcome_nor_telemetry_are_dropped() {
    let dropped = [
        "",
        "hello",
        "Success",
        "issue ",
        "{",
        "null",
        "42",
        "\"success\"",
        "[]",
        "[{\"active_status\":true,\"device_name\":\"lamp\",\"device_type\":\"light\"}]",
        "{}",
        "{\"other\":[]}",
        "{\"bots\":null}",
        "{\"bots\":{}}",
        "{\"bots\":\"x\"}",
        "{\"bots\":3}",
        "{\"bots\":[1]}",
        "{\"bots\":[{\"active_status\":\"yes\",\"device_name\":\"lamp\",\"device_type\":\"light\"}]}",
        "{\"bots\":[{\"active_status\":true,\"device_name\":7,\"device_type\":\"light\"}]}",
        "{\"bots\":[{\"active_status\":true,\"device_name\":\"lamp\"}]}",
        "{\"bots\":[{\"active_status\":true,\"device_name\":\"lamp\",\"device_type\":\"light\"},{}]}",
    ];
    for frame in dropped {
        assert!(relay(frame, "s1").is_none(), "{}", frame);
    }
}

#[test]
fn classify_frame_goes_by_the_document_it_is_given() {
    let document = parse_json("{\"bots\":[{\"active_status\":false,\"device_name\":\"d\",\"device_type\":\"t\"}]}");
    assert!(document.is_some());
    let event = classify_frame("whatever".to_owned(), document, "s9".to_owned()).unwrap();
    assert_eq!(event.category, "passive_data");
    assert_eq!(event.data, "[{\"active_status\":false,\"device_name\":\"d\",\"device_type\":\"t\"}]");
    assert_eq!(event.server_id, "s9");
    assert!(classify_frame("whatever".to_owned(), None, "s9".to_owned()).is_none());
    let document = parse_json("{\"bots\":[]}");
    let event = classify_frame("issue".to_owned(), document, "s9".to_owned()).unwrap();
    assert_eq!(event.category, "action_response");
    assert_eq!(event.data, "issue");
}

#[test]
fn encode_passive_list_writes_a_json_array() {
    let records = vec![
        HOIBasicPassiveSingle {
            active_status: true,
            device_name: "lamp".to_owned(),
            device_type: "light".to_owned(),
        },
        HOIBasicPassiveSingle {
            active_status: false,
            device_name: "fan".to_owned(),
            device_type: "motor".to_owned(),
        },
        HOIBasicPassiveSingle {
            active_status: false,
            device_name: "\"".to_owned(),
            device_type: "\\".to_owned(),
        },
    ];
    assert_eq!(
        encode_passive_list(&records),
        "[{\"active_status\":true,\"device_name\":\"lamp\",\"device_type\":\"light\"},{\"active_status\":false,\"device_name\":\"fan\",\"device_type\":\"motor\"},{\"active_status\":false,\"device_name\":\"\\\"\",\"device_type\":\"\\\\\"}]"
    );
    assert_eq!(encode_passive_list(&Vec::new()), "[]");
}

#[test]
fn poller_sends_one_request_per_round_while_the_session_lives() {
    assert_eq!(PASSIVE_DATA_INTERVAL_SECS, 5);
    assert_eq!(passive_data_request(), "passive_data");
    let mut state = MainState::new();
    let (mut rx, _cancel) = add_session(&mut state, "a");
    let id = "a".to_owned();
    for _ in 0..3 {
        let outcome = request_passive_data_on_interval(&state, &id);
        assert_eq!(outcome, PollOutcome::Sent);
        assert!(poller_continues(outcome));
        let message = rx.try_recv().unwrap();
        assert!(message.is_text());
        assert_eq!(message.to_string(), "passive_data");
        assert!(rx.try_recv().is_err());
    }
    assert!(state.remove(&id));
    let outcome = request_passive_data_on_interval(&state, &id);
    assert_eq!(outcome, PollOutcome::SessionGone);
    assert!(!poller_continues(outcome));
    assert!(rx.try_recv().is_err());
}

#[test]
fn poller_stops_when_the_connection_takes_no_frame() {
    let mut state = MainState::new();
    let (rx, _cancel) = add_session(&mut state, "a");
    drop(rx);
    let outcome = request_passive_data_on_interval(&state, &"a".to_owned());
    assert_eq!(outcome, PollOutcome::SendFailed);
    assert!(!poller_continues(outcome));
}

#[test]
fn poller_only_touches_its_own_session() {
    let mut state = MainState::new();
    let (mut rx_a, _ca) = add_session(&mut state, "a");
    let (mut rx_b, _cb) = add_session(&mut state, "b");
    assert_eq!(request_passive_data_on_interval(&state, &"b".to_owned()), PollOutcome::Sent);
    assert!(rx_a.try_recv().is_err());
    assert_eq!(rx_b.try_recv().unwrap().to_string(), "passive_data");
}

#[test]
fn poll_outcome_table() {
    assert_eq!(poll_outcome(true, true), PollOutcome::Sent);
    assert_eq!(poll_outcome(true, false), PollOutcome::SendFailed);
    assert_eq!(poll_outcome(false, true), PollOutcome::SessionGone);
    assert_eq!(poll_outcome(false, false), PollOutcome::SessionGone);
}

#[test]
fn dispatcher_runs_one_action_at_a_time_in_order() {
    let mut state = MainState::new();
    let (_rx, _cancel) = add_session(&mut state, "a");
    let id = "a".to_owned();
    assert!(dispatch_next(&mut state, &id).is_none());
    assert!(!state.is_action_in_progress(&id));
    let first = queue_up_action_execution(&mut state, action("a", "lamp", "on")).unwrap();
    assert_eq!(first.bot_name, "lamp");
    assert!(state.is_action_in_progress(&id));
    assert!(queue_up_action_execution(&mut state, action("a", "fan", "off")).is_none());
    assert!(queue_up_action_execution(&mut state, action("a", "door", "lock")).is_none());
    assert_eq!(state.pending_actions(&id), 2);
    assert!(dispatch_next(&mut state, &id).is_none());
    let second = finish_action(&mut state, &id).unwrap();
    assert_eq!(second.bot_name, "fan");
    assert!(state.is_action_in_progress(&id));
    let third = finish_action(&mut state, &id).unwrap();
    assert_eq!(third.bot_name, "door");
    assert!(finish_action(&mut state, &id).is_none());
    assert!(!state.is_action_in_progress(&id));
    assert_eq!(state.pending_actions(&id), 0);
}

#[test]
fn action_for_an_absent_session_is_dropped() {
    let mut state = MainState::new();
    let (_rx, _cancel) = add_session(&mut state, "a");
    assert!(queue_up_action_execution(&mut state, action("ghost", "lamp", "on")).is_none());
    assert!(!state.contains(&"ghost".to_owned()));
    assert_eq!(state.pending_actions(&"a".to_owned()), 0);
    assert!(finish_action(&mut state, &"ghost".to_owned()).is_none());
}

#[test]
fn outcome_frame_ends_the_action_in_flight_and_hands_out_the_next() {
    let mut state = MainState::new();
    let (_rx, _cancel) = add_session(&mut state, "a");
    let id = "a".to_owned();
    assert!(queue_up_action_execution(&mut state, action("a", "lamp", "on")).is_some());
    assert!(queue_up_action_execution(&mut state, action("a", "fan", "off")).is_none());
    let telemetry = route_message("{\"bots\":[]}".to_owned(), &mut state, id.clone());
    assert_eq!(telemetry.event.unwrap().category, "passive_data");
    assert!(telemetry.next_action.is_none());
    assert!(state.is_action_in_progress(&id));
    assert_eq!(state.pending_actions(&id), 1);
    let noise = route_message("noise".to_owned(), &mut state, id.clone());
    assert!(noise.event.is_none());
    assert!(noise.next_action.is_none());
    assert!(state.is_action_in_progress(&id));
    let outcome = route_message("success".to_owned(), &mut state, id.clone());
    let event = outcome.event.unwrap();
    assert_eq!(event.category, "action_response");
    assert_eq!(event.data, "success");
    assert_eq!(event.server_id, "a");
    assert_eq!(outcome.next_action.unwrap().bot_name, "fan");
    assert!(state.is_action_in_progress(&id));
    let last = route_message("issue".to_owned(), &mut state, id.clone());
    assert_eq!(last.event.unwrap().data, "issue");
    assert!(last.next_action.is_none());
    assert!(!state.is_action_in_progress(&id));
}

#[test]
fn outcome_frame_for_a_free_session_changes_nothing_but_is_relayed() {
    let mut state = MainState::new();
    let (_rx, _cancel) = add_session(&mut state, "a");
    let id = "a".to_owned();
    let outcome = route_message("success".to_owned(), &mut state, id.clone());
    assert_eq!(outcome.event.unwrap().category, "action_response");
    assert!(outcome.next_action.is_none());
    assert!(!state.is_action_in_progress(&id));
    state.enqueue_action(&id, action("a", "lamp", "on"));
    let outcome = route_message("issue".to_owned(), &mut state, id.clone());
    assert_eq!(outcome.next_action.unwrap().bot_name, "lamp");
    assert!(state.is_action_in_progress(&id));
    assert_eq!(state.pending_actions(&id), 0);
}

#[test]
fn outcome_frame_of_an_unregistered_session_is_relayed_and_changes_nothing() {
    let mut state = MainState::new();
    let (_rx, _cancel) = add_session(&mut state, "a");
    state.enqueue_action(&"a".to_owned(), action("a", "lamp", "on"));
    let outcome = route_message("success".to_owned(), &mut state, "ghost".to_owned());
    let event = outcome.event.unwrap();
    assert_eq!(event.server_id, "ghost");
    assert!(outcome.next_action.is_none());
    assert!(!state.contains(&"ghost".to_owned()));
    assert_eq!(state.pending_actions(&"a".to_owned()), 1);
    assert!(!state.is_action_in_progress(&"a".to_owned()));
}

#[test]
fn poll_request_names_the_frame_and_the_connection_of_the_session() {
    let mut state = MainState::new();
    let (mut rx_a, _ca) = add_session(&mut state, "a");
    let (mut rx_b, _cb) = add_session(&mut state, "b");
    assert!(poll_request(&state, &"ghost".to_owned()).is_none());
    let (connection, frame) = poll_request(&state, &"b".to_owned()).unwrap();
    assert_eq!(frame, "passive_data");
    assert!(connection.unbounded_send(Message::text(frame)).is_ok());
    assert!(rx_a.try_recv().is_err());
    assert_eq!(rx_b.try_recv().unwrap().to_string(), "passive_data");
    assert!(state.remove(&"b".to_owned()));
    assert!(poll_request(&state, &"b".to_owned()).is_none());
}
