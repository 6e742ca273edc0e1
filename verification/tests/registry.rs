use futures_channel::mpsc::unbounded;
use futures_channel::mpsc::UnboundedReceiver;
use futures_channel::mpsc::UnboundedSender;
use futures_channel::oneshot;
use hoi_bridge::communication::types::HOIActionData;
use hoi_bridge::communication::types::HouseOfIoTCredentials;
use hoi_bridge::state::state_types::MainState;
use tokio_tungstenite::tungstenite::protocol::Message;

fn credentials(outside_name: &str) -> HouseOfIoTCredentials {
    HouseOfIoTCredentials {
        connection_str: "ws://device.local".to_owned(),
        name_and_type: "bot1:lamp".to_owned(),
        password: "p1".to_owned(),
        admin_password: "root".to_owned(),
        outside_name: outside_name.to_owned(),
    }
}

fn action(server_id: &str, bot_name: &str, name: &str) -> HOIActionData {
    HOIActionData {
        server_id: server_id.to_owned(),
        bot_name: bot_name.to_owned(),
        action: name.to_owned(),
    }
}

fn channel() -> (UnboundedSender<Message>, UnboundedReceiver<Message>) {
    unbounded::<Message>()
}

fn add_session(
    state: &mut MainState,
    id: &str,
) -> (UnboundedReceiver<Message>, oneshot::Receiver<()>) {
    let (tx, rx) = channel();
    let (cancel_tx, cancel_rx) = oneshot::channel::<()>();
    assert!(state.register_with_id(id.to_owned(), credentials("kitchen"), tx, cancel_tx));
    (rx, cancel_rx)
}

#[test]
fn new_registry_has_no_session() {
    let state = MainState::new();
    let id = "a".to_owned();
    assert!(!state.contains(&id));
    assert!(!state.was_issued(&id));
    assert!(state.lookup_handle(&id).is_none());
    assert!(state.credentials_of(&id).is_none());
    assert_eq!(state.pending_actions(&id), 0);
    assert!(!state.is_action_in_progress(&id));
}

#[test]
fn register_installs_every_sub_state_at_once() {
    let mut state = MainState::new();
    let (tx, _rx) = channel();
    let (cancel_tx, _cancel_rx) = oneshot::channel::<()>();
    let id = state.register(credentials("kitchen"), tx, cancel_tx);
    assert!(state.contains(&id));
    assert!(state.was_issued(&id));
    assert!(state.lookup_handle(&id).is_some());
    let stored = state.credentials_of(&id).unwrap();
    assert_eq!(stored.connection_str, "ws://device.local");
    assert_eq!(stored.name_and_type, "bot1:lamp");
    assert_eq!(stored.password, "p1");
    assert_eq!(stored.admin_password, "root");
    assert_eq!(stored.outside_name, "kitchen");
    assert_eq!(state.pending_actions(&id), 0);
    assert!(!state.is_action_in_progress(&id));
}

#[test]
fn register_mints_ids_of_hyphenated_form_that_differ() {
    let mut state = MainState::new();
    let (tx1, _rx1) = channel();
    let (c1, _r1) = oneshot::channel::<()>();
    let (tx2, _rx2) = channel();
    let (c2, _r2) = oneshot::channel::<()>();
    let first = state.register(credentials("kitchen"), tx1, c1);
    let second = state.register(credentials("hall"), tx2, c2);
    assert_eq!(first.len(), 36);
    assert_eq!(second.len(), 36);
    assert_eq!(first.matches('-').count(), 4);
    assert_ne!(first, second);
    assert!(state.contains(&first));
    assert!(state.contains(&second));
    assert_eq!(state.credentials_of(&first).unwrap().outside_name, "kitchen");
    assert_eq!(state.credentials_of(&second).unwrap().outside_name, "hall");
}

#[test]
fn lookup_handle_gives_the_registered_connection() {
    let mut state = MainState::new();
    let (mut rx_a, _ca) = add_session(&mut state, "a");
    let (mut rx_b, _cb) = add_session(&mut state, "b");
    let handle = state.lookup_handle(&"b".to_owned()).unwrap();
    assert!(handle.unbounded_send(Message::text("hello")).is_ok());
    assert!(rx_a.try_recv().is_err());
    assert_eq!(rx_b.try_recv().unwrap().to_string(), "hello");
}

#[test]
fn remove_clears_every_sub_state_and_signals_cancellation() {
    let mut state = MainState::new();
    let (_rx, mut cancel_rx) = add_session(&mut state, "a");
    let id = "a".to_owned();
    state.enqueue_action(&id, action("a", "lamp", "on"));
    assert!(state.try_begin_action(&id));
    assert_eq!(cancel_rx.try_recv(), Ok(None));
    assert!(state.remove(&id));
    assert_eq!(cancel_rx.try_recv(), Ok(Some(())));
    assert!(!state.contains(&id));
    assert!(state.lookup_handle(&id).is_none());
    assert!(state.credentials_of(&id).is_none());
    assert_eq!(state.pending_actions(&id), 0);
    assert!(!state.is_action_in_progress(&id));
    assert!(!state.try_begin_action(&id));
    assert!(state.dequeue_action(&id).is_none());
}

#[test]
fn remove_leaves_other_sessions_alone() {
    let mut state = MainState::new();
    let (_rx_a, _ca) = add_session(&mut state, "a");
    let (_rx_b, mut cancel_b) = add_session(&mut state, "b");
    let (_rx_c, _cc) = add_session(&mut state, "c");
    state.enqueue_action(&"b".to_owned(), action("b", "lamp", "on"));
    assert!(state.remove(&"a".to_owned()));
    assert!(state.contains(&"b".to_owned()));
    assert!(state.contains(&"c".to_owned()));
    assert_eq!(state.pending_actions(&"b".to_owned()), 1);
    assert_eq!(cancel_b.try_recv(), Ok(None));
}

#[test]
fn remove_of_unknown_id_changes_nothing() {
    let mut state = MainState::new();
    let (_rx, mut cancel_rx) = add_session(&mut state, "a");
    assert!(!state.remove(&"zzz".to_owned()));
    assert!(state.contains(&"a".to_owned()));
    assert!(!state.was_issued(&"zzz".to_owned()));
    assert_eq!(cancel_rx.try_recv(), Ok(None));
}

#[test]
fn an_id_is_never_registered_twice() {
    let mut state = MainState::new();
    let (_rx, _cancel) = add_session(&mut state, "a");
    let (tx, _rx2) = channel();
    let (cancel_tx, _cancel_rx) = oneshot::channel::<()>();
    assert!(!state.register_with_id("a".to_owned(), credentials("hall"), tx, cancel_tx));
    assert_eq!(state.credentials_of(&"a".to_owned()).unwrap().outside_name, "kitchen");
    assert!(state.remove(&"a".to_owned()));
    assert!(state.was_issued(&"a".to_owned()));
    let (tx, _rx3) = channel();
    let (cancel_tx, _cancel_rx) = oneshot::channel::<()>();
    assert!(!state.register_with_id("a".to_owned(), credentials("hall"), tx, cancel_tx));
    assert!(!state.contains(&"a".to_owned()));
}

#[test]
fn try_begin_action_lets_exactly_one_caller_through() {
    let mut state = MainState::new();
    let (_rx, _cancel) = add_session(&mut state, "a");
    let id = "a".to_owned();
    let mut begun = 0;
    for _ in 0..10 {
        if state.try_begin_action(&id) {
            begun += 1;
        }
    }
    assert_eq!(begun, 1);
    assert!(state.is_action_in_progress(&id));
    state.complete_action(&id);
    assert!(!state.is_action_in_progress(&id));
    assert!(state.try_begin_action(&id));
    assert!(!state.try_begin_action(&id));
}

#[test]
fn try_begin_action_is_per_session() {
    let mut state = MainState::new();
    let (_rx_a, _ca) = add_session(&mut state, "a");
    let (_rx_b, _cb) = add_session(&mut state, "b");
    assert!(state.try_begin_action(&"a".to_owned()));
    assert!(state.try_begin_action(&"b".to_owned()));
    assert!(!state.try_begin_action(&"a".to_owned()));
    state.complete_action(&"a".to_owned());
    assert!(state.is_action_in_progress(&"b".to_owned()));
    assert!(!state.is_action_in_progress(&"a".to_owned()));
}

#[test]
fn try_begin_action_fails_without_session() {
    let mut state = MainState::new();
    assert!(!state.try_begin_action(&"a".to_owned()));
    state.complete_action(&"a".to_owned());
    assert!(!state.contains(&"a".to_owned()));
}

#[test]
fn actions_leave_the_queue_in_the_order_they_came() {
    let mut state = MainState::new();
    let (_rx, _cancel) = add_session(&mut state, "a");
    let id = "a".to_owned();
    state.enqueue_action(&id, action("a", "lamp", "on"));
    state.enqueue_action(&id, action("a", "fan", "off"));
    state.enqueue_action(&id, action("a", "door", "lock"));
    assert_eq!(state.pending_actions(&id), 3);
    let first = state.dequeue_action(&id).unwrap();
    assert_eq!((first.bot_name.as_str(), first.action.as_str()), ("lamp", "on"));
    assert_eq!(first.server_id, "a");
    let second = state.dequeue_action(&id).unwrap();
    assert_eq!((second.bot_name.as_str(), second.action.as_str()), ("fan", "off"));
    let third = state.dequeue_action(&id).unwrap();
    assert_eq!((third.bot_name.as_str(), third.action.as_str()), ("door", "lock"));
    assert_eq!(state.pending_actions(&id), 0);
    assert!(state.dequeue_action(&id).is_none());
    assert_eq!(state.pending_actions(&id), 0);
}

#[test]
fn enqueue_for_an_absent_session_drops_the_action() {
    let mut state = MainState::new();
    let (_rx, _cancel) = add_session(&mut state, "a");
    state.enqueue_action(&"b".to_owned(), action("b", "lamp", "on"));
    assert_eq!(state.pending_actions(&"b".to_owned()), 0);
    assert_eq!(state.pending_actions(&"a".to_owned()), 0);
    assert!(!state.contains(&"b".to_owned()));
}

#[test]
fn queues_are_per_session() {
    let mut state = MainState::new();
    let (_rx_a, _ca) = add_session(&mut state, "a");
    let (_rx_b, _cb) = add_session(&mut state, "b");
    state.enqueue_action(&"a".to_owned(), action("a", "lamp", "on"));
    state.enqueue_action(&"b".to_owned(), action("b", "fan", "off"));
    state.enqueue_action(&"a".to_owned(), action("a", "door", "lock"));
    assert_eq!(state.pending_actions(&"a".to_owned()), 2);
    assert_eq!(state.pending_actions(&"b".to_owned()), 1);
    assert_eq!(state.dequeue_action(&"b".to_owned()).unwrap().bot_name, "fan");
    assert_eq!(state.dequeue_action(&"a".to_owned()).unwrap().bot_name, "lamp");
    assert_eq!(state.dequeue_action(&"a".to_owned()).unwrap().bot_name, "door");
}

#[test]
fn cloned_records_keep_their_fields() {
    let c = credentials("kitchen").clone();
    assert_eq!(c.connection_str, "ws://device.local");
    assert_eq!(c.name_and_type, "bot1:lamp");
    assert_eq!(c.password, "p1");
    assert_eq!(c.admin_password, "root");
    assert_eq!(c.outside_name, "kitchen");
    let a = action("a", "lamp", "on").clone();
    assert_eq!(a.server_id, "a");
    assert_eq!(a.bot_name, "lamp");
    assert_eq!(a.action, "on");
}

#[test]
fn unused_id_appends_as_few_zeros_as_will_do() {
    let mut state = MainState::new();
    assert_eq!(state.unused_id("a".to_owned()), "a");
    let (_rx_a, _ca) = add_session(&mut state, "a");
    assert_eq!(state.unused_id("a".to_owned()), "a0");
    assert_eq!(state.unused_id("b".to_owned()), "b");
    assert_eq!(state.unused_id(String::new()), "");
    let (_rx_b, _cb) = add_session(&mut state, "a0");
    let (_rx_c, _cc) = add_session(&mut state, "a000");
    assert_eq!(state.unused_id("a".to_owned()), "a00");
    assert_eq!(state.unused_id("a0".to_owned()), "a00");
    assert_eq!(state.unused_id("a00".to_owned()), "a00");
    assert_eq!(state.unused_id("a000".to_owned()), "a0000");
    assert!(state.remove(&"a".to_owned()));
    assert_eq!(state.unused_id("a".to_owned()), "a00");
}

#[test]
fn fresh_session_ids_are_unused_and_change_nothing() {
    let mut state = MainState::new();
    let (_rx, _cancel) = add_session(&mut state, "a");
    let first = state.fresh_session_id();
    let second = state.fresh_session_id();
    assert_eq!(first.len(), 36);
    assert_ne!(first, second);
    assert!(!state.was_issued(&first));
    assert!(!state.contains(&first));
    assert!(state.contains(&"a".to_owned()));
}

#[test]
fn register_always_installs_a_session() {
    let mut state = MainState::new();
    let mut ids = Vec::new();
    for _ in 0..20 {
        let (tx, _rx) = channel();
        let (cancel_tx, _cancel_rx) = oneshot::channel::<()>();
        let id = state.register(credentials("kitchen"), tx, cancel_tx);
        assert!(!ids.contains(&id));
        assert!(state.contains(&id));
        assert!(state.lookup_handle(&id).is_some());
        ids.push(id);
    }
    for id in &ids {
        assert!(state.contains(id));
    }
}
