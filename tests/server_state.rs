use side_assist::commands::{InputError, InputTask};
use side_assist::pairing::{connect_url, decimal_text, PairingError};
use side_assist::server::{password_from_digits, ServerError, ServerState};
use side_assist::session::SessionError;
use side_assist::settings::{get_current_settings, AppSettings};
use side_assist::types::{ActionType, CustomAction, CustomActionsStorage, ShortcutType};

fn macro_named(id: &str, name: &str) -> CustomAction {
    CustomAction {
        id: id.to_string(),
        name: name.to_string(),
        icon: Some("star".to_string()),
        key_sequence: vec![],
        created_at: 1,
        shortcut_type: ShortcutType::Normal,
    }
}

#[test]
fn new_state_is_stopped_on_the_default_port() {
    let state = ServerState::default();
    let st = state.get_server_status();
    assert!(!st.running);
    assert_eq!(st.port, 8080);
    assert_eq!(st.connected_clients, 0);
}

#[test]
fn port_rules() {
    let mut state = ServerState::new();
    assert_eq!(state.set_port(1023), Err(ServerError::PortTooLow));
    assert_eq!(state.set_port(1024), Ok(()));
    assert_eq!(state.port, 1024);
    state.running = true;
    assert_eq!(state.set_port(3000), Err(ServerError::AlreadyRunning));
    state.operation_in_progress = true;
    assert_eq!(state.set_port(3000), Err(ServerError::OperationInProgress));
    assert_eq!(state.port, 1024);
}

#[test]
fn start_and_stop_sequence() {
    let mut state = ServerState::new();
    assert_eq!(state.begin_stop(), Ok(false));
    assert_eq!(state.begin_start(), Ok(8080));
    assert_eq!(state.begin_start(), Err(ServerError::OperationInProgress));
    state.finish_start(true);
    assert!(state.running);
    assert_eq!(state.begin_start(), Err(ServerError::AlreadyRunning));
    state.record_health_check("phone".to_string(), 10);
    assert_eq!(state.begin_stop(), Ok(true));
    assert!(!state.running);
    assert!(state.connected_clients.is_empty());
    assert_eq!(state.begin_stop(), Err(ServerError::OperationInProgress));
    state.end_operation();
    assert!(!state.operation_in_progress);
}

#[test]
fn failed_bind_leaves_the_server_stopped() {
    let mut state = ServerState::new();
    state.begin_start().unwrap();
    state.finish_start(false);
    assert!(!state.running && !state.operation_in_progress);
}

#[test]
fn one_time_password_has_five_digits_and_expires() {
    let mut state = ServerState::new();
    let p = state.generate_one_time_password(1_000);
    assert_eq!(p.len(), 5);
    assert!(p.chars().all(|c| c.is_ascii_digit()));
    assert_eq!(state.password_expiry, Some(1_300));
    assert_eq!(state.get_current_password(1_299), Some(p.clone()));
    assert_eq!(state.get_current_password(1_300), None);
    assert!(state.check_password(&p, 1_299));
    assert!(!state.check_password(&p, 1_300));
    assert!(!state.check_password(&"x".to_string(), 1_000));
    assert!(state.authorize(&Some(p.clone()), 1_100));
    assert!(!state.authorize(&None, 1_100));
}

#[test]
fn one_time_passwords_are_drawn_at_random() {
    let mut state = ServerState::new();
    let drawn: Vec<String> = (0..6).map(|_| state.generate_one_time_password(0)).collect();
    assert!(drawn.iter().any(|p| p != &drawn[0]));
    assert!(drawn.iter().all(|p| p.len() == 5 && p.chars().all(|c| c.is_ascii_digit())));
}

#[test]
fn password_text_follows_the_digits() {
    assert_eq!(password_from_digits(&vec![0, 4, 9, 1, 7]), "04917");
    assert_eq!(password_from_digits(&vec![]), "");
}

#[test]
fn password_expiry_saturates() {
    let mut state = ServerState::new();
    state.set_one_time_password("12345".to_string(), u64::MAX - 10);
    assert_eq!(state.password_expiry, Some(u64::MAX));
}

#[test]
fn no_password_means_nothing_to_show() {
    let state = ServerState::new();
    assert_eq!(state.get_current_password(0), None);
    assert!(!state.authorize(&Some("12345".to_string()), 0));
}

#[test]
fn health_checks_and_client_timeout() {
    let mut state = ServerState::new();
    assert_eq!(state.record_health_check("a".to_string(), 100), 1);
    assert_eq!(state.record_health_check("b".to_string(), 110), 2);
    assert_eq!(state.record_health_check("a".to_string(), 120), 2);
    assert_eq!(state.cleanup_inactive_clients(125), 0);
    assert_eq!(state.cleanup_inactive_clients(126), 1);
    assert_eq!(state.connected_clients.len(), 1);
    assert_eq!(state.connected_clients[0].id, "a");
    assert_eq!(state.cleanup_inactive_clients(10), 0);
}

#[test]
fn loading_macros_keeps_the_last_of_each_id() {
    let mut state = ServerState::new();
    let n = state.load_custom_actions(vec![macro_named("a", "one"), macro_named("b", "two"), macro_named("a", "three")]);
    assert_eq!(n, 2);
    assert_eq!(state.custom_actions[0].name, "three");
    assert_eq!(state.custom_actions[1].name, "two");
    let all = state.get_all_custom_actions();
    assert_eq!(all.len(), 2);
    assert_eq!(all[0].icon.as_deref(), Some("star"));
    assert_eq!(all[0].created_at, 1);
    assert!(state.find_custom_action(&"b".to_string()).is_some());
    assert!(state.find_custom_action(&"c".to_string()).is_none());
    state.save_custom_action(macro_named("c", "four"));
    assert_eq!(state.custom_actions.len(), 3);
}

#[test]
fn storage_snapshot_is_stamped() {
    let s = CustomActionsStorage::snapshot(vec![macro_named("a", "x")], 77);
    assert_eq!(s.version, 1);
    assert_eq!(s.last_updated, 77);
    assert_eq!(s.actions.len(), 1);
}

#[test]
fn input_requests_are_dispatched() {
    let mut state = ServerState::new();
    state.load_custom_actions(vec![macro_named("first", "F"), macro_named("second", "S")]);
    assert!(matches!(state.handle_input(ActionType::Text { text: "hi".to_string() }), Ok(InputTask::TypeText(t)) if t == "hi"));
    assert!(matches!(state.handle_input(ActionType::Copy), Ok(InputTask::Copy)));
    assert!(matches!(state.handle_input(ActionType::Paste), Ok(InputTask::Paste)));
    assert!(matches!(
        state.handle_input(ActionType::Custom { action_id: "second".to_string() }),
        Ok(InputTask::RunMacro(a)) if a.name == "S"
    ));
    assert!(matches!(
        state.handle_input(ActionType::Custom { action_id: "nope".to_string() }),
        Err(InputError::ActionNotFound(id)) if id == "nope"
    ));
}

fn gesture(action: &str, data: Option<&str>) -> ActionType {
    ActionType::Gesture {
        fingers: 3,
        direction: "up".to_string(),
        action: action.to_string(),
        action_data: data.map(|d| d.to_string()),
    }
}

#[test]
fn gestures_are_dispatched() {
    let mut state = ServerState::new();
    assert!(matches!(state.handle_input(gesture("copy", None)), Ok(InputTask::Copy)));
    assert!(matches!(state.handle_input(gesture("paste", None)), Ok(InputTask::Paste)));
    assert!(matches!(state.handle_input(gesture("text_input", Some("ok"))), Ok(InputTask::TypeText(t)) if t == "ok"));
    assert!(matches!(state.handle_input(gesture("text_input", None)), Err(InputError::MissingGestureText)));
    assert!(matches!(state.handle_input(gesture("custom_action", None)), Err(InputError::NoCustomActions)));
    state.load_custom_actions(vec![macro_named("first", "F"), macro_named("second", "S")]);
    assert!(matches!(state.handle_input(gesture("custom_action", None)), Ok(InputTask::RunMacro(a)) if a.id == "first"));
    assert!(matches!(state.handle_input(gesture("swipe", None)), Err(InputError::UnknownGesture(g)) if g == "swipe"));
}

#[test]
fn prepare_request_opens_a_session_once() {
    let mut state = ServerState::new();
    let req = || ActionType::PrepareRecording {
        action_id: "m1".to_string(),
        name: "Macro".to_string(),
        icon: Some("bolt".to_string()),
        shortcut_type: Some("sequential".to_string()),
    };
    assert!(matches!(
        state.handle_input(req()),
        Ok(InputTask::Prepared { name, shortcut_type: ShortcutType::Sequential }) if name == "Macro"
    ));
    let m = state.recording_modal_info.as_ref().unwrap();
    assert_eq!(m.action_id, "m1");
    assert_eq!(m.name, "Macro");
    assert_eq!(m.icon.as_deref(), Some("bolt"));
    assert!(m.is_visible && !m.is_recording && !m.is_completed);
    assert_eq!(m.start_time, None);
    assert!(m.recorded_keys.is_empty());
    assert_eq!(m.shortcut_type, ShortcutType::Sequential);
    assert!(matches!(state.handle_input(req()), Err(InputError::Session(SessionError::Conflict))));
}

#[test]
fn decimal_text_writes_numbers() {
    assert_eq!(decimal_text(0), "0");
    assert_eq!(decimal_text(7), "7");
    assert_eq!(decimal_text(8080), "8080");
    assert_eq!(decimal_text(u64::MAX), u64::MAX.to_string());
}

#[test]
fn connect_url_strips_spaces_and_breaks() {
    assert_eq!(
        connect_url("192.168.0.2", 8080, "12345"),
        "sideassist://connect?ip=192.168.0.2&port=8080&password=12345"
    );
    assert_eq!(
        connect_url(" 10.0.0.1\n", 1024, "1 2\r3"),
        "sideassist://connect?ip=10.0.0.1&port=1024&password=123"
    );
}

#[test]
fn qr_code_needs_a_live_password_and_an_address() {
    let mut state = ServerState::new();
    assert_eq!(state.generate_qr_code(Some("10.0.0.1"), 0), Err(PairingError::NoPassword));
    state.set_one_time_password("12345".to_string(), 100);
    assert_eq!(state.generate_qr_code(Some("10.0.0.1"), 400), Err(PairingError::PasswordExpired));
    assert_eq!(state.generate_qr_code(None, 150), Err(PairingError::NoLocalAddress));
    let svg = state.generate_qr_code(Some("10.0.0.1"), 150).unwrap();
    assert!(svg.contains("<svg"));
    assert!(svg.contains("#000000"));
    assert_ne!(svg, connect_url("10.0.0.1", 8080, "12345"));
}

#[test]
fn qr_code_of_an_overlong_link_fails() {
    let mut state = ServerState::new();
    state.set_one_time_password("9".repeat(8000), 0);
    assert_eq!(state.generate_qr_code(Some("10.0.0.1"), 1), Err(PairingError::Encoding));
}

#[test]
fn settings_defaults_and_updates() {
    assert!(AppSettings::default().haptics_enabled);
    assert!(get_current_settings(None).haptics_enabled);
    let off = AppSettings { haptics_enabled: false };
    assert_eq!(get_current_settings(Some(&off)), off);
    assert_eq!(off.with_updates(Some(true)), AppSettings { haptics_enabled: true });
    assert_eq!(off.with_updates(None), off);
}
