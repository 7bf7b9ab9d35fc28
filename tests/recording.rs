use side_assist::hook::{Capture, KeyHook};
use side_assist::keys::{KeyCode, KeyPhase};
use side_assist::replay::{KeyAction, ReplayRun};
use side_assist::server::ServerState;
use side_assist::session::{
    clear_recording_modal, route_key_event, start_recording, stop_recording, sync_to_main_state, SessionError,
    SessionPhase,
};
use side_assist::types::{update_modifier_state, KeyModifiers, RecordedKey, ShortcutType};

fn capturing(mode: ShortcutType, start: u64) -> KeyHook {
    let mut hook = KeyHook::new();
    hook.begin(start, mode).unwrap();
    hook
}

fn prepared(id: &str, kind: Option<&str>) -> ServerState {
    let mut state = ServerState::new();
    state
        .prepare_recording(id.to_string(), format!("macro {}", id), None, &kind.map(|k| k.to_string()))
        .unwrap();
    state
}

#[test]
fn two_presses_within_debounce_window_record_one_event() {
    let mut hook = capturing(ShortcutType::Normal, 1_000);
    assert!(hook.on_event(KeyCode::KeyA, KeyPhase::Press, 1_000));
    assert!(!hook.on_event(KeyCode::KeyA, KeyPhase::Press, 1_199));
    assert_eq!(hook.recorded_keys.len(), 1);
}

#[test]
fn two_presses_a_debounce_window_apart_record_two_events() {
    let mut hook = capturing(ShortcutType::Normal, 1_000);
    assert!(hook.on_event(KeyCode::KeyA, KeyPhase::Press, 1_000));
    assert!(hook.on_event(KeyCode::KeyA, KeyPhase::Press, 1_200));
    assert_eq!(hook.recorded_keys.len(), 2);
    assert_eq!(hook.recorded_keys[1].timestamp, 200);
}

#[test]
fn different_keys_are_not_debounced() {
    let mut hook = capturing(ShortcutType::Normal, 0);
    assert!(hook.on_event(KeyCode::KeyA, KeyPhase::Press, 10));
    assert!(hook.on_event(KeyCode::KeyB, KeyPhase::Press, 20));
    assert!(hook.on_event(KeyCode::KeyA, KeyPhase::Press, 30));
    assert_eq!(hook.recorded_keys.len(), 3);
}

#[test]
fn press_and_release_of_a_modifier_are_debounced_separately() {
    let mut hook = capturing(ShortcutType::Normal, 0);
    assert!(hook.on_event(KeyCode::ControlLeft, KeyPhase::Press, 10));
    assert!(hook.on_event(KeyCode::ControlLeft, KeyPhase::Release, 20));
    assert_eq!(hook.recorded_keys.len(), 2);
    assert_eq!(hook.recorded_keys[1].event_type, "release");
}

#[test]
fn events_without_a_recording_are_discarded() {
    let mut hook = KeyHook::new();
    assert!(!hook.on_event(KeyCode::ControlLeft, KeyPhase::Press, 10));
    assert!(hook.recorded_keys.is_empty());
    assert!(!hook.modifiers.ctrl);
}

#[test]
fn normal_recording_keeps_modifier_releases_only() {
    let mut hook = capturing(ShortcutType::Normal, 0);
    assert!(hook.on_event(KeyCode::ControlLeft, KeyPhase::Press, 0));
    assert!(hook.on_event(KeyCode::KeyC, KeyPhase::Press, 300));
    assert!(!hook.on_event(KeyCode::KeyC, KeyPhase::Release, 400));
    assert!(hook.on_event(KeyCode::ControlLeft, KeyPhase::Release, 500));
    let names: Vec<(String, String)> =
        hook.recorded_keys.iter().map(|k| (k.key.clone(), k.event_type.clone())).collect();
    assert_eq!(
        names,
        vec![
            ("ControlLeft".to_string(), "press".to_string()),
            ("KeyC".to_string(), "press".to_string()),
            ("ControlLeft".to_string(), "release".to_string()),
        ]
    );
}

#[test]
fn sequential_recording_keeps_presses_and_releases() {
    let mut hook = capturing(ShortcutType::Sequential, 0);
    assert!(hook.on_event(KeyCode::Alt, KeyPhase::Press, 0));
    assert!(hook.on_event(KeyCode::KeyH, KeyPhase::Press, 300));
    assert!(hook.on_event(KeyCode::KeyH, KeyPhase::Release, 400));
    assert!(hook.on_event(KeyCode::Alt, KeyPhase::Release, 500));
    let names: Vec<(String, String)> =
        hook.recorded_keys.iter().map(|k| (k.key.clone(), k.event_type.clone())).collect();
    assert_eq!(
        names,
        vec![
            ("Alt".to_string(), "press".to_string()),
            ("KeyH".to_string(), "press".to_string()),
            ("KeyH".to_string(), "release".to_string()),
            ("Alt".to_string(), "release".to_string()),
        ]
    );
    assert!(!hook.modifiers.alt);
}

#[test]
fn sequential_recording_replays_as_recorded() {
    let mut state = prepared("chain", Some("sequential"));
    let mut hook = KeyHook::new();
    start_recording(&mut state, &mut hook, "Sequential", 1_000).unwrap();
    route_key_event(&mut hook, &mut state, KeyCode::Alt, KeyPhase::Press, 1_000);
    route_key_event(&mut hook, &mut state, KeyCode::KeyH, KeyPhase::Press, 1_040);
    route_key_event(&mut hook, &mut state, KeyCode::KeyH, KeyPhase::Release, 1_090);
    route_key_event(&mut hook, &mut state, KeyCode::Alt, KeyPhase::Release, 1_400);
    let action = stop_recording(&mut state, &mut hook, 2_000).unwrap();
    let mut run = ReplayRun::new(&action);
    let mut steps = Vec::new();
    while let Some(s) = run.next_step() {
        steps.push(s);
    }
    assert_eq!(
        steps,
        vec![
            KeyAction::Pause(200),
            KeyAction::Press(KeyCode::Alt),
            KeyAction::Pause(40),
            KeyAction::Press(KeyCode::KeyH),
            KeyAction::Pause(50),
            KeyAction::Release(KeyCode::KeyH),
            KeyAction::Pause(100),
            KeyAction::Release(KeyCode::Alt),
        ]
    );
    assert!(run.held_modifiers().is_empty());
}

#[test]
fn events_carry_the_modifier_state_after_the_event() {
    let mut hook = capturing(ShortcutType::Normal, 100);
    hook.on_event(KeyCode::ShiftLeft, KeyPhase::Press, 100);
    hook.on_event(KeyCode::KeyA, KeyPhase::Press, 150);
    hook.on_event(KeyCode::ShiftLeft, KeyPhase::Release, 160);
    assert!(hook.recorded_keys[0].modifiers.shift);
    assert!(hook.recorded_keys[1].modifiers.shift);
    assert_eq!(hook.recorded_keys[1].timestamp, 50);
    assert!(!hook.recorded_keys[2].modifiers.shift);
    assert_eq!(hook.recorded_keys[2].modifiers, KeyModifiers::default());
}

#[test]
fn timestamps_never_go_down() {
    let mut hook = capturing(ShortcutType::Normal, 1_000);
    hook.on_event(KeyCode::KeyA, KeyPhase::Press, 1_500);
    hook.on_event(KeyCode::KeyB, KeyPhase::Press, 1_200);
    hook.on_event(KeyCode::KeyC, KeyPhase::Press, 900);
    let stamps: Vec<u64> = hook.recorded_keys.iter().map(|k| k.timestamp).collect();
    assert_eq!(stamps, vec![500, 500, 500]);
}

#[test]
fn hook_refuses_a_second_recording() {
    let mut hook = capturing(ShortcutType::Normal, 0);
    assert_eq!(hook.begin(5, ShortcutType::Sequential), Err(SessionError::Conflict));
    assert_eq!(hook.capture, Some(Capture { start_time: 0, shortcut_type: ShortcutType::Normal }));
}

#[test]
fn modifier_state_follows_each_class() {
    let mut m = KeyModifiers::default();
    update_modifier_state(&mut m, KeyCode::AltGr, true);
    update_modifier_state(&mut m, KeyCode::MetaRight, true);
    update_modifier_state(&mut m, KeyCode::KeyA, true);
    assert_eq!(m, KeyModifiers { alt: true, ctrl: false, shift: false, meta: true });
    update_modifier_state(&mut m, KeyCode::Alt, false);
    assert_eq!(m, KeyModifiers { alt: false, ctrl: false, shift: false, meta: true });
}

#[test]
fn start_while_recording_is_a_conflict_and_changes_nothing() {
    let mut state = prepared("a1", None);
    let mut hook = KeyHook::new();
    start_recording(&mut state, &mut hook, "Normal", 1_000).unwrap();
    route_key_event(&mut hook, &mut state, KeyCode::KeyA, KeyPhase::Press, 1_050);
    assert_eq!(start_recording(&mut state, &mut hook, "Sequential", 2_000), Err(SessionError::Conflict));
    let m = state.recording_modal_info.as_ref().unwrap();
    assert!(m.is_recording);
    assert_eq!(m.start_time, Some(1_000));
    assert_eq!(m.shortcut_type, ShortcutType::Normal);
    assert_eq!(m.recorded_keys.len(), 1);
    assert_eq!(hook.capture, Some(Capture { start_time: 1_000, shortcut_type: ShortcutType::Normal }));
    assert_eq!(hook.recorded_keys.len(), 1);
}

#[test]
fn stop_before_start_fails_and_leaves_the_hook_alone() {
    let mut state = prepared("a1", None);
    let mut hook = capturing(ShortcutType::Sequential, 7);
    hook.on_event(KeyCode::KeyQ, KeyPhase::Press, 9);
    assert_eq!(stop_recording(&mut state, &mut hook, 100).err(), Some(SessionError::NotRecording));
    assert_eq!(hook.capture, Some(Capture { start_time: 7, shortcut_type: ShortcutType::Sequential }));
    assert_eq!(hook.recorded_keys.len(), 1);
    assert_eq!(state.get_recording_status().status, SessionPhase::Preparing);
    assert!(state.custom_actions.is_empty());
}

#[test]
fn start_without_session_fails() {
    let mut state = ServerState::new();
    let mut hook = KeyHook::new();
    assert_eq!(start_recording(&mut state, &mut hook, "Normal", 0), Err(SessionError::NoSession));
    assert_eq!(stop_recording(&mut state, &mut hook, 0).err(), Some(SessionError::NoSession));
    assert!(hook.capture.is_none());
}

#[test]
fn a_full_recording_is_saved_as_a_macro() {
    let mut state = prepared("copy-it", Some("sequential"));
    let mut hook = KeyHook::new();
    start_recording(&mut state, &mut hook, "Sequential", 10_000).unwrap();
    assert_eq!(state.get_recording_status().status, SessionPhase::Recording);
    route_key_event(&mut hook, &mut state, KeyCode::Alt, KeyPhase::Press, 10_000);
    route_key_event(&mut hook, &mut state, KeyCode::KeyH, KeyPhase::Press, 10_250);
    let status = state.get_recording_status();
    assert_eq!(status.recorded_keys_count, Some(2));
    let action = stop_recording(&mut state, &mut hook, 12_345).unwrap();
    assert_eq!(action.id, "copy-it");
    assert_eq!(action.name, "macro copy-it");
    assert_eq!(action.created_at, 12);
    assert_eq!(action.shortcut_type, ShortcutType::Sequential);
    assert_eq!(action.key_sequence.len(), 2);
    assert_eq!(action.key_sequence[1].key, "KeyH");
    assert_eq!(action.key_sequence[1].timestamp, 250);
    assert!(hook.capture.is_none());
    assert!(hook.recorded_keys.is_empty());
    assert_eq!(state.custom_actions.len(), 1);
    let status = state.get_recording_status();
    assert_eq!(status.status, SessionPhase::Completed);
    assert_eq!(status.recorded_keys_count, Some(2));
    assert!(!route_key_event(&mut hook, &mut state, KeyCode::KeyB, KeyPhase::Press, 13_000));
    assert_eq!(state.recording_modal_info.as_ref().unwrap().recorded_keys.len(), 2);
}

#[test]
fn recording_again_under_an_id_replaces_the_macro() {
    let mut state = ServerState::new();
    let mut hook = KeyHook::new();
    for round in 0..2u64 {
        state.prepare_recording("m".to_string(), format!("take {}", round), None, &None).unwrap();
        start_recording(&mut state, &mut hook, "Normal", 1_000 * round).unwrap();
        stop_recording(&mut state, &mut hook, 5_000).unwrap();
        state.acknowledge_recording().unwrap();
    }
    assert_eq!(state.custom_actions.len(), 1);
    assert_eq!(state.custom_actions[0].name, "take 1");
}

#[test]
fn prepare_while_a_session_exists_is_a_conflict() {
    let mut state = prepared("a", None);
    assert_eq!(
        state.prepare_recording("b".to_string(), "b".to_string(), None, &None),
        Err(SessionError::Conflict)
    );
    assert_eq!(state.recording_modal_info.as_ref().unwrap().action_id, "a");
}

#[test]
fn prepared_kind_follows_the_request() {
    let state = prepared("a", Some("sequential"));
    assert_eq!(state.recording_modal_info.as_ref().unwrap().shortcut_type, ShortcutType::Sequential);
    let state = prepared("a", Some("Sequential"));
    assert_eq!(state.recording_modal_info.as_ref().unwrap().shortcut_type, ShortcutType::Normal);
    let state = prepared("a", None);
    assert_eq!(state.recording_modal_info.as_ref().unwrap().shortcut_type, ShortcutType::Normal);
}

#[test]
fn acknowledge_only_after_completion() {
    let mut state = ServerState::new();
    assert_eq!(state.acknowledge_recording(), Err(SessionError::NoSession));
    let mut state2 = prepared("a", None);
    assert_eq!(state2.acknowledge_recording(), Err(SessionError::NotCompleted));
    assert!(state2.recording_modal_info.is_some());
    let mut hook = KeyHook::new();
    start_recording(&mut state2, &mut hook, "Normal", 0).unwrap();
    stop_recording(&mut state2, &mut hook, 0).unwrap();
    assert_eq!(state2.acknowledge_recording(), Ok(()));
    assert_eq!(state2.get_recording_status().status, SessionPhase::Idle);
    state = state2;
    assert!(state.recording_modal_info.is_none());
}

#[test]
fn status_of_each_phase() {
    let state = ServerState::new();
    let s = state.get_recording_status();
    assert_eq!(s.status, SessionPhase::Idle);
    assert!(s.action_id.is_none() && s.name.is_none() && s.recorded_keys_count.is_none());
    let state = prepared("x", None);
    let s = state.get_recording_status();
    assert_eq!(s.status, SessionPhase::Preparing);
    assert_eq!(s.action_id.as_deref(), Some("x"));
    assert_eq!(s.name.as_deref(), Some("macro x"));
    assert_eq!(s.recorded_keys_count, None);
}

#[test]
fn clear_discards_a_running_recording() {
    let mut state = prepared("a", None);
    let mut hook = KeyHook::new();
    start_recording(&mut state, &mut hook, "Normal", 0).unwrap();
    clear_recording_modal(&mut state, &mut hook);
    assert!(state.recording_modal_info.is_none());
    assert!(hook.capture.is_none());
    assert!(!route_key_event(&mut hook, &mut state, KeyCode::KeyA, KeyPhase::Press, 10));
}

#[test]
fn mirroring_only_touches_a_recording_session() {
    let keys = vec![RecordedKey {
        key: "KeyA".to_string(),
        event_type: "press".to_string(),
        timestamp: 3,
        modifiers: KeyModifiers::default(),
    }];
    let mut state = prepared("a", None);
    sync_to_main_state(&mut state, &keys);
    assert!(state.recording_modal_info.as_ref().unwrap().recorded_keys.is_empty());
    let mut hook = KeyHook::new();
    start_recording(&mut state, &mut hook, "Normal", 0).unwrap();
    sync_to_main_state(&mut state, &keys);
    assert_eq!(state.recording_modal_info.as_ref().unwrap().recorded_keys.len(), 1);
}
