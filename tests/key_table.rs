use side_assist::keys::{
    char_to_key, get_modifier_type, is_modifier_key, key_to_string, phase_to_string, same_text, string_to_key,
    KeyCode, KeyPhase, ModifierKind,
};

const NAMES: [&str; 49] = [
    "KeyA", "KeyB", "KeyC", "KeyD", "KeyE", "KeyF", "KeyG", "KeyH", "KeyI", "KeyJ", "KeyK", "KeyL", "KeyM",
    "KeyN", "KeyO", "KeyP", "KeyQ", "KeyR", "KeyS", "KeyT", "KeyU", "KeyV", "KeyW", "KeyX", "KeyY", "KeyZ",
    "Num0", "Num1", "Num2", "Num3", "Num4", "Num5", "Num6", "Num7", "Num8", "Num9", "Space", "MetaLeft",
    "MetaRight", "ControlLeft", "ControlRight", "ShiftLeft", "ShiftRight", "Alt", "Enter", "Escape",
    "Backspace", "Tab", "AltLeft",
];

#[test]
fn every_table_name_round_trips_except_alt_variants() {
    for name in NAMES.iter() {
        let key = string_to_key(name).expect("name in table");
        if *name == "AltLeft" {
            assert_eq!(key_to_string(key), "Alt");
        } else {
            assert_eq!(key_to_string(key), *name);
        }
    }
}

#[test]
fn alt_right_maps_to_altgr_and_is_stored_as_alt_left() {
    assert_eq!(string_to_key("AltRight"), Some(KeyCode::AltGr));
    assert_eq!(key_to_string(KeyCode::AltGr), "AltLeft");
    assert_eq!(string_to_key("AltLeft"), Some(KeyCode::Alt));
}

#[test]
fn enter_is_the_return_key() {
    assert_eq!(string_to_key("Enter"), Some(KeyCode::Return));
    assert_eq!(key_to_string(KeyCode::Return), "Enter");
}

#[test]
fn unknown_names_are_not_found() {
    assert_eq!(string_to_key(""), None);
    assert_eq!(string_to_key("keya"), None);
    assert_eq!(string_to_key("KeyA "), None);
    assert_eq!(string_to_key("F1"), None);
    assert_eq!(string_to_key("Return"), None);
}

#[test]
fn other_keys_have_a_placeholder_name() {
    assert_eq!(key_to_string(KeyCode::Other), "Unknown");
    assert_eq!(string_to_key("Unknown"), None);
}

#[test]
fn characters_map_case_insensitively() {
    assert_eq!(char_to_key('a'), Some(KeyCode::KeyA));
    assert_eq!(char_to_key('A'), Some(KeyCode::KeyA));
    assert_eq!(char_to_key('z'), Some(KeyCode::KeyZ));
    assert_eq!(char_to_key('Z'), Some(KeyCode::KeyZ));
    assert_eq!(char_to_key('0'), Some(KeyCode::Num0));
    assert_eq!(char_to_key('9'), Some(KeyCode::Num9));
    assert_eq!(char_to_key(' '), Some(KeyCode::Space));
}

#[test]
fn punctuation_and_other_characters_have_no_key() {
    assert_eq!(char_to_key('!'), None);
    assert_eq!(char_to_key('.'), None);
    assert_eq!(char_to_key('\n'), None);
    assert_eq!(char_to_key('é'), None);
    assert_eq!(char_to_key('あ'), None);
}

#[test]
fn modifiers_have_a_class() {
    let all = [
        KeyCode::KeyA, KeyCode::Num1, KeyCode::Space, KeyCode::MetaLeft, KeyCode::MetaRight, KeyCode::ControlLeft,
        KeyCode::ControlRight, KeyCode::ShiftLeft, KeyCode::ShiftRight, KeyCode::Alt, KeyCode::AltGr,
        KeyCode::Return, KeyCode::Escape, KeyCode::Backspace, KeyCode::Tab, KeyCode::Other,
    ];
    for k in all.iter() {
        assert_eq!(is_modifier_key(*k), get_modifier_type(*k).is_some());
    }
    for name in NAMES.iter().chain(["AltRight"].iter()) {
        let k = string_to_key(name).unwrap();
        assert_eq!(is_modifier_key(k), get_modifier_type(k).is_some());
    }
    assert_eq!(get_modifier_type(KeyCode::Alt), Some(ModifierKind::Alt));
    assert_eq!(get_modifier_type(KeyCode::AltGr), Some(ModifierKind::Alt));
    assert_eq!(get_modifier_type(KeyCode::ControlRight), Some(ModifierKind::Ctrl));
    assert_eq!(get_modifier_type(KeyCode::ShiftLeft), Some(ModifierKind::Shift));
    assert_eq!(get_modifier_type(KeyCode::MetaRight), Some(ModifierKind::Meta));
    assert_eq!(get_modifier_type(KeyCode::KeyA), None);
    assert!(!is_modifier_key(KeyCode::Tab));
}

#[test]
fn phases_have_stored_names() {
    assert_eq!(phase_to_string(KeyPhase::Press), "press");
    assert_eq!(phase_to_string(KeyPhase::Release), "release");
}

#[test]
fn text_comparison_is_exact() {
    assert!(same_text("", ""));
    assert!(same_text("héllo", "héllo"));
    assert!(!same_text("abc", "abd"));
    assert!(!same_text("abc", "ab"));
}
