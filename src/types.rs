use vstd::prelude::*;

use crate::keys::{modifier_kind, KeyCode, ModifierKind};

verus! {

/// How a recorded macro is replayed.
///
/// `Normal` replays every pressed key as a tap (press, then release); `Sequential`
/// replays presses and releases in the recorded order, with the recorded gaps.
#[derive(Clone, Copy, Debug, PartialEq, Eq, Structural)]
pub enum ShortcutType {
    Normal,
    Sequential,
}

impl Default for ShortcutType {
    fn default() -> (r: Self)
        ensures
            r == ShortcutType::Normal,
    {
        ShortcutType::Normal
    }
}

/// Which modifier classes are held down at one instant.
#[derive(Clone, Copy, Debug, PartialEq, Eq, Structural)]
pub struct KeyModifiers {
    pub alt: bool,
    pub ctrl: bool,
    pub shift: bool,
    pub meta: bool,
}

impl Default for KeyModifiers {
    fn default() -> (r: Self)
        ensures
            r == no_modifiers(),
    {
        KeyModifiers { alt: false, ctrl: false, shift: false, meta: false }
    }
}

pub open spec fn no_modifiers() -> KeyModifiers {
    KeyModifiers { alt: false, ctrl: false, shift: false, meta: false }
}

/// The modifier state after `key` went down (`pressed`) or came up; a key that
/// is no modifier leaves it as it was.
pub open spec fn modifiers_after(m: KeyModifiers, key: KeyCode, pressed: bool) -> KeyModifiers {
    match modifier_kind(key) {
        Some(ModifierKind::Alt) => KeyModifiers { alt: pressed, ..m },
        Some(ModifierKind::Ctrl) => KeyModifiers { ctrl: pressed, ..m },
        Some(ModifierKind::Shift) => KeyModifiers { shift: pressed, ..m },
        Some(ModifierKind::Meta) => KeyModifiers { meta: pressed, ..m },
        None => m,
    }
}

/// Records that `key` went down (`pressed`) or came up in the modifier state.
pub fn update_modifier_state(modifiers: &mut KeyModifiers, key: KeyCode, pressed: bool)
    ensures
        *final(modifiers) == modifiers_after(*old(modifiers), key, pressed),
{
    match crate::keys::get_modifier_type(key) {
        Some(ModifierKind::Alt) => modifiers.alt = pressed,
        Some(ModifierKind::Ctrl) => modifiers.ctrl = pressed,
        Some(ModifierKind::Shift) => modifiers.shift = pressed,
        Some(ModifierKind::Meta) => modifiers.meta = pressed,
        None => {},
    }
}

/// One recorded key event: the key's stored name, `"press"` or `"release"`, the
/// milliseconds since the recording started, and the modifiers held at that time.
#[derive(Clone, Debug)]
pub struct RecordedKey {
    pub key: String,
    pub event_type: String,
    pub timestamp: u64,
    pub modifiers: KeyModifiers,
}

pub struct RecordedKeyView {
    pub key: Seq<char>,
    pub event_type: Seq<char>,
    pub timestamp: u64,
    pub modifiers: KeyModifiers,
}

impl View for RecordedKey {
    type V = RecordedKeyView;

    open spec fn view(&self) -> RecordedKeyView {
        RecordedKeyView {
            key: self.key@,
            event_type: self.event_type@,
            timestamp: self.timestamp,
            modifiers: self.modifiers,
        }
    }
}

impl RecordedKey {
    /// A field-by-field copy.
    pub fn duplicate(&self) -> (r: Self)
        ensures
            r == *self,
    {
        RecordedKey {
            key: self.key.clone(),
            event_type: self.event_type.clone(),
            timestamp: self.timestamp,
            modifiers: self.modifiers,
        }
    }
}

/// Copies a sequence of recorded events.
pub fn copy_keys(keys: &Vec<RecordedKey>) -> (r: Vec<RecordedKey>)
    ensures
        r@ == keys@,
{
    let mut r: Vec<RecordedKey> = Vec::new();
    let mut i: usize = 0;
    while i < keys.len()
        invariant
            0 <= i <= keys.len(),
            r@ == keys@.take(i as int),
        decreases keys.len() - i,
    {
        r.push(keys[i].duplicate());
        i = i + 1;
        assert(r@ =~= keys@.take(i as int));
    }
    assert(keys@.take(keys.len() as int) =~= keys@);
    r
}

/// A user-recorded macro: an ordered, timestamped key event sequence plus how it
/// is replayed.
#[derive(Clone, Debug)]
pub struct CustomAction {
    pub id: String,
    pub name: String,
    pub icon: Option<String>,
    pub key_sequence: Vec<RecordedKey>,
    pub created_at: u64,
    pub shortcut_type: ShortcutType,
}

/// Copies an optional string.
pub fn copy_opt_string(s: &Option<String>) -> (r: Option<String>)
    ensures
        r == *s,
{
    match s {
        Some(t) => Some(t.clone()),
        None => None,
    }
}

impl CustomAction {
    /// A field-by-field copy.
    pub fn duplicate(&self) -> (r: Self)
        ensures
            r.id == self.id,
            r.name == self.name,
            r.icon == self.icon,
            r.key_sequence@ == self.key_sequence@,
            r.created_at == self.created_at,
            r.shortcut_type == self.shortcut_type,
    {
        CustomAction {
            id: self.id.clone(),
            name: self.name.clone(),
            icon: copy_opt_string(&self.icon),
            key_sequence: copy_keys(&self.key_sequence),
            created_at: self.created_at,
            shortcut_type: self.shortcut_type,
        }
    }
}

/// The persisted form of all macros.
#[derive(Clone, Debug)]
pub struct CustomActionsStorage {
    pub actions: Vec<CustomAction>,
    pub version: u32,
    pub last_updated: u64,
}

/// The version of the persisted form that this library writes.
pub const STORAGE_VERSION: u32 = 1;

impl CustomActionsStorage {
    /// The persisted form of `actions`, stamped with the time of writing.
    pub fn snapshot(actions: Vec<CustomAction>, now_secs: u64) -> (r: Self)
        ensures
            r.actions@ == actions@,
            r.version == STORAGE_VERSION,
            r.last_updated == now_secs,
    {
        CustomActionsStorage { actions, version: STORAGE_VERSION, last_updated: now_secs }
    }
}

/// The recording session, as shown to the user and polled by the companion device.
///
/// `is_recording` and `is_completed` are never both set: a session is preparing
/// (neither), recording, or completed.
#[derive(Clone, Debug)]
pub struct RecordingModalInfo {
    pub action_id: String,
    pub name: String,
    pub icon: Option<String>,
    pub is_visible: bool,
    pub is_recording: bool,
    pub is_completed: bool,
    pub start_time: Option<u64>,
    pub recorded_keys: Vec<RecordedKey>,
    pub shortcut_type: ShortcutType,
}

/// What the desktop UI shows of the HTTP server.
#[derive(Clone, Debug)]
pub struct ServerStatus {
    pub running: bool,
    pub connected_clients: usize,
    pub port: u16,
}

/// A companion device seen by the health check, with the time (seconds) it was last seen.
#[derive(Clone, Debug)]
pub struct ClientInfo {
    pub id: String,
    pub last_health_check: u64,
}

/// A request of the companion device.
#[derive(Clone, Debug)]
pub enum ActionType {
    Text { text: String },
    Copy,
    Paste,
    Custom { action_id: String },
    PrepareRecording {
        action_id: String,
        name: String,
        icon: Option<String>,
        shortcut_type: Option<String>,
    },
    Gesture { fingers: u8, direction: String, action: String, action_data: Option<String> },
}

} // verus!
