use vstd::prelude::*;

use crate::keys::{is_modifier, key_name, key_to_string, phase_name, phase_to_string, KeyCode, KeyPhase};
use crate::session::SessionError;
use crate::types::{modifiers_after, no_modifiers, update_modifier_state, KeyModifiers, RecordedKey, RecordedKeyView, ShortcutType};

verus! {

/// Two events with the same key and phase closer than this (milliseconds) are one
/// event repeated by the keyboard.
pub const DEBOUNCE_MS: u64 = 200;

/// The recording that the hook currently feeds: when it started (milliseconds)
/// and how it filters events.
#[derive(Clone, Copy, Debug, PartialEq, Eq, Structural)]
pub struct Capture {
    pub start_time: u64,
    pub shortcut_type: ShortcutType,
}

/// The last recorded event, against which the next one is debounced.
#[derive(Clone, Debug)]
pub struct DebounceMark {
    pub key: String,
    pub phase: KeyPhase,
    pub at: u64,
}

pub struct DebounceMarkView {
    pub key: Seq<char>,
    pub phase: KeyPhase,
    pub at: u64,
}

/// The state behind the process-wide keyboard listener: which recording it
/// feeds, the events recorded so far, the live modifier state and the debounce
/// marker.
#[derive(Clone, Debug)]
pub struct KeyHook {
    pub capture: Option<Capture>,
    pub recorded_keys: Vec<RecordedKey>,
    pub modifiers: KeyModifiers,
    pub last_recorded: Option<DebounceMark>,
}

pub struct KeyHookView {
    pub capture: Option<Capture>,
    pub keys: Seq<RecordedKeyView>,
    pub modifiers: KeyModifiers,
    pub last: Option<DebounceMarkView>,
}

pub open spec fn mark_view(m: Option<DebounceMark>) -> Option<DebounceMarkView> {
    match m {
        Some(d) => Some(DebounceMarkView { key: d.key@, phase: d.phase, at: d.at }),
        None => None,
    }
}

pub open spec fn keys_view(keys: Seq<RecordedKey>) -> Seq<RecordedKeyView> {
    keys.map_values(|k: RecordedKey| k@)
}

impl View for KeyHook {
    type V = KeyHookView;

    open spec fn view(&self) -> KeyHookView {
        KeyHookView {
            capture: self.capture,
            keys: keys_view(self.recorded_keys@),
            modifiers: self.modifiers,
            last: mark_view(self.last_recorded),
        }
    }
}

/// Timestamps never go down along a recording.
pub open spec fn stamps_ordered(keys: Seq<RecordedKeyView>) -> bool {
    forall|i: int, j: int| 0 <= i <= j < keys.len() ==> keys[i].timestamp <= keys[j].timestamp
}

/// Whether an event of this key and phase belongs in a recording of this kind:
/// a sequential recording keeps every press and release; a normal one keeps
/// presses, and releases of modifiers (a pressed key replays as a tap).
pub open spec fn records_phase(mode: ShortcutType, key: KeyCode, phase: KeyPhase) -> bool {
    match mode {
        ShortcutType::Sequential => true,
        ShortcutType::Normal => is_modifier(key) || phase == KeyPhase::Press,
    }
}

/// Milliseconds from `then` to `now`, zero if the clock went back.
pub open spec fn elapsed(now: u64, then: u64) -> u64 {
    if now >= then {
        (now - then) as u64
    } else {
        0
    }
}

/// Whether an event repeats the last recorded one within the debounce window.
pub open spec fn is_repeat(last: Option<DebounceMarkView>, name: Seq<char>, phase: KeyPhase, now: u64) -> bool {
    match last {
        Some(m) => m.key == name && m.phase == phase && elapsed(now, m.at) < DEBOUNCE_MS,
        None => false,
    }
}

/// The timestamp of an event recorded at `now`: the time since the start, but
/// never below the previous event's timestamp.
pub open spec fn next_stamp(keys: Seq<RecordedKeyView>, start: u64, now: u64) -> u64 {
    let t = elapsed(now, start);
    if keys.len() > 0 && keys.last().timestamp > t {
        keys.last().timestamp
    } else {
        t
    }
}

/// Whether the hook records this event.
pub open spec fn hook_records(h: KeyHookView, key: KeyCode, phase: KeyPhase, now: u64) -> bool {
    match h.capture {
        Some(c) => records_phase(c.shortcut_type, key, phase) && !is_repeat(h.last, key_name(key), phase, now),
        None => false,
    }
}

/// The hook after one keyboard event: without a recording nothing changes; with
/// one, a modifier updates the modifier state, and a recorded event is appended
/// with the modifier state as it is after the event.
pub open spec fn hook_step(h: KeyHookView, key: KeyCode, phase: KeyPhase, now: u64) -> KeyHookView {
    match h.capture {
        None => h,
        Some(c) => {
            let m = modifiers_after(h.modifiers, key, phase == KeyPhase::Press);
            if hook_records(h, key, phase, now) {
                KeyHookView {
                    capture: h.capture,
                    keys: h.keys.push(
                        RecordedKeyView {
                            key: key_name(key),
                            event_type: phase_name(phase),
                            timestamp: next_stamp(h.keys, c.start_time, now),
                            modifiers: m,
                        },
                    ),
                    modifiers: m,
                    last: Some(DebounceMarkView { key: key_name(key), phase, at: now }),
                }
            } else {
                KeyHookView { modifiers: m, ..h }
            }
        },
    }
}

fn records_phase_of(mode: ShortcutType, key: KeyCode, phase: KeyPhase) -> (r: bool)
    ensures
        r == records_phase(mode, key, phase),
{
    match mode {
        ShortcutType::Sequential => true,
        ShortcutType::Normal => crate::keys::is_modifier_key(key) || phase == KeyPhase::Press,
    }
}

impl KeyHook {
    pub open spec fn wf(&self) -> bool {
        &&& stamps_ordered(self@.keys)
        &&& self.capture is None ==> self.recorded_keys@.len() == 0
    }

    /// A hook that feeds no recording, with no modifier held.
    pub fn new() -> (r: Self)
        ensures
            r.wf(),
            r@.capture is None,
            r@.keys.len() == 0,
            r@.modifiers == no_modifiers(),
            r@.last is None,
    {
        let r = KeyHook {
            capture: None,
            recorded_keys: Vec::new(),
            modifiers: KeyModifiers { alt: false, ctrl: false, shift: false, meta: false },
            last_recorded: None,
        };
        assert(r@.keys =~= Seq::<RecordedKeyView>::empty());
        r
    }

    /// Whether the hook currently feeds a recording.
    pub fn is_capturing(&self) -> (r: bool)
        ensures
            r == (self.capture is Some),
    {
        self.capture.is_some()
    }

    /// Binds the hook to a new recording, with an empty event buffer; fails if it
    /// already feeds one.
    pub fn begin(&mut self, start_time: u64, shortcut_type: ShortcutType) -> (r: Result<(), SessionError>)
        requires
            old(self).wf(),
        ensures
            final(self).wf(),
            old(self).capture is Some ==> r == Err::<(), SessionError>(SessionError::Conflict)
                && *final(self) == *old(self),
            old(self).capture is None ==> r is Ok && final(self)@ == (KeyHookView {
                capture: Some(Capture { start_time, shortcut_type }),
                keys: Seq::empty(),
                ..old(self)@
            }),
    {
        if self.capture.is_some() {
            return Err(SessionError::Conflict);
        }
        self.capture = Some(Capture { start_time, shortcut_type });
        self.recorded_keys = Vec::new();
        assert(self@.keys =~= Seq::<RecordedKeyView>::empty());
        Ok(())
    }

    /// Unbinds the hook from its recording and hands over the recorded events;
    /// later events are ignored until the next `begin`.
    pub fn end(&mut self) -> (keys: Vec<RecordedKey>)
        requires
            old(self).wf(),
        ensures
            final(self).wf(),
            keys@ == old(self).recorded_keys@,
            final(self)@ == (KeyHookView { capture: None, keys: Seq::empty(), ..old(self)@ }),
    {
        let mut keys: Vec<RecordedKey> = Vec::new();
        std::mem::swap(&mut keys, &mut self.recorded_keys);
        self.capture = None;
        assert(self@.keys =~= Seq::<RecordedKeyView>::empty());
        keys
    }

    fn repeats_last(&self, name: &String, phase: KeyPhase, now: u64) -> (r: bool)
        ensures
            r == is_repeat(self@.last, name@, phase, now),
    {
        match &self.last_recorded {
            Some(m) => *name == m.key && m.phase == phase && now.saturating_sub(m.at) < DEBOUNCE_MS,
            None => false,
        }
    }

    /// Routes one keyboard event from the listener into the recording, if any:
    /// updates the modifier state, filters by the recording's kind, drops a
    /// repeat within the debounce window, and appends the rest. Returns whether
    /// the event was appended.
    pub fn on_event(&mut self, key: KeyCode, phase: KeyPhase, now: u64) -> (recorded: bool)
        requires
            old(self).wf(),
        ensures
            final(self).wf(),
            final(self)@ == hook_step(old(self)@, key, phase, now),
            recorded == hook_records(old(self)@, key, phase, now),
            final(self).capture == old(self).capture,
    {
        let c = match self.capture {
            Some(c) => c,
            None => return false,
        };
        let ghost h0 = self@;
        update_modifier_state(&mut self.modifiers, key, phase == KeyPhase::Press);
        if !records_phase_of(c.shortcut_type, key, phase) {
            assert(self@ == (KeyHookView { modifiers: self.modifiers, ..h0 }));
            return false;
        }
        let name = key_to_string(key);
        if self.repeats_last(&name, phase, now) {
            return false;
        }
        let since = now.saturating_sub(c.start_time);
        let n = self.recorded_keys.len();
        let stamp = if n > 0 && self.recorded_keys[n - 1].timestamp > since {
            self.recorded_keys[n - 1].timestamp
        } else {
            since
        };
        self.last_recorded = Some(DebounceMark { key: name.clone(), phase, at: now });
        let ev = RecordedKey {
            key: name,
            event_type: phase_to_string(phase),
            timestamp: stamp,
            modifiers: self.modifiers,
        };
        self.recorded_keys.push(ev);
        assert(self@.keys =~= h0.keys.push(ev@));
        true
    }
}

/// While the hook feeds no recording, a keyboard event changes nothing and is
/// not recorded: nothing reaches a recording after it was stopped.
pub proof fn lemma_idle_hook_ignores_events(h: KeyHookView, key: KeyCode, phase: KeyPhase, now: u64)
    requires
        h.capture is None,
    ensures
        hook_step(h, key, phase, now) == h,
        !hook_records(h, key, phase, now),
{
}

/// A sequential recording keeps every event, press or release, that does not
/// repeat the last recorded one within the debounce window, and stamps it with
/// the key's name and the event's phase.
pub proof fn lemma_sequential_records_every_phase(h: KeyHookView, key: KeyCode, phase: KeyPhase, now: u64)
    requires
        h.capture matches Some(c) && c.shortcut_type == ShortcutType::Sequential,
        !is_repeat(h.last, key_name(key), phase, now),
    ensures
        hook_records(h, key, phase, now),
        hook_step(h, key, phase, now).keys.len() == h.keys.len() + 1,
        hook_step(h, key, phase, now).keys.last().key == key_name(key),
        hook_step(h, key, phase, now).keys.last().event_type == phase_name(phase),
{
}

/// Two presses of the same key while a recording runs leave one recorded event
/// when the second comes less than the debounce window after the first, and two
/// otherwise (provided the first is no repeat of an earlier event).
pub proof fn lemma_debounce_two_presses(h: KeyHookView, key: KeyCode, t1: u64, t2: u64)
    requires
        h.capture is Some,
        !is_repeat(h.last, key_name(key), KeyPhase::Press, t1),
    ensures
        elapsed(t2, t1) < DEBOUNCE_MS ==> hook_step(hook_step(h, key, KeyPhase::Press, t1), key, KeyPhase::Press, t2).keys.len()
            == h.keys.len() + 1,
        elapsed(t2, t1) >= DEBOUNCE_MS ==> hook_step(hook_step(h, key, KeyPhase::Press, t1), key, KeyPhase::Press, t2).keys.len()
            == h.keys.len() + 2,
{
}

} // verus!
