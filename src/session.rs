use vstd::prelude::*;

use crate::hook::{hook_records, hook_step, Capture, KeyHook, KeyHookView};
use crate::keys::{same_text, KeyCode, KeyPhase};
use crate::server::{upserted, upsert_action, ServerState};
use crate::types::{copy_keys, copy_opt_string, CustomAction, RecordedKey, RecordingModalInfo, ShortcutType};

verus! {

/// Why a recording-session command was refused.
#[derive(Clone, Copy, Debug, PartialEq, Eq, Structural)]
pub enum SessionError {
    /// No session has been prepared.
    NoSession,
    /// Another session, or another recording, is in the way.
    Conflict,
    /// The session is not recording.
    NotRecording,
    /// The session has not completed yet.
    NotCompleted,
}

/// Where the recording session stands.
#[derive(Clone, Copy, Debug, PartialEq, Eq, Structural)]
pub enum SessionPhase {
    Idle,
    Preparing,
    Recording,
    Completed,
}

/// What a polling client learns of the session.
#[derive(Clone, Debug)]
pub struct RecordingStatus {
    pub status: SessionPhase,
    pub action_id: Option<String>,
    pub name: Option<String>,
    pub recorded_keys_count: Option<usize>,
}

pub open spec fn session_phase(m: Option<RecordingModalInfo>) -> SessionPhase {
    match m {
        None => SessionPhase::Idle,
        Some(i) => if i.is_completed {
            SessionPhase::Completed
        } else if i.is_recording {
            SessionPhase::Recording
        } else {
            SessionPhase::Preparing
        },
    }
}

/// The kind of recording asked for when a session is prepared: `"sequential"`
/// asks for a sequential one, anything else (or nothing) for a normal one.
pub open spec fn prepared_kind(s: Option<Seq<char>>) -> ShortcutType {
    if s == Some("sequential"@) {
        ShortcutType::Sequential
    } else {
        ShortcutType::Normal
    }
}

/// The kind of recording asked for when it starts: `"Sequential"` asks for a
/// sequential one, anything else for a normal one.
pub open spec fn started_kind(s: Seq<char>) -> ShortcutType {
    if s == "Sequential"@ {
        ShortcutType::Sequential
    } else {
        ShortcutType::Normal
    }
}

pub open spec fn opt_view(s: Option<String>) -> Option<Seq<char>> {
    match s {
        Some(t) => Some(t@),
        None => None,
    }
}

/// The kind of recording asked for by a preparation request.
pub fn prepared_shortcut_type(s: &Option<String>) -> (r: ShortcutType)
    ensures
        r == prepared_kind(opt_view(*s)),
{
    match s {
        Some(t) => if same_text(t.as_str(), "sequential") {
            ShortcutType::Sequential
        } else {
            ShortcutType::Normal
        },
        None => ShortcutType::Normal,
    }
}

/// The kind of recording asked for by a start request.
pub fn started_shortcut_type(s: &str) -> (r: ShortcutType)
    ensures
        r == started_kind(s@),
{
    if same_text(s, "Sequential") {
        ShortcutType::Sequential
    } else {
        ShortcutType::Normal
    }
}

/// The session of a state that has one.
pub open spec fn modal(s: ServerState) -> RecordingModalInfo {
    s.recording_modal_info->0
}

/// Whether the state has a session that records.
pub open spec fn is_recording_session(s: ServerState) -> bool {
    s.recording_modal_info is Some && modal(s).is_recording
}

/// The session fields that every command but a session command leaves alone.
pub open spec fn same_outside_session(a: ServerState, b: ServerState) -> bool {
    &&& a.running == b.running
    &&& a.connected_clients == b.connected_clients
    &&& a.port == b.port
    &&& a.one_time_password == b.one_time_password
    &&& a.password_expiry == b.password_expiry
    &&& a.operation_in_progress == b.operation_in_progress
    &&& a.custom_actions == b.custom_actions
}

impl ServerState {
    /// Opens a new session for macro `action_id`, not yet recording. Refused
    /// while another session exists.
    pub fn prepare_recording(
        &mut self,
        action_id: String,
        name: String,
        icon: Option<String>,
        shortcut_type: &Option<String>,
    ) -> (r: Result<(), SessionError>)
        requires
            old(self).wf(),
        ensures
            final(self).wf(),
            old(self).recording_modal_info is Some ==> r == Err::<(), SessionError>(SessionError::Conflict)
                && *final(self) == *old(self),
            old(self).recording_modal_info is None ==> {
                let m = modal(*final(self));
                &&& r is Ok
                &&& same_outside_session(*old(self), *final(self))
                &&& final(self).recording_modal_info is Some
                &&& m.action_id == action_id
                &&& m.name == name
                &&& m.icon == icon
                &&& m.is_visible
                &&& !m.is_recording
                &&& !m.is_completed
                &&& m.start_time is None
                &&& m.recorded_keys@.len() == 0
                &&& m.shortcut_type == prepared_kind(opt_view(*shortcut_type))
            },
    {
        if self.recording_modal_info.is_some() {
            return Err(SessionError::Conflict);
        }
        let kind = prepared_shortcut_type(shortcut_type);
        self.recording_modal_info = Some(
            RecordingModalInfo {
                action_id,
                name,
                icon,
                is_visible: true,
                is_recording: false,
                is_completed: false,
                start_time: None,
                recorded_keys: Vec::new(),
                shortcut_type: kind,
            },
        );
        Ok(())
    }

    /// Where the session stands, with the macro it records and how many events
    /// it holds once recording has begun.
    pub fn get_recording_status(&self) -> (r: RecordingStatus)
        requires
            self.wf(),
        ensures
            r.status == session_phase(self.recording_modal_info),
            self.recording_modal_info is None ==> r.action_id is None && r.name is None
                && r.recorded_keys_count is None,
            self.recording_modal_info is Some ==> {
                let m = modal(*self);
                &&& r.action_id == Some(m.action_id)
                &&& r.name == Some(m.name)
                &&& r.recorded_keys_count == if m.is_recording || m.is_completed {
                    Some(m.recorded_keys@.len() as usize)
                } else {
                    None::<usize>
                }
            },
    {
        match &self.recording_modal_info {
            None => RecordingStatus { status: SessionPhase::Idle, action_id: None, name: None, recorded_keys_count: None },
            Some(m) => {
                let status = if m.is_completed {
                    SessionPhase::Completed
                } else if m.is_recording {
                    SessionPhase::Recording
                } else {
                    SessionPhase::Preparing
                };
                let count = if m.is_recording || m.is_completed {
                    Some(m.recorded_keys.len())
                } else {
                    None
                };
                RecordingStatus {
                    status,
                    action_id: Some(m.action_id.clone()),
                    name: Some(m.name.clone()),
                    recorded_keys_count: count,
                }
            },
        }
    }

    /// Closes a completed session. Refused without a session, and before the
    /// session has completed.
    pub fn acknowledge_recording(&mut self) -> (r: Result<(), SessionError>)
        requires
            old(self).wf(),
        ensures
            final(self).wf(),
            old(self).recording_modal_info is None ==> r == Err::<(), SessionError>(SessionError::NoSession),
            old(self).recording_modal_info is Some && !modal(*old(self)).is_completed ==> r == Err::<
                (),
                SessionError,
            >(SessionError::NotCompleted),
            r is Err ==> *final(self) == *old(self),
            r is Ok <==> (old(self).recording_modal_info is Some && modal(*old(self)).is_completed),
            r is Ok ==> final(self).recording_modal_info is None && same_outside_session(*old(self), *final(self)),
    {
        match &self.recording_modal_info {
            None => Err(SessionError::NoSession),
            Some(m) => {
                if !m.is_completed {
                    return Err(SessionError::NotCompleted);
                }
                self.recording_modal_info = None;
                Ok(())
            },
        }
    }
}

/// Mirrors the hook's event buffer into the session while it records, so that a
/// polling client sees the events as they come. A session that is not recording
/// is left alone: a frozen recording never changes.
pub fn sync_to_main_state(state: &mut ServerState, keys: &Vec<RecordedKey>)
    requires
        old(state).wf(),
    ensures
        final(state).wf(),
        same_outside_session(*old(state), *final(state)),
        session_phase(final(state).recording_modal_info) == session_phase(old(state).recording_modal_info),
        is_recording_session(*old(state)) ==> {
            let m = modal(*old(state));
            let n = modal(*final(state));
            &&& final(state).recording_modal_info is Some
            &&& n.recorded_keys@ == keys@
            &&& n.action_id == m.action_id
            &&& n.name == m.name
            &&& n.icon == m.icon
            &&& n.start_time == m.start_time
            &&& n.shortcut_type == m.shortcut_type
            &&& n.is_recording
            &&& !n.is_completed
        },
        !is_recording_session(*old(state)) ==> *final(state) == *old(state),
{
    let taken = state.recording_modal_info.take();
    match taken {
        Some(mut m) => {
            if m.is_recording {
                m.recorded_keys = copy_keys(keys);
            }
            state.recording_modal_info = Some(m);
        },
        None => {},
    }
}

/// Starts recording the prepared session: the session records from `now_ms`
/// with an empty buffer, and the hook feeds it. Refused without a session, while
/// the session records or has completed, and while the hook feeds another
/// recording; a refusal changes nothing.
pub fn start_recording(state: &mut ServerState, hook: &mut KeyHook, shortcut_type: &str, now_ms: u64) -> (r: Result<
    (),
    SessionError,
>)
    requires
        old(state).wf(),
        old(hook).wf(),
    ensures
        final(state).wf(),
        final(hook).wf(),
        old(state).recording_modal_info is None ==> r == Err::<(), SessionError>(SessionError::NoSession),
        old(state).recording_modal_info is Some && (modal(*old(state)).is_recording || modal(
            *old(state),
        ).is_completed || old(hook).capture is Some) ==> r == Err::<(), SessionError>(SessionError::Conflict),
        r is Err ==> *final(state) == *old(state) && *final(hook) == *old(hook),
        r is Ok <==> (old(state).recording_modal_info is Some && !modal(*old(state)).is_recording && !modal(
            *old(state),
        ).is_completed && old(hook).capture is None),
        r is Ok ==> {
            let m = modal(*old(state));
            let n = modal(*final(state));
            &&& same_outside_session(*old(state), *final(state))
            &&& final(state).recording_modal_info is Some
            &&& n.is_recording
            &&& !n.is_completed
            &&& n.start_time == Some(now_ms)
            &&& n.recorded_keys@.len() == 0
            &&& n.shortcut_type == started_kind(shortcut_type@)
            &&& n.action_id == m.action_id
            &&& n.name == m.name
            &&& n.icon == m.icon
            &&& n.is_visible == m.is_visible
        },
        r is Ok ==> final(hook)@ == (KeyHookView {
            capture: Some(Capture { start_time: now_ms, shortcut_type: started_kind(shortcut_type@) }),
            keys: Seq::empty(),
            ..old(hook)@
        }),
{
    match &state.recording_modal_info {
        None => {
            return Err(SessionError::NoSession);
        },
        Some(m) => {
            if m.is_recording || m.is_completed || hook.is_capturing() {
                return Err(SessionError::Conflict);
            }
        },
    }
    let kind = started_shortcut_type(shortcut_type);
    let began = hook.begin(now_ms, kind);
    let taken = state.recording_modal_info.take();
    match taken {
        Some(mut m) => {
            m.is_recording = true;
            m.start_time = Some(now_ms);
            m.recorded_keys = Vec::new();
            m.shortcut_type = kind;
            state.recording_modal_info = Some(m);
        },
        None => {},
    }
    began
}

/// Stops the recording: the hook lets go of it, the recorded events are frozen
/// into the session, which becomes completed, and saved as the session's macro
/// (replacing a macro of the same id); the macro is returned. Refused without a
/// session and while the session is not recording; a refusal changes nothing,
/// the hook included.
pub fn stop_recording(state: &mut ServerState, hook: &mut KeyHook, now_ms: u64) -> (r: Result<
    CustomAction,
    SessionError,
>)
    requires
        old(state).wf(),
        old(hook).wf(),
    ensures
        final(state).wf(),
        final(hook).wf(),
        old(state).recording_modal_info is None ==> r == Err::<CustomAction, SessionError>(SessionError::NoSession),
        old(state).recording_modal_info is Some && !modal(*old(state)).is_recording ==> r == Err::<
            CustomAction,
            SessionError,
        >(SessionError::NotRecording),
        r is Err ==> *final(state) == *old(state) && *final(hook) == *old(hook),
        r is Ok <==> is_recording_session(*old(state)),
        r is Ok ==> {
            let a = r->Ok_0;
            let m = modal(*old(state));
            let n = modal(*final(state));
            &&& a.id == m.action_id
            &&& a.name == m.name
            &&& a.icon == m.icon
            &&& a.key_sequence@ == old(hook).recorded_keys@
            &&& a.created_at == now_ms / 1000
            &&& a.shortcut_type == m.shortcut_type
            &&& final(state).recording_modal_info is Some
            &&& n.is_completed
            &&& !n.is_recording
            &&& n.recorded_keys@ == old(hook).recorded_keys@
            &&& n.action_id == m.action_id
            &&& n.name == m.name
            &&& n.icon == m.icon
            &&& n.start_time == m.start_time
            &&& n.shortcut_type == m.shortcut_type
        },
        r is Ok ==> exists|saved: CustomAction|
            {
                &&& final(state).custom_actions@ == upserted(old(state).custom_actions@, saved)
                &&& saved.id == r->Ok_0.id
                &&& saved.name == r->Ok_0.name
                &&& saved.icon == r->Ok_0.icon
                &&& saved.key_sequence@ == r->Ok_0.key_sequence@
                &&& saved.created_at == r->Ok_0.created_at
                &&& saved.shortcut_type == r->Ok_0.shortcut_type
            },
        r is Ok ==> final(hook)@ == (KeyHookView { capture: None, keys: Seq::empty(), ..old(hook)@ }),
        r is Ok ==> final(state).running == old(state).running && final(state).connected_clients == old(
            state,
        ).connected_clients && final(state).port == old(state).port,
{
    match &state.recording_modal_info {
        None => {
            return Err(SessionError::NoSession);
        },
        Some(m) => {
            if !m.is_recording {
                return Err(SessionError::NotRecording);
            }
        },
    }
    let keys = hook.end();
    let taken = state.recording_modal_info.take();
    match taken {
        Some(mut m) => {
            let action = CustomAction {
                id: m.action_id.clone(),
                name: m.name.clone(),
                icon: copy_opt_string(&m.icon),
                key_sequence: copy_keys(&keys),
                created_at: now_ms / 1000,
                shortcut_type: m.shortcut_type,
            };
            let result = action.duplicate();
            upsert_action(&mut state.custom_actions, action);
            m.recorded_keys = keys;
            m.is_recording = false;
            m.is_completed = true;
            state.recording_modal_info = Some(m);
            Ok(result)
        },
        None => Err(SessionError::NoSession),
    }
}

/// Discards the session, whatever its state, and lets the hook go of any
/// recording.
pub fn clear_recording_modal(state: &mut ServerState, hook: &mut KeyHook)
    requires
        old(state).wf(),
        old(hook).wf(),
    ensures
        final(state).wf(),
        final(hook).wf(),
        final(state).recording_modal_info is None,
        same_outside_session(*old(state), *final(state)),
        final(hook)@ == (KeyHookView { capture: None, keys: Seq::empty(), ..old(hook)@ }),
{
    state.recording_modal_info = None;
    if hook.is_capturing() {
        let _discarded = hook.end();
    } else {
        assert(hook@.keys =~= Seq::<crate::types::RecordedKeyView>::empty());
    }
}

/// Routes one keyboard event from the listener: the hook records it or not (see
/// `KeyHook::on_event`), and a recorded event is mirrored into the session.
pub fn route_key_event(hook: &mut KeyHook, state: &mut ServerState, key: KeyCode, phase: KeyPhase, now_ms: u64) -> (recorded: bool)
    requires
        old(hook).wf(),
        old(state).wf(),
    ensures
        final(hook).wf(),
        final(state).wf(),
        final(hook)@ == hook_step(old(hook)@, key, phase, now_ms),
        recorded == hook_records(old(hook)@, key, phase, now_ms),
        same_outside_session(*old(state), *final(state)),
        !recorded ==> *final(state) == *old(state),
        recorded && is_recording_session(*old(state)) ==> final(state).recording_modal_info is Some && modal(
            *final(state),
        ).recorded_keys@ == final(hook).recorded_keys@,
{
    let recorded = hook.on_event(key, phase, now_ms);
    if recorded {
        sync_to_main_state(state, &hook.recorded_keys);
    }
    recorded
}

} // verus!
