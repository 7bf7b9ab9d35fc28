use vstd::prelude::*;

use crate::server::{has_action, same_action, ServerState};
use crate::session::{modal, opt_view, prepared_kind, same_outside_session, SessionError};
use crate::keys::same_text;
use crate::types::{ActionType, CustomAction, ShortcutType};

verus! {

/// What the host does for an accepted request.
#[derive(Clone, Debug)]
pub enum InputTask {
    /// Type this text.
    TypeText(String),
    /// Send the copy shortcut.
    Copy,
    /// Send the paste shortcut.
    Paste,
    /// Replay this macro.
    RunMacro(CustomAction),
    /// A recording session was prepared for the macro of this name.
    Prepared { name: String, shortcut_type: ShortcutType },
}

/// Why a request was refused.
#[derive(Clone, Debug)]
pub enum InputError {
    /// No macro has this id.
    ActionNotFound(String),
    /// The recording session refused.
    Session(SessionError),
    /// A text gesture came without text.
    MissingGestureText,
    /// A macro gesture came while no macro is saved.
    NoCustomActions,
    /// The gesture asks for an action that does not exist.
    UnknownGesture(String),
}

/// Whether `r` is a replay of a copy of `a`.
pub open spec fn runs(r: Result<InputTask, InputError>, a: CustomAction) -> bool {
    r is Ok && r->Ok_0 is RunMacro && same_action(r->Ok_0->RunMacro_0, a)
}

impl ServerState {
    /// Decides what a request of the companion device asks the host to do.
    ///
    /// Text, copy and paste requests pass through. A macro request names a saved
    /// macro by id. A preparation request opens a recording session. A gesture
    /// names its action: `"copy"`, `"paste"`, `"text_input"` (with its text), or
    /// `"custom_action"`, which replays the first saved macro.
    pub fn handle_input(&mut self, action: ActionType) -> (r: Result<InputTask, InputError>)
        requires
            old(self).wf(),
        ensures
            final(self).wf(),
            !(action is PrepareRecording) ==> *final(self) == *old(self),
            action is Text ==> r == Ok::<InputTask, InputError>(InputTask::TypeText(action->Text_text)),
            action is Copy ==> r == Ok::<InputTask, InputError>(InputTask::Copy),
            action is Paste ==> r == Ok::<InputTask, InputError>(InputTask::Paste),
            action is Custom ==> {
                let id = action->Custom_action_id;
                &&& has_action(old(self).custom_actions@, id@) ==> exists|i: int|
                    0 <= i < old(self).custom_actions@.len() && old(self).custom_actions@[i].id@ == id@ && runs(
                        r,
                        #[trigger] old(self).custom_actions@[i],
                    )
                &&& !has_action(old(self).custom_actions@, id@) ==> r == Err::<InputTask, InputError>(
                    InputError::ActionNotFound(id),
                )
            },
            action is PrepareRecording ==> {
                &&& old(self).recording_modal_info is Some ==> r == Err::<InputTask, InputError>(
                    InputError::Session(SessionError::Conflict),
                ) && *final(self) == *old(self)
                &&& old(self).recording_modal_info is None ==> r == Ok::<InputTask, InputError>(
                    InputTask::Prepared {
                        name: action->PrepareRecording_name,
                        shortcut_type: prepared_kind(opt_view(action->PrepareRecording_shortcut_type)),
                    },
                ) && final(self).recording_modal_info is Some && same_outside_session(*old(self), *final(self))
                    && {
                    let m = modal(*final(self));
                    &&& m.action_id == action->PrepareRecording_action_id
                    &&& m.name == action->PrepareRecording_name
                    &&& m.icon == action->PrepareRecording_icon
                    &&& m.is_visible
                    &&& !m.is_recording
                    &&& !m.is_completed
                    &&& m.start_time is None
                    &&& m.recorded_keys@.len() == 0
                    &&& m.shortcut_type == prepared_kind(opt_view(action->PrepareRecording_shortcut_type))
                }
            },
            action is Gesture ==> {
                let g = action->Gesture_action@;
                let data = action->Gesture_action_data;
                if g == "copy"@ {
                    r == Ok::<InputTask, InputError>(InputTask::Copy)
                } else if g == "paste"@ {
                    r == Ok::<InputTask, InputError>(InputTask::Paste)
                } else if g == "text_input"@ {
                    &&& data is Some ==> r == Ok::<InputTask, InputError>(InputTask::TypeText(data->0))
                    &&& data is None ==> r == Err::<InputTask, InputError>(InputError::MissingGestureText)
                } else if g == "custom_action"@ {
                    &&& old(self).custom_actions@.len() > 0 ==> runs(r, old(self).custom_actions@[0])
                    &&& old(self).custom_actions@.len() == 0 ==> r == Err::<InputTask, InputError>(
                        InputError::NoCustomActions,
                    )
                } else {
                    r == Err::<InputTask, InputError>(InputError::UnknownGesture(action->Gesture_action))
                }
            },
    {
        match action {
            ActionType::Text { text } => Ok(InputTask::TypeText(text)),
            ActionType::Copy => Ok(InputTask::Copy),
            ActionType::Paste => Ok(InputTask::Paste),
            ActionType::Custom { action_id } => {
                match self.find_custom_action(&action_id) {
                    Some(a) => Ok(InputTask::RunMacro(a.duplicate())),
                    None => Err(InputError::ActionNotFound(action_id)),
                }
            },
            ActionType::PrepareRecording { action_id, name, icon, shortcut_type } => {
                let kind = crate::session::prepared_shortcut_type(&shortcut_type);
                match self.prepare_recording(action_id, name.clone(), icon, &shortcut_type) {
                    Ok(()) => Ok(InputTask::Prepared { name, shortcut_type: kind }),
                    Err(e) => Err(InputError::Session(e)),
                }
            },
            ActionType::Gesture { fingers: _, direction: _, action, action_data } => {
                if same_text(action.as_str(), "copy") {
                    Ok(InputTask::Copy)
                } else if same_text(action.as_str(), "paste") {
                    Ok(InputTask::Paste)
                } else if same_text(action.as_str(), "text_input") {
                    match action_data {
                        Some(text) => Ok(InputTask::TypeText(text)),
                        None => Err(InputError::MissingGestureText),
                    }
                } else if same_text(action.as_str(), "custom_action") {
                    if self.custom_actions.len() > 0 {
                        Ok(InputTask::RunMacro(self.custom_actions[0].duplicate()))
                    } else {
                        Err(InputError::NoCustomActions)
                    }
                } else {
                    Err(InputError::UnknownGesture(action))
                }
            },
        }
    }
}

} // verus!
