use vstd::prelude::*;

verus! {

/// User preferences shared with the companion device.
#[derive(Clone, Copy, Debug, PartialEq, Eq, Structural)]
pub struct AppSettings {
    pub haptics_enabled: bool,
}

impl Default for AppSettings {
    fn default() -> (r: Self)
        ensures
            r.haptics_enabled,
    {
        AppSettings { haptics_enabled: true }
    }
}

/// The settings in force: the stored ones if they could be read, the defaults
/// otherwise.
pub fn get_current_settings(current: Option<&AppSettings>) -> (r: AppSettings)
    ensures
        current matches Some(s) ==> r == *s,
        current is None ==> r.haptics_enabled,
{
    match current {
        Some(s) => *s,
        None => AppSettings { haptics_enabled: true },
    }
}

impl AppSettings {
    /// These settings with the fields that an update names replaced.
    pub fn with_updates(&self, haptics_enabled: Option<bool>) -> (r: AppSettings)
        ensures
            haptics_enabled matches Some(h) ==> r.haptics_enabled == h,
            haptics_enabled is None ==> r == *self,
    {
        match haptics_enabled {
            Some(h) => AppSettings { haptics_enabled: h },
            None => *self,
        }
    }
}

} // verus!
