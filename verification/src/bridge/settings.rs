//! The settings page: what the daemon's configuration says, and what of it the
//! shell shows.

use vstd::prelude::*;

use crate::model;
use crate::model::Duplicate;

verus! {

/// The daemon's configuration, as far as the shell reads it.
#[derive(Debug)]
pub struct SettingsSnapshot {
    pub permission_level: u64,
    pub lang: String,
    pub theme: String,
    pub workspace_configured_mode: String,
    pub workspace_active_mode: String,
    pub workspace_endpoint: String,
    pub tools: Vec<String>,
    pub notifications_enabled: bool,
}

/// The model of a `SettingsSnapshot`.
#[verifier::ext_equal]
pub struct SettingsView {
    pub permission_level: u64,
    pub lang: Seq<char>,
    pub theme: Seq<char>,
    pub workspace_configured_mode: Seq<char>,
    pub workspace_active_mode: Seq<char>,
    pub workspace_endpoint: Seq<char>,
    pub tools: Seq<Seq<char>>,
    pub notifications_enabled: bool,
}

impl View for SettingsSnapshot {
    type V = SettingsView;

    open spec fn view(&self) -> SettingsView {
        SettingsView {
            permission_level: self.permission_level,
            lang: self.lang@,
            theme: self.theme@,
            workspace_configured_mode: self.workspace_configured_mode@,
            workspace_active_mode: self.workspace_active_mode@,
            workspace_endpoint: self.workspace_endpoint@,
            tools: model::views(self.tools@),
            notifications_enabled: self.notifications_enabled,
        }
    }
}

impl Duplicate for SettingsSnapshot {
    fn duplicate(&self) -> (r: SettingsSnapshot) {
        SettingsSnapshot {
            permission_level: self.permission_level,
            lang: self.lang.clone(),
            theme: self.theme.clone(),
            workspace_configured_mode: self.workspace_configured_mode.clone(),
            workspace_active_mode: self.workspace_active_mode.clone(),
            workspace_endpoint: self.workspace_endpoint.clone(),
            tools: model::duplicate_all(&self.tools),
            notifications_enabled: self.notifications_enabled,
        }
    }
}

/// What the shell shows of the settings.
#[derive(Debug)]
pub struct SettingsProjection {
    /// system, light, dark or dark-gray.
    pub theme: String,
    /// en or zh.
    pub lang: String,
    pub permission_level: u64,
    /// local, wsl or remote.
    pub workspace_mode: String,
}

/// The model of a `SettingsProjection`.
#[verifier::ext_equal]
pub struct ProjectionView {
    pub theme: Seq<char>,
    pub lang: Seq<char>,
    pub permission_level: u64,
    pub workspace_mode: Seq<char>,
}

impl View for SettingsProjection {
    type V = ProjectionView;

    open spec fn view(&self) -> ProjectionView {
        ProjectionView {
            theme: self.theme@,
            lang: self.lang@,
            permission_level: self.permission_level,
            workspace_mode: self.workspace_mode@,
        }
    }
}

/// The projection before a configuration was loaded.
pub open spec fn no_projection() -> ProjectionView {
    ProjectionView {
        theme: Seq::empty(),
        lang: Seq::empty(),
        permission_level: 0,
        workspace_mode: Seq::empty(),
    }
}

impl Default for SettingsProjection {
    fn default() -> (r: SettingsProjection)
        ensures
            r@ == no_projection(),
    {
        SettingsProjection {
            theme: String::new(),
            lang: String::new(),
            permission_level: 0,
            workspace_mode: String::new(),
        }
    }
}

impl Duplicate for SettingsProjection {
    fn duplicate(&self) -> (r: SettingsProjection) {
        SettingsProjection {
            theme: self.theme.clone(),
            lang: self.lang.clone(),
            permission_level: self.permission_level,
            workspace_mode: self.workspace_mode.clone(),
        }
    }
}

/// What the shell shows of a configuration.
pub open spec fn projected(s: SettingsView) -> ProjectionView {
    ProjectionView {
        theme: s.theme,
        lang: s.lang,
        permission_level: s.permission_level,
        workspace_mode: s.workspace_active_mode,
    }
}

/// What the shell shows of a configuration is what stands in it: its theme, its
/// language, its permission level, and the mode that its workspace runs in, not
/// the one that was configured.
pub proof fn settings_are_shown_as_they_are(s: SettingsSnapshot)
    ensures
        projected(s@).theme == s.theme@,
        projected(s@).lang == s.lang@,
        projected(s@).permission_level == s.permission_level,
        projected(s@).workspace_mode == s.workspace_active_mode@,
{
}

/// `projected`, executable.
pub fn project_settings(s: &SettingsSnapshot) -> (r: SettingsProjection)
    ensures
        r@ == projected(s@),
{
    SettingsProjection {
        theme: s.theme.clone(),
        lang: s.lang.clone(),
        permission_level: s.permission_level,
        workspace_mode: s.workspace_active_mode.clone(),
    }
}

} // verus!
