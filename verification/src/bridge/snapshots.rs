//! What the views read: copies of the projections, with their versions.

use vstd::prelude::*;

use crate::bridge::bridge_core::BridgeCore;
use crate::bridge::header::HeaderState;
use crate::bridge::interaction::InteractionState;
use crate::bridge::remote::{RemoteFsListing, RemoteFsPreview, RemoteProfile};
use crate::bridge::settings::{SettingsProjection, SettingsSnapshot};
use crate::bridge::store::{
    DashboardSnapshot, SessionDetail, SessionItem, SkillsSnapshot, WorkspaceItem,
};
use crate::model;
use crate::model::Duplicate;

verus! {

impl BridgeCore {
    /// The sidebar's sessions.
    pub fn session_snapshot(&self) -> (r: (Vec<SessionItem>, u64))
        ensures
            model::views(r.0@) == self@.sessions,
            r.1 == self@.session_rev,
    {
        (model::duplicate_all(&self.sessions), self.session_rev)
    }

    /// The sidebar's workspaces.
    pub fn workspace_snapshot(&self) -> (r: (Vec<WorkspaceItem>, u64))
        ensures
            model::views(r.0@) == self@.workspaces,
            r.1 == self@.workspace_rev,
    {
        (model::duplicate_all(&self.workspaces), self.workspace_rev)
    }

    /// The title bar.
    pub fn header_snapshot(&self) -> (r: (HeaderState, u64))
        ensures
            r.0@ == self@.header,
            r.1 == self@.header_rev,
    {
        (self.header.duplicate(), self.header_rev)
    }

    /// The overlay.
    pub fn interaction_snapshot(&self) -> (r: (InteractionState, u64))
        ensures
            r.0@ == self@.interaction,
            r.1 == self@.interaction_rev,
    {
        (self.interaction.duplicate(), self.interaction_rev)
    }

    /// The goals of the active session.
    pub fn dashboard_snapshot(&self) -> (r: (Option<DashboardSnapshot>, u64))
        ensures
            model::opt_view(r.0) == (if self@.dashboards.contains_key(self@.active_seed) {
                Some(self@.dashboards[self@.active_seed])
            } else {
                None
            }),
            r.1 == self@.dashboard_rev,
    {
        let shown = match self.dashboards.get(self.active_seed.as_str()) {
            Some(dashboard) => Some(dashboard.duplicate()),
            None => None,
        };
        (shown, self.dashboard_rev)
    }

    /// The skills page.
    pub fn skills_snapshot(&self) -> (r: (Option<SkillsSnapshot>, u64))
        ensures
            model::opt_view(r.0) == self@.skills,
            r.1 == self@.skills_rev,
    {
        (model::duplicate_opt(&self.skills), self.skills_rev)
    }

    /// The info panel.
    pub fn info_snapshot(&self) -> (r: (Option<SessionDetail>, u64))
        ensures
            model::opt_view(r.0) == self@.info,
            r.1 == self@.info_rev,
    {
        (model::duplicate_opt(&self.info), self.info_rev)
    }

    /// The settings page.
    pub fn settings_snapshot(&self) -> (r: (Option<SettingsSnapshot>, u64))
        ensures
            model::opt_view(r.0) == self@.settings,
            r.1 == self@.settings_rev,
    {
        (model::duplicate_opt(&self.settings), self.settings_rev)
    }

    /// What the shell shows of the settings.
    pub fn settings_projection(&self) -> (r: (SettingsProjection, u64))
        ensures
            r.0@ == self@.settings_proj,
            r.1 == self@.settings_proj_rev,
    {
        (self.settings_proj.duplicate(), self.settings_proj_rev)
    }

    /// The remote directory.
    pub fn fs_listing_snapshot(&self) -> (r: (RemoteFsListing, u64))
        ensures
            r.0@ == self@.remote.listing,
            r.1 == self@.remote.listing_rev,
    {
        (self.remote.listing.duplicate(), self.remote.listing_rev)
    }

    /// The remote file.
    pub fn fs_preview_snapshot(&self) -> (r: (Option<RemoteFsPreview>, u64))
        ensures
            model::opt_view(r.0) == self@.remote.preview,
            r.1 == self@.remote.preview_rev,
    {
        (model::duplicate_opt(&self.remote.preview), self.remote.preview_rev)
    }

    /// The remote daemon; none means the local one.
    pub fn remote_profile_snapshot(&self) -> (r: Option<RemoteProfile>)
        ensures
            model::opt_view(r) == self@.remote.profile,
    {
        model::duplicate_opt(&self.remote.profile)
    }

    /// The session that is shown; empty if none.
    pub fn active_seed(&self) -> (r: String)
        ensures
            r@ == self@.active_seed,
    {
        self.active_seed.clone()
    }

    /// The view that is shown.
    pub fn current_view(&self) -> (r: String)
        ensures
            r@ == self@.current_view,
    {
        self.current_view.clone()
    }

    /// The name of the view that is shown.
    pub fn current_view_name(&self) -> (r: String)
        ensures
            r@ == self@.current_view,
    {
        self.current_view()
    }

    /// The chosen workspace.
    pub fn current_workspace(&self) -> (r: Option<String>)
        ensures
            model::opt_view(r) == self@.current_workspace,
    {
        model::duplicate_opt(&self.current_workspace)
    }

    /// Whether a daemon is connected.
    pub fn backend_connected(&self) -> (r: bool)
        ensures
            r == self@.health.connected,
    {
        self.health.connected
    }

    /// Whether notifications are wanted.
    pub fn notif_enabled(&self) -> (r: bool)
        ensures
            r == self@.notif_enabled,
    {
        self.notif_enabled
    }
}

} // verus!
