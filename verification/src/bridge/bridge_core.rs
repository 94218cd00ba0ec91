//! The state that the native shell keeps of the daemon, and how the daemon's
//! events and the user's actions change it.
//!
//! Every view of the shell shows a projection of this state: the sidebar the
//! sessions, the title bar the header, the composer and the overlays what
//! belongs to the active session. A projection that changed gets a new version
//! number; the views compare versions.

use vstd::prelude::*;

use crate::bridge::composer;
use crate::bridge::composer::{
    ActivityView, ComposerActivity, ComposerFeedback, FeedbackView, ToolModeState, ToolModeView,
};
use crate::bridge::header;
use crate::bridge::header::{HeaderState, HeaderView};
use crate::bridge::health::Health;
use crate::bridge::interaction;
use crate::bridge::interaction::{
    InteractionMachine, InteractionState, InteractionStateView, MachineView,
};
use crate::bridge::remote::{RemoteState, RemoteView};
use crate::bridge::settings;
use crate::bridge::settings::{ProjectionView, SettingsProjection, SettingsSnapshot, SettingsView};
use crate::bridge::store;
use crate::bridge::store::{
    ActivityState, DashboardSnapshot, DashboardView, DetailView, SessionDetail, SessionItem,
    SessionView, SkillsSnapshot, SkillsView, WorkspaceItem, WorkspaceView,
};
use crate::bridge::subagent::{SubagentList, SubagentView};
use crate::bridge::transcript::{CacheView, TimelineCache};
use crate::model;
use crate::model::Same;
use crate::seed_map::SeedMap;
use crate::text;

verus! {

broadcast use {model::map_views_insert, model::map_views_remove, model::map_views_empty};

/// The shell's state.
pub struct BridgeCore {
    /// The session that is shown; empty if none.
    pub active_seed: String,
    pub current_view: String,
    pub sessions: Vec<SessionItem>,
    pub session_rev: u64,
    /// What the sessions are doing, as far as the daemon said.
    pub activities: SeedMap<ActivityState>,
    pub workspaces: Vec<WorkspaceItem>,
    pub workspace_rev: u64,
    pub current_workspace: Option<String>,
    pub header: HeaderState,
    pub header_rev: u64,
    /// How many turns a session has; at least one is known to exist after its
    /// start was seen.
    pub header_turns: SeedMap<usize>,
    /// How far the compacting of a session is.
    pub compact_statuses: SeedMap<String>,
    pub last_turn_ids: SeedMap<String>,
    pub interaction: InteractionState,
    pub interaction_rev: u64,
    pub interactions: SeedMap<InteractionMachine>,
    pub composer_rev: u64,
    pub composer_activity: SeedMap<ComposerActivity>,
    pub composer_mode: String,
    pub composer_tool_mode: ToolModeState,
    pub composer_feedback: SeedMap<ComposerFeedback>,
    pub subagents: SeedMap<SubagentList>,
    pub dashboards: SeedMap<DashboardSnapshot>,
    pub dashboard_rev: u64,
    pub skills: Option<SkillsSnapshot>,
    pub skills_rev: u64,
    pub info: Option<SessionDetail>,
    pub info_rev: u64,
    pub settings: Option<SettingsSnapshot>,
    pub settings_rev: u64,
    pub settings_proj: SettingsProjection,
    pub settings_proj_rev: u64,
    /// What became of the last attempt to save the settings.
    pub save_status: Option<Result<(), String>>,
    pub save_status_rev: u64,
    pub notif_enabled: bool,
    /// The sessions that the shell has joined.
    pub attached: SeedMap<bool>,
    pub timeline: TimelineCache,
    pub remote: RemoteState,
    pub health: Health,
}

/// The model of a `BridgeCore`.
#[verifier::ext_equal]
pub struct CoreView {
    pub active_seed: Seq<char>,
    pub current_view: Seq<char>,
    pub sessions: Seq<SessionView>,
    pub session_rev: u64,
    pub activities: Map<Seq<char>, ActivityState>,
    pub workspaces: Seq<WorkspaceView>,
    pub workspace_rev: u64,
    pub current_workspace: Option<Seq<char>>,
    pub header: HeaderView,
    pub header_rev: u64,
    pub header_turns: Map<Seq<char>, usize>,
    pub compact_statuses: Map<Seq<char>, Seq<char>>,
    pub last_turn_ids: Map<Seq<char>, Seq<char>>,
    pub interaction: InteractionStateView,
    pub interaction_rev: u64,
    pub interactions: Map<Seq<char>, MachineView>,
    pub composer_rev: u64,
    pub composer_activity: Map<Seq<char>, ActivityView>,
    pub composer_mode: Seq<char>,
    pub composer_tool_mode: ToolModeView,
    pub composer_feedback: Map<Seq<char>, FeedbackView>,
    pub subagents: Map<Seq<char>, Seq<SubagentView>>,
    pub dashboards: Map<Seq<char>, DashboardView>,
    pub dashboard_rev: u64,
    pub skills: Option<SkillsView>,
    pub skills_rev: u64,
    pub info: Option<DetailView>,
    pub info_rev: u64,
    pub settings: Option<SettingsView>,
    pub settings_rev: u64,
    pub settings_proj: ProjectionView,
    pub settings_proj_rev: u64,
    pub save_status: Option<Result<(), Seq<char>>>,
    pub save_status_rev: u64,
    pub notif_enabled: bool,
    pub attached: Map<Seq<char>, bool>,
    pub timeline: CacheView,
    pub remote: RemoteView,
    pub health: Health,
}

/// The model of what became of an attempt to save.
pub open spec fn saved_view(status: Option<Result<(), String>>) -> Option<Result<(), Seq<char>>> {
    match status {
        None => None,
        Some(Ok(_)) => Some(Ok(())),
        Some(Err(error)) => Some(Err(error@)),
    }
}

impl View for BridgeCore {
    type V = CoreView;

    open spec fn view(&self) -> CoreView {
        CoreView {
            active_seed: self.active_seed@,
            current_view: self.current_view@,
            sessions: model::views(self.sessions@),
            session_rev: self.session_rev,
            activities: self.activities@,
            workspaces: model::views(self.workspaces@),
            workspace_rev: self.workspace_rev,
            current_workspace: model::opt_view(self.current_workspace),
            header: self.header@,
            header_rev: self.header_rev,
            header_turns: self.header_turns@,
            compact_statuses: model::map_views(self.compact_statuses@),
            last_turn_ids: model::map_views(self.last_turn_ids@),
            interaction: self.interaction@,
            interaction_rev: self.interaction_rev,
            interactions: model::map_views(self.interactions@),
            composer_rev: self.composer_rev,
            composer_activity: model::map_views(self.composer_activity@),
            composer_mode: self.composer_mode@,
            composer_tool_mode: self.composer_tool_mode@,
            composer_feedback: model::map_views(self.composer_feedback@),
            subagents: model::map_views(self.subagents@),
            dashboards: model::map_views(self.dashboards@),
            dashboard_rev: self.dashboard_rev,
            skills: model::opt_view(self.skills),
            skills_rev: self.skills_rev,
            info: model::opt_view(self.info),
            info_rev: self.info_rev,
            settings: model::opt_view(self.settings),
            settings_rev: self.settings_rev,
            settings_proj: self.settings_proj@,
            settings_proj_rev: self.settings_proj_rev,
            save_status: saved_view(self.save_status),
            save_status_rev: self.save_status_rev,
            notif_enabled: self.notif_enabled,
            attached: self.attached@,
            timeline: self.timeline@,
            remote: self.remote@,
            health: self.health,
        }
    }
}

// ---------------------------------------------------------------------------
// Projections of the active session
// ---------------------------------------------------------------------------

/// The session `seed`, if it is listed.
pub open spec fn session_of(c: CoreView, seed: Seq<char>) -> Option<SessionView> {
    match store::session_at(c.sessions, seed) {
        Some(i) => Some(c.sessions[i]),
        None => None,
    }
}

/// Whether a turn of `seed` runs at `now`. What the shell saw of the turn
/// counts; where it saw none yet, what the daemon said the session is doing.
pub open spec fn seed_streaming(c: CoreView, seed: Seq<char>, now: u64) -> bool {
    if c.composer_activity.contains_key(seed) {
        composer::streaming(c.composer_activity[seed], now)
    } else {
        c.activities.contains_key(seed) && store::busy(c.activities[seed])
    }
}

/// The path of the workspace `id` as it is shown; empty if there is none.
pub open spec fn shown_workspace(c: CoreView, id: Seq<char>) -> Seq<char> {
    match store::workspace_by_id(c.workspaces, id) {
        Some(w) => w.shown_path,
        None => Seq::empty(),
    }
}

/// The path that the title bar would show: that of the chosen workspace, else
/// that of the active session's workspace, else that session's directory.
pub open spec fn workspace_display(c: CoreView) -> Seq<char> {
    match c.current_workspace {
        Some(id) => shown_workspace(c, id),
        None => match session_of(c, c.active_seed) {
            Some(s) => match s.workspace_id {
                Some(id) => shown_workspace(c, id),
                None => match s.shown_cwd {
                    Some(cwd) => cwd,
                    None => Seq::empty(),
                },
            },
            None => Seq::empty(),
        },
    }
}

/// The title bar of the active session at `now`. A path that is known takes the
/// place of the one shown and of an error; where none is known both stay. What
/// the user switched stays too.
pub open spec fn header_of(c: CoreView, now: u64) -> HeaderView {
    let path = workspace_display(c);
    let streaming = seed_streaming(c, c.active_seed, now);
    HeaderView {
        view: c.current_view,
        seed: c.active_seed,
        title: match session_of(c, c.active_seed) {
            Some(s) => s.title,
            None => Seq::empty(),
        },
        compacting: c.compact_statuses.contains_key(c.active_seed)
            && c.compact_statuses[c.active_seed] == "running"@,
        undo_disabled: !(c.header_turns.contains_key(c.active_seed)
            && c.header_turns[c.active_seed] > 0) || streaming,
        compact_disabled: streaming,
        workspace: if path.len() > 0 {
            path
        } else {
            c.header.workspace
        },
        workspace_error: if path.len() > 0 {
            None
        } else {
            c.header.workspace_error
        },
        ..c.header
    }
}

/// The state with its title bar brought up to date.
pub open spec fn with_header(c: CoreView, now: u64) -> CoreView {
    CoreView { header: header_of(c, now), header_rev: model::next_rev(c.header_rev), ..c }
}

/// The interaction of the active session.
pub open spec fn interaction_shown(c: CoreView) -> InteractionStateView {
    if c.interactions.contains_key(c.active_seed) {
        interaction::shown(c.interactions[c.active_seed], c.active_seed)
    } else {
        interaction::no_interaction()
    }
}

/// The state with its interaction brought up to date. An interaction that did
/// not change gets no new version.
pub open spec fn with_interaction(c: CoreView) -> CoreView {
    if c.interaction == interaction_shown(c) {
        c
    } else {
        CoreView {
            interaction: interaction_shown(c),
            interaction_rev: model::next_rev(c.interaction_rev),
            ..c
        }
    }
}

/// The state after `seed` became the active session.
pub open spec fn activated(c: CoreView, seed: Seq<char>, now: u64) -> CoreView {
    with_header(
        with_interaction(
            CoreView {
                active_seed: seed,
                composer_rev: model::next_rev(c.composer_rev),
                dashboard_rev: model::next_rev(c.dashboard_rev),
                ..c
            },
        ),
        now,
    )
}

/// The state after the view was changed, and the session where one is given.
pub open spec fn navigated(
    c: CoreView,
    view: Seq<char>,
    seed: Option<Seq<char>>,
    now: u64,
) -> CoreView {
    let there = CoreView { current_view: view, ..c };
    match seed {
        Some(s) => with_header(activated(there, s, now), now),
        None => with_header(there, now),
    }
}

impl BridgeCore {
    /// A shell that knows nothing yet, at time `now`.
    pub fn new(now: u64) -> (r: BridgeCore)
        ensures
            r@.active_seed == Seq::<char>::empty(),
            r@.current_view == "home"@,
            r@.composer_mode == "code"@,
            r@.sessions.len() == 0,
            r@.workspaces.len() == 0,
            r@.current_workspace is None,
            r@.header == header::blank_header(),
            r@.interaction == interaction::no_interaction(),
            r@.activities == Map::<Seq<char>, ActivityState>::empty(),
            r@.header_turns == Map::<Seq<char>, usize>::empty(),
            r@.compact_statuses == Map::<Seq<char>, Seq<char>>::empty(),
            r@.last_turn_ids == Map::<Seq<char>, Seq<char>>::empty(),
            r@.interactions == Map::<Seq<char>, MachineView>::empty(),
            r@.composer_activity == Map::<Seq<char>, ActivityView>::empty(),
            r@.composer_feedback == Map::<Seq<char>, FeedbackView>::empty(),
            r@.subagents == Map::<Seq<char>, Seq<SubagentView>>::empty(),
            r@.dashboards == Map::<Seq<char>, DashboardView>::empty(),
            r@.composer_tool_mode == (ToolModeView {
                mode: Seq::empty(),
                custom_tools: Seq::empty(),
            }),
            r@.skills is None,
            r@.info is None,
            r@.settings is None,
            r@.settings_proj == settings::no_projection(),
            r@.save_status is None,
            r@.notif_enabled,
            r@.attached == Map::<Seq<char>, bool>::empty(),
            r@.remote == crate::bridge::remote::no_remote(),
            r@.session_rev == 0 && r@.workspace_rev == 0 && r@.header_rev == 0,
            r@.interaction_rev == 0 && r@.composer_rev == 0 && r@.dashboard_rev == 0,
            r@.skills_rev == 0 && r@.info_rev == 0 && r@.settings_rev == 0,
            r@.settings_proj_rev == 0 && r@.save_status_rev == 0,
            r@.timeline.last_timeline_seed == Seq::<char>::empty(),
            r@.timeline.timeline_rev == 0 && r@.timeline.resume_generation == 0,
            r@.timeline.chat_timeline is None && r@.timeline.subagent_timeline is None,
            r@.timeline.subagent_fetching == Map::<Seq<char>, bool>::empty(),
            r@.timeline.has_more == Map::<Seq<char>, bool>::empty(),
            r@.timeline.fetching == Map::<Seq<char>, bool>::empty(),
            r@.timeline.chat_prepend.len() == 0 && r@.timeline.refresh_at is None,
            r@.timeline.events.total() == 0,
            forall|seed: Seq<char>| (#[trigger] r@.timeline.events.queue(seed)).len() == 0,
            r@.health == (Health {
                connected: false,
                connecting: false,
                rebuilding: false,
                control: None,
                tool: None,
                conversation: None,
                timeline_status: None,
                timeline_stall_since: None,
                channels_stall_since: None,
                last_rebuild_at: now,
                last_auto_reconnect_at: now,
                rebuild_failures: 0,
            }),
    {
        let r = BridgeCore {
            active_seed: String::new(),
            current_view: "home".to_owned(),
            sessions: Vec::new(),
            session_rev: 0,
            activities: SeedMap::new(),
            workspaces: Vec::new(),
            workspace_rev: 0,
            current_workspace: None,
            header: HeaderState::default(),
            header_rev: 0,
            header_turns: SeedMap::new(),
            compact_statuses: SeedMap::new(),
            last_turn_ids: SeedMap::new(),
            interaction: InteractionState::default(),
            interaction_rev: 0,
            interactions: SeedMap::new(),
            composer_rev: 0,
            composer_activity: SeedMap::new(),
            composer_mode: "code".to_owned(),
            composer_tool_mode: ToolModeState { mode: String::new(), custom_tools: Vec::new() },
            composer_feedback: SeedMap::new(),
            subagents: SeedMap::new(),
            dashboards: SeedMap::new(),
            dashboard_rev: 0,
            skills: None,
            skills_rev: 0,
            info: None,
            info_rev: 0,
            settings: None,
            settings_rev: 0,
            settings_proj: SettingsProjection::default(),
            settings_proj_rev: 0,
            save_status: None,
            save_status_rev: 0,
            notif_enabled: true,
            attached: SeedMap::new(),
            timeline: TimelineCache::new(),
            remote: RemoteState::new(),
            health: Health::new(now),
        };
        assert(r@.composer_tool_mode.custom_tools =~= Seq::empty());
        r
    }

    /// Whether a turn of `seed` runs at `now`.
    pub fn seed_is_streaming(&self, seed: &str, now: u64) -> (r: bool)
        ensures
            r == seed_streaming(self@, seed@, now),
    {
        match self.composer_activity.get(seed) {
            Some(activity) => activity.is_streaming(now),
            None => match self.activities.get(seed) {
                Some(state) => store::is_busy(*state),
                None => false,
            },
        }
    }

    /// The path of the workspace `id` as it is shown.
    fn shown_path(&self, id: &str) -> (r: String)
        ensures
            r@ == shown_workspace(self@, id@),
    {
        match store::find_workspace(&self.workspaces, id) {
            Some(i) => self.workspaces[i].shown_path.clone(),
            None => String::new(),
        }
    }

    /// The path that the title bar would show.
    fn display_path(&self) -> (r: String)
        ensures
            r@ == workspace_display(self@),
    {
        match &self.current_workspace {
            Some(id) => self.shown_path(id.as_str()),
            None => match store::find_session(&self.sessions, self.active_seed.as_str()) {
                Some(i) => match &self.sessions[i].workspace_id {
                    Some(id) => self.shown_path(id.as_str()),
                    None => match &self.sessions[i].shown_cwd {
                        Some(cwd) => cwd.clone(),
                        None => String::new(),
                    },
                },
                None => String::new(),
            },
        }
    }

    /// The title bar of the active session at `now`.
    fn header_now(&self, now: u64) -> (r: HeaderState)
        ensures
            r@ == header_of(self@, now),
    {
        let title = match store::find_session(&self.sessions, self.active_seed.as_str()) {
            Some(i) => self.sessions[i].title.clone(),
            None => String::new(),
        };
        let streaming = self.seed_is_streaming(self.active_seed.as_str(), now);
        let turns: usize = match self.header_turns.get(self.active_seed.as_str()) {
            Some(n) => *n,
            None => 0,
        };
        let compacting = match self.compact_statuses.get(self.active_seed.as_str()) {
            Some(status) => text::same(status.as_str(), "running"),
            None => false,
        };
        let path = self.display_path();
        let known = !path.as_str().is_empty();
        HeaderState {
            view: self.current_view.clone(),
            seed: self.active_seed.clone(),
            title,
            workspace: if known {
                path
            } else {
                self.header.workspace.clone()
            },
            workspace_error: if known {
                None
            } else {
                model::duplicate_opt(&self.header.workspace_error)
            },
            info_open: self.header.info_open,
            stats_open: self.header.stats_open,
            compacting,
            compact_disabled: streaming,
            undo_disabled: turns == 0 || streaming,
            pet_enabled: self.header.pet_enabled,
        }
    }

    /// Brings the title bar up to date.
    pub fn refresh_header(&mut self, now: u64)
        ensures
            final(self)@ == with_header(old(self)@, now),
    {
        let next = self.header_now(now);
        self.header = next;
        self.header_rev = model::bump(self.header_rev);
    }

    /// Brings the interaction up to date.
    pub fn refresh_interaction_snapshot(&mut self)
        ensures
            final(self)@ == with_interaction(old(self)@),
    {
        let next = match self.interactions.get(self.active_seed.as_str()) {
            Some(machine) => machine.snapshot(self.active_seed.as_str()),
            None => InteractionState::default(),
        };
        if !self.interaction.same_as(&next) {
            self.interaction = next;
            self.interaction_rev = model::bump(self.interaction_rev);
        }
    }

    /// Makes `seed` the active session.
    pub fn set_active_seed(&mut self, seed: &str, now: u64)
        ensures
            final(self)@ == activated(old(self)@, seed@, now),
    {
        self.active_seed = seed.to_owned();
        self.composer_rev = model::bump(self.composer_rev);
        self.dashboard_rev = model::bump(self.dashboard_rev);
        self.refresh_interaction_snapshot();
        self.refresh_header(now);
    }

    /// Changes the view, and the active session where one is given.
    pub fn navigate(&mut self, view: &str, seed: Option<&str>, now: u64)
        ensures
            final(self)@ == navigated(
                old(self)@,
                view@,
                match seed {
                    Some(s) => Some(s@),
                    None => None,
                },
                now,
            ),
    {
        self.current_view = view.to_owned();
        if let Some(seed) = seed {
            self.set_active_seed(seed, now);
        }
        self.refresh_header(now);
    }
}

} // verus!
