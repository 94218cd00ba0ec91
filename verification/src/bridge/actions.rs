//! Settings, notifications, and the change from one daemon to another.

use vstd::prelude::*;

use crate::bridge::bridge_core;
use crate::bridge::bridge_core::{BridgeCore, CoreView};
use crate::bridge::health;
use crate::bridge::health::Health;
use crate::bridge::interaction::{AskQuestion, AskQuestionView, InteractionEvent, InteractionEventView};
use crate::bridge::reducer;
use crate::bridge::remote;
use crate::bridge::remote::RemoteView;
use crate::bridge::settings;
use crate::bridge::settings::{SettingsSnapshot, SettingsView};
use crate::bridge::transcript;
use crate::bridge::transcript::{CacheView, TimelineSnapshot};
use crate::json;
use crate::json::{Json, JsonView};
use crate::model;
use crate::seed_map::SeedMap;
use crate::text;

verus! {

broadcast use {model::map_views_insert, model::map_views_remove, model::map_views_empty};

// ---------------------------------------------------------------------------
// Settings
// ---------------------------------------------------------------------------

/// The state after a configuration was loaded.
pub open spec fn with_config(c: CoreView, config: SettingsView) -> CoreView {
    CoreView {
        settings: Some(config),
        settings_rev: model::next_rev(c.settings_rev),
        settings_proj: settings::projected(config),
        settings_proj_rev: model::next_rev(c.settings_proj_rev),
        notif_enabled: config.notifications_enabled,
        ..c
    }
}

/// The state after the daemon said how its workspace runs. Without a
/// configuration there is nothing to merge that into.
pub open spec fn with_workspace_status(
    c: CoreView,
    configured: Seq<char>,
    active: Seq<char>,
    endpoint: Seq<char>,
) -> CoreView {
    match c.settings {
        Some(config) => CoreView {
            settings: Some(
                SettingsView {
                    workspace_configured_mode: configured,
                    workspace_active_mode: active,
                    workspace_endpoint: endpoint,
                    ..config
                },
            ),
            settings_rev: model::next_rev(c.settings_rev),
            ..c
        },
        None => c,
    }
}

/// Whether a permission level is sent: only once a configuration was loaded, and
/// only if it differs from the one there.
pub open spec fn permission_changes(c: CoreView, level: u64) -> bool {
    match c.settings {
        Some(config) => config.permission_level != level,
        None => false,
    }
}

/// What the page shows first after a start, before a configuration was loaded,
/// never changes the permission level.
pub proof fn unloaded_settings_change_nothing(c: CoreView, level: u64)
    requires
        c.settings is None,
    ensures
        !permission_changes(c, level),
{
}

/// The level that was loaded is not sent back.
pub proof fn loaded_level_is_not_sent_back(c: CoreView, config: SettingsView)
    ensures
        !permission_changes(with_config(c, config), config.permission_level),
        with_config(c, config).settings_proj.permission_level == config.permission_level,
{
}

/// Whether notifications are wanted, in the file of local preferences: yes,
/// unless it says no.
pub open spec fn notif_pref_in(prefs: Option<JsonView>) -> bool {
    match prefs {
        Some(value) => value.field("notificationsEnabled"@) != Some(JsonView::Bool(false)),
        None => true,
    }
}

/// `notif_pref_in`, executable.
pub fn notif_pref(prefs: Option<&Json>) -> (r: bool)
    ensures
        r == notif_pref_in(
            match prefs {
                Some(value) => Some(value@),
                None => None,
            },
        ),
{
    match prefs {
        Some(value) => match value.get("notificationsEnabled") {
            Some(Json::Bool(wanted)) => *wanted,
            _ => true,
        },
        None => true,
    }
}

/// What the text of a file says, if it could be read and is JSON.
pub open spec fn readable(raw: Option<Seq<char>>) -> Option<JsonView> {
    match raw {
        Some(text) => json::json_text(text),
        None => None,
    }
}

impl BridgeCore {
    /// Whether the configuration has to be loaded.
    pub fn spawn_config_load(&self, force: bool) -> (r: bool)
        ensures
            r == (force || self@.settings is None),
    {
        force || self.settings.is_none()
    }

    /// Takes over a configuration. Says whether notifications are wanted.
    pub fn finish_config_load(&mut self, config: SettingsSnapshot) -> (r: bool)
        ensures
            r == config@.notifications_enabled,
            final(self)@ == with_config(old(self)@, config@),
    {
        let wanted = config.notifications_enabled;
        self.settings_proj = settings::project_settings(&config);
        self.settings_proj_rev = model::bump(self.settings_proj_rev);
        self.notif_enabled = wanted;
        self.settings = Some(config);
        self.settings_rev = model::bump(self.settings_rev);
        wanted
    }

    /// Takes over how the daemon's workspace runs.
    pub fn finish_workspace_status(
        &mut self,
        configured: String,
        active: String,
        endpoint: String,
    )
        ensures
            final(self)@ == with_workspace_status(
                old(self)@,
                configured@,
                active@,
                endpoint@,
            ),
    {
        let mut slot: Option<SettingsSnapshot> = None;
        std::mem::swap(&mut slot, &mut self.settings);
        if let Some(mut config) = slot {
            config.workspace_configured_mode = configured;
            config.workspace_active_mode = active;
            config.workspace_endpoint = endpoint;
            self.settings = Some(config);
            self.settings_rev = model::bump(self.settings_rev);
        }
    }

    /// Notes what became of an attempt to save the settings.
    pub fn finish_config_save(&mut self, outcome: Result<(), String>)
        ensures
            final(self)@ == (CoreView {
                save_status: bridge_core::saved_view(Some(outcome)),
                save_status_rev: model::next_rev(old(self)@.save_status_rev),
                ..old(self)@
            }),
    {
        self.save_status = Some(outcome);
        self.save_status_rev = model::bump(self.save_status_rev);
    }

    /// Whether to send a permission level to the daemon.
    pub fn spawn_set_permission(&self, level: u64) -> (r: bool)
        ensures
            r == permission_changes(self@, level),
    {
        match &self.settings {
            Some(config) => config.permission_level != level,
            None => false,
        }
    }

    /// Turns notifications on or off.
    pub fn spawn_set_notif_pref(&mut self, enabled: bool)
        ensures
            final(self)@ == (CoreView { notif_enabled: enabled, ..old(self)@ }),
    {
        self.notif_enabled = enabled;
    }

    /// Takes over the file of local preferences at start, if it could be read.
    /// Says whether notifications are wanted.
    pub fn init_notifications(&mut self, raw: Option<&str>) -> (r: bool)
        ensures
            r == notif_pref_in(
                readable(
                    match raw {
                        Some(text) => Some(text@),
                        None => None,
                    },
                ),
            ),
            final(self)@ == (CoreView { notif_enabled: r, ..old(self)@ }),
    {
        let prefs = match raw {
            Some(text) => json::parse(text),
            None => None,
        };
        let enabled = match &prefs {
            Some(value) => notif_pref(Some(value)),
            None => notif_pref(None),
        };
        self.notif_enabled = enabled;
        enabled
    }
}

/// What a turn that ended in `seed` is announced with, if it is: notifications
/// are wanted and can be shown, the timeline at hand is that session's, and its
/// last answer has something to read.
pub open spec fn announcement(c: CoreView, seed: Seq<char>, notifier: bool) -> Option<Seq<char>> {
    if c.notif_enabled && notifier {
        match c.timeline.chat_timeline {
            Some((owner, snapshot)) => if owner == seed {
                transcript::notification_of(snapshot)
            } else {
                None
            },
            None => None,
        }
    } else {
        None
    }
}

impl BridgeCore {
    /// `announcement`, executable. `notifier` says whether notifications can be
    /// shown.
    pub fn maybe_notify_turn_completed(&self, seed: &str, notifier: bool) -> (r: Option<String>)
        ensures
            model::opt_view(r) == announcement(self@, seed@, notifier),
    {
        if !self.notif_enabled || !notifier {
            return None;
        }
        match &self.timeline.chat_timeline {
            Some((owner, snapshot)) => if text::same(owner.as_str(), seed) {
                transcript::notification_text(snapshot)
            } else {
                None
            },
            None => None,
        }
    }
}

/// What the metadata of a session says of its context, and the version to show
/// it under: that of the file, or 0 where the file says nothing of it.
pub fn context_stats<'a>(meta: Option<&'a Json>, modified: u64) -> (r: (Option<&'a Json>, u64))
    ensures
        match (meta, r.0) {
            (Some(meta), Some(stats)) => meta@.field("context_stats"@) == Some(stats@) && r.1
                == modified,
            (Some(meta), None) => meta@.field("context_stats"@) is None && r.1 == 0,
            (None, Some(_)) => false,
            (None, None) => r.1 == 0,
        },
{
    match meta {
        Some(meta) => match meta.get("context_stats") {
            Some(stats) => (Some(stats), modified),
            None => (None, 0),
        },
        None => (None, 0),
    }
}

// ---------------------------------------------------------------------------
// Another daemon
// ---------------------------------------------------------------------------

/// The state with the sessions and workspaces of a daemon forgotten, the start
/// page on show, and a connection being built.
pub open spec fn away_from_daemon(c: CoreView, now: u64) -> CoreView {
    let shown = bridge_core::navigated(
        CoreView {
            attached: Map::empty(),
            active_seed: Seq::empty(),
            timeline: CacheView { last_timeline_seed: Seq::empty(), ..c.timeline },
            compact_statuses: Map::empty(),
            sessions: Seq::empty(),
            session_rev: model::next_rev(c.session_rev),
            workspaces: Seq::empty(),
            workspace_rev: model::next_rev(c.workspace_rev),
            health: Health { connected: false, ..c.health },
            ..c
        },
        "home"@,
        None,
        now,
    );
    CoreView { health: Health { rebuilding: true, ..shown.health }, ..shown }
}

/// The state with a remote daemon, or the local one, chosen.
pub open spec fn with_profile(c: CoreView, profile: Option<remote::ProfileView>) -> CoreView {
    CoreView { remote: RemoteView { profile, ..c.remote }, ..c }
}

/// The state at the start of a rebuild: how far the sessions' compacting is, is
/// known of one run of the daemon only.
pub open spec fn rebuilding(c: CoreView, now: u64) -> CoreView {
    let cleared = bridge_core::with_header(
        CoreView { compact_statuses: Map::empty(), ..c },
        now,
    );
    CoreView { health: Health { connected: false, ..cleared.health }, ..cleared }
}

/// A configuration that was loaded is the one known, what the page shows comes
/// from it, and both get a new version. Whether notifications are wanted follows
/// it.
pub proof fn loaded_configuration_is_shown(c: CoreView, config: SettingsView)
    ensures
        ({
            let after = with_config(c, config);
            &&& after.settings == Some(config)
            &&& after.notif_enabled == config.notifications_enabled
            &&& after.settings_rev != c.settings_rev
            &&& after.settings_proj_rev != c.settings_proj_rev
            &&& after.active_seed == c.active_seed
            &&& after.sessions == c.sessions
            &&& after.header == c.header
        }),
{
}

/// How the workspace runs is merged into a configuration that was loaded, each
/// text in its own place, and leaves the rest of it. Without one it is dropped.
pub proof fn workspace_status_is_merged(
    c: CoreView,
    configured: Seq<char>,
    active: Seq<char>,
    endpoint: Seq<char>,
)
    ensures
        ({
            let after = with_workspace_status(c, configured, active, endpoint);
            &&& c.settings is None ==> after == c
            &&& c.settings matches Some(before) ==> {
                &&& after.settings matches Some(merged) && {
                    &&& merged.workspace_configured_mode == configured
                    &&& merged.workspace_active_mode == active
                    &&& merged.workspace_endpoint == endpoint
                    &&& merged.permission_level == before.permission_level
                    &&& merged.notifications_enabled == before.notifications_enabled
                }
                &&& after.settings_rev != c.settings_rev
                &&& after.settings_proj == c.settings_proj
                &&& after.notif_enabled == c.notif_enabled
            }
        }),
{
}

/// A permission level is sent exactly when a configuration was loaded that has
/// another one.
pub proof fn only_another_level_is_sent(c: CoreView, level: u64)
    ensures
        permission_changes(c, level) <==> (c.settings matches Some(config)
            && config.permission_level != level),
{
}

/// Notifications are unwanted only where the preferences say so with the word
/// `false`: neither a missing file, nor one without the entry, nor an entry of
/// another kind turns them off.
pub proof fn only_false_turns_notifications_off(prefs: Option<JsonView>)
    ensures
        !notif_pref_in(prefs) <==> (prefs matches Some(value) && (value.field(
            "notificationsEnabled"@,
        ) matches Some(JsonView::Bool(wanted)) && !wanted)),
{
}

/// A turn is announced only where notifications are wanted and can be shown and
/// the timeline at hand is that of its session.
pub proof fn announcements_are_wanted_and_at_hand(c: CoreView, seed: Seq<char>, notifier: bool)
    ensures
        announcement(c, seed, notifier) is Some ==> c.notif_enabled && notifier
            && (c.timeline.chat_timeline matches Some((owner, _)) && owner == seed),
        c.notif_enabled && notifier ==> forall|snapshot: TimelineSnapshot|
            c.timeline.chat_timeline == Some((seed, snapshot)) ==> announcement(c, seed, notifier)
                == #[trigger] transcript::notification_of(snapshot),
{
}

/// Leaving a daemon ends the connection and begins another one. No session stays
/// joined or active; settings and the chosen daemon stay.
pub proof fn leaving_a_daemon_ends_the_connection(c: CoreView, now: u64)
    ensures
        ({
            let after = away_from_daemon(c, now);
            &&& !after.health.connected
            &&& after.health.rebuilding
            &&& after.attached.dom() =~= Set::empty()
            &&& after.timeline.last_timeline_seed.len() == 0
            &&& after.session_rev != c.session_rev
            &&& after.workspace_rev != c.workspace_rev
            &&& after.header.view == "home"@
            &&& !after.header.compacting
            &&& after.remote == c.remote
            &&& after.settings == c.settings
            &&& after.notif_enabled == c.notif_enabled
            &&& with_profile(c, None).remote.profile is None
        }),
{
}

/// A rebuild ends the connection and forgets how far compacting was. The active
/// session, the view and what was joined stay.
pub proof fn rebuild_keeps_the_sessions(c: CoreView, now: u64)
    ensures
        ({
            let after = rebuilding(c, now);
            &&& !after.health.connected
            &&& after.compact_statuses.dom() =~= Set::empty()
            &&& !after.header.compacting
            &&& after.active_seed == c.active_seed
            &&& after.current_view == c.current_view
            &&& after.attached == c.attached
            &&& after.sessions == c.sessions
            &&& after.timeline == c.timeline
        }),
{
}

/// Nothing of a daemon's sessions shows after the change to another one.
pub proof fn nothing_shows_of_the_old_daemon(c: CoreView, now: u64)
    ensures
        ({
            let after = away_from_daemon(c, now);
            &&& after.active_seed.len() == 0
            &&& after.sessions.len() == 0
            &&& after.workspaces.len() == 0
            &&& after.compact_statuses.dom().is_empty()
            &&& after.current_view == "home"@
            &&& after.header.title.len() == 0
            &&& after.header.seed.len() == 0
        }),
{
    assert(Map::<Seq<char>, Seq<char>>::empty().dom() =~= Set::empty());
}

impl BridgeCore {
    /// Leaves the daemon.
    pub fn switch_daemon(&mut self, now: u64)
        ensures
            final(self)@ == away_from_daemon(old(self)@, now),
    {
        self.health.connected = false;
        self.attached = SeedMap::new();
        self.active_seed = String::new();
        self.timeline.last_timeline_seed = String::new();
        self.compact_statuses = SeedMap::new();
        self.sessions = Vec::new();
        self.session_rev = model::bump(self.session_rev);
        self.workspaces = Vec::new();
        self.workspace_rev = model::bump(self.workspace_rev);
        assert(self@.sessions =~= Seq::empty());
        assert(self@.workspaces =~= Seq::empty());
        self.navigate("home", None, now);
        self.health.rebuilding = true;
    }

    /// Ends the change to another daemon, or a rebuild, with or without a
    /// connection.
    pub fn finish_rebuild(&mut self, connected: bool)
        ensures
            final(self)@ == (CoreView {
                health: health::after_rebuild(old(self)@.health, connected),
                ..old(self)@
            }),
    {
        self.health.finish_rebuild(connected);
    }

    /// Chooses the remote daemon at this address and leaves the present one. An
    /// address that is none changes nothing. Says whether it is one.
    pub fn apply_remote_profile(&mut self, base_url: &str, token: &str, now: u64) -> (r: bool)
        ensures
            r == (remote::profile_of(base_url@, token@) is Some),
            final(self)@ == (match remote::profile_of(base_url@, token@) {
                Some(profile) => away_from_daemon(
                    with_profile(old(self)@, Some(profile)),
                    now,
                ),
                None => old(self)@,
            }),
    {
        match remote::remote_profile(base_url, token) {
            Some(profile) => {
                self.remote.profile = Some(profile);
                self.switch_daemon(now);
                true
            },
            None => false,
        }
    }

    /// Goes back to the local daemon.
    pub fn clear_remote_profile(&mut self, now: u64)
        ensures
            final(self)@ == away_from_daemon(with_profile(old(self)@, None), now),
    {
        self.remote.profile = None;
        self.switch_daemon(now);
    }

    /// Begins a rebuild that the heartbeat asked for.
    pub fn begin_rebuild(&mut self, now: u64)
        ensures
            final(self)@ == rebuilding(old(self)@, now),
    {
        self.compact_statuses = SeedMap::new();
        self.refresh_header(now);
        self.health.connected = false;
    }

    /// The sessions to join again after a rebuild: those that were joined, and
    /// the one whose timeline was activated last.
    pub fn seeds_to_restore(&self) -> (r: Vec<String>)
        ensures
            model::views(r@).no_duplicates(),
            forall|seed: Seq<char>| #[trigger]
                model::views(r@).contains(seed) <==> self@.attached.contains_key(seed) || (seed
                    == self@.timeline.last_timeline_seed && seed.len() > 0),
    {
        let mut seeds = self.attached.keys();
        let ghost joined = model::views(seeds@);
        let last = self.timeline.last_timeline_seed.clone();
        if !last.as_str().is_empty() && !self.attached.contains_key(last.as_str()) {
            seeds.push(last);
            let ghost all = model::views(seeds@);
            assert(all =~= joined.push(last@));
            assert(!joined.contains(last@));
            assert forall|seed: Seq<char>| #[trigger]
                all.contains(seed) <==> joined.contains(seed) || seed == last@ by {
                if all.contains(seed) {
                    let i = choose|i: int| 0 <= i < all.len() && all[i] == seed;
                    if i < joined.len() {
                        assert(joined[i] == seed);
                    }
                }
                if joined.contains(seed) {
                    let i = choose|i: int| 0 <= i < joined.len() && joined[i] == seed;
                    assert(all[i] == seed);
                }
                if seed == last@ {
                    assert(all[joined.len() as int] == seed);
                }
            }
        }
        seeds
    }
}

// ---------------------------------------------------------------------------
// A form to try the overlay with
// ---------------------------------------------------------------------------

/// The questions of the form that tries the overlay.
pub open spec fn test_questions() -> Seq<AskQuestionView> {
    seq![
        AskQuestionView {
            id: "tq1"@,
            question: "Ask 面板渲染链路测试：你能看到这个弹窗吗？"@,
            options: seq![
                "看到了，渲染正常"@,
                "看到了，但样式有问题"@,
                "没看到（弹窗未出现）"@,
            ],
            allow_custom: true,
        },
        AskQuestionView {
            id: "tq2"@,
            question: "补充说明（必填）"@,
            options: Seq::empty(),
            allow_custom: true,
        },
    ]
}

impl BridgeCore {
    /// Shows a form in the active session that no daemon asked for.
    pub fn spawn_test_ask(&mut self)
        ensures
            final(self)@ == reducer::after_interaction(
                old(self)@,
                old(self)@.active_seed,
                InteractionEventView::AskRequested {
                    id: "test-ask"@,
                    questions: test_questions(),
                },
            ),
    {
        let seed = self.active_seed.clone();
        let mut options: Vec<String> = Vec::new();
        options.push("看到了，渲染正常".to_owned());
        options.push("看到了，但样式有问题".to_owned());
        options.push("没看到（弹窗未出现）".to_owned());
        assert(model::views(options@) =~= test_questions()[0].options);
        let mut questions: Vec<AskQuestion> = Vec::new();
        questions.push(
            AskQuestion {
                id: "tq1".to_owned(),
                question: "Ask 面板渲染链路测试：你能看到这个弹窗吗？".to_owned(),
                options,
                allow_custom: true,
            },
        );
        let no_options: Vec<String> = Vec::new();
        assert(model::views(no_options@) =~= test_questions()[1].options);
        questions.push(
            AskQuestion {
                id: "tq2".to_owned(),
                question: "补充说明（必填）".to_owned(),
                options: no_options,
                allow_custom: true,
            },
        );
        assert(model::views(questions@) =~= test_questions());
        self.apply_interaction_event(
            seed.as_str(),
            InteractionEvent::AskRequested { id: "test-ask".to_owned(), questions },
        );
    }
}

} // verus!
