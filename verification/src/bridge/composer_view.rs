//! What the composer shows of the active session.

use vstd::prelude::*;

use crate::bridge::bridge_core;
use crate::bridge::bridge_core::{BridgeCore, CoreView};
use crate::bridge::composer;
use crate::bridge::composer::{WorkPhase, WorkPhaseView};
use crate::bridge::interaction;
use crate::bridge::reducer;
use crate::bridge::store;
use crate::bridge::subagent;
use crate::bridge::subagent::{SubagentItem, SubagentState, SubagentView};
use crate::json;
use crate::json::{Json, JsonView};
use crate::model;
use crate::model::{Duplicate, Same};
use crate::text;

verus! {

broadcast use {model::map_views_insert, model::map_views_remove, model::map_views_empty};

/// A message that waits to be sent.
#[derive(Debug)]
pub struct ComposerQueueItem {
    pub id: String,
    pub text: String,
}

/// The model of a `ComposerQueueItem`.
#[verifier::ext_equal]
pub struct QueueItemView {
    pub id: Seq<char>,
    pub text: Seq<char>,
}

impl View for ComposerQueueItem {
    type V = QueueItemView;

    open spec fn view(&self) -> QueueItemView {
        QueueItemView { id: self.id@, text: self.text@ }
    }
}

/// A picture that goes with a message.
#[derive(Debug)]
pub struct ComposerAttachment {
    pub file_name: String,
    pub mime_type: String,
    pub path: String,
}

/// A text file that goes with a message.
#[derive(Debug)]
pub struct ComposerTextFile {
    pub file_name: String,
    pub path: String,
}

/// What the composer shows.
#[derive(Debug)]
pub struct ComposerState {
    pub seed: String,
    pub is_streaming: bool,
    /// The user has to decide something first.
    pub has_pending_gate: bool,
    pub phase: WorkPhase,
    /// plan or code.
    pub mode: String,
    pub model: String,
    pub context_tokens: u64,
    pub context_limit: u64,
    /// 1 to 4; 0 while unknown.
    pub permission_level: u64,
    pub queue_count: u64,
    pub queue_items: Vec<ComposerQueueItem>,
    pub submit_error: String,
    pub send_ack: u64,
    /// agent or idle.
    pub status_zone: String,
    pub subagents: Vec<SubagentItem>,
    pub tool_mode: String,
    pub tool_mode_custom_tools: Vec<String>,
    pub cwd: Option<String>,
}

/// The model of a `ComposerState`.
#[verifier::ext_equal]
pub struct ComposerStateView {
    pub seed: Seq<char>,
    pub is_streaming: bool,
    pub has_pending_gate: bool,
    pub phase: WorkPhaseView,
    pub mode: Seq<char>,
    pub model: Seq<char>,
    pub context_tokens: u64,
    pub context_limit: u64,
    pub permission_level: u64,
    pub queue_count: u64,
    pub queue_items: Seq<QueueItemView>,
    pub submit_error: Seq<char>,
    pub send_ack: u64,
    pub status_zone: Seq<char>,
    pub subagents: Seq<SubagentView>,
    pub tool_mode: Seq<char>,
    pub tool_mode_custom_tools: Seq<Seq<char>>,
    pub cwd: Option<Seq<char>>,
}

impl View for ComposerState {
    type V = ComposerStateView;

    open spec fn view(&self) -> ComposerStateView {
        ComposerStateView {
            seed: self.seed@,
            is_streaming: self.is_streaming,
            has_pending_gate: self.has_pending_gate,
            phase: self.phase@,
            mode: self.mode@,
            model: self.model@,
            context_tokens: self.context_tokens,
            context_limit: self.context_limit,
            permission_level: self.permission_level,
            queue_count: self.queue_count,
            queue_items: model::views(self.queue_items@),
            submit_error: self.submit_error@,
            send_ack: self.send_ack,
            status_zone: self.status_zone@,
            subagents: model::views(self.subagents@),
            tool_mode: self.tool_mode@,
            tool_mode_custom_tools: model::views(self.tool_mode_custom_tools@),
            cwd: model::opt_view(self.cwd),
        }
    }
}

/// Whether the active session waits for the user.
pub open spec fn gate(c: CoreView) -> bool {
    c.interactions.contains_key(c.active_seed) && interaction::pending(
        c.interactions[c.active_seed],
    )
}

/// The phase that is shown: waiting wherever the user has to decide something,
/// none where no turn is running, else the one that was noted last.
pub open spec fn shown_phase(c: CoreView, now: u64) -> WorkPhaseView {
    if gate(c) {
        WorkPhaseView::WaitingUser
    } else if bridge_core::seed_streaming(c, c.active_seed, now) {
        reducer::activity_in(c, c.active_seed).phase
    } else {
        WorkPhaseView::Idle
    }
}

/// What the composer shows of the active session at `now`.
pub open spec fn composer_of(c: CoreView, now: u64) -> ComposerStateView {
    let activity = reducer::activity_in(c, c.active_seed);
    let feedback = reducer::feedback_of(c, c.active_seed);
    let subagents = subagent::by_start(reducer::subagents_of(c, c.active_seed));
    ComposerStateView {
        seed: c.active_seed,
        is_streaming: bridge_core::seed_streaming(c, c.active_seed, now),
        has_pending_gate: gate(c),
        phase: shown_phase(c, now),
        mode: c.composer_mode,
        model: activity.model,
        context_tokens: activity.prompt_tokens,
        context_limit: activity.context_limit,
        permission_level: match c.settings {
            Some(s) => s.permission_level,
            None => 0,
        },
        queue_count: 0,
        queue_items: Seq::empty(),
        submit_error: feedback.submit_error,
        send_ack: feedback.send_ack,
        status_zone: if subagents.len() == 0 {
            "idle"@
        } else {
            "agent"@
        },
        subagents,
        tool_mode: c.composer_tool_mode.mode,
        tool_mode_custom_tools: c.composer_tool_mode.custom_tools,
        cwd: match bridge_core::session_of(c, c.active_seed) {
            Some(s) => s.cwd,
            None => None,
        },
    }
}

/// The state after the subagents of `seed` were swept for lost ones. The version
/// of the composer stays.
pub open spec fn after_ghost_sweep(c: CoreView, seed: Seq<char>, now: u64) -> CoreView {
    if c.subagents.contains_key(seed) {
        CoreView {
            subagents: c.subagents.insert(seed, subagent::after_sweep(c.subagents[seed], now)),
            ..c
        }
    } else {
        c
    }
}

/// The state with the tool mode that the metadata of the active session names.
pub open spec fn with_meta_tool_mode(c: CoreView, meta: JsonView) -> CoreView {
    if c.active_seed.len() == 0 || c.composer_tool_mode == composer::tool_mode_in(meta) {
        c
    } else {
        CoreView {
            composer_tool_mode: composer::tool_mode_in(meta),
            composer_rev: model::next_rev(c.composer_rev),
            ..c
        }
    }
}

/// The state with the agent mode that the metadata of the active session names.
pub open spec fn with_meta_mode(c: CoreView, meta: JsonView) -> CoreView {
    if c.active_seed.len() == 0 || c.composer_mode == composer::agent_mode_in(meta) {
        c
    } else {
        CoreView {
            composer_mode: composer::agent_mode_in(meta),
            composer_rev: model::next_rev(c.composer_rev),
            ..c
        }
    }
}

/// The state with what the metadata of the active session says, if it could be
/// read and is JSON.
pub open spec fn with_meta(c: CoreView, raw: Option<Seq<char>>) -> CoreView {
    match raw {
        Some(text) => match json::json_text(text) {
            Some(meta) => with_meta_mode(with_meta_tool_mode(c, meta), meta),
            None => c,
        },
        None => c,
    }
}

/// A phase is shown only while a turn is running or the user has to decide
/// something: a turn that counts as interrupted shows none.
pub proof fn no_phase_without_work(c: CoreView, now: u64)
    requires
        !bridge_core::seed_streaming(c, c.active_seed, now),
        !gate(c),
    ensures
        composer_of(c, now).phase == WorkPhaseView::Idle,
{
}

/// The composer waits for the user exactly while the overlay shows an interaction.
pub proof fn gate_is_what_the_overlay_shows(c: CoreView, now: u64)
    requires
        c.interaction == bridge_core::interaction_shown(c),
    ensures
        composer_of(c, now).has_pending_gate <==> c.interaction.kind.len() > 0,
{
    if c.interactions.contains_key(c.active_seed) {
        interaction::shown_exactly_when_pending(c.interactions[c.active_seed], c.active_seed);
    }
}

impl BridgeCore {
    /// Sweeps the subagents of `seed` for lost ones.
    pub fn ghost_sweep(&mut self, seed: &str, now: u64)
        ensures
            final(self)@ == after_ghost_sweep(old(self)@, seed@, now),
    {
        let ghost all = self@.subagents;
        match self.subagents.remove(seed) {
            Some(list) => {
                let mut list = list;
                list.sweep(now);
                self.subagents.insert(seed.to_owned(), list);
                assert(all.remove(seed@).insert(seed@, list@) =~= all.insert(seed@, list@));
            },
            None => {
                assert(all.remove(seed@) =~= all);
            },
        }
    }

    /// The subagents of `seed` in the order they started, after a sweep.
    pub fn subagent_items(&mut self, seed: &str, now: u64) -> (r: Vec<SubagentItem>)
        ensures
            final(self)@ == after_ghost_sweep(old(self)@, seed@, now),
            model::views(r@) == subagent::by_start(reducer::subagents_of(final(self)@, seed@)),
    {
        self.ghost_sweep(seed, now);
        match self.subagents.get(seed) {
            Some(list) => list.sorted(),
            None => {
                let none: Vec<SubagentItem> = Vec::new();
                assert(model::views(none@) =~= subagent::by_start(Seq::empty()));
                none
            },
        }
    }

    /// Takes over the tool mode from the metadata of the active session.
    pub fn sync_tool_mode_from_meta(&mut self, meta: &Json)
        ensures
            final(self)@ == with_meta_tool_mode(old(self)@, meta@),
    {
        if self.active_seed.as_str().is_empty() {
            return;
        }
        let next = composer::tool_mode_from_meta(meta);
        if !self.composer_tool_mode.same_as(&next) {
            self.composer_tool_mode = next;
            self.composer_rev = model::bump(self.composer_rev);
        }
    }

    /// Takes over the agent mode from the metadata of the active session.
    pub fn sync_mode_from_meta(&mut self, meta: &Json)
        ensures
            final(self)@ == with_meta_mode(old(self)@, meta@),
    {
        if self.active_seed.as_str().is_empty() {
            return;
        }
        let next = composer::agent_mode_from_meta(meta);
        if !self.composer_mode.same_as(&next) {
            self.composer_mode = next;
            self.composer_rev = model::bump(self.composer_rev);
        }
    }

    /// Takes over the modes from the raw metadata of the active session.
    pub fn sync_meta(&mut self, raw: Option<&str>)
        ensures
            final(self)@ == with_meta(
                old(self)@,
                match raw {
                    Some(t) => Some(t@),
                    None => None,
                },
            ),
    {
        if let Some(t) = raw {
            if let Some(meta) = json::parse(t) {
                self.sync_tool_mode_from_meta(&meta);
                self.sync_mode_from_meta(&meta);
            }
        }
    }

    /// What the composer shows, and its version. `raw_meta` is the metadata file
    /// of the active session, if it could be read.
    pub fn composer_snapshot(&mut self, raw_meta: Option<&str>, now: u64) -> (r: (
        ComposerState,
        u64,
    ))
        ensures
            final(self)@ == after_ghost_sweep(
                with_meta(
                    old(self)@,
                    match raw_meta {
                        Some(t) => Some(t@),
                        None => None,
                    },
                ),
                old(self)@.active_seed,
                now,
            ),
            r.0@ == composer_of(final(self)@, now),
            r.1 == final(self)@.composer_rev,
    {
        self.sync_meta(raw_meta);
        let active = self.active_seed.clone();
        let subagents = self.subagent_items(active.as_str(), now);
        let state = self.compose(subagents, now);
        (state, self.composer_rev)
    }

    /// What the composer shows, given the subagents of the active session.
    fn compose(&self, subagents: Vec<SubagentItem>, now: u64) -> (r: ComposerState)
        requires
            model::views(subagents@) == subagent::by_start(
                reducer::subagents_of(self@, self@.active_seed),
            ),
        ensures
            r@ == composer_of(self@, now),
    {
        let seed = self.active_seed.as_str();
        let waiting = match self.interactions.get(seed) {
            Some(machine) => machine.has_pending(),
            None => false,
        };
        let is_streaming = self.seed_is_streaming(seed, now);
        let (model, context_tokens, context_limit, noted) = match self.composer_activity.get(seed) {
            Some(a) => (a.model.clone(), a.prompt_tokens, a.context_limit, a.phase.duplicate()),
            None => (String::new(), 0u64, 0u64, WorkPhase::Idle),
        };
        let phase = if waiting {
            WorkPhase::WaitingUser
        } else if is_streaming {
            noted
        } else {
            WorkPhase::Idle
        };
        let (submit_error, send_ack) = match self.composer_feedback.get(seed) {
            Some(f) => (f.submit_error.clone(), f.send_ack),
            None => (String::new(), 0u64),
        };
        let permission_level: u64 = match &self.settings {
            Some(s) => s.permission_level,
            None => 0,
        };
        let cwd = match store::find_session(&self.sessions, seed) {
            Some(i) => model::duplicate_opt(&self.sessions[i].cwd),
            None => None,
        };
        let zone = if subagents.len() == 0 {
            "idle"
        } else {
            "agent"
        };
        let queue_items: Vec<ComposerQueueItem> = Vec::new();
        assert(model::views(queue_items@) =~= Seq::empty());
        ComposerState {
            seed: self.active_seed.clone(),
            is_streaming,
            has_pending_gate: waiting,
            phase,
            mode: self.composer_mode.clone(),
            model,
            context_tokens,
            context_limit,
            permission_level,
            queue_count: 0,
            queue_items,
            submit_error,
            send_ack,
            status_zone: zone.to_owned(),
            subagents,
            tool_mode: self.composer_tool_mode.mode.clone(),
            tool_mode_custom_tools: model::duplicate_all(&self.composer_tool_mode.custom_tools),
            cwd,
        }
    }
}

/// The composer shows the active session: whether a turn of it runs and whether it
/// waits for the user, in which phase, what was counted and which model was named in
/// it, and where it works.
pub proof fn composer_shows_the_active_session(c: CoreView, now: u64)
    ensures
        ({
            let shown = composer_of(c, now);
            let seed = c.active_seed;
            let waits = c.interactions.contains_key(seed) && (c.interactions[seed].pending.len() > 0
                || c.interactions[seed].active is Some);
            &&& shown.seed == seed
            &&& shown.has_pending_gate <==> waits
            &&& waits ==> shown.phase == WorkPhaseView::WaitingUser
            &&& !waits && !shown.is_streaming ==> shown.phase == WorkPhaseView::Idle
            &&& shown.mode == c.composer_mode
            &&& shown.tool_mode == c.composer_tool_mode.mode
            &&& shown.tool_mode_custom_tools == c.composer_tool_mode.custom_tools
            &&& c.composer_activity.contains_key(seed) ==> {
                let activity = c.composer_activity[seed];
                &&& shown.model == activity.model
                &&& shown.context_tokens == activity.prompt_tokens
                &&& shown.context_limit == activity.context_limit
                &&& !waits && shown.is_streaming ==> shown.phase == activity.phase
                &&& shown.is_streaming <==> activity.active_turn && (activity.last_activity_at == 0
                    || now < activity.last_activity_at + 240_000)
            }
            &&& c.composer_feedback.contains_key(seed) ==> shown.submit_error
                == c.composer_feedback[seed].submit_error && shown.send_ack
                == c.composer_feedback[seed].send_ack
            &&& c.settings matches Some(config) ==> shown.permission_level
                == config.permission_level
            &&& c.settings is None ==> shown.permission_level == 0
            &&& shown.queue_count == 0
        }),
{
}

/// Metadata change the modes of the composer where a session is active and they name
/// others, under a new version; otherwise nothing changes.
pub proof fn metadata_change_the_modes(c: CoreView, meta: JsonView)
    ensures
        ({
            let tools = with_meta_tool_mode(c, meta);
            let mode = with_meta_mode(c, meta);
            &&& c.active_seed.len() == 0 ==> tools == c && mode == c
            &&& c.active_seed.len() > 0 ==> tools.composer_tool_mode == composer::tool_mode_in(meta)
                && mode.composer_mode == composer::agent_mode_in(meta)
            &&& tools.composer_rev != c.composer_rev <==> tools.composer_tool_mode
                != c.composer_tool_mode
            &&& mode.composer_rev != c.composer_rev <==> mode.composer_mode != c.composer_mode
            &&& tools.composer_mode == c.composer_mode
            &&& mode.composer_tool_mode == c.composer_tool_mode
        }),
        with_meta(c, None) == c,
{
}

/// A sweep gives up those subagents of its session that have worked for more than ten
/// minutes. The other sessions and the version of the composer stay.
pub proof fn sweeps_give_up_the_silent(c: CoreView, seed: Seq<char>, now: u64, i: int)
    requires
        c.subagents.contains_key(seed),
        0 <= i < c.subagents[seed].len(),
    ensures
        ({
            let d = after_ghost_sweep(c, seed, now);
            let before = c.subagents[seed][i];
            let after = d.subagents[seed][i];
            let silent = before.state == SubagentState::Working && before.started_at > 0 && now
                > before.started_at + 600_000;
            &&& silent ==> after.state == SubagentState::Lost
            &&& !silent ==> after == before
            &&& d.composer_rev == c.composer_rev
            &&& d.active_seed == c.active_seed
            &&& forall|other: Seq<char>|
                other != seed && c.subagents.contains_key(other) ==> #[trigger] d.subagents[other]
                    == c.subagents[other]
        }),
{
}

} // verus!
