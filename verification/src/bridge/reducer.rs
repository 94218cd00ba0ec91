//! What the daemon's events make of the shell's state.

use vstd::prelude::*;

use crate::bridge::bridge_core;
use crate::bridge::bridge_core::{BridgeCore, CoreView};
use crate::bridge::composer;
use crate::bridge::composer::{
    ActivityEventView, ActivityView, ComposerActivity, ComposerFeedback, FeedbackView, WorkPhase,
    WorkPhaseView,
};
use crate::bridge::events;
use crate::bridge::events::{
    Channel, ControlEvent, ControlEventView, ConversationEvent, ConversationEventView, EventBatch,
    RingingEvent, RingingEventView, ToolEvent, ToolEventView,
};
use crate::bridge::interaction;
use crate::bridge::interaction::{
    InteractionEvent, InteractionEventView, InteractionMachine, MachineView, ToolPermissionEvent,
    ToolPermissionEventView,
};
use crate::bridge::store;
use crate::bridge::store::{
    ActivityState, DashboardSnapshot, DashboardView, DetailView, SessionDetail, SessionView,
    SkillsView, UsageInfo,
};
use crate::bridge::subagent;
use crate::bridge::subagent::{SubagentList, SubagentState, SubagentView};
use crate::model;
use crate::model::Duplicate;
use crate::text;

verus! {

broadcast use {model::map_views_insert, model::map_views_remove, model::map_views_empty};

/// What the shell has to do outside its own state.
#[derive(Debug)]
pub enum Effect {
    /// Read the details of a session anew.
    RefreshInfo { seed: String },
    /// Read the list of sessions anew.
    RefreshSessions,
    /// Tell the user that a turn of a session has completed.
    NotifyTurnCompleted { seed: String },
}

/// The model of an `Effect`.
#[verifier::ext_equal]
pub enum EffectView {
    RefreshInfo { seed: Seq<char> },
    RefreshSessions,
    NotifyTurnCompleted { seed: Seq<char> },
}

impl View for Effect {
    type V = EffectView;

    open spec fn view(&self) -> EffectView {
        match self {
            Effect::RefreshInfo { seed } => EffectView::RefreshInfo { seed: seed@ },
            Effect::RefreshSessions => EffectView::RefreshSessions,
            Effect::NotifyTurnCompleted { seed } => EffectView::NotifyTurnCompleted { seed: seed@ },
        }
    }
}

// ---------------------------------------------------------------------------
// Single updates
// ---------------------------------------------------------------------------

/// The interaction queue of a session.
pub open spec fn machine_of(c: CoreView, seed: Seq<char>) -> MachineView {
    if c.interactions.contains_key(seed) {
        c.interactions[seed]
    } else {
        interaction::idle_machine()
    }
}

/// The state after a control event of `seed` reached its interaction queue. What
/// is shown changes only if it is the active session's.
pub open spec fn after_interaction(
    c: CoreView,
    seed: Seq<char>,
    ev: InteractionEventView,
) -> CoreView {
    bridge_core::with_interaction(
        CoreView {
            interactions: c.interactions.insert(
                seed,
                interaction::after_event(machine_of(c, seed), ev),
            ),
            ..c
        },
    )
}

/// The state after a tool event of `seed` reached its interaction queue.
pub open spec fn after_permission(
    c: CoreView,
    seed: Seq<char>,
    ev: ToolPermissionEventView,
) -> CoreView {
    bridge_core::with_interaction(
        CoreView {
            interactions: c.interactions.insert(
                seed,
                interaction::after_tool_event(machine_of(c, seed), ev),
            ),
            ..c
        },
    )
}

/// The activity of a session.
pub open spec fn activity_in(c: CoreView, seed: Seq<char>) -> ActivityView {
    if c.composer_activity.contains_key(seed) {
        c.composer_activity[seed]
    } else {
        composer::unseen_activity()
    }
}

/// The state after the work of `seed` entered a phase.
pub open spec fn with_phase(
    c: CoreView,
    seed: Seq<char>,
    phase: WorkPhaseView,
    now: u64,
) -> CoreView {
    CoreView {
        composer_activity: c.composer_activity.insert(
            seed,
            ActivityView { phase, last_activity_at: now, ..activity_in(c, seed) },
        ),
        composer_rev: model::next_rev(c.composer_rev),
        ..c
    }
}

/// The subagents of a session.
pub open spec fn subagents_of(c: CoreView, seed: Seq<char>) -> Seq<SubagentView> {
    if c.subagents.contains_key(seed) {
        c.subagents[seed]
    } else {
        Seq::empty()
    }
}

/// The state after a tool call of `seed` that spawns a subagent was seen.
pub open spec fn with_subagent(
    c: CoreView,
    seed: Seq<char>,
    call_id: Seq<char>,
    args: Option<Seq<char>>,
    now: u64,
) -> CoreView {
    let name = match args {
        Some(a) => subagent::agent_name_text(a),
        None => None,
    };
    CoreView {
        subagents: c.subagents.insert(
            seed,
            subagent::with_call(subagents_of(c, seed), call_id, name, now),
        ),
        composer_rev: model::next_rev(c.composer_rev),
        ..c
    }
}

/// Whether the end of a subagent named `name` is still to be reported.
pub open spec fn end_awaited(list: Seq<SubagentView>, name: Seq<char>) -> bool {
    exists|i: int| 0 <= i < list.len() && subagent::awaits_end(#[trigger] list[i], name)
}

/// The state after the end of the subagents of `seed` named `name` was reported.
pub open spec fn with_subagent_end(
    c: CoreView,
    seed: Seq<char>,
    name: Seq<char>,
    state: SubagentState,
    now: u64,
) -> CoreView {
    if c.subagents.contains_key(seed) {
        CoreView {
            subagents: c.subagents.insert(
                seed,
                subagent::with_end(c.subagents[seed], name, state, now),
            ),
            composer_rev: if end_awaited(c.subagents[seed], name) {
                model::next_rev(c.composer_rev)
            } else {
                c.composer_rev
            },
            ..c
        }
    } else {
        c
    }
}

/// Whether the session of the subagent that `call_id` spawned is unknown.
pub open spec fn seed_awaited(list: Seq<SubagentView>, call_id: Seq<char>) -> bool {
    exists|i: int|
        0 <= i < list.len() && (#[trigger] list[i]).call_id == call_id && list[i].seed.len() == 0
}

/// The state after the session of the subagent that `call_id` spawned became
/// known.
pub open spec fn with_subagent_seed(
    c: CoreView,
    seed: Seq<char>,
    call_id: Seq<char>,
    sub_seed: Seq<char>,
) -> CoreView {
    if c.subagents.contains_key(seed) {
        CoreView {
            subagents: c.subagents.insert(
                seed,
                subagent::with_seed(c.subagents[seed], call_id, sub_seed),
            ),
            composer_rev: if seed_awaited(c.subagents[seed], call_id) {
                model::next_rev(c.composer_rev)
            } else {
                c.composer_rev
            },
            ..c
        }
    } else {
        c
    }
}

/// The state after a dashboard arrived. One without a session is ignored.
pub open spec fn with_dashboard(c: CoreView, dashboard: DashboardView) -> CoreView {
    if dashboard.seed.len() == 0 {
        c
    } else {
        CoreView {
            dashboards: c.dashboards.insert(dashboard.seed, dashboard),
            dashboard_rev: model::next_rev(c.dashboard_rev),
            ..c
        }
    }
}

/// What became of the last message of a session.
pub open spec fn feedback_of(c: CoreView, seed: Seq<char>) -> FeedbackView {
    if c.composer_feedback.contains_key(seed) {
        c.composer_feedback[seed]
    } else {
        composer::no_feedback()
    }
}

/// The state with this error shown in the composer of `seed`.
pub open spec fn with_submit_error(c: CoreView, seed: Seq<char>, error: Seq<char>) -> CoreView {
    CoreView {
        composer_feedback: c.composer_feedback.insert(
            seed,
            FeedbackView { submit_error: error, ..feedback_of(c, seed) },
        ),
        ..c
    }
}

/// The state after the daemon said what a session is doing.
pub open spec fn with_activity(c: CoreView, seed: Seq<char>, state: ActivityState) -> CoreView {
    CoreView {
        activities: c.activities.insert(seed, state),
        sessions: match store::session_at(c.sessions, seed) {
            Some(i) => c.sessions.update(i, SessionView { state, ..c.sessions[i] }),
            None => c.sessions,
        },
        ..c
    }
}

/// The state in which `seed` is known to have a turn.
pub open spec fn with_live_turn(c: CoreView, seed: Seq<char>) -> CoreView {
    CoreView {
        header_turns: c.header_turns.insert(
            seed,
            if c.header_turns.contains_key(seed) && c.header_turns[seed] > 1 {
                c.header_turns[seed]
            } else {
                1
            },
        ),
        ..c
    }
}

/// Seeing the start of a turn again changes nothing.
pub proof fn live_turn_is_idempotent(c: CoreView, seed: Seq<char>)
    ensures
        with_live_turn(with_live_turn(c, seed), seed) == with_live_turn(c, seed),
{
    let once = with_live_turn(c, seed);
    assert(with_live_turn(once, seed).header_turns =~= once.header_turns);
}

impl BridgeCore {
    /// Applies a control event to the interaction queue of `seed`.
    pub fn apply_interaction_event(&mut self, seed: &str, ev: InteractionEvent)
        ensures
            final(self)@ == after_interaction(old(self)@, seed@, ev@),
    {
        let mut machine = match self.interactions.remove(seed) {
            Some(machine) => machine,
            None => InteractionMachine::new(),
        };
        machine.apply(ev);
        self.interactions.insert(seed.to_owned(), machine);
        proof {
            let queues = old(self)@.interactions;
            assert(queues.remove(seed@).insert(seed@, machine@) =~= queues.insert(
                seed@,
                machine@,
            ));
        }
        self.refresh_interaction_snapshot();
    }

    /// Applies a tool event to the interaction queue of `seed`.
    pub fn apply_tool_permission_event(&mut self, seed: &str, ev: ToolPermissionEvent)
        ensures
            final(self)@ == after_permission(old(self)@, seed@, ev@),
    {
        let mut machine = match self.interactions.remove(seed) {
            Some(machine) => machine,
            None => InteractionMachine::new(),
        };
        machine.apply_tool(ev);
        self.interactions.insert(seed.to_owned(), machine);
        proof {
            let queues = old(self)@.interactions;
            assert(queues.remove(seed@).insert(seed@, machine@) =~= queues.insert(
                seed@,
                machine@,
            ));
        }
        self.refresh_interaction_snapshot();
    }

    /// Notes that the work of `seed` entered a phase.
    pub fn set_composer_phase(&mut self, seed: &str, phase: WorkPhase, now: u64)
        ensures
            final(self)@ == with_phase(old(self)@, seed@, phase@, now),
    {
        let mut activity = match self.composer_activity.remove(seed) {
            Some(activity) => activity,
            None => ComposerActivity::default(),
        };
        activity.phase = phase;
        activity.last_activity_at = now;
        self.composer_activity.insert(seed.to_owned(), activity);
        proof {
            let all = old(self)@.composer_activity;
            assert(all.remove(seed@).insert(seed@, activity@) =~= all.insert(seed@, activity@));
        }
        self.composer_rev = model::bump(self.composer_rev);
    }

    /// Tracks a tool call of `seed` that spawns a subagent, under the name that
    /// its arguments give by now.
    pub fn upsert_subagent(
        &mut self,
        seed: &str,
        call_id: &str,
        args_so_far: Option<&str>,
        now: u64,
    )
        ensures
            final(self)@ == with_subagent(
                old(self)@,
                seed@,
                call_id@,
                match args_so_far {
                    Some(a) => Some(a@),
                    None => None,
                },
                now,
            ),
    {
        let name = match args_so_far {
            Some(args) => subagent::parse_agent_name(args),
            None => None,
        };
        let mut list = match self.subagents.remove(seed) {
            Some(list) => list,
            None => SubagentList::new(),
        };
        list.track(call_id, &name, now);
        self.subagents.insert(seed.to_owned(), list);
        proof {
            let all = old(self)@.subagents;
            assert(all.remove(seed@).insert(seed@, list@) =~= all.insert(seed@, list@));
        }
        self.composer_rev = model::bump(self.composer_rev);
    }

    /// Reports the end of the subagents of `seed` named `name`.
    pub fn converge_subagent(&mut self, seed: &str, name: &str, state: SubagentState, now: u64)
        ensures
            final(self)@ == with_subagent_end(old(self)@, seed@, name@, state, now),
    {
        let ghost all = self@.subagents;
        match self.subagents.remove(seed) {
            Some(list) => {
                let mut list = list;
                let changed = list.end(name, state, now);
                self.subagents.insert(seed.to_owned(), list);
                assert(all.remove(seed@).insert(seed@, list@) =~= all.insert(seed@, list@));
                if changed {
                    self.composer_rev = model::bump(self.composer_rev);
                }
            },
            None => {
                assert(all.remove(seed@) =~= all);
            },
        }
    }

    /// Notes the session of the subagent that a tool call of `seed` spawned.
    pub fn record_subagent_seed(&mut self, seed: &str, call_id: &str, sub_seed: &str)
        ensures
            final(self)@ == with_subagent_seed(old(self)@, seed@, call_id@, sub_seed@),
    {
        let ghost all = self@.subagents;
        match self.subagents.remove(seed) {
            Some(list) => {
                let mut list = list;
                let changed = list.note_seed(call_id, sub_seed);
                self.subagents.insert(seed.to_owned(), list);
                assert(all.remove(seed@).insert(seed@, list@) =~= all.insert(seed@, list@));
                if changed {
                    self.composer_rev = model::bump(self.composer_rev);
                }
            },
            None => {
                assert(all.remove(seed@) =~= all);
            },
        }
    }

    /// Takes over a dashboard.
    pub fn apply_dashboard(&mut self, dashboard: DashboardSnapshot)
        ensures
            final(self)@ == with_dashboard(old(self)@, dashboard@),
    {
        if dashboard.seed.as_str().is_empty() {
            return;
        }
        let seed = dashboard.seed.clone();
        self.dashboards.insert(seed, dashboard);
        self.dashboard_rev = model::bump(self.dashboard_rev);
    }

    /// Shows an error in the composer of `seed`.
    pub fn set_submit_error(&mut self, seed: &str, error: String)
        ensures
            final(self)@ == with_submit_error(old(self)@, seed@, error@),
    {
        let ghost all = self@.composer_feedback;
        let mut feedback = match self.composer_feedback.remove(seed) {
            Some(feedback) => feedback,
            None => ComposerFeedback::default(),
        };
        feedback.submit_error = error;
        self.composer_feedback.insert(seed.to_owned(), feedback);
        assert(all.remove(seed@).insert(seed@, feedback@) =~= all.insert(seed@, feedback@));
    }

    /// Notes what the daemon said a session is doing.
    pub fn note_activity(&mut self, seed: &str, state: ActivityState)
        ensures
            final(self)@ == with_activity(old(self)@, seed@, state),
    {
        let ghost before = self.sessions@;
        self.activities.insert(seed.to_owned(), state);
        if let Some(i) = store::find_session(&self.sessions, seed) {
            let mut item = self.sessions[i].duplicate();
            item.state = state;
            self.sessions.set(i, item);
            assert(model::views(self.sessions@) =~= model::views(before).update(
                i as int,
                item@,
            ));
        }
    }

    /// Notes that a turn of `seed` exists.
    pub fn record_live_turn_started(&mut self, seed: &str)
        ensures
            final(self)@ == with_live_turn(old(self)@, seed@),
    {
        let count: usize = match self.header_turns.get(seed) {
            Some(n) => if *n > 1 {
                *n
            } else {
                1
            },
            None => 1,
        };
        self.header_turns.insert(seed.to_owned(), count);
    }
}

// ---------------------------------------------------------------------------
// The control channel
// ---------------------------------------------------------------------------

/// `skills` under a session, `seed` if it names none.
pub open spec fn skills_for(skills: SkillsView, seed: Seq<char>) -> SkillsView {
    if skills.seed.len() == 0 {
        SkillsView { seed, ..skills }
    } else {
        skills
    }
}

/// `dashboard` under a session, `seed` if it names none.
pub open spec fn dashboard_for(dashboard: DashboardView, seed: Seq<char>) -> DashboardView {
    if dashboard.seed.len() == 0 {
        DashboardView { seed, ..dashboard }
    } else {
        dashboard
    }
}

/// The state after a control event of `seed`, before the form or review it
/// concerns is looked at.
pub open spec fn control_update(
    c: CoreView,
    seed: Seq<char>,
    ev: ControlEventView,
    now: u64,
) -> CoreView {
    match ev {
        ControlEventView::SessionActivityChanged { seed: about, state } => with_activity(
            c,
            about,
            state,
        ),
        ControlEventView::SkillsUpdated { skills } => CoreView {
            skills: Some(skills_for(skills, seed)),
            ..c
        },
        ControlEventView::DashboardUpdated { dashboard } => with_dashboard(
            c,
            dashboard_for(dashboard, seed),
        ),
        ControlEventView::OperationFailed { code, message } => if code == "compact_failed"@ {
            let told = with_submit_error(c, seed, message);
            CoreView { composer_rev: model::next_rev(told.composer_rev), ..told }
        } else {
            c
        },
        ControlEventView::SubagentStatus { name, tag } => match subagent::state_of_tag(tag) {
            Some(state) => with_subagent_end(c, seed, name, state, now),
            None => c,
        },
        _ => c,
    }
}

/// The state after a control event of `seed`.
pub open spec fn after_control(
    c: CoreView,
    seed: Seq<char>,
    ev: ControlEventView,
    now: u64,
) -> CoreView {
    let updated = control_update(c, seed, ev, now);
    match events::interaction_of(ev) {
        Some(e) => after_interaction(updated, seed, e),
        None => updated,
    }
}

/// The state after the control events among `evs`, in order.
pub open spec fn after_controls(
    c: CoreView,
    seed: Seq<char>,
    evs: Seq<RingingEventView>,
    now: u64,
) -> CoreView
    decreases evs.len(),
{
    if evs.len() == 0 {
        c
    } else {
        let before = after_controls(c, seed, evs.drop_last(), now);
        match evs.last() {
            RingingEventView::Control(ev) => after_control(before, seed, ev, now),
            _ => before,
        }
    }
}

/// Whether an event says what a session is doing.
pub open spec fn tells_activity(ev: RingingEventView) -> bool {
    match ev {
        RingingEventView::Control(ControlEventView::SessionActivityChanged { .. }) => true,
        _ => false,
    }
}

/// Whether an event brings the skills of a session.
pub open spec fn tells_skills(ev: RingingEventView) -> bool {
    match ev {
        RingingEventView::Control(ControlEventView::SkillsUpdated { .. }) => true,
        _ => false,
    }
}

/// Whether an event changes the list of sessions.
pub open spec fn tells_list(ev: RingingEventView) -> bool {
    match ev {
        RingingEventView::Control(ControlEventView::SessionStateChanged) => true,
        RingingEventView::Control(ControlEventView::SessionMetaChanged) => true,
        _ => false,
    }
}

/// Whether some event says what a session is doing.
pub open spec fn some_activity(evs: Seq<RingingEventView>) -> bool {
    exists|i: int| 0 <= i < evs.len() && tells_activity(#[trigger] evs[i])
}

/// Whether some event brings the skills of a session.
pub open spec fn some_skills(evs: Seq<RingingEventView>) -> bool {
    exists|i: int| 0 <= i < evs.len() && tells_skills(#[trigger] evs[i])
}

/// Whether some event changes the list of sessions.
pub open spec fn some_list(evs: Seq<RingingEventView>) -> bool {
    exists|i: int| 0 <= i < evs.len() && tells_list(#[trigger] evs[i])
}

/// The state after a batch of the control channel. The versions of the sessions
/// and of the skills count batches, not events.
pub open spec fn after_control_batch(
    c: CoreView,
    seed: Seq<char>,
    evs: Seq<RingingEventView>,
    now: u64,
) -> CoreView {
    let told = after_controls(c, seed, evs, now);
    CoreView {
        session_rev: if some_activity(evs) {
            model::next_rev(told.session_rev)
        } else {
            told.session_rev
        },
        skills_rev: if some_skills(evs) {
            model::next_rev(told.skills_rev)
        } else {
            told.skills_rev
        },
        ..told
    }
}

/// What is to be done after a batch of the control channel: the details are read
/// anew where some are cached and a session's doing changed; the list where it
/// changed.
pub open spec fn control_effects(
    c: CoreView,
    seed: Seq<char>,
    evs: Seq<RingingEventView>,
    now: u64,
) -> Seq<EffectView> {
    let told = after_controls(c, seed, evs, now);
    let info = if some_activity(evs) && told.info is Some {
        seq![EffectView::RefreshInfo { seed: told.active_seed }]
    } else {
        Seq::empty()
    };
    if some_list(evs) {
        info.push(EffectView::RefreshSessions)
    } else {
        info
    }
}

// ---------------------------------------------------------------------------
// The tool channel
// ---------------------------------------------------------------------------

/// The name of the tool that spawns subagents.
pub open spec fn spawns(name: Seq<char>) -> bool {
    name == "spawn_subagent"@
}

/// The state after a tool event of `seed`. A permission request means waiting
/// for the user; the end of a call means that the model goes on thinking.
pub open spec fn after_tool(
    c: CoreView,
    seed: Seq<char>,
    ev: ToolEventView,
    now: u64,
) -> CoreView {
    let asked = match events::permission_of(ev) {
        Some(e) => with_phase(after_permission(c, seed, e), seed, WorkPhaseView::WaitingUser, now),
        None => c,
    };
    match ev {
        ToolEventView::ToolCallPrepared { tool_call_id, name, args_so_far } => if spawns(name) {
            with_subagent(asked, seed, tool_call_id, Some(args_so_far), now)
        } else {
            asked
        },
        ToolEventView::ToolStarted { tool_call_id, name } => {
            let started = with_phase(asked, seed, WorkPhaseView::Tool(name), now);
            if spawns(name) {
                with_subagent(started, seed, tool_call_id, None, now)
            } else {
                started
            }
        },
        ToolEventView::ToolFinished { tool_call_id, model_text } => {
            let thinking = with_phase(asked, seed, WorkPhaseView::Thinking, now);
            match subagent::spawn_seed_text(model_text) {
                Some(sub_seed) => with_subagent_seed(thinking, seed, tool_call_id, sub_seed),
                None => thinking,
            }
        },
        _ => asked,
    }
}

/// The state after the tool events among `evs`, in order.
pub open spec fn after_tools(
    c: CoreView,
    seed: Seq<char>,
    evs: Seq<RingingEventView>,
    now: u64,
) -> CoreView
    decreases evs.len(),
{
    if evs.len() == 0 {
        c
    } else {
        let before = after_tools(c, seed, evs.drop_last(), now);
        match evs.last() {
            RingingEventView::Tool(ev) => after_tool(before, seed, ev, now),
            _ => before,
        }
    }
}

// ---------------------------------------------------------------------------
// The conversation channel
// ---------------------------------------------------------------------------

/// What a batch of the conversation channel has brought so far.
#[verifier::ext_equal]
pub struct ConversationTally {
    pub core: CoreView,
    /// A turn started or ended.
    pub boundary: bool,
    /// A turn ended.
    pub ended: bool,
    /// The last news about compacting.
    pub compact: Option<Seq<char>>,
    /// The last report of usage, with the context limit and the model.
    pub usage: Option<(UsageInfo, u64, Seq<char>)>,
    /// How many turns completed.
    pub completed: nat,
}

/// The state after a conversation event of `seed`, before its activity is noted.
pub open spec fn conversation_update(
    c: CoreView,
    seed: Seq<char>,
    ev: ConversationEventView,
    now: u64,
) -> CoreView {
    let started = match ev {
        ConversationEventView::TurnStarted { turn_id: _, user_text } => {
            let live = with_live_turn(c, seed);
            match subagent::injection_in(user_text) {
                Some((name, state)) => with_subagent_end(live, seed, name, state, now),
                None => live,
            }
        },
        _ => c,
    };
    match events::boundary_turn(ev) {
        Some(turn_id) => CoreView {
            last_turn_ids: started.last_turn_ids.insert(seed, turn_id),
            ..started
        },
        None => started,
    }
}

/// The state with the activity of a conversation event of `seed` noted.
pub open spec fn with_conversation_activity(
    c: CoreView,
    seed: Seq<char>,
    ev: ConversationEventView,
    now: u64,
) -> CoreView {
    match events::activity_of(ev) {
        Some(a) => CoreView {
            composer_activity: c.composer_activity.insert(
                seed,
                composer::after_activity(activity_in(c, seed), a, now),
            ),
            ..c
        },
        None => c,
    }
}

/// The tally after one more conversation event of `seed`.
pub open spec fn after_conversation(
    t: ConversationTally,
    seed: Seq<char>,
    ev: ConversationEventView,
    now: u64,
) -> ConversationTally {
    let noted = with_conversation_activity(
        conversation_update(t.core, seed, ev, now),
        seed,
        ev,
        now,
    );
    let act = events::activity_of(ev);
    ConversationTally {
        core: if ev is CompactStarted {
            with_submit_error(noted, seed, Seq::empty())
        } else {
            noted
        },
        boundary: t.boundary || act == Some(ActivityEventView::Started) || act == Some(
            ActivityEventView::Ended,
        ),
        ended: t.ended || act == Some(ActivityEventView::Ended),
        compact: match ev {
            ConversationEventView::CompactStarted => Some("running"@),
            ConversationEventView::CompactFinished { status } => Some(status),
            _ => t.compact,
        },
        usage: match ev {
            ConversationEventView::UsageUpdated { usage, context_limit, model } => Some(
                (usage, context_limit, model),
            ),
            _ => t.usage,
        },
        completed: if ev is TurnCompleted {
            t.completed + 1
        } else {
            t.completed
        },
    }
}

/// The tally after the conversation events among `evs`, in order.
pub open spec fn tally_of(
    c: CoreView,
    seed: Seq<char>,
    evs: Seq<RingingEventView>,
    now: u64,
) -> ConversationTally
    decreases evs.len(),
{
    if evs.len() == 0 {
        ConversationTally {
            core: CoreView {
                composer_activity: c.composer_activity.insert(seed, activity_in(c, seed)),
                ..c
            },
            boundary: false,
            ended: false,
            compact: None,
            usage: None,
            completed: 0,
        }
    } else {
        let before = tally_of(c, seed, evs.drop_last(), now);
        match evs.last() {
            RingingEventView::Conversation(ev) => after_conversation(before, seed, ev, now),
            _ => before,
        }
    }
}

/// The details of a session with a report of usage.
pub open spec fn with_usage(
    info: Option<DetailView>,
    usage: UsageInfo,
    context_limit: u64,
    model: Seq<char>,
) -> DetailView {
    let known = match info {
        Some(detail) => detail,
        None => store::no_detail(),
    };
    DetailView { usage, context_limit, model, ..known }
}

/// The state after news about compacting and usage of `seed` were taken over.
/// The details and the title bar are those of the active session.
pub open spec fn with_news(t: ConversationTally, seed: Seq<char>, now: u64) -> CoreView {
    let c = t.core;
    let active = seed == c.active_seed;
    let compacted = match t.compact {
        Some(status) => CoreView {
            compact_statuses: c.compact_statuses.insert(seed, status),
            ..c
        },
        None => c,
    };
    let informed = match t.usage {
        Some((usage, context_limit, model)) => if active {
            CoreView {
                info: Some(with_usage(compacted.info, usage, context_limit, model)),
                info_rev: model::next_rev(compacted.info_rev),
                ..compacted
            }
        } else {
            compacted
        },
        None => compacted,
    };
    if t.compact is Some && active {
        bridge_core::with_header(informed, now)
    } else {
        informed
    }
}

/// The state after a batch of the conversation channel.
pub open spec fn after_conversation_batch(
    c: CoreView,
    seed: Seq<char>,
    evs: Seq<RingingEventView>,
    now: u64,
) -> CoreView {
    let t = tally_of(c, seed, evs, now);
    let news = with_news(t, seed, now);
    let told = CoreView { composer_rev: model::next_rev(news.composer_rev), ..news };
    if t.boundary {
        bridge_core::with_header(told, now)
    } else {
        told
    }
}

/// What is to be done after a batch of the conversation channel: the user is
/// told of every turn that completed; the details are read anew where a turn of
/// the active session ended and they are on show.
pub open spec fn conversation_effects(
    c: CoreView,
    seed: Seq<char>,
    evs: Seq<RingingEventView>,
    now: u64,
) -> Seq<EffectView> {
    let t = tally_of(c, seed, evs, now);
    let after = after_conversation_batch(c, seed, evs, now);
    let told = Seq::new(t.completed, |i: int| EffectView::NotifyTurnCompleted { seed });
    if seed == after.active_seed && t.ended && after.header.info_open {
        told.push(EffectView::RefreshInfo { seed })
    } else {
        told
    }
}

/// The state after a batch of events.
pub open spec fn after_batch(
    c: CoreView,
    channel: Channel,
    seed: Seq<char>,
    evs: Seq<RingingEventView>,
    now: u64,
) -> CoreView {
    match channel {
        Channel::Control => after_control_batch(c, seed, evs, now),
        Channel::Tool => after_tools(c, seed, evs, now),
        Channel::Conversation => after_conversation_batch(c, seed, evs, now),
    }
}

/// What is to be done after a batch of events.
pub open spec fn batch_effects(
    c: CoreView,
    channel: Channel,
    seed: Seq<char>,
    evs: Seq<RingingEventView>,
    now: u64,
) -> Seq<EffectView> {
    match channel {
        Channel::Control => control_effects(c, seed, evs, now),
        Channel::Tool => Seq::empty(),
        Channel::Conversation => conversation_effects(c, seed, evs, now),
    }
}

impl BridgeCore {
    /// Takes over one control event, but for the form or review it concerns.
    fn update_by_control(&mut self, seed: &str, ev: &ControlEvent, now: u64)
        ensures
            final(self)@ == control_update(old(self)@, seed@, ev@, now),
    {
        match ev {
            ControlEvent::SessionActivityChanged { seed: about, state } => {
                self.note_activity(about.as_str(), *state);
            },
            ControlEvent::SkillsUpdated { skills } => {
                let mut snapshot = skills.duplicate();
                if snapshot.seed.as_str().is_empty() {
                    snapshot.seed = seed.to_owned();
                }
                self.skills = Some(snapshot);
            },
            ControlEvent::DashboardUpdated { dashboard } => {
                let mut snapshot = dashboard.duplicate();
                if snapshot.seed.as_str().is_empty() {
                    snapshot.seed = seed.to_owned();
                }
                self.apply_dashboard(snapshot);
            },
            ControlEvent::OperationFailed { error } => {
                if text::same(error.code.as_str(), "compact_failed") {
                    self.set_submit_error(seed, error.message.clone());
                    self.composer_rev = model::bump(self.composer_rev);
                }
            },
            ControlEvent::SubagentStatus { name, tag } => {
                if let Some(state) = subagent::subagent_state_from_tag(tag.as_str()) {
                    self.converge_subagent(seed, name.as_str(), state, now);
                }
            },
            _ => {},
        }
    }

    /// Takes over one control event.
    fn apply_control(&mut self, seed: &str, ev: &ControlEvent, now: u64)
        ensures
            final(self)@ == after_control(old(self)@, seed@, ev@, now),
    {
        self.update_by_control(seed, ev, now);
        if let Some(e) = events::interaction_event(ev) {
            self.apply_interaction_event(seed, e);
        }
    }

    /// Takes over a batch of the control channel.
    fn emit_control(&mut self, seed: &str, evs: &Vec<RingingEvent>, now: u64) -> (r: Vec<Effect>)
        ensures
            final(self)@ == after_control_batch(old(self)@, seed@, model::views(evs@), now),
            model::views(r@) == control_effects(old(self)@, seed@, model::views(evs@), now),
    {
        let ghost start = self@;
        let ghost all = model::views(evs@);
        let mut activity = false;
        let mut skills = false;
        let mut list = false;
        let mut i: usize = 0;
        assert(all.take(0) =~= Seq::empty());
        while i < evs.len()
            invariant
                i <= evs@.len(),
                all == model::views(evs@),
                self@ == after_controls(start, seed@, all.take(i as int), now),
                activity == some_activity(all.take(i as int)),
                skills == some_skills(all.take(i as int)),
                list == some_list(all.take(i as int)),
            decreases evs@.len() - i,
        {
            proof {
                let longer = all.take(i + 1);
                let shorter = all.take(i as int);
                assert(longer.drop_last() =~= shorter);
                assert(longer.last() == evs@[i as int]@);
                assert forall|k: int| 0 <= k < shorter.len() implies longer[k] == shorter[k] by {}
                assert(some_activity(longer) == (some_activity(shorter) || tells_activity(
                    longer.last(),
                ))) by {
                    if some_activity(longer) {
                        let k = choose|k: int|
                            0 <= k < longer.len() && tells_activity(#[trigger] longer[k]);
                        if k < shorter.len() {
                            assert(tells_activity(shorter[k]));
                        }
                    }
                    if some_activity(shorter) {
                        let k = choose|k: int|
                            0 <= k < shorter.len() && tells_activity(#[trigger] shorter[k]);
                        assert(tells_activity(longer[k]));
                    }
                    assert(longer.last() == longer[longer.len() - 1]);
                }
                assert(some_skills(longer) == (some_skills(shorter) || tells_skills(
                    longer.last(),
                ))) by {
                    if some_skills(longer) {
                        let k = choose|k: int|
                            0 <= k < longer.len() && tells_skills(#[trigger] longer[k]);
                        if k < shorter.len() {
                            assert(tells_skills(shorter[k]));
                        }
                    }
                    if some_skills(shorter) {
                        let k = choose|k: int|
                            0 <= k < shorter.len() && tells_skills(#[trigger] shorter[k]);
                        assert(tells_skills(longer[k]));
                    }
                    assert(longer.last() == longer[longer.len() - 1]);
                }
                assert(some_list(longer) == (some_list(shorter) || tells_list(longer.last()))) by {
                    if some_list(longer) {
                        let k = choose|k: int|
                            0 <= k < longer.len() && tells_list(#[trigger] longer[k]);
                        if k < shorter.len() {
                            assert(tells_list(shorter[k]));
                        }
                    }
                    if some_list(shorter) {
                        let k = choose|k: int|
                            0 <= k < shorter.len() && tells_list(#[trigger] shorter[k]);
                        assert(tells_list(longer[k]));
                    }
                    assert(longer.last() == longer[longer.len() - 1]);
                }
            }
            if let RingingEvent::Control(ev) = &evs[i] {
                self.apply_control(seed, ev, now);
                match ev {
                    ControlEvent::SessionActivityChanged { .. } => {
                        activity = true;
                    },
                    ControlEvent::SkillsUpdated { .. } => {
                        skills = true;
                    },
                    ControlEvent::SessionStateChanged => {
                        list = true;
                    },
                    ControlEvent::SessionMetaChanged => {
                        list = true;
                    },
                    _ => {},
                }
            }
            i = i + 1;
        }
        assert(all.take(all.len() as int) =~= all);
        let mut effects: Vec<Effect> = Vec::new();
        if activity {
            if self.info.is_some() {
                effects.push(Effect::RefreshInfo { seed: self.active_seed.clone() });
            }
            self.session_rev = model::bump(self.session_rev);
        }
        if skills {
            self.skills_rev = model::bump(self.skills_rev);
        }
        if list {
            effects.push(Effect::RefreshSessions);
        }
        assert(model::views(effects@) =~= control_effects(start, seed@, all, now));
        effects
    }

    /// Takes over one tool event.
    fn apply_tool(&mut self, seed: &str, ev: &ToolEvent, now: u64)
        ensures
            final(self)@ == after_tool(old(self)@, seed@, ev@, now),
    {
        if let Some(e) = events::tool_permission_event(ev) {
            self.apply_tool_permission_event(seed, e);
            self.set_composer_phase(seed, WorkPhase::WaitingUser, now);
        }
        match ev {
            ToolEvent::ToolCallPrepared { tool_call_id, name, args_so_far } => {
                if text::same(name.as_str(), "spawn_subagent") {
                    self.upsert_subagent(
                        seed,
                        tool_call_id.as_str(),
                        Some(args_so_far.as_str()),
                        now,
                    );
                }
            },
            ToolEvent::ToolStarted { tool_call_id, name } => {
                self.set_composer_phase(seed, WorkPhase::Tool(name.clone()), now);
                if text::same(name.as_str(), "spawn_subagent") {
                    self.upsert_subagent(seed, tool_call_id.as_str(), None, now);
                }
            },
            ToolEvent::ToolFinished { tool_call_id, model_text } => {
                self.set_composer_phase(seed, WorkPhase::Thinking, now);
                if let Some(sub_seed) = subagent::parse_spawn_seed(model_text.as_str()) {
                    self.record_subagent_seed(seed, tool_call_id.as_str(), sub_seed.as_str());
                }
            },
            _ => {},
        }
    }

    /// Takes over a batch of the tool channel.
    fn emit_tool(&mut self, seed: &str, evs: &Vec<RingingEvent>, now: u64)
        ensures
            final(self)@ == after_tools(old(self)@, seed@, model::views(evs@), now),
    {
        let ghost start = self@;
        let ghost all = model::views(evs@);
        let mut i: usize = 0;
        assert(all.take(0) =~= Seq::empty());
        while i < evs.len()
            invariant
                i <= evs@.len(),
                all == model::views(evs@),
                self@ == after_tools(start, seed@, all.take(i as int), now),
            decreases evs@.len() - i,
        {
            assert(all.take(i + 1).drop_last() =~= all.take(i as int));
            assert(all.take(i + 1).last() == evs@[i as int]@);
            if let RingingEvent::Tool(ev) = &evs[i] {
                self.apply_tool(seed, ev, now);
            }
            i = i + 1;
        }
        assert(all.take(all.len() as int) =~= all);
    }

    /// Takes over one conversation event, but for its activity.
    fn update_by_conversation(&mut self, seed: &str, ev: &ConversationEvent, now: u64)
        ensures
            final(self)@ == conversation_update(old(self)@, seed@, ev@, now),
    {
        if let ConversationEvent::TurnStarted { turn_id: _, user_text } = ev {
            self.record_live_turn_started(seed);
            if let Some((name, state)) = subagent::parse_subagent_injection(user_text.as_str()) {
                self.converge_subagent(seed, name.as_str(), state, now);
            }
        }
        if let Some(turn_id) = events::turn_of_boundary(ev) {
            self.last_turn_ids.insert(seed.to_owned(), turn_id);
        }
    }

    /// Notes the activity of one conversation event.
    fn note_conversation_activity(&mut self, seed: &str, ev: &ConversationEvent, now: u64)
        ensures
            final(self)@ == with_conversation_activity(old(self)@, seed@, ev@, now),
    {
        if let Some(e) = events::conversation_activity_event(ev) {
            let ghost all = self@.composer_activity;
            let mut activity = match self.composer_activity.remove(seed) {
                Some(activity) => activity,
                None => ComposerActivity::default(),
            };
            activity.apply(e, now);
            self.composer_activity.insert(seed.to_owned(), activity);
            assert(all.remove(seed@).insert(seed@, activity@) =~= all.insert(seed@, activity@));
        }
    }

    /// Takes over news about compacting and usage.
    fn take_news(
        &mut self,
        seed: &str,
        compact: Option<String>,
        usage: Option<(UsageInfo, u64, String)>,
        now: u64,
        Ghost(t): Ghost<ConversationTally>,
    )
        requires
            t.core == old(self)@,
            t.compact == model::opt_view(compact),
            t.usage == (match usage {
                Some((u, limit, model)) => Some((u, limit, model@)),
                None => None,
            }),
        ensures
            final(self)@ == with_news(t, seed@, now),
    {
        let active = text::same(seed, self.active_seed.as_str());
        let told = compact.is_some();
        if let Some(status) = compact {
            self.compact_statuses.insert(seed.to_owned(), status);
        }
        if let Some((usage, context_limit, model)) = usage {
            if active {
                let mut detail = match &self.info {
                    Some(detail) => detail.duplicate(),
                    None => SessionDetail::default(),
                };
                detail.usage = usage;
                detail.context_limit = context_limit;
                detail.model = model;
                self.info = Some(detail);
                self.info_rev = model::bump(self.info_rev);
            }
        }
        if told && active {
            self.refresh_header(now);
        }
    }
}

impl BridgeCore {
    /// Takes over a batch of the conversation channel.
    fn emit_conversation(
        &mut self,
        seed: &str,
        evs: &Vec<RingingEvent>,
        now: u64,
    ) -> (r: Vec<Effect>)
        ensures
            final(self)@ == after_conversation_batch(old(self)@, seed@, model::views(evs@), now),
            model::views(r@) == conversation_effects(old(self)@, seed@, model::views(evs@), now),
    {
        let ghost start = self@;
        let ghost all = model::views(evs@);
        let mut boundary = false;
        let mut ended = false;
        let mut compact: Option<String> = None;
        let mut usage: Option<(UsageInfo, u64, String)> = None;
        let mut effects: Vec<Effect> = Vec::new();
        let activity = match self.composer_activity.remove(seed) {
            Some(activity) => activity,
            None => ComposerActivity::default(),
        };
        self.composer_activity.insert(seed.to_owned(), activity);
        let mut i: usize = 0;
        proof {
            let map = start.composer_activity;
            assert(map.remove(seed@).insert(seed@, activity@) =~= map.insert(seed@, activity@));
            assert(all.take(0) =~= Seq::empty());
        }
        while i < evs.len()
            invariant
                i <= evs@.len(),
                all == model::views(evs@),
                self@ == tally_of(start, seed@, all.take(i as int), now).core,
                boundary == tally_of(start, seed@, all.take(i as int), now).boundary,
                ended == tally_of(start, seed@, all.take(i as int), now).ended,
                model::opt_view(compact) == tally_of(
                    start,
                    seed@,
                    all.take(i as int),
                    now,
                ).compact,
                tally_of(start, seed@, all.take(i as int), now).usage == (match usage {
                    Some((u, limit, model)) => Some((u, limit, model@)),
                    None => None,
                }),
                effects@.len() == tally_of(start, seed@, all.take(i as int), now).completed,
                forall|k: int|
                    0 <= k < effects@.len() ==> (#[trigger] effects@[k])@
                        == (EffectView::NotifyTurnCompleted { seed: seed@ }),
            decreases evs@.len() - i,
        {
            assert(all.take(i + 1).drop_last() =~= all.take(i as int));
            assert(all.take(i + 1).last() == evs@[i as int]@);
            if let RingingEvent::Conversation(ev) = &evs[i] {
                self.update_by_conversation(seed, ev, now);
                self.note_conversation_activity(seed, ev, now);
                match ev {
                    ConversationEvent::TurnStarted { .. } => {
                        boundary = true;
                    },
                    ConversationEvent::TurnCompleted { .. } => {
                        boundary = true;
                        ended = true;
                        effects.push(Effect::NotifyTurnCompleted { seed: seed.to_owned() });
                    },
                    ConversationEvent::TurnFailed { .. } => {
                        boundary = true;
                        ended = true;
                    },
                    ConversationEvent::ConversationCancelled { .. } => {
                        boundary = true;
                        ended = true;
                    },
                    ConversationEvent::UsageUpdated { usage: report, context_limit, model } => {
                        usage = Some((*report, *context_limit, model.clone()));
                    },
                    ConversationEvent::CompactStarted => {
                        compact = Some("running".to_owned());
                        self.set_submit_error(seed, String::new());
                    },
                    ConversationEvent::CompactFinished { status } => {
                        compact = Some(status.clone());
                    },
                    _ => {},
                }
            }
            i = i + 1;
        }
        assert(all.take(all.len() as int) =~= all);
        let ghost t = tally_of(start, seed@, all, now);
        self.take_news(seed, compact, usage, now, Ghost(t));
        self.composer_rev = model::bump(self.composer_rev);
        if boundary {
            self.refresh_header(now);
        }
        if ended && self.header.info_open && text::same(seed, self.active_seed.as_str()) {
            effects.push(Effect::RefreshInfo { seed: seed.to_owned() });
        }
        assert(model::views(effects@) =~= conversation_effects(start, seed@, all, now));
        effects
    }

    /// Takes over a batch of events. Returns what is to be done beyond that.
    pub fn emit_batch(&mut self, batch: &EventBatch, now: u64) -> (r: Vec<Effect>)
        ensures
            final(self)@ == after_batch(
                old(self)@,
                batch.channel,
                batch.seed@,
                model::views(batch.events@),
                now,
            ),
            model::views(r@) == batch_effects(
                old(self)@,
                batch.channel,
                batch.seed@,
                model::views(batch.events@),
                now,
            ),
    {
        match batch.channel {
            Channel::Control => self.emit_control(batch.seed.as_str(), &batch.events, now),
            Channel::Tool => {
                self.emit_tool(batch.seed.as_str(), &batch.events, now);
                let none: Vec<Effect> = Vec::new();
                assert(model::views(none@) =~= Seq::empty());
                none
            },
            Channel::Conversation => self.emit_conversation(
                batch.seed.as_str(),
                &batch.events,
                now,
            ),
        }
    }
}

} // verus!
