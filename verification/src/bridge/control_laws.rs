//! What the events of the control channel do, event by event.

use vstd::prelude::*;

use crate::bridge::bridge_core::CoreView;
use crate::bridge::events::{Channel, ControlEvent, RingingEvent, RingingEventView};
use crate::bridge::interaction::ActiveView;
use crate::bridge::reducer;
use crate::bridge::reducer::EffectView;
use crate::bridge::store;
use crate::bridge::subagent::{SubagentState, SubagentView};
use crate::bridge::tool_laws;
use crate::model;

verus! {

/// The state after a batch of one control event.
pub open spec fn after_one(c: CoreView, seed: Seq<char>, e: ControlEvent, now: u64) -> CoreView {
    reducer::after_batch(
        c,
        Channel::Control,
        seed,
        model::views(seq![RingingEvent::Control(e)]),
        now,
    )
}

/// What is to be done after a batch of one control event.
pub open spec fn effects_of_one(
    c: CoreView,
    seed: Seq<char>,
    e: ControlEvent,
    now: u64,
) -> Seq<EffectView> {
    reducer::batch_effects(
        c,
        Channel::Control,
        seed,
        model::views(seq![RingingEvent::Control(e)]),
        now,
    )
}

proof fn one_control(c: CoreView, seed: Seq<char>, e: ControlEvent, now: u64)
    ensures
        ({
            let evs = model::views(seq![RingingEvent::Control(e)]);
            &&& reducer::after_controls(c, seed, evs, now) == reducer::after_control(
                c,
                seed,
                e@,
                now,
            )
            &&& reducer::some_activity(evs) == (e is SessionActivityChanged)
            &&& reducer::some_skills(evs) == (e is SkillsUpdated)
            &&& reducer::some_list(evs) == (e is SessionStateChanged || e is SessionMetaChanged)
        }),
{
    let evs = model::views(seq![RingingEvent::Control(e)]);
    assert(evs.last() == RingingEventView::Control(e@));
    assert(evs[0] == RingingEventView::Control(e@));
    assert(evs.len() == 1);
    assert(reducer::after_controls(c, seed, evs.drop_last(), now) == c);
    assert(reducer::after_controls(c, seed, evs, now) == reducer::after_control(c, seed, e@, now));
    if e is SessionActivityChanged {
        assert(reducer::tells_activity(evs[0]));
    }
    if e is SkillsUpdated {
        assert(reducer::tells_skills(evs[0]));
    }
    if e is SessionStateChanged || e is SessionMetaChanged {
        assert(reducer::tells_list(evs[0]));
    }
}

/// What the daemon says a session does is noted of that session, in the list too,
/// and of no other. The list gets a new version, and details on show are read
/// anew.
pub proof fn activity_is_noted(c: CoreView, seed: Seq<char>, e: ControlEvent, now: u64)
    requires
        e is SessionActivityChanged,
    ensures
        e matches ControlEvent::SessionActivityChanged { seed: about, state } && ({
            let d = after_one(c, seed, e, now);
            &&& d.activities.contains_key(about@)
            &&& d.activities[about@] == state
            &&& forall|s: Seq<char>|
                s != about@ ==> #[trigger] d.activities.contains_key(s)
                    == c.activities.contains_key(s) && d.activities[s] == c.activities[s]
            &&& d.sessions.len() == c.sessions.len()
            &&& forall|i: int|
                #![trigger d.sessions[i]]
                0 <= i < c.sessions.len() ==> {
                    &&& d.sessions[i].seed == c.sessions[i].seed
                    &&& d.sessions[i].title == c.sessions[i].title
                    &&& d.sessions[i].archived == c.sessions[i].archived
                    &&& c.sessions[i].seed != about@ ==> d.sessions[i] == c.sessions[i]
                    &&& c.sessions[i].seed == about@ && (forall|j: int|
                        0 <= j < i ==> (#[trigger] c.sessions[j]).seed != about@)
                        ==> d.sessions[i].state == state
                }
            &&& d.session_rev != c.session_rev
            &&& effects_of_one(c, seed, e, now) =~= (if c.info is Some {
                seq![EffectView::RefreshInfo { seed: c.active_seed }]
            } else {
                Seq::empty()
            })
        }),
{
    one_control(c, seed, e, now);
    if let ControlEvent::SessionActivityChanged { seed: about, state } = e {
        store::session_at_is_least(c.sessions, about@);
        let d = after_one(c, seed, e, now);
        assert forall|i: int| #![trigger d.sessions[i]]
            0 <= i < c.sessions.len() && c.sessions[i].seed == about@ && (forall|j: int|
                0 <= j < i ==> (#[trigger] c.sessions[j]).seed
                    != about@) implies d.sessions[i].state == state by {
            match store::session_at(c.sessions, about@) {
                Some(k) => {
                    if k < i {
                        assert(c.sessions[k].seed != about@);
                    }
                    if i < k {
                        assert(c.sessions[i].seed != about@);
                    }
                },
                None => {
                    assert(c.sessions[i].seed != about@);
                },
            }
        }
    }
}

/// Skills and dashboards that arrive are kept as they are, for the session that
/// they name or else for the one of the batch, under a new version.
pub proof fn skills_and_dashboards_are_kept(
    c: CoreView,
    seed: Seq<char>,
    e: ControlEvent,
    now: u64,
)
    ensures
        e matches ControlEvent::SkillsUpdated { skills } ==> ({
            let d = after_one(c, seed, e, now);
            &&& d.skills matches Some(s) && s.operation_revision == skills.operation_revision
                && s.seed == (if skills.seed@.len() > 0 {
                skills.seed@
            } else {
                seed
            })
            &&& d.skills_rev != c.skills_rev
            &&& d.dashboards == c.dashboards
            &&& effects_of_one(c, seed, e, now).len() == 0
        }),
        e matches ControlEvent::DashboardUpdated { dashboard } ==> ({
            let d = after_one(c, seed, e, now);
            let key = if dashboard.seed@.len() > 0 {
                dashboard.seed@
            } else {
                seed
            };
            &&& key.len() > 0 ==> {
                &&& d.dashboards.contains_key(key)
                &&& d.dashboards[key].seed == key
                &&& d.dashboards[key].tasks == model::views(dashboard.tasks@)
                &&& d.dashboards[key].recent_edits == model::views(dashboard.recent_edits@)
                &&& d.dashboards[key].current_todo_id == model::opt_view(dashboard.current_todo_id)
                &&& d.dashboard_rev != c.dashboard_rev
            }
            &&& key.len() == 0 ==> d.dashboards == c.dashboards
            &&& forall|s: Seq<char>|
                s != key ==> #[trigger] d.dashboards.contains_key(s) == c.dashboards.contains_key(s)
                    && d.dashboards[s] == c.dashboards[s]
            &&& d.skills == c.skills
            &&& effects_of_one(c, seed, e, now).len() == 0
        }),
        !(e is SkillsUpdated) ==> after_one(c, seed, e, now).skills == c.skills && after_one(
            c,
            seed,
            e,
            now,
        ).skills_rev == c.skills_rev,
        !(e is DashboardUpdated) ==> after_one(c, seed, e, now).dashboards == c.dashboards,
{
    one_control(c, seed, e, now);
}

/// A list of sessions that changed is read anew, and nothing else is done about
/// it; an event that concerns nothing changes nothing.
pub proof fn changed_lists_are_read_anew(c: CoreView, seed: Seq<char>, e: ControlEvent, now: u64)
    ensures
        e is SessionStateChanged || e is SessionMetaChanged ==> effects_of_one(c, seed, e, now)
            =~= seq![EffectView::RefreshSessions] && after_one(c, seed, e, now) == c,
        e is Other ==> effects_of_one(c, seed, e, now).len() == 0 && after_one(c, seed, e, now) == c,
        !(e is SessionStateChanged || e is SessionMetaChanged) ==> !effects_of_one(
            c,
            seed,
            e,
            now,
        ).contains(EffectView::RefreshSessions),
{
    one_control(c, seed, e, now);
}

/// Compacting that failed shows why in the composer of its session; an operation
/// that failed because the daemon no longer knows the open form closes it; any
/// other failure changes nothing.
pub proof fn failures_are_shown_where_they_belong(
    c: CoreView,
    seed: Seq<char>,
    e: ControlEvent,
    now: u64,
)
    requires
        e is OperationFailed,
    ensures
        e matches ControlEvent::OperationFailed { error } && ({
            let d = after_one(c, seed, e, now);
            &&& error.code@ == "compact_failed"@ ==> {
                &&& d.composer_feedback.contains_key(seed)
                &&& d.composer_feedback[seed].submit_error == error.message@
                &&& c.composer_feedback.contains_key(seed) ==> d.composer_feedback[seed].send_ack
                    == c.composer_feedback[seed].send_ack
                &&& d.composer_rev != c.composer_rev
                &&& d.interactions == c.interactions
            }
            &&& error.code@ != "compact_failed"@ ==> d.composer_feedback == c.composer_feedback
            &&& error.code@ == "ask_rejected"@ || error.code@ == "interaction_not_found"@ ==> {
                &&& d.interactions.contains_key(seed)
                &&& d.interactions[seed].active is None
                &&& c.interactions.contains_key(seed) ==> d.interactions[seed].pending
                    == c.interactions[seed].pending
            }
            &&& error.code@ != "compact_failed"@ && error.code@ != "ask_rejected"@ && error.code@
                != "interaction_not_found"@ ==> d == c
            &&& effects_of_one(c, seed, e, now).len() == 0
        }),
{
    one_control(c, seed, e, now);
    reveal_strlit("compact_failed");
    reveal_strlit("ask_rejected");
    reveal_strlit("interaction_not_found");
    assert("compact_failed"@[0] == 'c');
    assert("ask_rejected"@[0] == 'a');
    assert("interaction_not_found"@[0] == 'i');
}

/// What a status event says of the end of a subagent.
pub open spec fn reported_end(tag: Seq<char>) -> Option<SubagentState> {
    if tag == "COMPLETED"@ {
        Some(SubagentState::Done)
    } else if tag == "ERROR"@ {
        Some(SubagentState::Error)
    } else if tag == "TIMEOUT"@ {
        Some(SubagentState::Timeout)
    } else if tag == "CANCELLED"@ {
        Some(SubagentState::Cancelled)
    } else {
        None
    }
}

/// A reported end is noted of every subagent of that name that works or counts as
/// lost, with the time, and of no other; a report that names no end of nothing.
pub proof fn reported_ends_are_noted(
    c: CoreView,
    seed: Seq<char>,
    name: String,
    tag: String,
    now: u64,
    i: int,
)
    requires
        0 <= i < tool_laws::known(c, seed),
    ensures
        ({
            let d = after_one(c, seed, ControlEvent::SubagentStatus { name, tag }, now);
            let before = c.subagents[seed][i];
            let after = d.subagents[seed][i];
            let open = before.name == name@ && (before.state == SubagentState::Working
                || before.state == SubagentState::Lost);
            &&& d.subagents[seed].len() == c.subagents[seed].len()
            &&& match reported_end(tag@) {
                Some(state) => if open {
                    after == (SubagentView { state, finished_at: now, ..before })
                } else {
                    after == before
                },
                None => after == before,
            }
        }),
{
    one_control(c, seed, ControlEvent::SubagentStatus { name, tag }, now);
    reveal_strlit("COMPLETED");
    reveal_strlit("ERROR");
    reveal_strlit("TIMEOUT");
    reveal_strlit("CANCELLED");
}

/// A form or review that is asked for is open in the queue of its session, with
/// what it asks, in place of the one before it. It is closed by an event that
/// names it, and by no other. The permission requests stay.
pub proof fn forms_and_reviews_open_and_close(
    c: CoreView,
    seed: Seq<char>,
    e: ControlEvent,
    now: u64,
)
    ensures
        ({
            let d = after_one(c, seed, e, now);
            let m = d.interactions[seed];
            let active = if c.interactions.contains_key(seed) {
                c.interactions[seed].active
            } else {
                None
            };
            &&& e is InteractionRequested || e is InteractionResolved || e is PlanReviewRequested
                || e is PlanReviewResolved ==> {
                &&& d.interactions.contains_key(seed)
                &&& c.interactions.contains_key(seed) ==> m.pending == c.interactions[seed].pending
                &&& !c.interactions.contains_key(seed) ==> m.pending.len() == 0
            }
            &&& e matches ControlEvent::InteractionRequested { interaction_id, questions }
                ==> m.active == Some(
                ActiveView::Ask { id: interaction_id@, questions: model::views(questions@) },
            )
            &&& e matches ControlEvent::PlanReviewRequested {
                interaction_id,
                plan_content,
                review_type,
                todo_items,
            } ==> m.active == Some(
                ActiveView::Plan {
                    id: interaction_id@,
                    plan_content: plan_content@,
                    review_type: review_type@,
                    todo_items: match todo_items {
                        Some(items) => model::views(items@),
                        None => Seq::empty(),
                    },
                },
            )
            &&& e matches ControlEvent::InteractionResolved { interaction_id } ==> {
                let named = active matches Some(ActiveView::Ask { id, .. }) && id
                    == interaction_id@;
                &&& named ==> m.active is None
                &&& !named ==> m.active == active
            }
            &&& e matches ControlEvent::PlanReviewResolved { interaction_id } ==> {
                let named = active matches Some(ActiveView::Plan { id, .. }) && id
                    == interaction_id@;
                &&& named ==> m.active is None
                &&& !named ==> m.active == active
            }
            &&& !(e is InteractionRequested || e is InteractionResolved || e is PlanReviewRequested
                || e is PlanReviewResolved || e is OperationFailed) ==> d.interactions
                == c.interactions && d.interaction == c.interaction
        }),
{
    one_control(c, seed, e, now);
}

/// What the daemon asks the user is shown if it is the active session's: with
/// nothing waiting, a form as a form and a review as a review, and a permission
/// request before either.
pub proof fn questions_reach_the_user(c: CoreView, seed: Seq<char>, e: ControlEvent, now: u64)
    requires
        seed == c.active_seed,
        c.interactions.contains_key(seed) ==> c.interactions[seed].pending.len() == 0,
    ensures
        ({
            let d = after_one(c, seed, e, now);
            &&& e matches ControlEvent::InteractionRequested { interaction_id, questions } ==> {
                &&& d.interaction.kind == "ask"@
                &&& d.interaction.id == interaction_id@
                &&& d.interaction.seed == seed
                &&& d.interaction.questions == model::views(questions@)
            }
            &&& e matches ControlEvent::PlanReviewRequested {
                interaction_id,
                plan_content,
                review_type,
                ..
            } ==> {
                &&& d.interaction.kind == "plan"@
                &&& d.interaction.id == interaction_id@
                &&& d.interaction.seed == seed
                &&& d.interaction.plan_content == plan_content@
                &&& d.interaction.review_type == review_type@
            }
        }),
{
    one_control(c, seed, e, now);
}

/// No control event changes whether a turn runs: only a conversation says that.
pub proof fn control_leaves_the_turn_alone(
    c: CoreView,
    seed: Seq<char>,
    e: ControlEvent,
    now: u64,
)
    ensures
        ({
            let d = after_one(c, seed, e, now);
            &&& d.composer_activity == c.composer_activity
            &&& d.header == c.header
            &&& d.info == c.info
            &&& d.last_turn_ids == c.last_turn_ids
            &&& d.header_turns == c.header_turns
            &&& d.compact_statuses == c.compact_statuses
            &&& d.active_seed == c.active_seed
            &&& !(e is SubagentStatus) ==> d.subagents == c.subagents
            &&& !(e is SessionActivityChanged) ==> d.sessions == c.sessions && d.activities
                == c.activities && d.session_rev == c.session_rev
        }),
{
    one_control(c, seed, e, now);
}

/// The events of a batch take effect in their order: the last one takes effect on
/// what those before it left.
pub proof fn control_events_take_effect_in_order(
    c: CoreView,
    seed: Seq<char>,
    evs: Seq<RingingEvent>,
    e: ControlEvent,
    now: u64,
)
    ensures
        ({
            let before = reducer::after_batch(
                c,
                Channel::Control,
                seed,
                model::views(evs),
                now,
            );
            let after = reducer::after_batch(
                c,
                Channel::Control,
                seed,
                model::views(evs.push(RingingEvent::Control(e))),
                now,
            );
            let one = after_one(before, seed, e, now);
            &&& after.activities == one.activities
            &&& after.sessions == one.sessions
            &&& after.skills == one.skills
            &&& after.dashboards == one.dashboards
            &&& after.composer_feedback == one.composer_feedback
            &&& after.subagents == one.subagents
            &&& after.interactions == one.interactions
            &&& after.interaction == one.interaction
            &&& after.composer_activity == one.composer_activity
            &&& after.header == one.header
        }),
{
    let longer = evs.push(RingingEvent::Control(e));
    let before = reducer::after_batch(c, Channel::Control, seed, model::views(evs), now);
    one_control(before, seed, e, now);
    assert(model::views(longer).drop_last() =~= model::views(evs));
    assert(model::views(longer).last() == RingingEventView::Control(e@));
}

} // verus!
