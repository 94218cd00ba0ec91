//! What the events of a session's tools do, event by event.

use vstd::prelude::*;

use crate::bridge::bridge_core::CoreView;
use crate::bridge::composer::WorkPhaseView;
use crate::bridge::composer_view;
use crate::bridge::events::{
    Channel, PermissionCategory, PermissionRisk, RingingEvent, ToolEvent,
};
use crate::bridge::interaction;
use crate::bridge::reducer;
use crate::bridge::subagent;
use crate::bridge::subagent::{SubagentState, SubagentView};
use crate::json;
use crate::json::JsonView;
use crate::model;
use crate::text;

verus! {

/// The tool call that spawns a subagent, if an event is one of such a call.
pub open spec fn spawning_call(ev: RingingEvent) -> Option<Seq<char>> {
    match ev {
        RingingEvent::Tool(ToolEvent::ToolCallPrepared { tool_call_id, name, .. }) => if name@
            == "spawn_subagent"@ {
            Some(tool_call_id@)
        } else {
            None
        },
        RingingEvent::Tool(ToolEvent::ToolStarted { tool_call_id, name }) => if name@
            == "spawn_subagent"@ {
            Some(tool_call_id@)
        } else {
            None
        },
        _ => None,
    }
}

/// The call that an event names a subagent of, and the name: that in the field
/// `agent_name` of the arguments, as far as they are complete and it is not blank.
pub open spec fn naming_of(ev: RingingEvent) -> Option<(Seq<char>, Seq<char>)> {
    match ev {
        RingingEvent::Tool(
            ToolEvent::ToolCallPrepared { tool_call_id, name, args_so_far },
        ) => if name@ == "spawn_subagent"@ {
            match json::json_text(args_so_far@) {
                Some(args) => match args.field("agent_name"@) {
                    Some(JsonView::Text(agent)) => if text::trimmed(agent).len() > 0 {
                        Some((tool_call_id@, agent))
                    } else {
                        None
                    },
                    _ => None,
                },
                None => None,
            }
        } else {
            None
        },
        _ => None,
    }
}

/// Whether the subagents of `seed` hold one that `call_id` spawned.
pub open spec fn lists(c: CoreView, seed: Seq<char>, call_id: Seq<char>) -> bool {
    c.subagents.contains_key(seed) && exists|i: int|
        0 <= i < c.subagents[seed].len() && (#[trigger] c.subagents[seed][i]).call_id == call_id
}

/// How many subagents of `seed` are known.
pub open spec fn known(c: CoreView, seed: Seq<char>) -> int {
    if c.subagents.contains_key(seed) {
        c.subagents[seed].len() as int
    } else {
        0
    }
}

proof fn tools_step(c: CoreView, seed: Seq<char>, evs: Seq<RingingEvent>, now: u64)
    requires
        evs.len() > 0,
    ensures
        reducer::after_tools(c, seed, model::views(evs), now) == (match evs.last() {
            RingingEvent::Tool(e) => reducer::after_tool(
                reducer::after_tools(c, seed, model::views(evs.drop_last()), now),
                seed,
                e@,
                now,
            ),
            _ => reducer::after_tools(c, seed, model::views(evs.drop_last()), now),
        }),
{
    assert(model::views(evs).drop_last() =~= model::views(evs.drop_last()));
    assert(model::views(evs).last() == evs.last()@);
}

/// A batch of one event comes to that event.
proof fn one_tool(c: CoreView, seed: Seq<char>, e: ToolEvent, now: u64)
    ensures
        reducer::after_batch(
            c,
            Channel::Tool,
            seed,
            model::views(seq![RingingEvent::Tool(e)]),
            now,
        ) == reducer::after_tool(c, seed, e@, now),
{
    let evs = seq![RingingEvent::Tool(e)];
    tools_step(c, seed, evs, now);
    assert(model::views(evs.drop_last()).len() == 0);
}

/// What one event does to the subagents of its session.
proof fn subagents_after_one(c: CoreView, seed: Seq<char>, e: ToolEvent, now: u64)
    ensures
        ({
            let d = reducer::after_tool(c, seed, e@, now);
            let call = spawning_call(RingingEvent::Tool(e));
            &&& known(d, seed) >= known(c, seed)
            &&& forall|i: int|
                #![trigger d.subagents[seed][i]]
                0 <= i < known(c, seed) ==> {
                    &&& d.subagents[seed][i].call_id == c.subagents[seed][i].call_id
                    &&& d.subagents[seed][i].state == c.subagents[seed][i].state
                    &&& d.subagents[seed][i].started_at == c.subagents[seed][i].started_at
                    &&& d.subagents[seed][i].finished_at == c.subagents[seed][i].finished_at
                    &&& c.subagents[seed][i].seed.len() > 0 ==> d.subagents[seed][i].seed
                        == c.subagents[seed][i].seed
                }
            &&& known(d, seed) > known(c, seed) ==> {
                &&& known(d, seed) == known(c, seed) + 1
                &&& call == Some(d.subagents[seed][known(c, seed)].call_id)
                &&& d.subagents[seed][known(c, seed)].state == SubagentState::Working
                &&& d.subagents[seed][known(c, seed)].started_at == now
                &&& d.subagents[seed][known(c, seed)].finished_at == 0
                &&& d.subagents[seed][known(c, seed)].seed.len() == 0
                &&& !lists(c, seed, call.unwrap())
            }
            &&& call matches Some(id) ==> lists(d, seed, id)
            &&& naming_of(RingingEvent::Tool(e)) matches Some((id, agent)) ==> forall|i: int|
                0 <= i < known(d, seed) && (#[trigger] d.subagents[seed][i]).call_id == id
                    ==> d.subagents[seed][i].name == agent
            &&& forall|i: int|
                #![trigger d.subagents[seed][i]]
                0 <= i < known(c, seed) && (naming_of(RingingEvent::Tool(e)) matches Some((id, _))
                    ==> id != c.subagents[seed][i].call_id) ==> d.subagents[seed][i].name
                    == c.subagents[seed][i].name
        }),
{
    let d = reducer::after_tool(c, seed, e@, now);
    let list = reducer::subagents_of(c, seed);
    let call = spawning_call(RingingEvent::Tool(e));
    match e {
        ToolEvent::ToolCallPrepared { tool_call_id, name, args_so_far } => {
            if let Some(args) = json::json_text(args_so_far@) {
                if let Some(JsonView::Text(agent)) = args.field("agent_name"@) {
                    text::blank_is_trimmed_away(agent);
                }
            }
        },
        _ => {},
    }
    if let Some(id) = call {
        let after = d.subagents[seed];
        if subagent::tracks(list, id) {
            let i = choose|i: int| 0 <= i < list.len() && (#[trigger] list[i]).call_id == id;
            assert(after[i].call_id == id);
        } else {
            assert(after[list.len() as int].call_id == id);
        }
    }
}

/// Other sessions' subagents stay.
proof fn other_subagents_stay(c: CoreView, seed: Seq<char>, evs: Seq<RingingEvent>, now: u64)
    ensures
        ({
            let d = reducer::after_tools(c, seed, model::views(evs), now);
            &&& c.subagents.contains_key(seed) ==> d.subagents.contains_key(seed)
            &&& forall|s: Seq<char>|
                s != seed ==> #[trigger] d.subagents[s] == c.subagents[s]
                    && d.subagents.contains_key(s) == c.subagents.contains_key(s)
        }),
    decreases evs.len(),
{
    if evs.len() > 0 {
        tools_step(c, seed, evs, now);
        other_subagents_stay(c, seed, evs.drop_last(), now);
    }
}

/// A subagent is listed from the first event of the call that spawns it on, and
/// nothing but such a call adds one. One that is listed stays, under its call,
/// with the state and the times that it has; a new one works since now.
pub proof fn spawned_subagents_are_listed(
    c: CoreView,
    seed: Seq<char>,
    evs: Seq<RingingEvent>,
    now: u64,
)
    ensures
        ({
            let d = reducer::after_batch(c, Channel::Tool, seed, model::views(evs), now);
            &&& forall|k: int|
                0 <= k < evs.len() ==> (spawning_call(#[trigger] evs[k]) matches Some(id) ==> lists(
                    d,
                    seed,
                    id,
                ))
            &&& known(d, seed) >= known(c, seed)
            &&& forall|i: int|
                #![trigger d.subagents[seed][i]]
                0 <= i < known(c, seed) ==> {
                    &&& d.subagents[seed][i].call_id == c.subagents[seed][i].call_id
                    &&& d.subagents[seed][i].state == c.subagents[seed][i].state
                    &&& d.subagents[seed][i].started_at == c.subagents[seed][i].started_at
                    &&& d.subagents[seed][i].finished_at == c.subagents[seed][i].finished_at
                    &&& c.subagents[seed][i].seed.len() > 0 ==> d.subagents[seed][i].seed
                        == c.subagents[seed][i].seed
                }
            &&& forall|i: int|
                #![trigger d.subagents[seed][i]]
                known(c, seed) <= i < known(d, seed) ==> {
                    &&& d.subagents[seed][i].state == SubagentState::Working
                    &&& d.subagents[seed][i].started_at == now
                    &&& d.subagents[seed][i].finished_at == 0
                    &&& !lists(c, seed, d.subagents[seed][i].call_id)
                    &&& exists|k: int|
                        0 <= k < evs.len() && spawning_call(#[trigger] evs[k]) == Some(
                            d.subagents[seed][i].call_id,
                        )
                }
        }),
    decreases evs.len(),
{
    let d = reducer::after_batch(c, Channel::Tool, seed, model::views(evs), now);
    if evs.len() > 0 {
        tools_step(c, seed, evs, now);
        let front = evs.drop_last();
        let last = evs.len() - 1;
        spawned_subagents_are_listed(c, seed, front, now);
        let m = reducer::after_tools(c, seed, model::views(front), now);
        if let RingingEvent::Tool(e) = evs.last() {
            subagents_after_one(m, seed, e, now);
        }
        assert forall|k: int| 0 <= k < evs.len() implies (spawning_call(#[trigger] evs[k]) matches
            Some(id) ==> lists(d, seed, id)) by {
            if k < last {
                assert(front[k] == evs[k]);
                if let Some(id) = spawning_call(evs[k]) {
                    assert(lists(m, seed, id));
                    let i = choose|i: int|
                        0 <= i < m.subagents[seed].len() && (
                        #[trigger] m.subagents[seed][i]).call_id == id;
                    assert(d.subagents[seed][i].call_id == id);
                }
            }
        }
        assert forall|i: int| #![trigger d.subagents[seed][i]]
            0 <= i < known(c, seed) implies {
            &&& d.subagents[seed][i].call_id == c.subagents[seed][i].call_id
            &&& d.subagents[seed][i].state == c.subagents[seed][i].state
            &&& d.subagents[seed][i].started_at == c.subagents[seed][i].started_at
            &&& d.subagents[seed][i].finished_at == c.subagents[seed][i].finished_at
            &&& c.subagents[seed][i].seed.len() > 0 ==> d.subagents[seed][i].seed
                == c.subagents[seed][i].seed
        } by {
            let mid = m.subagents[seed][i];
        }
        assert forall|i: int| #![trigger d.subagents[seed][i]]
            known(c, seed) <= i < known(d, seed) implies {
            &&& d.subagents[seed][i].state == SubagentState::Working
            &&& d.subagents[seed][i].started_at == now
            &&& d.subagents[seed][i].finished_at == 0
            &&& !lists(c, seed, d.subagents[seed][i].call_id)
            &&& exists|k: int|
                0 <= k < evs.len() && spawning_call(#[trigger] evs[k]) == Some(
                    d.subagents[seed][i].call_id,
                )
        } by {
            if i < known(m, seed) {
                let mid = m.subagents[seed][i];
                let k = choose|k: int|
                    0 <= k < front.len() && spawning_call(#[trigger] front[k]) == Some(mid.call_id);
                assert(spawning_call(evs[k]) == Some(d.subagents[seed][i].call_id));
            } else {
                let id = d.subagents[seed][i].call_id;
                assert(spawning_call(evs[last]) == Some(id));
                if lists(c, seed, id) {
                    let j = choose|j: int|
                        0 <= j < c.subagents[seed].len() && (
                        #[trigger] c.subagents[seed][j]).call_id == id;
                    assert(m.subagents[seed][j].call_id == id);
                }
            }
        }
    }
}

/// A subagent goes by the name that the last event of its call gave it, and keeps
/// it through all other events.
pub proof fn subagents_go_by_the_name_given(
    c: CoreView,
    seed: Seq<char>,
    evs: Seq<RingingEvent>,
    k: int,
    now: u64,
    i: int,
)
    requires
        0 <= k < evs.len(),
        naming_of(evs[k]) is Some,
        forall|j: int|
            k < j < evs.len() ==> (naming_of(#[trigger] evs[j]) matches Some((id, _)) ==> id
                != naming_of(evs[k]).unwrap().0),
        ({
            let d = reducer::after_batch(c, Channel::Tool, seed, model::views(evs), now);
            0 <= i < known(d, seed) && d.subagents[seed][i].call_id == naming_of(evs[k]).unwrap().0
        }),
    ensures
        reducer::after_batch(
            c,
            Channel::Tool,
            seed,
            model::views(evs),
            now,
        ).subagents[seed][i].name == naming_of(evs[k]).unwrap().1,
    decreases evs.len(),
{
    tools_step(c, seed, evs, now);
    let front = evs.drop_last();
    let last = evs.len() - 1;
    let m = reducer::after_tools(c, seed, model::views(front), now);
    let d = reducer::after_batch(c, Channel::Tool, seed, model::views(evs), now);
    let id = naming_of(evs[k]).unwrap().0;
    if let RingingEvent::Tool(e) = evs.last() {
        subagents_after_one(m, seed, e, now);
    }
    if k < last {
        assert(front[k] == evs[k]);
        assert forall|j: int| k < j < front.len() implies (naming_of(#[trigger] front[j]) matches
            Some((other, _)) ==> other != id) by {
            assert(front[j] == evs[j]);
        }
        spawned_subagents_are_listed(c, seed, front, now);
        let list = spawning_call(front[k]);
        assert(lists(m, seed, id));
        if i >= known(m, seed) {
            assert(!lists(m, seed, id));
        }
        let mid = m.subagents[seed][i];
        subagents_go_by_the_name_given(c, seed, front, k, now, i);
        assert(naming_of(evs[last]) matches Some((other, _)) ==> other != id);
    }
}

/// A subagent that gave itself no name yet goes by the beginning of its call.
pub proof fn nameless_subagents_go_by_their_call(
    c: CoreView,
    seed: Seq<char>,
    e: ToolEvent,
    now: u64,
)
    requires
        spawning_call(RingingEvent::Tool(e)) is Some,
        naming_of(RingingEvent::Tool(e)) is None,
        !lists(c, seed, spawning_call(RingingEvent::Tool(e)).unwrap()),
    ensures
        ({
            let d = reducer::after_batch(
                c,
                Channel::Tool,
                seed,
                model::views(seq![RingingEvent::Tool(e)]),
                now,
            );
            let id = spawning_call(RingingEvent::Tool(e)).unwrap();
            let name = d.subagents[seed][known(c, seed)].name;
            &&& known(d, seed) == known(c, seed) + 1
            &&& id.len() <= 6 ==> name == "sub-"@ + id
            &&& id.len() > 6 ==> name == "sub-"@ + id.take(6)
        }),
{
    one_tool(c, seed, e, now);
    subagents_after_one(c, seed, e, now);
    let id = spawning_call(RingingEvent::Tool(e)).unwrap();
    let list = reducer::subagents_of(c, seed);
    if subagent::tracks(list, id) {
        let i = choose|i: int| 0 <= i < list.len() && (#[trigger] list[i]).call_id == id;
        assert(c.subagents[seed][i].call_id == id);
    }
    if id.len() <= 6 {
        assert(id.take(id.len() as int) =~= id);
    }
    match e {
        ToolEvent::ToolCallPrepared { tool_call_id, name, args_so_far } => {
            if let Some(args) = json::json_text(args_so_far@) {
                if let Some(JsonView::Text(agent)) = args.field("agent_name"@) {
                    text::blank_is_trimmed_away(agent);
                }
            }
        },
        _ => {},
    }
}

/// The end of a call whose result names the session of a process makes that the
/// session of the subagent, if none was known. It does so to no other subagent,
/// and any other result to none.
pub proof fn results_give_subagents_their_session(
    c: CoreView,
    seed: Seq<char>,
    tool_call_id: String,
    model_text: String,
    now: u64,
    i: int,
)
    requires
        0 <= i < known(c, seed),
    ensures
        ({
            let e = ToolEvent::ToolFinished { tool_call_id, model_text };
            let d = reducer::after_batch(
                c,
                Channel::Tool,
                seed,
                model::views(seq![RingingEvent::Tool(e)]),
                now,
            );
            let before = c.subagents[seed][i];
            let after = d.subagents[seed][i];
            let result = json::json_text(model_text@);
            let has_process = result matches Some(value) && (value.field("process_id"@) matches Some(
                JsonView::Number(_),
            ));
            &&& before.call_id == tool_call_id@ && before.seed.len() == 0 && has_process ==> (
            result.unwrap().field("seed"@) matches Some(JsonView::Text(own)) ==> after.seed == own)
            &&& before.call_id != tool_call_id@ || before.seed.len() > 0 || !has_process || !(
            result.unwrap().field("seed"@) matches Some(JsonView::Text(_))) ==> after.seed
                == before.seed
            &&& after == (SubagentView { seed: after.seed, ..before })
            &&& known(d, seed) == known(c, seed)
        }),
{
    let e = ToolEvent::ToolFinished { tool_call_id, model_text };
    one_tool(c, seed, e, now);
    let d = reducer::after_tool(c, seed, e@, now);
    if let Some(value) = json::json_text(model_text@) {
        if let Some(JsonView::Text(own)) = value.field("seed"@) {
            if own.len() == 0 && c.subagents[seed][i].seed.len() == 0 {
                assert(own =~= c.subagents[seed][i].seed);
            }
        }
    }
}

/// Whether an event says in which phase the work of a session is.
pub open spec fn sets_phase(ev: RingingEvent) -> bool {
    ev matches RingingEvent::Tool(e) && (e is ToolPermissionRequested || e is ToolStarted
        || e is ToolFinished)
}

/// While a tool waits for permission the work waits for the user, while it runs
/// it is at the tool, and after its end the model thinks on. The last such event
/// decides; other tool events change nothing. No tool event starts or ends a turn.
pub proof fn tools_decide_the_phase(
    c: CoreView,
    seed: Seq<char>,
    evs: Seq<RingingEvent>,
    k: int,
    now: u64,
)
    requires
        0 <= k < evs.len(),
        sets_phase(evs[k]),
        forall|j: int| k < j < evs.len() ==> !sets_phase(#[trigger] evs[j]),
    ensures
        ({
            let d = reducer::after_batch(c, Channel::Tool, seed, model::views(evs), now);
            let a = d.composer_activity[seed];
            &&& d.composer_activity.contains_key(seed)
            &&& a.last_activity_at == now
            &&& evs[k] matches RingingEvent::Tool(ToolEvent::ToolPermissionRequested { .. })
                ==> a.phase is WaitingUser
            &&& evs[k] matches RingingEvent::Tool(ToolEvent::ToolStarted { name, .. }) ==> a.phase
                == WorkPhaseView::Tool(name@)
            &&& evs[k] matches RingingEvent::Tool(ToolEvent::ToolFinished { .. })
                ==> a.phase is Thinking
        }),
    decreases evs.len(),
{
    tools_step(c, seed, evs, now);
    let last = evs.len() - 1;
    if k < last {
        let front = evs.drop_last();
        assert(front[k] == evs[k]);
        assert forall|j: int| k < j < front.len() implies !sets_phase(#[trigger] front[j]) by {
            assert(front[j] == evs[j]);
        }
        tools_decide_the_phase(c, seed, front, k, now);
        assert(!sets_phase(evs[last]));
    }
}

/// No tool event starts or ends a turn, or changes what is known of its tokens,
/// its model, the title bar or the compacting.
pub proof fn tools_leave_the_turn_alone(
    c: CoreView,
    seed: Seq<char>,
    evs: Seq<RingingEvent>,
    now: u64,
)
    ensures
        ({
            let d = reducer::after_batch(c, Channel::Tool, seed, model::views(evs), now);
            let a = d.composer_activity[seed];
            let b = c.composer_activity[seed];
            &&& c.composer_activity.contains_key(seed) ==> {
                &&& d.composer_activity.contains_key(seed)
                &&& a.active_turn == b.active_turn
                &&& a.prompt_tokens == b.prompt_tokens
                &&& a.context_limit == b.context_limit
                &&& a.model == b.model
            }
            &&& !c.composer_activity.contains_key(seed) && d.composer_activity.contains_key(seed)
                ==> !a.active_turn
            &&& d.header == c.header
            &&& d.info == c.info
            &&& d.compact_statuses == c.compact_statuses
            &&& d.last_turn_ids == c.last_turn_ids
            &&& d.header_turns == c.header_turns
            &&& d.composer_feedback == c.composer_feedback
            &&& d.activities == c.activities
            &&& d.sessions == c.sessions
            &&& (forall|j: int| 0 <= j < evs.len() ==> !sets_phase(#[trigger] evs[j]))
                ==> d.composer_activity == c.composer_activity
        }),
    decreases evs.len(),
{
    if evs.len() > 0 {
        tools_step(c, seed, evs, now);
        let front = evs.drop_last();
        tools_leave_the_turn_alone(c, seed, front, now);
        if forall|j: int| 0 <= j < evs.len() ==> !sets_phase(#[trigger] evs[j]) {
            assert forall|j: int| 0 <= j < front.len() implies !sets_phase(#[trigger] front[j]) by {
                assert(front[j] == evs[j]);
            }
            assert(!sets_phase(evs[evs.len() - 1]));
        }
    }
}

/// A tool that asks for permission is the last in the queue of its session, with
/// what it would do in words. The requests of other calls stay, and are shown
/// before it.
pub proof fn permission_requests_are_queued(
    c: CoreView,
    seed: Seq<char>,
    e: ToolEvent,
    now: u64,
)
    requires
        e is ToolPermissionRequested,
    ensures
        ({
            let d = reducer::after_batch(
                c,
                Channel::Tool,
                seed,
                model::views(seq![RingingEvent::Tool(e)]),
                now,
            );
            let m = d.interactions[seed];
            &&& d.interactions.contains_key(seed)
            &&& m.pending.len() > 0
            &&& e matches ToolEvent::ToolPermissionRequested {
                tool_call_id,
                tool_name,
                reason,
                paths,
                category,
                level,
                risk,
                consequence,
            } && {
                let p = m.pending.last();
                &&& p.tool_call_id == tool_call_id@
                &&& p.tool_name == tool_name@
                &&& p.reason == reason@
                &&& p.paths == model::views(paths@)
                &&& p.level == level
                &&& p.consequence == consequence@
                &&& p.category == (match category {
                    PermissionCategory::Read => "read"@,
                    PermissionCategory::Write => "write"@,
                    PermissionCategory::Exec => "exec"@,
                    PermissionCategory::Net => "net"@,
                })
                &&& p.risk == (match risk {
                    PermissionRisk::Low => "low"@,
                    PermissionRisk::Medium => "medium"@,
                    PermissionRisk::High => "high"@,
                })
                &&& c.interactions.contains_key(seed) ==> forall|q: interaction::PermissionView|
                    q.tool_call_id != tool_call_id@ ==> (#[trigger] m.pending.contains(q)
                        <==> c.interactions[seed].pending.contains(q))
                &&& c.interactions.contains_key(seed) ==> m.active == c.interactions[seed].active
                &&& !c.interactions.contains_key(seed) ==> m.pending.len() == 1 && m.active is None
            }
        }),
{
    one_tool(c, seed, e, now);
    let before = reducer::machine_of(c, seed);
    if let ToolEvent::ToolPermissionRequested { tool_call_id, .. } = e {
        interaction::requests_of_other_calls_stay(before.pending, tool_call_id@);
        let d = reducer::after_tool(c, seed, e@, now);
        let kept = interaction::without_call(before.pending, tool_call_id@);
        let m = d.interactions[seed];
        assert(m.pending =~= kept.push(m.pending.last()));
        assert forall|q: interaction::PermissionView|
            q.tool_call_id != tool_call_id@ implies (#[trigger] m.pending.contains(q)
            <==> before.pending.contains(q)) by {
            if kept.contains(q) {
                let i = choose|i: int| 0 <= i < kept.len() && kept[i] == q;
                assert(m.pending[i] == q);
            }
            if m.pending.contains(q) {
                let i = choose|i: int| 0 <= i < m.pending.len() && m.pending[i] == q;
                assert(kept[i] == q);
            }
        }
    }
}

/// The end of a call takes its requests out of the queue, and no other. Events of
/// a call that is prepared or started leave the queue alone.
pub proof fn ended_calls_ask_for_nothing(c: CoreView, seed: Seq<char>, e: ToolEvent, now: u64)
    ensures
        ({
            let d = reducer::after_batch(
                c,
                Channel::Tool,
                seed,
                model::views(seq![RingingEvent::Tool(e)]),
                now,
            );
            let m = d.interactions[seed];
            &&& e matches ToolEvent::ToolFinished { tool_call_id, .. } ==> {
                &&& forall|q: interaction::PermissionView|
                    q.tool_call_id == tool_call_id@ ==> !#[trigger] m.pending.contains(q)
                &&& c.interactions.contains_key(seed) ==> forall|q: interaction::PermissionView|
                    q.tool_call_id != tool_call_id@ ==> (#[trigger] m.pending.contains(q)
                        <==> c.interactions[seed].pending.contains(q))
                &&& c.interactions.contains_key(seed) ==> m.active == c.interactions[seed].active
            }
            &&& e is ToolCallPrepared || e is ToolStarted || e is Other ==> d.interactions
                == c.interactions && d.interaction == c.interaction
        }),
{
    one_tool(c, seed, e, now);
    let before = reducer::machine_of(c, seed);
    if let ToolEvent::ToolFinished { tool_call_id, .. } = e {
        interaction::requests_of_other_calls_stay(before.pending, tool_call_id@);
    }
}

/// The composer shows the subagents of the active session, each of them once, in
/// the order in which they started, and says so exactly if there are any.
pub proof fn composer_shows_the_subagents(c: CoreView, now: u64)
    ensures
        ({
            let shown = composer_view::composer_of(c, now);
            &&& c.subagents.contains_key(c.active_seed) ==> {
                &&& shown.subagents.to_multiset() == c.subagents[c.active_seed].to_multiset()
                &&& shown.subagents.len() == c.subagents[c.active_seed].len()
            }
            &&& !c.subagents.contains_key(c.active_seed) ==> shown.subagents.len() == 0
            &&& forall|i: int, j: int|
                0 <= i < j < shown.subagents.len() ==> (#[trigger] shown.subagents[i]).started_at
                    <= (#[trigger] shown.subagents[j]).started_at
            &&& shown.status_zone == (if known(c, c.active_seed) > 0 {
                "agent"@
            } else {
                "idle"@
            })
        }),
{
    subagent::by_start_orders(reducer::subagents_of(c, c.active_seed));
}

} // verus!
