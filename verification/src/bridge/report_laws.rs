//! What a conversation says of subagents, and what it leaves alone.

use vstd::prelude::*;

use crate::bridge::bridge_core::CoreView;
use crate::bridge::events::{Channel, ConversationEvent, RingingEvent};
use crate::bridge::reducer;
use crate::bridge::subagent;
use crate::bridge::subagent::{SubagentState, SubagentView};
use crate::model;

verus! {

/// Whether an event starts a turn whose text reports this end of the subagents of this
/// name.
pub open spec fn reports(e: RingingEvent, name: Seq<char>, state: SubagentState) -> bool {
    match e {
        RingingEvent::Conversation(ConversationEvent::TurnStarted { user_text, .. }) =>
            subagent::injection_in(user_text@) == Some((name, state)),
        _ => false,
    }
}

/// Whether an event reports the end of any subagent.
pub open spec fn reports_something(e: RingingEvent) -> bool {
    match e {
        RingingEvent::Conversation(ConversationEvent::TurnStarted { user_text, .. }) =>
            subagent::injection_in(user_text@) is Some,
        _ => false,
    }
}

/// Whether the end of a subagent is known.
pub open spec fn is_over(x: SubagentView) -> bool {
    x.state != SubagentState::Working && x.state != SubagentState::Lost
}

/// The subagents that one more event leaves.
proof fn one_more_event(c: CoreView, seed: Seq<char>, evs: Seq<RingingEvent>, now: u64)
    requires
        evs.len() > 0,
        c.subagents.contains_key(seed),
        reducer::tally_of(
            c,
            seed,
            model::views(evs.drop_last()),
            now,
        ).core.subagents.contains_key(seed),
    ensures
        ({
            let before = reducer::tally_of(c, seed, model::views(evs.drop_last()), now).core;
            let after = reducer::tally_of(c, seed, model::views(evs), now).core;
            &&& after.subagents.contains_key(seed)
            &&& !reports_something(evs.last()) ==> after.subagents == before.subagents
            &&& forall|name: Seq<char>, state: SubagentState| #[trigger]
                reports(evs.last(), name, state) ==> after.subagents == before.subagents.insert(
                    seed,
                    subagent::with_end(before.subagents[seed], name, state, now),
                )
        }),
{
    assert(model::views(evs).drop_last() =~= model::views(evs.drop_last()));
    assert(model::views(evs).last() == evs.last()@);
}

/// Subagents keep their place, name and call over a batch, and one whose end is known
/// keeps that too. Without a report nothing of them changes.
proof fn ends_stay_known(
    c: CoreView,
    seed: Seq<char>,
    evs: Seq<RingingEvent>,
    now: u64,
)
    requires
        c.subagents.contains_key(seed),
    ensures
        ({
            let before = c.subagents[seed];
            let core = reducer::tally_of(c, seed, model::views(evs), now).core;
            let after = core.subagents[seed];
            &&& core.subagents.contains_key(seed)
            &&& after.len() == before.len()
            &&& forall|i: int|
                #![trigger after[i]]
                0 <= i < after.len() ==> after[i].name == before[i].name && after[i].call_id
                    == before[i].call_id && after[i].seed == before[i].seed && (is_over(before[i])
                    ==> after[i] == before[i])
            &&& (forall|k: int| 0 <= k < evs.len() ==> !reports_something(#[trigger] evs[k]))
                ==> after == before
        }),
    decreases evs.len(),
{
    if evs.len() > 0 {
        let front = evs.drop_last();
        ends_stay_known(c, seed, front, now);
        one_more_event(c, seed, evs, now);
        assert(evs.last() == evs[evs.len() - 1]);
        if forall|k: int| 0 <= k < evs.len() ==> !reports_something(#[trigger] evs[k]) {
            assert forall|k: int| 0 <= k < front.len() implies !reports_something(
                #[trigger] front[k],
            ) by {
                assert(!reports_something(evs[k]));
            }
        }
        if reports_something(evs.last()) {
            if let RingingEvent::Conversation(ConversationEvent::TurnStarted { user_text, .. }) =
                evs.last() {
                let (name, state) = subagent::injection_in(user_text@).unwrap();
                assert(reports(evs.last(), name, state));
            }
        }
    } else {
        assert(model::views(evs).len() == 0);
    }
}

/// A report in a batch ends the subagents of its name, wherever in the batch it stands.
proof fn reported_are_over(
    c: CoreView,
    seed: Seq<char>,
    evs: Seq<RingingEvent>,
    k: int,
    name: Seq<char>,
    state: SubagentState,
    now: u64,
)
    requires
        c.subagents.contains_key(seed),
        0 <= k < evs.len(),
        reports(evs[k], name, state),
    ensures
        ({
            let before = c.subagents[seed];
            let after = reducer::tally_of(c, seed, model::views(evs), now).core.subagents[seed];
            forall|i: int|
                #![trigger after[i]]
                0 <= i < after.len() && before[i].name == name ==> is_over(after[i])
        }),
    decreases evs.len(),
{
    let front = evs.drop_last();
    ends_stay_known(c, seed, front, now);
    ends_stay_known(c, seed, evs, now);
    one_more_event(c, seed, evs, now);
    let middle = reducer::tally_of(c, seed, model::views(front), now).core.subagents[seed];
    let after = reducer::tally_of(c, seed, model::views(evs), now).core.subagents[seed];
    assert(evs.last() == evs[evs.len() - 1]);
    if let RingingEvent::Conversation(ConversationEvent::TurnStarted { user_text, .. }) = evs[k] {
        subagent::reported_states_are_ends(user_text@);
    }
    if k < front.len() {
        assert(front[k] == evs[k]);
        reported_are_over(c, seed, front, k, name, state, now);
        if reports_something(evs.last()) {
            if let RingingEvent::Conversation(ConversationEvent::TurnStarted { user_text, .. }) =
                evs.last() {
                let (n, s) = subagent::injection_in(user_text@).unwrap();
                assert(reports(evs.last(), n, s));
                assert forall|i: int|
                    #![trigger after[i]]
                    0 <= i < after.len() && c.subagents[seed][i].name == name implies is_over(
                    after[i],
                ) by {
                    assert(is_over(middle[i]));
                    assert(after[i] == subagent::ended(middle[i], n, s, now));
                }
            }
        }
    } else {
        assert forall|i: int|
            #![trigger after[i]]
            0 <= i < after.len() && c.subagents[seed][i].name == name implies is_over(
            after[i],
        ) by {
            assert(middle[i].name == name);
            assert(after[i] == subagent::ended(middle[i], name, state, now));
        }
    }
}

/// A turn that starts with a report of a subagent's end ends every subagent of that
/// name in its session. Each keeps its place, its call and its name, and one whose end
/// was known before keeps that end.
pub proof fn reports_in_a_conversation_end_subagents(
    c: CoreView,
    seed: Seq<char>,
    evs: Seq<RingingEvent>,
    k: int,
    name: Seq<char>,
    state: SubagentState,
    now: u64,
)
    requires
        c.subagents.contains_key(seed),
        0 <= k < evs.len(),
        reports(evs[k], name, state),
    ensures
        ({
            let before = c.subagents[seed];
            let d = reducer::after_batch(
                c,
                Channel::Conversation,
                seed,
                model::views(evs),
                now,
            );
            let after = d.subagents[seed];
            &&& d.subagents.contains_key(seed)
            &&& after.len() == before.len()
            &&& forall|i: int|
                #![trigger after[i]]
                0 <= i < after.len() ==> after[i].name == before[i].name && after[i].call_id
                    == before[i].call_id && (before[i].name == name ==> is_over(after[i])) && (
                is_over(before[i]) ==> after[i] == before[i])
        }),
{
    ends_stay_known(c, seed, evs, now);
    reported_are_over(c, seed, evs, k, name, state, now);
}

/// A report that is the only event of its batch gives the subagents of its name that
/// end, at that time, and touches no other.
pub proof fn report_gives_its_own_end(
    c: CoreView,
    seed: Seq<char>,
    e: RingingEvent,
    name: Seq<char>,
    state: SubagentState,
    now: u64,
    i: int,
)
    requires
        c.subagents.contains_key(seed),
        0 <= i < c.subagents[seed].len(),
        reports(e, name, state),
    ensures
        ({
            let before = c.subagents[seed][i];
            let d = reducer::after_batch(
                c,
                Channel::Conversation,
                seed,
                model::views(seq![e]),
                now,
            );
            let after = d.subagents[seed][i];
            &&& before.name == name && !is_over(before) ==> after.state == state
                && after.finished_at == now
            &&& before.name != name || is_over(before) ==> after == before
        }),
{
    let evs = seq![e];
    assert(evs.drop_last() =~= Seq::empty());
    assert(model::views(evs.drop_last()).len() == 0);
    assert(evs.last() == e);
    ends_stay_known(c, seed, evs.drop_last(), now);
    one_more_event(c, seed, evs, now);
}

/// Without a report a conversation leaves the subagents alone.
pub proof fn conversations_without_reports_end_nothing(
    c: CoreView,
    seed: Seq<char>,
    evs: Seq<RingingEvent>,
    now: u64,
)
    requires
        c.subagents.contains_key(seed),
        forall|k: int| 0 <= k < evs.len() ==> !reports_something(#[trigger] evs[k]),
    ensures
        reducer::after_batch(
            c,
            Channel::Conversation,
            seed,
            model::views(evs),
            now,
        ).subagents[seed] == c.subagents[seed],
{
    ends_stay_known(c, seed, evs, now);
}

} // verus!
