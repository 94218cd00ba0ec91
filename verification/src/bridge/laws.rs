//! What holds of the shell's state as a whole.

use vstd::prelude::*;

use crate::bridge::bridge_core;
use crate::bridge::bridge_core::CoreView;
use crate::bridge::events::{
    Channel, ControlEventView, ConversationEventView, RingingEventView, ToolEventView,
};
use crate::bridge::interaction;
use crate::bridge::interaction::{InteractionEventView, ToolPermissionEventView};
use crate::bridge::reducer;

verus! {

/// The interaction on show is that of the active session.
pub open spec fn interaction_current(c: CoreView) -> bool {
    c.interaction == bridge_core::interaction_shown(c)
}

/// Two states differ in nothing that belongs to the session `seed`, nor in which
/// session is active.
pub open spec fn same_session(a: CoreView, b: CoreView, seed: Seq<char>) -> bool {
    &&& a.active_seed == b.active_seed
    &&& a.interactions.contains_key(seed) == b.interactions.contains_key(seed)
    &&& a.interactions[seed] == b.interactions[seed]
    &&& a.composer_activity.contains_key(seed) == b.composer_activity.contains_key(seed)
    &&& a.composer_activity[seed] == b.composer_activity[seed]
    &&& a.composer_feedback.contains_key(seed) == b.composer_feedback.contains_key(seed)
    &&& a.composer_feedback[seed] == b.composer_feedback[seed]
    &&& a.subagents.contains_key(seed) == b.subagents.contains_key(seed)
    &&& a.subagents[seed] == b.subagents[seed]
    &&& a.header_turns.contains_key(seed) == b.header_turns.contains_key(seed)
    &&& a.header_turns[seed] == b.header_turns[seed]
    &&& a.last_turn_ids.contains_key(seed) == b.last_turn_ids.contains_key(seed)
    &&& a.last_turn_ids[seed] == b.last_turn_ids[seed]
    &&& a.compact_statuses.contains_key(seed) == b.compact_statuses.contains_key(seed)
    &&& a.compact_statuses[seed] == b.compact_statuses[seed]
}

/// Bringing the interaction up to date makes it current, and doing so again
/// changes nothing.
pub proof fn refresh_makes_current(c: CoreView)
    ensures
        interaction_current(bridge_core::with_interaction(c)),
        bridge_core::with_interaction(bridge_core::with_interaction(c))
            == bridge_core::with_interaction(c),
{
}

/// Making a session active shows its interaction, whatever was shown before.
pub proof fn activating_makes_current(c: CoreView, seed: Seq<char>, now: u64)
    ensures
        interaction_current(bridge_core::activated(c, seed, now)),
        bridge_core::activated(c, seed, now).active_seed == seed,
        bridge_core::activated(c, seed, now).interactions == c.interactions,
{
}

/// Going to another session and back shows the interaction that was on show
/// before.
pub proof fn switching_back_restores_interaction(
    c: CoreView,
    other: Seq<char>,
    now: u64,
    later: u64,
)
    requires
        interaction_current(c),
    ensures
        bridge_core::activated(
            bridge_core::activated(c, other, now),
            c.active_seed,
            later,
        ).interaction == c.interaction,
{
}

/// A control event that comes a second time changes neither a queue nor what is
/// shown, so the version stays too.
pub proof fn replayed_interaction_changes_nothing(
    c: CoreView,
    seed: Seq<char>,
    ev: InteractionEventView,
)
    ensures
        reducer::after_interaction(reducer::after_interaction(c, seed, ev), seed, ev)
            == reducer::after_interaction(c, seed, ev),
{
    let once = reducer::after_interaction(c, seed, ev);
    interaction::replayed_event_changes_nothing(reducer::machine_of(c, seed), ev);
    assert(once.interactions.insert(seed, once.interactions[seed]) =~= once.interactions);
}

/// A tool event that comes a second time changes neither a queue nor what is
/// shown.
pub proof fn replayed_permission_changes_nothing(
    c: CoreView,
    seed: Seq<char>,
    ev: ToolPermissionEventView,
)
    ensures
        reducer::after_permission(reducer::after_permission(c, seed, ev), seed, ev)
            == reducer::after_permission(c, seed, ev),
{
    let once = reducer::after_permission(c, seed, ev);
    interaction::replayed_tool_event_changes_nothing(reducer::machine_of(c, seed), ev);
    assert(once.interactions.insert(seed, once.interactions[seed]) =~= once.interactions);
}

/// One control event keeps the interaction current and touches no other session
/// than its own.
proof fn control_event_is_local(
    c: CoreView,
    seed: Seq<char>,
    ev: ControlEventView,
    now: u64,
    other: Seq<char>,
)
    ensures
        interaction_current(c) ==> interaction_current(reducer::after_control(c, seed, ev, now)),
        other != seed ==> same_session(c, reducer::after_control(c, seed, ev, now), other),
        reducer::after_control(c, seed, ev, now).active_seed == c.active_seed,
{
}

/// One tool event keeps the interaction current and touches no other session
/// than its own.
proof fn tool_event_is_local(
    c: CoreView,
    seed: Seq<char>,
    ev: ToolEventView,
    now: u64,
    other: Seq<char>,
)
    ensures
        interaction_current(c) ==> interaction_current(reducer::after_tool(c, seed, ev, now)),
        other != seed ==> same_session(c, reducer::after_tool(c, seed, ev, now), other),
        reducer::after_tool(c, seed, ev, now).active_seed == c.active_seed,
{
}

/// One conversation event keeps the interaction current and touches no other
/// session than its own.
proof fn conversation_event_is_local(
    t: reducer::ConversationTally,
    seed: Seq<char>,
    ev: ConversationEventView,
    now: u64,
    other: Seq<char>,
)
    ensures
        interaction_current(t.core) ==> interaction_current(
            reducer::after_conversation(t, seed, ev, now).core,
        ),
        other != seed ==> same_session(
            t.core,
            reducer::after_conversation(t, seed, ev, now).core,
            other,
        ),
        reducer::after_conversation(t, seed, ev, now).core.active_seed == t.core.active_seed,
{
}

proof fn control_events_are_local(
    c: CoreView,
    seed: Seq<char>,
    evs: Seq<RingingEventView>,
    now: u64,
    other: Seq<char>,
)
    ensures
        interaction_current(c) ==> interaction_current(reducer::after_controls(c, seed, evs, now)),
        other != seed ==> same_session(c, reducer::after_controls(c, seed, evs, now), other),
        reducer::after_controls(c, seed, evs, now).active_seed == c.active_seed,
    decreases evs.len(),
{
    if evs.len() > 0 {
        control_events_are_local(c, seed, evs.drop_last(), now, other);
        let before = reducer::after_controls(c, seed, evs.drop_last(), now);
        if let RingingEventView::Control(ev) = evs.last() {
            control_event_is_local(before, seed, ev, now, other);
        }
    }
}

proof fn tool_events_are_local(
    c: CoreView,
    seed: Seq<char>,
    evs: Seq<RingingEventView>,
    now: u64,
    other: Seq<char>,
)
    ensures
        interaction_current(c) ==> interaction_current(reducer::after_tools(c, seed, evs, now)),
        other != seed ==> same_session(c, reducer::after_tools(c, seed, evs, now), other),
        reducer::after_tools(c, seed, evs, now).active_seed == c.active_seed,
    decreases evs.len(),
{
    if evs.len() > 0 {
        tool_events_are_local(c, seed, evs.drop_last(), now, other);
        let before = reducer::after_tools(c, seed, evs.drop_last(), now);
        if let RingingEventView::Tool(ev) = evs.last() {
            tool_event_is_local(before, seed, ev, now, other);
        }
    }
}

proof fn conversation_events_are_local(
    c: CoreView,
    seed: Seq<char>,
    evs: Seq<RingingEventView>,
    now: u64,
    other: Seq<char>,
)
    ensures
        interaction_current(c) ==> interaction_current(
            reducer::tally_of(c, seed, evs, now).core,
        ),
        other != seed ==> same_session(c, reducer::tally_of(c, seed, evs, now).core, other),
        reducer::tally_of(c, seed, evs, now).core.active_seed == c.active_seed,
    decreases evs.len(),
{
    if evs.len() > 0 {
        conversation_events_are_local(c, seed, evs.drop_last(), now, other);
        let before = reducer::tally_of(c, seed, evs.drop_last(), now);
        if let RingingEventView::Conversation(ev) = evs.last() {
            conversation_event_is_local(before, seed, ev, now, other);
        }
    }
}

/// Whatever a batch brings, the interaction on show stays that of the active
/// session, and the active session stays active.
pub proof fn batch_keeps_interaction_current(
    c: CoreView,
    channel: Channel,
    seed: Seq<char>,
    evs: Seq<RingingEventView>,
    now: u64,
)
    requires
        interaction_current(c),
    ensures
        interaction_current(reducer::after_batch(c, channel, seed, evs, now)),
        reducer::after_batch(c, channel, seed, evs, now).active_seed == c.active_seed,
{
    control_events_are_local(c, seed, evs, now, seed);
    tool_events_are_local(c, seed, evs, now, seed);
    conversation_events_are_local(c, seed, evs, now, seed);
}

/// A batch of one session leaves every other session's queue, activity,
/// feedback, subagents and turns as they were.
pub proof fn batch_touches_one_session(
    c: CoreView,
    channel: Channel,
    seed: Seq<char>,
    evs: Seq<RingingEventView>,
    now: u64,
    other: Seq<char>,
)
    requires
        other != seed,
    ensures
        same_session(c, reducer::after_batch(c, channel, seed, evs, now), other),
{
    control_events_are_local(c, seed, evs, now, other);
    tool_events_are_local(c, seed, evs, now, other);
    conversation_events_are_local(c, seed, evs, now, other);
}

/// A batch of a session in the background changes nothing of the interaction on
/// show.
pub proof fn background_batch_keeps_interaction(
    c: CoreView,
    channel: Channel,
    seed: Seq<char>,
    evs: Seq<RingingEventView>,
    now: u64,
)
    requires
        interaction_current(c),
        seed != c.active_seed,
    ensures
        reducer::after_batch(c, channel, seed, evs, now).interaction == c.interaction,
{
    batch_keeps_interaction_current(c, channel, seed, evs, now);
    batch_touches_one_session(c, channel, seed, evs, now, c.active_seed);
}

/// Whether two states agree in what no event of a session concerns: the view, the
/// workspaces, the modes, the settings, the timelines and the connection.
pub open spec fn same_surroundings(c: CoreView, d: CoreView) -> bool {
    &&& d.active_seed == c.active_seed
    &&& d.current_view == c.current_view
    &&& d.workspaces == c.workspaces
    &&& d.current_workspace == c.current_workspace
    &&& d.composer_mode == c.composer_mode
    &&& d.composer_tool_mode == c.composer_tool_mode
    &&& d.settings == c.settings
    &&& d.settings_proj == c.settings_proj
    &&& d.save_status == c.save_status
    &&& d.notif_enabled == c.notif_enabled
    &&& d.attached == c.attached
    &&& d.timeline == c.timeline
    &&& d.remote == c.remote
    &&& d.health == c.health
    &&& d.header.info_open == c.header.info_open
    &&& d.header.stats_open == c.header.stats_open
}

proof fn controls_keep_the_surroundings(
    c: CoreView,
    seed: Seq<char>,
    evs: Seq<RingingEventView>,
    now: u64,
)
    ensures
        same_surroundings(c, reducer::after_controls(c, seed, evs, now)),
    decreases evs.len(),
{
    if evs.len() > 0 {
        controls_keep_the_surroundings(c, seed, evs.drop_last(), now);
    }
}

proof fn tools_keep_the_surroundings(
    c: CoreView,
    seed: Seq<char>,
    evs: Seq<RingingEventView>,
    now: u64,
)
    ensures
        same_surroundings(c, reducer::after_tools(c, seed, evs, now)),
    decreases evs.len(),
{
    if evs.len() > 0 {
        tools_keep_the_surroundings(c, seed, evs.drop_last(), now);
    }
}

proof fn conversations_keep_the_surroundings(
    c: CoreView,
    seed: Seq<char>,
    evs: Seq<RingingEventView>,
    now: u64,
)
    ensures
        same_surroundings(c, reducer::tally_of(c, seed, evs, now).core),
    decreases evs.len(),
{
    if evs.len() > 0 {
        conversations_keep_the_surroundings(c, seed, evs.drop_last(), now);
    }
}

/// Whatever a batch brings, it changes neither the view nor the workspaces, the modes,
/// the settings, the timelines or the connection.
pub proof fn batches_keep_the_surroundings(
    c: CoreView,
    channel: Channel,
    seed: Seq<char>,
    evs: Seq<RingingEventView>,
    now: u64,
)
    ensures
        same_surroundings(c, reducer::after_batch(c, channel, seed, evs, now)),
{
    controls_keep_the_surroundings(c, seed, evs, now);
    tools_keep_the_surroundings(c, seed, evs, now);
    conversations_keep_the_surroundings(c, seed, evs, now);
}

/// The interaction on show gets a new version exactly when it changes.
pub proof fn only_changed_interactions_get_a_version(c: CoreView)
    ensures
        ({
            let d = bridge_core::with_interaction(c);
            &&& d.interaction_rev != c.interaction_rev <==> d.interaction != c.interaction
            &&& !c.interactions.contains_key(c.active_seed) ==> d.interaction.kind.len() == 0
            &&& d.interactions == c.interactions
        }),
{
}

} // verus!
