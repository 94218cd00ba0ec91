//! What the events of a conversation do, event by event.
//!
//! The laws speak of the events as they arrive, and of the state and the effects
//! after a whole batch of them.

use vstd::prelude::*;

use crate::bridge::bridge_core;
use crate::bridge::bridge_core::CoreView;
use crate::bridge::composer::WorkPhaseView;
use crate::bridge::composer_view;
use crate::bridge::events::{Channel, ConversationEvent, RingingEvent, RoundDeltaKind};
use crate::bridge::reducer;
use crate::bridge::reducer::EffectView;
use crate::bridge::store;
use crate::bridge::store::ActivityState;
use crate::model;

verus! {

/// Whether an event starts a turn.
pub open spec fn starts_turn(ev: RingingEvent) -> bool {
    ev matches RingingEvent::Conversation(e) && e is TurnStarted
}

/// Whether an event ends a turn: it completed, failed or was cancelled.
pub open spec fn ends_turn(ev: RingingEvent) -> bool {
    ev matches RingingEvent::Conversation(e) && (e is TurnCompleted || e is TurnFailed
        || e is ConversationCancelled)
}

/// Whether an event is a sign that a turn is running.
pub open spec fn shows_work(ev: RingingEvent) -> bool {
    ev matches RingingEvent::Conversation(e) && (e is TurnStarted || e is UsageUpdated
        || e is RoundDelta || e is BlockCheckpoint || e is RoundCompleted || e is ProviderRetrying
        || e is ProviderToolStatus)
}

/// Whether an event brings text of an answer or of the thinking before it.
pub open spec fn brings_text(ev: RingingEvent) -> bool {
    ev matches RingingEvent::Conversation(e) && e is RoundDelta
}

/// Whether an event reports usage.
pub open spec fn reports_usage(ev: RingingEvent) -> bool {
    ev matches RingingEvent::Conversation(e) && e is UsageUpdated
}

/// Whether an event says that compacting begins.
pub open spec fn starts_compacting(ev: RingingEvent) -> bool {
    ev matches RingingEvent::Conversation(e) && e is CompactStarted
}

/// Whether an event says that compacting begins or has ended.
pub open spec fn tells_compacting(ev: RingingEvent) -> bool {
    ev matches RingingEvent::Conversation(e) && (e is CompactStarted || e is CompactFinished)
}

/// The turn that an event that starts or ends one names.
pub open spec fn named_turn(ev: RingingEvent) -> Option<Seq<char>> {
    match ev {
        RingingEvent::Conversation(ConversationEvent::TurnStarted { turn_id, .. }) => Some(
            turn_id@,
        ),
        RingingEvent::Conversation(ConversationEvent::TurnCompleted { turn_id }) => Some(turn_id@),
        RingingEvent::Conversation(ConversationEvent::TurnFailed { turn_id }) => Some(turn_id@),
        RingingEvent::Conversation(
            ConversationEvent::ConversationCancelled { cancelled: Some(turn_id) },
        ) => Some(turn_id@),
        _ => None,
    }
}

/// Whether a turn of `seed` runs at `now`: the last event of one is not its end,
/// and came less than four minutes ago. Of a session without events, what the
/// daemon said counts.
pub open spec fn turn_runs(c: CoreView, seed: Seq<char>, now: u64) -> bool {
    if c.composer_activity.contains_key(seed) {
        let a = c.composer_activity[seed];
        a.active_turn && (a.last_activity_at == 0 || now < a.last_activity_at + 240_000)
    } else {
        c.activities.contains_key(seed) && (c.activities[seed] == ActivityState::Starting
            || c.activities[seed] == ActivityState::Working || c.activities[seed]
            == ActivityState::WaitingUser)
    }
}

/// Whether the title bar shows what is known of the active session at `now`.
pub open spec fn title_bar_is_current(c: CoreView, now: u64) -> bool {
    let seed = c.active_seed;
    &&& c.header.view == c.current_view
    &&& c.header.seed == seed
    &&& c.header.compacting <==> c.compact_statuses.contains_key(seed) && c.compact_statuses[seed]
        == "running"@
    &&& c.header.compact_disabled <==> turn_runs(c, seed, now)
    &&& c.header.undo_disabled <==> turn_runs(c, seed, now) || !(c.header_turns.contains_key(seed)
        && c.header_turns[seed] > 0)
    &&& forall|i: int|
        0 <= i < c.sessions.len() && (#[trigger] c.sessions[i]).seed == seed && (forall|j: int|
            0 <= j < i ==> (#[trigger] c.sessions[j]).seed != seed) ==> c.header.title
            == c.sessions[i].title
    &&& (forall|i: int| 0 <= i < c.sessions.len() ==> (#[trigger] c.sessions[i]).seed != seed)
        ==> c.header.title.len() == 0
}

/// Bringing the title bar up to date makes it show what is known of the active
/// session, under a new version, and changes nothing but the title bar. What the
/// user switched on it stays.
pub proof fn title_bar_follows_the_state(c: CoreView, now: u64)
    ensures
        title_bar_is_current(bridge_core::with_header(c, now), now),
        bridge_core::with_header(c, now).header_rev != c.header_rev,
        bridge_core::with_header(c, now).header.info_open == c.header.info_open,
        bridge_core::with_header(c, now).header.stats_open == c.header.stats_open,
        bridge_core::with_header(c, now).header.pet_enabled == c.header.pet_enabled,
        bridge_core::with_header(c, now) == (CoreView {
            header: bridge_core::with_header(c, now).header,
            header_rev: bridge_core::with_header(c, now).header_rev,
            ..c
        }),
{
    let d = bridge_core::with_header(c, now);
    store::session_at_is_least(c.sessions, c.active_seed);
    assert forall|i: int|
        0 <= i < d.sessions.len() && (#[trigger] d.sessions[i]).seed == d.active_seed && (forall|
            j: int,
        |
            0 <= j < i ==> (#[trigger] d.sessions[j]).seed != d.active_seed) implies d.header.title
        == d.sessions[i].title by {
        match store::session_at(c.sessions, c.active_seed) {
            Some(k) => {
                if k < i {
                    assert(d.sessions[k].seed != d.active_seed);
                }
                if i < k {
                    assert(c.sessions[i].seed != c.active_seed);
                }
            },
            None => {
                assert(c.sessions[i].seed != c.active_seed);
            },
        }
    }
    if forall|i: int| 0 <= i < d.sessions.len() ==> (#[trigger] d.sessions[i]).seed
        != d.active_seed {
        match store::session_at(c.sessions, c.active_seed) {
            Some(k) => {
                assert(d.sessions[k].seed != d.active_seed);
            },
            None => {},
        }
    }
}

/// What the events of a batch come to, one event after the other.
proof fn tally_step(c: CoreView, seed: Seq<char>, evs: Seq<RingingEvent>, now: u64)
    requires
        evs.len() > 0,
    ensures
        reducer::tally_of(c, seed, model::views(evs), now) == (match evs.last() {
            RingingEvent::Conversation(e) => reducer::after_conversation(
                reducer::tally_of(c, seed, model::views(evs.drop_last()), now),
                seed,
                e@,
                now,
            ),
            _ => reducer::tally_of(c, seed, model::views(evs.drop_last()), now),
        }),
{
    assert(model::views(evs).drop_last() =~= model::views(evs.drop_last()));
    assert(model::views(evs).last() == evs.last()@);
}

/// The activity that a batch leaves: that of its last event about a turn.
proof fn activity_of_the_last_event(
    c: CoreView,
    seed: Seq<char>,
    evs: Seq<RingingEvent>,
    k: int,
    now: u64,
)
    requires
        0 <= k < evs.len(),
        shows_work(evs[k]) || ends_turn(evs[k]),
        forall|j: int|
            k < j < evs.len() ==> !shows_work(#[trigger] evs[j]) && !ends_turn(evs[j]),
    ensures
        ({
            let d = reducer::tally_of(c, seed, model::views(evs), now).core;
            let a = d.composer_activity[seed];
            &&& d.composer_activity.contains_key(seed)
            &&& ends_turn(evs[k]) ==> !a.active_turn && a.phase is Idle
            &&& shows_work(evs[k]) ==> a.active_turn && a.last_activity_at == now
        }),
    decreases evs.len(),
{
    tally_step(c, seed, evs, now);
    if k < evs.len() - 1 {
        let front = evs.drop_last();
        assert forall|j: int| k < j < front.len() implies !shows_work(#[trigger] front[j])
            && !ends_turn(front[j]) by {
            assert(front[j] == evs[j]);
        }
        assert(front[k] == evs[k]);
        activity_of_the_last_event(c, seed, front, k, now);
        assert(!shows_work(evs[evs.len() - 1]));
    }
}

/// What a batch without events about a turn leaves of the activity.
proof fn activity_without_events(c: CoreView, seed: Seq<char>, evs: Seq<RingingEvent>, now: u64)
    requires
        forall|j: int|
            0 <= j < evs.len() ==> !shows_work(#[trigger] evs[j]) && !ends_turn(evs[j]),
    ensures
        ({
            let d = reducer::tally_of(c, seed, model::views(evs), now).core;
            &&& d.composer_activity.contains_key(seed)
            &&& c.composer_activity.contains_key(seed) ==> d.composer_activity[seed]
                == c.composer_activity[seed]
            &&& !c.composer_activity.contains_key(seed) ==> !d.composer_activity[seed].active_turn
        }),
    decreases evs.len(),
{
    if evs.len() > 0 {
        tally_step(c, seed, evs, now);
        let front = evs.drop_last();
        assert forall|j: int| 0 <= j < front.len() implies !shows_work(#[trigger] front[j])
            && !ends_turn(front[j]) by {
            assert(front[j] == evs[j]);
        }
        activity_without_events(c, seed, front, now);
        assert(!shows_work(evs[evs.len() - 1]));
    }
}

/// Which kinds of events a batch holds, and what follows from that at its end.
proof fn flags_of_a_batch(c: CoreView, seed: Seq<char>, evs: Seq<RingingEvent>, now: u64)
    ensures
        ({
            let t = reducer::tally_of(c, seed, model::views(evs), now);
            &&& t.boundary <==> exists|j: int|
                0 <= j < evs.len() && (starts_turn(#[trigger] evs[j]) || ends_turn(evs[j]))
            &&& t.ended <==> exists|j: int| 0 <= j < evs.len() && ends_turn(#[trigger] evs[j])
            &&& t.compact is Some <==> exists|j: int|
                0 <= j < evs.len() && tells_compacting(#[trigger] evs[j])
            &&& t.usage is Some <==> exists|j: int|
                0 <= j < evs.len() && reports_usage(#[trigger] evs[j])
            &&& t.core.active_seed == c.active_seed
            &&& t.core.header == c.header
            &&& t.core.header_rev == c.header_rev
            &&& t.core.info == c.info
            &&& t.core.info_rev == c.info_rev
            &&& t.core.compact_statuses == c.compact_statuses
            &&& t.core.sessions == c.sessions
            &&& t.core.activities == c.activities
            &&& t.core.current_view == c.current_view
            &&& t.core.interactions == c.interactions
            &&& t.core.interaction == c.interaction
        }),
    decreases evs.len(),
{
    let t = reducer::tally_of(c, seed, model::views(evs), now);
    if evs.len() > 0 {
        tally_step(c, seed, evs, now);
        let front = evs.drop_last();
        let last = evs.len() - 1;
        flags_of_a_batch(c, seed, front, now);
        assert forall|j: int| 0 <= j < front.len() implies front[j] == #[trigger] evs[j] by {}
        if t.boundary {
            if starts_turn(evs[last]) || ends_turn(evs[last]) {
            } else {
                let j = choose|j: int|
                    0 <= j < front.len() && (starts_turn(#[trigger] front[j]) || ends_turn(
                        front[j],
                    ));
                assert(starts_turn(evs[j]) || ends_turn(evs[j]));
            }
        }
        if exists|j: int|
            0 <= j < evs.len() && (starts_turn(#[trigger] evs[j]) || ends_turn(evs[j])) {
            let j = choose|j: int|
                0 <= j < evs.len() && (starts_turn(#[trigger] evs[j]) || ends_turn(evs[j]));
            if j < last {
                assert(starts_turn(front[j]) || ends_turn(front[j]));
            }
        }
        if t.ended {
            if !ends_turn(evs[last]) {
                let j = choose|j: int| 0 <= j < front.len() && ends_turn(#[trigger] front[j]);
                assert(ends_turn(evs[j]));
            }
        }
        if exists|j: int| 0 <= j < evs.len() && ends_turn(#[trigger] evs[j]) {
            let j = choose|j: int| 0 <= j < evs.len() && ends_turn(#[trigger] evs[j]);
            if j < last {
                assert(ends_turn(front[j]));
            }
        }
        if t.compact is Some {
            if !tells_compacting(evs[last]) {
                let j = choose|j: int| 0 <= j < front.len() && tells_compacting(#[trigger] front[j]);
                assert(tells_compacting(evs[j]));
            }
        }
        if exists|j: int| 0 <= j < evs.len() && tells_compacting(#[trigger] evs[j]) {
            let j = choose|j: int| 0 <= j < evs.len() && tells_compacting(#[trigger] evs[j]);
            if j < last {
                assert(tells_compacting(front[j]));
            }
        }
        if t.usage is Some {
            if !reports_usage(evs[last]) {
                let j = choose|j: int| 0 <= j < front.len() && reports_usage(#[trigger] front[j]);
                assert(reports_usage(evs[j]));
            }
        }
        if exists|j: int| 0 <= j < evs.len() && reports_usage(#[trigger] evs[j]) {
            let j = choose|j: int| 0 <= j < evs.len() && reports_usage(#[trigger] evs[j]);
            if j < last {
                assert(reports_usage(front[j]));
            }
        }
    }
}

/// The last event about a turn decides whether one runs. After its end none does,
/// at whatever time one looks: neither the composer nor the title bar shows one.
/// After any other event one runs for four minutes, and no longer.
pub proof fn last_event_decides_whether_a_turn_runs(
    c: CoreView,
    seed: Seq<char>,
    evs: Seq<RingingEvent>,
    k: int,
    now: u64,
    later: u64,
)
    requires
        0 <= k < evs.len(),
        shows_work(evs[k]) || ends_turn(evs[k]),
        forall|j: int|
            k < j < evs.len() ==> !shows_work(#[trigger] evs[j]) && !ends_turn(evs[j]),
    ensures
        ({
            let d = reducer::after_batch(c, Channel::Conversation, seed, model::views(evs), now);
            let a = d.composer_activity[seed];
            &&& d.composer_activity.contains_key(seed)
            &&& ends_turn(evs[k]) ==> {
                &&& !a.active_turn
                &&& a.phase is Idle
                &&& !bridge_core::seed_streaming(d, seed, later)
                &&& seed == c.active_seed ==> {
                    &&& !composer_view::composer_of(d, later).is_streaming
                    &&& !composer_view::gate(d) ==> composer_view::composer_of(d, later).phase is Idle
                    &&& !d.header.compact_disabled
                    &&& d.header.undo_disabled <==> !(d.header_turns.contains_key(seed)
                        && d.header_turns[seed] > 0)
                }
            }
            &&& shows_work(evs[k]) ==> {
                &&& a.active_turn
                &&& a.last_activity_at == now
                &&& 0 < now <= later ==> (bridge_core::seed_streaming(d, seed, later) <==> later
                    < now + 240_000)
                &&& seed == c.active_seed && 0 < now <= later ==> (composer_view::composer_of(
                    d,
                    later,
                ).is_streaming <==> later < now + 240_000)
            }
        }),
{
    activity_of_the_last_event(c, seed, evs, k, now);
    flags_of_a_batch(c, seed, evs, now);
    let d = reducer::after_batch(c, Channel::Conversation, seed, model::views(evs), now);
    if ends_turn(evs[k]) {
        assert(starts_turn(evs[k]) || ends_turn(evs[k]));
    }
}

/// A batch without events about a turn changes nothing of whether one runs.
pub proof fn other_events_leave_the_turn_alone(
    c: CoreView,
    seed: Seq<char>,
    evs: Seq<RingingEvent>,
    now: u64,
)
    requires
        forall|j: int|
            0 <= j < evs.len() ==> !shows_work(#[trigger] evs[j]) && !ends_turn(evs[j]),
    ensures
        ({
            let d = reducer::after_batch(c, Channel::Conversation, seed, model::views(evs), now);
            &&& c.composer_activity.contains_key(seed) ==> d.composer_activity
                == c.composer_activity
            &&& !c.composer_activity.contains_key(seed) ==> d.composer_activity.contains_key(seed)
                && !d.composer_activity[seed].active_turn
        }),
{
    activity_without_events(c, seed, evs, now);
    let d = reducer::after_batch(c, Channel::Conversation, seed, model::views(evs), now);
    if c.composer_activity.contains_key(seed) {
        others_activity_stays(c, seed, evs, now);
        assert(d.composer_activity =~= c.composer_activity);
    }
}

/// The activity of other sessions stays.
proof fn others_activity_stays(c: CoreView, seed: Seq<char>, evs: Seq<RingingEvent>, now: u64)
    ensures
        ({
            let d = reducer::tally_of(c, seed, model::views(evs), now).core;
            &&& d.composer_activity.dom() =~= c.composer_activity.dom().insert(seed)
            &&& forall|s: Seq<char>|
                s != seed ==> #[trigger] d.composer_activity[s] == c.composer_activity[s]
        }),
    decreases evs.len(),
{
    if evs.len() > 0 {
        tally_step(c, seed, evs, now);
        others_activity_stays(c, seed, evs.drop_last(), now);
    }
}

/// The title bar is brought up to date whenever a turn starts or ends, and when
/// compacting of the active session begins or ends. Otherwise it stays.
pub proof fn title_bar_follows_the_turn(
    c: CoreView,
    seed: Seq<char>,
    evs: Seq<RingingEvent>,
    now: u64,
)
    ensures
        ({
            let d = reducer::after_batch(c, Channel::Conversation, seed, model::views(evs), now);
            let turned = exists|j: int|
                0 <= j < evs.len() && (starts_turn(#[trigger] evs[j]) || ends_turn(evs[j]));
            let compacts = exists|j: int| 0 <= j < evs.len() && tells_compacting(#[trigger] evs[j]);
            if turned || compacts && seed == c.active_seed {
                title_bar_is_current(d, now) && d.header_rev != c.header_rev
            } else {
                d.header == c.header && d.header_rev == c.header_rev
            }
        }),
{
    flags_of_a_batch(c, seed, evs, now);
    let t = reducer::tally_of(c, seed, model::views(evs), now);
    let news = reducer::with_news(t, seed, now);
    let told = CoreView { composer_rev: model::next_rev(news.composer_rev), ..news };
    let d = reducer::after_batch(c, Channel::Conversation, seed, model::views(evs), now);
    if t.boundary {
        title_bar_follows_the_state(told, now);
    } else if t.compact is Some && seed == c.active_seed {
        let plain = CoreView { header: c.header, header_rev: c.header_rev, ..news };
        assert(news == bridge_core::with_header(plain, now));
        title_bar_follows_the_state(plain, now);
        assert(title_bar_is_current(news, now));
    }
}

/// Whether an event decides in which phase the work of a turn is.
pub open spec fn sets_phase(ev: RingingEvent) -> bool {
    brings_text(ev) || ends_turn(ev)
}

/// What the last events of their kind in a batch leave behind.
proof fn last_of_each_kind(
    c: CoreView,
    seed: Seq<char>,
    evs: Seq<RingingEvent>,
    k: int,
    now: u64,
)
    requires
        0 <= k < evs.len(),
    ensures
        ({
            let t = reducer::tally_of(c, seed, model::views(evs), now);
            let a = t.core.composer_activity[seed];
            &&& sets_phase(evs[k]) && (forall|j: int|
                k < j < evs.len() ==> !sets_phase(#[trigger] evs[j])) ==> {
                &&& ends_turn(evs[k]) ==> a.phase is Idle
                &&& (evs[k] matches RingingEvent::Conversation(ConversationEvent::RoundDelta { kind })
                    ==> a.phase == (if kind == RoundDeltaKind::Answering {
                    WorkPhaseView::Answering
                } else {
                    WorkPhaseView::Thinking
                }))
            }
            &&& reports_usage(evs[k]) && (forall|j: int|
                k < j < evs.len() ==> !reports_usage(#[trigger] evs[j])) ==> (evs[k] matches
                RingingEvent::Conversation(
                ConversationEvent::UsageUpdated { usage, context_limit, model },
            ) && {
                &&& a.prompt_tokens == usage.prompt_tokens
                &&& a.context_limit == context_limit
                &&& a.model == model@
                &&& t.usage == Some((usage, context_limit, model@))
            })
            &&& tells_compacting(evs[k]) && (forall|j: int|
                k < j < evs.len() ==> !tells_compacting(#[trigger] evs[j])) ==> {
                &&& starts_compacting(evs[k]) ==> t.compact == Some("running"@)
                &&& (evs[k] matches RingingEvent::Conversation(
                    ConversationEvent::CompactFinished { status },
                ) ==> t.compact == Some(status@))
            }
            &&& named_turn(evs[k]) is Some && (forall|j: int|
                k < j < evs.len() ==> named_turn(#[trigger] evs[j]) is None) ==> {
                &&& t.core.last_turn_ids.contains_key(seed)
                &&& Some(t.core.last_turn_ids[seed]) == named_turn(evs[k])
            }
            &&& starts_turn(evs[k]) ==> t.core.header_turns.contains_key(seed)
                && t.core.header_turns[seed] >= 1
            &&& starts_compacting(evs[k]) ==> t.core.composer_feedback.contains_key(seed)
                && t.core.composer_feedback[seed].submit_error.len() == 0
        }),
    decreases evs.len(),
{
    tally_step(c, seed, evs, now);
    if k < evs.len() - 1 {
        let front = evs.drop_last();
        let last = evs.len() - 1;
        assert(front[k] == evs[k]);
        last_of_each_kind(c, seed, front, k, now);
        activity_kept(c, seed, front, now);
        if forall|j: int| k < j < evs.len() ==> !sets_phase(#[trigger] evs[j]) {
            assert(!sets_phase(evs[last]));
            assert forall|j: int| k < j < front.len() implies !sets_phase(#[trigger] front[j]) by {
                assert(!sets_phase(evs[j]));
            }
        }
        if forall|j: int| k < j < evs.len() ==> !reports_usage(#[trigger] evs[j]) {
            assert(!reports_usage(evs[last]));
            assert forall|j: int| k < j < front.len() implies !reports_usage(#[trigger] front[j]) by {
                assert(!reports_usage(evs[j]));
            }
        }
        if forall|j: int| k < j < evs.len() ==> !tells_compacting(#[trigger] evs[j]) {
            assert(!tells_compacting(evs[last]));
            assert forall|j: int| k < j < front.len() implies !tells_compacting(
                #[trigger] front[j],
            ) by {
                assert(!tells_compacting(evs[j]));
            }
        }
        if forall|j: int| k < j < evs.len() ==> named_turn(#[trigger] evs[j]) is None {
            assert(named_turn(evs[last]) is None);
            assert forall|j: int| k < j < front.len() implies named_turn(
                #[trigger] front[j],
            ) is None by {
                assert(named_turn(evs[j]) is None);
            }
        }
    }
}

/// Text of an answer means answering, any other text thinking, and the end of a
/// turn that nothing is done, until another event says otherwise.
pub proof fn text_decides_the_phase(
    c: CoreView,
    seed: Seq<char>,
    evs: Seq<RingingEvent>,
    k: int,
    now: u64,
)
    requires
        0 <= k < evs.len(),
        sets_phase(evs[k]),
        forall|j: int| k < j < evs.len() ==> !sets_phase(#[trigger] evs[j]),
    ensures
        ({
            let d = reducer::after_batch(c, Channel::Conversation, seed, model::views(evs), now);
            let phase = d.composer_activity[seed].phase;
            match evs[k] {
                RingingEvent::Conversation(ConversationEvent::RoundDelta { kind }) => match kind {
                    RoundDeltaKind::Answering => phase is Answering,
                    RoundDeltaKind::Thinking => phase is Thinking,
                    RoundDeltaKind::ToolCalling => phase is Thinking,
                },
                _ => phase is Idle,
            }
        }),
{
    last_of_each_kind(c, seed, evs, k, now);
}

/// The last report of usage is what the composer shows, and, of the active
/// session, the details; what else is known of those stays. The details of the
/// active session are not touched by the usage of another one.
pub proof fn last_usage_is_shown(
    c: CoreView,
    seed: Seq<char>,
    evs: Seq<RingingEvent>,
    k: int,
    now: u64,
)
    requires
        0 <= k < evs.len(),
        reports_usage(evs[k]),
        forall|j: int| k < j < evs.len() ==> !reports_usage(#[trigger] evs[j]),
    ensures
        ({
            let d = reducer::after_batch(c, Channel::Conversation, seed, model::views(evs), now);
            evs[k] matches RingingEvent::Conversation(
                ConversationEvent::UsageUpdated { usage, context_limit, model },
            ) ==> {
                &&& d.composer_activity[seed].prompt_tokens == usage.prompt_tokens
                &&& d.composer_activity[seed].context_limit == context_limit
                &&& d.composer_activity[seed].model == model@
                &&& seed == c.active_seed ==> {
                    &&& composer_view::composer_of(d, now).context_tokens == usage.prompt_tokens
                    &&& composer_view::composer_of(d, now).context_limit == context_limit
                    &&& composer_view::composer_of(d, now).model == model@
                    &&& d.info matches Some(detail) && {
                        &&& detail.usage == usage
                        &&& detail.context_limit == context_limit
                        &&& detail.model == model@
                        &&& c.info matches Some(known) ==> detail.compact_status
                            == known.compact_status
                        &&& c.info is None ==> detail.compact_status.len() == 0
                    }
                    &&& d.info_rev != c.info_rev
                }
                &&& seed != c.active_seed ==> d.info == c.info && d.info_rev == c.info_rev
            }
        }),
{
    last_of_each_kind(c, seed, evs, k, now);
    flags_of_a_batch(c, seed, evs, now);
    activity_kept(c, seed, evs, now);
}

/// The session of a batch has an activity.
proof fn activity_kept(c: CoreView, seed: Seq<char>, evs: Seq<RingingEvent>, now: u64)
    ensures
        reducer::tally_of(c, seed, model::views(evs), now).core.composer_activity.contains_key(seed),
{
    others_activity_stays(c, seed, evs, now);
}

/// Events that report no usage leave the numbers alone.
proof fn numbers_stay_without_report(
    c: CoreView,
    seed: Seq<char>,
    evs: Seq<RingingEvent>,
    now: u64,
)
    requires
        forall|j: int| 0 <= j < evs.len() ==> !reports_usage(#[trigger] evs[j]),
    ensures
        ({
            let a = reducer::tally_of(c, seed, model::views(evs), now).core.composer_activity[seed];
            &&& c.composer_activity.contains_key(seed) ==> {
                &&& a.prompt_tokens == c.composer_activity[seed].prompt_tokens
                &&& a.context_limit == c.composer_activity[seed].context_limit
                &&& a.model == c.composer_activity[seed].model
            }
            &&& !c.composer_activity.contains_key(seed) ==> a.prompt_tokens == 0 && a.context_limit
                == 0 && a.model.len() == 0
        }),
    decreases evs.len(),
{
    if evs.len() > 0 {
        tally_step(c, seed, evs, now);
        let front = evs.drop_last();
        assert forall|j: int| 0 <= j < front.len() implies !reports_usage(#[trigger] front[j]) by {
            assert(front[j] == evs[j]);
        }
        assert(!reports_usage(evs[evs.len() - 1]));
        activity_kept(c, seed, front, now);
        numbers_stay_without_report(c, seed, front, now);
    }
}

/// Without a report of usage the numbers stay, of the composer and of the
/// details.
pub proof fn usage_stays_without_report(
    c: CoreView,
    seed: Seq<char>,
    evs: Seq<RingingEvent>,
    now: u64,
)
    requires
        forall|j: int| 0 <= j < evs.len() ==> !reports_usage(#[trigger] evs[j]),
    ensures
        ({
            let d = reducer::after_batch(c, Channel::Conversation, seed, model::views(evs), now);
            let a = d.composer_activity[seed];
            &&& d.info == c.info
            &&& d.info_rev == c.info_rev
            &&& c.composer_activity.contains_key(seed) ==> {
                &&& a.prompt_tokens == c.composer_activity[seed].prompt_tokens
                &&& a.context_limit == c.composer_activity[seed].context_limit
                &&& a.model == c.composer_activity[seed].model
            }
            &&& !c.composer_activity.contains_key(seed) ==> a.prompt_tokens == 0 && a.context_limit
                == 0 && a.model.len() == 0
        }),
{
    flags_of_a_batch(c, seed, evs, now);
    numbers_stay_without_report(c, seed, evs, now);
}

/// The last news about compacting is what is known of it: that it runs from its
/// start on, and how it ended from its end on. Without news that stays.
pub proof fn last_news_about_compacting_counts(
    c: CoreView,
    seed: Seq<char>,
    evs: Seq<RingingEvent>,
    k: int,
    now: u64,
)
    requires
        0 <= k < evs.len(),
        tells_compacting(evs[k]),
        forall|j: int| k < j < evs.len() ==> !tells_compacting(#[trigger] evs[j]),
    ensures
        ({
            let d = reducer::after_batch(c, Channel::Conversation, seed, model::views(evs), now);
            &&& d.compact_statuses.contains_key(seed)
            &&& starts_compacting(evs[k]) ==> d.compact_statuses[seed] == "running"@
            &&& (evs[k] matches RingingEvent::Conversation(
                ConversationEvent::CompactFinished { status },
            ) ==> d.compact_statuses[seed] == status@)
            &&& seed == c.active_seed && starts_compacting(evs[k]) ==> d.header.compacting
            &&& forall|s: Seq<char>|
                s != seed ==> #[trigger] d.compact_statuses[s] == c.compact_statuses[s]
        }),
{
    last_of_each_kind(c, seed, evs, k, now);
    flags_of_a_batch(c, seed, evs, now);
    title_bar_follows_the_turn(c, seed, evs, now);
    let d = reducer::after_batch(c, Channel::Conversation, seed, model::views(evs), now);
    assert(tells_compacting(evs[k]));
    assert(d.active_seed == c.active_seed);
}

/// Without news about compacting nothing changes of what is known of it.
pub proof fn compacting_stays_without_news(
    c: CoreView,
    seed: Seq<char>,
    evs: Seq<RingingEvent>,
    now: u64,
)
    requires
        forall|j: int| 0 <= j < evs.len() ==> !tells_compacting(#[trigger] evs[j]),
    ensures
        reducer::after_batch(
            c,
            Channel::Conversation,
            seed,
            model::views(evs),
            now,
        ).compact_statuses == c.compact_statuses,
{
    flags_of_a_batch(c, seed, evs, now);
}

/// What the events of a batch do to the feedback of the composer.
proof fn feedback_of_a_batch(c: CoreView, seed: Seq<char>, evs: Seq<RingingEvent>, now: u64)
    ensures
        ({
            let f = reducer::tally_of(c, seed, model::views(evs), now).core.composer_feedback;
            if exists|j: int| 0 <= j < evs.len() && starts_compacting(#[trigger] evs[j]) {
                &&& f.contains_key(seed)
                &&& f[seed].submit_error.len() == 0
                &&& c.composer_feedback.contains_key(seed) ==> f[seed].send_ack
                    == c.composer_feedback[seed].send_ack
            } else {
                f == c.composer_feedback
            }
        }),
    decreases evs.len(),
{
    if evs.len() > 0 {
        tally_step(c, seed, evs, now);
        let front = evs.drop_last();
        let last = evs.len() - 1;
        feedback_of_a_batch(c, seed, front, now);
        if exists|j: int| 0 <= j < front.len() && starts_compacting(#[trigger] front[j]) {
            let j = choose|j: int| 0 <= j < front.len() && starts_compacting(#[trigger] front[j]);
            assert(starts_compacting(evs[j]));
        }
        if exists|j: int| 0 <= j < evs.len() && starts_compacting(#[trigger] evs[j]) {
            let j = choose|j: int| 0 <= j < evs.len() && starts_compacting(#[trigger] evs[j]);
            if j < last {
                assert(starts_compacting(front[j]));
            }
        } else {
            assert(!starts_compacting(evs[last]));
        }
    }
}

/// Compacting that begins takes away the error that the composer showed; the
/// count of messages stays. Nothing else of a conversation touches either.
pub proof fn compacting_takes_the_error_away(
    c: CoreView,
    seed: Seq<char>,
    evs: Seq<RingingEvent>,
    now: u64,
)
    ensures
        ({
            let d = reducer::after_batch(c, Channel::Conversation, seed, model::views(evs), now);
            if exists|j: int| 0 <= j < evs.len() && starts_compacting(#[trigger] evs[j]) {
                &&& d.composer_feedback.contains_key(seed)
                &&& d.composer_feedback[seed].submit_error.len() == 0
                &&& c.composer_feedback.contains_key(seed) ==> d.composer_feedback[seed].send_ack
                    == c.composer_feedback[seed].send_ack
            } else {
                d.composer_feedback == c.composer_feedback
            }
        }),
{
    feedback_of_a_batch(c, seed, evs, now);
}

/// The last turn of a session is the one that its last event names, and a session
/// whose turn started has one.
pub proof fn turns_are_remembered(
    c: CoreView,
    seed: Seq<char>,
    evs: Seq<RingingEvent>,
    k: int,
    now: u64,
)
    requires
        0 <= k < evs.len(),
    ensures
        ({
            let d = reducer::after_batch(c, Channel::Conversation, seed, model::views(evs), now);
            &&& named_turn(evs[k]) is Some && (forall|j: int|
                k < j < evs.len() ==> named_turn(#[trigger] evs[j]) is None) ==> {
                &&& d.last_turn_ids.contains_key(seed)
                &&& named_turn(evs[k]) == Some(d.last_turn_ids[seed])
            }
            &&& starts_turn(evs[k]) ==> d.header_turns.contains_key(seed) && d.header_turns[seed]
                >= 1
        }),
{
    last_of_each_kind(c, seed, evs, k, now);
}

/// What the events of a batch do to the count of turns.
proof fn turns_of_a_batch(c: CoreView, seed: Seq<char>, evs: Seq<RingingEvent>, now: u64)
    ensures
        ({
            let n = reducer::tally_of(c, seed, model::views(evs), now).core.header_turns;
            if exists|j: int| 0 <= j < evs.len() && starts_turn(#[trigger] evs[j]) {
                &&& n.contains_key(seed)
                &&& n[seed] == (if c.header_turns.contains_key(seed) && c.header_turns[seed] >= 1 {
                    c.header_turns[seed]
                } else {
                    1
                })
            } else {
                n == c.header_turns
            }
        }),
    decreases evs.len(),
{
    if evs.len() > 0 {
        tally_step(c, seed, evs, now);
        let front = evs.drop_last();
        let last = evs.len() - 1;
        turns_of_a_batch(c, seed, front, now);
        if exists|j: int| 0 <= j < front.len() && starts_turn(#[trigger] front[j]) {
            let j = choose|j: int| 0 <= j < front.len() && starts_turn(#[trigger] front[j]);
            assert(starts_turn(evs[j]));
        }
        if exists|j: int| 0 <= j < evs.len() && starts_turn(#[trigger] evs[j]) {
            let j = choose|j: int| 0 <= j < evs.len() && starts_turn(#[trigger] evs[j]);
            if j < last {
                assert(starts_turn(front[j]));
            }
        } else {
            assert(!starts_turn(evs[last]));
        }
    }
}

/// A turn that starts makes the count of turns at least one and never less than
/// it was; nothing else changes it.
pub proof fn count_of_turns_never_falls(
    c: CoreView,
    seed: Seq<char>,
    evs: Seq<RingingEvent>,
    now: u64,
)
    ensures
        ({
            let n = reducer::after_batch(
                c,
                Channel::Conversation,
                seed,
                model::views(evs),
                now,
            ).header_turns;
            if exists|j: int| 0 <= j < evs.len() && starts_turn(#[trigger] evs[j]) {
                &&& n.contains_key(seed)
                &&& n[seed] == (if c.header_turns.contains_key(seed) && c.header_turns[seed] >= 1 {
                    c.header_turns[seed]
                } else {
                    1
                })
            } else {
                n == c.header_turns
            }
        }),
{
    turns_of_a_batch(c, seed, evs, now);
}

/// How many of the events say that a turn completed.
pub open spec fn completions(evs: Seq<RingingEvent>) -> nat
    decreases evs.len(),
{
    if evs.len() == 0 {
        0
    } else {
        completions(evs.drop_last()) + (match evs.last() {
            RingingEvent::Conversation(ConversationEvent::TurnCompleted { .. }) => 1nat,
            _ => 0,
        })
    }
}

proof fn completions_are_counted(c: CoreView, seed: Seq<char>, evs: Seq<RingingEvent>, now: u64)
    ensures
        reducer::tally_of(c, seed, model::views(evs), now).completed == completions(evs),
    decreases evs.len(),
{
    if evs.len() > 0 {
        tally_step(c, seed, evs, now);
        completions_are_counted(c, seed, evs.drop_last(), now);
    }
}

/// The user is told of every turn that completed, and of no other. The details
/// are read anew at the end of a turn of the active session while they are on
/// show, and nothing else is to be done.
pub proof fn completed_turns_are_announced(
    c: CoreView,
    seed: Seq<char>,
    evs: Seq<RingingEvent>,
    now: u64,
)
    ensures
        ({
            let effects = reducer::batch_effects(
                c,
                Channel::Conversation,
                seed,
                model::views(evs),
                now,
            );
            let n = completions(evs) as int;
            let ended = exists|j: int| 0 <= j < evs.len() && ends_turn(#[trigger] evs[j]);
            let reads = ended && seed == c.active_seed && c.header.info_open;
            &&& effects.len() == n + (if reads {
                1int
            } else {
                0
            })
            &&& forall|i: int|
                0 <= i < n ==> #[trigger] effects[i] == (EffectView::NotifyTurnCompleted { seed })
            &&& reads ==> effects[n] == (EffectView::RefreshInfo { seed })
        }),
{
    completions_are_counted(c, seed, evs, now);
    flags_of_a_batch(c, seed, evs, now);
}

} // verus!
