//! What the frames of the conversation do, told by times and numbers.

use vstd::prelude::*;

use crate::chat::pump;
use crate::chat::pump::{Change, FollowState, PumpView, Scroll, SnapshotStep};

verus! {

/// The view follows the end when it is shown for the first time, and nothing is
/// restored, awaited or forced yet.
pub proof fn view_begins_at_the_end(now: u64)
    ensures
        pump::mounted(now).follow == FollowState::Following,
        pump::mounted(now).last_seed.len() == 0,
        pump::mounted(now).last_restored_seed.len() == 0,
        pump::mounted(now).recovering is None,
        pump::mounted(now).force_tail_version is None,
        pump::mounted(now).pending_anchor is None,
        pump::mounted(now).last_drain is None,
        pump::mounted(now).empty_verifications == 0,
        pump::mounted(now).last_frame_at == now,
{
}

/// Thirty seconds without a frame are an absence, and less is none. After one the
/// active session is awaited and counts as not restored; otherwise neither
/// changes. Every frame is noted.
pub proof fn thirty_seconds_are_an_absence(p: PumpView, active: Seq<char>, now: u64)
    ensures
        ({
            let after = pump::after_start(p, active, now);
            &&& pump::comes_back(p, now) <==> now >= p.last_frame_at + 30_000
            &&& pump::comes_back(p, now) ==> after.recovering == Some(active)
                && after.last_restored_seed.len() == 0
            &&& !pump::comes_back(p, now) ==> after.recovering == p.recovering
                && after.last_restored_seed == p.last_restored_seed
            &&& after.last_frame_at == now
            &&& after.last_seed == p.last_seed
            &&& after.follow == p.follow
            &&& after.render_generation == p.render_generation
            &&& now >= p.last_scale_log + 5_000 <==> after.last_scale_log != p.last_scale_log
        }),
{
}

/// A session that takes the place of another one is shown from its end and drawn.
/// It counts as restored exactly if its transcript was kept, and its entries are
/// read from the first version on.
pub proof fn switched_sessions_show_their_end(p: PumpView, seed: Seq<char>, had_cached: bool)
    requires
        seed.len() > 0,
    ensures
        ({
            let after = pump::after_switch(p, seed, had_cached);
            &&& after.last_seed == seed
            &&& after.last_restored_seed == seed <==> had_cached
            &&& after.empty_verifications == 0
            &&& after.last_rev == 0
            &&& after.follow == FollowState::Following
            &&& after.scroll_version != p.scroll_version
            &&& after.force_tail_version == Some(after.scroll_version)
            &&& after.render_generation != p.render_generation
            &&& after.recovering == p.recovering
            &&& after.pending_anchor == p.pending_anchor
        }),
{
}

/// Entries are taken over every eight milliseconds, five hundred and twelve of them
/// at most. Those that were left over come first, a hundred and twenty-eight at a
/// time, whenever it is.
pub proof fn entries_are_taken_in_portions(p: PumpView, now: u64, left_over: bool)
    ensures
        left_over ==> pump::entries_at(p, now, left_over) == 128,
        !left_over && p.last_drain is None ==> pump::entries_at(p, now, left_over) == 512,
        p.last_drain matches Some(then) ==> (!left_over && now >= then + 8 ==> pump::entries_at(
            p,
            now,
            left_over,
        ) == 512),
        p.last_drain matches Some(then) ==> (!left_over && now < then + 8 ==> pump::entries_at(
            p,
            now,
            left_over,
        ) == 0),
{
}

/// Two changes together change what either of them does.
pub proof fn changes_add_up(a: Change, b: Change)
    ensures
        pump::both(a, b).changed <==> a.changed || b.changed,
        pump::both(a, b).structural <==> a.structural || b.structural,
        pump::both(a, b).extent_changed <==> a.extent_changed || b.extent_changed,
{
}

/// A transcript that only grows is drawn every eight milliseconds and scrolled every
/// tenth of a second. What changes nothing is neither drawn nor scrolled.
pub proof fn growing_answers_are_drawn_now_and_then(p: PumpView, change: Change, now: u64)
    ensures
        ({
            let after = pump::after_change(p, change, now);
            let draws = change.changed && (change.structural || now >= p.last_live_render + 8);
            let scrolls = change.changed && change.extent_changed && (change.structural || now
                >= p.last_scroll_request + 100);
            &&& after.render_generation != p.render_generation <==> draws
            &&& draws ==> after.last_live_render == now
            &&& !draws ==> after.last_live_render == p.last_live_render
            &&& after.scroll_version != p.scroll_version <==> scrolls
            &&& scrolls ==> after.last_scroll_request == now
            &&& !scrolls ==> after.last_scroll_request == p.last_scroll_request
            &&& after.follow == p.follow
            &&& after.force_tail_version == p.force_tail_version
            &&& after.pending_anchor == p.pending_anchor
            &&& after.last_restored_seed == p.last_restored_seed
        }),
{
}

/// What follows a look for a snapshot: one with turns takes the place of the
/// transcript, an empty one does after it was read twice more. Without one it is
/// asked for exactly if the session was not restored.
pub proof fn snapshots_are_taken_over(
    p: PumpView,
    seed: Seq<char>,
    turns: Option<usize>,
    now: u64,
)
    requires
        p.empty_verifications < u32::MAX,
    ensures
        ({
            let step = pump::snapshot_step(p, seed, turns);
            let after = pump::after_snapshot(p, seed, turns, now);
            &&& step == SnapshotStep::Restore <==> (turns matches Some(n) && (n > 0
                || p.empty_verifications >= 2))
            &&& step == SnapshotStep::Verify <==> turns == Some(0usize) && p.empty_verifications < 2
            &&& step == SnapshotStep::Refresh <==> turns is None && seed.len() > 0
                && p.last_restored_seed != seed
            &&& step == SnapshotStep::Restore ==> {
                &&& after.last_restored_seed == seed
                &&& after.empty_verifications == 0
                &&& after.follow == FollowState::Following
                &&& after.force_tail_version == Some(after.scroll_version)
                &&& after.render_generation != p.render_generation
                &&& after.last_scroll_request == now
                &&& p.recovering == Some(seed) ==> after.recovering is None
                &&& p.recovering != Some(seed) ==> after.recovering == p.recovering
            }
            &&& step == SnapshotStep::Verify ==> after.empty_verifications == p.empty_verifications
                + 1 && after.last_restored_seed == p.last_restored_seed && after.render_generation
                == p.render_generation
            &&& turns is None ==> after == p
        }),
{
}

/// Earlier turns are put before the others without moving what is read; where there
/// are none nothing changes.
pub proof fn earlier_turns_keep_the_place(p: PumpView, turns: usize)
    ensures
        turns == 0 ==> pump::after_prepend(p, turns) == p,
        turns > 0 ==> {
            let after = pump::after_prepend(p, turns);
            &&& pump::scroll_of(after) == (Scroll::PreserveAnchor {
                version: after.scroll_version,
                rows: turns,
            })
            &&& after.scroll_version != p.scroll_version
            &&& after.render_generation != p.render_generation
            &&& after.follow == p.follow
            &&& pump::after_scroll(after).pending_anchor is None
        },
{
}

/// Where the view goes when it is drawn: it keeps its place if earlier turns came;
/// else it stays if the user scrolled away; else it goes to the end, for certain if
/// that was asked for.
pub proof fn view_goes_where_it_is_wanted(p: PumpView)
    ensures
        ({
            let scroll = pump::scroll_of(p);
            let forced = p.force_tail_version matches Some(version) && version <= p.scroll_version;
            &&& p.pending_anchor matches Some(rows) ==> scroll == (Scroll::PreserveAnchor {
                version: p.scroll_version,
                rows,
            })
            &&& p.pending_anchor is None && p.follow == FollowState::Idle ==> scroll
                == Scroll::Stay
            &&& p.pending_anchor is None && p.follow == FollowState::Following && forced ==> scroll
                == (Scroll::ForceTail { version: p.scroll_version })
            &&& p.pending_anchor is None && p.follow == FollowState::Following && !forced ==> scroll
                == (Scroll::FollowTail { version: p.scroll_version })
            &&& scroll is FollowTail || scroll is Stay ==> pump::after_scroll(p) == p
            &&& scroll is PreserveAnchor ==> pump::after_scroll(p).force_tail_version
                == p.force_tail_version
        }),
{
}

/// Scrolling away from the end stops following it, and scrolling back to it starts
/// that again. Only a change of that is drawn.
pub proof fn scrolling_decides_whether_the_end_is_followed(p: PumpView, following_tail: bool)
    ensures
        ({
            let after = pump::after_view_change(p, following_tail);
            &&& after.follow == FollowState::Following <==> following_tail
            &&& after.render_generation != p.render_generation <==> after.follow != p.follow
            &&& after.scroll_version == p.scroll_version
            &&& after.force_tail_version == p.force_tail_version
        }),
{
}

/// The light of a loading text moves every ninety milliseconds, and only while a
/// session is awaited or loaded: one without turns that was not restored.
pub proof fn light_moves_while_loading(p: PumpView, seed: Seq<char>, no_turns: bool, now: u64)
    ensures
        ({
            let after = pump::after_shimmer(p, seed, no_turns, now);
            let loading = seed.len() > 0 && no_turns && p.last_restored_seed != seed;
            let moves = (p.recovering is Some || loading) && now >= p.last_shimmer_step + 90;
            &&& after.shimmer_tick != p.shimmer_tick <==> moves
            &&& moves ==> after.last_shimmer_step == now && after.render_generation
                != p.render_generation
            &&& !moves ==> after == p
        }),
{
}

/// A drawn row is used again for a turn exactly if it is the last one of that turn
/// and shows the same version.
pub proof fn only_unchanged_rows_are_used_again(
    rows: Seq<(Seq<char>, u64)>,
    turn: (Seq<char>, u64),
    i: int,
)
    requires
        0 <= i < rows.len(),
        rows[i].0 == turn.0,
        forall|j: int| i < j < rows.len() ==> (#[trigger] rows[j]).0 != turn.0,
    ensures
        rows[i].1 == turn.1 ==> pump::reusable(rows, turn) == Some(i),
        rows[i].1 != turn.1 ==> pump::reusable(rows, turn) is None,
{
    last_row_is_found(rows, turn.0, i);
}

proof fn last_row_is_found(rows: Seq<(Seq<char>, u64)>, id: Seq<char>, i: int)
    requires
        0 <= i < rows.len(),
        rows[i].0 == id,
        forall|j: int| i < j < rows.len() ==> (#[trigger] rows[j]).0 != id,
    ensures
        pump::row_of(rows, id) == Some(i),
    decreases rows.len(),
{
    if i < rows.len() - 1 {
        let front = rows.drop_last();
        assert(rows[rows.len() - 1].0 != id);
        assert(front[i] == rows[i]);
        assert forall|j: int| i < j < front.len() implies (#[trigger] front[j]).0 != id by {
            assert(rows[j].0 != id);
        }
        last_row_is_found(front, id, i);
    }
}

} // verus!
