//! What happens in a frame: which entries are taken over, when a snapshot is
//! believed, when the view is drawn again, and where it is scrolled to.
//!
//! The transcript itself is kept elsewhere. A frame alternates between a decision
//! here and the work on the transcript that it asks for. Times are in
//! milliseconds.

use vstd::prelude::*;

use crate::chat::cache;
use crate::chat::cache::SessionTranscriptCache;
use crate::model;
use crate::text;

verus! {

/// How often a growing answer asks to be scrolled to its end.
pub const SCROLL_REQUEST_THROTTLE_MS: u64 = 100;

/// How often a growing answer is drawn.
pub const LIVE_RENDER_INTERVAL_MS: u64 = 8;

/// How many entries are taken over in a frame.
pub const CHAT_EVENTS_PER_FRAME: usize = 512;

/// How long the entries of a frame may take.
pub const CHAT_REDUCER_BUDGET_MS: u64 = 4;

/// How often an empty snapshot is read again before it is believed.
pub const EMPTY_SNAPSHOT_VERIFY_MAX: u32 = 2;

/// How often entries are taken over.
pub const DRAIN_INTERVAL_MS: u64 = 8;

/// How often the light of a loading text moves.
pub const SHIMMER_STEP_INTERVAL_MS: u64 = 90;

/// After this long without a frame a snapshot is read again.
pub const BACKGROUND_RESUME_AFTER_MS: u64 = 30_000;

/// How often the size of the transcript is logged.
pub const SCALE_LOG_INTERVAL_MS: u64 = 5_000;

/// By how many turns the window grows when its top is reached.
pub const WINDOW_PAGE: usize = 30;

/// Whether the view follows the end of the conversation.
#[derive(Debug, Clone, Copy, PartialEq, Eq, Structural)]
pub enum FollowState {
    Following,
    /// The user scrolled away from the end.
    Idle,
}

/// The state between frames.
#[derive(Debug)]
pub struct Pump {
    /// The version of the last entries.
    pub last_rev: u64,
    /// The session that was shown in the last frame.
    pub last_seed: String,
    pub follow: FollowState,
    /// The session whose snapshot was believed.
    pub last_restored_seed: String,
    /// How often an empty snapshot was read again.
    pub empty_verifications: u32,
    pub scroll_version: u64,
    /// From this scroll version on the view has to go to the end.
    pub force_tail_version: Option<u64>,
    pub last_scroll_request: u64,
    /// Counts how often the view was drawn.
    pub render_generation: u64,
    pub last_live_render: u64,
    pub last_frame_at: u64,
    /// The session whose snapshot is waited for after a long time without a frame.
    pub recovering: Option<String>,
    pub shimmer_tick: u64,
    pub last_shimmer_step: u64,
    /// By how many rows the window grew at its top.
    pub pending_anchor: Option<usize>,
    pub last_drain: Option<u64>,
    pub last_scale_log: u64,
}

/// The model of a `Pump`.
#[verifier::ext_equal]
pub struct PumpView {
    pub last_rev: u64,
    pub last_seed: Seq<char>,
    pub follow: FollowState,
    pub last_restored_seed: Seq<char>,
    pub empty_verifications: u32,
    pub scroll_version: u64,
    pub force_tail_version: Option<u64>,
    pub last_scroll_request: u64,
    pub render_generation: u64,
    pub last_live_render: u64,
    pub last_frame_at: u64,
    pub recovering: Option<Seq<char>>,
    pub shimmer_tick: u64,
    pub last_shimmer_step: u64,
    pub pending_anchor: Option<usize>,
    pub last_drain: Option<u64>,
    pub last_scale_log: u64,
}

impl View for Pump {
    type V = PumpView;

    open spec fn view(&self) -> PumpView {
        PumpView {
            last_rev: self.last_rev,
            last_seed: self.last_seed@,
            follow: self.follow,
            last_restored_seed: self.last_restored_seed@,
            empty_verifications: self.empty_verifications,
            scroll_version: self.scroll_version,
            force_tail_version: self.force_tail_version,
            last_scroll_request: self.last_scroll_request,
            render_generation: self.render_generation,
            last_live_render: self.last_live_render,
            last_frame_at: self.last_frame_at,
            recovering: model::opt_view(self.recovering),
            shimmer_tick: self.shimmer_tick,
            last_shimmer_step: self.last_shimmer_step,
            pending_anchor: self.pending_anchor,
            last_drain: self.last_drain,
            last_scale_log: self.last_scale_log,
        }
    }
}

/// The time from `then` to `now`.
pub open spec fn since(then: u64, now: u64) -> u64 {
    if now >= then {
        (now - then) as u64
    } else {
        0
    }
}

/// `since`, executable.
fn elapsed(then: u64, now: u64) -> (r: u64)
    ensures
        r == since(then, now),
{
    if now >= then {
        now - then
    } else {
        0
    }
}

/// The state when the view is shown for the first time.
pub open spec fn mounted(now: u64) -> PumpView {
    PumpView {
        last_rev: 0,
        last_seed: Seq::empty(),
        follow: FollowState::Following,
        last_restored_seed: Seq::empty(),
        empty_verifications: 0,
        scroll_version: 0,
        force_tail_version: None,
        last_scroll_request: now,
        render_generation: 0,
        last_live_render: now,
        last_frame_at: now,
        recovering: None,
        shimmer_tick: 0,
        last_shimmer_step: now,
        pending_anchor: None,
        last_drain: None,
        last_scale_log: now,
    }
}

/// The state with the view to be drawn again.
pub open spec fn drawn(p: PumpView) -> PumpView {
    PumpView { render_generation: model::next_rev(p.render_generation), ..p }
}

/// The state with the view to be scrolled to the end, whatever the user did.
pub open spec fn to_the_end(p: PumpView) -> PumpView {
    let version = model::next_rev(p.scroll_version);
    drawn(
        PumpView {
            scroll_version: version,
            force_tail_version: Some(version),
            follow: FollowState::Following,
            ..p
        },
    )
}

// ---------------------------------------------------------------------------
// The start of a frame
// ---------------------------------------------------------------------------

/// Whether the frame at `now` is the first one after a long time.
pub open spec fn comes_back(p: PumpView, now: u64) -> bool {
    since(p.last_frame_at, now) >= BACKGROUND_RESUME_AFTER_MS
}

/// The state after the start of the frame at `now`. After a long time the
/// snapshot of the active session is waited for.
pub open spec fn after_start(p: PumpView, active: Seq<char>, now: u64) -> PumpView {
    let resumed = if comes_back(p, now) {
        PumpView {
            last_restored_seed: Seq::empty(),
            recovering: Some(active),
            ..p
        }
    } else {
        p
    };
    PumpView {
        last_frame_at: now,
        last_scale_log: if since(p.last_scale_log, now) >= SCALE_LOG_INTERVAL_MS {
            now
        } else {
            p.last_scale_log
        },
        ..resumed
    }
}

/// What the start of a frame asks for.
#[derive(Debug, Clone, Copy, PartialEq, Eq, Structural)]
pub struct FrameStart {
    /// The queued entries go; a snapshot takes their place.
    pub drop_backlog: bool,
    /// The size of the transcript is logged.
    pub log_scale: bool,
}

/// After a long time without a frame the snapshot of the active session is read
/// again, and only one frame has to see to it.
pub proof fn absence_is_made_up_for_once(p: PumpView, active: Seq<char>, now: u64, later: u64)
    requires
        comes_back(p, now),
        active.len() > 0,
        since(now, later) < BACKGROUND_RESUME_AFTER_MS,
    ensures
        snapshot_step(after_start(p, active, now), active, None) == SnapshotStep::Refresh,
        after_start(p, active, now).recovering == Some(active),
        !comes_back(after_start(p, active, now), later),
{
}

// ---------------------------------------------------------------------------
// Another session
// ---------------------------------------------------------------------------

/// The state after `seed` took the place of another session. `had_cached` says
/// whether its transcript was kept.
pub open spec fn after_switch(p: PumpView, seed: Seq<char>, had_cached: bool) -> PumpView {
    to_the_end(
        PumpView {
            last_seed: seed,
            empty_verifications: 0,
            last_restored_seed: if had_cached {
                seed
            } else {
                Seq::empty()
            },
            last_rev: 0,
            ..p
        },
    )
}

/// What becomes of the transcripts when `seed` takes the place of another
/// session: the shown one is kept, that of `seed` is taken out.
pub open spec fn cache_after_switch<T>(
    entries: Seq<(Seq<char>, T)>,
    previous: Seq<char>,
    shown: T,
    seed: Seq<char>,
) -> Seq<(Seq<char>, T)> {
    cache::without(cache::stored(entries, previous, shown), seed)
}

/// The transcript of a session that takes the place of another one, if it was
/// kept.
pub open spec fn cached_for<T>(
    entries: Seq<(Seq<char>, T)>,
    previous: Seq<char>,
    shown: T,
    seed: Seq<char>,
) -> Option<T> {
    cache::kept(cache::stored(entries, previous, shown), seed)
}

/// Switching to another session and back shows its transcript again, as long as
/// there is room for it.
pub proof fn switching_back_restores_the_transcript<T>(
    entries: Seq<(Seq<char>, T)>,
    first: Seq<char>,
    second: Seq<char>,
    shown_first: T,
    shown_second: T,
)
    requires
        first.len() > 0,
        second.len() > 0,
        first != second,
        cache::one_each(entries),
        entries.len() < cache::SESSION_CACHE_CAPACITY - 1,
    ensures
        ({
            let away = cache_after_switch(entries, first, shown_first, second);
            cached_for(away, second, shown_second, first) == Some(shown_first)
        }),
{
    let kept_first = cache::stored(entries, first, shown_first);
    let away = cache::without(kept_first, second);
    cache::stored_transcript_is_kept(entries, first, shown_first);
    cache::others_survive(entries, first, shown_first, second, shown_second);
}

// ---------------------------------------------------------------------------
// Entries
// ---------------------------------------------------------------------------

/// Whether entries may be taken over at `now`.
pub open spec fn drain_open(p: PumpView, now: u64) -> bool {
    match p.last_drain {
        Some(then) => since(then, now) >= DRAIN_INTERVAL_MS,
        None => true,
    }
}

/// How many entries are taken over at `now`: none if it is too early and none are
/// left from the last frame; fewer if some are.
pub open spec fn entries_at(p: PumpView, now: u64, left_over: bool) -> usize {
    if left_over {
        128
    } else if drain_open(p, now) {
        CHAT_EVENTS_PER_FRAME
    } else {
        0
    }
}

/// How the transcript changed.
#[derive(Debug, Clone, Copy, PartialEq, Eq, Structural)]
pub struct Change {
    pub changed: bool,
    /// A turn, a tool or a round began or ended.
    pub structural: bool,
    /// The transcript takes more or less room.
    pub extent_changed: bool,
}

impl Change {
    /// No change.
    pub fn none() -> (r: Change)
        ensures
            !r.changed && !r.structural && !r.extent_changed,
    {
        Change { changed: false, structural: false, extent_changed: false }
    }

    /// Takes over one more change.
    pub fn merge(&mut self, other: Change)
        ensures
            *final(self) == both(*old(self), other),
    {
        self.changed = self.changed || other.changed;
        self.structural = self.structural || other.structural;
        self.extent_changed = self.extent_changed || other.extent_changed;
    }
}

/// Two changes as one.
pub open spec fn both(a: Change, b: Change) -> Change {
    Change {
        changed: a.changed || b.changed,
        structural: a.structural || b.structural,
        extent_changed: a.extent_changed || b.extent_changed,
    }
}

/// Whether a change asks to be scrolled to the end.
pub open spec fn asks_to_scroll(p: PumpView, change: Change, now: u64) -> bool {
    change.changed && change.extent_changed && (change.structural || since(
        p.last_scroll_request,
        now,
    ) >= SCROLL_REQUEST_THROTTLE_MS)
}

/// Whether a change is drawn at once.
pub open spec fn asks_to_draw(p: PumpView, change: Change, now: u64) -> bool {
    change.changed && (change.structural || since(p.last_live_render, now)
        >= LIVE_RENDER_INTERVAL_MS)
}

/// The state after the transcript changed.
pub open spec fn after_change(p: PumpView, change: Change, now: u64) -> PumpView {
    let scrolled = if asks_to_scroll(p, change, now) {
        PumpView {
            scroll_version: model::next_rev(p.scroll_version),
            last_scroll_request: now,
            ..p
        }
    } else {
        p
    };
    if asks_to_draw(p, change, now) {
        drawn(PumpView { last_live_render: now, ..scrolled })
    } else {
        scrolled
    }
}

/// What begins or ends is drawn at once, and scrolled to if it changes the room
/// that is taken.
pub proof fn structure_is_never_held_back(p: PumpView, change: Change, now: u64)
    requires
        change.changed,
        change.structural,
    ensures
        asks_to_draw(p, change, now),
        change.extent_changed ==> asks_to_scroll(p, change, now),
{
}

// ---------------------------------------------------------------------------
// Snapshots
// ---------------------------------------------------------------------------

/// What follows a look for a snapshot.
#[derive(Debug, Clone, Copy, PartialEq, Eq, Structural)]
pub enum SnapshotStep {
    /// The transcript is replaced by the snapshot.
    Restore,
    /// The snapshot is empty and not believed yet; it is read again.
    Verify,
    /// There is none; it is read again.
    Refresh,
    /// There is none, and none is needed.
    Nothing,
}

/// What follows a look for the snapshot of `seed`. `turns` is how many turns it
/// has, if there is one.
pub open spec fn snapshot_step(p: PumpView, seed: Seq<char>, turns: Option<usize>) -> SnapshotStep {
    match turns {
        Some(n) => if n > 0 || p.empty_verifications >= EMPTY_SNAPSHOT_VERIFY_MAX {
            SnapshotStep::Restore
        } else {
            SnapshotStep::Verify
        },
        None => if seed.len() > 0 && p.last_restored_seed != seed {
            SnapshotStep::Refresh
        } else {
            SnapshotStep::Nothing
        },
    }
}

/// The state after a look for the snapshot of `seed`.
pub open spec fn after_snapshot(
    p: PumpView,
    seed: Seq<char>,
    turns: Option<usize>,
    now: u64,
) -> PumpView {
    match snapshot_step(p, seed, turns) {
        SnapshotStep::Restore => to_the_end(
            PumpView {
                last_restored_seed: seed,
                empty_verifications: 0,
                recovering: if p.recovering == Some(seed) {
                    None
                } else {
                    p.recovering
                },
                last_scroll_request: now,
                ..p
            },
        ),
        SnapshotStep::Verify => PumpView {
            empty_verifications: (p.empty_verifications + 1) as u32,
            ..p
        },
        _ => p,
    }
}

/// A snapshot with turns is believed at once.
pub proof fn filled_snapshots_are_believed(p: PumpView, seed: Seq<char>, n: usize)
    requires
        n > 0,
    ensures
        snapshot_step(p, seed, Some(n)) == SnapshotStep::Restore,
{
}

/// An empty snapshot is believed only after it was read again as often as
/// needed, and is believed then.
pub proof fn empty_snapshots_are_verified(p: PumpView, seed: Seq<char>, now: u64)
    requires
        p.empty_verifications == 0,
    ensures
        ({
            let first = after_snapshot(p, seed, Some(0), now);
            let second = after_snapshot(first, seed, Some(0), now);
            &&& snapshot_step(p, seed, Some(0)) == SnapshotStep::Verify
            &&& snapshot_step(first, seed, Some(0)) == SnapshotStep::Verify
            &&& snapshot_step(second, seed, Some(0)) == SnapshotStep::Restore
            &&& second.last_restored_seed == p.last_restored_seed
        }),
{
}

/// Once a snapshot was believed it is not read again while its session is shown.
pub proof fn restored_sessions_are_left_alone(
    p: PumpView,
    seed: Seq<char>,
    turns: Option<usize>,
    now: u64,
)
    requires
        snapshot_step(p, seed, turns) == SnapshotStep::Restore,
    ensures
        snapshot_step(after_snapshot(p, seed, turns, now), seed, None) == SnapshotStep::Nothing,
        after_snapshot(p, seed, turns, now).recovering != Some(seed),
{
}

/// The state after earlier turns were put before the others. `turns` is how many.
pub open spec fn after_prepend(p: PumpView, turns: usize) -> PumpView {
    if turns > 0 {
        drawn(
            PumpView {
                pending_anchor: Some(turns),
                scroll_version: model::next_rev(p.scroll_version),
                ..p
            },
        )
    } else {
        p
    }
}

/// Whether `seed` is being loaded: it has no turns, and no snapshot of it was
/// believed.
pub open spec fn is_loading(p: PumpView, seed: Seq<char>, no_turns: bool) -> bool {
    seed.len() > 0 && no_turns && p.last_restored_seed != seed
}

/// The state after the light of a loading text moved, if it does.
pub open spec fn after_shimmer(
    p: PumpView,
    seed: Seq<char>,
    no_turns: bool,
    now: u64,
) -> PumpView {
    if (p.recovering is Some || is_loading(p, seed, no_turns)) && since(p.last_shimmer_step, now)
        >= SHIMMER_STEP_INTERVAL_MS {
        drawn(
            PumpView {
                last_shimmer_step: now,
                shimmer_tick: model::next_rev(p.shimmer_tick),
                ..p
            },
        )
    } else {
        p
    }
}

impl Pump {
    /// The state when the view is shown for the first time.
    pub fn new(now: u64) -> (r: Pump)
        ensures
            r@ == mounted(now),
    {
        Pump {
            last_rev: 0,
            last_seed: String::new(),
            follow: FollowState::Following,
            last_restored_seed: String::new(),
            empty_verifications: 0,
            scroll_version: 0,
            force_tail_version: None,
            last_scroll_request: now,
            render_generation: 0,
            last_live_render: now,
            last_frame_at: now,
            recovering: None,
            shimmer_tick: 0,
            last_shimmer_step: now,
            pending_anchor: None,
            last_drain: None,
            last_scale_log: now,
        }
    }

    /// Has the view drawn again.
    fn draw(&mut self)
        ensures
            final(self)@ == drawn(old(self)@),
    {
        self.render_generation = model::bump(self.render_generation);
    }

    /// Has the view scrolled to the end.
    fn go_to_the_end(&mut self)
        ensures
            final(self)@ == to_the_end(old(self)@),
    {
        let version: u64 = model::bump(self.scroll_version);
        self.scroll_version = version;
        self.force_tail_version = Some(version);
        self.follow = FollowState::Following;
        self.draw();
    }

    /// Begins the frame at `now`.
    pub fn begin_frame(&mut self, active: &str, now: u64) -> (r: FrameStart)
        ensures
            r.drop_backlog == comes_back(old(self)@, now),
            r.log_scale == (since(old(self)@.last_scale_log, now) >= SCALE_LOG_INTERVAL_MS),
            final(self)@ == after_start(old(self)@, active@, now),
    {
        let interval: u64 = elapsed(self.last_frame_at, now);
        let drop_backlog = interval >= BACKGROUND_RESUME_AFTER_MS;
        if drop_backlog {
            self.last_restored_seed = String::new();
            self.recovering = Some(active.to_owned());
        }
        self.last_frame_at = now;
        let log_scale = elapsed(self.last_scale_log, now) >= SCALE_LOG_INTERVAL_MS;
        if log_scale {
            self.last_scale_log = now;
        }
        FrameStart { drop_backlog, log_scale }
    }

    /// Whether another session than in the last frame is shown.
    pub fn session_changed(&self, seed: &str) -> (r: bool)
        ensures
            r == (self@.last_seed != seed@),
    {
        !text::same(self.last_seed.as_str(), seed)
    }

    /// Puts `seed` in the place of the session that was shown: its transcript
    /// `shown` is kept, that of `seed` is handed out if it was.
    pub fn switch_session<T>(
        &mut self,
        transcripts: &mut SessionTranscriptCache<T>,
        shown: T,
        seed: &str,
    ) -> (r: Option<T>)
        ensures
            r == cached_for(old(transcripts)@, old(self)@.last_seed, shown, seed@),
            final(transcripts)@ == cache_after_switch(
                old(transcripts)@,
                old(self)@.last_seed,
                shown,
                seed@,
            ),
            final(self)@ == after_switch(old(self)@, seed@, r is Some),
    {
        let previous = self.last_seed.clone();
        transcripts.store(previous, shown);
        let cached = transcripts.restore(seed);
        self.last_seed = seed.to_owned();
        self.empty_verifications = 0;
        self.last_restored_seed = if cached.is_some() {
            seed.to_owned()
        } else {
            String::new()
        };
        self.last_rev = 0;
        self.go_to_the_end();
        cached
    }

    /// How many entries to take over at `now`. `left_over` says whether some are
    /// left from the last frame.
    pub fn fetch_limit(&mut self, now: u64, left_over: bool) -> (r: usize)
        ensures
            r == entries_at(old(self)@, now, left_over),
            r <= CHAT_EVENTS_PER_FRAME,
            final(self)@ == (if drain_open(old(self)@, now) {
                PumpView { last_drain: Some(now), ..old(self)@ }
            } else {
                old(self)@
            }),
    {
        let open = match self.last_drain {
            Some(then) => elapsed(then, now) >= DRAIN_INTERVAL_MS,
            None => true,
        };
        if open {
            self.last_drain = Some(now);
        }
        if left_over {
            128
        } else if open {
            CHAT_EVENTS_PER_FRAME
        } else {
            0
        }
    }

    /// Takes over how many turns the snapshot of `seed` has, if there is one.
    pub fn take_snapshot(&mut self, seed: &str, turns: Option<usize>, now: u64) -> (r: SnapshotStep)
        ensures
            r == snapshot_step(old(self)@, seed@, turns),
            final(self)@ == after_snapshot(old(self)@, seed@, turns, now),
    {
        match turns {
            Some(n) => if n > 0 || self.empty_verifications >= EMPTY_SNAPSHOT_VERIFY_MAX {
                self.last_restored_seed = seed.to_owned();
                self.empty_verifications = 0;
                let ours = match &self.recovering {
                    Some(waited) => text::same(waited.as_str(), seed),
                    None => false,
                };
                if ours {
                    self.recovering = None;
                }
                self.last_scroll_request = now;
                self.go_to_the_end();
                SnapshotStep::Restore
            } else {
                self.empty_verifications = self.empty_verifications + 1;
                SnapshotStep::Verify
            },
            None => if !seed.is_empty() && !text::same(self.last_restored_seed.as_str(), seed) {
                SnapshotStep::Refresh
            } else {
                SnapshotStep::Nothing
            },
        }
    }

    /// Takes over that earlier turns were put before the others.
    pub fn prepended(&mut self, turns: usize)
        ensures
            final(self)@ == after_prepend(old(self)@, turns),
    {
        if turns > 0 {
            self.pending_anchor = Some(turns);
            self.scroll_version = model::bump(self.scroll_version);
            self.draw();
        }
    }

    /// Takes over the version of the entries.
    pub fn note_rev(&mut self, rev: u64)
        ensures
            final(self)@ == (PumpView { last_rev: rev, ..old(self)@ }),
    {
        self.last_rev = rev;
    }

    /// Takes over how the transcript changed. Says whether its window moves to
    /// the end; `tail_following` says whether the user left it there.
    pub fn reduced(&mut self, change: Change, tail_following: bool, now: u64) -> (r: bool)
        ensures
            r == (asks_to_scroll(old(self)@, change, now) && change.structural && tail_following),
            final(self)@ == after_change(old(self)@, change, now),
    {
        if !change.changed {
            return false;
        }
        let draws = change.structural || elapsed(self.last_live_render, now)
            >= LIVE_RENDER_INTERVAL_MS;
        let scrolls = change.extent_changed && (change.structural || elapsed(
            self.last_scroll_request,
            now,
        ) >= SCROLL_REQUEST_THROTTLE_MS);
        if scrolls {
            self.scroll_version = model::bump(self.scroll_version);
            self.last_scroll_request = now;
        }
        if draws {
            self.last_live_render = now;
            self.draw();
        }
        scrolls && change.structural && tail_following
    }

    /// Moves the light of a loading text, if one is shown. `no_turns` says that
    /// the transcript is empty.
    pub fn step_shimmer(&mut self, seed: &str, no_turns: bool, now: u64)
        ensures
            final(self)@ == after_shimmer(old(self)@, seed@, no_turns, now),
    {
        let loading = !seed.is_empty() && no_turns && !text::same(
            self.last_restored_seed.as_str(),
            seed,
        );
        if (self.recovering.is_some() || loading) && elapsed(self.last_shimmer_step, now)
            >= SHIMMER_STEP_INTERVAL_MS {
            self.last_shimmer_step = now;
            self.shimmer_tick = model::bump(self.shimmer_tick);
            self.draw();
        }
    }
}

// ---------------------------------------------------------------------------
// What is drawn
// ---------------------------------------------------------------------------

/// What is shown in place of turns.
#[derive(Debug, Clone, Copy, PartialEq, Eq, Structural)]
pub enum EmptyState {
    /// The session is being loaded.
    Loading,
    /// There is nothing yet.
    Fresh,
}

/// Where the view is scrolled to.
#[derive(Debug, Clone, Copy, PartialEq, Eq, Structural)]
pub enum Scroll {
    /// What was at the top stays where it was, `rows` rows further down.
    PreserveAnchor { version: u64, rows: usize },
    /// To the end.
    ForceTail { version: u64 },
    /// To the end, if the view is near it.
    FollowTail { version: u64 },
    /// Nowhere.
    Stay,
}

/// Where the view is scrolled to when it is drawn.
pub open spec fn scroll_of(p: PumpView) -> Scroll {
    if p.pending_anchor is Some {
        Scroll::PreserveAnchor { version: p.scroll_version, rows: p.pending_anchor.unwrap() }
    } else if p.follow != FollowState::Following {
        Scroll::Stay
    } else if p.force_tail_version is Some && p.force_tail_version.unwrap() <= p.scroll_version {
        Scroll::ForceTail { version: p.scroll_version }
    } else {
        Scroll::FollowTail { version: p.scroll_version }
    }
}

/// The state after the view was drawn.
pub open spec fn after_scroll(p: PumpView) -> PumpView {
    match scroll_of(p) {
        Scroll::PreserveAnchor { .. } => PumpView { pending_anchor: None, ..p },
        Scroll::ForceTail { .. } => PumpView { force_tail_version: None, ..p },
        _ => p,
    }
}

/// The state after the view was scrolled; `following_tail` says whether it is
/// near the end.
pub open spec fn after_view_change(p: PumpView, following_tail: bool) -> PumpView {
    let next = if following_tail {
        FollowState::Following
    } else {
        FollowState::Idle
    };
    if p.follow != next {
        drawn(PumpView { follow: next, ..p })
    } else {
        p
    }
}

/// Whoever scrolled away from the end is not scrolled back to it.
pub proof fn readers_are_left_alone(p: PumpView)
    requires
        p.follow == FollowState::Idle,
    ensures
        !(scroll_of(p) is ForceTail),
        !(scroll_of(p) is FollowTail),
{
}

/// A restored session is shown from its end, even if it grew before it was drawn.
pub proof fn restored_sessions_show_their_end(
    p: PumpView,
    seed: Seq<char>,
    turns: Option<usize>,
    change: Change,
    now: u64,
)
    requires
        snapshot_step(p, seed, turns) == SnapshotStep::Restore,
        p.pending_anchor is None,
        p.scroll_version < u64::MAX - 1,
    ensures
        ({
            let restored = after_snapshot(p, seed, turns, now);
            &&& scroll_of(restored) is ForceTail
            &&& scroll_of(after_change(restored, change, now)) is ForceTail
            &&& after_scroll(restored).force_tail_version is None
        }),
{
}

/// The end is gone to once, not in every frame.
pub proof fn the_end_is_forced_once(p: PumpView)
    requires
        scroll_of(p) is ForceTail,
    ensures
        scroll_of(after_scroll(p)) is FollowTail,
{
}

/// What follows when the top of the window is reached.
#[derive(Debug)]
pub enum TopStep {
    /// Earlier turns were at hand.
    Grown,
    /// Earlier turns than this one are fetched.
    Fetch { before: String },
    Nothing,
}

impl Pump {
    /// What is shown in place of turns, and what it says: a title and a detail.
    pub fn empty_state(&self, active: &str) -> (r: (EmptyState, &'static str, &'static str))
        ensures
            r.0 == (if is_loading(self@, active@, true) {
                EmptyState::Loading
            } else {
                EmptyState::Fresh
            }),
            r.0 == EmptyState::Loading ==> r.1@ == "正在恢复对话"@ && r.2@
                == "正在读取时间线与最近的消息。"@,
            r.0 == EmptyState::Fresh ==> r.1@ == "开始新的对话"@ && r.2@
                == "输入消息，或使用斜杠命令开始一项任务。"@,
    {
        if !active.is_empty() && !text::same(self.last_restored_seed.as_str(), active) {
            (EmptyState::Loading, "正在恢复对话", "正在读取时间线与最近的消息。")
        } else {
            (EmptyState::Fresh, "开始新的对话", "输入消息，或使用斜杠命令开始一项任务。")
        }
    }

    /// Where the view is scrolled to when it is drawn.
    pub fn take_scroll(&mut self) -> (r: Scroll)
        ensures
            r == scroll_of(old(self)@),
            final(self)@ == after_scroll(old(self)@),
    {
        if let Some(rows) = self.pending_anchor {
            self.pending_anchor = None;
            return Scroll::PreserveAnchor { version: self.scroll_version, rows };
        }
        if self.follow != FollowState::Following {
            return Scroll::Stay;
        }
        if let Some(version) = self.force_tail_version {
            if version <= self.scroll_version {
                self.force_tail_version = None;
                return Scroll::ForceTail { version: self.scroll_version };
            }
        }
        Scroll::FollowTail { version: self.scroll_version }
    }

    /// Takes over that the view was scrolled.
    pub fn view_changed(&mut self, following_tail: bool)
        ensures
            final(self)@ == after_view_change(old(self)@, following_tail),
    {
        let next = if following_tail {
            FollowState::Following
        } else {
            FollowState::Idle
        };
        if self.follow != next {
            self.follow = next;
            self.draw();
        }
    }

    /// Goes to the end because the user asked for it.
    pub fn jump_to_tail(&mut self)
        ensures
            final(self)@ == to_the_end(old(self)@),
    {
        self.go_to_the_end();
    }

    /// Whether the button that goes to the end is shown.
    pub fn jump_offered(&self) -> (r: bool)
        ensures
            r == (self@.follow == FollowState::Idle),
    {
        self.follow == FollowState::Idle
    }

    /// Whether the active session is covered until its snapshot is there.
    pub fn recovery_shown(&self, active: &str) -> (r: bool)
        ensures
            r == (self@.recovering == Some(active@)),
    {
        match &self.recovering {
            Some(seed) => text::same(seed.as_str(), active),
            None => false,
        }
    }

    /// The top of the window was reached, and it grew by `moved` turns. If it did
    /// not, earlier turns than `first` are fetched, if the session has any.
    pub fn top_reached(&mut self, moved: usize, seed: &str, has_more: bool, first: Option<&str>) -> (r:
        TopStep)
        ensures
            final(self)@ == after_prepend(old(self)@, moved),
            r is Grown <==> moved > 0,
            r is Fetch <==> moved == 0 && seed@.len() > 0 && has_more && first is Some,
            r matches TopStep::Fetch { before } ==> before@ == first.unwrap()@,
    {
        if moved > 0 {
            self.prepended(moved);
            return TopStep::Grown;
        }
        if seed.is_empty() || !has_more {
            return TopStep::Nothing;
        }
        match first {
            Some(before) => TopStep::Fetch { before: before.to_owned() },
            None => TopStep::Nothing,
        }
    }
}

/// Keeps the transcript of the active session when the view goes, unless it is
/// empty.
pub fn keep_on_unmount<T>(
    transcripts: &mut SessionTranscriptCache<T>,
    seed: String,
    shown: T,
    no_turns: bool,
)
    ensures
        final(transcripts)@ == (if no_turns {
            old(transcripts)@
        } else {
            cache::stored(old(transcripts)@, seed@, shown)
        }),
{
    if !no_turns {
        transcripts.store(seed, shown);
    }
}

// ---------------------------------------------------------------------------
// Rows that can be used again
// ---------------------------------------------------------------------------

/// Where the last row of the turn `id` stands.
pub open spec fn row_of(rows: Seq<(Seq<char>, u64)>, id: Seq<char>) -> Option<int>
    decreases rows.len(),
{
    if rows.len() == 0 {
        None
    } else if rows.last().0 == id {
        Some(rows.len() - 1)
    } else {
        row_of(rows.drop_last(), id)
    }
}

/// The drawn row that can be used again for a turn: the one of the same turn, if
/// the turn has not changed since.
pub open spec fn reusable(rows: Seq<(Seq<char>, u64)>, turn: (Seq<char>, u64)) -> Option<int> {
    match row_of(rows, turn.0) {
        Some(i) => if rows[i].1 == turn.1 {
            Some(i)
        } else {
            None
        },
        None => None,
    }
}

/// Turns with their versions.
pub open spec fn versions(list: Seq<(String, u64)>) -> Seq<(Seq<char>, u64)> {
    Seq::new(list.len(), |i: int| (list[i].0@, list[i].1))
}

/// `row_of`, executable.
fn find_row(rows: &Vec<(String, u64)>, id: &str) -> (r: Option<usize>)
    ensures
        match (r, row_of(versions(rows@), id@)) {
            (Some(i), Some(j)) => i == j && i < rows@.len(),
            (None, None) => true,
            _ => false,
        },
{
    let ghost all = versions(rows@);
    let mut i: usize = rows.len();
    assert(all.take(all.len() as int) =~= all);
    while i > 0
        invariant
            i <= rows@.len(),
            all == versions(rows@),
            row_of(all, id@) == row_of(all.take(i as int), id@),
        decreases i,
    {
        let ghost now = all.take(i as int);
        i = i - 1;
        assert(now.drop_last() =~= all.take(i as int));
        assert(now.last() == (rows@[i as int].0@, rows@[i as int].1));
        if text::same(rows[i].0.as_str(), id) {
            return Some(i);
        }
    }
    assert(all.take(0).len() == 0);
    None
}

/// For each turn of the window the drawn row that can be used again.
pub fn reuse_rows(rows: &Vec<(String, u64)>, turns: &Vec<(String, u64)>) -> (r: Vec<Option<usize>>)
    ensures
        r@.len() == turns@.len(),
        forall|i: int|
            0 <= i < turns@.len() ==> match (
                #[trigger] r@[i],
                reusable(versions(rows@), versions(turns@)[i]),
            ) {
                (Some(a), Some(b)) => a == b,
                (None, None) => true,
                _ => false,
            },
{
    let mut out: Vec<Option<usize>> = Vec::new();
    let mut i: usize = 0;
    while i < turns.len()
        invariant
            i <= turns@.len(),
            out@.len() == i,
            forall|k: int|
                0 <= k < i ==> match (
                    #[trigger] out@[k],
                    reusable(versions(rows@), versions(turns@)[k]),
                ) {
                    (Some(a), Some(b)) => a == b,
                    (None, None) => true,
                    _ => false,
                },
        decreases turns@.len() - i,
    {
        assert(versions(turns@)[i as int] == (turns@[i as int].0@, turns@[i as int].1));
        let found = match find_row(rows, turns[i].0.as_str()) {
            Some(at) => {
                assert(versions(rows@)[at as int] == (rows@[at as int].0@, rows@[at as int].1));
                if rows[at].1 == turns[i].1 {
                    Some(at)
                } else {
                    None
                }
            },
            None => None,
        };
        out.push(found);
        i = i + 1;
    }
    out
}

} // verus!
