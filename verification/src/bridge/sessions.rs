//! Going from session to session: snapshots, resuming, archiving, workspaces.

use vstd::prelude::*;

use crate::bridge::bridge_core;
use crate::bridge::bridge_core::{BridgeCore, CoreView};
use crate::bridge::header;
use crate::bridge::header::{HeaderFlag, HeaderView};
use crate::bridge::store;
use crate::bridge::store::{
    ActivityState, DetailView, SessionDetail, SessionItem, SessionView, WorkspaceItem,
    WorkspaceView,
};
use crate::bridge::timeline;
use crate::bridge::timeline::TimelineEntry;
use crate::bridge::transcript::{CacheView, TimelinePage};
use crate::model;
use crate::model::Duplicate;
use crate::seed_map::SeedMap;
use crate::text;

verus! {

broadcast use {model::map_views_insert, model::map_views_remove, model::map_views_empty};

// ---------------------------------------------------------------------------
// Snapshots
// ---------------------------------------------------------------------------

/// The session that a page belongs to: the one it names, else the one whose
/// timeline was activated last.
pub open spec fn page_owner(c: CoreView, page: TimelinePage) -> Seq<char> {
    if page.seed@.len() > 0 {
        page.seed@
    } else {
        c.timeline.last_timeline_seed
    }
}

/// Whether a page comes too late: its session is no longer the active one.
pub open spec fn page_is_stale(c: CoreView, page: TimelinePage) -> bool {
    c.active_seed.len() > 0 && page_owner(c, page) != c.active_seed
}

/// The state after a snapshot arrived. One that comes too late is dropped.
pub open spec fn with_snapshot(c: CoreView, page: TimelinePage, now: u64) -> CoreView {
    let seed = page_owner(c, page);
    let turns = page.snapshot.turns@;
    if page_is_stale(c, page) {
        c
    } else {
        bridge_core::with_header(
            CoreView {
                timeline: CacheView {
                    has_more: c.timeline.has_more.insert(seed, page.has_more),
                    chat_timeline: Some((seed, page.snapshot)),
                    ..c.timeline
                },
                header_turns: c.header_turns.insert(seed, turns.len() as usize),
                last_turn_ids: if turns.len() > 0 {
                    c.last_turn_ids.insert(seed, turns.last().turn_id@)
                } else {
                    c.last_turn_ids.remove(seed)
                },
                ..c
            },
            now,
        )
    }
}

/// While a session is active, the cached snapshot never changes to that of
/// another one.
pub proof fn stale_snapshot_is_dropped(c: CoreView, page: TimelinePage, now: u64)
    requires
        c.active_seed.len() > 0,
        page.seed@.len() > 0,
        page.seed@ != c.active_seed,
    ensures
        with_snapshot(c, page, now) == c,
{
}

impl BridgeCore {
    /// Takes over a snapshot. Says whether it was kept.
    pub fn cache_timeline_snapshot(&mut self, page: TimelinePage, now: u64) -> (r: bool)
        ensures
            r == !page_is_stale(old(self)@, page),
            final(self)@ == with_snapshot(old(self)@, page, now),
    {
        let ghost start = self@;
        let seed = if page.seed.as_str().is_empty() {
            self.timeline.last_timeline_seed.clone()
        } else {
            page.seed.clone()
        };
        if !self.active_seed.as_str().is_empty() && !text::same(
            seed.as_str(),
            self.active_seed.as_str(),
        ) {
            return false;
        }
        let count: usize = page.snapshot.turns.len();
        self.timeline.has_more.insert(seed.clone(), page.has_more);
        self.header_turns.insert(seed.clone(), count);
        if count > 0 {
            let turn_id = page.snapshot.turns[count - 1].turn_id.clone();
            self.last_turn_ids.insert(seed.clone(), turn_id);
        } else {
            let _ = self.last_turn_ids.remove(seed.as_str());
        }
        self.timeline.chat_timeline = Some((seed, page.snapshot));
        self.refresh_header(now);
        true
    }

    /// Queues a live entry of `seed`. Says whether it was taken.
    pub fn push_timeline_entry(&mut self, seed: String, entry: TimelineEntry) -> (r: bool)
        ensures
            r == (old(self)@.timeline.events.total() < timeline::TIMELINE_QUEUE_CAP
                || !timeline::droppable(entry)),
            timeline::after_push(
                old(self)@.timeline.events,
                final(self)@.timeline.events,
                seed@,
                entry,
                timeline::droppable(entry),
            ),
            final(self)@ == (CoreView {
                timeline: CacheView {
                    events: final(self)@.timeline.events,
                    timeline_rev: if r {
                        model::next_rev(old(self)@.timeline.timeline_rev)
                    } else {
                        old(self)@.timeline.timeline_rev
                    },
                    ..old(self)@.timeline
                },
                ..old(self)@
            }),
    {
        let is_delta = timeline::is_timeline_delta(&entry);
        let pushed = self.timeline.events.push(seed, entry, is_delta);
        if pushed {
            self.timeline.timeline_rev = model::bump(self.timeline.timeline_rev);
        }
        pushed
    }

    /// Takes the oldest live entries of the active session, `limit` of them at
    /// most, and the version of the queues. Everything else stays queued.
    pub fn timeline_drain_limit(&mut self, limit: usize) -> (r: (Vec<TimelineEntry>, u64))
        ensures
            r.1 == old(self)@.timeline.timeline_rev,
            r.0@.len() == (if limit <= old(self)@.timeline.events.queue(
                old(self)@.active_seed,
            ).len() {
                limit as nat
            } else {
                old(self)@.timeline.events.queue(old(self)@.active_seed).len()
            }),
            r.0@ == old(self)@.timeline.events.queue(old(self)@.active_seed).take(
                r.0@.len() as int,
            ),
            final(self)@.timeline.events.queue(old(self)@.active_seed) == old(
                self,
            )@.timeline.events.queue(old(self)@.active_seed).skip(r.0@.len() as int),
            forall|s: Seq<char>|
                s != old(self)@.active_seed ==> #[trigger] final(self)@.timeline.events.queue(s)
                    == old(self)@.timeline.events.queue(s),
            final(self)@ == (CoreView {
                timeline: CacheView {
                    events: final(self)@.timeline.events,
                    ..old(self)@.timeline
                },
                ..old(self)@
            }),
    {
        let entries = self.timeline.events.drain_seed(self.active_seed.as_str(), limit);
        (entries, self.timeline.timeline_rev)
    }
}

// ---------------------------------------------------------------------------
// Details
// ---------------------------------------------------------------------------

/// The state after the details of `seed` were read. They are shown only if it is
/// the active session; how far its compacting is, is noted in any case.
pub open spec fn with_detail(
    c: CoreView,
    seed: Seq<char>,
    detail: DetailView,
    now: u64,
) -> CoreView {
    let noted = CoreView {
        compact_statuses: if detail.compact_status.len() == 0 {
            c.compact_statuses.remove(seed)
        } else {
            c.compact_statuses.insert(seed, detail.compact_status)
        },
        ..c
    };
    if c.active_seed == seed {
        bridge_core::with_header(
            CoreView { info: Some(detail), info_rev: model::next_rev(noted.info_rev), ..noted },
            now,
        )
    } else {
        noted
    }
}

impl BridgeCore {
    /// Takes over the details of `seed`.
    pub fn apply_bootstrap_conversation_state(
        &mut self,
        seed: &str,
        detail: SessionDetail,
        now: u64,
    )
        ensures
            final(self)@ == with_detail(old(self)@, seed@, detail@, now),
    {
        let status = detail.compact_status.clone();
        if status.as_str().is_empty() {
            let _ = self.compact_statuses.remove(seed);
        } else {
            self.compact_statuses.insert(seed.to_owned(), status);
        }
        if text::same(self.active_seed.as_str(), seed) {
            self.info = Some(detail);
            self.info_rev = model::bump(self.info_rev);
            self.refresh_header(now);
        }
    }
}

// ---------------------------------------------------------------------------
// Resuming, archiving, deleting
// ---------------------------------------------------------------------------

/// What a request to show a session leads to.
#[derive(Debug, Clone, Copy, PartialEq, Eq, Structural)]
pub enum ResumeStep {
    /// The session is active already and is on show now.
    Shown,
    /// The session has to be joined first; this is the number of the request.
    Join { generation: u64 },
}

/// The state after a request to show `seed`: an earlier request no longer
/// counts. A session that is active already is just put on show.
pub open spec fn after_resume_request(c: CoreView, seed: Seq<char>, now: u64) -> CoreView {
    let counted = CoreView {
        timeline: CacheView {
            resume_generation: model::next_rev(c.timeline.resume_generation),
            ..c.timeline
        },
        ..c
    };
    if c.active_seed == seed {
        bridge_core::navigated(counted, "chat"@, Some(seed), now)
    } else {
        counted
    }
}

/// The state after the session of a request was joined, if the request still
/// counts.
pub open spec fn after_joined(
    c: CoreView,
    seed: Seq<char>,
    generation: u64,
    now: u64,
) -> CoreView {
    if c.timeline.resume_generation == generation {
        bridge_core::activated(
            CoreView { timeline: CacheView { last_timeline_seed: seed, ..c.timeline }, ..c },
            seed,
            now,
        )
    } else {
        c
    }
}

/// The state at the end of a request: the sidebar is refreshed in any case, the
/// session is put on show if the request still counts.
pub open spec fn after_resumed(
    c: CoreView,
    seed: Seq<char>,
    generation: u64,
    now: u64,
) -> CoreView {
    let counted = CoreView { session_rev: model::next_rev(c.session_rev), ..c };
    if c.timeline.resume_generation == generation {
        bridge_core::navigated(counted, "chat"@, Some(seed), now)
    } else {
        counted
    }
}

/// A request that a later one has overtaken neither changes the active session
/// nor the view.
pub proof fn overtaken_request_changes_nothing(
    c: CoreView,
    seed: Seq<char>,
    generation: u64,
    later: Seq<char>,
    now: u64,
)
    requires
        c.timeline.resume_generation == generation,
    ensures
        ({
            let overtaken = after_resume_request(c, later, now);
            &&& after_joined(overtaken, seed, generation, now) == overtaken
            &&& after_resumed(overtaken, seed, generation, now).active_seed
                == overtaken.active_seed
            &&& after_resumed(overtaken, seed, generation, now).current_view
                == overtaken.current_view
        }),
{
}

/// What happens once a session was archived.
#[derive(Debug)]
pub enum ArchiveStep {
    /// Another session was active: nothing changes.
    Stay,
    /// The archived session was active: go on with this one.
    Resume { seed: String },
    /// The archived session was active, and there is none to go on with.
    Home,
}

/// The model of an `ArchiveStep`.
#[verifier::ext_equal]
pub enum ArchiveStepView {
    Stay,
    Resume { seed: Seq<char> },
    Home,
}

impl View for ArchiveStep {
    type V = ArchiveStepView;

    open spec fn view(&self) -> ArchiveStepView {
        match self {
            ArchiveStep::Stay => ArchiveStepView::Stay,
            ArchiveStep::Resume { seed } => ArchiveStepView::Resume { seed: seed@ },
            ArchiveStep::Home => ArchiveStepView::Home,
        }
    }
}

/// The first session that is neither archived nor `seed`.
pub open spec fn neighbour(sessions: Seq<SessionView>, seed: Seq<char>) -> Option<Seq<char>>
    decreases sessions.len(),
{
    if sessions.len() == 0 {
        None
    } else {
        match neighbour(sessions.drop_last(), seed) {
            Some(s) => Some(s),
            None => if !sessions.last().archived && sessions.last().seed != seed {
                Some(sessions.last().seed)
            } else {
                None
            },
        }
    }
}

/// What happens once `seed` was archived.
pub open spec fn archive_step(c: CoreView, seed: Seq<char>) -> ArchiveStepView {
    if c.active_seed != seed {
        ArchiveStepView::Stay
    } else {
        match neighbour(c.sessions, seed) {
            Some(next) => ArchiveStepView::Resume { seed: next },
            None => ArchiveStepView::Home,
        }
    }
}

/// A session to go on with is listed, is not archived and is not the archived
/// one.
pub proof fn neighbour_is_open(sessions: Seq<SessionView>, seed: Seq<char>)
    ensures
        neighbour(sessions, seed) matches Some(next) ==> next != seed && exists|i: int|
            0 <= i < sessions.len() && (#[trigger] sessions[i]).seed == next
                && !sessions[i].archived,
        neighbour(sessions, seed) is None ==> forall|i: int|
            0 <= i < sessions.len() ==> (#[trigger] sessions[i]).archived || sessions[i].seed
                == seed,
    decreases sessions.len(),
{
    if sessions.len() > 0 {
        let front = sessions.drop_last();
        neighbour_is_open(front, seed);
        assert forall|i: int| 0 <= i < front.len() implies front[i] == sessions[i] by {}
        match neighbour(front, seed) {
            Some(next) => {
                let i = choose|i: int|
                    0 <= i < front.len() && (#[trigger] front[i]).seed == next
                        && !front[i].archived;
                assert(sessions[i].seed == next);
            },
            None => {
                let last = sessions.len() - 1;
                assert(sessions[last] == sessions.last());
                assert forall|i: int| 0 <= i < front.len() implies (
                #[trigger] sessions[i]).archived || sessions[i].seed == seed by {
                    assert(front[i].archived || front[i].seed == seed);
                }
            },
        }
    }
}

/// The state with no session active, and the start page on show.
pub open spec fn at_home(c: CoreView, now: u64) -> CoreView {
    bridge_core::navigated(
        bridge_core::activated(c, Seq::empty(), now),
        "home"@,
        None,
        now,
    )
}

/// The state after `seed` was deleted.
pub open spec fn after_delete(c: CoreView, seed: Seq<char>, now: u64) -> CoreView {
    let forgotten = CoreView { compact_statuses: c.compact_statuses.remove(seed), ..c };
    if c.active_seed == seed {
        at_home(forgotten, now)
    } else {
        forgotten
    }
}

impl BridgeCore {
    /// Begins to show `seed`.
    pub fn spawn_resume(&mut self, seed: &str, now: u64) -> (r: ResumeStep)
        ensures
            final(self)@ == after_resume_request(old(self)@, seed@, now),
            r == (if old(self)@.active_seed == seed@ {
                ResumeStep::Shown
            } else {
                ResumeStep::Join {
                    generation: model::next_rev(old(self)@.timeline.resume_generation),
                }
            }),
    {
        let generation: u64 = model::bump(self.timeline.resume_generation);
        self.timeline.resume_generation = generation;
        if text::same(self.active_seed.as_str(), seed) {
            self.navigate("chat", Some(seed), now);
            return ResumeStep::Shown;
        }
        ResumeStep::Join { generation }
    }

    /// Whether the request of this number still counts.
    pub fn resume_counts(&self, generation: u64) -> (r: bool)
        ensures
            r == (self@.timeline.resume_generation == generation),
    {
        self.timeline.resume_generation == generation
    }

    /// Makes the session that was joined for a request the active one, if the
    /// request still counts. Says whether it does.
    pub fn resume_joined(&mut self, seed: &str, generation: u64, now: u64) -> (r: bool)
        ensures
            r == (old(self)@.timeline.resume_generation == generation),
            final(self)@ == after_joined(old(self)@, seed@, generation, now),
    {
        if self.timeline.resume_generation != generation {
            return false;
        }
        self.timeline.last_timeline_seed = seed.to_owned();
        self.set_active_seed(seed, now);
        true
    }

    /// Ends a request.
    pub fn resume_finished(&mut self, seed: &str, generation: u64, now: u64)
        ensures
            final(self)@ == after_resumed(old(self)@, seed@, generation, now),
    {
        self.session_rev = model::bump(self.session_rev);
        if self.timeline.resume_generation == generation {
            self.navigate("chat", Some(seed), now);
        }
    }

    /// What happens once `seed` was archived.
    pub fn spawn_archive(&self, seed: &str) -> (r: ArchiveStep)
        ensures
            r@ == archive_step(self@, seed@),
    {
        if !text::same(self.active_seed.as_str(), seed) {
            return ArchiveStep::Stay;
        }
        let ghost all = self@.sessions;
        let mut i: usize = 0;
        assert(all.take(0) =~= Seq::empty());
        while i < self.sessions.len()
            invariant
                i <= self.sessions@.len(),
                all == model::views(self.sessions@),
                all == self@.sessions,
                self@.active_seed == seed@,
                neighbour(all.take(i as int), seed@) is None,
            decreases self.sessions@.len() - i,
        {
            let ghost longer = all.take(i + 1);
            assert(longer.drop_last() =~= all.take(i as int));
            assert(longer.last() == self.sessions@[i as int]@);
            if !self.sessions[i].archived && !text::same(self.sessions[i].seed.as_str(), seed) {
                proof {
                    neighbour_of_prefix(all, i + 1, seed@);
                }
                return ArchiveStep::Resume { seed: self.sessions[i].seed.clone() };
            }
            i = i + 1;
        }
        assert(all.take(all.len() as int) =~= all);
        ArchiveStep::Home
    }

    /// Shows the start page, with no session active.
    pub fn go_home(&mut self, now: u64)
        ensures
            final(self)@ == at_home(old(self)@, now),
    {
        self.set_active_seed("", now);
        proof {
            reveal_strlit("");
            assert(""@ =~= Seq::<char>::empty());
        }
        self.navigate("home", None, now);
    }

    /// Takes note that `seed` was deleted.
    pub fn spawn_delete(&mut self, seed: &str, now: u64)
        ensures
            final(self)@ == after_delete(old(self)@, seed@, now),
    {
        let _ = self.compact_statuses.remove(seed);
        if text::same(self.active_seed.as_str(), seed) {
            self.go_home(now);
        }
    }
}

/// A neighbour found in the first sessions is the neighbour.
proof fn neighbour_of_prefix(sessions: Seq<SessionView>, n: int, seed: Seq<char>)
    requires
        0 <= n <= sessions.len(),
        neighbour(sessions.take(n), seed) is Some,
    ensures
        neighbour(sessions, seed) == neighbour(sessions.take(n), seed),
    decreases sessions.len(),
{
    if n < sessions.len() {
        let front = sessions.drop_last();
        assert(front.take(n) =~= sessions.take(n));
        neighbour_of_prefix(front, n, seed);
    } else {
        assert(sessions.take(n) =~= sessions);
    }
}

// ---------------------------------------------------------------------------
// Lists of sessions and workspaces
// ---------------------------------------------------------------------------

/// The seeds of the listed sessions.
pub open spec fn listed_seeds(sessions: Seq<SessionView>) -> Set<Seq<char>> {
    Set::new(
        |seed: Seq<char>|
            exists|i: int| 0 <= i < sessions.len() && (#[trigger] sessions[i]).seed == seed,
    )
}

/// The state after the list of sessions was read. What is known of the
/// compacting of a session that is no longer listed is forgotten.
pub open spec fn with_sessions(
    c: CoreView,
    sessions: Seq<SessionView>,
    activities: Map<Seq<char>, ActivityState>,
    now: u64,
) -> CoreView {
    bridge_core::with_header(
        CoreView {
            sessions,
            activities,
            compact_statuses: c.compact_statuses.restrict(listed_seeds(sessions)),
            session_rev: model::next_rev(c.session_rev),
            ..c
        },
        now,
    )
}

impl BridgeCore {
    /// The seeds of the listed sessions, in order.
    pub fn seed_set(&self) -> (r: Vec<String>)
        ensures
            model::views(r@) == Seq::new(self@.sessions.len(), |i: int| self@.sessions[i].seed),
    {
        seeds_of(&self.sessions)
    }

    /// Takes over the list of sessions and what they are doing.
    pub fn apply_session_list(
        &mut self,
        sessions: Vec<SessionItem>,
        activities: SeedMap<ActivityState>,
        now: u64,
    )
        ensures
            final(self)@ == with_sessions(
                old(self)@,
                model::views(sessions@),
                activities@,
                now,
            ),
    {
        let seeds = seeds_of(&sessions);
        let ghost before = self.compact_statuses@;
        let ghost list = model::views(sessions@);
        self.compact_statuses.retain_keys(&seeds);
        proof {
            let kept = Set::new(|key: Seq<char>| model::views(seeds@).contains(key));
            let wanted = listed_seeds(list);
            assert forall|key: Seq<char>| kept.contains(key) <==> wanted.contains(key) by {
                if kept.contains(key) {
                    let i = choose|i: int|
                        0 <= i < model::views(seeds@).len() && model::views(seeds@)[i] == key;
                    assert(list[i].seed == key);
                }
                if wanted.contains(key) {
                    let i = choose|i: int|
                        0 <= i < list.len() && (#[trigger] list[i]).seed == key;
                    assert(model::views(seeds@)[i] == key);
                }
            }
            assert(kept =~= wanted);
            assert(model::map_views(before.restrict(kept)) =~= model::map_views(before).restrict(
                wanted,
            ));
        }
        self.sessions = sessions;
        self.activities = activities;
        self.session_rev = model::bump(self.session_rev);
        self.refresh_header(now);
    }

    /// Takes over the list of workspaces.
    pub fn apply_workspaces(&mut self, workspaces: Vec<WorkspaceItem>)
        ensures
            final(self)@ == (CoreView {
                workspaces: model::views(workspaces@),
                workspace_rev: model::next_rev(old(self)@.workspace_rev),
                ..old(self)@
            }),
    {
        self.workspaces = workspaces;
        self.workspace_rev = model::bump(self.workspace_rev);
    }
}

/// The seeds of a list of sessions, in order.
fn seeds_of(sessions: &Vec<SessionItem>) -> (r: Vec<String>)
    ensures
        model::views(r@) == Seq::new(
            sessions@.len(),
            |i: int| model::views(sessions@)[i].seed,
        ),
{
    let mut out: Vec<String> = Vec::new();
    let mut i: usize = 0;
    while i < sessions.len()
        invariant
            i <= sessions@.len(),
            out@.len() == i,
            forall|k: int| 0 <= k < i ==> (#[trigger] out@[k])@ == sessions@[k].seed@,
        decreases sessions@.len() - i,
    {
        out.push(sessions[i].seed.clone());
        i = i + 1;
    }
    assert(model::views(out@) =~= Seq::new(
        sessions@.len(),
        |i: int| model::views(sessions@)[i].seed,
    ));
    out
}

// ---------------------------------------------------------------------------
// The chosen workspace
// ---------------------------------------------------------------------------

/// The state after a workspace was chosen, or none.
pub open spec fn with_workspace(c: CoreView, id: Option<Seq<char>>, now: u64) -> CoreView {
    bridge_core::with_header(CoreView { current_workspace: id, ..c }, now)
}

/// A path in the form in which workspaces are compared.
pub open spec fn workspace_key(path: Seq<char>) -> Seq<char> {
    text::without_trailing(text::lowered(text::with_char_replaced(path, '/', '\\')), '\\')
}

/// `workspace_key`, executable.
pub fn workspace_path_key(path: &str) -> (r: String)
    ensures
        r@ == workspace_key(path@),
{
    let slashes = text::replace_char(path, '/', '\\');
    let lower = text::to_lower(slashes.as_str());
    text::trim_end_char(lower.as_str(), '\\')
}

/// The workspace to choose after one was registered: the one that the daemon
/// named, else the first one at that path.
pub open spec fn created_workspace(
    c: CoreView,
    created: Option<Seq<char>>,
    path: Seq<char>,
) -> Option<Seq<char>> {
    match created {
        Some(id) => Some(id),
        None => match store::first_workspace(
            c.workspaces,
            |w: WorkspaceView| workspace_key(w.path) == workspace_key(path),
        ) {
            Some(w) => Some(w.id),
            None => None,
        },
    }
}

/// The state after a workspace was registered.
pub open spec fn after_workspace_create(
    c: CoreView,
    created: Option<Seq<char>>,
    path: Seq<char>,
    now: u64,
) -> CoreView {
    match created_workspace(c, created, path) {
        Some(id) => bridge_core::with_header(with_workspace(c, Some(id), now), now),
        None => bridge_core::with_header(c, now),
    }
}

/// The state after a choice of a workspace succeeded or failed. `path` is in the
/// form in which it is shown.
pub open spec fn with_workspace_feedback(
    c: CoreView,
    path: Option<Seq<char>>,
    error: Option<Seq<char>>,
) -> CoreView {
    CoreView {
        header: HeaderView {
            workspace: match path {
                Some(p) => p,
                None => c.header.workspace,
            },
            workspace_error: match error {
                Some(e) => Some(e),
                None => if path is Some {
                    None
                } else {
                    c.header.workspace_error
                },
            },
            ..c.header
        },
        header_rev: model::next_rev(c.header_rev),
        ..c
    }
}

impl BridgeCore {
    /// Chooses a workspace, or none.
    pub fn set_current_workspace(&mut self, id: Option<String>, now: u64)
        ensures
            final(self)@ == with_workspace(old(self)@, model::opt_view(id), now),
    {
        self.current_workspace = id;
        self.refresh_header(now);
    }

    /// The path of the chosen workspace.
    pub fn current_workspace_path(&self) -> (r: Option<String>)
        ensures
            model::opt_view(r) == (match self@.current_workspace {
                Some(id) => match store::workspace_by_id(self@.workspaces, id) {
                    Some(w) => Some(w.path),
                    None => None,
                },
                None => None,
            }),
    {
        match &self.current_workspace {
            Some(id) => match store::find_workspace(&self.workspaces, id.as_str()) {
                Some(i) => Some(self.workspaces[i].path.clone()),
                None => None,
            },
            None => None,
        }
    }

    /// The first workspace at this path.
    fn workspace_at_path(&self, path: &str) -> (r: Option<String>)
        ensures
            model::opt_view(r) == created_workspace(self@, None, path@),
    {
        let key = workspace_path_key(path);
        let ghost all = self@.workspaces;
        let ghost pick = |w: WorkspaceView| workspace_key(w.path) == workspace_key(path@);
        let mut found: Option<String> = None;
        let mut i: usize = 0;
        assert(all.take(0) =~= Seq::empty());
        while i < self.workspaces.len()
            invariant
                i <= self.workspaces@.len(),
                all == model::views(self.workspaces@),
                key@ == workspace_key(path@),
                pick == (|w: WorkspaceView| workspace_key(w.path) == workspace_key(path@)),
                match (found, store::first_workspace(all.take(i as int), pick)) {
                    (Some(id), Some(w)) => id@ == w.id,
                    (None, None) => true,
                    _ => false,
                },
            decreases self.workspaces@.len() - i,
        {
            assert(all.take(i + 1).drop_last() =~= all.take(i as int));
            assert(all.take(i + 1).last() == self.workspaces@[i as int]@);
            if found.is_none() {
                let other = workspace_path_key(self.workspaces[i].path.as_str());
                if text::same(other.as_str(), key.as_str()) {
                    found = Some(self.workspaces[i].id.clone());
                }
            }
            i = i + 1;
        }
        assert(all.take(all.len() as int) =~= all);
        found
    }

    /// Chooses the workspace that was registered for `path`. `created` is the id
    /// that the daemon named, if it did.
    pub fn spawn_workspace_create(&mut self, created: Option<String>, path: &str, now: u64)
        ensures
            final(self)@ == after_workspace_create(
                old(self)@,
                model::opt_view(created),
                path@,
                now,
            ),
    {
        let id = match created {
            Some(id) => Some(id),
            None => self.workspace_at_path(path),
        };
        if id.is_some() {
            self.set_current_workspace(id, now);
        }
        self.refresh_header(now);
    }

    /// Whether the workspace `id` is the chosen one, so that its deletion leaves
    /// none chosen.
    pub fn is_current_workspace(&self, id: &str) -> (r: bool)
        ensures
            r == (self@.current_workspace == Some(id@)),
    {
        match &self.current_workspace {
            Some(current) => text::same(current.as_str(), id),
            None => false,
        }
    }

    /// Shows that a choice of a workspace succeeded or failed.
    pub fn apply_workspace_feedback(&mut self, path: Option<String>, error: Option<String>)
        ensures
            final(self)@ == with_workspace_feedback(
                old(self)@,
                model::opt_view(path),
                model::opt_view(error),
            ),
    {
        let mut next = self.header.duplicate();
        if let Some(path) = path {
            next.workspace = path;
            next.workspace_error = None;
        }
        if let Some(error) = error {
            next.workspace_error = Some(error);
        }
        self.header = next;
        self.header_rev = model::bump(self.header_rev);
    }

    /// Shows that a workspace could not be chosen.
    pub fn report_workspace_error(&mut self, message: String)
        ensures
            final(self)@ == with_workspace_feedback(old(self)@, None, Some(message@)),
    {
        self.apply_workspace_feedback(None, Some(message));
    }

    /// Forgets how the last attempt to compact `seed` went, before another one.
    pub fn clear_compact_result(&mut self, seed: &str, now: u64)
        ensures
            final(self)@ == bridge_core::with_header(
                CoreView {
                    compact_statuses: old(self)@.compact_statuses.remove(seed@),
                    ..old(self)@
                },
                now,
            ),
    {
        let _ = self.compact_statuses.remove(seed);
        self.refresh_header(now);
    }

    /// Throws a switch of the title bar.
    pub fn toggle_header_flag(&mut self, flag: HeaderFlag)
        ensures
            final(self)@ == (CoreView {
                header: header::flipped(old(self)@.header, flag),
                header_rev: model::next_rev(old(self)@.header_rev),
                ..old(self)@
            }),
    {
        let mut next = self.header.duplicate();
        match flag {
            HeaderFlag::Info => {
                next.info_open = !next.info_open;
            },
            HeaderFlag::Stats => {
                next.stats_open = !next.stats_open;
            },
        }
        self.header = next;
        self.header_rev = model::bump(self.header_rev);
    }
}

} // verus!
