//! What going from session to session does, told by what is seen of it.

use vstd::prelude::*;

use crate::bridge::bridge_core;
use crate::bridge::bridge_core::CoreView;
use crate::bridge::header;
use crate::bridge::header::{HeaderFlag, HeaderView};
use crate::bridge::sessions;
use crate::bridge::sessions::ArchiveStepView;
use crate::bridge::store;
use crate::bridge::store::{ActivityState, DetailView, SessionView, WorkspaceView};
use crate::bridge::transcript::TimelinePage;

verus! {

/// Whether the title bar is the one that bringing it up to date at `now` gives.
pub open spec fn title_bar_is_fresh(c: CoreView, now: u64) -> bool {
    c.header == bridge_core::with_header(c, now).header
}

/// Whether the session at `i` is the first listed one of this name.
pub open spec fn first_of_name(sessions: Seq<SessionView>, i: int, seed: Seq<char>) -> bool {
    &&& 0 <= i < sessions.len()
    &&& sessions[i].seed == seed
    &&& forall|j: int| 0 <= j < i ==> (#[trigger] sessions[j]).seed != seed
}

/// Whether the workspace at `i` is the first listed one with this id.
pub open spec fn first_with_id(list: Seq<WorkspaceView>, i: int, id: Seq<char>) -> bool {
    &&& 0 <= i < list.len()
    &&& list[i].id == id
    &&& forall|j: int| 0 <= j < i ==> (#[trigger] list[j]).id != id
}

/// The first workspace that meets a condition meets it, and none before it does.
proof fn first_workspace_is_first(
    list: Seq<WorkspaceView>,
    pick: spec_fn(WorkspaceView) -> bool,
)
    ensures
        match store::first_workspace(list, pick) {
            Some(w) => exists|i: int|
                0 <= i < list.len() && #[trigger] list[i] == w && pick(w) && forall|j: int|
                    0 <= j < i ==> !pick(#[trigger] list[j]),
            None => forall|i: int| 0 <= i < list.len() ==> !pick(#[trigger] list[i]),
        },
    decreases list.len(),
{
    if list.len() > 0 {
        let front = list.drop_last();
        first_workspace_is_first(front, pick);
        assert forall|i: int| 0 <= i < front.len() implies front[i] == list[i] by {}
        match store::first_workspace(front, pick) {
            Some(w) => {
                let i = choose|i: int|
                    0 <= i < front.len() && #[trigger] front[i] == w && pick(w) && forall|j: int|
                        0 <= j < i ==> !pick(#[trigger] front[j]);
                assert(list[i] == w);
                assert forall|j: int| 0 <= j < i implies !pick(#[trigger] list[j]) by {
                    assert(!pick(front[j]));
                }
            },
            None => {
                let last = list.len() - 1;
                assert(list[last] == list.last());
                assert forall|j: int| 0 <= j < last implies !pick(#[trigger] list[j]) by {
                    assert(!pick(front[j]));
                }
            },
        }
    }
}

/// A workspace that is listed is shown by the path of its first entry, one that
/// is not by nothing.
proof fn workspace_is_shown(c: CoreView, id: Seq<char>)
    ensures
        forall|i: int|
            #[trigger] first_with_id(c.workspaces, i, id) ==> bridge_core::shown_workspace(c, id)
                == c.workspaces[i].shown_path,
        (forall|i: int| 0 <= i < c.workspaces.len() ==> (#[trigger] c.workspaces[i]).id != id)
            ==> bridge_core::shown_workspace(c, id).len() == 0,
{
    let pick = |w: WorkspaceView| w.id == id;
    first_workspace_is_first(c.workspaces, pick);
    match store::first_workspace(c.workspaces, pick) {
        Some(w) => {
            let k = choose|k: int|
                0 <= k < c.workspaces.len() && #[trigger] c.workspaces[k] == w && pick(w)
                    && forall|j: int| 0 <= j < k ==> !pick(#[trigger] c.workspaces[j]);
            assert(c.workspaces[k].id == id);
            assert forall|i: int| #[trigger]
                first_with_id(c.workspaces, i, id) implies c.workspaces[i].shown_path
                == w.shown_path by {
                if i < k {
                    assert(!pick(c.workspaces[i]));
                }
                if k < i {
                    assert(c.workspaces[k].id != id);
                }
            }
        },
        None => {
            assert forall|i: int| #[trigger] first_with_id(c.workspaces, i, id) implies false by {
                assert(!pick(c.workspaces[i]));
            }
        },
    }
}

/// The title bar shows the path of the workspace that was chosen. Without a
/// choice it shows that of the active session: of its workspace if it has one,
/// else its directory. A path that is shown takes an error away. Where no path
/// is known, path and error stay as they were.
pub proof fn title_bar_shows_the_workspace(c: CoreView, now: u64)
    ensures
        ({
            let shown = bridge_core::with_header(c, now).header;
            let path_shown = |path: Seq<char>|
                path.len() > 0 ==> shown.workspace == path && shown.workspace_error is None;
            let nothing_new = shown.workspace == c.header.workspace && shown.workspace_error
                == c.header.workspace_error;
            &&& c.current_workspace matches Some(id) ==> {
                &&& forall|i: int| #[trigger]
                    first_with_id(c.workspaces, i, id) ==> path_shown(c.workspaces[i].shown_path)
                &&& (forall|i: int|
                    0 <= i < c.workspaces.len() ==> (#[trigger] c.workspaces[i]).id != id)
                    ==> nothing_new
            }
            &&& c.current_workspace is None ==> forall|k: int|
                #[trigger] first_of_name(c.sessions, k, c.active_seed) ==> {
                    &&& c.sessions[k].workspace_id matches Some(id) ==> {
                        &&& forall|i: int| #[trigger]
                            first_with_id(c.workspaces, i, id) ==> path_shown(
                                c.workspaces[i].shown_path,
                            )
                        &&& (forall|i: int|
                            0 <= i < c.workspaces.len() ==> (#[trigger] c.workspaces[i]).id != id)
                            ==> nothing_new
                    }
                    &&& c.sessions[k].workspace_id is None ==> match c.sessions[k].shown_cwd {
                        Some(cwd) => path_shown(cwd) && (cwd.len() == 0 ==> nothing_new),
                        None => nothing_new,
                    }
                }
            &&& c.current_workspace is None && (forall|k: int|
                0 <= k < c.sessions.len() ==> (#[trigger] c.sessions[k]).seed != c.active_seed)
                ==> nothing_new
        }),
{
    store::session_at_is_least(c.sessions, c.active_seed);
    match c.current_workspace {
        Some(id) => {
            workspace_is_shown(c, id);
        },
        None => {
            match store::session_at(c.sessions, c.active_seed) {
                Some(i) => {
                    if let Some(id) = c.sessions[i].workspace_id {
                        workspace_is_shown(c, id);
                    }
                    assert(c.sessions[i].seed == c.active_seed);
                    assert forall|k: int| #[trigger]
                        first_of_name(c.sessions, k, c.active_seed) implies k == i by {
                        if i < k {
                            assert(c.sessions[i].seed != c.active_seed);
                        }
                        if k < i {
                            assert(c.sessions[k].seed != c.active_seed);
                        }
                    }
                },
                None => {},
            }
        },
    }
}

/// Activating a session makes it the active one, whatever was active before, and
/// brings the title bar up to date. The view stays, and so does everything that
/// is known of the sessions.
pub proof fn activating_makes_active(c: CoreView, seed: Seq<char>, now: u64)
    ensures
        ({
            let d = bridge_core::activated(c, seed, now);
            &&& d.active_seed == seed
            &&& d.current_view == c.current_view
            &&& title_bar_is_fresh(d, now)
            &&& d.sessions == c.sessions
            &&& d.workspaces == c.workspaces
            &&& d.current_workspace == c.current_workspace
            &&& d.activities == c.activities
            &&& d.composer_activity == c.composer_activity
            &&& d.interactions == c.interactions
            &&& d.timeline == c.timeline
            &&& d.compact_statuses == c.compact_statuses
            &&& d.composer_rev != c.composer_rev
            &&& d.dashboard_rev != c.dashboard_rev
        }),
{
}

/// Navigating shows the view that was asked for. A session that is named becomes
/// the active one; without a name the active one stays.
pub proof fn navigating_shows_the_view(
    c: CoreView,
    view: Seq<char>,
    seed: Option<Seq<char>>,
    now: u64,
)
    ensures
        ({
            let d = bridge_core::navigated(c, view, seed, now);
            &&& d.current_view == view
            &&& seed matches Some(s) ==> d.active_seed == s
            &&& seed is None ==> d.active_seed == c.active_seed && d.interaction == c.interaction
            &&& title_bar_is_fresh(d, now)
            &&& d.header.view == view
            &&& d.sessions == c.sessions
            &&& d.timeline == c.timeline
            &&& d.interactions == c.interactions
        }),
{
}

/// A page of the active session, or of any session while none is active, is
/// kept: the timeline on show is its snapshot, the number of turns is that of
/// the snapshot, and the turn known last is its last one, if it has any. What is
/// known of the other sessions stays. A page without a name belongs to the
/// session whose timeline was activated last.
pub proof fn pages_are_kept(c: CoreView, page: TimelinePage, owner: Seq<char>, now: u64)
    requires
        page.seed@.len() > 0 ==> owner == page.seed@,
        page.seed@.len() == 0 ==> owner == c.timeline.last_timeline_seed,
    ensures
        ({
            let d = sessions::with_snapshot(c, page, now);
            let turns = page.snapshot.turns@;
            &&& c.active_seed.len() > 0 && owner != c.active_seed ==> d == c
                && sessions::page_is_stale(c, page)
            &&& c.active_seed.len() == 0 || owner == c.active_seed ==> {
                &&& !sessions::page_is_stale(c, page)
                &&& d.timeline.chat_timeline == Some((owner, page.snapshot))
                &&& d.timeline.has_more.contains_key(owner)
                &&& d.timeline.has_more[owner] == page.has_more
                &&& d.header_turns.contains_key(owner)
                &&& turns.len() <= usize::MAX ==> d.header_turns[owner] == turns.len()
                &&& turns.len() > 0 ==> d.last_turn_ids.contains_key(owner)
                    && d.last_turn_ids[owner] == turns[turns.len() - 1].turn_id@
                &&& turns.len() == 0 ==> !d.last_turn_ids.contains_key(owner)
                &&& title_bar_is_fresh(d, now)
                &&& forall|other: Seq<char>|
                    #![trigger d.header_turns.contains_key(other)]
                    #![trigger d.last_turn_ids.contains_key(other)]
                    other != owner ==> d.header_turns.contains_key(other)
                        == c.header_turns.contains_key(other) && d.last_turn_ids.contains_key(other)
                        == c.last_turn_ids.contains_key(other)
            }
            &&& d.active_seed == c.active_seed
            &&& d.current_view == c.current_view
        }),
{
}

/// The details of the active session are shown; those of another one are not.
/// How far compacting is, is noted for the session that they are of, whichever
/// it is; a session that says nothing of it is not compacting.
pub proof fn details_are_shown_of_the_active_session(
    c: CoreView,
    seed: Seq<char>,
    detail: DetailView,
    now: u64,
)
    ensures
        ({
            let d = sessions::with_detail(c, seed, detail, now);
            &&& c.active_seed == seed ==> d.info == Some(detail) && d.info_rev != c.info_rev
                && title_bar_is_fresh(d, now)
            &&& c.active_seed != seed ==> d.info == c.info && d.info_rev == c.info_rev && d.header
                == c.header
            &&& detail.compact_status.len() > 0 ==> d.compact_statuses.contains_key(seed)
                && d.compact_statuses[seed] == detail.compact_status
            &&& detail.compact_status.len() == 0 ==> !d.compact_statuses.contains_key(seed)
            &&& forall|other: Seq<char>|
                other != seed ==> (#[trigger] d.compact_statuses.contains_key(other)
                    == c.compact_statuses.contains_key(other))
            &&& d.active_seed == c.active_seed
        }),
{
}

/// A session that was asked for, joined and not overtaken by a later request ends
/// up active and in the chat view, with its timeline the one activated last.
pub proof fn requested_session_is_shown(c: CoreView, seed: Seq<char>, now: u64)
    ensures
        ({
            let asked = sessions::after_resume_request(c, seed, now);
            let number = asked.timeline.resume_generation;
            let joined = sessions::after_joined(asked, seed, number, now);
            let done = sessions::after_resumed(joined, seed, number, now);
            &&& number != c.timeline.resume_generation
            &&& c.active_seed == seed ==> asked.current_view == "chat"@ && asked.active_seed == seed
            &&& c.active_seed != seed ==> asked.current_view == c.current_view && asked.active_seed
                == c.active_seed
            &&& joined.active_seed == seed
            &&& joined.timeline.last_timeline_seed == seed
            &&& joined.timeline.resume_generation == number
            &&& done.active_seed == seed
            &&& done.current_view == "chat"@
            &&& done.session_rev != joined.session_rev
            &&& title_bar_is_fresh(done, now)
        }),
{
}

/// Archiving a session that is not active changes nothing. Archiving the active
/// one leads to the first listed session that is neither it nor archived, and to
/// the start page only where there is none.
pub proof fn archiving_leads_to_the_first_open_session(c: CoreView, seed: Seq<char>)
    ensures
        c.active_seed != seed ==> sessions::archive_step(c, seed) is Stay,
        c.active_seed == seed ==> {
            &&& forall|i: int|
                0 <= i < c.sessions.len() && !(#[trigger] c.sessions[i]).archived
                    && c.sessions[i].seed != seed && (forall|j: int|
                    0 <= j < i ==> (#[trigger] c.sessions[j]).archived || c.sessions[j].seed
                        == seed) ==> sessions::archive_step(c, seed) == (ArchiveStepView::Resume {
                    seed: c.sessions[i].seed,
                })
            &&& (forall|j: int|
                0 <= j < c.sessions.len() ==> (#[trigger] c.sessions[j]).archived
                    || c.sessions[j].seed == seed) ==> sessions::archive_step(c, seed) is Home
        },
{
    assert forall|i: int|
        0 <= i < c.sessions.len() && !(#[trigger] c.sessions[i]).archived && c.sessions[i].seed
            != seed && (forall|j: int|
            0 <= j < i ==> (#[trigger] c.sessions[j]).archived || c.sessions[j].seed
                == seed) implies sessions::neighbour(c.sessions, seed) == Some(
        c.sessions[i].seed,
    ) by {
        neighbour_is_first(c.sessions, seed, i);
    }
    if forall|j: int|
        0 <= j < c.sessions.len() ==> (#[trigger] c.sessions[j]).archived || c.sessions[j].seed
            == seed {
        no_neighbour(c.sessions, seed);
    }
}

/// Where every session is archived or is `seed`, none is found.
proof fn no_neighbour(list: Seq<SessionView>, seed: Seq<char>)
    requires
        forall|j: int|
            0 <= j < list.len() ==> (#[trigger] list[j]).archived || list[j].seed == seed,
    ensures
        sessions::neighbour(list, seed) is None,
    decreases list.len(),
{
    if list.len() > 0 {
        let front = list.drop_last();
        assert forall|j: int| 0 <= j < front.len() implies (#[trigger] front[j]).archived
            || front[j].seed == seed by {
            assert(list[j].archived || list[j].seed == seed);
        }
        no_neighbour(front, seed);
        assert(list[list.len() - 1] == list.last());
    }
}

/// The first session that is neither archived nor `seed` is the one found.
proof fn neighbour_is_first(list: Seq<SessionView>, seed: Seq<char>, i: int)
    requires
        0 <= i < list.len(),
        !list[i].archived,
        list[i].seed != seed,
        forall|j: int| 0 <= j < i ==> (#[trigger] list[j]).archived || list[j].seed == seed,
    ensures
        sessions::neighbour(list, seed) == Some(list[i].seed),
    decreases list.len(),
{
    let front = list.drop_last();
    assert forall|j: int| 0 <= j < i implies (#[trigger] front[j]).archived || front[j].seed
        == seed by {
        assert(list[j].archived || list[j].seed == seed);
    }
    if i < front.len() {
        assert(front[i] == list[i]);
        neighbour_is_first(front, seed, i);
    } else {
        no_neighbour(front, seed);
    }
}

/// Deleting the active session leaves none active and shows the start page;
/// deleting another one changes neither. Nothing is known any more of how far the
/// compacting of the deleted one was.
pub proof fn deleting_the_active_session_leads_home(c: CoreView, seed: Seq<char>, now: u64)
    ensures
        ({
            let d = sessions::after_delete(c, seed, now);
            &&& c.active_seed == seed ==> d.active_seed.len() == 0 && d.current_view == "home"@
                && title_bar_is_fresh(d, now)
            &&& c.active_seed != seed ==> d.active_seed == c.active_seed && d.current_view
                == c.current_view && d.header == c.header
            &&& !d.compact_statuses.contains_key(seed)
            &&& forall|other: Seq<char>|
                other != seed ==> (#[trigger] d.compact_statuses.contains_key(other)
                    == c.compact_statuses.contains_key(other))
        }),
{
}

/// The list of sessions that was read is the one shown, with what they are doing.
/// How far compacting is, stays known of the listed sessions and of no other.
pub proof fn list_of_sessions_is_taken_over(
    c: CoreView,
    list: Seq<SessionView>,
    activities: Map<Seq<char>, ActivityState>,
    seed: Seq<char>,
    now: u64,
)
    ensures
        ({
            let d = sessions::with_sessions(c, list, activities, now);
            let listed = exists|i: int| 0 <= i < list.len() && (#[trigger] list[i]).seed == seed;
            &&& d.sessions == list
            &&& d.activities == activities
            &&& d.session_rev != c.session_rev
            &&& d.compact_statuses.contains_key(seed) <==> c.compact_statuses.contains_key(seed)
                && listed
            &&& d.compact_statuses.contains_key(seed) ==> d.compact_statuses[seed]
                == c.compact_statuses[seed]
            &&& d.active_seed == c.active_seed
            &&& title_bar_is_fresh(d, now)
        }),
{
}

/// Choosing a workspace chooses it and nothing else. After one was registered,
/// the one that the daemon named is chosen. Where it named none, the first listed
/// one at that path is, and where none is listed at it, the choice stays.
pub proof fn registered_workspace_is_chosen(
    c: CoreView,
    created: Option<Seq<char>>,
    path: Seq<char>,
    now: u64,
)
    ensures
        ({
            let d = sessions::after_workspace_create(c, created, path, now);
            let there = |i: int|
                sessions::workspace_key(c.workspaces[i].path) == sessions::workspace_key(path);
            &&& forall|id: Option<Seq<char>>| #[trigger]
                sessions::with_workspace(c, id, now).current_workspace == id
            &&& created matches Some(id) ==> d.current_workspace == Some(id)
            &&& created is None ==> forall|i: int|
                0 <= i < c.workspaces.len() && #[trigger] there(i) && (forall|j: int|
                    0 <= j < i ==> !#[trigger] there(j)) ==> d.current_workspace == Some(
                    c.workspaces[i].id,
                )
            &&& created is None && (forall|j: int|
                0 <= j < c.workspaces.len() ==> !#[trigger] there(j)) ==> d.current_workspace
                == c.current_workspace
            &&& d.workspaces == c.workspaces
            &&& d.active_seed == c.active_seed
            &&& title_bar_is_fresh(d, now)
        }),
{
    let pick = |w: WorkspaceView| sessions::workspace_key(w.path) == sessions::workspace_key(path);
    let there = |i: int|
        sessions::workspace_key(c.workspaces[i].path) == sessions::workspace_key(path);
    first_workspace_is_first(c.workspaces, pick);
    assert(forall|i: int| #[trigger] there(i) == pick(c.workspaces[i]));
    if created is None {
        match store::first_workspace(c.workspaces, pick) {
            Some(w) => {
                let k = choose|k: int|
                    0 <= k < c.workspaces.len() && #[trigger] c.workspaces[k] == w && pick(w)
                        && forall|j: int| 0 <= j < k ==> !pick(#[trigger] c.workspaces[j]);
                assert(there(k));
                assert forall|i: int|
                    0 <= i < c.workspaces.len() && #[trigger] there(i) && (forall|j: int|
                        0 <= j < i ==> !#[trigger] there(j)) implies i == k by {
                    if i < k {
                        assert(!pick(c.workspaces[i]));
                    }
                    if k < i {
                        assert(!there(k));
                    }
                }
            },
            None => {
                assert forall|i: int| 0 <= i < c.workspaces.len() implies !#[trigger] there(i) by {
                    assert(!pick(c.workspaces[i]));
                }
            },
        }
    }
}

/// A path that was chosen is shown and takes the error away; an error is shown
/// and leaves the path.
pub proof fn feedback_shows_path_or_error(c: CoreView, text: Seq<char>)
    ensures
        ({
            let chosen = sessions::with_workspace_feedback(c, Some(text), None);
            let failed = sessions::with_workspace_feedback(c, None, Some(text));
            &&& chosen.header.workspace == text
            &&& chosen.header.workspace_error is None
            &&& failed.header.workspace == c.header.workspace
            &&& failed.header.workspace_error == Some(text)
            &&& chosen.header_rev != c.header_rev
            &&& failed.header_rev != c.header_rev
            &&& chosen.current_workspace == c.current_workspace
            &&& failed.current_workspace == c.current_workspace
        }),
{
}

/// A switch of the title bar changes itself and not the other one.
pub proof fn switches_change_themselves(h: HeaderView)
    ensures
        header::flipped(h, HeaderFlag::Info).info_open != h.info_open,
        header::flipped(h, HeaderFlag::Info).stats_open == h.stats_open,
        header::flipped(h, HeaderFlag::Stats).stats_open != h.stats_open,
        header::flipped(h, HeaderFlag::Stats).info_open == h.info_open,
{
}

} // verus!
