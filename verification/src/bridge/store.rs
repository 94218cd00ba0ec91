//! The values that the shell's views show: sessions, workspaces, dashboards,
//! usage and settings.

use vstd::prelude::*;

use crate::model;
use crate::model::Duplicate;
use crate::text;

verus! {

/// What a session is doing, as the daemon reports it.
#[derive(Debug, Clone, Copy, PartialEq, Eq, Structural)]
pub enum ActivityState {
    Idle,
    Starting,
    Working,
    WaitingUser,
    Closed,
}

/// Whether a session in this state has a turn running.
pub open spec fn busy(state: ActivityState) -> bool {
    state == ActivityState::Starting || state == ActivityState::Working || state
        == ActivityState::WaitingUser
}

/// `busy`, executable.
pub fn is_busy(state: ActivityState) -> (r: bool)
    ensures
        r == busy(state),
{
    state == ActivityState::Starting || state == ActivityState::Working || state
        == ActivityState::WaitingUser
}

/// One session of the sidebar.
#[derive(Debug)]
pub struct SessionItem {
    pub seed: String,
    pub title: String,
    pub state: ActivityState,
    pub archived: bool,
    pub workspace_id: Option<String>,
    /// The directory the session works in.
    pub cwd: Option<String>,
    /// That directory in the form in which it is shown.
    pub shown_cwd: Option<String>,
}

/// The model of a `SessionItem`.
#[verifier::ext_equal]
pub struct SessionView {
    pub seed: Seq<char>,
    pub title: Seq<char>,
    pub state: ActivityState,
    pub archived: bool,
    pub workspace_id: Option<Seq<char>>,
    pub cwd: Option<Seq<char>>,
    pub shown_cwd: Option<Seq<char>>,
}

impl View for SessionItem {
    type V = SessionView;

    open spec fn view(&self) -> SessionView {
        SessionView {
            seed: self.seed@,
            title: self.title@,
            state: self.state,
            archived: self.archived,
            workspace_id: model::opt_view(self.workspace_id),
            cwd: model::opt_view(self.cwd),
            shown_cwd: model::opt_view(self.shown_cwd),
        }
    }
}

impl Duplicate for SessionItem {
    fn duplicate(&self) -> (r: SessionItem) {
        SessionItem {
            seed: self.seed.clone(),
            title: self.title.clone(),
            state: self.state,
            archived: self.archived,
            workspace_id: model::duplicate_opt(&self.workspace_id),
            cwd: model::duplicate_opt(&self.cwd),
            shown_cwd: model::duplicate_opt(&self.shown_cwd),
        }
    }
}

/// Where the first session with this seed stands.
pub open spec fn session_at(sessions: Seq<SessionView>, seed: Seq<char>) -> Option<int>
    decreases sessions.len(),
{
    if sessions.len() == 0 {
        None
    } else {
        match session_at(sessions.drop_last(), seed) {
            Some(i) => Some(i),
            None => if sessions.last().seed == seed {
                Some(sessions.len() - 1)
            } else {
                None
            },
        }
    }
}

/// `session_at` is the least position of the seed.
pub proof fn session_at_is_least(sessions: Seq<SessionView>, seed: Seq<char>)
    ensures
        match session_at(sessions, seed) {
            Some(i) => 0 <= i < sessions.len() && sessions[i].seed == seed && forall|j: int|
                0 <= j < i ==> (#[trigger] sessions[j]).seed != seed,
            None => forall|j: int|
                0 <= j < sessions.len() ==> (#[trigger] sessions[j]).seed != seed,
        },
    decreases sessions.len(),
{
    if sessions.len() > 0 {
        let front = sessions.drop_last();
        session_at_is_least(front, seed);
        assert forall|j: int| 0 <= j < front.len() implies front[j] == sessions[j] by {}
        match session_at(front, seed) {
            Some(i) => {
                assert forall|j: int| 0 <= j < i implies (#[trigger] sessions[j]).seed != seed by {
                    assert(front[j].seed != seed);
                }
            },
            None => {
                assert forall|j: int| 0 <= j < front.len() implies (#[trigger] sessions[j]).seed
                    != seed by {
                    assert(front[j].seed != seed);
                }
            },
        }
    }
}

/// Where the first session with this seed stands.
pub fn find_session(sessions: &Vec<SessionItem>, seed: &str) -> (r: Option<usize>)
    ensures
        match (r, session_at(model::views(sessions@), seed@)) {
            (Some(i), Some(j)) => i == j && i < sessions@.len(),
            (None, None) => true,
            _ => false,
        },
{
    let ghost all = model::views(sessions@);
    proof {
        session_at_is_least(all, seed@);
    }
    let mut i: usize = 0;
    while i < sessions.len()
        invariant
            i <= sessions@.len(),
            all == model::views(sessions@),
            forall|j: int| 0 <= j < i ==> (#[trigger] all[j]).seed != seed@,
            match session_at(all, seed@) {
                Some(i) => 0 <= i < all.len() && all[i].seed == seed@ && forall|j: int|
                    0 <= j < i ==> (#[trigger] all[j]).seed != seed@,
                None => forall|j: int| 0 <= j < all.len() ==> (#[trigger] all[j]).seed != seed@,
            },
        decreases sessions@.len() - i,
    {
        if text::same(sessions[i].seed.as_str(), seed) {
            assert(all[i as int].seed == seed@);
            return Some(i);
        }
        assert(all[i as int].seed != seed@);
        i = i + 1;
    }
    None
}

/// One registered workspace.
#[derive(Debug)]
pub struct WorkspaceItem {
    pub id: String,
    pub title: String,
    pub path: String,
    /// The path in the form in which it is shown.
    pub shown_path: String,
}

/// The model of a `WorkspaceItem`.
#[verifier::ext_equal]
pub struct WorkspaceView {
    pub id: Seq<char>,
    pub title: Seq<char>,
    pub path: Seq<char>,
    pub shown_path: Seq<char>,
}

impl View for WorkspaceItem {
    type V = WorkspaceView;

    open spec fn view(&self) -> WorkspaceView {
        WorkspaceView {
            id: self.id@,
            title: self.title@,
            path: self.path@,
            shown_path: self.shown_path@,
        }
    }
}

impl Duplicate for WorkspaceItem {
    fn duplicate(&self) -> (r: WorkspaceItem) {
        WorkspaceItem {
            id: self.id.clone(),
            title: self.title.clone(),
            path: self.path.clone(),
            shown_path: self.shown_path.clone(),
        }
    }
}

/// The first workspace that satisfies `pick`.
pub open spec fn first_workspace(
    list: Seq<WorkspaceView>,
    pick: spec_fn(WorkspaceView) -> bool,
) -> Option<WorkspaceView>
    decreases list.len(),
{
    if list.len() == 0 {
        None
    } else {
        match first_workspace(list.drop_last(), pick) {
            Some(w) => Some(w),
            None => if pick(list.last()) {
                Some(list.last())
            } else {
                None
            },
        }
    }
}

/// The first workspace with this id.
pub open spec fn workspace_by_id(list: Seq<WorkspaceView>, id: Seq<char>) -> Option<WorkspaceView> {
    first_workspace(list, |w: WorkspaceView| w.id == id)
}

/// The workspace with this id.
pub fn find_workspace(list: &Vec<WorkspaceItem>, id: &str) -> (r: Option<usize>)
    ensures
        match (r, workspace_by_id(model::views(list@), id@)) {
            (Some(i), Some(w)) => i < list@.len() && list@[i as int]@ == w,
            (None, None) => true,
            _ => false,
        },
{
    let ghost all = model::views(list@);
    let ghost pick = |w: WorkspaceView| w.id == id@;
    let mut found: Option<usize> = None;
    let mut i: usize = 0;
    while i < list.len()
        invariant
            i <= list@.len(),
            all == model::views(list@),
            pick == (|w: WorkspaceView| w.id == id@),
            match (found, first_workspace(all.take(i as int), pick)) {
                (Some(k), Some(w)) => k < i && list@[k as int]@ == w,
                (None, None) => true,
                _ => false,
            },
        decreases list@.len() - i,
    {
        assert(all.take(i + 1).drop_last() =~= all.take(i as int));
        assert(all.take(i + 1).last() == list@[i as int]@);
        if found.is_none() && text::same(list[i].id.as_str(), id) {
            found = Some(i);
        }
        i = i + 1;
    }
    assert(all.take(all.len() as int) =~= all);
    found
}

/// One task of a dashboard.
#[derive(Debug)]
pub struct DashboardTask {
    pub id: String,
    pub subject: String,
    pub description: String,
    pub status: String,
    pub evidence: Option<String>,
}

/// The model of a `DashboardTask`.
#[verifier::ext_equal]
pub struct TaskView {
    pub id: Seq<char>,
    pub subject: Seq<char>,
    pub description: Seq<char>,
    pub status: Seq<char>,
    pub evidence: Option<Seq<char>>,
}

impl View for DashboardTask {
    type V = TaskView;

    open spec fn view(&self) -> TaskView {
        TaskView {
            id: self.id@,
            subject: self.subject@,
            description: self.description@,
            status: self.status@,
            evidence: model::opt_view(self.evidence),
        }
    }
}

impl Duplicate for DashboardTask {
    fn duplicate(&self) -> (r: DashboardTask) {
        DashboardTask {
            id: self.id.clone(),
            subject: self.subject.clone(),
            description: self.description.clone(),
            status: self.status.clone(),
            evidence: model::duplicate_opt(&self.evidence),
        }
    }
}

/// The dashboard of one session.
#[derive(Debug)]
pub struct DashboardSnapshot {
    pub seed: String,
    pub tasks: Vec<DashboardTask>,
    pub recent_edits: Vec<String>,
    pub current_todo_id: Option<String>,
}

/// The model of a `DashboardSnapshot`.
#[verifier::ext_equal]
pub struct DashboardView {
    pub seed: Seq<char>,
    pub tasks: Seq<TaskView>,
    pub recent_edits: Seq<Seq<char>>,
    pub current_todo_id: Option<Seq<char>>,
}

impl View for DashboardSnapshot {
    type V = DashboardView;

    open spec fn view(&self) -> DashboardView {
        DashboardView {
            seed: self.seed@,
            tasks: model::views(self.tasks@),
            recent_edits: model::views(self.recent_edits@),
            current_todo_id: model::opt_view(self.current_todo_id),
        }
    }
}

impl Duplicate for DashboardSnapshot {
    fn duplicate(&self) -> (r: DashboardSnapshot) {
        DashboardSnapshot {
            seed: self.seed.clone(),
            tasks: model::duplicate_all(&self.tasks),
            recent_edits: model::duplicate_all(&self.recent_edits),
            current_todo_id: model::duplicate_opt(&self.current_todo_id),
        }
    }
}

/// What is cached of a session's skills.
#[derive(Debug)]
pub struct SkillsSnapshot {
    pub seed: String,
    pub operation_revision: u64,
}

/// The model of a `SkillsSnapshot`.
#[verifier::ext_equal]
pub struct SkillsView {
    pub seed: Seq<char>,
    pub operation_revision: u64,
}

impl View for SkillsSnapshot {
    type V = SkillsView;

    open spec fn view(&self) -> SkillsView {
        SkillsView { seed: self.seed@, operation_revision: self.operation_revision }
    }
}

impl Duplicate for SkillsSnapshot {
    fn duplicate(&self) -> (r: SkillsSnapshot) {
        SkillsSnapshot { seed: self.seed.clone(), operation_revision: self.operation_revision }
    }
}

/// Token counts that the provider reported.
#[derive(Debug, Clone, Copy, PartialEq, Eq, Structural)]
pub struct UsageInfo {
    pub prompt_tokens: u64,
    pub completion_tokens: u64,
    pub reasoning_tokens: u64,
    pub total_tokens: u64,
    pub prompt_cache_hit_tokens: u64,
    pub prompt_cache_miss_tokens: u64,
    pub cache_usage_reported: bool,
}

/// No tokens.
pub open spec fn no_usage() -> UsageInfo {
    UsageInfo {
        prompt_tokens: 0,
        completion_tokens: 0,
        reasoning_tokens: 0,
        total_tokens: 0,
        prompt_cache_hit_tokens: 0,
        prompt_cache_miss_tokens: 0,
        cache_usage_reported: false,
    }
}

/// What the info panel shows of a session.
#[derive(Debug)]
pub struct SessionDetail {
    pub usage: UsageInfo,
    pub context_limit: u64,
    pub model: String,
    /// running, completed, failed or empty.
    pub compact_status: String,
}

/// The model of a `SessionDetail`.
#[verifier::ext_equal]
pub struct DetailView {
    pub usage: UsageInfo,
    pub context_limit: u64,
    pub model: Seq<char>,
    pub compact_status: Seq<char>,
}

impl View for SessionDetail {
    type V = DetailView;

    open spec fn view(&self) -> DetailView {
        DetailView {
            usage: self.usage,
            context_limit: self.context_limit,
            model: self.model@,
            compact_status: self.compact_status@,
        }
    }
}

impl Duplicate for SessionDetail {
    fn duplicate(&self) -> (r: SessionDetail) {
        SessionDetail {
            usage: self.usage,
            context_limit: self.context_limit,
            model: self.model.clone(),
            compact_status: self.compact_status.clone(),
        }
    }
}

/// A session of which nothing is known.
pub open spec fn no_detail() -> DetailView {
    DetailView {
        usage: no_usage(),
        context_limit: 0,
        model: Seq::empty(),
        compact_status: Seq::empty(),
    }
}

impl Default for SessionDetail {
    fn default() -> (r: SessionDetail)
        ensures
            r@ == no_detail(),
    {
        SessionDetail {
            usage: UsageInfo {
                prompt_tokens: 0,
                completion_tokens: 0,
                reasoning_tokens: 0,
                total_tokens: 0,
                prompt_cache_hit_tokens: 0,
                prompt_cache_miss_tokens: 0,
                cache_usage_reported: false,
            },
            context_limit: 0,
            model: String::new(),
            compact_status: String::new(),
        }
    }
}

} // verus!
