//! What the user is asked to decide, session by session.
//!
//! A session's queue holds the permission requests of its tools and at most one
//! question form or plan review. Permission requests come before both.

use vstd::prelude::*;

use crate::json::{Json, JsonView};
use crate::model;
use crate::model::{Duplicate, Same};
use crate::text;

verus! {

/// One question of an `ask_user` form.
#[derive(Debug)]
pub struct AskQuestion {
    pub id: String,
    pub question: String,
    pub options: Vec<String>,
    pub allow_custom: bool,
}

/// The model of an `AskQuestion`.
#[verifier::ext_equal]
pub struct AskQuestionView {
    pub id: Seq<char>,
    pub question: Seq<char>,
    pub options: Seq<Seq<char>>,
    pub allow_custom: bool,
}

impl View for AskQuestion {
    type V = AskQuestionView;

    open spec fn view(&self) -> AskQuestionView {
        AskQuestionView {
            id: self.id@,
            question: self.question@,
            options: model::views(self.options@),
            allow_custom: self.allow_custom,
        }
    }
}

impl Duplicate for AskQuestion {
    fn duplicate(&self) -> (r: AskQuestion) {
        AskQuestion {
            id: self.id.clone(),
            question: self.question.clone(),
            options: model::duplicate_all(&self.options),
            allow_custom: self.allow_custom,
        }
    }
}

impl Same for AskQuestion {
    fn same_as(&self, other: &AskQuestion) -> (r: bool) {
        self.id.same_as(&other.id) && self.question.same_as(&other.question) && model::same_all(
            &self.options,
            &other.options,
        ) && self.allow_custom == other.allow_custom
    }
}

/// One task of a plan review.
#[derive(Debug)]
pub struct PlanTodoItem {
    pub id: String,
    pub title: String,
    pub description: String,
    /// small, medium or large.
    pub complexity: String,
}

/// The model of a `PlanTodoItem`.
#[verifier::ext_equal]
pub struct PlanTodoItemView {
    pub id: Seq<char>,
    pub title: Seq<char>,
    pub description: Seq<char>,
    pub complexity: Seq<char>,
}

impl View for PlanTodoItem {
    type V = PlanTodoItemView;

    open spec fn view(&self) -> PlanTodoItemView {
        PlanTodoItemView {
            id: self.id@,
            title: self.title@,
            description: self.description@,
            complexity: self.complexity@,
        }
    }
}

impl Duplicate for PlanTodoItem {
    fn duplicate(&self) -> (r: PlanTodoItem) {
        PlanTodoItem {
            id: self.id.clone(),
            title: self.title.clone(),
            description: self.description.clone(),
            complexity: self.complexity.clone(),
        }
    }
}

impl Same for PlanTodoItem {
    fn same_as(&self, other: &PlanTodoItem) -> (r: bool) {
        self.id.same_as(&other.id) && self.title.same_as(&other.title)
            && self.description.same_as(&other.description) && self.complexity.same_as(
            &other.complexity,
        )
    }
}

/// One answer of an `ask_user` form.
#[derive(Debug)]
pub struct AskAnswer {
    pub question_id: String,
    pub answer: String,
}

/// The model of an `AskAnswer`.
#[verifier::ext_equal]
pub struct AskAnswerView {
    pub question_id: Seq<char>,
    pub answer: Seq<char>,
}

impl View for AskAnswer {
    type V = AskAnswerView;

    open spec fn view(&self) -> AskAnswerView {
        AskAnswerView { question_id: self.question_id@, answer: self.answer@ }
    }
}

/// The interaction that the shell shows. An empty `kind` means none.
#[derive(Debug)]
pub struct InteractionState {
    /// permission, ask, plan or empty.
    pub kind: String,
    pub id: String,
    pub seed: String,
    pub tool_name: String,
    pub reason: String,
    pub paths: Vec<String>,
    pub category: String,
    pub level: u64,
    /// low, medium or high.
    pub risk: String,
    pub consequence: String,
    pub questions: Vec<AskQuestion>,
    pub plan_content: String,
    pub review_type: String,
    pub todo_items: Vec<PlanTodoItem>,
}

/// The model of an `InteractionState`.
#[verifier::ext_equal]
pub struct InteractionStateView {
    pub kind: Seq<char>,
    pub id: Seq<char>,
    pub seed: Seq<char>,
    pub tool_name: Seq<char>,
    pub reason: Seq<char>,
    pub paths: Seq<Seq<char>>,
    pub category: Seq<char>,
    pub level: u64,
    pub risk: Seq<char>,
    pub consequence: Seq<char>,
    pub questions: Seq<AskQuestionView>,
    pub plan_content: Seq<char>,
    pub review_type: Seq<char>,
    pub todo_items: Seq<PlanTodoItemView>,
}

/// No interaction.
pub open spec fn no_interaction() -> InteractionStateView {
    InteractionStateView {
        kind: Seq::empty(),
        id: Seq::empty(),
        seed: Seq::empty(),
        tool_name: Seq::empty(),
        reason: Seq::empty(),
        paths: Seq::empty(),
        category: Seq::empty(),
        level: 0,
        risk: Seq::empty(),
        consequence: Seq::empty(),
        questions: Seq::empty(),
        plan_content: Seq::empty(),
        review_type: Seq::empty(),
        todo_items: Seq::empty(),
    }
}

impl View for InteractionState {
    type V = InteractionStateView;

    open spec fn view(&self) -> InteractionStateView {
        InteractionStateView {
            kind: self.kind@,
            id: self.id@,
            seed: self.seed@,
            tool_name: self.tool_name@,
            reason: self.reason@,
            paths: model::views(self.paths@),
            category: self.category@,
            level: self.level,
            risk: self.risk@,
            consequence: self.consequence@,
            questions: model::views(self.questions@),
            plan_content: self.plan_content@,
            review_type: self.review_type@,
            todo_items: model::views(self.todo_items@),
        }
    }
}

impl Default for InteractionState {
    fn default() -> (r: InteractionState)
        ensures
            r@ == no_interaction(),
    {
        let r = InteractionState {
            kind: String::new(),
            id: String::new(),
            seed: String::new(),
            tool_name: String::new(),
            reason: String::new(),
            paths: Vec::new(),
            category: String::new(),
            level: 0,
            risk: String::new(),
            consequence: String::new(),
            questions: Vec::new(),
            plan_content: String::new(),
            review_type: String::new(),
            todo_items: Vec::new(),
        };
        assert(r@ =~= no_interaction());
        r
    }
}

impl Duplicate for InteractionState {
    fn duplicate(&self) -> (r: InteractionState) {
        InteractionState {
            kind: self.kind.clone(),
            id: self.id.clone(),
            seed: self.seed.clone(),
            tool_name: self.tool_name.clone(),
            reason: self.reason.clone(),
            paths: model::duplicate_all(&self.paths),
            category: self.category.clone(),
            level: self.level,
            risk: self.risk.clone(),
            consequence: self.consequence.clone(),
            questions: model::duplicate_all(&self.questions),
            plan_content: self.plan_content.clone(),
            review_type: self.review_type.clone(),
            todo_items: model::duplicate_all(&self.todo_items),
        }
    }
}

impl Same for InteractionState {
    fn same_as(&self, other: &InteractionState) -> (r: bool) {
        self.kind.same_as(&other.kind) && self.id.same_as(&other.id) && self.seed.same_as(
            &other.seed,
        ) && self.tool_name.same_as(&other.tool_name) && self.reason.same_as(&other.reason)
            && model::same_all(&self.paths, &other.paths) && self.category.same_as(&other.category)
            && self.level == other.level && self.risk.same_as(&other.risk)
            && self.consequence.same_as(&other.consequence) && model::same_all(
            &self.questions,
            &other.questions,
        ) && self.plan_content.same_as(&other.plan_content) && self.review_type.same_as(
            &other.review_type,
        ) && model::same_all(&self.todo_items, &other.todo_items)
    }
}

/// A permission request that waits for an answer.
#[derive(Debug)]
pub struct PendingPermission {
    pub tool_call_id: String,
    pub tool_name: String,
    pub reason: String,
    pub paths: Vec<String>,
    pub category: String,
    pub level: u64,
    pub risk: String,
    pub consequence: String,
}

/// The model of a `PendingPermission`.
#[verifier::ext_equal]
pub struct PermissionView {
    pub tool_call_id: Seq<char>,
    pub tool_name: Seq<char>,
    pub reason: Seq<char>,
    pub paths: Seq<Seq<char>>,
    pub category: Seq<char>,
    pub level: u64,
    pub risk: Seq<char>,
    pub consequence: Seq<char>,
}

impl View for PendingPermission {
    type V = PermissionView;

    open spec fn view(&self) -> PermissionView {
        PermissionView {
            tool_call_id: self.tool_call_id@,
            tool_name: self.tool_name@,
            reason: self.reason@,
            paths: model::views(self.paths@),
            category: self.category@,
            level: self.level,
            risk: self.risk@,
            consequence: self.consequence@,
        }
    }
}

/// The question form or plan review that is open.
#[derive(Debug)]
pub enum ActiveAskPlan {
    Ask { id: String, questions: Vec<AskQuestion> },
    Plan {
        id: String,
        plan_content: String,
        review_type: String,
        todo_items: Vec<PlanTodoItem>,
    },
}

/// The model of an `ActiveAskPlan`.
#[verifier::ext_equal]
pub enum ActiveView {
    Ask { id: Seq<char>, questions: Seq<AskQuestionView> },
    Plan {
        id: Seq<char>,
        plan_content: Seq<char>,
        review_type: Seq<char>,
        todo_items: Seq<PlanTodoItemView>,
    },
}

impl View for ActiveAskPlan {
    type V = ActiveView;

    open spec fn view(&self) -> ActiveView {
        match self {
            ActiveAskPlan::Ask { id, questions } => ActiveView::Ask {
                id: id@,
                questions: model::views(questions@),
            },
            ActiveAskPlan::Plan { id, plan_content, review_type, todo_items } => ActiveView::Plan {
                id: id@,
                plan_content: plan_content@,
                review_type: review_type@,
                todo_items: model::views(todo_items@),
            },
        }
    }
}

/// An event of the control channel that concerns a form or a review.
#[derive(Debug)]
pub enum InteractionEvent {
    AskRequested { id: String, questions: Vec<AskQuestion> },
    AskResolved { id: String },
    PlanRequested {
        id: String,
        plan_content: String,
        review_type: String,
        todo_items: Vec<PlanTodoItem>,
    },
    PlanResolved { id: String },
    /// The daemon no longer knows the open form or review.
    GhostCleanup,
}

/// The model of an `InteractionEvent`.
#[verifier::ext_equal]
pub enum InteractionEventView {
    AskRequested { id: Seq<char>, questions: Seq<AskQuestionView> },
    AskResolved { id: Seq<char> },
    PlanRequested {
        id: Seq<char>,
        plan_content: Seq<char>,
        review_type: Seq<char>,
        todo_items: Seq<PlanTodoItemView>,
    },
    PlanResolved { id: Seq<char> },
    GhostCleanup,
}

impl View for InteractionEvent {
    type V = InteractionEventView;

    open spec fn view(&self) -> InteractionEventView {
        match self {
            InteractionEvent::AskRequested { id, questions } => InteractionEventView::AskRequested {
                id: id@,
                questions: model::views(questions@),
            },
            InteractionEvent::AskResolved { id } => InteractionEventView::AskResolved { id: id@ },
            InteractionEvent::PlanRequested {
                id,
                plan_content,
                review_type,
                todo_items,
            } => InteractionEventView::PlanRequested {
                id: id@,
                plan_content: plan_content@,
                review_type: review_type@,
                todo_items: model::views(todo_items@),
            },
            InteractionEvent::PlanResolved { id } => InteractionEventView::PlanResolved { id: id@ },
            InteractionEvent::GhostCleanup => InteractionEventView::GhostCleanup,
        }
    }
}

/// An event of the tool channel that concerns a permission request.
#[derive(Debug)]
pub enum ToolPermissionEvent {
    Requested {
        tool_call_id: String,
        tool_name: String,
        reason: String,
        paths: Vec<String>,
        category: String,
        level: u64,
        risk: String,
        consequence: String,
    },
    /// The tool call ended, so its request was answered.
    Resolved { tool_call_id: String },
}

/// The model of a `ToolPermissionEvent`.
#[verifier::ext_equal]
pub enum ToolPermissionEventView {
    Requested(PermissionView),
    Resolved { tool_call_id: Seq<char> },
}

impl View for ToolPermissionEvent {
    type V = ToolPermissionEventView;

    open spec fn view(&self) -> ToolPermissionEventView {
        match self {
            ToolPermissionEvent::Requested {
                tool_call_id,
                tool_name,
                reason,
                paths,
                category,
                level,
                risk,
                consequence,
            } => ToolPermissionEventView::Requested(
                PermissionView {
                    tool_call_id: tool_call_id@,
                    tool_name: tool_name@,
                    reason: reason@,
                    paths: model::views(paths@),
                    category: category@,
                    level: *level,
                    risk: risk@,
                    consequence: consequence@,
                },
            ),
            ToolPermissionEvent::Resolved { tool_call_id } => ToolPermissionEventView::Resolved {
                tool_call_id: tool_call_id@,
            },
        }
    }
}

/// The interaction queue of one session.
#[derive(Debug)]
pub struct InteractionMachine {
    pub pending_permissions: Vec<PendingPermission>,
    pub active_ask_plan: Option<ActiveAskPlan>,
}

/// The model of an `InteractionMachine`.
#[verifier::ext_equal]
pub struct MachineView {
    pub pending: Seq<PermissionView>,
    pub active: Option<ActiveView>,
}

/// The queue with nothing in it.
pub open spec fn idle_machine() -> MachineView {
    MachineView { pending: Seq::empty(), active: None }
}

impl View for InteractionMachine {
    type V = MachineView;

    open spec fn view(&self) -> MachineView {
        MachineView {
            pending: model::views(self.pending_permissions@),
            active: model::opt_view(self.active_ask_plan),
        }
    }
}

/// What an event of the control channel makes of a queue. A new form or review
/// takes the place of the open one; it is closed by an event with its own id, or
/// when the daemon no longer knows it.
pub open spec fn after_event(m: MachineView, ev: InteractionEventView) -> MachineView {
    let active = match ev {
        InteractionEventView::AskRequested { id, questions } => Some(
            ActiveView::Ask { id, questions },
        ),
        InteractionEventView::PlanRequested { id, plan_content, review_type, todo_items } => Some(
            ActiveView::Plan { id, plan_content, review_type, todo_items },
        ),
        InteractionEventView::AskResolved { id } => match m.active {
            Some(ActiveView::Ask { id: open, questions: _ }) => if open == id {
                None
            } else {
                m.active
            },
            _ => m.active,
        },
        InteractionEventView::PlanResolved { id } => match m.active {
            Some(
                ActiveView::Plan { id: open, plan_content: _, review_type: _, todo_items: _ },
            ) => if open == id {
                None
            } else {
                m.active
            },
            _ => m.active,
        },
        InteractionEventView::GhostCleanup => None,
    };
    MachineView { pending: m.pending, active }
}

/// The requests of other tool calls than `id`.
pub open spec fn without_call(
    pending: Seq<PermissionView>,
    id: Seq<char>,
) -> Seq<PermissionView> {
    pending.filter(|p: PermissionView| p.tool_call_id != id)
}

/// What an event of the tool channel makes of a queue. A request joins at the
/// end, in place of an earlier one of the same tool call.
pub open spec fn after_tool_event(m: MachineView, ev: ToolPermissionEventView) -> MachineView {
    let pending = match ev {
        ToolPermissionEventView::Requested(p) => without_call(m.pending, p.tool_call_id).push(p),
        ToolPermissionEventView::Resolved { tool_call_id } => without_call(
            m.pending,
            tool_call_id,
        ),
    };
    MachineView { pending, active: m.active }
}

/// The interaction that a queue shows: its oldest permission request, else the
/// open form or review, else none.
pub open spec fn shown(m: MachineView, seed: Seq<char>) -> InteractionStateView {
    if m.pending.len() > 0 {
        let p = m.pending[0];
        InteractionStateView {
            kind: "permission"@,
            id: p.tool_call_id,
            seed,
            tool_name: p.tool_name,
            reason: p.reason,
            paths: p.paths,
            category: p.category,
            level: p.level,
            risk: p.risk,
            consequence: p.consequence,
            ..no_interaction()
        }
    } else {
        match m.active {
            Some(ActiveView::Plan { id, plan_content, review_type, todo_items }) => {
                InteractionStateView {
                    kind: "plan"@,
                    id,
                    seed,
                    plan_content,
                    review_type,
                    todo_items,
                    ..no_interaction()
                }
            },
            Some(ActiveView::Ask { id, questions }) => {
                InteractionStateView { kind: "ask"@, id, seed, questions, ..no_interaction() }
            },
            None => no_interaction(),
        }
    }
}

/// Whether a queue waits for the user.
pub open spec fn pending(m: MachineView) -> bool {
    m.pending.len() > 0 || m.active is Some
}

/// Applying a control event a second time changes nothing more.
pub proof fn replayed_event_changes_nothing(m: MachineView, ev: InteractionEventView)
    ensures
        after_event(after_event(m, ev), ev) == after_event(m, ev),
{
}

/// Applying a tool event a second time changes nothing more.
pub proof fn replayed_tool_event_changes_nothing(m: MachineView, ev: ToolPermissionEventView)
    ensures
        after_tool_event(after_tool_event(m, ev), ev) == after_tool_event(m, ev),
{
    match ev {
        ToolPermissionEventView::Requested(p) => {
            without_call_twice(m.pending, p.tool_call_id);
            let keep = |q: PermissionView| q.tool_call_id != p.tool_call_id;
            without_call(m.pending, p.tool_call_id).lemma_filter_push(p, keep);
        },
        ToolPermissionEventView::Resolved { tool_call_id } => {
            without_call_twice(m.pending, tool_call_id);
        },
    }
}

/// Leaving out the requests of a call leaves none of them to leave out.
proof fn without_call_twice(pending: Seq<PermissionView>, id: Seq<char>)
    ensures
        without_call(without_call(pending, id), id) == without_call(pending, id),
    decreases pending.len(),
{
    let keep = |q: PermissionView| q.tool_call_id != id;
    reveal(Seq::filter);
    if pending.len() > 0 {
        without_call_twice(pending.drop_last(), id);
        if keep(pending.last()) {
            without_call(pending.drop_last(), id).lemma_filter_push(pending.last(), keep);
        }
    }
}

/// Leaving out the requests of a call leaves out exactly those, and the others in
/// their order.
pub proof fn requests_of_other_calls_stay(pending: Seq<PermissionView>, id: Seq<char>)
    ensures
        forall|q: PermissionView|
            #[trigger] without_call(pending, id).contains(q) <==> pending.contains(q)
                && q.tool_call_id != id,
        without_call(pending, id).len() <= pending.len(),
        pending.len() > 0 && pending[0].tool_call_id != id ==> without_call(pending, id).len() > 0
            && without_call(pending, id)[0] == pending[0],
        (forall|i: int| 0 <= i < pending.len() ==> (#[trigger] pending[i]).tool_call_id != id)
            ==> without_call(pending, id) == pending,
    decreases pending.len(),
{
    let keep = |q: PermissionView| q.tool_call_id != id;
    reveal(Seq::filter);
    if pending.len() > 0 {
        let front = pending.drop_last();
        let rest = without_call(front, id);
        let all = without_call(pending, id);
        requests_of_other_calls_stay(front, id);
        assert(all == (if keep(pending.last()) {
            rest.push(pending.last())
        } else {
            rest
        }));
        assert forall|q: PermissionView| #[trigger] all.contains(q) <==> pending.contains(q)
            && q.tool_call_id != id by {
            if all.contains(q) {
                let i = choose|i: int| 0 <= i < all.len() && all[i] == q;
                if i < rest.len() {
                    assert(rest[i] == q);
                    assert(rest.contains(q));
                    let j = choose|j: int| 0 <= j < front.len() && front[j] == q;
                    assert(pending[j] == q);
                } else {
                    assert(pending[pending.len() - 1] == q);
                }
            }
            if pending.contains(q) && q.tool_call_id != id {
                let j = choose|j: int| 0 <= j < pending.len() && pending[j] == q;
                if j < front.len() {
                    assert(front[j] == q);
                    assert(rest.contains(q));
                    let i = choose|i: int| 0 <= i < rest.len() && rest[i] == q;
                    assert(all[i] == q);
                } else {
                    assert(all[all.len() - 1] == q);
                }
            }
        }
        if forall|i: int| 0 <= i < pending.len() ==> (#[trigger] pending[i]).tool_call_id != id {
            assert forall|i: int| 0 <= i < front.len() implies (
            #[trigger] front[i]).tool_call_id != id by {
                assert(pending[i].tool_call_id != id);
            }
            assert(pending[pending.len() - 1].tool_call_id != id);
            assert(all =~= pending);
        }
    }
}

/// Closing a form that was just opened leaves no form or review open, whatever
/// was open before.
pub proof fn resolving_closes_what_was_requested(
    m: MachineView,
    id: Seq<char>,
    questions: Seq<AskQuestionView>,
)
    ensures
        after_event(
            after_event(m, InteractionEventView::AskRequested { id, questions }),
            InteractionEventView::AskResolved { id },
        ) == (MachineView { pending: m.pending, active: None }),
{
}

/// Approving or rejecting a review that was just opened leaves none open.
pub proof fn resolving_closes_what_was_planned(
    m: MachineView,
    id: Seq<char>,
    plan_content: Seq<char>,
    review_type: Seq<char>,
    todo_items: Seq<PlanTodoItemView>,
)
    ensures
        after_event(
            after_event(
                m,
                InteractionEventView::PlanRequested { id, plan_content, review_type, todo_items },
            ),
            InteractionEventView::PlanResolved { id },
        ) == (MachineView { pending: m.pending, active: None }),
{
}

/// A queue shows something exactly when it waits for the user.
pub proof fn shown_exactly_when_pending(m: MachineView, seed: Seq<char>)
    ensures
        pending(m) <==> shown(m, seed).kind.len() > 0,
{
    reveal_strlit("permission");
    reveal_strlit("plan");
    reveal_strlit("ask");
}

/// While a permission request waits, no control event changes what is shown.
pub proof fn permission_outranks_ask_and_plan(
    m: MachineView,
    ev: InteractionEventView,
    seed: Seq<char>,
)
    requires
        m.pending.len() > 0,
    ensures
        shown(after_event(m, ev), seed) == shown(m, seed),
        shown(m, seed).kind == "permission"@,
        shown(m, seed).id == m.pending[0].tool_call_id,
{
}

impl InteractionMachine {
    /// The queue with nothing in it.
    pub fn new() -> (r: InteractionMachine)
        ensures
            r@ == idle_machine(),
    {
        let r = InteractionMachine { pending_permissions: Vec::new(), active_ask_plan: None };
        assert(r@ =~= idle_machine());
        r
    }

    /// Applies an event of the control channel.
    pub fn apply(&mut self, ev: InteractionEvent)
        ensures
            final(self)@ == after_event(old(self)@, ev@),
    {
        match ev {
            InteractionEvent::AskRequested { id, questions } => {
                self.active_ask_plan = Some(ActiveAskPlan::Ask { id, questions });
            },
            InteractionEvent::AskResolved { id } => {
                let matched = match &self.active_ask_plan {
                    Some(ActiveAskPlan::Ask { id: open, questions: _ }) => open.same_as(&id),
                    _ => false,
                };
                if matched {
                    self.active_ask_plan = None;
                }
            },
            InteractionEvent::PlanRequested { id, plan_content, review_type, todo_items } => {
                self.active_ask_plan = Some(
                    ActiveAskPlan::Plan { id, plan_content, review_type, todo_items },
                );
            },
            InteractionEvent::PlanResolved { id } => {
                let matched = match &self.active_ask_plan {
                    Some(
                        ActiveAskPlan::Plan {
                            id: open,
                            plan_content: _,
                            review_type: _,
                            todo_items: _,
                        },
                    ) => open.same_as(&id),
                    _ => false,
                };
                if matched {
                    self.active_ask_plan = None;
                }
            },
            InteractionEvent::GhostCleanup => {
                self.active_ask_plan = None;
            },
        }
    }

    /// Drops the requests of one tool call.
    fn drop_call(&mut self, id: &str)
        ensures
            final(self)@ == (MachineView {
                pending: without_call(old(self)@.pending, id@),
                active: old(self)@.active,
            }),
    {
        let ghost all = self@.pending;
        let ghost keep = |p: PermissionView| p.tool_call_id != id@;
        let mut rest: Vec<PendingPermission> = Vec::new();
        std::mem::swap(&mut rest, &mut self.pending_permissions);
        let ghost source = rest@;
        let mut reversed: Vec<PendingPermission> = Vec::new();
        while rest.len() > 0
            invariant
                rest@ == source.take(rest@.len() as int),
                rest@.len() + reversed@.len() == source.len(),
                forall|k: int|
                    0 <= k < reversed@.len() ==> #[trigger] reversed@[k] == source[source.len() - 1
                        - k],
            decreases rest@.len(),
        {
            let item = rest.pop().unwrap();
            reversed.push(item);
            assert(rest@ =~= source.take(rest@.len() as int));
        }
        let ghost mut done: int = 0;
        assert(all.take(0).filter(keep) =~= Seq::<PermissionView>::empty()) by {
            reveal(Seq::filter);
        }
        assert(model::views(self.pending_permissions@) =~= all.take(0).filter(keep));
        while reversed.len() > 0
            invariant
                all == model::views(source),
                keep == (|p: PermissionView| p.tool_call_id != id@),
                reversed@.len() == source.len() - done,
                0 <= done <= source.len(),
                forall|k: int|
                    0 <= k < reversed@.len() ==> #[trigger] reversed@[k] == source[source.len() - 1
                        - k],
                model::views(self.pending_permissions@) == all.take(done).filter(keep),
                self.active_ask_plan == old(self).active_ask_plan,
            decreases reversed@.len(),
        {
            let item = reversed.pop().unwrap();
            let ghost before = self.pending_permissions@;
            proof {
                assert(item == source[done]);
                assert(all.take(done + 1) =~= all.take(done).push(all[done]));
                all.take(done).lemma_filter_push(all[done], keep);
            }
            if !text::same(item.tool_call_id.as_str(), id) {
                self.pending_permissions.push(item);
                assert(model::views(self.pending_permissions@) =~= model::views(before).push(
                    item@,
                ));
            }
            proof {
                done = done + 1;
            }
        }
        assert(all.take(all.len() as int) =~= all);
    }

    /// Applies an event of the tool channel.
    pub fn apply_tool(&mut self, ev: ToolPermissionEvent)
        ensures
            final(self)@ == after_tool_event(old(self)@, ev@),
    {
        match ev {
            ToolPermissionEvent::Requested {
                tool_call_id,
                tool_name,
                reason,
                paths,
                category,
                level,
                risk,
                consequence,
            } => {
                self.drop_call(tool_call_id.as_str());
                let ghost before = self.pending_permissions@;
                let item = PendingPermission {
                    tool_call_id,
                    tool_name,
                    reason,
                    paths,
                    category,
                    level,
                    risk,
                    consequence,
                };
                self.pending_permissions.push(item);
                assert(model::views(self.pending_permissions@) =~= model::views(before).push(
                    item@,
                ));
            },
            ToolPermissionEvent::Resolved { tool_call_id } => {
                self.drop_call(tool_call_id.as_str());
            },
        }
    }

    /// The interaction that this queue shows.
    pub fn snapshot(&self, seed: &str) -> (r: InteractionState)
        ensures
            r@ == shown(self@, seed@),
    {
        let mut out = InteractionState::default();
        if self.pending_permissions.len() > 0 {
            let p = &self.pending_permissions[0];
            out.kind = "permission".to_owned();
            out.id = p.tool_call_id.clone();
            out.seed = seed.to_owned();
            out.tool_name = p.tool_name.clone();
            out.reason = p.reason.clone();
            out.paths = model::duplicate_all(&p.paths);
            out.category = p.category.clone();
            out.level = p.level;
            out.risk = p.risk.clone();
            out.consequence = p.consequence.clone();
            assert(self@.pending[0] == p@);
            return out;
        }
        match &self.active_ask_plan {
            Some(ActiveAskPlan::Plan { id, plan_content, review_type, todo_items }) => {
                out.kind = "plan".to_owned();
                out.id = id.clone();
                out.seed = seed.to_owned();
                out.plan_content = plan_content.clone();
                out.review_type = review_type.clone();
                out.todo_items = model::duplicate_all(todo_items);
            },
            Some(ActiveAskPlan::Ask { id, questions }) => {
                out.kind = "ask".to_owned();
                out.id = id.clone();
                out.seed = seed.to_owned();
                out.questions = model::duplicate_all(questions);
            },
            None => {},
        }
        out
    }

    /// Whether this queue waits for the user.
    pub fn has_pending(&self) -> (r: bool)
        ensures
            r == pending(self@),
    {
        self.pending_permissions.len() > 0 || self.active_ask_plan.is_some()
    }
}

/// One question of a form in its wire form.
pub open spec fn question_in(q: JsonView) -> Option<AskQuestionView> {
    match (q.text_field("id"@), q.text_field("question"@)) {
        (Some(id), Some(question)) => Some(
            AskQuestionView {
                id,
                question,
                options: q.texts("options"@),
                allow_custom: q.flag("allow_custom"@),
            },
        ),
        _ => None,
    }
}

/// The well-formed questions of a form in its wire form.
pub open spec fn questions_in(v: JsonView) -> Seq<AskQuestionView> {
    match v {
        JsonView::List(items) => items.filter_map(|q: JsonView| question_in(q)),
        _ => Seq::empty(),
    }
}

/// `question_in`, executable.
fn parse_question(q: &Json) -> (r: Option<AskQuestion>)
    ensures
        model::opt_view(r) == question_in(q@),
{
    match (q.text_field("id"), q.text_field("question")) {
        (Some(id), Some(question)) => Some(
            AskQuestion {
                id,
                question,
                options: q.texts("options"),
                allow_custom: q.flag("allow_custom"),
            },
        ),
        _ => None,
    }
}

/// `questions_in`, executable.
pub fn parse_questions(v: &Json) -> (r: Vec<AskQuestion>)
    ensures
        model::views(r@) == questions_in(v@),
{
    let mut out: Vec<AskQuestion> = Vec::new();
    let ghost pick = |q: JsonView| question_in(q);
    match v {
        Json::List(items) => {
            let ghost all = v@->List_0;
            let mut i: usize = 0;
            assert(model::views(out@) =~= all.take(0).filter_map(pick)) by {
                reveal_with_fuel(Seq::filter_map, 1);
            }
            while i < items.len()
                invariant
                    i <= items@.len(),
                    all.len() == items@.len(),
                    forall|k: int| 0 <= k < all.len() ==> #[trigger] all[k] == items@[k]@,
                    pick == (|q: JsonView| question_in(q)),
                    model::views(out@) == all.take(i as int).filter_map(pick),
                decreases items@.len() - i,
            {
                proof {
                    all.lemma_filter_map_take_succ(pick, i as int);
                }
                if let Some(q) = parse_question(&items[i]) {
                    let ghost before = out@;
                    out.push(q);
                    assert(model::views(out@) =~= model::views(before).push(q@));
                }
                i = i + 1;
            }
            assert(all.take(all.len() as int) =~= all);
        },
        _ => {
            assert(model::views(out@) =~= questions_in(v@));
        },
    }
    out
}

/// One task of a plan review in its wire form.
pub open spec fn todo_in(t: JsonView) -> Option<PlanTodoItemView> {
    match (t.text_field("id"@), t.text_field("title"@)) {
        (Some(id), Some(title)) => Some(
            PlanTodoItemView {
                id,
                title,
                description: t.text_or_empty("description"@),
                complexity: t.text_or_empty("complexity"@),
            },
        ),
        _ => None,
    }
}

/// The well-formed tasks of a plan review in its wire form, which may have none.
pub open spec fn todos_in(v: Option<JsonView>) -> Seq<PlanTodoItemView> {
    match v {
        Some(JsonView::List(items)) => items.filter_map(|t: JsonView| todo_in(t)),
        _ => Seq::empty(),
    }
}

/// `todo_in`, executable.
fn parse_todo_item(t: &Json) -> (r: Option<PlanTodoItem>)
    ensures
        model::opt_view(r) == todo_in(t@),
{
    match (t.text_field("id"), t.text_field("title")) {
        (Some(id), Some(title)) => Some(
            PlanTodoItem {
                id,
                title,
                description: t.text_or_empty("description"),
                complexity: t.text_or_empty("complexity"),
            },
        ),
        _ => None,
    }
}

/// The model of an optional JSON value.
pub open spec fn opt_json(v: Option<&Json>) -> Option<JsonView> {
    match v {
        Some(json) => Some(json@),
        None => None,
    }
}

/// `todos_in`, executable.
pub fn parse_todo_items(v: Option<&Json>) -> (r: Vec<PlanTodoItem>)
    ensures
        model::views(r@) == todos_in(opt_json(v)),
{
    let mut out: Vec<PlanTodoItem> = Vec::new();
    let ghost pick = |t: JsonView| todo_in(t);
    match v {
        Some(Json::List(items)) => {
            let ghost all = v.unwrap()@->List_0;
            let mut i: usize = 0;
            assert(model::views(out@) =~= all.take(0).filter_map(pick)) by {
                reveal_with_fuel(Seq::filter_map, 1);
            }
            while i < items.len()
                invariant
                    i <= items@.len(),
                    all.len() == items@.len(),
                    forall|k: int| 0 <= k < all.len() ==> #[trigger] all[k] == items@[k]@,
                    pick == (|t: JsonView| todo_in(t)),
                    model::views(out@) == all.take(i as int).filter_map(pick),
                decreases items@.len() - i,
            {
                proof {
                    all.lemma_filter_map_take_succ(pick, i as int);
                }
                if let Some(t) = parse_todo_item(&items[i]) {
                    let ghost before = out@;
                    out.push(t);
                    assert(model::views(out@) =~= model::views(before).push(t@));
                }
                i = i + 1;
            }
            assert(all.take(all.len() as int) =~= all);
        },
        _ => {
            assert(model::views(out@) =~= todos_in(opt_json(v)));
        },
    }
    out
}

/// Whether a failed operation with this code means that the daemon no longer
/// knows the open form or review.
pub open spec fn means_ghost(code: Seq<char>) -> bool {
    code == "ask_rejected"@ || code == "interaction_not_found"@
}

/// `means_ghost`, executable.
pub fn is_ghost_code(code: &str) -> (r: bool)
    ensures
        r == means_ghost(code@),
{
    text::same(code, "ask_rejected") || text::same(code, "interaction_not_found")
}

/// What a control event in its wire form does to an interaction queue.
pub open spec fn interaction_in(event: JsonView) -> Option<InteractionEventView> {
    let id = event.text_field("interaction_id"@);
    match event.text_field("type"@) {
        None => None,
        Some(kind) => if kind == "interaction_requested"@ {
            match (id, event.field("questions"@)) {
                (Some(id), Some(questions)) => Some(
                    InteractionEventView::AskRequested { id, questions: questions_in(questions) },
                ),
                _ => None,
            }
        } else if kind == "interaction_resolved"@ {
            match id {
                Some(id) => Some(InteractionEventView::AskResolved { id }),
                None => None,
            }
        } else if kind == "plan_review_requested"@ {
            match (id, event.text_field("plan_content"@)) {
                (Some(id), Some(plan_content)) => Some(
                    InteractionEventView::PlanRequested {
                        id,
                        plan_content,
                        review_type: event.text_or_empty("review_type"@),
                        todo_items: todos_in(event.field("todo_items"@)),
                    },
                ),
                _ => None,
            }
        } else if kind == "plan_review_resolved"@ {
            match id {
                Some(id) => Some(InteractionEventView::PlanResolved { id }),
                None => None,
            }
        } else if kind == "operation_failed"@ {
            match event.field("error"@) {
                Some(error) => match error.text_field("code"@) {
                    Some(code) => if means_ghost(code) {
                        Some(InteractionEventView::GhostCleanup)
                    } else {
                        None
                    },
                    None => None,
                },
                None => None,
            }
        } else {
            None
        },
    }
}

/// `interaction_in`, executable.
pub fn parse_interaction_event(event: &Json) -> (r: Option<InteractionEvent>)
    ensures
        model::opt_view(r) == interaction_in(event@),
{
    let kind = match event.text_field("type") {
        Some(kind) => kind,
        None => return None,
    };
    let kind = kind.as_str();
    if text::same(kind, "interaction_requested") {
        match (event.text_field("interaction_id"), event.get("questions")) {
            (Some(id), Some(questions)) => Some(
                InteractionEvent::AskRequested { id, questions: parse_questions(questions) },
            ),
            _ => None,
        }
    } else if text::same(kind, "interaction_resolved") {
        match event.text_field("interaction_id") {
            Some(id) => Some(InteractionEvent::AskResolved { id }),
            None => None,
        }
    } else if text::same(kind, "plan_review_requested") {
        match (event.text_field("interaction_id"), event.text_field("plan_content")) {
            (Some(id), Some(plan_content)) => Some(
                InteractionEvent::PlanRequested {
                    id,
                    plan_content,
                    review_type: event.text_or_empty("review_type"),
                    todo_items: parse_todo_items(event.get("todo_items")),
                },
            ),
            _ => None,
        }
    } else if text::same(kind, "plan_review_resolved") {
        match event.text_field("interaction_id") {
            Some(id) => Some(InteractionEvent::PlanResolved { id }),
            None => None,
        }
    } else if text::same(kind, "operation_failed") {
        match event.get("error") {
            Some(error) => match error.text_field("code") {
                Some(code) => if is_ghost_code(code.as_str()) {
                    Some(InteractionEvent::GhostCleanup)
                } else {
                    None
                },
                None => None,
            },
            None => None,
        }
    } else {
        None
    }
}

/// What a tool event in its wire form does to the permission requests.
pub open spec fn permission_in(event: JsonView) -> Option<ToolPermissionEventView> {
    let id = event.text_field("tool_call_id"@);
    match event.text_field("type"@) {
        None => None,
        Some(kind) => if kind == "tool_permission_requested"@ {
            match (
                (id, event.text_field("tool_name"@), event.text_field("reason"@)),
                (
                    event.text_field("category"@),
                    event.text_field("risk"@),
                    event.text_field("consequence"@),
                ),
            ) {
                (
                    (Some(tool_call_id), Some(tool_name), Some(reason)),
                    (Some(category), Some(risk), Some(consequence)),
                ) => Some(
                    ToolPermissionEventView::Requested(
                        PermissionView {
                            tool_call_id,
                            tool_name,
                            reason,
                            paths: event.texts("paths"@),
                            category,
                            level: event.count("level"@),
                            risk,
                            consequence,
                        },
                    ),
                ),
                _ => None,
            }
        } else if kind == "tool_finished"@ {
            match id {
                Some(tool_call_id) => Some(ToolPermissionEventView::Resolved { tool_call_id }),
                None => None,
            }
        } else {
            None
        },
    }
}

/// `permission_in`, executable.
pub fn parse_tool_permission_event(event: &Json) -> (r: Option<ToolPermissionEvent>)
    ensures
        model::opt_view(r) == permission_in(event@),
{
    let kind = match event.text_field("type") {
        Some(kind) => kind,
        None => return None,
    };
    let kind = kind.as_str();
    if text::same(kind, "tool_permission_requested") {
        match (
            (
                event.text_field("tool_call_id"),
                event.text_field("tool_name"),
                event.text_field("reason"),
            ),
            (
                event.text_field("category"),
                event.text_field("risk"),
                event.text_field("consequence"),
            ),
        ) {
            (
                (Some(tool_call_id), Some(tool_name), Some(reason)),
                (Some(category), Some(risk), Some(consequence)),
            ) => Some(
                ToolPermissionEvent::Requested {
                    tool_call_id,
                    tool_name,
                    reason,
                    paths: event.texts("paths"),
                    category,
                    level: event.count("level"),
                    risk,
                    consequence,
                },
            ),
            _ => None,
        }
    } else if text::same(kind, "tool_finished") {
        match event.text_field("tool_call_id") {
            Some(tool_call_id) => Some(ToolPermissionEvent::Resolved { tool_call_id }),
            None => None,
        }
    } else {
        None
    }
}

/// What is shown of a permission request is the request itself: the oldest one, with
/// its own id, tool, reason, paths, level, risk and consequence.
pub proof fn oldest_request_is_shown_as_it_is(m: MachineView, seed: Seq<char>)
    requires
        m.pending.len() > 0,
    ensures
        ({
            let state = shown(m, seed);
            let p = m.pending[0];
            &&& state.kind == "permission"@
            &&& state.id == p.tool_call_id
            &&& state.seed == seed
            &&& state.tool_name == p.tool_name
            &&& state.reason == p.reason
            &&& state.paths == p.paths
            &&& state.category == p.category
            &&& state.level == p.level
            &&& state.risk == p.risk
            &&& state.consequence == p.consequence
            &&& state.questions.len() == 0
            &&& state.plan_content.len() == 0
        }),
{
}

/// Without a permission request the open form or review is shown, with its own id
/// and contents, and nothing where none is open.
pub proof fn open_form_is_shown_as_it_is(m: MachineView, seed: Seq<char>)
    requires
        m.pending.len() == 0,
    ensures
        ({
            let state = shown(m, seed);
            &&& m.active matches Some(ActiveView::Ask { id, questions }) ==> state.kind == "ask"@
                && state.id == id && state.seed == seed && state.questions == questions
            &&& m.active matches Some(
                ActiveView::Plan { id, plan_content, review_type, todo_items },
            ) ==> state.kind == "plan"@ && state.id == id && state.seed == seed
                && state.plan_content == plan_content && state.review_type == review_type
                && state.todo_items == todo_items
            &&& m.active is None ==> state.kind.len() == 0 && state.id.len() == 0
        }),
{
}

/// A form that is requested opens, whatever was open before, and one that is resolved
/// closes only if it is the open one; reviews likewise. No such event touches the
/// permission requests.
pub proof fn forms_open_and_close_by_their_id(m: MachineView, ev: InteractionEventView)
    ensures
        ({
            let after = after_event(m, ev);
            &&& after.pending == m.pending
            &&& ev matches InteractionEventView::AskRequested { id, questions } ==> after.active
                == Some(ActiveView::Ask { id, questions })
            &&& ev matches InteractionEventView::PlanRequested {
                id,
                plan_content,
                review_type,
                todo_items,
            } ==> after.active == Some(
                ActiveView::Plan { id, plan_content, review_type, todo_items },
            )
            &&& ev matches InteractionEventView::AskResolved { id } ==> {
                let hit = m.active matches Some(ActiveView::Ask { id: open, .. }) && open == id;
                &&& hit ==> after.active is None
                &&& !hit ==> after.active == m.active
            }
            &&& ev matches InteractionEventView::PlanResolved { id } ==> {
                let hit = m.active matches Some(ActiveView::Plan { id: open, .. }) && open == id;
                &&& hit ==> after.active is None
                &&& !hit ==> after.active == m.active
            }
            &&& ev is GhostCleanup ==> after.active is None
        }),
{
}

} // verus!
