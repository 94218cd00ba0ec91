//! The daemon's events, as far as the shell reads them.

use vstd::prelude::*;

use crate::bridge::composer::{ActivityEventView, ConversationActivityEvent, WorkPhase, WorkPhaseView};
use crate::bridge::interaction;
use crate::bridge::interaction::{
    AskQuestion, AskQuestionView, InteractionEvent, InteractionEventView, PermissionView,
    PlanTodoItem, PlanTodoItemView, ToolPermissionEvent, ToolPermissionEventView,
};
use crate::bridge::store::{
    ActivityState, DashboardSnapshot, DashboardView, SkillsSnapshot, SkillsView, UsageInfo,
};
use crate::model;

verus! {

/// The three event channels of a session.
#[derive(Debug, Clone, Copy, PartialEq, Eq, Structural)]
pub enum Channel {
    Control,
    Tool,
    Conversation,
}

/// What a tool would do.
#[derive(Debug, Clone, Copy, PartialEq, Eq, Structural)]
pub enum PermissionCategory {
    Read,
    Write,
    Exec,
    Net,
}

/// How much harm a tool could do.
#[derive(Debug, Clone, Copy, PartialEq, Eq, Structural)]
pub enum PermissionRisk {
    Low,
    Medium,
    High,
}

/// An operation that failed.
#[derive(Debug)]
pub struct DomainError {
    pub code: String,
    pub message: String,
}

/// An event of the control channel.
#[derive(Debug)]
pub enum ControlEvent {
    InteractionRequested { interaction_id: String, questions: Vec<AskQuestion> },
    InteractionResolved { interaction_id: String },
    PlanReviewRequested {
        interaction_id: String,
        plan_content: String,
        review_type: String,
        todo_items: Option<Vec<PlanTodoItem>>,
    },
    PlanReviewResolved { interaction_id: String },
    OperationFailed { error: DomainError },
    SessionActivityChanged { seed: String, state: ActivityState },
    /// A session was created, archived, unarchived or deleted.
    SessionStateChanged,
    /// The title of a session changed.
    SessionMetaChanged,
    SkillsUpdated { skills: SkillsSnapshot },
    DashboardUpdated { dashboard: DashboardSnapshot },
    SubagentStatus { name: String, tag: String },
    Other,
}

/// The model of a `ControlEvent`.
#[verifier::ext_equal]
pub enum ControlEventView {
    InteractionRequested { interaction_id: Seq<char>, questions: Seq<AskQuestionView> },
    InteractionResolved { interaction_id: Seq<char> },
    PlanReviewRequested {
        interaction_id: Seq<char>,
        plan_content: Seq<char>,
        review_type: Seq<char>,
        todo_items: Seq<PlanTodoItemView>,
    },
    PlanReviewResolved { interaction_id: Seq<char> },
    OperationFailed { code: Seq<char>, message: Seq<char> },
    SessionActivityChanged { seed: Seq<char>, state: ActivityState },
    SessionStateChanged,
    SessionMetaChanged,
    SkillsUpdated { skills: SkillsView },
    DashboardUpdated { dashboard: DashboardView },
    SubagentStatus { name: Seq<char>, tag: Seq<char> },
    Other,
}

impl View for ControlEvent {
    type V = ControlEventView;

    open spec fn view(&self) -> ControlEventView {
        match self {
            ControlEvent::InteractionRequested {
                interaction_id,
                questions,
            } => ControlEventView::InteractionRequested {
                interaction_id: interaction_id@,
                questions: model::views(questions@),
            },
            ControlEvent::InteractionResolved {
                interaction_id,
            } => ControlEventView::InteractionResolved { interaction_id: interaction_id@ },
            ControlEvent::PlanReviewRequested {
                interaction_id,
                plan_content,
                review_type,
                todo_items,
            } => ControlEventView::PlanReviewRequested {
                interaction_id: interaction_id@,
                plan_content: plan_content@,
                review_type: review_type@,
                todo_items: match todo_items {
                    Some(items) => model::views(items@),
                    None => Seq::empty(),
                },
            },
            ControlEvent::PlanReviewResolved {
                interaction_id,
            } => ControlEventView::PlanReviewResolved { interaction_id: interaction_id@ },
            ControlEvent::OperationFailed { error } => ControlEventView::OperationFailed {
                code: error.code@,
                message: error.message@,
            },
            ControlEvent::SessionActivityChanged {
                seed,
                state,
            } => ControlEventView::SessionActivityChanged { seed: seed@, state: *state },
            ControlEvent::SessionStateChanged => ControlEventView::SessionStateChanged,
            ControlEvent::SessionMetaChanged => ControlEventView::SessionMetaChanged,
            ControlEvent::SkillsUpdated { skills } => ControlEventView::SkillsUpdated {
                skills: skills@,
            },
            ControlEvent::DashboardUpdated { dashboard } => ControlEventView::DashboardUpdated {
                dashboard: dashboard@,
            },
            ControlEvent::SubagentStatus { name, tag } => ControlEventView::SubagentStatus {
                name: name@,
                tag: tag@,
            },
            ControlEvent::Other => ControlEventView::Other,
        }
    }
}

/// What a control event does to an interaction queue.
pub open spec fn interaction_of(event: ControlEventView) -> Option<InteractionEventView> {
    match event {
        ControlEventView::InteractionRequested { interaction_id, questions } => Some(
            InteractionEventView::AskRequested { id: interaction_id, questions },
        ),
        ControlEventView::InteractionResolved { interaction_id } => Some(
            InteractionEventView::AskResolved { id: interaction_id },
        ),
        ControlEventView::PlanReviewRequested {
            interaction_id,
            plan_content,
            review_type,
            todo_items,
        } => Some(
            InteractionEventView::PlanRequested {
                id: interaction_id,
                plan_content,
                review_type,
                todo_items,
            },
        ),
        ControlEventView::PlanReviewResolved { interaction_id } => Some(
            InteractionEventView::PlanResolved { id: interaction_id },
        ),
        ControlEventView::OperationFailed { code, message: _ } => if interaction::means_ghost(
            code,
        ) {
            Some(InteractionEventView::GhostCleanup)
        } else {
            None
        },
        _ => None,
    }
}

/// `interaction_of`, executable.
pub fn interaction_event(event: &ControlEvent) -> (r: Option<InteractionEvent>)
    ensures
        model::opt_view(r) == interaction_of(event@),
{
    match event {
        ControlEvent::InteractionRequested { interaction_id, questions } => Some(
            InteractionEvent::AskRequested {
                id: interaction_id.clone(),
                questions: model::duplicate_all(questions),
            },
        ),
        ControlEvent::InteractionResolved { interaction_id } => Some(
            InteractionEvent::AskResolved { id: interaction_id.clone() },
        ),
        ControlEvent::PlanReviewRequested {
            interaction_id,
            plan_content,
            review_type,
            todo_items,
        } => {
            let items: Vec<PlanTodoItem> = match todo_items {
                Some(items) => model::duplicate_all(items),
                None => Vec::new(),
            };
            assert(todo_items is None ==> model::views(items@) =~= Seq::empty());
            Some(
                InteractionEvent::PlanRequested {
                    id: interaction_id.clone(),
                    plan_content: plan_content.clone(),
                    review_type: review_type.clone(),
                    todo_items: items,
                },
            )
        },
        ControlEvent::PlanReviewResolved { interaction_id } => Some(
            InteractionEvent::PlanResolved { id: interaction_id.clone() },
        ),
        ControlEvent::OperationFailed { error } => if interaction::is_ghost_code(
            error.code.as_str(),
        ) {
            Some(InteractionEvent::GhostCleanup)
        } else {
            None
        },
        _ => None,
    }
}

/// An event of the tool channel.
#[derive(Debug)]
pub enum ToolEvent {
    ToolPermissionRequested {
        tool_call_id: String,
        tool_name: String,
        reason: String,
        paths: Vec<String>,
        category: PermissionCategory,
        level: u8,
        risk: PermissionRisk,
        consequence: String,
    },
    /// The call is being streamed in.
    ToolCallPrepared { tool_call_id: String, name: String, args_so_far: String },
    ToolStarted { tool_call_id: String, name: String },
    /// The call ended, with this text for the model.
    ToolFinished { tool_call_id: String, model_text: String },
    Other,
}

/// The model of a `ToolEvent`.
#[verifier::ext_equal]
pub enum ToolEventView {
    ToolPermissionRequested {
        tool_call_id: Seq<char>,
        tool_name: Seq<char>,
        reason: Seq<char>,
        paths: Seq<Seq<char>>,
        category: PermissionCategory,
        level: u8,
        risk: PermissionRisk,
        consequence: Seq<char>,
    },
    ToolCallPrepared { tool_call_id: Seq<char>, name: Seq<char>, args_so_far: Seq<char> },
    ToolStarted { tool_call_id: Seq<char>, name: Seq<char> },
    ToolFinished { tool_call_id: Seq<char>, model_text: Seq<char> },
    Other,
}

impl View for ToolEvent {
    type V = ToolEventView;

    open spec fn view(&self) -> ToolEventView {
        match self {
            ToolEvent::ToolPermissionRequested {
                tool_call_id,
                tool_name,
                reason,
                paths,
                category,
                level,
                risk,
                consequence,
            } => ToolEventView::ToolPermissionRequested {
                tool_call_id: tool_call_id@,
                tool_name: tool_name@,
                reason: reason@,
                paths: model::views(paths@),
                category: *category,
                level: *level,
                risk: *risk,
                consequence: consequence@,
            },
            ToolEvent::ToolCallPrepared {
                tool_call_id,
                name,
                args_so_far,
            } => ToolEventView::ToolCallPrepared {
                tool_call_id: tool_call_id@,
                name: name@,
                args_so_far: args_so_far@,
            },
            ToolEvent::ToolStarted { tool_call_id, name } => ToolEventView::ToolStarted {
                tool_call_id: tool_call_id@,
                name: name@,
            },
            ToolEvent::ToolFinished { tool_call_id, model_text } => ToolEventView::ToolFinished {
                tool_call_id: tool_call_id@,
                model_text: model_text@,
            },
            ToolEvent::Other => ToolEventView::Other,
        }
    }
}

/// The name of a category.
pub open spec fn category_name(category: PermissionCategory) -> Seq<char> {
    match category {
        PermissionCategory::Read => "read"@,
        PermissionCategory::Write => "write"@,
        PermissionCategory::Exec => "exec"@,
        PermissionCategory::Net => "net"@,
    }
}

/// The name of a risk.
pub open spec fn risk_name(risk: PermissionRisk) -> Seq<char> {
    match risk {
        PermissionRisk::Low => "low"@,
        PermissionRisk::Medium => "medium"@,
        PermissionRisk::High => "high"@,
    }
}

/// What a tool event does to the permission requests.
pub open spec fn permission_of(event: ToolEventView) -> Option<ToolPermissionEventView> {
    match event {
        ToolEventView::ToolPermissionRequested {
            tool_call_id,
            tool_name,
            reason,
            paths,
            category,
            level,
            risk,
            consequence,
        } => Some(
            ToolPermissionEventView::Requested(
                PermissionView {
                    tool_call_id,
                    tool_name,
                    reason,
                    paths,
                    category: category_name(category),
                    level: level as u64,
                    risk: risk_name(risk),
                    consequence,
                },
            ),
        ),
        ToolEventView::ToolFinished { tool_call_id, model_text: _ } => Some(
            ToolPermissionEventView::Resolved { tool_call_id },
        ),
        _ => None,
    }
}

/// `permission_of`, executable.
pub fn tool_permission_event(event: &ToolEvent) -> (r: Option<ToolPermissionEvent>)
    ensures
        model::opt_view(r) == permission_of(event@),
{
    match event {
        ToolEvent::ToolPermissionRequested {
            tool_call_id,
            tool_name,
            reason,
            paths,
            category,
            level,
            risk,
            consequence,
        } => {
            let category = match category {
                PermissionCategory::Read => "read",
                PermissionCategory::Write => "write",
                PermissionCategory::Exec => "exec",
                PermissionCategory::Net => "net",
            };
            let risk = match risk {
                PermissionRisk::Low => "low",
                PermissionRisk::Medium => "medium",
                PermissionRisk::High => "high",
            };
            Some(
                ToolPermissionEvent::Requested {
                    tool_call_id: tool_call_id.clone(),
                    tool_name: tool_name.clone(),
                    reason: reason.clone(),
                    paths: model::duplicate_all(paths),
                    category: category.to_owned(),
                    level: *level as u64,
                    risk: risk.to_owned(),
                    consequence: consequence.clone(),
                },
            )
        },
        ToolEvent::ToolFinished { tool_call_id, model_text: _ } => Some(
            ToolPermissionEvent::Resolved { tool_call_id: tool_call_id.clone() },
        ),
        _ => None,
    }
}

/// What kind of text a delta carries.
#[derive(Debug, Clone, Copy, PartialEq, Eq, Structural)]
pub enum RoundDeltaKind {
    Thinking,
    Answering,
    ToolCalling,
}

/// An event of the conversation channel.
#[derive(Debug)]
pub enum ConversationEvent {
    TurnStarted { turn_id: String, user_text: String },
    TurnCompleted { turn_id: String },
    TurnFailed { turn_id: String },
    ConversationCancelled { cancelled: Option<String> },
    UsageUpdated { usage: UsageInfo, context_limit: u64, model: String },
    RoundDelta { kind: RoundDeltaKind },
    BlockCheckpoint,
    RoundCompleted,
    ProviderRetrying,
    ProviderToolStatus,
    CompactStarted,
    CompactProgress,
    CompactFinished { status: String },
}

/// The model of a `ConversationEvent`.
#[verifier::ext_equal]
pub enum ConversationEventView {
    TurnStarted { turn_id: Seq<char>, user_text: Seq<char> },
    TurnCompleted { turn_id: Seq<char> },
    TurnFailed { turn_id: Seq<char> },
    ConversationCancelled { cancelled: Option<Seq<char>> },
    UsageUpdated { usage: UsageInfo, context_limit: u64, model: Seq<char> },
    RoundDelta { kind: RoundDeltaKind },
    BlockCheckpoint,
    RoundCompleted,
    ProviderRetrying,
    ProviderToolStatus,
    CompactStarted,
    CompactProgress,
    CompactFinished { status: Seq<char> },
}

impl View for ConversationEvent {
    type V = ConversationEventView;

    open spec fn view(&self) -> ConversationEventView {
        match self {
            ConversationEvent::TurnStarted {
                turn_id,
                user_text,
            } => ConversationEventView::TurnStarted { turn_id: turn_id@, user_text: user_text@ },
            ConversationEvent::TurnCompleted { turn_id } => ConversationEventView::TurnCompleted {
                turn_id: turn_id@,
            },
            ConversationEvent::TurnFailed { turn_id } => ConversationEventView::TurnFailed {
                turn_id: turn_id@,
            },
            ConversationEvent::ConversationCancelled {
                cancelled,
            } => ConversationEventView::ConversationCancelled {
                cancelled: model::opt_view(*cancelled),
            },
            ConversationEvent::UsageUpdated {
                usage,
                context_limit,
                model,
            } => ConversationEventView::UsageUpdated {
                usage: *usage,
                context_limit: *context_limit,
                model: model@,
            },
            ConversationEvent::RoundDelta { kind } => ConversationEventView::RoundDelta {
                kind: *kind,
            },
            ConversationEvent::BlockCheckpoint => ConversationEventView::BlockCheckpoint,
            ConversationEvent::RoundCompleted => ConversationEventView::RoundCompleted,
            ConversationEvent::ProviderRetrying => ConversationEventView::ProviderRetrying,
            ConversationEvent::ProviderToolStatus => ConversationEventView::ProviderToolStatus,
            ConversationEvent::CompactStarted => ConversationEventView::CompactStarted,
            ConversationEvent::CompactProgress => ConversationEventView::CompactProgress,
            ConversationEvent::CompactFinished {
                status,
            } => ConversationEventView::CompactFinished { status: status@ },
        }
    }
}

/// The activity that a conversation event reports: every event but those about
/// compacting is a sign of life of a turn, or its end.
pub open spec fn activity_of(event: ConversationEventView) -> Option<ActivityEventView> {
    match event {
        ConversationEventView::TurnStarted { .. } => Some(ActivityEventView::Started),
        ConversationEventView::TurnCompleted { .. } => Some(ActivityEventView::Ended),
        ConversationEventView::TurnFailed { .. } => Some(ActivityEventView::Ended),
        ConversationEventView::ConversationCancelled { .. } => Some(ActivityEventView::Ended),
        ConversationEventView::UsageUpdated { usage, context_limit, model } => Some(
            ActivityEventView::Usage { prompt_tokens: usage.prompt_tokens, context_limit, model },
        ),
        ConversationEventView::RoundDelta { kind } => Some(
            ActivityEventView::Delta(
                if kind == RoundDeltaKind::Answering {
                    WorkPhaseView::Answering
                } else {
                    WorkPhaseView::Thinking
                },
            ),
        ),
        ConversationEventView::BlockCheckpoint => Some(ActivityEventView::Touched),
        ConversationEventView::RoundCompleted => Some(ActivityEventView::Touched),
        ConversationEventView::ProviderRetrying => Some(ActivityEventView::Touched),
        ConversationEventView::ProviderToolStatus => Some(ActivityEventView::Touched),
        _ => None,
    }
}

/// `activity_of`, executable.
pub fn conversation_activity_event(event: &ConversationEvent) -> (r: Option<
    ConversationActivityEvent,
>)
    ensures
        model::opt_view(r) == activity_of(event@),
{
    match event {
        ConversationEvent::TurnStarted { .. } => Some(ConversationActivityEvent::Started),
        ConversationEvent::TurnCompleted { .. } => Some(ConversationActivityEvent::Ended),
        ConversationEvent::TurnFailed { .. } => Some(ConversationActivityEvent::Ended),
        ConversationEvent::ConversationCancelled { .. } => Some(ConversationActivityEvent::Ended),
        ConversationEvent::UsageUpdated { usage, context_limit, model } => Some(
            ConversationActivityEvent::Usage {
                prompt_tokens: usage.prompt_tokens,
                context_limit: *context_limit,
                model: model.clone(),
            },
        ),
        ConversationEvent::RoundDelta { kind } => {
            let phase = match kind {
                RoundDeltaKind::Thinking => WorkPhase::Thinking,
                RoundDeltaKind::Answering => WorkPhase::Answering,
                RoundDeltaKind::ToolCalling => WorkPhase::Thinking,
            };
            Some(ConversationActivityEvent::Delta(phase))
        },
        ConversationEvent::BlockCheckpoint => Some(ConversationActivityEvent::Touched),
        ConversationEvent::RoundCompleted => Some(ConversationActivityEvent::Touched),
        ConversationEvent::ProviderRetrying => Some(ConversationActivityEvent::Touched),
        ConversationEvent::ProviderToolStatus => Some(ConversationActivityEvent::Touched),
        ConversationEvent::CompactStarted => None,
        ConversationEvent::CompactProgress => None,
        ConversationEvent::CompactFinished { .. } => None,
    }
}

/// The turn that a boundary event belongs to, if it names one.
pub open spec fn boundary_turn(event: ConversationEventView) -> Option<Seq<char>> {
    match event {
        ConversationEventView::TurnStarted { turn_id, user_text: _ } => Some(turn_id),
        ConversationEventView::TurnCompleted { turn_id } => Some(turn_id),
        ConversationEventView::TurnFailed { turn_id } => Some(turn_id),
        ConversationEventView::ConversationCancelled { cancelled } => cancelled,
        _ => None,
    }
}

/// `boundary_turn`, executable.
pub fn turn_of_boundary(event: &ConversationEvent) -> (r: Option<String>)
    ensures
        model::opt_view(r) == boundary_turn(event@),
{
    match event {
        ConversationEvent::TurnStarted { turn_id, user_text: _ } => Some(turn_id.clone()),
        ConversationEvent::TurnCompleted { turn_id } => Some(turn_id.clone()),
        ConversationEvent::TurnFailed { turn_id } => Some(turn_id.clone()),
        ConversationEvent::ConversationCancelled { cancelled } => model::duplicate_opt(cancelled),
        _ => None,
    }
}

/// An event of any channel.
#[derive(Debug)]
pub enum RingingEvent {
    Control(ControlEvent),
    Tool(ToolEvent),
    Conversation(ConversationEvent),
}

/// The model of a `RingingEvent`.
#[verifier::ext_equal]
pub enum RingingEventView {
    Control(ControlEventView),
    Tool(ToolEventView),
    Conversation(ConversationEventView),
}

impl View for RingingEvent {
    type V = RingingEventView;

    open spec fn view(&self) -> RingingEventView {
        match self {
            RingingEvent::Control(event) => RingingEventView::Control(event@),
            RingingEvent::Tool(event) => RingingEventView::Tool(event@),
            RingingEvent::Conversation(event) => RingingEventView::Conversation(event@),
        }
    }
}

/// Events of one session that arrived together on one channel.
#[derive(Debug)]
pub struct EventBatch {
    pub channel: Channel,
    pub seed: String,
    pub events: Vec<RingingEvent>,
}

} // verus!
