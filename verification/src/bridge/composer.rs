//! What the composer knows of a session's work: whether a turn is running, in
//! which phase, and what the provider last reported about it.

use vstd::prelude::*;

use crate::json::{Json, JsonView};
use crate::model;
use crate::model::{Duplicate, Same};
use crate::text;

verus! {

/// After this many milliseconds without an event a turn counts as interrupted.
pub const COMPOSER_STALL_TIMEOUT_MS: u64 = 240_000;

/// The phase of a running turn.
#[derive(Debug, PartialEq, Eq)]
pub enum WorkPhase {
    /// No turn is running.
    Idle,
    Thinking,
    Answering,
    /// The named tool is running.
    Tool(String),
    /// The user has to decide something first.
    WaitingUser,
}

/// The model of a `WorkPhase`.
#[verifier::ext_equal]
pub enum WorkPhaseView {
    Idle,
    Thinking,
    Answering,
    Tool(Seq<char>),
    WaitingUser,
}

impl View for WorkPhase {
    type V = WorkPhaseView;

    open spec fn view(&self) -> WorkPhaseView {
        match self {
            WorkPhase::Idle => WorkPhaseView::Idle,
            WorkPhase::Thinking => WorkPhaseView::Thinking,
            WorkPhase::Answering => WorkPhaseView::Answering,
            WorkPhase::Tool(name) => WorkPhaseView::Tool(name@),
            WorkPhase::WaitingUser => WorkPhaseView::WaitingUser,
        }
    }
}

impl Duplicate for WorkPhase {
    fn duplicate(&self) -> (r: WorkPhase) {
        match self {
            WorkPhase::Idle => WorkPhase::Idle,
            WorkPhase::Thinking => WorkPhase::Thinking,
            WorkPhase::Answering => WorkPhase::Answering,
            WorkPhase::Tool(name) => WorkPhase::Tool(name.clone()),
            WorkPhase::WaitingUser => WorkPhase::WaitingUser,
        }
    }
}

/// The tracked activity of one session.
#[derive(Debug)]
pub struct ComposerActivity {
    pub active_turn: bool,
    /// When the last event came, in milliseconds since the epoch; 0 if unknown.
    pub last_activity_at: u64,
    pub prompt_tokens: u64,
    pub context_limit: u64,
    pub model: String,
    pub phase: WorkPhase,
}

/// The model of a `ComposerActivity`.
#[verifier::ext_equal]
pub struct ActivityView {
    pub active_turn: bool,
    pub last_activity_at: u64,
    pub prompt_tokens: u64,
    pub context_limit: u64,
    pub model: Seq<char>,
    pub phase: WorkPhaseView,
}

impl View for ComposerActivity {
    type V = ActivityView;

    open spec fn view(&self) -> ActivityView {
        ActivityView {
            active_turn: self.active_turn,
            last_activity_at: self.last_activity_at,
            prompt_tokens: self.prompt_tokens,
            context_limit: self.context_limit,
            model: self.model@,
            phase: self.phase@,
        }
    }
}

impl Duplicate for ComposerActivity {
    fn duplicate(&self) -> (r: ComposerActivity) {
        ComposerActivity {
            active_turn: self.active_turn,
            last_activity_at: self.last_activity_at,
            prompt_tokens: self.prompt_tokens,
            context_limit: self.context_limit,
            model: self.model.clone(),
            phase: self.phase.duplicate(),
        }
    }
}

/// A session of which no event came yet.
pub open spec fn unseen_activity() -> ActivityView {
    ActivityView {
        active_turn: false,
        last_activity_at: 0,
        prompt_tokens: 0,
        context_limit: 0,
        model: Seq::empty(),
        phase: WorkPhaseView::Idle,
    }
}

impl Default for ComposerActivity {
    fn default() -> (r: ComposerActivity)
        ensures
            r@ == unseen_activity(),
    {
        ComposerActivity {
            active_turn: false,
            last_activity_at: 0,
            prompt_tokens: 0,
            context_limit: 0,
            model: String::new(),
            phase: WorkPhase::Idle,
        }
    }
}

/// An event of the conversation channel, as far as activity is concerned.
#[derive(Debug)]
pub enum ConversationActivityEvent {
    /// A turn started.
    Started,
    /// A turn completed, failed or was cancelled.
    Ended,
    /// Text arrived, in the given phase.
    Delta(WorkPhase),
    /// Some other sign of a running turn.
    Touched,
    /// The provider reported usage.
    Usage { prompt_tokens: u64, context_limit: u64, model: String },
}

/// The model of a `ConversationActivityEvent`.
#[verifier::ext_equal]
pub enum ActivityEventView {
    Started,
    Ended,
    Delta(WorkPhaseView),
    Touched,
    Usage { prompt_tokens: u64, context_limit: u64, model: Seq<char> },
}

impl View for ConversationActivityEvent {
    type V = ActivityEventView;

    open spec fn view(&self) -> ActivityEventView {
        match self {
            ConversationActivityEvent::Started => ActivityEventView::Started,
            ConversationActivityEvent::Ended => ActivityEventView::Ended,
            ConversationActivityEvent::Delta(phase) => ActivityEventView::Delta(phase@),
            ConversationActivityEvent::Touched => ActivityEventView::Touched,
            ConversationActivityEvent::Usage {
                prompt_tokens,
                context_limit,
                model,
            } => ActivityEventView::Usage {
                prompt_tokens: *prompt_tokens,
                context_limit: *context_limit,
                model: model@,
            },
        }
    }
}

/// Whether a turn of `a` counts as running at time `now`: one is active, and its
/// last event is unknown or recent enough.
pub open spec fn streaming(a: ActivityView, now: u64) -> bool {
    a.active_turn && (a.last_activity_at == 0 || now - a.last_activity_at
        < COMPOSER_STALL_TIMEOUT_MS)
}

/// What an event at time `now` makes of an activity. Every event but the end of
/// a turn is a sign that one is running, whether or not its start was seen.
pub open spec fn after_activity(a: ActivityView, ev: ActivityEventView, now: u64) -> ActivityView {
    match ev {
        ActivityEventView::Started => ActivityView {
            active_turn: true,
            last_activity_at: now,
            ..a
        },
        ActivityEventView::Ended => ActivityView {
            active_turn: false,
            phase: WorkPhaseView::Idle,
            ..a
        },
        ActivityEventView::Touched => ActivityView {
            active_turn: true,
            last_activity_at: now,
            ..a
        },
        ActivityEventView::Delta(phase) => ActivityView {
            active_turn: true,
            last_activity_at: now,
            phase,
            ..a
        },
        ActivityEventView::Usage { prompt_tokens, context_limit, model } => ActivityView {
            active_turn: true,
            last_activity_at: now,
            prompt_tokens,
            context_limit,
            model,
            ..a
        },
    }
}

/// Once a turn has ended it is not running, at whatever time one looks.
pub proof fn ended_is_not_streaming(a: ActivityView, at: u64, now: u64)
    ensures
        !streaming(after_activity(a, ActivityEventView::Ended, at), now),
{
}

/// Every other event makes the turn count as running for as long as the stall
/// timeout lasts, and for no longer.
pub proof fn event_keeps_turn_alive_until_timeout(
    a: ActivityView,
    ev: ActivityEventView,
    at: u64,
    now: u64,
)
    requires
        ev !is Ended,
        0 < at <= now,
    ensures
        streaming(after_activity(a, ev, at), now) <==> now < at + COMPOSER_STALL_TIMEOUT_MS,
{
}

/// A turn that counts as interrupted stays so until the next event.
pub proof fn stalled_stays_stalled(a: ActivityView, now: u64, later: u64)
    requires
        now <= later,
        a.active_turn,
        !streaming(a, now),
    ensures
        !streaming(a, later),
{
}

impl ComposerActivity {
    /// Whether a turn counts as running at time `now`.
    pub fn is_streaming(&self, now: u64) -> (r: bool)
        ensures
            r == streaming(self@, now),
    {
        if !self.active_turn {
            return false;
        }
        if self.last_activity_at == 0 {
            return true;
        }
        if now < self.last_activity_at {
            return true;
        }
        now - self.last_activity_at < COMPOSER_STALL_TIMEOUT_MS
    }

    /// Applies an event that came at time `now`.
    pub fn apply(&mut self, ev: ConversationActivityEvent, now: u64)
        ensures
            final(self)@ == after_activity(old(self)@, ev@, now),
    {
        match ev {
            ConversationActivityEvent::Started => {
                self.active_turn = true;
                self.last_activity_at = now;
            },
            ConversationActivityEvent::Ended => {
                self.active_turn = false;
                self.phase = WorkPhase::Idle;
            },
            ConversationActivityEvent::Touched => {
                self.active_turn = true;
                self.last_activity_at = now;
            },
            ConversationActivityEvent::Delta(phase) => {
                self.active_turn = true;
                self.last_activity_at = now;
                self.phase = phase;
            },
            ConversationActivityEvent::Usage { prompt_tokens, context_limit, model } => {
                self.active_turn = true;
                self.prompt_tokens = prompt_tokens;
                self.context_limit = context_limit;
                self.model = model;
                self.last_activity_at = now;
            },
        }
    }
}

/// What became of the last message sent in a session.
#[derive(Debug)]
pub struct ComposerFeedback {
    /// Why sending failed; empty if it did not.
    pub submit_error: String,
    /// Counts the messages that were accepted.
    pub send_ack: u64,
}

/// The model of a `ComposerFeedback`.
#[verifier::ext_equal]
pub struct FeedbackView {
    pub submit_error: Seq<char>,
    pub send_ack: u64,
}

impl View for ComposerFeedback {
    type V = FeedbackView;

    open spec fn view(&self) -> FeedbackView {
        FeedbackView { submit_error: self.submit_error@, send_ack: self.send_ack }
    }
}

/// No message was sent yet.
pub open spec fn no_feedback() -> FeedbackView {
    FeedbackView { submit_error: Seq::empty(), send_ack: 0 }
}

impl Default for ComposerFeedback {
    fn default() -> (r: ComposerFeedback)
        ensures
            r@ == no_feedback(),
    {
        ComposerFeedback { submit_error: String::new(), send_ack: 0 }
    }
}

/// The tool mode of the composer: standard, minimal or custom.
#[derive(Debug)]
pub struct ToolModeState {
    pub mode: String,
    pub custom_tools: Vec<String>,
}

/// The model of a `ToolModeState`.
#[verifier::ext_equal]
pub struct ToolModeView {
    pub mode: Seq<char>,
    pub custom_tools: Seq<Seq<char>>,
}

impl View for ToolModeState {
    type V = ToolModeView;

    open spec fn view(&self) -> ToolModeView {
        ToolModeView { mode: self.mode@, custom_tools: model::views(self.custom_tools@) }
    }
}

impl Same for ToolModeState {
    fn same_as(&self, other: &ToolModeState) -> (r: bool) {
        self.mode.same_as(&other.mode) && model::same_all(&self.custom_tools, &other.custom_tools)
    }
}

impl Duplicate for ToolModeState {
    fn duplicate(&self) -> (r: ToolModeState) {
        ToolModeState {
            mode: self.mode.clone(),
            custom_tools: model::duplicate_all(&self.custom_tools),
        }
    }
}

/// The tool mode that a session's metadata names.
pub open spec fn tool_mode_in(meta: JsonView) -> ToolModeView {
    ToolModeView {
        mode: meta.text_or_empty("tool_mode"@),
        custom_tools: meta.texts("custom_tools"@),
    }
}

/// `tool_mode_in`, executable.
pub fn tool_mode_from_meta(meta: &Json) -> (r: ToolModeState)
    ensures
        r@ == tool_mode_in(meta@),
{
    ToolModeState {
        mode: meta.text_or_empty("tool_mode"),
        custom_tools: meta.texts("custom_tools"),
    }
}

/// The agent mode that a session's metadata names: planning under the number 1,
/// executing under any other.
pub open spec fn agent_mode_in(meta: JsonView) -> Seq<char> {
    if meta.count("mode"@) == 1 {
        "plan"@
    } else {
        "code"@
    }
}

/// `agent_mode_in`, executable.
pub fn agent_mode_from_meta(meta: &Json) -> (r: String)
    ensures
        r@ == agent_mode_in(meta@),
{
    if meta.count("mode") == 1 {
        "plan".to_owned()
    } else {
        "code".to_owned()
    }
}

/// What `kind` of a delta says about the phase.
pub open spec fn phase_of_kind(kind: Option<Seq<char>>) -> Option<WorkPhaseView> {
    if kind == Some("thinking"@) {
        Some(WorkPhaseView::Thinking)
    } else if kind == Some("answering"@) {
        Some(WorkPhaseView::Answering)
    } else {
        None
    }
}

/// The activity that a conversation event in its wire form reports.
pub open spec fn activity_in(event: JsonView) -> Option<ActivityEventView> {
    let kind = event.text_field("type"@);
    if kind is None {
        None
    } else if kind == Some("turn_started"@) {
        Some(ActivityEventView::Started)
    } else if kind == Some("turn_completed"@) || kind == Some("turn_failed"@) || kind == Some(
        "conversation_cancelled"@,
    ) {
        Some(ActivityEventView::Ended)
    } else if kind == Some("usage_updated"@) {
        Some(
            ActivityEventView::Usage {
                prompt_tokens: match event.field("usage"@) {
                    Some(usage) => usage.count("prompt_tokens"@),
                    None => 0,
                },
                context_limit: event.count("context_limit"@),
                model: event.text_or_empty("model"@),
            },
        )
    } else if kind == Some("round_delta"@) {
        match phase_of_kind(event.text_field("kind"@)) {
            Some(phase) => Some(ActivityEventView::Delta(phase)),
            None => None,
        }
    } else if kind == Some("block_checkpoint"@) || kind == Some("round_completed"@) || kind == Some(
        "provider_retrying"@,
    ) || kind == Some("provider_tool_status"@) {
        Some(ActivityEventView::Touched)
    } else {
        None
    }
}

/// `activity_in`, executable.
pub fn parse_conversation_activity_event(event: &Json) -> (r: Option<ConversationActivityEvent>)
    ensures
        model::opt_view(r) == activity_in(event@),
{
    let kind = match event.text_field("type") {
        Some(kind) => kind,
        None => return None,
    };
    let kind = kind.as_str();
    if text::same(kind, "turn_started") {
        Some(ConversationActivityEvent::Started)
    } else if text::same(kind, "turn_completed") || text::same(kind, "turn_failed") || text::same(
        kind,
        "conversation_cancelled",
    ) {
        Some(ConversationActivityEvent::Ended)
    } else if text::same(kind, "usage_updated") {
        let prompt_tokens: u64 = match event.get("usage") {
            Some(usage) => usage.count("prompt_tokens"),
            None => 0,
        };
        Some(
            ConversationActivityEvent::Usage {
                prompt_tokens,
                context_limit: event.count("context_limit"),
                model: event.text_or_empty("model"),
            },
        )
    } else if text::same(kind, "round_delta") {
        match event.text_field("kind") {
            Some(delta) => {
                if text::same(delta.as_str(), "thinking") {
                    Some(ConversationActivityEvent::Delta(WorkPhase::Thinking))
                } else if text::same(delta.as_str(), "answering") {
                    Some(ConversationActivityEvent::Delta(WorkPhase::Answering))
                } else {
                    None
                }
            },
            None => None,
        }
    } else if text::same(kind, "block_checkpoint") || text::same(kind, "round_completed")
        || text::same(kind, "provider_retrying") || text::same(kind, "provider_tool_status") {
        Some(ConversationActivityEvent::Touched)
    } else {
        None
    }
}

} // verus!
