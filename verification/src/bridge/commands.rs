//! What the shell asks of the daemon, and how it takes the replies.

use vstd::prelude::*;

use crate::bridge::bridge_core;
use crate::bridge::bridge_core::{BridgeCore, CoreView};
use crate::bridge::composer::{ComposerFeedback, FeedbackView, ToolModeState, ToolModeView};
use crate::bridge::composer_view::{ComposerAttachment, ComposerTextFile};
use crate::bridge::interaction::{AskAnswer, AskAnswerView};
use crate::bridge::reducer;
use crate::bridge::store::{SkillsSnapshot, SkillsView};
use crate::json::{Json, JsonView};
use crate::model;
use crate::model::Same;
use crate::seed_map;
use crate::text;

verus! {

broadcast use {model::map_views_insert, model::map_views_remove, model::map_views_empty};

// ---------------------------------------------------------------------------
// Identifiers
// ---------------------------------------------------------------------------

/// The identifier of the `n`-th command, given at `ms` milliseconds.
pub open spec fn command_id(ms: u64, n: u64) -> Seq<char> {
    "xaml-"@ + text::decimal(ms as nat) + "-"@ + text::decimal(n as nat)
}

/// Hands out identifiers for commands.
#[derive(Debug)]
pub struct CommandIds {
    pub next: u64,
}

impl CommandIds {
    /// Nothing was handed out yet.
    pub fn new() -> (r: CommandIds)
        ensures
            r.next == 0,
    {
        CommandIds { next: 0 }
    }

    /// Hands out an identifier at `ms` milliseconds.
    pub fn next_command_id(&mut self, ms: u64) -> (r: String)
        ensures
            r@ == command_id(ms, old(self).next),
            final(self).next == model::next_rev(old(self).next),
    {
        let n: u64 = self.next;
        self.next = model::bump(n);
        let start = text::join2("xaml-", text::decimal_of(ms).as_str());
        text::join3(start.as_str(), "-", text::decimal_of(n).as_str())
    }
}

/// Two commands have the same identifier only if they have the same number, and
/// were given at the same time.
pub proof fn command_ids_differ(ms: u64, n: u64, other_ms: u64, other_n: u64)
    requires
        command_id(ms, n) == command_id(other_ms, other_n),
    ensures
        n == other_n,
        ms == other_ms,
{
    let a = text::decimal(ms as nat);
    let b = text::decimal(other_ms as nat);
    let x = text::decimal(n as nat);
    let y = text::decimal(other_n as nat);
    let s = command_id(ms, n);
    let t = command_id(other_ms, other_n);
    reveal_strlit("xaml-");
    reveal_strlit("-");
    text::decimal_is_digits(ms as nat);
    text::decimal_is_digits(other_ms as nat);
    assert(s[5 + a.len() as int] == '-');
    assert(t[5 + b.len() as int] == '-');
    assert forall|i: int| 0 <= i < a.len() implies #[trigger] s[5 + i] == a[i] by {}
    assert forall|i: int| 0 <= i < b.len() implies #[trigger] t[5 + i] == b[i] by {}
    if a.len() < b.len() {
        assert(t[5 + a.len() as int] == b[a.len() as int]);
        assert(false);
    }
    if b.len() < a.len() {
        assert(s[5 + b.len() as int] == a[b.len() as int]);
        assert(false);
    }
    assert forall|i: int| 0 <= i < a.len() implies a[i] == b[i] by {
        assert(s[5 + i] == a[i]);
        assert(t[5 + i] == b[i]);
    }
    assert(a =~= b);
    text::decimal_is_injective(ms as nat, other_ms as nat);
    assert(x =~= s.skip(6 + a.len() as int));
    assert(y =~= t.skip(6 + b.len() as int));
    text::decimal_is_injective(n as nat, other_n as nat);
}

// ---------------------------------------------------------------------------
// Modes
// ---------------------------------------------------------------------------

/// The mode in which a session works.
#[derive(Debug, Clone, Copy, PartialEq, Eq, Structural)]
pub enum ConversationMode {
    Plan,
    Code,
}

/// The mode of this name; any other name than plan means code.
pub open spec fn mode_named(name: Seq<char>) -> ConversationMode {
    if name == "plan"@ {
        ConversationMode::Plan
    } else {
        ConversationMode::Code
    }
}

/// A request to change the tools of a session.
#[derive(Debug)]
pub struct SetToolMode {
    pub seed: String,
    pub tool_mode: String,
    pub custom_tools: Vec<String>,
}

/// Whether a change of the tool mode is sent: the mode is a known one, a session
/// is active, and something changes.
pub open spec fn tool_mode_changes(c: CoreView, known: bool, wanted: ToolModeView) -> bool {
    known && c.active_seed.len() > 0 && c.composer_tool_mode != wanted
}

impl BridgeCore {
    /// Switches the mode of the composer at once, and says what to ask of the
    /// daemon.
    pub fn spawn_set_mode(&mut self, mode: &str) -> (r: ConversationMode)
        ensures
            r == mode_named(mode@),
            final(self)@ == (CoreView {
                composer_mode: mode@,
                composer_rev: model::next_rev(old(self)@.composer_rev),
                ..old(self)@
            }),
    {
        self.composer_mode = mode.to_owned();
        self.composer_rev = model::bump(self.composer_rev);
        if text::same(mode, "plan") {
            ConversationMode::Plan
        } else {
            ConversationMode::Code
        }
    }

    /// Switches the tools of the composer at once, and says what to ask of the
    /// daemon. `known` says whether the daemon knows this mode; one it does not
    /// know changes nothing, here or there.
    pub fn spawn_set_tool_mode(
        &mut self,
        known: bool,
        tool_mode: String,
        custom_tools: Vec<String>,
    ) -> (r: Option<SetToolMode>)
        ensures
            ({
                let wanted = ToolModeView {
                    mode: tool_mode@,
                    custom_tools: model::views(custom_tools@),
                };
                &&& r is Some <==> tool_mode_changes(old(self)@, known, wanted)
                &&& r matches Some(request) ==> {
                    &&& request.seed@ == old(self)@.active_seed
                    &&& request.tool_mode@ == wanted.mode
                    &&& model::views(request.custom_tools@) == wanted.custom_tools
                }
                &&& final(self)@ == (if tool_mode_changes(old(self)@, known, wanted) {
                    CoreView {
                        composer_tool_mode: wanted,
                        composer_rev: model::next_rev(old(self)@.composer_rev),
                        ..old(self)@
                    }
                } else {
                    old(self)@
                })
            }),
    {
        if !known || self.active_seed.as_str().is_empty() {
            return None;
        }
        let wanted = ToolModeState { mode: tool_mode, custom_tools };
        if self.composer_tool_mode.same_as(&wanted) {
            return None;
        }
        let request = SetToolMode {
            seed: self.active_seed.clone(),
            tool_mode: wanted.mode.clone(),
            custom_tools: model::duplicate_all(&wanted.custom_tools),
        };
        self.composer_tool_mode = wanted;
        self.composer_rev = model::bump(self.composer_rev);
        Some(request)
    }
}

// ---------------------------------------------------------------------------
// Messages
// ---------------------------------------------------------------------------

/// A file to hand to the daemon before the message that goes with it.
#[derive(Debug)]
pub struct Upload {
    pub path: String,
    pub file_name: String,
    pub mime_type: String,
}

/// The model of an `Upload`.
#[verifier::ext_equal]
pub struct UploadView {
    pub path: Seq<char>,
    pub file_name: Seq<char>,
    pub mime_type: Seq<char>,
}

impl View for Upload {
    type V = UploadView;

    open spec fn view(&self) -> UploadView {
        UploadView {
            path: self.path@,
            file_name: self.file_name@,
            mime_type: self.mime_type@,
        }
    }
}

/// The upload of an image.
pub open spec fn image_upload(image: ComposerAttachment) -> UploadView {
    UploadView {
        path: image.path@,
        file_name: image.file_name@,
        mime_type: image.mime_type@,
    }
}

/// The upload of a text file.
pub open spec fn text_upload(file: ComposerTextFile) -> UploadView {
    UploadView { path: file.path@, file_name: file.file_name@, mime_type: "text/plain"@ }
}

/// Only the word plan stands for the plan mode.
pub proof fn only_plan_means_plan(name: Seq<char>)
    ensures
        mode_named("plan"@) == ConversationMode::Plan,
        name != "plan"@ ==> mode_named(name) == ConversationMode::Code,
{
}

/// A tool mode is asked for exactly when it is a known one, a session is active,
/// and it is not the one in use already.
pub proof fn only_another_tool_mode_is_sent(c: CoreView, known: bool, wanted: ToolModeView)
    ensures
        tool_mode_changes(c, known, wanted) ==> known && c.active_seed.len() > 0
            && c.composer_tool_mode != wanted,
        known && c.active_seed.len() > 0 && c.composer_tool_mode != wanted ==> tool_mode_changes(
            c,
            known,
            wanted,
        ),
{
}

/// A file goes by its own path and name. An image keeps its type, a text file is
/// plain text.
pub proof fn files_go_by_their_own_names(image: ComposerAttachment, file: ComposerTextFile)
    ensures
        image_upload(image).path == image.path@,
        image_upload(image).file_name == image.file_name@,
        image_upload(image).mime_type == image.mime_type@,
        text_upload(file).path == file.path@,
        text_upload(file).file_name == file.file_name@,
        text_upload(file).mime_type == "text/plain"@,
{
}

/// The files of a message in the order in which they are handed over: the images
/// first, then the text files.
pub fn message_uploads(
    images: &Vec<ComposerAttachment>,
    text_files: &Vec<ComposerTextFile>,
) -> (r: Vec<Upload>)
    ensures
        model::views(r@) == Seq::new(images@.len(), |i: int| image_upload(images@[i]))
            + Seq::new(text_files@.len(), |i: int| text_upload(text_files@[i])),
{
    let mut out: Vec<Upload> = Vec::new();
    let mut i: usize = 0;
    while i < images.len()
        invariant
            i <= images@.len(),
            out@.len() == i,
            forall|k: int| 0 <= k < i ==> (#[trigger] out@[k])@ == image_upload(images@[k]),
        decreases images@.len() - i,
    {
        out.push(
            Upload {
                path: images[i].path.clone(),
                file_name: images[i].file_name.clone(),
                mime_type: images[i].mime_type.clone(),
            },
        );
        i = i + 1;
    }
    let mut j: usize = 0;
    while j < text_files.len()
        invariant
            j <= text_files@.len(),
            out@.len() == images@.len() + j,
            forall|k: int|
                0 <= k < images@.len() ==> (#[trigger] out@[k])@ == image_upload(images@[k]),
            forall|k: int|
                images@.len() <= k < out@.len() ==> (#[trigger] out@[k])@ == text_upload(
                    text_files@[k - images@.len()],
                ),
        decreases text_files@.len() - j,
    {
        out.push(
            Upload {
                path: text_files[j].path.clone(),
                file_name: text_files[j].file_name.clone(),
                mime_type: "text/plain".to_owned(),
            },
        );
        j = j + 1;
    }
    assert(model::views(out@) =~= Seq::new(images@.len(), |i: int| image_upload(images@[i]))
        + Seq::new(text_files@.len(), |i: int| text_upload(text_files@[i])));
    out
}

/// The attachments of a message: none rather than an empty list.
pub fn message_attachments<T>(uploaded: Vec<T>) -> (r: Option<Vec<T>>)
    ensures
        r == (if uploaded@.len() == 0 {
            None
        } else {
            Some(uploaded)
        }),
{
    if uploaded.len() == 0 {
        None
    } else {
        Some(uploaded)
    }
}

/// The state after the daemon took or refused a message of `seed`.
pub open spec fn after_send(
    c: CoreView,
    seed: Seq<char>,
    refusal: Option<Seq<char>>,
) -> CoreView {
    let feedback = reducer::feedback_of(c, seed);
    CoreView {
        composer_feedback: c.composer_feedback.insert(
            seed,
            match refusal {
                None => FeedbackView {
                    submit_error: Seq::empty(),
                    send_ack: model::next_rev(feedback.send_ack),
                },
                Some(error) => FeedbackView { submit_error: error, ..feedback },
            },
        ),
        composer_rev: model::next_rev(c.composer_rev),
        ..c
    }
}

/// A message that was taken is acknowledged and takes the error of an earlier one
/// away; one that was refused shows why and is not acknowledged. The other
/// sessions' messages are left alone.
pub proof fn sent_messages_are_acknowledged(
    c: CoreView,
    seed: Seq<char>,
    refusal: Option<Seq<char>>,
    other: Seq<char>,
)
    requires
        c.composer_feedback.contains_key(seed),
    ensures
        ({
            let before = c.composer_feedback[seed];
            let after = after_send(c, seed, refusal);
            let now = after.composer_feedback[seed];
            &&& after.composer_feedback.contains_key(seed)
            &&& refusal is None ==> now.submit_error.len() == 0 && now.send_ack != before.send_ack
            &&& refusal is None && before.send_ack < u64::MAX ==> now.send_ack == before.send_ack
                + 1
            &&& refusal matches Some(error) ==> now.submit_error == error && now.send_ack
                == before.send_ack
            &&& after.composer_rev != c.composer_rev
            &&& other != seed ==> after.composer_feedback.contains_key(other)
                == c.composer_feedback.contains_key(other)
            &&& other != seed && c.composer_feedback.contains_key(other)
                ==> after.composer_feedback[other] == c.composer_feedback[other]
            &&& after.composer_activity == c.composer_activity
            &&& after.active_seed == c.active_seed
        }),
{
}

/// What becomes of a message shows in the composer of the session that it was
/// sent from, and in no other.
pub proof fn feedback_stays_with_its_session(
    c: CoreView,
    seed: Seq<char>,
    other: Seq<char>,
    refusal: Option<Seq<char>>,
)
    requires
        other != seed,
    ensures
        reducer::feedback_of(after_send(c, seed, refusal), other) == reducer::feedback_of(
            c,
            other,
        ),
{
}

impl BridgeCore {
    /// Notes that the daemon took a message of `seed`, or why it did not.
    pub fn finish_send(&mut self, seed: &str, refusal: Option<String>)
        ensures
            final(self)@ == after_send(old(self)@, seed@, model::opt_view(refusal)),
    {
        let ghost all = self@.composer_feedback;
        let mut feedback = match self.composer_feedback.remove(seed) {
            Some(feedback) => feedback,
            None => ComposerFeedback::default(),
        };
        match refusal {
            None => {
                feedback.send_ack = model::bump(feedback.send_ack);
                feedback.submit_error = String::new();
            },
            Some(error) => {
                feedback.submit_error = error;
            },
        }
        self.composer_feedback.insert(seed.to_owned(), feedback);
        self.composer_rev = model::bump(self.composer_rev);
        assert(all.remove(seed@).insert(seed@, feedback@) =~= all.insert(seed@, feedback@));
    }
}

// ---------------------------------------------------------------------------
// New sessions
// ---------------------------------------------------------------------------

/// How often the list of sessions is read again until a new one shows.
pub const NEW_SESSION_POLLS: u32 = 30;

/// What follows a look at the list of sessions.
#[derive(Debug)]
pub enum NewSessionStep {
    /// Look again after half a second.
    Wait,
    /// This session is new.
    Found { seed: String },
    /// No new session showed in time.
    GiveUp,
}

/// The model of a `NewSessionStep`.
#[verifier::ext_equal]
pub enum NewSessionStepView {
    Wait,
    Found { seed: Seq<char> },
    GiveUp,
}

impl View for NewSessionStep {
    type V = NewSessionStepView;

    open spec fn view(&self) -> NewSessionStepView {
        match self {
            NewSessionStep::Wait => NewSessionStepView::Wait,
            NewSessionStep::Found { seed } => NewSessionStepView::Found { seed: seed@ },
            NewSessionStep::GiveUp => NewSessionStepView::GiveUp,
        }
    }
}

/// The first of `seeds` that is not among `before`.
pub open spec fn first_new(seeds: Seq<Seq<char>>, before: Seq<Seq<char>>) -> Option<Seq<char>>
    decreases seeds.len(),
{
    if seeds.len() == 0 {
        None
    } else if !before.contains(seeds[0]) {
        Some(seeds[0])
    } else {
        first_new(seeds.skip(1), before)
    }
}

/// What follows the `polls`-th look at the list of sessions.
pub open spec fn new_session_step(
    seeds: Seq<Seq<char>>,
    before: Seq<Seq<char>>,
    polls: u32,
) -> NewSessionStepView {
    match first_new(seeds, before) {
        Some(seed) => NewSessionStepView::Found { seed },
        None => if polls < NEW_SESSION_POLLS {
            NewSessionStepView::Wait
        } else {
            NewSessionStepView::GiveUp
        },
    }
}

/// A new session ends the wait at once, however often the list was looked at: the
/// first one listed that was not there before is it. Without one the list is
/// looked at again until it was looked at often enough, and then no more.
pub proof fn first_new_session_ends_the_wait(
    seeds: Seq<Seq<char>>,
    before: Seq<Seq<char>>,
    polls: u32,
    i: int,
)
    ensures
        0 <= i < seeds.len() && !before.contains(seeds[i]) && (forall|j: int|
            0 <= j < i ==> before.contains(#[trigger] seeds[j])) ==> new_session_step(
            seeds,
            before,
            polls,
        ) == (NewSessionStepView::Found { seed: seeds[i] }),
        (forall|j: int| 0 <= j < seeds.len() ==> before.contains(#[trigger] seeds[j])) ==> (
        new_session_step(seeds, before, polls) is Wait <==> polls < NEW_SESSION_POLLS),
        (forall|j: int| 0 <= j < seeds.len() ==> before.contains(#[trigger] seeds[j])) ==> (
        new_session_step(seeds, before, polls) is GiveUp <==> polls >= NEW_SESSION_POLLS),
{
    if 0 <= i < seeds.len() && !before.contains(seeds[i]) && (forall|j: int|
        0 <= j < i ==> before.contains(#[trigger] seeds[j])) {
        first_new_is_first(seeds, before, i);
    }
    if forall|j: int| 0 <= j < seeds.len() ==> before.contains(#[trigger] seeds[j]) {
        found_session_is_new(seeds, before);
        if let Some(seed) = first_new(seeds, before) {
            let k = choose|k: int| 0 <= k < seeds.len() && seeds[k] == seed;
            assert(before.contains(seeds[k]));
        }
    }
}

/// The first seed that was not there before is the one found.
proof fn first_new_is_first(seeds: Seq<Seq<char>>, before: Seq<Seq<char>>, i: int)
    requires
        0 <= i < seeds.len(),
        !before.contains(seeds[i]),
        forall|j: int| 0 <= j < i ==> before.contains(#[trigger] seeds[j]),
    ensures
        first_new(seeds, before) == Some(seeds[i]),
    decreases i,
{
    if i > 0 {
        assert(before.contains(seeds[0]));
        let rest = seeds.skip(1);
        assert(rest[i - 1] == seeds[i]);
        assert forall|j: int| 0 <= j < i - 1 implies before.contains(#[trigger] rest[j]) by {
            assert(before.contains(seeds[j + 1]));
        }
        first_new_is_first(rest, before, i - 1);
    }
}

/// A session that was there before is never taken for the new one, and a new one
/// is found if there is any.
pub proof fn found_session_is_new(seeds: Seq<Seq<char>>, before: Seq<Seq<char>>)
    ensures
        first_new(seeds, before) matches Some(seed) ==> seeds.contains(seed) && !before.contains(
            seed,
        ),
        first_new(seeds, before) is None ==> forall|i: int|
            0 <= i < seeds.len() ==> before.contains(#[trigger] seeds[i]),
    decreases seeds.len(),
{
    if seeds.len() > 0 {
        let rest = seeds.skip(1);
        if before.contains(seeds[0]) {
            found_session_is_new(rest, before);
            if let Some(seed) = first_new(rest, before) {
                let i = choose|i: int| 0 <= i < rest.len() && rest[i] == seed;
                assert(seeds[i + 1] == seed);
            } else {
                assert forall|i: int| 0 <= i < seeds.len() implies before.contains(
                    #[trigger] seeds[i],
                ) by {
                    if i > 0 {
                        assert(rest[i - 1] == seeds[i]);
                    }
                }
            }
        } else {
            assert(seeds[0] == seeds[0]);
        }
    }
}

impl BridgeCore {
    /// What follows the `polls`-th look at the list of sessions, given the seeds
    /// that were listed before the new session was asked for.
    pub fn new_session_step(&self, before: &Vec<String>, polls: u32) -> (r: NewSessionStep)
        ensures
            r@ == new_session_step(
                Seq::new(self@.sessions.len(), |i: int| self@.sessions[i].seed),
                model::views(before@),
                polls,
            ),
    {
        let ghost all = Seq::new(self@.sessions.len(), |i: int| self@.sessions[i].seed);
        let ghost old_seeds = model::views(before@);
        let mut i: usize = 0;
        assert(all.skip(0) =~= all);
        while i < self.sessions.len()
            invariant
                i <= self.sessions@.len(),
                all.len() == self.sessions@.len(),
                all == Seq::new(self@.sessions.len(), |i: int| self@.sessions[i].seed),
                old_seeds == model::views(before@),
                first_new(all, old_seeds) == first_new(all.skip(i as int), old_seeds),
            decreases self.sessions@.len() - i,
        {
            let ghost rest = all.skip(i as int);
            assert(rest[0] == self.sessions@[i as int].seed@);
            if !seed_map::listed(before, self.sessions[i].seed.as_str()) {
                return NewSessionStep::Found { seed: self.sessions[i].seed.clone() };
            }
            assert(rest.skip(1) =~= all.skip(i + 1));
            i = i + 1;
        }
        if polls < NEW_SESSION_POLLS {
            NewSessionStep::Wait
        } else {
            NewSessionStep::GiveUp
        }
    }

    /// Shows a session that was created.
    pub fn finish_new_session(&mut self, seed: &str, now: u64)
        ensures
            final(self)@ == bridge_core::navigated(
                bridge_core::activated(old(self)@, seed@, now),
                "chat"@,
                Some(seed@),
                now,
            ),
    {
        self.set_active_seed(seed, now);
        self.navigate("chat", Some(seed), now);
    }
}

// ---------------------------------------------------------------------------
// Taking back a turn
// ---------------------------------------------------------------------------

/// How often the fate of an undo is asked for.
pub const UNDO_POLLS: u32 = 20;

/// How far the daemon is with a command.
#[derive(Debug, Clone, Copy, PartialEq, Eq, Structural)]
pub enum CommandState {
    Pending,
    Succeeded,
    Failed,
    Rejected,
}

/// What follows an answer about an undo.
#[derive(Debug, Clone, Copy, PartialEq, Eq, Structural)]
pub enum UndoStep {
    /// Ask again after fifty milliseconds.
    Poll,
    /// Read the timeline again.
    Refresh,
    /// Another session is shown now; the timeline is read again when this one is
    /// selected.
    Defer,
    /// The turn stays.
    Stop,
}

/// What follows the `polls`-th answer about an undo in `seed`. No answer at all
/// counts as pending.
pub open spec fn undo_step(
    c: CoreView,
    seed: Seq<char>,
    polls: u32,
    state: Option<CommandState>,
) -> UndoStep {
    match state {
        Some(CommandState::Failed) | Some(CommandState::Rejected) => UndoStep::Stop,
        _ => if state != Some(CommandState::Succeeded) && polls < UNDO_POLLS {
            UndoStep::Poll
        } else if c.active_seed == seed {
            UndoStep::Refresh
        } else {
            UndoStep::Defer
        },
    }
}

/// An undo that failed or was rejected leaves the turn, whenever the answer comes.
/// One that succeeded is followed by another look at the timeline, at once if its
/// session is active and later if not. One that is neither is asked about again
/// until that was done often enough; then it counts as done.
pub proof fn undo_follows_the_answer(
    c: CoreView,
    seed: Seq<char>,
    polls: u32,
    state: Option<CommandState>,
)
    ensures
        ({
            let step = undo_step(c, seed, polls, state);
            let refused = state == Some(CommandState::Failed) || state == Some(
                CommandState::Rejected,
            );
            let done = state == Some(CommandState::Succeeded);
            &&& step == UndoStep::Stop <==> refused
            &&& step == UndoStep::Poll <==> !refused && !done && polls < UNDO_POLLS
            &&& done && c.active_seed == seed ==> step == UndoStep::Refresh
            &&& done && c.active_seed != seed ==> step == UndoStep::Defer
            &&& !refused && polls >= UNDO_POLLS ==> (step == UndoStep::Refresh <==> c.active_seed
                == seed)
        }),
{
}

/// An undo never replaces the timeline of another session.
pub proof fn undo_refreshes_the_active_session_only(
    c: CoreView,
    seed: Seq<char>,
    polls: u32,
    state: Option<CommandState>,
)
    requires
        c.active_seed != seed,
    ensures
        undo_step(c, seed, polls, state) != UndoStep::Refresh,
{
}

impl BridgeCore {
    /// What follows the `polls`-th answer about an undo in `seed`.
    pub fn spawn_undo_turn(&self, seed: &str, polls: u32, state: Option<CommandState>) -> (r:
        UndoStep)
        ensures
            r == undo_step(self@, seed@, polls, state),
    {
        match state {
            Some(CommandState::Failed) | Some(CommandState::Rejected) => {
                return UndoStep::Stop;
            },
            Some(CommandState::Succeeded) => {},
            _ => {
                if polls < UNDO_POLLS {
                    return UndoStep::Poll;
                }
            },
        }
        if text::same(self.active_seed.as_str(), seed) {
            UndoStep::Refresh
        } else {
            UndoStep::Defer
        }
    }
}

// ---------------------------------------------------------------------------
// Answers to interactions
// ---------------------------------------------------------------------------

/// An answer to a question that the daemon asked.
#[derive(Debug)]
pub enum InteractionCommand {
    ToolPermissionRespond { tool_call_id: String, approved: bool, trust_folder: bool },
    AskRespond { interaction_id: String, answers: Vec<AskAnswer> },
    AskDismiss { interaction_id: String },
    PlanReviewRespond {
        interaction_id: String,
        approved: bool,
        message: Option<String>,
        autonomous: bool,
    },
}

/// The model of an `InteractionCommand`.
#[verifier::ext_equal]
pub enum InteractionCommandView {
    ToolPermissionRespond { tool_call_id: Seq<char>, approved: bool, trust_folder: bool },
    AskRespond { interaction_id: Seq<char>, answers: Seq<AskAnswerView> },
    AskDismiss { interaction_id: Seq<char> },
    PlanReviewRespond {
        interaction_id: Seq<char>,
        approved: bool,
        message: Option<Seq<char>>,
        autonomous: bool,
    },
}

impl View for InteractionCommand {
    type V = InteractionCommandView;

    open spec fn view(&self) -> InteractionCommandView {
        match self {
            InteractionCommand::ToolPermissionRespond { tool_call_id, approved, trust_folder } =>
                InteractionCommandView::ToolPermissionRespond {
                    tool_call_id: tool_call_id@,
                    approved: *approved,
                    trust_folder: *trust_folder,
                },
            InteractionCommand::AskRespond { interaction_id, answers } =>
                InteractionCommandView::AskRespond {
                    interaction_id: interaction_id@,
                    answers: model::views(answers@),
                },
            InteractionCommand::AskDismiss { interaction_id } =>
                InteractionCommandView::AskDismiss { interaction_id: interaction_id@ },
            InteractionCommand::PlanReviewRespond {
                interaction_id,
                approved,
                message,
                autonomous,
            } => InteractionCommandView::PlanReviewRespond {
                interaction_id: interaction_id@,
                approved: *approved,
                message: model::opt_view(*message),
                autonomous: *autonomous,
            },
        }
    }
}

/// Why an answer is not sent.
#[derive(Debug, Clone, Copy, PartialEq, Eq, Structural)]
pub enum ResponseError {
    UnknownMethod,
    InvalidAnswers,
}

/// What the user wrote to a plan; an empty message is none.
pub open spec fn plan_message(params: JsonView) -> Option<Seq<char>> {
    match params.text_field("message"@) {
        Some(message) => if message.len() > 0 {
            Some(message)
        } else {
            None
        },
        None => None,
    }
}

/// The answer that a method of the overlay stands for. `answers` are the typed
/// answers of the form: empty where it holds none, `None` where they do not have
/// the form of answers.
pub open spec fn response_of(
    method: Seq<char>,
    params: JsonView,
    answers: Option<Seq<AskAnswerView>>,
) -> Result<InteractionCommandView, ResponseError> {
    if method == "interaction.permission"@ {
        Ok(
            InteractionCommandView::ToolPermissionRespond {
                tool_call_id: params.text_or_empty("toolCallId"@),
                approved: params.flag("approved"@),
                trust_folder: params.flag("trustFolder"@),
            },
        )
    } else if method == "interaction.ask_response"@ {
        match answers {
            Some(answers) => Ok(
                InteractionCommandView::AskRespond {
                    interaction_id: params.text_or_empty("askId"@),
                    answers,
                },
            ),
            None => Err(ResponseError::InvalidAnswers),
        }
    } else if method == "interaction.ask_dismiss"@ {
        Ok(
            InteractionCommandView::AskDismiss {
                interaction_id: params.text_or_empty("askId"@),
            },
        )
    } else if method == "interaction.plan_review"@ {
        Ok(
            InteractionCommandView::PlanReviewRespond {
                interaction_id: params.text_or_empty("callId"@),
                approved: params.flag("approved"@),
                message: plan_message(params),
                autonomous: params.flag("autonomous"@),
            },
        )
    } else {
        Err(ResponseError::UnknownMethod)
    }
}

/// Nothing is approved, trusted or set free unless the user's answer says so.
pub proof fn nothing_is_approved_by_default(
    method: Seq<char>,
    params: JsonView,
    answers: Option<Seq<AskAnswerView>>,
)
    ensures
        match response_of(method, params, answers) {
            Ok(InteractionCommandView::ToolPermissionRespond { approved, trust_folder, .. }) => {
                &&& approved ==> params.field("approved"@) == Some(JsonView::Bool(true))
                &&& trust_folder ==> params.field("trustFolder"@) == Some(JsonView::Bool(true))
            },
            Ok(InteractionCommandView::PlanReviewRespond { approved, autonomous, .. }) => {
                &&& approved ==> params.field("approved"@) == Some(JsonView::Bool(true))
                &&& autonomous ==> params.field("autonomous"@) == Some(JsonView::Bool(true))
            },
            _ => true,
        },
{
}

/// What the user decided is what is sent. A permission is given, a folder trusted,
/// a plan approved or set free if and only if the field of that name is the JSON
/// value `true`. The answer goes to the call or form that the parameters name, and
/// carries what the user wrote.
pub proof fn answers_are_sent_as_given(params: JsonView, answers: Option<Seq<AskAnswerView>>)
    ensures
        response_of("interaction.permission"@, params, answers) matches Ok(
            InteractionCommandView::ToolPermissionRespond { tool_call_id, approved, trust_folder },
        ) && {
            &&& approved <==> params.field("approved"@) == Some(JsonView::Bool(true))
            &&& trust_folder <==> params.field("trustFolder"@) == Some(JsonView::Bool(true))
            &&& params.field("toolCallId"@) matches Some(JsonView::Text(id)) ==> tool_call_id == id
            &&& !(params.field("toolCallId"@) matches Some(JsonView::Text(_)))
                ==> tool_call_id.len() == 0
        },
        response_of("interaction.plan_review"@, params, answers) matches Ok(
            InteractionCommandView::PlanReviewRespond {
                interaction_id,
                approved,
                message,
                autonomous,
            },
        ) && {
            &&& approved <==> params.field("approved"@) == Some(JsonView::Bool(true))
            &&& autonomous <==> params.field("autonomous"@) == Some(JsonView::Bool(true))
            &&& params.field("callId"@) matches Some(JsonView::Text(id)) ==> interaction_id == id
            &&& !(params.field("callId"@) matches Some(JsonView::Text(_)))
                ==> interaction_id.len() == 0
            &&& params.field("message"@) matches Some(JsonView::Text(said)) ==> message == (
            if said.len() > 0 {
                Some(said)
            } else {
                None
            })
            &&& !(params.field("message"@) matches Some(JsonView::Text(_))) ==> message is None
        },
        response_of("interaction.ask_dismiss"@, params, answers) matches Ok(
            InteractionCommandView::AskDismiss { interaction_id },
        ) && {
            &&& params.field("askId"@) matches Some(JsonView::Text(id)) ==> interaction_id == id
            &&& !(params.field("askId"@) matches Some(JsonView::Text(_)))
                ==> interaction_id.len() == 0
        },
        match answers {
            Some(given) => response_of("interaction.ask_response"@, params, answers) matches Ok(
                InteractionCommandView::AskRespond { interaction_id, answers: sent },
            ) && {
                &&& sent == given
                &&& params.field("askId"@) matches Some(JsonView::Text(id)) ==> interaction_id == id
                &&& !(params.field("askId"@) matches Some(JsonView::Text(_)))
                    ==> interaction_id.len() == 0
            },
            None => response_of("interaction.ask_response"@, params, answers) matches Err(
                ResponseError::InvalidAnswers,
            ),
        },
{
    reveal_strlit("interaction.permission");
    reveal_strlit("interaction.plan_review");
    reveal_strlit("interaction.ask_dismiss");
    reveal_strlit("interaction.ask_response");
    assert("interaction.permission"@[12] == 'p');
    assert("interaction.plan_review"@[13] == 'l');
    assert("interaction.permission"@[13] == 'e');
    assert("interaction.ask_response"@[12] == 'a');
    assert("interaction.ask_dismiss"@[12] == 'a');
    assert("interaction.plan_review"@[12] == 'p');
    assert("interaction.ask_response"@[16] == 'r');
    assert("interaction.ask_dismiss"@[16] == 'd');
}

/// Nothing but the four methods of the overlay is sent.
pub proof fn other_methods_send_nothing(
    method: Seq<char>,
    params: JsonView,
    answers: Option<Seq<AskAnswerView>>,
)
    requires
        method != "interaction.permission"@,
        method != "interaction.plan_review"@,
        method != "interaction.ask_dismiss"@,
        method != "interaction.ask_response"@,
    ensures
        response_of(method, params, answers) matches Err(ResponseError::UnknownMethod),
{
}

/// The models of typed answers.
pub open spec fn answers_view(answers: Option<Vec<AskAnswer>>) -> Option<Seq<AskAnswerView>> {
    match answers {
        Some(answers) => Some(model::views(answers@)),
        None => None,
    }
}

/// `response_of`, executable. The session that the answer goes to is the field
/// `seed` of `params`.
pub fn spawn_interaction_response(
    method: &str,
    params: &Json,
    answers: Option<Vec<AskAnswer>>,
) -> (r: Result<(Option<String>, InteractionCommand), ResponseError>)
    ensures
        match r {
            Ok((seed, command)) => {
                &&& response_of(method@, params@, answers_view(answers)) == Ok::<
                    InteractionCommandView,
                    ResponseError,
                >(command@)
                &&& model::opt_view(seed) == params@.text_field("seed"@)
            },
            Err(error) => response_of(method@, params@, answers_view(answers)) == Err::<
                InteractionCommandView,
                ResponseError,
            >(error),
        },
{
    let seed = params.text_field("seed");
    if text::same(method, "interaction.permission") {
        let command = InteractionCommand::ToolPermissionRespond {
            tool_call_id: params.text_or_empty("toolCallId"),
            approved: params.flag("approved"),
            trust_folder: params.flag("trustFolder"),
        };
        return Ok((seed, command));
    }
    if text::same(method, "interaction.ask_response") {
        return match answers {
            Some(answers) => {
                let interaction_id = params.text_or_empty("askId");
                Ok((seed, InteractionCommand::AskRespond { interaction_id, answers }))
            },
            None => Err(ResponseError::InvalidAnswers),
        };
    }
    if text::same(method, "interaction.ask_dismiss") {
        let interaction_id = params.text_or_empty("askId");
        return Ok((seed, InteractionCommand::AskDismiss { interaction_id }));
    }
    if text::same(method, "interaction.plan_review") {
        let message = match params.text_field("message") {
            Some(message) => if message.as_str().is_empty() {
                None
            } else {
                Some(message)
            },
            None => None,
        };
        let command = InteractionCommand::PlanReviewRespond {
            interaction_id: params.text_or_empty("callId"),
            approved: params.flag("approved"),
            message,
            autonomous: params.flag("autonomous"),
        };
        return Ok((seed, command));
    }
    Err(ResponseError::UnknownMethod)
}

// ---------------------------------------------------------------------------
// Workspaces and skills
// ---------------------------------------------------------------------------

/// A request of one of the skills.
#[derive(Debug)]
pub struct SkillOperation {
    pub seed: String,
    pub operation_id: String,
    /// request, release or retain.
    pub action: String,
    pub name: String,
    /// The version of the skills that the user saw.
    pub expected_revision: u64,
}

impl BridgeCore {
    /// The session that a session's command goes to, if one is active.
    pub fn command_target(&self) -> (r: Option<String>)
        ensures
            model::opt_view(r) == (if self@.active_seed.len() > 0 {
                Some(self@.active_seed)
            } else {
                None
            }),
    {
        if self.active_seed.as_str().is_empty() {
            None
        } else {
            Some(self.active_seed.clone())
        }
    }

    /// What to ask of the daemon for a skill; nothing without an active session.
    pub fn spawn_skill_operation(
        &self,
        ids: &mut CommandIds,
        ms: u64,
        action: String,
        name: String,
    ) -> (r: Option<SkillOperation>)
        ensures
            r is Some <==> self@.active_seed.len() > 0,
            r matches Some(operation) ==> {
                &&& operation.seed@ == self@.active_seed
                &&& operation.operation_id@ == command_id(ms, old(ids).next)
                &&& operation.action@ == action@
                &&& operation.name@ == name@
                &&& operation.expected_revision == (match self@.skills {
                    Some(skills) => skills.operation_revision,
                    None => 0,
                })
            },
            final(ids).next == (if self@.active_seed.len() > 0 {
                model::next_rev(old(ids).next)
            } else {
                old(ids).next
            }),
    {
        if self.active_seed.as_str().is_empty() {
            return None;
        }
        let expected_revision: u64 = match &self.skills {
            Some(skills) => skills.operation_revision,
            None => 0,
        };
        Some(
            SkillOperation {
                seed: self.active_seed.clone(),
                operation_id: ids.next_command_id(ms),
                action,
                name,
                expected_revision,
            },
        )
    }

    /// The session whose skills have to be fetched: the active one, if none are
    /// cached.
    pub fn ensure_skills(&self) -> (r: Option<String>)
        ensures
            model::opt_view(r) == (if self@.skills is None && self@.active_seed.len() > 0 {
                Some(self@.active_seed)
            } else {
                None
            }),
    {
        if self.skills.is_some() {
            return None;
        }
        self.command_target()
    }

    /// Takes over the skills that were fetched for `seed`, if there were any.
    pub fn finish_ensure_skills(&mut self, seed: String, fetched: Option<SkillsSnapshot>)
        ensures
            final(self)@ == (match model::opt_view(fetched) {
                Some(skills) => CoreView {
                    skills: Some(SkillsView { seed: seed@, ..skills }),
                    skills_rev: model::next_rev(old(self)@.skills_rev),
                    ..old(self)@
                },
                None => old(self)@,
            }),
    {
        if let Some(skills) = fetched {
            let mut snapshot = skills;
            snapshot.seed = seed;
            self.skills = Some(snapshot);
            self.skills_rev = model::bump(self.skills_rev);
        }
    }

    /// Shows why the workspace of a session could not be set: the daemon could
    /// not be reached.
    pub fn fail_workspace_connect(&mut self, error: &str)
        ensures
            final(self)@ == crate::bridge::sessions::with_workspace_feedback(
                old(self)@,
                None,
                Some("连接失败："@ + error@),
            ),
    {
        self.apply_workspace_feedback(None, Some(text::join2("连接失败：", error)));
    }

    /// Shows what became of setting the workspace of a session: `shown` is the
    /// path as it is shown, `refusal` why the daemon did not set it.
    pub fn finish_workspace_set(&mut self, shown: String, refusal: Option<String>)
        ensures
            final(self)@ == (match refusal {
                None => crate::bridge::sessions::with_workspace_feedback(
                    old(self)@,
                    Some(shown@),
                    None,
                ),
                Some(error) => crate::bridge::sessions::with_workspace_feedback(
                    old(self)@,
                    None,
                    Some("设置失败："@ + error@),
                ),
            }),
    {
        match refusal {
            None => {
                self.apply_workspace_feedback(Some(shown), None);
            },
            Some(error) => {
                self.apply_workspace_feedback(
                    None,
                    Some(text::join2("设置失败：", error.as_str())),
                );
            },
        }
    }
}

} // verus!
