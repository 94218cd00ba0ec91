//! What the events and metadata in their wire form stand for, field by field.

use vstd::prelude::*;

use crate::bridge::composer;
use crate::bridge::composer::{ActivityEventView, WorkPhaseView};
use crate::bridge::interaction;
use crate::bridge::interaction::{
    AskQuestionView, InteractionEventView, PlanTodoItemView, ToolPermissionEventView,
};
use crate::bridge::subagent;
use crate::bridge::subagent::SubagentState;
use crate::json::JsonView;
use crate::model;
use crate::text;

verus! {

/// Whether an event is of this type.
pub open spec fn of_type(event: JsonView, kind: Seq<char>) -> bool {
    event.field("type"@) == Some(JsonView::Text(kind))
}

/// The names of the types of control events differ.
proof fn control_types_differ()
    ensures
        "interaction_requested"@.len() == 21,
        "interaction_resolved"@.len() == 20,
        "plan_review_requested"@.len() == 21,
        "plan_review_requested"@ != "interaction_requested"@,
        "plan_review_resolved"@.len() == 20,
        "plan_review_resolved"@ != "interaction_resolved"@,
        "operation_failed"@.len() == 16,
{
    reveal_strlit("interaction_requested");
    reveal_strlit("interaction_resolved");
    reveal_strlit("plan_review_requested");
    reveal_strlit("plan_review_resolved");
    reveal_strlit("operation_failed");
    assert("plan_review_requested"@[0] == 'p');
    assert("interaction_requested"@[0] == 'i');
    assert("plan_review_resolved"@[0] == 'p');
    assert("interaction_resolved"@[0] == 'i');
}

/// A form that is requested opens under its own id, one that is resolved closes
/// under it, and plan reviews likewise. An event without an id does nothing.
pub proof fn interactions_go_by_their_id(event: JsonView, id: Seq<char>)
    requires
        event.field("interaction_id"@) == Some(JsonView::Text(id)),
    ensures
        of_type(event, "interaction_resolved"@) ==> interaction::interaction_in(event) == Some(
            InteractionEventView::AskResolved { id },
        ),
        of_type(event, "plan_review_resolved"@) ==> interaction::interaction_in(event) == Some(
            InteractionEventView::PlanResolved { id },
        ),
        of_type(event, "interaction_requested"@) && event.field("questions"@) is Some ==> (
        interaction::interaction_in(event) matches Some(
            InteractionEventView::AskRequested { id: opened, .. },
        ) && opened == id),
        event.field("plan_content"@) matches Some(JsonView::Text(content)) ==> (of_type(
            event,
            "plan_review_requested"@,
        ) ==> (interaction::interaction_in(event) matches Some(
            InteractionEventView::PlanRequested { id: opened, plan_content, .. },
        ) && opened == id && plan_content == content)),
{
    control_types_differ();
}

/// Without a type, an event does nothing; without an id, only a failed operation
/// does something.
pub proof fn events_without_id_do_nothing(event: JsonView)
    ensures
        !(event.field("type"@) matches Some(JsonView::Text(_))) ==> interaction::interaction_in(
            event,
        ) is None && interaction::permission_in(event) is None && composer::activity_in(
            event,
        ) is None,
        !(event.field("interaction_id"@) matches Some(JsonView::Text(_))) ==> (
        interaction::interaction_in(event) matches Some(ev) ==> ev is GhostCleanup),
        !(event.field("tool_call_id"@) matches Some(JsonView::Text(_)))
            ==> interaction::permission_in(event) is None,
{
}

/// A failed operation closes what is open exactly if its code says that the daemon
/// rejected the answer or does not know the interaction.
pub proof fn lost_interactions_are_closed(event: JsonView, error: JsonView, code: Seq<char>)
    requires
        of_type(event, "operation_failed"@),
        event.field("error"@) == Some(error),
        error.field("code"@) == Some(JsonView::Text(code)),
    ensures
        code == "ask_rejected"@ || code == "interaction_not_found"@ <==> interaction::interaction_in(
            event,
        ) == Some(InteractionEventView::GhostCleanup),
        code != "ask_rejected"@ && code != "interaction_not_found"@ <==> interaction::interaction_in(
            event,
        ) is None,
{
    control_types_differ();
}

/// A question has an id and a wording, which are texts; an answer of one's own is
/// allowed only where it says so.
pub proof fn questions_are_read_field_by_field(q: JsonView)
    ensures
        interaction::question_in(q) is Some <==> (q.field("id"@) matches Some(JsonView::Text(_)))
            && (q.field("question"@) matches Some(JsonView::Text(_))),
        interaction::question_in(q) matches Some(read) ==> {
            &&& q.field("id"@) == Some(JsonView::Text(read.id))
            &&& q.field("question"@) == Some(JsonView::Text(read.question))
            &&& read.allow_custom <==> q.field("allow_custom"@) == Some(JsonView::Bool(true))
        },
{
}

/// A task of a plan has an id and a title, which are texts; what else it says is
/// taken over if it is a text.
pub proof fn tasks_are_read_field_by_field(t: JsonView)
    ensures
        interaction::todo_in(t) is Some <==> (t.field("id"@) matches Some(JsonView::Text(_))) && (
        t.field("title"@) matches Some(JsonView::Text(_))),
        interaction::todo_in(t) matches Some(read) ==> {
            &&& t.field("id"@) == Some(JsonView::Text(read.id))
            &&& t.field("title"@) == Some(JsonView::Text(read.title))
            &&& t.field("description"@) matches Some(JsonView::Text(d)) ==> read.description == d
            &&& t.field("complexity"@) matches Some(JsonView::Text(c)) ==> read.complexity == c
        },
{
}

/// A request for a permission is taken over as it was sent, each text in its own
/// place. The end of a call takes its request away.
pub proof fn permissions_are_read_field_by_field(event: JsonView)
    ensures
        interaction::permission_in(event) matches Some(ToolPermissionEventView::Requested(p)) ==> {
            &&& of_type(event, "tool_permission_requested"@)
            &&& event.field("tool_call_id"@) == Some(JsonView::Text(p.tool_call_id))
            &&& event.field("tool_name"@) == Some(JsonView::Text(p.tool_name))
            &&& event.field("reason"@) == Some(JsonView::Text(p.reason))
            &&& event.field("category"@) == Some(JsonView::Text(p.category))
            &&& event.field("risk"@) == Some(JsonView::Text(p.risk))
            &&& event.field("consequence"@) == Some(JsonView::Text(p.consequence))
            &&& event.field("level"@) matches Some(JsonView::Number(Some(n))) ==> p.level == n
        },
        of_type(event, "tool_permission_requested"@) && (event.field("tool_call_id"@) matches Some(
            JsonView::Text(_),
        )) && (event.field("tool_name"@) matches Some(JsonView::Text(_))) && (event.field(
            "reason"@,
        ) matches Some(JsonView::Text(_))) && (event.field("category"@) matches Some(
            JsonView::Text(_),
        )) && (event.field("risk"@) matches Some(JsonView::Text(_))) && (event.field(
            "consequence"@,
        ) matches Some(JsonView::Text(_))) ==> interaction::permission_in(event) matches Some(
            ToolPermissionEventView::Requested(_),
        ),
        event.field("tool_call_id"@) matches Some(JsonView::Text(id)) ==> (of_type(
            event,
            "tool_finished"@,
        ) ==> interaction::permission_in(event) == Some(
            ToolPermissionEventView::Resolved { tool_call_id: id },
        )),
{
    reveal_strlit("tool_permission_requested");
    reveal_strlit("tool_finished");
    assert("tool_permission_requested"@.len() == 25);
    assert("tool_finished"@.len() == 13);
}

/// The names of the types of conversation events differ.
proof fn conversation_types_differ()
    ensures
        "turn_started"@.len() == 12,
        "turn_completed"@.len() == 14,
        "turn_failed"@.len() == 11,
        "conversation_cancelled"@.len() == 22,
        "usage_updated"@.len() == 13,
        "round_delta"@.len() == 11,
        "round_delta"@ != "turn_failed"@,
        "block_checkpoint"@.len() == 16,
        "round_completed"@.len() == 15,
        "provider_retrying"@.len() == 17,
        "provider_tool_status"@.len() == 20,
        "thinking"@.len() == 8,
        "answering"@.len() == 9,
{
    reveal_strlit("turn_started");
    reveal_strlit("turn_completed");
    reveal_strlit("turn_failed");
    reveal_strlit("conversation_cancelled");
    reveal_strlit("usage_updated");
    reveal_strlit("round_delta");
    reveal_strlit("block_checkpoint");
    reveal_strlit("round_completed");
    reveal_strlit("provider_retrying");
    reveal_strlit("provider_tool_status");
    reveal_strlit("thinking");
    reveal_strlit("answering");
    assert("round_delta"@[0] == 'r');
    assert("turn_failed"@[0] == 't');
}

/// A turn that started starts; one that completed, failed or was cancelled ends.
/// Text that arrives is thinking or answering; other news of a turn show that it
/// runs. Usage brings the numbers and the model that it names.
pub proof fn conversation_events_say_what_happens(event: JsonView)
    ensures
        ({
            let read = composer::activity_in(event);
            let delta = of_type(event, "round_delta"@);
            let thinks = event.field("kind"@) == Some(JsonView::Text("thinking"@));
            let answers = event.field("kind"@) == Some(JsonView::Text("answering"@));
            &&& of_type(event, "turn_started"@) ==> read == Some(ActivityEventView::Started)
            &&& of_type(event, "turn_completed"@) || of_type(event, "turn_failed"@) || of_type(
                event,
                "conversation_cancelled"@,
            ) <==> read == Some(ActivityEventView::Ended)
            &&& delta && thinks ==> read == Some(ActivityEventView::Delta(WorkPhaseView::Thinking))
            &&& delta && answers ==> read == Some(
                ActivityEventView::Delta(WorkPhaseView::Answering),
            )
            &&& delta && !thinks && !answers ==> read is None
            &&& of_type(event, "block_checkpoint"@) || of_type(event, "round_completed"@) || of_type(
                event,
                "provider_retrying"@,
            ) || of_type(event, "provider_tool_status"@) <==> read == Some(
                ActivityEventView::Touched,
            )
            &&& of_type(event, "usage_updated"@) <==> (read matches Some(
                ActivityEventView::Usage { .. },
            ))
            &&& read matches Some(ActivityEventView::Usage { prompt_tokens, context_limit, model })
                ==> {
                &&& event.field("model"@) matches Some(JsonView::Text(m)) ==> model == m
                &&& event.field("context_limit"@) matches Some(JsonView::Number(Some(n)))
                    ==> context_limit == n
                &&& event.field("usage"@) matches Some(usage) ==> (usage.field("prompt_tokens"@)
                    matches Some(JsonView::Number(Some(n))) ==> prompt_tokens == n)
            }
        }),
{
    conversation_types_differ();
}

/// Metadata that give the mode as the number one mean planning, any other executing.
/// The tool mode is the one that they name.
pub proof fn metadata_name_the_modes(meta: JsonView)
    ensures
        composer::agent_mode_in(meta) == "plan"@ <==> meta.field("mode"@) == Some(
            JsonView::Number(Some(1)),
        ),
        composer::agent_mode_in(meta) == "code"@ <==> meta.field("mode"@) != Some(
            JsonView::Number(Some(1)),
        ),
        meta.field("tool_mode"@) matches Some(JsonView::Text(mode)) ==> composer::tool_mode_in(
            meta,
        ).mode == mode,
        meta.field("tool_mode"@) is None ==> composer::tool_mode_in(meta).mode.len() == 0,
{
    reveal_strlit("plan");
    reveal_strlit("code");
    assert("plan"@[0] == 'p');
    assert("code"@[0] == 'c');
}

/// Each of the four words stands for its own end, and no other word for any.
pub proof fn status_words_name_the_end(tag: Seq<char>)
    ensures
        subagent::state_of_tag(tag) == Some(SubagentState::Done) <==> tag == "COMPLETED"@,
        subagent::state_of_tag(tag) == Some(SubagentState::Error) <==> tag == "ERROR"@,
        subagent::state_of_tag(tag) == Some(SubagentState::Timeout) <==> tag == "TIMEOUT"@,
        subagent::state_of_tag(tag) == Some(SubagentState::Cancelled) <==> tag == "CANCELLED"@,
        subagent::state_of_tag(tag) != Some(SubagentState::Working),
        subagent::state_of_tag(tag) != Some(SubagentState::Lost),
{
    reveal_strlit("COMPLETED");
    reveal_strlit("ERROR");
    reveal_strlit("TIMEOUT");
    reveal_strlit("CANCELLED");
    assert("COMPLETED"@.len() == 9 && "COMPLETED"@[1] == 'O');
    assert("CANCELLED"@.len() == 9 && "CANCELLED"@[1] == 'A');
    assert("ERROR"@.len() == 5);
    assert("TIMEOUT"@.len() == 7);
}

/// The result of a spawning call names a session only where it has a process number
/// and a seed that is not empty; the session is that seed.
pub proof fn spawned_sessions_are_named_by_their_seed(result: JsonView)
    ensures
        subagent::spawn_seed_in(result) matches Some(seed) ==> seed.len() > 0 && result.field(
            "seed"@,
        ) == Some(JsonView::Text(seed)) && (result.field("process_id"@) matches Some(
            JsonView::Number(_),
        )),
        result.field("seed"@) matches Some(JsonView::Text(seed)) ==> ((result.field(
            "process_id"@,
        ) matches Some(JsonView::Number(_))) && seed.len() > 0 ==> subagent::spawn_seed_in(result)
            == Some(seed)),
{
}

/// The arguments of a spawning call name the subagent by a text that is not blank.
pub proof fn subagents_are_named_by_their_arguments(args: JsonView)
    ensures
        subagent::agent_name_in(args) matches Some(name) ==> args.field("agent_name"@) == Some(
            JsonView::Text(name),
        ) && !text::blank(name),
        args.field("agent_name"@) matches Some(JsonView::Text(name)) ==> (!text::blank(name)
            ==> subagent::agent_name_in(args) == Some(name)),
{
}

/// A text that begins with the tag of a subagent's report, after whatever white
/// space, reports the end that the tag names, of the subagent that it names.
pub proof fn reports_name_the_subagent_and_its_end(name: Seq<char>, rest: Seq<char>)
    requires
        forall|i: int| 0 <= i < name.len() ==> #[trigger] name[i] != '\'',
    ensures
        subagent::injection_in("[SUBAGENT '"@ + name + "' "@ + "COMPLETED]"@ + rest) == Some(
            (name, SubagentState::Done),
        ),
        subagent::injection_in("[SUBAGENT '"@ + name + "' "@ + "ERROR"@ + rest) == Some(
            (name, SubagentState::Error),
        ),
        subagent::injection_in("[SUBAGENT '"@ + name + "' "@ + "TIMEOUT"@ + rest) == Some(
            (name, SubagentState::Timeout),
        ),
        subagent::injection_in("[SUBAGENT '"@ + name + "' "@ + "CANCELLED]"@ + rest) == Some(
            (name, SubagentState::Cancelled),
        ),
{
    reveal_strlit("COMPLETED]");
    reveal_strlit("ERROR");
    reveal_strlit("TIMEOUT");
    reveal_strlit("CANCELLED]");
    assert("COMPLETED]"@[0] == 'C' && "COMPLETED]"@[1] == 'O');
    assert("CANCELLED]"@[0] == 'C' && "CANCELLED]"@[1] == 'A');
    assert("ERROR"@[0] == 'E');
    assert("TIMEOUT"@[0] == 'T');
    tag_is_cut_out(name, "COMPLETED]"@ + rest);
    tag_is_cut_out(name, "ERROR"@ + rest);
    tag_is_cut_out(name, "TIMEOUT"@ + rest);
    tag_is_cut_out(name, "CANCELLED]"@ + rest);
    let start = "[SUBAGENT '"@ + name + "' "@;
    assert(start + "COMPLETED]"@ + rest =~= start + ("COMPLETED]"@ + rest));
    assert(start + "ERROR"@ + rest =~= start + ("ERROR"@ + rest));
    assert(start + "TIMEOUT"@ + rest =~= start + ("TIMEOUT"@ + rest));
    assert(start + "CANCELLED]"@ + rest =~= start + ("CANCELLED]"@ + rest));
    begins_with("COMPLETED]"@, rest);
    begins_with("ERROR"@, rest);
    begins_with("TIMEOUT"@, rest);
    begins_with("CANCELLED]"@, rest);
    begins_otherwise("ERROR"@ + rest, "COMPLETED]"@, 0);
    begins_otherwise("TIMEOUT"@ + rest, "COMPLETED]"@, 0);
    begins_otherwise("TIMEOUT"@ + rest, "ERROR"@, 0);
    begins_otherwise("CANCELLED]"@ + rest, "COMPLETED]"@, 1);
    begins_otherwise("CANCELLED]"@ + rest, "ERROR"@, 0);
    begins_otherwise("CANCELLED]"@ + rest, "TIMEOUT"@, 0);
}

/// A text begins with what it was put together from.
proof fn begins_with(part: Seq<char>, rest: Seq<char>)
    ensures
        text::has_prefix(part + rest, part),
{
    assert((part + rest).subrange(0, part.len() as int) =~= part);
}

/// A text that differs at a place does not begin with `part`.
proof fn begins_otherwise(s: Seq<char>, part: Seq<char>, at: int)
    requires
        0 <= at < part.len(),
        at < s.len(),
        s[at] != part[at],
    ensures
        !text::has_prefix(s, part),
{
    if text::has_prefix(s, part) {
        assert(s.subrange(0, part.len() as int)[at] == s[at]);
    }
}

/// The name and the tag of a report are what stands before and behind the quote.
proof fn tag_is_cut_out(name: Seq<char>, tag: Seq<char>)
    requires
        forall|i: int| 0 <= i < name.len() ==> #[trigger] name[i] != '\'',
    ensures
        ({
            let whole = "[SUBAGENT '"@ + name + "' "@ + tag;
            &&& text::trimmed_start(whole) == whole
            &&& text::behind_prefix(whole, "[SUBAGENT '"@) == Some(name + "' "@ + tag)
            &&& text::cut_at(name + "' "@ + tag, "' "@) == Some((name, tag))
        }),
{
    reveal_strlit("[SUBAGENT '");
    reveal_strlit("' ");
    let start = "[SUBAGENT '"@;
    let mark = "' "@;
    let whole = start + name + mark + tag;
    let rest = name + mark + tag;
    assert(start[0] == '[');
    assert(whole[0] == '[');
    assert(!text::white('['));
    assert(whole.subrange(0, start.len() as int) =~= start);
    assert(whole.subrange(start.len() as int, whole.len() as int) =~= rest);
    let n = name.len() as int;
    assert(rest.subrange(n, n + 2) =~= mark);
    assert(text::occurs_at(rest, mark, n));
    text::first_at_is_least(rest, mark, 0);
    if let Some(i) = text::first_at(rest, mark, 0) {
        if i < n {
            assert(rest.subrange(i, i + 2)[0] == rest[i]);
            assert(rest[i] == name[i]);
            assert(mark[0] == '\'');
        }
        assert(i == n);
        assert(rest.subrange(0, n) =~= name);
        assert(rest.subrange(n + 2, rest.len() as int) =~= tag);
    }
}

/// Of the lists that a form or a review brings, every well-formed item is taken over
/// and no other; what is no list brings none.
pub proof fn well_formed_items_are_taken_over(
    items: Seq<JsonView>,
    question: AskQuestionView,
    task: PlanTodoItemView,
    other: JsonView,
)
    ensures
        interaction::questions_in(JsonView::List(items)).contains(question) <==> exists|i: int|
            0 <= i < items.len() && interaction::question_in(#[trigger] items[i]) == Some(question),
        interaction::todos_in(Some(JsonView::List(items))).contains(task) <==> exists|i: int|
            0 <= i < items.len() && interaction::todo_in(#[trigger] items[i]) == Some(task),
        !(other is List) ==> interaction::questions_in(other).len() == 0 && interaction::todos_in(
            Some(other),
        ).len() == 0,
        interaction::todos_in(None).len() == 0,
{
    let ask = |q: JsonView| interaction::question_in(q);
    let todo = |t: JsonView| interaction::todo_in(t);
    model::picked_is_given_by_an_item(items, ask, question);
    model::picked_is_given_by_an_item(items, todo, task);
    assert(forall|i: int|
        0 <= i < items.len() ==> ask(#[trigger] items[i]) == interaction::question_in(items[i]));
    assert(forall|i: int|
        0 <= i < items.len() ==> todo(#[trigger] items[i]) == interaction::todo_in(items[i]));
}

} // verus!
