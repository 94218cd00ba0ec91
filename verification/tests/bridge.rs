//! The state of the shell: subagents, timelines, interactions, the composer and
//! the connection to the daemon.

use std::time::Duration;

use qaqh_apps::bridge::bridge_core::BridgeCore;
use qaqh_apps::bridge::composer::{
    parse_conversation_activity_event, ComposerActivity, ComposerFeedback,
    ConversationActivityEvent, WorkPhase, COMPOSER_STALL_TIMEOUT_MS,
};
use qaqh_apps::bridge::events::{Channel, ControlEvent, DomainError, EventBatch, RingingEvent};
use qaqh_apps::bridge::health::{
    auto_reconnect_cooldown_for, rebuild_cooldown_for, ChannelStatus, TimelineStatus,
    STALL_THRESHOLD_MS,
};
use qaqh_apps::bridge::interaction::{
    parse_interaction_event, parse_tool_permission_event, InteractionEvent, InteractionMachine,
    ToolPermissionEvent,
};
use qaqh_apps::bridge::store::{
    ActivityState, DashboardSnapshot, DashboardTask, SessionDetail,
};
use qaqh_apps::bridge::subagent::{
    parse_agent_name, parse_subagent_injection, SubagentState, SUBAGENT_GHOST_TIMEOUT_MS,
};
use qaqh_apps::bridge::timeline::{TimelineEntry, TimelineEvent, TimelineEventQueues};
use qaqh_apps::bridge::transcript::{TimelinePage, TimelineSnapshot, TimelineTurn};
use qaqh_apps::json;
use qaqh_apps::json::Json;

fn value(text: &str) -> Json {
    json::parse(text).expect("a JSON text")
}

fn test_core() -> BridgeCore {
    let mut core = BridgeCore::new(100_000_000);
    core.current_view = String::new();
    core
}

const NOW: u64 = 100_000_000;

fn reconnecting() -> TimelineStatus {
    TimelineStatus::Reconnecting { retry_ms: 1000, cursor: 3 }
}

#[test]
fn parse_subagent_injection_matches_all_terminal_tags() {
    assert_eq!(
        parse_subagent_injection("[SUBAGENT 'explore' COMPLETED]\n\nanswer"),
        Some(("explore".to_string(), SubagentState::Done))
    );
    assert_eq!(
        parse_subagent_injection("[SUBAGENT 'x' ERROR exit=1]"),
        Some(("x".to_string(), SubagentState::Error))
    );
    assert_eq!(
        parse_subagent_injection("[SUBAGENT 'x' TIMEOUT after 120s]"),
        Some(("x".to_string(), SubagentState::Timeout))
    );
    assert_eq!(
        parse_subagent_injection("[SUBAGENT 'x' CANCELLED]"),
        Some(("x".to_string(), SubagentState::Cancelled))
    );
    assert_eq!(parse_subagent_injection("normal user message"), None);
    assert_eq!(parse_subagent_injection("[SUBAGENT 'x' RUNNING]"), None);
}

#[test]
fn parse_agent_name_reads_agent_name_field() {
    assert_eq!(
        parse_agent_name(
            r#"{"task_description":"t","agent_name":"explore_task","timeout_secs":120}"#
        ),
        Some("explore_task".to_string())
    );
    assert_eq!(parse_agent_name(r#"{"task_description":"t","agent_nam"#), None);
    assert_eq!(parse_agent_name(""), None);
}

#[test]
fn subagent_tracker_lifecycle_converges_on_injection_tag() {
    let mut core = test_core();
    core.upsert_subagent(
        "seed-a",
        "call-1",
        Some(r#"{"agent_name":"explore_a","task_description":"t"}"#),
        900,
    );
    core.upsert_subagent("seed-a", "call-1", None, 950);
    let items = core.subagent_items("seed-a", 1_000);
    assert_eq!(items.len(), 1);
    assert_eq!(items[0].name, "explore_a");
    assert_eq!(items[0].state, SubagentState::Working);

    core.converge_subagent("seed-a", "explore_a", SubagentState::Done, 1_500);
    let items = core.subagent_items("seed-a", 2_000);
    assert_eq!(items[0].state, SubagentState::Done);
    assert!(items[0].finished_at > 0);
    assert_eq!(items[0].finished_at, 1_500);

    core.upsert_subagent("seed-a", "call-2", Some(r#"{"agent_name":"ghost_b"}"#), 1_000);
    let items = core.subagent_items("seed-a", 1_000 + SUBAGENT_GHOST_TIMEOUT_MS + 1);
    let ghost = items.iter().find(|i| i.name == "ghost_b").expect("ghost item");
    assert_eq!(ghost.state, SubagentState::Lost);
    core.converge_subagent(
        "seed-a",
        "ghost_b",
        SubagentState::Done,
        1_000 + SUBAGENT_GHOST_TIMEOUT_MS + 1,
    );
    let items = core.subagent_items("seed-a", 1_000 + SUBAGENT_GHOST_TIMEOUT_MS + 2);
    let ghost = items.iter().find(|i| i.name == "ghost_b").expect("ghost item");
    assert_eq!(ghost.state, SubagentState::Done);
}

fn timeline_entry(seq: u64, turn_id: &str) -> TimelineEntry {
    TimelineEntry {
        timeline_seq: seq,
        turn_id: turn_id.to_string(),
        round_num: Some(0),
        event: TimelineEvent::TextDelta {
            block_id: "text:b1".into(),
            fragment_seq: seq,
            delta: "x".into(),
        },
    }
}

#[test]
fn timeline_drain_filters_by_active_seed() {
    let mut core = test_core();
    core.set_active_seed("sA", NOW);
    {
        let q = &mut core.timeline.events;
        assert!(q.push("sA".into(), timeline_entry(1, "t1"), true));
        assert!(q.push("sB".into(), timeline_entry(2, "t2"), true));
        assert!(q.push("sA".into(), timeline_entry(3, "t3"), true));
    }
    let (events, _) = core.timeline_drain_limit(usize::MAX);
    assert_eq!(events.len(), 2);
    assert!(events.iter().all(|e| e.turn_id != "t2"));

    core.set_active_seed("sB", NOW);
    assert!(core.timeline.events.push("sA".into(), timeline_entry(4, "t4"), true));
    let (events, _) = core.timeline_drain_limit(usize::MAX);
    assert_eq!(events.len(), 1);
    assert_eq!(events[0].turn_id, "t2");
    assert_eq!(core.timeline.events.drain_seed("sA", usize::MAX)[0].turn_id, "t4");
}

#[test]
fn timeline_drain_limit_preserves_other_seeds_and_active_remainder() {
    let mut core = test_core();
    core.set_active_seed("sA", NOW);
    {
        let q = &mut core.timeline.events;
        assert!(q.push("sA".into(), timeline_entry(1, "a1"), true));
        assert!(q.push("sB".into(), timeline_entry(2, "b1"), true));
        assert!(q.push("sA".into(), timeline_entry(3, "a2"), true));
    }

    let (none, _) = core.timeline_drain_limit(0);
    assert!(none.is_empty());
    assert_eq!(core.timeline.events.is_empty(), false);

    let (first, _) = core.timeline_drain_limit(1);
    assert_eq!(first.len(), 1);
    assert_eq!(first[0].turn_id, "a1");

    core.set_active_seed("sB", NOW);
    let (background, _) = core.timeline_drain_limit(1);
    assert_eq!(background[0].turn_id, "b1");

    core.set_active_seed("sA", NOW);
    let (remainder, _) = core.timeline_drain_limit(1);
    assert_eq!(remainder[0].turn_id, "a2");
}

#[test]
fn timeline_queue_eviction_prefers_delta_over_structure() {
    let structural = TimelineEntry {
        timeline_seq: 1,
        turn_id: "t1".into(),
        round_num: None,
        event: TimelineEvent::TurnOpened { user_text: "hi".into() },
    };
    let delta = timeline_entry(2, "t1");
    let mut queues = TimelineEventQueues::new();
    assert!(queues.push("sA".into(), structural, false));
    assert!(queues.push("sA".into(), delta, true));
    assert!(queues.evict_one("sA"));

    let remaining = queues.drain_seed("sA", usize::MAX);
    assert_eq!(remaining.len(), 1);
    assert!(matches!(remaining[0].event, TimelineEvent::TurnOpened { .. }));
}

fn ask_requested_event(id: &str, turn_id: &str) -> Json {
    value(&format!(
        r#"{{
            "type": "interaction_requested",
            "interaction_id": "{id}",
            "turn_id": "{turn_id}",
            "mode": "single",
            "questions": [
                {{ "id": "q1", "question": "继续？", "options": ["是", "否"], "allow_custom": true }}
            ]
        }}"#
    ))
}

#[test]
fn parses_ask_requested_with_snake_case_keys() {
    let ev = parse_interaction_event(&ask_requested_event("i1", "t1")).expect("parse");
    let InteractionEvent::AskRequested { id, questions } = ev else {
        panic!("expected AskRequested");
    };
    assert_eq!(id, "i1");
    assert_eq!(questions.len(), 1);
    assert_eq!(questions[0].allow_custom, true);
    assert_eq!(questions[0].options, vec!["是", "否"]);
}

#[test]
fn parses_plan_review_requested_with_nullable_todo() {
    let ev = parse_interaction_event(&value(
        r#"{
            "type": "plan_review_requested",
            "interaction_id": "p1",
            "turn_id": "t2",
            "plan_content": "1. 修 bug",
            "review_type": "todo_activation",
            "todo_items": [
                { "id": "td1", "title": "修 bug", "description": "", "complexity": "small" }
            ]
        }"#,
    ))
    .expect("parse");
    let InteractionEvent::PlanRequested { id, plan_content, review_type, todo_items } = ev else {
        panic!("expected PlanRequested");
    };
    assert_eq!(id, "p1");
    assert_eq!(plan_content, "1. 修 bug");
    assert_eq!(review_type, "todo_activation");
    assert_eq!(todo_items.len(), 1);
    assert_eq!(todo_items[0].complexity, "small");
    let null_ev = parse_interaction_event(&value(
        r#"{
            "type": "plan_review_requested",
            "interaction_id": "p2",
            "turn_id": "t3",
            "plan_content": "x",
            "review_type": "",
            "todo_items": null
        }"#,
    ))
    .expect("parse");
    let InteractionEvent::PlanRequested { todo_items, .. } = null_ev else {
        panic!("expected PlanRequested");
    };
    assert!(todo_items.is_empty());
}

#[test]
fn ghost_cleanup_only_for_rejection_codes() {
    let ev = parse_interaction_event(&value(
        r#"{
            "type": "operation_failed",
            "occurrence_id": "o1",
            "scope": "session",
            "error": { "code": "ask_rejected", "error_id": "e1", "message": "rejected" }
        }"#,
    ))
    .expect("parse");
    assert!(matches!(ev, InteractionEvent::GhostCleanup));
    let ev2 = parse_interaction_event(&value(
        r#"{
            "type": "operation_failed",
            "occurrence_id": "o2",
            "scope": "session",
            "error": { "code": "tool_failed", "error_id": "e2", "message": "boom" }
        }"#,
    ));
    assert!(ev2.is_none());
}

#[test]
fn parses_tool_permission_requested_and_finished() {
    let ev = parse_tool_permission_event(&value(
        r#"{
            "type": "tool_permission_requested",
            "tool_call_id": "tc1",
            "turn_id": "t9",
            "round_num": 1,
            "tool_name": "shell",
            "reason": "run cmd",
            "paths": ["C:/x"],
            "category": "exec",
            "level": 2,
            "risk": "high",
            "consequence": "执行命令"
        }"#,
    ))
    .expect("parse");
    let ToolPermissionEvent::Requested { tool_call_id, paths, level, risk, .. } = ev else {
        panic!("expected Requested");
    };
    assert_eq!(tool_call_id, "tc1");
    assert_eq!(paths, vec!["C:/x"]);
    assert_eq!(level, 2);
    assert_eq!(risk, "high");

    let done = parse_tool_permission_event(&value(
        r#"{
            "type": "tool_finished",
            "tool_call_id": "tc1",
            "turn_id": "t9",
            "round_num": 1,
            "result": { "exit_code": 0 }
        }"#,
    ))
    .expect("parse");
    assert!(matches!(done, ToolPermissionEvent::Resolved { .. }));
}

#[test]
fn machine_permission_priority_and_resolution() {
    let mut m = InteractionMachine::new();
    m.apply_tool(
        parse_tool_permission_event(&value(
            r#"{
                "type": "tool_permission_requested",
                "tool_call_id": "tc1",
                "turn_id": "t9",
                "round_num": 1,
                "tool_name": "shell",
                "reason": "run",
                "paths": [],
                "category": "exec",
                "level": 2,
                "risk": "high",
                "consequence": "执行"
            }"#,
        ))
        .expect("parse"),
    );
    m.apply(parse_interaction_event(&ask_requested_event("i1", "t1")).expect("parse"));
    let snap = m.snapshot("seed1");
    assert_eq!(snap.kind, "permission");
    assert_eq!(snap.id, "tc1");
    assert_eq!(snap.tool_name, "shell");
    assert_eq!(snap.seed, "seed1");

    m.apply_tool(ToolPermissionEvent::Resolved { tool_call_id: "tc1".into() });
    let snap = m.snapshot("seed1");
    assert_eq!(snap.kind, "ask");
    assert_eq!(snap.id, "i1");
    assert_eq!(snap.questions.len(), 1);

    m.apply(InteractionEvent::AskResolved { id: "i1".into() });
    let snap = m.snapshot("seed1");
    assert!(snap.kind.is_empty());
    assert!(snap.id.is_empty());
}

#[test]
fn machine_plan_flow_and_ghost_cleanup() {
    let mut m = InteractionMachine::new();
    m.apply(
        parse_interaction_event(&value(
            r#"{
                "type": "plan_review_requested",
                "interaction_id": "p1",
                "turn_id": "t2",
                "plan_content": "plan",
                "review_type": "todo_activation",
                "todo_items": null
            }"#,
        ))
        .expect("parse"),
    );
    let snap = m.snapshot("s");
    assert_eq!(snap.kind, "plan");
    assert_eq!(snap.plan_content, "plan");

    m.apply(InteractionEvent::GhostCleanup);
    assert!(m.snapshot("s").kind.is_empty());

    m.apply(
        parse_interaction_event(&value(
            r#"{
                "type": "plan_review_requested",
                "interaction_id": "p2",
                "turn_id": "t4",
                "plan_content": "p2",
                "review_type": ""
            }"#,
        ))
        .expect("parse"),
    );
    m.apply(InteractionEvent::PlanResolved { id: "p1".into() });
    assert_eq!(m.snapshot("s").kind, "plan");
    m.apply(InteractionEvent::PlanResolved { id: "p2".into() });
    assert!(m.snapshot("s").kind.is_empty());
}

#[test]
fn apply_interaction_event_is_idempotent_for_replay() {
    let mut core = test_core();
    core.set_active_seed("seed1", NOW);
    let ev = ask_requested_event("i1", "t1");
    core.apply_interaction_event("seed1", parse_interaction_event(&ev).expect("parse"));
    let rev1 = core.interaction_rev;
    assert_eq!(core.interaction_snapshot().0.kind, "ask");
    core.apply_interaction_event("seed1", parse_interaction_event(&ev).expect("parse"));
    let rev2 = core.interaction_rev;
    assert_eq!(rev1, rev2);
}

#[test]
fn compact_failure_is_visible_in_active_composer() {
    let mut core = test_core();
    core.set_active_seed("seedA", NOW);
    let error = ControlEvent::OperationFailed {
        error: DomainError {
            code: "compact_failed".into(),
            message: "provider rejected compact request".into(),
        },
    };
    core.emit_batch(
        &EventBatch {
            channel: Channel::Control,
            seed: "seedA".into(),
            events: vec![RingingEvent::Control(error)],
        },
        NOW,
    );
    assert_eq!(
        core.composer_snapshot(None, NOW).0.submit_error,
        "provider rejected compact request"
    );
}

fn with_compact_status(status: &str) -> SessionDetail {
    SessionDetail { compact_status: status.to_string(), ..SessionDetail::default() }
}

#[test]
fn compact_status_cache_follows_active_seed_and_bootstrap() {
    let mut core = test_core();
    core.current_view = "chat".into();
    core.compact_statuses.insert("seedA".into(), "running".into());
    core.compact_statuses.insert("seedB".into(), "completed".into());

    core.set_active_seed("seedA", NOW);
    assert!(core.header_snapshot().0.compacting);
    core.set_active_seed("seedB", NOW);
    assert!(!core.header_snapshot().0.compacting);

    core.apply_bootstrap_conversation_state("seedB", with_compact_status("running"), NOW);
    assert!(core.header_snapshot().0.compacting);
    core.apply_bootstrap_conversation_state("seedA", with_compact_status("failed"), NOW);
    assert!(core.header_snapshot().0.compacting);
}

#[test]
fn interaction_cache_follows_active_seed() {
    let mut core = test_core();
    core.apply_interaction_event(
        "seedA",
        parse_interaction_event(&ask_requested_event("iA", "tA")).expect("parse"),
    );
    assert!(core.interaction_snapshot().0.kind.is_empty());
    core.set_active_seed("seedA", NOW);
    assert_eq!(core.interaction_snapshot().0.kind, "ask");
    assert_eq!(core.interaction_snapshot().0.id, "iA");
    core.apply_interaction_event(
        "seedB",
        parse_interaction_event(&ask_requested_event("iB", "tB")).expect("parse"),
    );
    assert_eq!(core.interaction_snapshot().0.id, "iA");
    core.set_active_seed("seedB", NOW);
    assert_eq!(core.interaction_snapshot().0.id, "iB");
    core.set_active_seed("seedA", NOW);
    assert_eq!(core.interaction_snapshot().0.id, "iA");
}

#[test]
fn parses_conversation_activity_events() {
    let ev = parse_conversation_activity_event(&value(
        r#"{ "type": "turn_started", "turn_id": "t1", "user_text": "hi" }"#,
    ))
    .expect("parse");
    assert!(matches!(ev, ConversationActivityEvent::Started));
    for ty in ["turn_completed", "turn_failed", "conversation_cancelled"] {
        let ev = parse_conversation_activity_event(&value(&format!(
            r#"{{ "type": "{ty}", "turn_id": "t1" }}"#
        )))
        .expect("parse");
        assert!(matches!(ev, ConversationActivityEvent::Ended), "{ty}");
    }
    let ev = parse_conversation_activity_event(&value(
        r#"{
            "type": "usage_updated",
            "turn_id": "t1", "round_num": 1,
            "usage": { "prompt_tokens": 1234, "total_tokens": 2000 },
            "context_limit": 200000,
            "model": "gpt-5"
        }"#,
    ))
    .expect("parse");
    let ConversationActivityEvent::Usage { prompt_tokens, context_limit, model } = ev else {
        panic!("expected Usage");
    };
    assert_eq!(prompt_tokens, 1234);
    assert_eq!(context_limit, 200000);
    assert_eq!(model, "gpt-5");
    let ev = parse_conversation_activity_event(&value(
        r#"{ "type": "round_delta", "turn_id": "t1", "round_num": 1, "kind": "thinking", "delta": "x" }"#,
    ))
    .expect("parse");
    assert!(matches!(ev, ConversationActivityEvent::Delta(WorkPhase::Thinking)));
    let ev = parse_conversation_activity_event(&value(
        r#"{ "type": "round_delta", "turn_id": "t1", "round_num": 1, "kind": "answering", "delta": "y" }"#,
    ))
    .expect("parse");
    assert!(matches!(ev, ConversationActivityEvent::Delta(WorkPhase::Answering)));
    assert!(parse_conversation_activity_event(&value(
        r#"{ "type": "round_delta", "turn_id": "t1" }"#
    ))
    .is_none());
    for ty in ["block_checkpoint", "round_completed", "provider_retrying", "provider_tool_status"] {
        let ev = parse_conversation_activity_event(&value(&format!(
            r#"{{ "type": "{ty}", "turn_id": "t1" }}"#
        )))
        .expect("parse");
        assert!(matches!(ev, ConversationActivityEvent::Touched), "{ty}");
    }
    assert!(parse_conversation_activity_event(&value(r#"{ "type": "compact_started" }"#)).is_none());
    assert!(parse_conversation_activity_event(&value(r#"{ "type": "bogus" }"#)).is_none());
}

#[test]
fn composer_streaming_stall_detection() {
    let mut a = ComposerActivity::default();
    assert!(!a.is_streaming(1_000));
    a.apply(ConversationActivityEvent::Started, 1_000);
    assert!(a.is_streaming(1_000));
    assert!(a.is_streaming(1_000 + COMPOSER_STALL_TIMEOUT_MS - 1));
    assert!(!a.is_streaming(1_000 + COMPOSER_STALL_TIMEOUT_MS));
    a.apply(ConversationActivityEvent::Touched, 10_000);
    assert!(a.is_streaming(10_001));
    a.apply(ConversationActivityEvent::Ended, 11_000);
    assert!(!a.is_streaming(11_000));
}

#[test]
fn composer_recovers_streaming_when_start_event_was_missed() {
    let mut a = ComposerActivity::default();
    a.apply(ConversationActivityEvent::Touched, 10_000);
    assert!(a.is_streaming(10_001));
    a.apply(ConversationActivityEvent::Ended, 11_000);
    assert!(!a.is_streaming(11_000));
}

#[test]
fn active_seed_switch_invalidates_composer_and_dashboard_projections() {
    let mut core = test_core();
    let composer_before = core.composer_rev;
    let dashboard_before = core.dashboard_rev;
    core.set_active_seed("seed1", NOW);
    assert!(core.composer_rev > composer_before);
    assert!(core.dashboard_rev > dashboard_before);
}

#[test]
fn first_live_turn_enables_undo_without_waiting_for_a_snapshot() {
    let mut core = test_core();
    core.set_active_seed("seed1", NOW);
    assert!(core.header_snapshot().0.undo_disabled);
    core.record_live_turn_started("seed1");
    core.refresh_header(NOW);
    assert!(!core.header_snapshot().0.undo_disabled);
    core.record_live_turn_started("seed1");
    assert_eq!(core.header_turns.get("seed1"), Some(&1));
}

#[test]
fn composer_uses_session_activity_before_first_turn_event() {
    let mut core = test_core();
    core.activities.insert("seed1".into(), ActivityState::Working);
    core.set_active_seed("seed1", NOW);
    assert!(core.composer_snapshot(None, NOW).0.is_streaming);
    core.activities.insert("seed1".into(), ActivityState::Idle);
    assert!(!core.composer_snapshot(None, NOW).0.is_streaming);
}

#[test]
fn dashboard_cache_follows_active_seed() {
    let mut core = test_core();
    let snapshot = |seed: &str, task: &str| DashboardSnapshot {
        seed: seed.into(),
        tasks: vec![DashboardTask {
            id: format!("{seed}-todo"),
            subject: task.into(),
            description: String::new(),
            status: "completed".into(),
            evidence: Some(format!("{task} evidence")),
        }],
        recent_edits: Vec::new(),
        current_todo_id: Some(format!("{seed}-todo")),
    };
    core.apply_dashboard(snapshot("seedA", "A task"));
    core.apply_dashboard(snapshot("seedB", "B task"));

    core.set_active_seed("seedA", NOW);
    let (a, _) = core.dashboard_snapshot();
    let a = a.expect("seed A snapshot");
    assert_eq!(a.tasks[0].subject, "A task");
    assert_eq!(a.tasks[0].evidence.as_deref(), Some("A task evidence"));
    core.set_active_seed("seedB", NOW);
    let (b, _) = core.dashboard_snapshot();
    let b = b.expect("seed B snapshot");
    assert_eq!(b.tasks[0].subject, "B task");
    assert_eq!(b.tasks[0].evidence.as_deref(), Some("B task evidence"));
    core.set_active_seed("seedC", NOW);
    assert!(core.dashboard_snapshot().0.is_none());
}

#[test]
fn composer_snapshot_uses_typed_activity_and_local_state() {
    let mut core = test_core();
    core.set_active_seed("seed1", NOW);
    let now = NOW;
    let mut activity = ComposerActivity::default();
    activity.apply(ConversationActivityEvent::Started, now);
    activity.apply(
        ConversationActivityEvent::Usage {
            prompt_tokens: 42,
            context_limit: 200_000,
            model: "gpt-5".into(),
        },
        now,
    );
    core.composer_activity.insert("seed1".into(), activity);
    let (s, _) = core.composer_snapshot(None, now);
    assert!(s.is_streaming);
    assert_eq!(s.model, "gpt-5");
    assert_eq!(s.context_tokens, 42);
    assert_eq!(s.context_limit, 200_000);
    assert_eq!(s.seed, "seed1");
    assert_eq!(s.mode, "code");
    assert_eq!(s.permission_level, 0);
    assert_eq!(s.queue_count, 0);
    assert_eq!(s.send_ack, 0);
    assert_eq!(s.submit_error, "");
    core.composer_mode = "code".into();
    core.composer_feedback.insert(
        "seed1".into(),
        ComposerFeedback { send_ack: 7, ..ComposerFeedback::default() },
    );
    let (s2, _) = core.composer_snapshot(None, now);
    assert_eq!(s2.mode, "code");
    assert_eq!(s2.send_ack, 7);
    assert!(!s.has_pending_gate);
    core.apply_interaction_event(
        "seed1",
        parse_interaction_event(&ask_requested_event("i1", "t1")).expect("parse"),
    );
    assert!(core.composer_snapshot(None, now).0.has_pending_gate);
}

#[test]
fn timeline_stall_triggers_only_after_threshold() {
    let mut core = test_core();
    let now = NOW;
    core.health.timeline_status = Some(reconnecting());
    assert!(!core.health.compute_stall(now));
    assert!(core.health.timeline_stall_since.is_some());
    core.health.timeline_stall_since = Some(now - STALL_THRESHOLD_MS + 1_000);
    assert!(!core.health.compute_stall(now));
    core.health.timeline_stall_since = Some(now - STALL_THRESHOLD_MS - 1_000);
    assert!(core.health.compute_stall(now));
}

fn turn(id: &str, text: &str, sealed: bool) -> TimelineTurn {
    TimelineTurn {
        turn_id: id.into(),
        user_text: text.into(),
        sealed,
        rounds: Vec::new(),
    }
}

#[test]
fn timeline_snapshot_caches_authoritative_seed_and_inner() {
    let mut core = test_core();
    core.timeline.last_timeline_seed = "stale-seed".to_string();
    let page = TimelinePage {
        seed: "s1".into(),
        snapshot: TimelineSnapshot {
            watermark: 7,
            turns: vec![turn("t1", "hi", true), turn("t2", "again", false)],
        },
        has_more: false,
    };
    core.cache_timeline_snapshot(page, NOW);
    {
        let (cached_seed, cached) = core.timeline.chat_timeline.as_ref().expect("cached");
        assert_eq!(cached_seed, "s1");
        assert_eq!(cached.turns.len(), 2);
        assert_eq!(cached.turns[0].turn_id, "t1");
    }
    assert_eq!(core.header_turns.get("s1"), Some(&2));
    assert_eq!(core.last_turn_ids.get("s1").map(String::as_str), Some("t2"));
    let taken = core.timeline.chat_timeline_take("s1");
    assert!(taken.is_some());
    assert!(core.timeline.chat_timeline.is_none());
}

#[test]
fn chat_timeline_take_matches_consumes_and_stale_preserves() {
    let mut core = test_core();
    let page = |seed: &str| TimelinePage {
        seed: seed.into(),
        snapshot: TimelineSnapshot { watermark: 1, turns: vec![turn("t1", "hi", true)] },
        has_more: false,
    };
    core.cache_timeline_snapshot(page("s1"), NOW);
    let snap = core.timeline.chat_timeline_take("s1");
    assert!(snap.is_some());
    assert!(core.timeline.chat_timeline.is_none());
    core.cache_timeline_snapshot(page("s2"), NOW);
    assert!(core.timeline.chat_timeline_take("s1").is_none());
    assert!(core.timeline.chat_timeline.is_some());
    assert!(core.timeline.chat_timeline_take("s2").is_some());
    assert!(core.timeline.chat_timeline_take("s2").is_none());
}

#[test]
fn resume_generation_marks_latest_intent() {
    let mut core = test_core();
    assert_eq!(core.timeline.resume_generation, 0);
    core.set_active_seed("s1", NOW);
    core.spawn_resume("s1", NOW);
    assert_eq!(core.timeline.resume_generation, 1);
    core.spawn_resume("s1", NOW);
    assert_eq!(core.timeline.resume_generation, 2);
}

#[test]
fn open_timeline_status_resets_stall_timer() {
    let mut core = test_core();
    core.health.timeline_stall_since = Some(NOW - 60_000);
    core.health.timeline_status = Some(TimelineStatus::Open { cursor: 9 });
    assert!(!core.health.compute_stall(NOW));
    assert!(core.health.timeline_stall_since.is_none());
}

#[test]
fn all_channels_stalled_triggers_but_single_open_resets() {
    let mut core = test_core();
    let now = NOW;
    for channel in [Channel::Control, Channel::Conversation, Channel::Tool] {
        core.health.emit_status(
            channel,
            ChannelStatus::Reconnecting { retry_ms: 1_000, last_cursor: 0 },
        );
    }
    assert!(!core.health.compute_stall(now));
    assert!(core.health.channels_stall_since.is_some());
    core.health.channels_stall_since = Some(now - STALL_THRESHOLD_MS - 1_000);
    assert!(core.health.compute_stall(now));

    let mut core2 = test_core();
    core2.health.channels_stall_since = Some(now - STALL_THRESHOLD_MS - 1_000);
    core2.health.emit_status(Channel::Conversation, ChannelStatus::Open { cursor: 0 });
    assert!(!core2.health.compute_stall(now));
    assert!(core2.health.channels_stall_since.is_none());
}

#[test]
fn untracked_or_null_status_never_stalls() {
    let mut core = test_core();
    assert!(!core.health.compute_stall(NOW));
    assert!(core.health.channels_stall_since.is_none());
    assert!(core.health.timeline_stall_since.is_none());
}

#[test]
fn rebuild_cooldown_blocks_repeated_rebuilds() {
    let mut core = test_core();
    core.health.last_rebuild_at = NOW;
    core.health.timeline_status = Some(reconnecting());
    core.health.timeline_stall_since = Some(NOW - STALL_THRESHOLD_MS - 1_000);
    assert!(!core.health.check_daemon_health(NOW));
    assert!(!core.health.rebuilding);
}

#[test]
fn rebuild_cooldown_backs_off_after_failures() {
    let rebuild = |failures: u32| Duration::from_secs(rebuild_cooldown_for(failures));
    let reconnect = |failures: u32| Duration::from_secs(auto_reconnect_cooldown_for(failures));
    assert_eq!(rebuild(0), Duration::from_secs(60));
    assert_eq!(rebuild(1), Duration::from_secs(120));
    assert_eq!(rebuild(2), Duration::from_secs(240));
    assert_eq!(rebuild(3), Duration::from_secs(480));
    assert_eq!(rebuild(4), Duration::from_secs(960));
    assert_eq!(rebuild(5), Duration::from_secs(960));
    assert_eq!(rebuild(u32::MAX), Duration::from_secs(960));
    assert_eq!(reconnect(0), Duration::from_secs(5));
    assert_eq!(reconnect(6), Duration::from_secs(320));
    assert_eq!(reconnect(99), Duration::from_secs(320));
}
