//! What the shell asks of the daemon, and what it makes of the replies.

use qaqh_apps::bridge::actions::{context_stats, notif_pref};
use qaqh_apps::bridge::bridge_core::BridgeCore;
use qaqh_apps::bridge::commands::{
    message_attachments, message_uploads, spawn_interaction_response, CommandIds, CommandState,
    ConversationMode, InteractionCommand, NewSessionStep, ResponseError, UndoStep,
};
use qaqh_apps::bridge::composer::{agent_mode_from_meta, tool_mode_from_meta, WorkPhase};
use qaqh_apps::bridge::composer_view::{ComposerAttachment, ComposerTextFile};
use qaqh_apps::bridge::events::{
    Channel, ControlEvent, ConversationEvent, DomainError, EventBatch, PermissionCategory,
    PermissionRisk, RingingEvent, RoundDeltaKind, ToolEvent,
};
use qaqh_apps::bridge::header::HeaderFlag;
use qaqh_apps::bridge::health::{ConnectStep, Health, TimelineStatus, WaitStep};
use qaqh_apps::bridge::interaction::AskAnswer;
use qaqh_apps::bridge::reducer::Effect;
use qaqh_apps::bridge::remote::{
    load_remote_profile, parse_remote_fs_entries, remote_profile, RemoteProfile,
};
use qaqh_apps::bridge::sessions::{workspace_path_key, ArchiveStep, ResumeStep};
use qaqh_apps::bridge::settings::SettingsSnapshot;
use qaqh_apps::bridge::store::{
    ActivityState, SessionItem, SkillsSnapshot, UsageInfo, WorkspaceItem,
};
use qaqh_apps::bridge::subagent::{
    parse_spawn_seed, subagent_state_from_tag, SubagentList, SubagentState,
};
use qaqh_apps::bridge::timeline::{
    is_timeline_delta, TimelineEntry, TimelineEvent, TimelineEventQueues, TIMELINE_QUEUE_CAP,
};
use qaqh_apps::bridge::transcript::{
    TimelineBlock, TimelineBlockKind, TimelinePage, TimelineRound, TimelineSnapshot, TimelineTurn,
};
use qaqh_apps::json;
use qaqh_apps::json::Json;
use qaqh_apps::seed_map::SeedMap;

const NOW: u64 = 50_000_000;

fn value(text: &str) -> Json {
    json::parse(text).expect("a JSON text")
}

fn session(seed: &str, archived: bool) -> SessionItem {
    SessionItem {
        seed: seed.into(),
        title: format!("title of {seed}"),
        state: ActivityState::Idle,
        archived,
        workspace_id: None,
        cwd: None,
        shown_cwd: None,
    }
}

fn core_with(seeds: &[&str]) -> BridgeCore {
    let mut core = BridgeCore::new(NOW);
    let list = seeds.iter().map(|seed| session(seed, false)).collect();
    core.apply_session_list(list, SeedMap::new(), NOW);
    core
}

fn batch(channel: Channel, seed: &str, events: Vec<RingingEvent>) -> EventBatch {
    EventBatch { channel, seed: seed.into(), events }
}

#[test]
fn commands_have_their_own_identifiers() {
    let mut ids = CommandIds::new();
    assert_eq!(ids.next_command_id(7), "xaml-7-0");
    assert_eq!(ids.next_command_id(7), "xaml-7-1");
    assert_eq!(ids.next_command_id(8), "xaml-8-2");
}

#[test]
fn modes_change_at_once() {
    let mut core = core_with(&["a"]);
    assert_eq!(core.spawn_set_mode("plan"), ConversationMode::Plan);
    assert_eq!(core.composer_mode, "plan");
    assert_eq!(core.spawn_set_mode("other"), ConversationMode::Code);
    assert!(core.spawn_set_tool_mode(true, "full".into(), Vec::new()).is_none());
    core.set_active_seed("a", NOW);
    assert!(core.spawn_set_tool_mode(false, "odd".into(), Vec::new()).is_none());
    let asked = core.spawn_set_tool_mode(true, "custom".into(), vec!["read".into()]).unwrap();
    assert_eq!(asked.seed, "a");
    assert_eq!(asked.tool_mode, "custom");
    assert_eq!(asked.custom_tools, vec!["read"]);
    assert!(core.spawn_set_tool_mode(true, "custom".into(), vec!["read".into()]).is_none());
}

#[test]
fn metadata_names_the_modes() {
    let meta = value(r#"{"tool_mode":"custom","custom_tools":["a"],"agent_mode":1}"#);
    let mode = tool_mode_from_meta(&meta);
    assert_eq!(mode.mode, "custom");
    assert!(!agent_mode_from_meta(&meta).is_empty());
}

#[test]
fn messages_carry_images_before_texts() {
    let images = vec![ComposerAttachment {
        file_name: "i.png".into(),
        mime_type: "image/png".into(),
        path: "p/i.png".into(),
    }];
    let texts = vec![ComposerTextFile { file_name: "t.md".into(), path: "p/t.md".into() }];
    let uploads = message_uploads(&images, &texts);
    assert_eq!(uploads.len(), 2);
    assert_eq!(uploads[0].mime_type, "image/png");
    assert_eq!(uploads[1].mime_type, "text/plain");
    assert_eq!(uploads[1].file_name, "t.md");
    assert_eq!(message_attachments::<u8>(Vec::new()), None);
    assert_eq!(message_attachments(vec![1, 2]), Some(vec![1, 2]));
}

#[test]
fn replies_show_in_the_session_they_belong_to() {
    let mut core = core_with(&["a", "b"]);
    core.set_active_seed("a", NOW);
    core.finish_send("b", Some("refused".into()));
    assert_eq!(core.composer_snapshot(None, NOW).0.submit_error, "");
    core.set_active_seed("b", NOW);
    assert_eq!(core.composer_snapshot(None, NOW).0.submit_error, "refused");
    core.finish_send("b", None);
    let shown = core.composer_snapshot(None, NOW).0;
    assert_eq!(shown.submit_error, "");
    assert_eq!(shown.send_ack, 1);
}

#[test]
fn new_sessions_are_waited_for() {
    let core = core_with(&["a", "b"]);
    let before = core.seed_set();
    assert_eq!(before, vec!["a", "b"]);
    assert!(matches!(core.new_session_step(&before, 1), NewSessionStep::Wait));
    assert!(matches!(core.new_session_step(&before, 30), NewSessionStep::GiveUp));
    assert!(matches!(
        core.new_session_step(&vec!["b".to_string()], 1),
        NewSessionStep::Found { seed } if seed == "a"
    ));
    let mut core = core;
    core.finish_new_session("b", NOW);
    assert_eq!(core.active_seed(), "b");
    assert_eq!(core.current_view(), "chat");
}

#[test]
fn an_undo_refreshes_what_is_shown() {
    let mut core = core_with(&["a"]);
    core.set_active_seed("a", NOW);
    assert_eq!(core.spawn_undo_turn("a", 1, None), UndoStep::Poll);
    assert_eq!(core.spawn_undo_turn("a", 20, None), UndoStep::Refresh);
    assert_eq!(core.spawn_undo_turn("a", 1, Some(CommandState::Succeeded)), UndoStep::Refresh);
    assert_eq!(core.spawn_undo_turn("b", 1, Some(CommandState::Succeeded)), UndoStep::Defer);
    assert_eq!(core.spawn_undo_turn("a", 1, Some(CommandState::Rejected)), UndoStep::Stop);
    assert_eq!(core.spawn_undo_turn("a", 1, Some(CommandState::Pending)), UndoStep::Poll);
}

#[test]
fn answers_are_sent_as_they_were_given() {
    let (seed, command) = spawn_interaction_response(
        "interaction.permission",
        &value(r#"{"seed":"s","toolCallId":"c","approved":true}"#),
        None,
    )
    .unwrap();
    assert_eq!(seed.as_deref(), Some("s"));
    assert!(matches!(
        command,
        InteractionCommand::ToolPermissionRespond { tool_call_id, approved: true, trust_folder: false }
            if tool_call_id == "c"
    ));
    let (_, command) = spawn_interaction_response(
        "interaction.plan_review",
        &value(r#"{"callId":"p","message":""}"#),
        None,
    )
    .unwrap();
    assert!(matches!(
        command,
        InteractionCommand::PlanReviewRespond { approved: false, message: None, autonomous: false, .. }
    ));
    let answers = vec![AskAnswer { question_id: "q".into(), answer: "yes".into() }];
    let (_, command) = spawn_interaction_response(
        "interaction.ask_response",
        &value(r#"{"askId":"i"}"#),
        Some(answers),
    )
    .unwrap();
    assert!(matches!(
        command,
        InteractionCommand::AskRespond { interaction_id, answers } if interaction_id == "i"
            && answers[0].answer == "yes"
    ));
    assert!(matches!(
        spawn_interaction_response("interaction.ask_dismiss", &value(r#"{"askId":"i"}"#), None),
        Ok((None, InteractionCommand::AskDismiss { .. }))
    ));
    assert!(matches!(
        spawn_interaction_response("interaction.ask_response", &value("{}"), None),
        Err(ResponseError::InvalidAnswers)
    ));
    assert!(matches!(
        spawn_interaction_response("other", &value("{}"), None),
        Err(ResponseError::UnknownMethod)
    ));
}

#[test]
fn skills_are_asked_of_the_active_session() {
    let mut core = core_with(&["a"]);
    let mut ids = CommandIds::new();
    assert!(core.spawn_skill_operation(&mut ids, 1, "request".into(), "s".into()).is_none());
    assert_eq!(core.ensure_skills(), None);
    core.set_active_seed("a", NOW);
    assert_eq!(core.ensure_skills().as_deref(), Some("a"));
    core.finish_ensure_skills("a".into(), None);
    assert!(core.skills_snapshot().0.is_none());
    core.finish_ensure_skills(
        "a".into(),
        Some(SkillsSnapshot { seed: "x".into(), operation_revision: 9 }),
    );
    assert_eq!(core.skills_snapshot().0.unwrap().seed, "a");
    assert_eq!(core.ensure_skills(), None);
    let asked = core.spawn_skill_operation(&mut ids, 1, "request".into(), "s".into()).unwrap();
    assert_eq!(asked.expected_revision, 9);
    assert_eq!(asked.operation_id, "xaml-1-0");
    assert_eq!(asked.seed, "a");
}

#[test]
fn only_the_latest_wish_counts() {
    let mut core = core_with(&["a", "b"]);
    let ResumeStep::Join { generation: first } = core.spawn_resume("a", NOW) else {
        panic!("the session is not active yet");
    };
    let ResumeStep::Join { generation: second } = core.spawn_resume("b", NOW) else {
        panic!("the session is not active yet");
    };
    assert!(!core.resume_counts(first));
    assert!(!core.resume_joined("a", first, NOW));
    assert_eq!(core.active_seed(), "");
    assert!(core.resume_joined("b", second, NOW));
    core.resume_finished("b", second, NOW);
    assert_eq!(core.active_seed(), "b");
    assert_eq!(core.current_view(), "chat");
    assert_eq!(core.spawn_resume("b", NOW), ResumeStep::Shown);
}

#[test]
fn archiving_the_active_session_moves_on() {
    let mut core = BridgeCore::new(NOW);
    core.apply_session_list(
        vec![session("a", false), session("b", true), session("c", false)],
        SeedMap::new(),
        NOW,
    );
    core.set_active_seed("a", NOW);
    assert!(matches!(core.spawn_archive("c"), ArchiveStep::Stay));
    assert!(matches!(core.spawn_archive("a"), ArchiveStep::Resume { seed } if seed == "c"));
    core.apply_session_list(vec![session("a", false)], SeedMap::new(), NOW);
    assert!(matches!(core.spawn_archive("a"), ArchiveStep::Home));
    core.go_home(NOW);
    assert_eq!(core.active_seed(), "");
    assert_eq!(core.current_view(), "home");
}

#[test]
fn deleting_the_active_session_goes_home() {
    let mut core = core_with(&["a", "b"]);
    core.set_active_seed("a", NOW);
    core.spawn_delete("b", NOW);
    assert_eq!(core.active_seed(), "a");
    core.compact_statuses.insert("a".into(), "running".into());
    core.spawn_delete("a", NOW);
    assert_eq!(core.active_seed(), "");
    assert_eq!(core.current_view(), "home");
    assert!(core.compact_statuses.get("a").is_none());
}

#[test]
fn the_title_bar_shows_the_active_session() {
    let mut core = core_with(&["a"]);
    core.set_active_seed("a", NOW);
    assert_eq!(core.header_snapshot().0.title, "title of a");
    assert!(!core.header_snapshot().0.info_open);
    core.toggle_header_flag(HeaderFlag::Info);
    assert!(core.header_snapshot().0.info_open);
    core.toggle_header_flag(HeaderFlag::Info);
    assert!(!core.header_snapshot().0.info_open);
}

#[test]
fn workspaces_are_compared_by_path() {
    assert_eq!(workspace_path_key("C:/Work/"), "c:\\work");
    let mut core = core_with(&[]);
    core.apply_workspaces(vec![WorkspaceItem {
        id: "w1".into(),
        title: "work".into(),
        path: "C:\\Work".into(),
        shown_path: "C:\\Work".into(),
    }]);
    core.spawn_workspace_create(None, "c:/work", NOW);
    assert_eq!(core.current_workspace().as_deref(), Some("w1"));
    assert!(core.is_current_workspace("w1"));
    assert_eq!(core.current_workspace_path().as_deref(), Some("C:\\Work"));
    core.spawn_workspace_create(Some("w2".into()), "x", NOW);
    assert_eq!(core.current_workspace().as_deref(), Some("w2"));
    core.set_current_workspace(None, NOW);
    assert_eq!(core.current_workspace(), None);
    core.apply_workspace_feedback(None, Some("no".into()));
    assert_eq!(core.header_snapshot().0.workspace_error.as_deref(), Some("no"));
}

fn settings(level: u64) -> SettingsSnapshot {
    SettingsSnapshot {
        permission_level: level,
        lang: "zh".into(),
        theme: "dark".into(),
        workspace_configured_mode: "local".into(),
        workspace_active_mode: "wsl".into(),
        workspace_endpoint: "e".into(),
        tools: Vec::new(),
        notifications_enabled: false,
    }
}

#[test]
fn settings_are_sent_only_when_they_change() {
    let mut core = core_with(&[]);
    assert!(core.spawn_config_load(false));
    assert!(!core.spawn_set_permission(1));
    core.finish_workspace_status("a".into(), "b".into(), "c".into());
    assert!(core.settings_snapshot().0.is_none());
    assert!(!core.finish_config_load(settings(2)));
    assert!(!core.spawn_config_load(false));
    assert!(core.spawn_config_load(true));
    assert!(!core.spawn_set_permission(2));
    assert!(core.spawn_set_permission(3));
    let (shown, _) = core.settings_projection();
    assert_eq!(shown.permission_level, 2);
    assert_eq!(shown.theme, "dark");
    assert_eq!(shown.workspace_mode, "wsl");
    core.finish_workspace_status("a".into(), "b".into(), "c".into());
    assert_eq!(core.settings_snapshot().0.unwrap().workspace_active_mode, "b");
    core.finish_config_save(Err("disk".into()));
    assert_eq!(core.save_status, Some(Err("disk".to_string())));
    assert_eq!(core.save_status_rev, 1);
}

#[test]
fn notifications_are_wanted_unless_refused() {
    assert!(notif_pref(None));
    assert!(notif_pref(Some(&value("{}"))));
    assert!(!notif_pref(Some(&value(r#"{"notificationsEnabled":false}"#))));
    let mut core = core_with(&[]);
    assert!(core.init_notifications(Some("broken")));
    assert!(!core.init_notifications(Some(r#"{"notificationsEnabled":false}"#)));
    assert!(!core.notif_enabled());
    core.spawn_set_notif_pref(true);
    assert!(core.notif_enabled());
}

fn answered(text: &str) -> TimelineSnapshot {
    TimelineSnapshot {
        watermark: 1,
        turns: vec![TimelineTurn {
            turn_id: "t".into(),
            user_text: "u".into(),
            sealed: true,
            rounds: vec![TimelineRound {
                round_num: 0,
                blocks: vec![TimelineBlock {
                    block_id: "b".into(),
                    block_order: 0,
                    kind: TimelineBlockKind::Text,
                    text: text.into(),
                }],
            }],
        }],
    }
}

#[test]
fn completed_turns_are_announced_with_their_answer() {
    let mut core = core_with(&["a"]);
    core.set_active_seed("a", NOW);
    assert_eq!(core.maybe_notify_turn_completed("a", true), None);
    core.cache_timeline_snapshot(
        TimelinePage { seed: "a".into(), snapshot: answered("done"), has_more: true },
        NOW,
    );
    assert_eq!(core.maybe_notify_turn_completed("a", true).as_deref(), Some("done"));
    assert_eq!(core.maybe_notify_turn_completed("b", true), None);
    assert_eq!(core.maybe_notify_turn_completed("a", false), None);
    core.spawn_set_notif_pref(false);
    assert_eq!(core.maybe_notify_turn_completed("a", true), None);
    assert!(core.timeline.timeline_has_more("a"));
    assert!(!core.cache_timeline_snapshot(
        TimelinePage { seed: "b".into(), snapshot: answered("x"), has_more: false },
        NOW
    ));
}

#[test]
fn context_is_read_from_the_metadata() {
    let meta = value(r#"{"context_stats":{"a":1}}"#);
    let (stats, rev) = context_stats(Some(&meta), 7);
    assert!(stats.is_some());
    assert_eq!(rev, 7);
    assert_eq!(context_stats(Some(&value("{}")), 7).1, 0);
    assert_eq!(context_stats(None, 7).1, 0);
}

#[test]
fn remote_daemons_are_http_addresses() {
    let profile = remote_profile(" https://h:1// ", " t ").unwrap();
    assert_eq!(profile.base_url, "https://h:1");
    assert_eq!(profile.token, "t");
    assert!(remote_profile("ftp://h", "t").is_none());
    assert!(load_remote_profile(None).is_none());
    assert!(load_remote_profile(Some(RemoteProfile {
        base_url: String::new(),
        token: "t".into()
    }))
    .is_none());
    let mut core = core_with(&["a"]);
    core.set_active_seed("a", NOW);
    core.compact_statuses.insert("a".into(), "running".into());
    assert!(!core.apply_remote_profile("no", "t", NOW));
    assert_eq!(core.active_seed(), "a");
    assert!(core.apply_remote_profile("http://h", "t", NOW));
    assert_eq!(core.active_seed(), "");
    assert!(core.session_snapshot().0.is_empty());
    assert_eq!(core.header_snapshot().0.title, "");
    assert!(core.health.rebuilding);
    core.finish_rebuild(true);
    assert!(core.backend_connected());
    core.clear_remote_profile(NOW);
    assert!(core.remote_profile_snapshot().is_none());
}

#[test]
fn remote_directories_are_listed() {
    let listing = value(
        r#"[{"name":"d","path":"/d","is_dir":true},{"name":"x"},{"name":"f","path":"/f","is_file":true,"size":9}]"#,
    );
    let entries = parse_remote_fs_entries(&listing);
    assert_eq!(entries.len(), 2);
    assert!(entries[0].is_dir);
    assert_eq!(entries[1].size, 9);
    let mut core = core_with(&[]);
    core.remote.begin_fs_list("/".into());
    assert!(core.fs_listing_snapshot().0.loading);
    core.remote.finish_fs_list("/".into(), &listing);
    let (shown, rev) = core.fs_listing_snapshot();
    assert!(!shown.loading);
    assert_eq!(shown.entries.len(), 2);
    core.remote.fail_fs_list("denied");
    assert!(core.fs_listing_snapshot().0.error.is_some());
    assert!(core.fs_listing_snapshot().1 > rev);
    core.remote.finish_fs_read("/f".into(), &value(r#"{"content":"c","truncated":true}"#));
    let preview = core.fs_preview_snapshot().0.unwrap();
    assert_eq!(preview.content, "c");
    assert!(preview.truncated);
}

#[test]
fn one_caller_connects_for_all() {
    let mut health = Health::new(NOW);
    assert_eq!(health.ensure_client(), ConnectStep::Connect);
    assert_eq!(health.ensure_client(), ConnectStep::Wait);
    assert_eq!(health.wait_connect_result(NOW, NOW + 1), WaitStep::Again);
    assert_eq!(health.wait_connect_result(NOW, NOW + 25_000), WaitStep::TimedOut);
    health.finish_connect(true);
    assert_eq!(health.ensure_client(), ConnectStep::Reuse);
    assert_eq!(health.wait_connect_result(NOW, NOW + 1), WaitStep::Ready);
    health.finish_connect(false);
    assert_eq!(health.wait_connect_result(NOW, NOW + 1), WaitStep::Failed);
    health.rebuilding = true;
    assert_eq!(health.ensure_client(), ConnectStep::Refuse);
}

#[test]
fn a_stalled_connection_is_rebuilt_after_a_while() {
    let mut health = Health::new(NOW);
    health.connected = true;
    health.timeline_status = Some(TimelineStatus::Closed);
    assert!(!health.check_daemon_health(NOW + 60_000));
    assert!(!health.check_daemon_health(NOW + 90_000));
    let mut health = Health::new(NOW);
    health.connected = true;
    health.timeline_status = Some(TimelineStatus::Connecting);
    assert!(!health.check_daemon_health(NOW + 59_999));
    assert!(!health.check_daemon_health(NOW + 60_000));
    assert!(health.check_daemon_health(NOW + 75_001));
    assert!(health.rebuilding);
    assert!(!health.check_daemon_health(NOW + 900_000));
    health.finish_rebuild(false);
    assert_eq!(health.rebuild_failures, 1);
    assert!(!health.rebuilding);
    health.reset_stall_timers();
    assert!(health.timeline_stall_since.is_none());
}

#[test]
fn batches_change_what_they_are_about() {
    let mut core = core_with(&["a", "b"]);
    core.set_active_seed("a", NOW);
    let effects = core.emit_batch(
        &batch(
            Channel::Conversation,
            "a",
            vec![
                RingingEvent::Conversation(ConversationEvent::TurnStarted {
                    turn_id: "t1".into(),
                    user_text: "hi".into(),
                }),
                RingingEvent::Conversation(ConversationEvent::RoundDelta {
                    kind: RoundDeltaKind::Thinking,
                }),
            ],
        ),
        NOW,
    );
    assert!(!effects.iter().any(|e| matches!(e, Effect::NotifyTurnCompleted { .. })));
    let (composer, _) = core.composer_snapshot(None, NOW);
    assert!(composer.is_streaming);
    assert!(matches!(composer.phase, WorkPhase::Thinking));
    assert_eq!(core.header_turns.get("a"), Some(&1));
    assert!(core.header_snapshot().0.compact_disabled);

    let effects = core.emit_batch(
        &batch(
            Channel::Conversation,
            "a",
            vec![
                RingingEvent::Conversation(ConversationEvent::UsageUpdated {
                    usage: UsageInfo {
                        prompt_tokens: 5,
                        completion_tokens: 0,
                        reasoning_tokens: 0,
                        total_tokens: 5,
                        prompt_cache_hit_tokens: 0,
                        prompt_cache_miss_tokens: 0,
                        cache_usage_reported: false,
                    },
                    context_limit: 100,
                    model: "m".into(),
                }),
                RingingEvent::Conversation(ConversationEvent::TurnCompleted {
                    turn_id: "t1".into(),
                }),
            ],
        ),
        NOW + 1,
    );
    assert!(effects
        .iter()
        .any(|e| matches!(e, Effect::NotifyTurnCompleted { seed } if seed == "a")));
    let (composer, _) = core.composer_snapshot(None, NOW + 1);
    assert!(!composer.is_streaming);
    assert_eq!(composer.context_tokens, 5);
    assert_eq!(composer.model, "m");
}

#[test]
fn tools_ask_before_they_act() {
    let mut core = core_with(&["a", "b"]);
    core.set_active_seed("a", NOW);
    let asked = |seed: &str, id: &str| {
        batch(
            Channel::Tool,
            seed,
            vec![RingingEvent::Tool(ToolEvent::ToolPermissionRequested {
                tool_call_id: id.into(),
                tool_name: "shell".into(),
                reason: "r".into(),
                paths: vec!["C:/x".into()],
                category: PermissionCategory::Exec,
                level: 2,
                risk: PermissionRisk::High,
                consequence: "c".into(),
            })],
        )
    };
    core.emit_batch(&asked("b", "c2"), NOW);
    assert_eq!(core.interaction_snapshot().0.kind, "");
    core.emit_batch(&asked("a", "c1"), NOW);
    let (shown, rev) = core.interaction_snapshot();
    assert_eq!(shown.kind, "permission");
    assert_eq!(shown.id, "c1");
    assert_eq!(shown.category, "exec");
    assert_eq!(shown.risk, "high");
    core.emit_batch(&asked("a", "c1"), NOW);
    assert_eq!(core.interaction_snapshot().1, rev);
    core.emit_batch(
        &batch(
            Channel::Tool,
            "a",
            vec![RingingEvent::Tool(ToolEvent::ToolFinished {
                tool_call_id: "c1".into(),
                model_text: String::new(),
            })],
        ),
        NOW,
    );
    assert_eq!(core.interaction_snapshot().0.kind, "");
}

#[test]
fn sessions_and_failures_are_reported() {
    let mut core = core_with(&["a"]);
    core.set_active_seed("a", NOW);
    let effects = core.emit_batch(
        &batch(
            Channel::Control,
            "a",
            vec![RingingEvent::Control(ControlEvent::SessionStateChanged)],
        ),
        NOW,
    );
    assert!(effects.iter().any(|e| matches!(e, Effect::RefreshSessions)));
    core.emit_batch(
        &batch(
            Channel::Control,
            "a",
            vec![
                RingingEvent::Control(ControlEvent::SessionActivityChanged {
                    seed: "a".into(),
                    state: ActivityState::Working,
                }),
                RingingEvent::Control(ControlEvent::OperationFailed {
                    error: DomainError { code: "tool_failed".into(), message: "boom".into() },
                }),
            ],
        ),
        NOW,
    );
    assert_eq!(core.activities.get("a"), Some(&ActivityState::Working));
}

#[test]
fn subagents_are_followed_to_their_end() {
    let mut list = SubagentList::new();
    list.track("c1", &None, 10);
    list.track("c1", &Some("x".into()), 20);
    assert_eq!(list.items.len(), 1);
    assert_eq!(list.items[0].name, "x");
    assert!(list.note_seed("c1", "sub"));
    assert!(!list.note_seed("c2", "sub"));
    list.track("c2", &Some("y".into()), 5);
    assert_eq!(list.sorted()[0].call_id, "c2");
    assert!(list.end("x", SubagentState::Error, 30));
    assert!(!list.end("x", SubagentState::Done, 40));
    assert_eq!(list.items[0].state, SubagentState::Error);
    assert_eq!(subagent_state_from_tag("COMPLETED"), Some(SubagentState::Done));
    assert_eq!(subagent_state_from_tag("odd"), None);
    assert_eq!(parse_spawn_seed("no json"), None);
}

fn entry(seq: u64, event: TimelineEvent) -> TimelineEntry {
    TimelineEntry { timeline_seq: seq, turn_id: "t".into(), round_num: None, event }
}

fn delta(seq: u64) -> TimelineEntry {
    entry(
        seq,
        TimelineEvent::TextDelta { block_id: "b".into(), fragment_seq: seq, delta: "x".into() },
    )
}

#[test]
fn full_queues_drop_what_can_be_made_up_for() {
    assert!(is_timeline_delta(&delta(1)));
    let opened = || entry(0, TimelineEvent::TurnOpened { user_text: "u".into() });
    assert!(!is_timeline_delta(&opened()));
    let mut queues = TimelineEventQueues::new();
    assert!(queues.is_empty());
    assert!(queues.push("b".into(), opened(), false));
    for seq in 1..TIMELINE_QUEUE_CAP as u64 {
        assert!(queues.push("a".into(), delta(seq), true));
    }
    assert_eq!(queues.len(), TIMELINE_QUEUE_CAP);
    assert!(!queues.push("a".into(), delta(9_999), true));
    assert!(queues.push("b".into(), opened(), false));
    assert_eq!(queues.len(), TIMELINE_QUEUE_CAP);
    assert_eq!(queues.drain_seed("b", usize::MAX).len(), 2);
    assert_eq!(queues.drain_seed("a", 1)[0].timeline_seq, 2);
}

#[test]
fn earlier_pages_are_fetched_one_at_a_time() {
    let mut core = core_with(&["a"]);
    core.set_active_seed("a", NOW);
    core.cache_timeline_snapshot(
        TimelinePage { seed: "a".into(), snapshot: answered("x"), has_more: true },
        NOW,
    );
    assert!(core.timeline.begin_refresh(NOW));
    assert!(!core.timeline.begin_refresh(NOW + 999));
    assert!(core.timeline.begin_refresh(NOW + 1_000));
    assert!(core.timeline.begin_fetch_earlier("a"));
    assert!(!core.timeline.begin_fetch_earlier("a"));
    core.timeline.finish_fetch_earlier("a", Some((answered("y"), false)));
    assert!(!core.timeline.timeline_has_more("a"));
    let pages = core.timeline.chat_prepend_drain("a");
    assert_eq!(pages.len(), 1);
    assert!(core.timeline.begin_fetch_subagent("sub"));
    assert!(!core.timeline.begin_fetch_subagent("sub"));
    core.timeline.finish_fetch_subagent("sub", Some(answered("z")));
    assert_eq!(core.timeline.subagent_timeline_peek().unwrap().0, "sub");
    core.timeline.subagent_timeline_consume();
    assert!(core.timeline.subagent_timeline_peek().is_none());
}

#[test]
fn a_phase_needs_a_turn() {
    let mut core = core_with(&["a"]);
    core.set_active_seed("a", NOW);
    core.set_composer_phase("a", WorkPhase::Tool("shell".into()), NOW);
    assert!(!core.composer_snapshot(None, NOW).0.is_streaming);
    core.emit_batch(
        &batch(
            Channel::Conversation,
            "a",
            vec![RingingEvent::Conversation(ConversationEvent::TurnStarted {
                turn_id: "t".into(),
                user_text: "u".into(),
            })],
        ),
        NOW,
    );
    core.set_composer_phase("a", WorkPhase::Tool("shell".into()), NOW);
    let shown = core.composer_snapshot(None, NOW).0;
    assert!(shown.is_streaming);
    assert!(matches!(shown.phase, WorkPhase::Tool(name) if name == "shell"));
    assert!(core.seed_is_streaming("a", NOW));
    assert!(!core.seed_is_streaming("a", NOW + 240_000));
}

#[test]
fn the_test_question_can_be_answered() {
    let mut core = core_with(&["a"]);
    core.set_active_seed("a", NOW);
    core.spawn_test_ask();
    assert_eq!(core.interaction_snapshot().0.kind, "ask");
    assert!(!core.interaction_snapshot().0.questions.is_empty());
}

#[test]
fn a_new_attempt_to_compact_forgets_the_last_one() {
    let mut core = core_with(&["a"]);
    core.set_active_seed("a", NOW);
    core.compact_statuses.insert("a".into(), "failed".into());
    core.clear_compact_result("a", NOW);
    assert!(core.compact_statuses.get("a").is_none());
    assert_eq!(core.current_view_name(), core.current_view());
    core.report_workspace_error("gone".into());
    assert_eq!(core.header_snapshot().0.workspace_error.as_deref(), Some("gone"));
}
