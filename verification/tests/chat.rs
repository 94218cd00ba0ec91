//! The conversation on show.

use qaqh_apps::bridge::transcript::{ReadySlot, TimelineBlockKind};
use qaqh_apps::chat::blocks::{
    answer_has_visible_content, block_unchanged, block_view, final_view, live_view, Answer, Block,
    BlockProps, BlockShow, FinalBlock, FinalPart, LiveItem, LiveSegment, Reasoning, RichText,
};
use qaqh_apps::chat::cache::{SessionTranscriptCache, SESSION_CACHE_CAPACITY};
use qaqh_apps::chat::diff::{
    collect_diff_drawer, diff_summary, DrawerFile, FileChange, Segment, ToolChanges,
};
use qaqh_apps::chat::drawer::{render, DiffPanel, DrawerEvent, DrawerState};
use qaqh_apps::chat::pump::{
    keep_on_unmount, reuse_rows, Change, EmptyState, FollowState, Pump, Scroll, SnapshotStep,
    TopStep,
};
use qaqh_apps::chat::tools::{
    compact_preview, format_duration, hint_in, tool_action, tool_argument_hint, tool_row,
    tool_row_visible, ToolCard, ToolState,
};
use qaqh_apps::chat::turns::{
    turn_unchanged, turn_view, StatusTone, Turn, TurnItem, TurnProps, UndoEvent, UndoMenu,
};
use qaqh_apps::chat::zoom::{zoom_request, Zoom};
use qaqh_apps::json;

#[test]
fn cache_restores_recent_transcript_and_evicts_oldest() {
    let mut cache = SessionTranscriptCache::new();
    for i in 0..=SESSION_CACHE_CAPACITY {
        cache.store(format!("s{i}"), vec![format!("t{i}")]);
    }
    assert!(cache.restore("s0").is_none());
    assert_eq!(cache.restore("s8").unwrap()[0], "t8");
}

#[test]
fn cached_transcripts_are_taken_out_and_replaced() {
    let mut cache = SessionTranscriptCache::new();
    cache.store("a".into(), 1);
    cache.store("b".into(), 2);
    cache.store("a".into(), 3);
    cache.store(String::new(), 4);
    assert_eq!(cache.len(), 2);
    assert_eq!(cache.restore("a"), Some(3));
    assert_eq!(cache.restore("a"), None);
    assert_eq!(cache.restore(""), None);
    assert_eq!(cache.restore("b"), Some(2));
}

fn card(name: &str, args_json: Option<&str>, done: bool) -> ToolCard {
    ToolCard {
        id: format!("{name}-1"),
        name: Some(name.to_string()),
        args_json: args_json.map(str::to_string),
        changes: None,
        done,
        failed: false,
        failure: None,
        started: true,
    }
}

#[test]
fn tool_header_uses_semantic_action_and_argument_hint() {
    let tool =
        card("functions.exec", Some(r#"{"command":"cargo test -p qaqh-winui"}"#), true);
    assert_eq!(tool_action(&tool), "运行命令");
    assert_eq!(tool_argument_hint(&tool).as_deref(), Some("cargo test -p qaqh-winui"));
}

#[test]
fn completed_tool_rows_stay_visible_after_v4e_repeal() {
    for name in ["read", "grep", "list_files", "web_search", "write", "edit", "apply_patch"] {
        let done_card = card(name, None, true);
        assert!(tool_row_visible(&done_card), "{name}");
    }
    let running = card("read", None, false);
    assert!(running.started);
    assert!(tool_row_visible(&running));
    let prepared = ToolCard { started: false, done: false, ..card("write", None, false) };
    assert!(!tool_row_visible(&prepared));
}

#[test]
fn empty_answer_does_not_create_an_assistant_shell() {
    let empty = Answer::default();
    assert!(!answer_has_visible_content(&empty));

    let visible = Answer::Streaming {
        raw: "答案".into(),
        segments: vec![LiveSegment::Text("答案".into())],
    };
    assert!(answer_has_visible_content(&visible));
}

#[test]
fn tools_are_known_by_their_last_name() {
    let action = |name: &str| tool_action(&card(name, None, true));
    assert_eq!(action("mcp/fs:READ_FILE"), "读取文件");
    assert_eq!(action("write"), "写入文件");
    assert_eq!(action("apply_patch"), "修改文件");
    assert_eq!(action("rg"), "搜索内容");
    assert_eq!(action("search_query"), "搜索网页");
    assert_eq!(action("view_image"), "查看图片");
    assert_eq!(action("list_directory"), "列出文件");
    assert_eq!(action("a.Custom"), "调用 Custom");
    let unnamed = ToolCard { name: None, ..card("x", None, false) };
    assert_eq!(tool_action(&unnamed), "解析工具调用");
}

#[test]
fn hints_are_short_and_telling() {
    let hint = |args: &str| tool_argument_hint(&card("x", Some(args), true));
    assert_eq!(hint(r#"{"name":"n","path":"  a \n b "}"#).as_deref(), Some("a b"));
    assert_eq!(hint(r#"{"path":" ","query":"q"}"#).as_deref(), Some("q"));
    assert_eq!(hint(r#""just text""#).as_deref(), Some("just text"));
    assert_eq!(hint(r#"{"other":"x"}"#), None);
    assert_eq!(hint(r#"{"path":5}"#), None);
    assert_eq!(hint("not json"), None);
    assert_eq!(tool_argument_hint(&card("x", None, true)), None);
    assert_eq!(hint_in(&json::parse("[1]").unwrap()), None);
    let long = "x".repeat(60);
    let shown = compact_preview(&long, 52);
    assert_eq!(shown.chars().count(), 52);
    assert!(shown.ends_with('…'));
    assert_eq!(compact_preview("ab", 2), "ab");
    assert_eq!(compact_preview("abc", 0), "…");
}

#[test]
fn tool_rows_say_what_happened() {
    let done = ToolCard {
        changes: Some("+3 −1".into()),
        ..card("edit", Some(r#"{"path":"a.rs"}"#), true)
    };
    let row = tool_row("t1", 4, &done, Some("12ms".into()));
    assert_eq!(row.line, "修改文件 · a.rs   +3 −1  12ms");
    assert_eq!(row.key, "t1-r4-tool-edit-1");
    assert_eq!(row.automation_id, "chat-tool-edit-1");
    assert_eq!(row.state, ToolState::Done);
    assert!(row.failure.is_none());
    let failed = ToolCard { failed: true, failure: Some("no".into()), ..card("read", None, true) };
    let row = tool_row("t1", 4, &failed, None);
    assert_eq!(row.line, "读取文件");
    assert_eq!(row.state, ToolState::Failed);
    assert!(row.critical);
    assert_eq!(row.failure.as_deref(), Some("错误：no"));
    assert_eq!(tool_row("t", 0, &card("read", None, false), None).state, ToolState::Running);
    assert_eq!(format_duration(999, "1.0"), "999ms");
    assert_eq!(format_duration(1_800, "1.8"), "1.8s");
}

fn change(path: &str, added: usize, removed: usize) -> FileChange<u32> {
    FileChange { path: path.into(), segment: Segment { added, removed, content: 0 } }
}

#[test]
fn changes_are_gathered_by_file() {
    assert!(collect_diff_drawer::<u32>(Vec::new()).is_none());
    let none: Vec<ToolChanges<u32>> = vec![ToolChanges { failed: true, files: Vec::new() }];
    assert!(collect_diff_drawer(none).is_none());
    let files = collect_diff_drawer(vec![
        ToolChanges { failed: false, files: vec![change("a", 1, 2), change("b", 3, 4)] },
        ToolChanges { failed: true, files: vec![change("a", 5, 6)] },
    ])
    .expect("files");
    assert_eq!(files.len(), 2);
    assert_eq!(files[0].path, "a");
    assert_eq!((files[0].added, files[0].removed), (6, 8));
    assert_eq!(files[0].segments.len(), 2);
    assert!(files[0].failed);
    assert!(!files[1].failed);
    assert_eq!(diff_summary(&files), "已修改 2 个文件（+9 −12）· 1 个异常");
    assert_eq!(diff_summary::<u32>(&Vec::new()), "已修改 0 个文件（+0 −0）");
}

fn drawer_files() -> Vec<DrawerFile<u32>> {
    collect_diff_drawer(vec![ToolChanges {
        failed: false,
        files: vec![change("a", 1, 2), change("b", 3, 4)],
    }])
    .unwrap()
}

#[test]
fn the_drawer_shows_one_file_at_a_time() {
    let files = drawer_files();
    let shown = render(&files, 1, &vec![true, true], "demo-drawer");
    assert_eq!(shown.title, "2 个文件  +4  −6");
    assert_eq!(shown.footer, "合计  +4  −6");
    assert_eq!(shown.rows[0].counts, "+1 −2");
    assert_eq!(shown.rows[0].marker, "✓");
    assert!(!shown.rows[0].selected);
    assert!(shown.rows[1].selected);
    assert!(matches!(
        shown.panel,
        DiffPanel::File { index: 1, key } if key == "demo-drawer-diff-1"
    ));
    assert!(matches!(
        render(&files, 1, &vec![true, false], "d").panel,
        DiffPanel::Nothing { label } if label == "无 diff 数据"
    ));
    assert!(matches!(render(&files, 9, &vec![true, true], "d").panel, DiffPanel::Nothing { .. }));
}

#[test]
fn the_drawer_closes_only_when_asked() {
    let mut state = DrawerState::new();
    state.handle(DrawerEvent::Selected { index: 1 });
    state.handle(DrawerEvent::Opened);
    assert!(state.open);
    assert_eq!(state.selected, 0);
    state.handle(DrawerEvent::ScrimTapped);
    assert!(state.open);
    state.handle(DrawerEvent::ThemeToggled);
    assert!(state.dark);
    state.handle(DrawerEvent::Closed);
    assert!(!state.open);
}

fn turn() -> Turn {
    Turn {
        turn_id: "t1".into(),
        user_text: "hi".into(),
        failed: false,
        sealed: true,
        failure: None,
        block_ids: vec!["b1".into(), "b2".into()],
    }
}

#[test]
fn turns_are_shown_in_order() {
    let items = turn_view::<u32>(&turn(), true, &Some(drawer_files()));
    assert_eq!(items.len(), 5);
    assert!(matches!(items[0], TurnItem::UndoMenu));
    assert!(matches!(
        &items[1],
        TurnItem::UserMessage { status, tone: StatusTone::Success, .. } if status == "已完成"
    ));
    assert!(matches!(&items[2], TurnItem::Block { index: 0, key } if key == "t1-block-b1"));
    assert!(matches!(&items[3], TurnItem::Block { index: 1, key } if key == "t1-block-b2"));
    assert!(matches!(&items[4], TurnItem::DiffSummary { key, .. } if key == "t1-diff-summary"));
    let failed = Turn { failed: true, failure: Some("boom".into()), ..turn() };
    let items = turn_view::<u32>(&failed, false, &None);
    assert!(matches!(
        &items[0],
        TurnItem::UserMessage { status, tone: StatusTone::Critical, .. } if status == "失败"
    ));
    assert!(matches!(
        &items[1],
        TurnItem::Failure { message, key } if message == "回合失败：boom"
            && key == "t1-failed-error"
    ));
    let running = Turn { sealed: false, block_ids: Vec::new(), ..turn() };
    assert!(matches!(
        &turn_view::<u32>(&running, false, &None)[0],
        TurnItem::UserMessage { status, tone: StatusTone::Running, .. } if status == "正在处理"
    ));
}

#[test]
fn reports_of_subagents_are_not_the_users_words() {
    let report = Turn { user_text: "  [SUBAGENT 'x' COMPLETED]".into(), ..turn() };
    let items = turn_view::<u32>(&report, false, &None);
    assert!(matches!(items[0], TurnItem::Injected { .. }));
    assert!(!items.iter().any(|item| matches!(item, TurnItem::UserMessage { .. })));
}

#[test]
fn turns_are_taken_back_only_after_a_question() {
    let mut menu = UndoMenu::new();
    assert!(!menu.handle(UndoEvent::RightTapped));
    assert!(menu.menu_open);
    assert!(!menu.handle(UndoEvent::Chosen));
    assert!(!menu.menu_open && menu.confirm_open);
    assert!(!menu.handle(UndoEvent::Tapped));
    assert!(menu.confirm_open);
    assert!(!menu.handle(UndoEvent::Answered { confirmed: false }));
    assert!(!menu.confirm_open);
    assert!(menu.handle(UndoEvent::Answered { confirmed: true }));
}

#[test]
fn drawn_turns_and_blocks_are_used_again() {
    let props = |rev: u64, dark: bool| TurnProps { turn_id: "t".into(), mutation_rev: rev, dark };
    assert!(turn_unchanged(&props(1, false), &props(1, false), false));
    assert!(!turn_unchanged(&props(1, false), &props(2, false), false));
    assert!(turn_unchanged(&props(1, false), &props(2, false), true));
    assert!(!turn_unchanged(&props(1, false), &props(1, true), true));
    let block = |turn: &str, id: &str| BlockProps {
        turn_id: turn.into(),
        block_id: id.into(),
        mutation_rev: 1,
        dark: false,
    };
    assert!(block_unchanged(&block("t", "b"), &block("t", "b"), false));
    assert!(!block_unchanged(&block("t", "b"), &block("t", "c"), false));
    assert!(!block_unchanged(&block("t", "b"), &block("u", "b"), true));
    let old = vec![("a".to_string(), 1), ("b".to_string(), 2), ("a".to_string(), 3)];
    let new = vec![("a".to_string(), 3), ("b".to_string(), 9), ("c".to_string(), 1)];
    assert_eq!(reuse_rows(&old, &new), vec![Some(2), None, None]);
}

fn block(kind: TimelineBlockKind, text: &str) -> Block {
    Block {
        block_id: "b1".into(),
        block_order: 2,
        kind,
        text: text.into(),
        sealed: false,
        tool: None,
        answer: Answer::default(),
        mutation_rev: 0,
    }
}

#[test]
fn blocks_are_shown_by_what_they_are() {
    let show = |b: &Block| block_view("t", b, None);
    assert!(matches!(
        show(&block(TimelineBlockKind::Reasoning, "so")),
        BlockShow::Reasoning { key, automation_id } if key == "t-block-reasoning-b1"
            && automation_id == "chat-reasoning-b1"
    ));
    assert!(matches!(show(&block(TimelineBlockKind::Reasoning, " ")), BlockShow::Hidden));
    assert!(matches!(
        show(&block(TimelineBlockKind::Notice, "n")),
        BlockShow::Notice { key } if key == "t-block-notice-b1"
    ));
    assert!(matches!(show(&block(TimelineBlockKind::Notice, "")), BlockShow::Hidden));
    assert!(matches!(show(&block(TimelineBlockKind::Text, "x")), BlockShow::Hidden));
    let BlockShow::Tool(row) = show(&block(TimelineBlockKind::Tool, "")) else {
        panic!("a begun call is shown");
    };
    assert_eq!(row.line, "解析工具调用");
    assert_eq!(row.key, "t-r2-tool-b1");
    let announced = Block {
        tool: Some(ToolCard { started: false, ..card("read", None, false) }),
        ..block(TimelineBlockKind::Tool, "")
    };
    assert!(matches!(show(&announced), BlockShow::Hidden));
    let answered = Block {
        answer: Answer::Streaming { raw: "a".into(), segments: Vec::new() },
        ..block(TimelineBlockKind::Text, "")
    };
    assert!(matches!(show(&answered), BlockShow::Answer { key } if key == "t-block-answer-b1"));
}

#[test]
fn growing_answers_keep_their_place() {
    let items = live_view(
        "t",
        3,
        &vec![LiveSegment::Text(String::new()), LiveSegment::Table, LiveSegment::Text("x".into())],
    );
    assert_eq!(items.len(), 2);
    assert!(matches!(&items[0], LiveItem::Table { index: 1, key } if key == "t-r3-live-table-1"));
    assert!(matches!(&items[1], LiveItem::Text { index: 2, key } if key == "t-r3-live-t2"));
    let none = live_view("t", 3, &Vec::new());
    assert!(matches!(&none[0], LiveItem::Empty { key } if key == "t-r3-live-empty"));
}

#[test]
fn complete_answers_are_shown_part_by_part() {
    let rich = RichText {
        blocks: vec![
            FinalBlock::Heading { level: 1 },
            FinalBlock::Paragraph,
            FinalBlock::Table,
            FinalBlock::Heading { level: 2 },
            FinalBlock::Heading { level: 5 },
            FinalBlock::Code,
            FinalBlock::Diagram,
        ],
        paragraphs: 1,
        tables: 1,
        code_blocks: 1,
        diagrams: 1,
    };
    let items = final_view("t", 0, &rich);
    assert_eq!(items.len(), 7);
    assert_eq!(items[0].part, FinalPart::Paragraph { top: 8 });
    assert_eq!(items[1].part, FinalPart::Paragraph { top: 0 });
    assert_eq!(items[3].part, FinalPart::Paragraph { top: 6 });
    assert_eq!(items[4].part, FinalPart::Paragraph { top: 4 });
    assert_eq!(items[2].key.as_deref(), Some("t-r0-table-2"));
    assert_eq!(items[5].key.as_deref(), Some("t-r0-code-5"));
    assert_eq!(items[6].key.as_deref(), Some("t-r0-diagram-6"));
    let older = RichText { blocks: Vec::new(), tables: 2, ..rich };
    let items = final_view("t", 0, &older);
    assert_eq!(items.len(), 5);
    assert_eq!(items[0].part, FinalPart::Paragraphs);
    assert_eq!(items[2].key.as_deref(), Some("t-r0-table-1"));
    assert_eq!(items[3].key.as_deref(), Some("t-r0-code-0"));
    assert_eq!(items[4].key.as_deref(), Some("t-r0-diagram-0"));
    assert!(answer_has_visible_content(&Answer::Final { blocks: 0, rich: older }));
}

#[test]
fn thoughts_are_folded_unless_the_user_chose_otherwise() {
    let mut left_alone = Reasoning::new();
    left_alone.text_changed();
    assert_eq!(left_alone.scroll_generation, 1);
    assert_eq!(left_alone.head(false), ("正在整理过程摘要", "思考中…", "▾"));
    left_alone.sealed_changed(true);
    assert!(!left_alone.open);
    assert_eq!(left_alone.head(true), ("过程摘要", "已折叠", "▸"));
    let mut touched = Reasoning::new();
    touched.toggle();
    touched.toggle();
    touched.sealed_changed(true);
    assert!(touched.open);
}

#[test]
fn snapshots_are_believed_when_they_hold_something() {
    let mut pump = Pump::new(0);
    assert_eq!(pump.take_snapshot("s", Some(0), 1), SnapshotStep::Verify);
    assert_eq!(pump.take_snapshot("s", Some(0), 2), SnapshotStep::Verify);
    assert_eq!(pump.take_snapshot("s", Some(0), 3), SnapshotStep::Restore);
    assert_eq!(pump.take_snapshot("s", None, 4), SnapshotStep::Nothing);
    assert_eq!(pump.take_snapshot("r", None, 5), SnapshotStep::Refresh);
    assert_eq!(pump.take_snapshot("r", Some(3), 6), SnapshotStep::Restore);
    assert_eq!(pump.empty_verifications, 0);
    assert_eq!(pump.take_snapshot("", None, 7), SnapshotStep::Nothing);
}

#[test]
fn a_long_absence_is_made_up_for() {
    let mut pump = Pump::new(0);
    assert!(!pump.begin_frame("s", 16).drop_backlog);
    let start = pump.begin_frame("s", 30_016);
    assert!(start.drop_backlog);
    assert!(start.log_scale);
    assert!(pump.recovery_shown("s"));
    assert!(!pump.recovery_shown("r"));
    assert!(!pump.begin_frame("s", 30_032).drop_backlog);
    assert_eq!(pump.take_snapshot("s", Some(2), 30_040), SnapshotStep::Restore);
    assert!(!pump.recovery_shown("s"));
    assert!(pump.begin_frame("s", 70_000).drop_backlog);
}

#[test]
fn switching_sessions_keeps_their_transcripts() {
    let mut pump = Pump::new(0);
    let mut cache = SessionTranscriptCache::new();
    assert!(pump.session_changed("a"));
    assert_eq!(pump.switch_session(&mut cache, "nothing", "a"), None);
    assert_eq!(cache.len(), 0);
    assert_eq!(pump.switch_session(&mut cache, "of a", "b"), None);
    assert_eq!(pump.last_restored_seed, "");
    assert_eq!(pump.switch_session(&mut cache, "of b", "a"), Some("of a"));
    assert_eq!(pump.last_restored_seed, "a");
    assert!(!pump.session_changed("a"));
    keep_on_unmount(&mut cache, "a".into(), "empty", true);
    assert_eq!(cache.len(), 1);
    keep_on_unmount(&mut cache, "a".into(), "full", false);
    assert_eq!(cache.restore("a"), Some("full"));
}

#[test]
fn entries_are_taken_over_in_portions() {
    let mut pump = Pump::new(0);
    assert_eq!(pump.fetch_limit(0, false), 512);
    assert_eq!(pump.fetch_limit(7, false), 0);
    assert_eq!(pump.fetch_limit(7, true), 128);
    assert_eq!(pump.fetch_limit(8, false), 512);
    pump.note_rev(9);
    assert_eq!(pump.last_rev, 9);
}

#[test]
fn growth_is_drawn_and_scrolled_at_a_measured_pace() {
    let mut pump = Pump::new(0);
    let live = Change { changed: true, structural: false, extent_changed: true };
    assert!(!pump.reduced(live, true, 7));
    assert_eq!((pump.render_generation, pump.scroll_version), (0, 0));
    assert!(!pump.reduced(live, true, 8));
    assert_eq!((pump.render_generation, pump.scroll_version), (1, 0));
    assert!(!pump.reduced(live, true, 100));
    assert_eq!((pump.render_generation, pump.scroll_version), (2, 1));
    let structural = Change { structural: true, ..live };
    assert!(pump.reduced(structural, true, 101));
    assert_eq!((pump.render_generation, pump.scroll_version), (3, 2));
    assert!(!pump.reduced(structural, false, 102));
    let none = Change { changed: false, ..structural };
    assert!(!pump.reduced(none, true, 103));
    assert_eq!(pump.render_generation, 4);
}

#[test]
fn the_view_goes_where_the_user_wants_it() {
    let mut pump = Pump::new(0);
    assert_eq!(pump.take_scroll(), Scroll::FollowTail { version: 0 });
    pump.take_snapshot("s", Some(1), 1);
    assert_eq!(pump.take_scroll(), Scroll::ForceTail { version: 1 });
    assert_eq!(pump.take_scroll(), Scroll::FollowTail { version: 1 });
    pump.view_changed(false);
    assert_eq!(pump.follow, FollowState::Idle);
    assert!(pump.jump_offered());
    assert_eq!(pump.take_scroll(), Scroll::Stay);
    pump.prepended(0);
    pump.prepended(30);
    assert_eq!(pump.take_scroll(), Scroll::PreserveAnchor { version: 2, rows: 30 });
    pump.jump_to_tail();
    assert!(!pump.jump_offered());
    assert_eq!(pump.take_scroll(), Scroll::ForceTail { version: 3 });
}

#[test]
fn earlier_turns_are_fetched_at_the_top() {
    let mut pump = Pump::new(0);
    assert!(matches!(pump.top_reached(5, "s", true, Some("t")), TopStep::Grown));
    assert_eq!(pump.pending_anchor, Some(5));
    assert!(matches!(
        pump.top_reached(0, "s", true, Some("t")),
        TopStep::Fetch { before } if before == "t"
    ));
    assert!(matches!(pump.top_reached(0, "s", false, Some("t")), TopStep::Nothing));
    assert!(matches!(pump.top_reached(0, "", true, Some("t")), TopStep::Nothing));
    assert!(matches!(pump.top_reached(0, "s", true, None), TopStep::Nothing));
}

#[test]
fn loading_is_shown_until_a_snapshot_is_there() {
    let mut pump = Pump::new(0);
    assert_eq!(
        pump.empty_state("s"),
        (EmptyState::Loading, "正在恢复对话", "正在读取时间线与最近的消息。")
    );
    pump.step_shimmer("s", true, 89);
    assert_eq!(pump.shimmer_tick, 0);
    pump.step_shimmer("s", true, 90);
    assert_eq!(pump.shimmer_tick, 1);
    pump.step_shimmer("s", false, 500);
    assert_eq!(pump.shimmer_tick, 1);
    pump.take_snapshot("s", Some(1), 600);
    assert_eq!(
        pump.empty_state("s"),
        (EmptyState::Fresh, "开始新的对话", "输入消息，或使用斜杠命令开始一项任务。")
    );
    assert_eq!(pump.empty_state("").0, EmptyState::Fresh);
}

#[test]
fn diagrams_say_how_large_they_are() {
    let request = zoom_request("d", r#"<svg width="640.5" height="480">"#);
    assert_eq!(request.width.as_deref(), Some("640.5"));
    assert_eq!(request.height.as_deref(), Some("480"));
    assert_eq!(zoom_request("d", "<svg>").width, None);
    assert_eq!(zoom_request("d", "<svg width=\"7").width.as_deref(), Some("7"));
    let late = format!("{}width=\"9\"", " ".repeat(300));
    assert_eq!(zoom_request("d", &late).width, None);
    let split = format!("{}é{}width=\"9\"", " ".repeat(299), " ".repeat(9));
    assert_eq!(zoom_request("d", &split).width.as_deref(), Some("9"));
}

#[test]
fn diagrams_are_shown_until_they_are_closed() {
    let mut zoom = Zoom::new();
    zoom.poll();
    assert!(zoom.shown.is_none());
    zoom.request("a", "<svg>");
    assert!(zoom.shown.is_none());
    zoom.poll();
    assert_eq!(zoom.shown.as_ref().map(|r| r.label.as_str()), Some("a"));
    zoom.close();
    zoom.poll();
    assert!(zoom.shown.is_none());
    zoom.request("a", "<svg>");
    zoom.poll();
    assert!(zoom.shown.is_some());
}

#[test]
fn prepared_snapshots_wait_for_their_session() {
    let mut slot: ReadySlot<&str> = ReadySlot::new();
    assert!(slot.chat_timeline_ready_take("a").is_none());
    slot.put("a".into(), "snapshot", 7);
    assert!(slot.chat_timeline_ready_take("b").is_none());
    assert_eq!(slot.chat_timeline_ready_take("a"), Some(("snapshot", 7)));
    assert!(slot.chat_timeline_ready_take("a").is_none());
}

#[test]
fn changes_add_up() {
    let mut total = Change::none();
    assert!(!total.changed);
    total.merge(Change { changed: true, structural: false, extent_changed: true });
    total.merge(Change { changed: true, structural: true, extent_changed: false });
    assert_eq!(total, Change { changed: true, structural: true, extent_changed: true });
    total.merge(Change::none());
    assert!(total.structural);
}
