//! Updating and removing the product.

use qaqh_apps::json;
use qaqh_apps::json::Json;
use qaqh_apps::paths::{path_is_within, reject_dangerous_root, same_path, windows_path_key};
use qaqh_apps::updater::maintenance::{installation_summary, MaintenancePage};
use qaqh_apps::updater::options::{
    apply_arguments, run, worker_arguments, MaintenanceOptions, OptionError, UpdaterCommand,
};
use qaqh_apps::updater::uninstall::{
    audit_deletion_tree, check_ended, check_traversal, process_belongs_to, processes_left,
    processes_to_end, protected_variables, removal_failure, removal_id, revalidate_data_dir,
    revalidate_install_dir, still_running, stop_running_processes, uninstall, uninstall_worker,
    validate_install_dir, worker_notice, worker_outcome, DeletionAudit, FoundProcess, InstallFiles,
    StopStep, TreeEntry, UninstallStep, WorkerStep, MAX_UNINSTALL_BYTES, MAX_UNINSTALL_ENTRIES,
};
use qaqh_apps::updater::update::{
    apply_staged, check_bundle, check_payload, check_plan, check_staged, committed, give_up_before,
    health_file, health_message, pending_is_done, pending_record, relaunch_and_verify,
    relaunch_target, rollback_operation, rollback_order, rollback_supported, staging_folder,
    verify_staged, verify_staged_operation_path, ApplyStep, CatalogArtifact, HealthStep,
    StagedArtifact, Staging,
};

fn args(list: &[&str]) -> Vec<String> {
    list.iter().map(|arg| arg.to_string()).collect()
}

#[test]
fn parses_interactive_maintenance_options() {
    let options = MaintenanceOptions::parse(&[
        "--interactive".to_string(),
        "--install-dir".to_string(),
        "C:/Users/Test/AppData/Local/Programs/QAQ-Harness".to_string(),
        "--delete-user-data".to_string(),
    ])
    .expect("maintenance options should parse");

    assert_eq!(
        options.install_dir,
        Some("C:/Users/Test/AppData/Local/Programs/QAQ-Harness".to_string())
    );
    assert!(options.notify);
    assert!(options.delete_user_data);
    assert!(!options.quiet);
}

#[test]
fn rejects_unknown_maintenance_options() {
    assert!(MaintenanceOptions::parse(&["--empty-update-means-uninstall".to_string()]).is_err());
}

#[test]
fn wrong_options_are_named() {
    let message = |list: &[&str]| MaintenanceOptions::parse(&args(list)).unwrap_err().message();
    assert_eq!(message(&["--install-dir"]), "--install-dir requires a value");
    assert_eq!(message(&["--wait-pid"]), "--wait-pid requires a value");
    assert_eq!(message(&["--wait-pid", "12x"]), "invalid digit found in string");
    assert_eq!(message(&["--wait-pid", ""]), "cannot parse integer from empty string");
    assert_eq!(message(&["--wait-pid", "-1"]), "invalid digit found in string");
    assert_eq!(message(&["--wait-pid", "4294967296"]), "number too large to fit in target type");
    assert_eq!(
        run(&args(&["handoff", "o", "t", "+", "r"])).unwrap_err().message(),
        "invalid digit found in string"
    );
    assert_eq!(message(&["--x"]), "unknown maintenance option: --x");
    assert_eq!(
        run(&args(&["uninstall-worker", "--quiet"])).unwrap_err().message(),
        "uninstall-worker requires --wait-pid"
    );
    assert!(matches!(run(&args(&["what"])), Err(OptionError::InvalidArguments)));
    assert_eq!(run(&args(&[])).unwrap_err().message(), "invalid arguments");
}

#[test]
fn commands_are_understood() {
    assert!(matches!(
        run(&args(&["maintain", "--interactive"])),
        Ok(UpdaterCommand::Maintain { options }) if options.notify
    ));
    assert!(matches!(
        run(&args(&["uninstall", "--quiet"])),
        Ok(UpdaterCommand::Uninstall { options }) if options.quiet
    ));
    assert!(matches!(
        run(&args(&["apply-staged", "o", "t", "--wait-pid", "7", "--relaunch", "r"])),
        Ok(UpdaterCommand::ApplyStaged { after: Some((7, program)), .. }) if program == "r"
    ));
    assert!(matches!(
        run(&args(&["apply-staged", "o", "t"])),
        Ok(UpdaterCommand::ApplyStaged { after: None, .. })
    ));
    assert!(matches!(
        run(&args(&["handoff", "o", "t", "9", "r"])),
        Ok(UpdaterCommand::Handoff { pid, .. }) if pid == "9"
    ));
    assert!(matches!(
        run(&args(&["handoff", "o", "t", "nine", "r"])),
        Err(OptionError::InvalidWaitPid { .. })
    ));
    assert!(matches!(run(&args(&["stage", "s", "t"])), Ok(UpdaterCommand::Stage { .. })));
    assert!(matches!(run(&args(&["plan", "s", "t"])), Ok(UpdaterCommand::Plan { .. })));
    assert!(matches!(run(&args(&["inspect", "s"])), Ok(UpdaterCommand::Inspect { .. })));
    assert!(matches!(
        run(&args(&["rollback-staged", "o", "t"])),
        Ok(UpdaterCommand::RollbackStaged { .. })
    ));
}

#[test]
fn the_worker_is_told_what_the_user_asked_for() {
    let told = worker_arguments("C:/q", 4711, true, true);
    let Ok(UpdaterCommand::UninstallWorker { options, wait_pid }) = run(&told) else {
        panic!("the worker does not understand its arguments");
    };
    assert_eq!(wait_pid, 4711);
    assert_eq!(options.install_dir.as_deref(), Some("C:/q"));
    assert!(options.delete_user_data);
    assert!(options.notify);
}

#[test]
fn the_named_installation_is_taken() {
    let named = MaintenanceOptions {
        install_dir: Some("C:/q".into()),
        ..MaintenanceOptions::default()
    };
    assert_eq!(named.target(Err("unknown".into())), Ok("C:/q".to_string()));
    let none = MaintenanceOptions::default();
    assert_eq!(none.target(Ok("C:/own".into())), Ok("C:/own".to_string()));
}

#[test]
fn normalizes_extended_windows_paths_for_process_matching() {
    assert_eq!(
        windows_path_key(r"\\?\C:\Users\Test\QAQ-Harness"),
        windows_path_key(r"c:\users\test\qaqh\")
    );
}

#[test]
fn normalizes_extended_unc_paths() {
    assert_eq!(
        windows_path_key(r"\\?\UNC\server\share\QAQ-Harness"),
        windows_path_key(r"\\server\share\qaqh")
    );
}

#[test]
fn protected_directories_are_never_delete_roots() {
    let protected = vec!["C:/Users/Test/AppData/Local/Temp".to_string()];
    let refused = |path: &str| reject_dangerous_root(path, &protected, true);
    assert_eq!(
        refused("C:/Users/Test/AppData/Local/Temp").unwrap_err(),
        "refusing dangerous install root 'C:/Users/Test/AppData/Local/Temp'"
    );
    assert!(refused("C:/Users/Test/AppData/Local").is_err());
    assert!(refused("c:\\users\\test").is_err());
    assert!(refused("C:/Users/Test/AppData/Local/Temp/qaqh-1").is_ok());
    assert!(refused("D:/Tools/QAQ-Harness").is_ok());
    assert!(path_is_within("C:/Users/Test/AppData/Local/Temp", "C:/Users/Test", true));
    assert!(!path_is_within("C:/Users/Test", "C:/Users/Test", true));
    assert!(!path_is_within("C:/Users/Tester", "C:/Users/Test", true));
    assert!(same_path("C:/A", "c:\\a\\", true));
    assert!(!same_path("/A", "/a", false));
}

#[test]
fn paths_are_compared_by_their_components() {
    let pairs = [
        ("/a/b", "/a/"),
        ("/a/", "/a"),
        ("/a/./b", "/a//b"),
        ("/ab", "/a"),
        ("/a", "/"),
        ("a", "/a"),
        ("./a", "a"),
        ("a", ""),
        ("/a/../b", "/a"),
        (".", "./."),
    ];
    for (left, right) in pairs {
        let (a, b) = (std::path::Path::new(left), std::path::Path::new(right));
        assert_eq!(same_path(left, right, false), a == b);
        assert_eq!(path_is_within(left, right, false), a.starts_with(b));
        assert_eq!(path_is_within(right, left, false), b.starts_with(a));
    }
    let protected = vec!["/home/me".to_string()];
    assert!(reject_dangerous_root("/home/", &protected, false).is_err());
    assert!(reject_dangerous_root("/home/me/", &protected, false).is_err());
    assert!(reject_dangerous_root("/home/me/qaqh", &protected, false).is_ok());
}

fn entry(path: &str, linked: bool, bytes: u64) -> TreeEntry {
    TreeEntry { path: path.into(), linked, bytes }
}

#[test]
fn trees_are_counted_before_they_are_deleted() {
    assert_eq!(
        audit_deletion_tree("r", false, &vec![entry("a", false, 5), entry("b", false, 7)]),
        Ok(DeletionAudit { entries: 2, bytes: 12 })
    );
    assert_eq!(
        audit_deletion_tree("r", true, &Vec::new()),
        Err("refusing linked or redirected deletion root 'r'".to_string())
    );
    assert_eq!(
        audit_deletion_tree("r", false, &vec![entry("l", true, 0)]),
        Err("refusing deletion tree containing link or reparse point 'l'".to_string())
    );
    assert_eq!(
        audit_deletion_tree("r", false, &vec![entry("o", false, MAX_UNINSTALL_BYTES + 1)]),
        Err("deletion safety budget exceeded at 'o': 1 entries, 21474836481 bytes".to_string())
    );
    assert!(audit_deletion_tree("r", false, &vec![entry("o", false, MAX_UNINSTALL_BYTES)]).is_ok());
    let mut many: Vec<TreeEntry> = Vec::new();
    for _ in 0..=MAX_UNINSTALL_ENTRIES {
        many.push(entry("e", false, 0));
    }
    assert!(audit_deletion_tree("r", false, &many).is_err());
}

#[test]
fn only_whole_installations_are_removed() {
    let all = InstallFiles { application: true, state: true, updater: true };
    let none = Vec::new();
    assert_eq!(validate_install_dir(Ok("D:/q".into()), &none, true, all), Ok("D:/q".to_string()));
    assert_eq!(
        validate_install_dir(Err("no marker".into()), &none, true, all),
        Err("unverified QAQ-Harness install root: no marker".to_string())
    );
    assert_eq!(
        validate_install_dir(
            Ok("D:/q".into()),
            &none,
            true,
            InstallFiles { application: false, ..all }
        ),
        Err("'D:/q' is missing required QAQ-Harness installation files".to_string())
    );
    assert_eq!(
        validate_install_dir(Ok("D:/q".into()), &vec!["D:/q/x".to_string()], true, all),
        Err("refusing dangerous install root 'D:/q'".to_string())
    );
    assert!(revalidate_install_dir("D:/q", Ok("d:\\Q".into()), &none, true).is_ok());
    assert_eq!(
        revalidate_install_dir("D:/q", Ok("D:/r".into()), &none, true),
        Err("install root identity changed before deletion".to_string())
    );
    assert_eq!(
        revalidate_install_dir("D:/q", Err("gone".into()), &none, true),
        Err("install root changed before deletion: gone".to_string())
    );
    assert!(revalidate_data_dir("D:/d", Ok("D:/d".into()), true).is_ok());
    assert_eq!(
        revalidate_data_dir("D:/d", Ok("D:/e".into()), true),
        Err("user data root identity changed before deletion".to_string())
    );
}

#[test]
fn user_data_stays_unless_it_is_to_go() {
    for steps in [uninstall(false, true), uninstall(true, false)] {
        assert!(!steps.contains(&UninstallStep::RemoveData));
        assert_eq!(steps[0], UninstallStep::ValidateInstall);
    }
    let steps = uninstall(true, true);
    assert_eq!(steps.last(), Some(&UninstallStep::RemoveData));
    let at = |step: UninstallStep| steps.iter().position(|s| *s == step).unwrap();
    assert!(at(UninstallStep::AuditData) < at(UninstallStep::RemoveInstall));
    assert!(at(UninstallStep::StopProcesses) < at(UninstallStep::RemoveInstall));
}

#[test]
fn the_user_is_told_how_a_removal_ended() {
    let done = worker_notice(None);
    assert_eq!(done.title, "QAQ-Harness 卸载");
    assert_eq!(done.message, "QAQ-Harness 已从此计算机中移除。");
    assert!(!done.error);
    let failed = worker_notice(Some("locked"));
    assert_eq!(failed.title, "QAQ-Harness 卸载失败");
    assert_eq!(failed.message, "locked");
    assert!(failed.error);
    assert_eq!(removal_id(7, 99), "7-99");
}

#[test]
fn a_removal_waits_for_its_caller_and_cleans_up() {
    assert_eq!(uninstall_worker(true, 59_999, true), None);
    assert_eq!(uninstall_worker(true, 60_000, true), Some(vec![]));
    assert_eq!(
        uninstall_worker(false, 0, true),
        Some(vec![WorkerStep::Remove, WorkerStep::Notify, WorkerStep::DeleteSelf])
    );
    assert_eq!(
        uninstall_worker(false, 200, false),
        Some(vec![WorkerStep::Remove, WorkerStep::DeleteSelf])
    );
    assert_eq!(
        worker_outcome(17, None),
        Err("timed out waiting for maintenance process 17".to_string())
    );
    assert_eq!(worker_outcome(17, Some(Ok(()))), Ok(()));
    assert_eq!(worker_outcome(17, Some(Err("locked".into()))), Err("locked".to_string()));
}

#[test]
fn only_programs_of_the_installation_are_ended() {
    assert!(process_belongs_to(Some(r"\\?\D:\Q\bin\q.exe"), "D:/q"));
    assert!(!process_belongs_to(Some("D:/other/q.exe"), "D:/q"));
    assert!(!process_belongs_to(None, "D:/q"));
    let found = vec![
        FoundProcess { pid: 1, belongs: true, running: true },
        FoundProcess { pid: 2, belongs: false, running: true },
        FoundProcess { pid: 3, belongs: true, running: false },
        FoundProcess { pid: 4, belongs: true, running: true },
    ];
    assert_eq!(processes_to_end(&found, 4), vec![1, 3]);
    assert_eq!(processes_left(&found, 4), vec![1]);
    assert_eq!(stop_running_processes(0, 0), StopStep::Stopped);
    assert_eq!(stop_running_processes(1, 0), StopStep::Again);
    assert_eq!(stop_running_processes(1, 1_000_000), StopStep::GiveUp);
}

#[test]
fn maintenance_tells_what_is_installed() {
    assert_eq!(installation_summary(None), "未能读取 install-state.json。");
    let state = json::parse(r#"{"releaseId":"r5","components":{"a":1,"b":2}}"#).unwrap();
    assert_eq!(installation_summary(Some(&state)), "当前版本：r5；已安装组件：2");
    let bare = json::parse("{}").unwrap();
    assert_eq!(installation_summary(Some(&bare)), "当前版本：未知；已安装组件：0");
}

#[test]
fn maintenance_asks_before_it_removes() {
    let mut page = MaintenancePage::new("D:/q".into(), "i".into(), false);
    assert_eq!(page.status, "维护程序已就绪。");
    assert!(!page.status_is_problem());
    assert!(!page.removal_offered());
    assert_eq!(page.stage_clicked(), None);
    assert_eq!(page.status, "请先输入 update-source 目录。");
    assert!(page.status_is_problem());
    page.source = " D:/u ".into();
    assert_eq!(page.stage_clicked().as_deref(), Some("D:/u"));
    page.stage_finished(Some("boom".into()));
    assert_eq!(page.status, "更新暂存失败：boom");
    assert!(page.status_is_problem());
    page.stage_finished(None);
    assert!(!page.status_is_problem());
    page.uninstall_clicked();
    assert!(page.removal_offered());
    page.cancel_clicked();
    assert!(!page.removal_offered());
    assert!(!page.removal_started(Some("no".into())));
    assert_eq!(page.status, "无法启动卸载：no");
    assert!(page.removal_started(None));
}

fn artifact(id: &str, kind: &str) -> CatalogArtifact {
    CatalogArtifact {
        id: id.into(),
        kind: kind.into(),
        path: format!("{id}.zip"),
        size: 3,
        sha256: "AB".into(),
        targets: vec![("c".into(), "t".into())],
    }
}

#[test]
fn updates_are_staged_in_the_order_of_their_plan() {
    let mut staging = Staging::new(
        vec!["b".into(), "a".into()],
        vec![artifact("a", "web"), artifact("b", "core")],
    );
    assert_eq!(staging.next(), Ok(Some(1)));
    assert!(check_payload(&staging.catalog[1], 3, "ab").is_ok());
    staging.accept(1, "p/b".into(), 3, "ab".into());
    assert_eq!(staging.next(), Ok(Some(0)));
    staging.accept(0, "p/a".into(), 3, "AB".into());
    assert_eq!(staging.next(), Ok(None));
    assert_eq!(staging.staged[0].id, "b");
    assert_eq!(staging.staged[0].kind, "core");
    assert!(check_plan(&staging.planned, &staging.staged).is_ok());
    assert_eq!(
        check_plan(&vec!["a".into(), "b".into()], &staging.staged),
        Err("staged artifacts do not match the recorded update plan".to_string())
    );
    let missing = Staging::new(vec!["z".into()], Vec::new());
    assert_eq!(missing.next(), Err("planned artifact is missing from catalog: z".to_string()));
}

#[test]
fn artifacts_are_checked_when_fetched_and_when_applied() {
    let a = artifact("a", "web");
    assert_eq!(
        check_payload(&a, 4, "cd").unwrap_err(),
        "artifact verification failed for a: expected 3 bytes/AB, got 4 bytes/cd"
    );
    assert!(check_bundle(&a, "web", &vec![("c".into(), "t".into())]).is_ok());
    assert_eq!(
        check_bundle(&a, "core", &a.targets).unwrap_err(),
        "artifact a kind mismatch: catalog=web, bundle=core"
    );
    assert_eq!(
        check_bundle(&a, "web", &Vec::new()).unwrap_err(),
        "artifact a component targets do not match bundle.json"
    );
    let staged = StagedArtifact {
        id: "a".into(),
        kind: "web".into(),
        path: "p".into(),
        size: 3,
        sha256: "AB".into(),
    };
    assert!(check_staged(&staged, 3, "ab").is_ok());
    assert_eq!(
        check_staged(&staged, 3, "cd").unwrap_err(),
        "staged artifact verification failed: a"
    );
    assert!(rollback_supported(&vec![staged]));
    let full = StagedArtifact {
        id: "f".into(),
        kind: "full".into(),
        path: "p".into(),
        size: 0,
        sha256: String::new(),
    };
    assert!(!rollback_supported(&vec![full]));
}

#[test]
fn updates_are_taken_back_the_last_one_first() {
    assert_eq!(rollback_order(3), vec![2, 1, 0]);
    assert!(rollback_order(0).is_empty());
    assert_eq!(rollback_operation("o"), "rollback-o");
    let mark = committed("r", "o");
    assert_eq!(mark.release_id, "r");
    assert_eq!(mark.last_committed_operation.as_deref(), Some("o"));
    assert!(pending_is_done(&json::parse(r#"{"operationId":"o"}"#).unwrap(), "o"));
    assert!(!pending_is_done(&json::parse(r#"{"operationId":"p"}"#).unwrap(), "o"));
    assert!(!pending_is_done(&json::parse("{}").unwrap(), "o"));
}

#[test]
fn the_restarted_program_has_to_confirm_an_update() {
    assert_eq!(relaunch_target(None), None);
    assert_eq!(relaunch_target(Some("-")), None);
    assert_eq!(relaunch_target(Some("q.exe")).as_deref(), Some("q.exe"));
    assert_eq!(relaunch_and_verify(true, true, 0), HealthStep::Confirmed);
    assert_eq!(relaunch_and_verify(false, true, 0), HealthStep::Failed);
    assert_eq!(relaunch_and_verify(false, false, 29_999), HealthStep::Again);
    assert_eq!(relaunch_and_verify(false, false, 30_000), HealthStep::Failed);
    assert_eq!(
        health_message("o"),
        "restarted application did not confirm update health within 30 seconds: o"
    );
    assert_eq!(health_file("o"), "o.ok");
    assert_eq!(staging_folder("o"), ".deepx-update/staging/o");
}

#[test]
fn staged_operations_lie_where_they_belong() {
    let check = |path: &str, name: Option<&str>| {
        verify_staged_operation_path(path, name, "D:/q/.deepx-update/staging", true)
    };
    assert!(check("D:/q/.deepx-update/staging/1/operation.json", Some("operation.json")).is_ok());
    assert_eq!(
        check("D:/q/.deepx-update/staging/1/o.json", Some("o.json")),
        Err("staged operation must be named operation.json".to_string())
    );
    assert!(check("D:/q/.deepx-update/staging/1/operation.json", None).is_err());
    assert_eq!(
        check("D:/x/operation.json", Some("operation.json")),
        Err("staged operation is outside the verified installation: D:/x/operation.json".to_string())
    );
    let unix = |path: &str, staging: &str| {
        verify_staged_operation_path(path, Some("operation.json"), staging, false).is_ok()
    };
    assert!(unix("/q/staging/1/operation.json", "/q/staging/"));
    assert!(unix("/q/./staging//1/operation.json", "/q/staging"));
    assert!(!unix("/q/staging2/operation.json", "/q/staging"));
    assert!(!unix("/q/operation.json/", "/q/operation.json"));
}

#[test]
fn updates_are_handed_to_another_process() {
    let told = apply_arguments("D:/o", "D:/q", "17", "q.exe");
    let Ok(UpdaterCommand::ApplyStaged { operation, target, after }) = run(&told) else {
        panic!("the other process does not understand its arguments");
    };
    assert_eq!(operation, "D:/o");
    assert_eq!(target, "D:/q");
    assert_eq!(after, Some((17, "q.exe".to_string())));
}

#[test]
fn a_failed_artifact_takes_the_others_with_it() {
    assert!(matches!(apply_staged(0, 2, true, true), ApplyStep::Apply { index: 1 }));
    assert!(matches!(apply_staged(1, 2, true, true), ApplyStep::Commit));
    assert!(matches!(
        apply_staged(1, 3, false, true),
        ApplyStep::Undo { order, restore: true } if order == vec![1, 0]
    ));
    assert!(matches!(apply_staged(0, 1, false, false), ApplyStep::Undo { restore: false, .. }));
    let artifact = StagedArtifact {
        id: "c".into(),
        kind: "ui".into(),
        path: "p".into(),
        size: 3,
        sha256: "AB".into(),
    };
    assert!(verify_staged(2, 4, &artifact, 3, "ab", true).is_none());
    assert!(matches!(
        verify_staged(2, 4, &artifact, 3, "cd", true),
        Some(ApplyStep::Undo { order, restore: true }) if order == vec![1, 0]
    ));
    assert!(matches!(
        verify_staged(0, 4, &artifact, 4, "ab", false),
        Some(ApplyStep::Undo { order, restore: false }) if order.is_empty()
    ));
    assert!(matches!(
        give_up_before(3, false),
        ApplyStep::Undo { order, restore: false } if order == vec![2, 1, 0]
    ));
}

#[test]
fn staged_updates_are_announced() {
    let record = pending_record(
        "D:/o",
        "op-1",
        "r2",
        Json::Text("component".into()),
        &vec!["a".into(), "b".into()],
        Json::List(Vec::new()),
    );
    assert_eq!(record.count("formatVersion"), 1);
    assert_eq!(record.text_or_empty("operationPath"), "D:/o");
    assert_eq!(record.text_or_empty("releaseId"), "r2");
    assert_eq!(record.text_or_empty("mode"), "component");
    assert_eq!(record.texts("artifacts"), vec!["a", "b"]);
    assert!(pending_is_done(&record, "op-1"));
    assert!(!pending_is_done(&record, "op-2"));
}

#[test]
fn a_removal_says_what_stopped_it() {
    assert_eq!(
        protected_variables(),
        vec!["SystemRoot", "ProgramData", "ProgramFiles", "ProgramFiles(x86)"]
    );
    assert_eq!(check_traversal("d", false), Ok(()));
    assert_eq!(
        check_traversal("d", true),
        Err("refusing to traverse symbolic link or reparse point 'd'".to_string())
    );
    assert_eq!(removal_failure("d", Some("busy")), "failed to remove 'd': busy");
    assert_eq!(removal_failure("d", None), "failed to remove 'd': unknown error");
    assert_eq!(check_ended(4, true, true, "x"), Ok(()));
    assert_eq!(check_ended(4, false, false, "x"), Ok(()));
    assert_eq!(
        check_ended(4, false, true, " denied \n"),
        Err("failed to terminate QAQ-Harness process 4: denied".to_string())
    );
    assert_eq!(still_running(&vec![]), "QAQ-Harness processes are still running: []");
    assert_eq!(still_running(&vec![7]), "QAQ-Harness processes are still running: [7]");
    assert_eq!(
        still_running(&vec![7, 12, 3]),
        "QAQ-Harness processes are still running: [7, 12, 3]"
    );
}
