//! Installing the product.

use qaqh_apps::digest::{sha256_hex, sha256_text};
use qaqh_apps::install::bundle::{
    backup_name, check_file, check_updater, install_file_from_reader, install_operation, installed_message,
    preserves_previous, push_update, remove_legacy_uninstaller, run_install, run_patch,
    temporary_name, validate_bundle, BundleFile, BundleManifest, InstallSource, PatchSource,
};
use qaqh_apps::install::config::{InstallerConfig, Progress};
use qaqh_apps::install::expand::{shellexpand, wanted_variables, Environment};
use qaqh_apps::install::launch::{launch, staged_notice, Launch};
use qaqh_apps::install::legal::{legal_acceptance_record, write_legal_acceptance};
use qaqh_apps::install::registration::{
    application_path, create_desktop_shortcut, create_start_menu_shortcut,
    write_uninstall_registry, RegistryChange, SHORTCUT_DESCRIPTION, UNINSTALL_KEY,
};
use qaqh_apps::install::retry::{
    remove_dir_all_retry, retry_io, RemoveOutcome, RemoveStep, RetryStep,
};
use qaqh_apps::install::sfx::{
    find_record, find_zip_in_exe, is_central_directory, position_in_archive, real_target, scan_len,
    SeekTarget, ZipError, ZipPlace,
};
use qaqh_apps::install::swap::{step_failure, swap_recovery, swap_steps, SwapFile, SwapStep};
use qaqh_apps::install::wizard::{
    drive_of, files_line, process_line, space_label, CloseNote, PostStep, Screen, StepMark, Wizard,
};
use qaqh_apps::process::{
    find_qaqh_processes, find_removed_processes, find_via_tasklist, force_terminate,
    graceful_close, is_alive,
    is_shell_process, others_have_ended, others_to_end, qaqh_processes, shells_to_end,
    stop_confirmed, stop_daemon_via_http, taskkill_arguments, wait_for_exit,
    wait_for_process_exit, EndStep, ExitWait, ProcInfo, ProcessWait,
};

const ABC: &str = "ba7816bf8f01cfea414140de5dae2223b00361a396177a9cb410ff61f20015ad";

fn proc(pid: u32, name: &str, closed: bool) -> ProcInfo {
    ProcInfo { pid, name: name.into(), closed }
}

fn manifest(kind: &str) -> BundleManifest {
    BundleManifest {
        kind: kind.into(),
        build_id: "b7".into(),
        requires_full_install: kind != "full",
        files: vec![abc_file("a.exe"), abc_file("b.dll")],
    }
}

fn abc_file(target: &str) -> BundleFile {
    BundleFile { source: "s".into(), target: target.into(), size: 3, sha256: ABC.into() }
}

#[test]
fn legal_acceptance_is_bound_to_version_and_both_documents() {
    let record = legal_acceptance_record("2026-07-27.1", "0.1.0", 42, "agreement", "privacy");

    assert!(record.flag("accepted"));
    assert_eq!(record.text_or_empty("document_version"), "2026-07-27.1");
    assert_eq!(record.count("accepted_at_unix"), 42);
    assert_eq!(record.text_or_empty("source"), "installer");
    assert_eq!(record.text_field("user_agreement_sha256").expect("agreement digest").len(), 64);
    assert_ne!(
        record.text_or_empty("user_agreement_sha256"),
        record.text_or_empty("privacy_policy_sha256")
    );
    assert_eq!(record.text_or_empty("software_version"), "0.1.0");
}

#[test]
fn agreement_without_a_version_is_not_recorded() {
    let refused = write_legal_acceptance("  ", "0.1.0", 1, "a", "p");
    assert_eq!(refused.err().as_deref(), Some("legal document version is empty"));
    assert!(write_legal_acceptance("1", "0.1.0", 1, "a", "p").is_ok());
}

#[test]
fn digests_are_those_of_the_standard() {
    assert_eq!(sha256_text("abc"), ABC);
    assert_eq!(sha256_hex(b"abc"), ABC);
    assert_eq!(
        sha256_hex(b""),
        "e3b0c44298fc1c149afbf4c8996fb92427ae41e4649b934ca495991b7852b855"
    );
}

#[test]
fn workspace_service_is_part_of_the_installer_shutdown_allowlist() {
    assert!(qaqh_processes().iter().any(|name| name.eq_ignore_ascii_case("qaqh-workspace.exe")));
}

#[test]
fn files_are_checked_against_their_bundle() {
    assert!(install_file_from_reader(b"abc", &abc_file("t")).is_ok());
    let upper = BundleFile { sha256: ABC.to_uppercase(), ..abc_file("t") };
    assert!(install_file_from_reader(b"abc", &upper).is_ok());
    assert!(install_file_from_reader(b"abd", &abc_file("t")).is_err());
    assert_eq!(
        check_file(&abc_file("t.exe"), 2, "ff").unwrap_err(),
        format!("文件校验失败: t.exe（大小 2/3, SHA-256 ff/{ABC}）")
    );
}

#[test]
fn component_bundles_need_an_installation() {
    assert!(validate_bundle(&manifest("full"), "C:/x", false).is_ok());
    assert!(validate_bundle(&manifest("web"), "C:/x", true).is_ok());
    assert_eq!(
        validate_bundle(&manifest("web"), "C:/x", false).unwrap_err(),
        "web 是组件更新包，但目标目录不是完整的 QAQ-Harness 安装目录: C:/x"
    );
    assert!(preserves_previous(&manifest("web")));
    assert!(!preserves_previous(&manifest("full")));
}

#[test]
fn bundles_are_named_in_messages_and_files() {
    assert_eq!(temporary_name("a.exe", 17), ".a.exe.deepx-new-17");
    assert_eq!(backup_name("a.exe"), "a.exe.previous");
    assert_eq!(install_operation(&manifest("full")), "installer-b7");
    assert_eq!(
        installed_message(&manifest("full"), "C:/x"),
        "full bundle b7 installed: 2 files in C:/x"
    );
}

#[test]
fn installation_data_is_looked_for_in_the_executable_first() {
    assert_eq!(run_install(true, true), Ok(InstallSource::Embedded));
    assert_eq!(run_install(false, true), Ok(InstallSource::Payload));
    assert_eq!(
        run_install(false, false),
        Err("未找到安装数据：EXE 内无嵌入包，且 payload/ 目录不存在。".to_string())
    );
}

#[test]
fn patches_are_archives_or_directories() {
    assert_eq!(run_patch("p", true, Some("ZIP"), false), Ok(PatchSource::Zip));
    assert_eq!(run_patch("p", true, None, true), Ok(PatchSource::Directory));
    assert_eq!(run_patch("p", false, None, true), Err("source not found: p".to_string()));
    assert_eq!(
        run_patch("p", true, Some("rar"), false),
        Err("unsupported source (expected .zip or directory): p".to_string())
    );
}

#[test]
fn failures_of_the_updater_are_told() {
    assert_eq!(push_update(" boom \n", "exit code: 1"), "boom");
    assert_eq!(push_update(" \n", "exit code: 1"), "updater 失败，退出码 exit code: 1");
}

#[test]
fn legacy_uninstallers_go_only_from_verified_folders() {
    assert_eq!(
        remove_legacy_uninstaller(Some("no marker".into()), "u.exe", true, false, true),
        Err("refuse legacy uninstaller cleanup: no marker".to_string())
    );
    assert_eq!(remove_legacy_uninstaller(None, "u.exe", true, false, true), Ok(true));
    assert_eq!(remove_legacy_uninstaller(None, "u.exe", false, false, false), Ok(false));
    assert_eq!(
        remove_legacy_uninstaller(None, "u.exe", true, true, true),
        Err("refuse to remove unexpected legacy uninstaller object: u.exe".to_string())
    );
    assert!(remove_legacy_uninstaller(None, "u.exe", true, false, false).is_err());
}

#[test]
fn progress_counts_files_up_to_the_whole() {
    let mut config = InstallerConfig::default();
    let bundle = manifest("full");
    config.initialize_progress(&bundle, true);
    assert_eq!(config.operation, "upgrade");
    assert_eq!(config.total_files, 2);
    assert_eq!(config.progress, Progress { done: 0, of: 1 });
    config.advance_progress("a.exe");
    assert_eq!(config.progress, Progress { done: 1, of: 2 });
    assert_eq!(config.current_file, "a.exe");
    assert_eq!(files_line(&config), "文件 1 / 2");
    config.advance_progress("b.dll");
    assert_eq!(config.progress, Progress { done: 2, of: 2 });
    config.finish_progress();
    assert_eq!(config.progress, Progress { done: 1, of: 1 });

    config.initialize_progress(&manifest("web"), true);
    assert_eq!(config.operation, "update");
    config.initialize_progress(&bundle, false);
    assert_eq!(config.operation, "install");
    let empty = BundleManifest { files: Vec::new(), ..manifest("full") };
    config.initialize_progress(&empty, false);
    assert_eq!(config.total_files, 1);
}

#[test]
fn installations_go_to_local_data_by_default() {
    assert_eq!(
        InstallerConfig::default_path(Some("L".into()), Some("P".into())),
        vec!["L", "Programs", "QAQ-Harness"]
    );
    assert_eq!(
        InstallerConfig::default_path(None, Some("P".into())),
        vec!["P", "AppData\\Local", "Programs", "QAQ-Harness"]
    );
    assert_eq!(InstallerConfig::default_path(None, None), vec![".", "Programs", "QAQ-Harness"]);
}

#[test]
fn variables_in_paths_are_replaced() {
    let env = Environment { values: vec![("HOME".into(), "C:/u".into())] };
    assert_eq!(shellexpand("%HOME%/x/%NONE%", &env), "C:/u/x/%NONE%");
    assert_eq!(shellexpand("C:/plain", &env), "C:/plain");
    assert_eq!(shellexpand("50%%HOME%", &env), "50%C:/u");
    assert_eq!(shellexpand("a%b", &env), "a%b");
    assert_eq!(shellexpand("%%", &env), "%%");
    assert_eq!(wanted_variables("%HOME%/x/%NONE%"), vec!["HOME", "NONE"]);
    assert!(wanted_variables("C:/plain").is_empty());
    assert_eq!(wanted_variables("%A%B%C%"), vec!["A", "C"]);
    let none = Environment { values: Vec::new() };
    assert_eq!(shellexpand("%HOME%/%A%B%C%", &none), "%HOME%/%A%B%C%");
}

#[test]
fn windows_is_told_how_to_change_and_remove_an_installation() {
    let changes = write_uninstall_registry("C:\\Q", "1.2.3");
    assert_eq!(changes.len(), 10);
    assert_eq!(
        UNINSTALL_KEY,
        r"Software\Microsoft\Windows\CurrentVersion\Uninstall\QAQ-Harness"
    );
    assert!(matches!(
        &changes[0],
        RegistryChange::SetText { name, text } if name == "DisplayName" && text == "QAQ-Harness"
    ));
    assert!(matches!(
        &changes[3],
        RegistryChange::SetText { name, text } if name == "DisplayVersion" && text == "1.2.3"
    ));
    assert!(matches!(
        &changes[4],
        RegistryChange::SetText { name, text } if name == "UninstallString"
            && text == "\"C:\\Q\\qaqh-updater.exe\" uninstall --interactive --install-dir \"C:\\Q\""
    ));
    assert!(matches!(&changes[8], RegistryChange::Delete { name } if name == "NoModify"));
    assert!(matches!(
        &changes[9],
        RegistryChange::SetNumber { name, number: 1 } if name == "NoRepair"
    ));
}

#[test]
fn shortcuts_go_to_the_desktop_and_the_start_menu() {
    let desktop = create_desktop_shortcut("q.exe", "d", Some("D".into())).unwrap();
    assert_eq!(desktop.base, "D");
    assert_eq!(desktop.folder, "");
    assert_eq!(desktop.file_name, "QAQ-Harness.lnk");
    assert_eq!(desktop.target, "q.exe");
    assert_eq!(desktop.description, "d");
    assert_eq!(create_desktop_shortcut("q.exe", "d", None).unwrap_err(), "无法获取桌面路径");
    let menu = create_start_menu_shortcut("q.exe", "d", Some("R".into())).unwrap();
    assert_eq!(menu.folder, r"Microsoft\Windows\Start Menu\Programs\QAQ-Harness");
    assert_eq!(create_start_menu_shortcut("q.exe", "d", None).unwrap_err(), "无法获取开始菜单路径");
}

#[test]
fn locked_files_are_tried_again_for_a_while() {
    assert_eq!(retry_io(0), RetryStep::Again { pause_ms: 150 });
    assert_eq!(retry_io(18), RetryStep::Again { pause_ms: 150 });
    assert_eq!(retry_io(19), RetryStep::GiveUp);
    assert_eq!(remove_dir_all_retry(0, RemoveOutcome::NotFound), RemoveStep::Done);
    assert_eq!(remove_dir_all_retry(3, RemoveOutcome::Removed), RemoveStep::Done);
    assert_eq!(
        remove_dir_all_retry(0, RemoveOutcome::Failed),
        RemoveStep::Again { pause_ms: 250 }
    );
    assert_eq!(remove_dir_all_retry(19, RemoveOutcome::Failed), RemoveStep::GiveUp);
}

/// A file that ends in an archive: `before` bytes, the archive's own ones, and the
/// record.
fn with_archive(before: usize, size: u32, offset: u32) -> Vec<u8> {
    let mut bytes = vec![0u8; before + (size + offset) as usize];
    bytes.extend([0x50, 0x4b, 0x05, 0x06]);
    bytes.extend([0u8; 8]);
    bytes.extend(size.to_le_bytes());
    bytes.extend(offset.to_le_bytes());
    bytes.extend([0u8; 2]);
    bytes
}

#[test]
fn archives_are_found_at_the_end_of_executables() {
    let bytes = with_archive(100, 300, 7);
    let len = bytes.len() as u64;
    assert_eq!(find_zip_in_exe(&bytes, len), Ok(ZipPlace { start: 100, directory: 107 }));
    let tail = bytes[400..].to_vec();
    assert_eq!(find_zip_in_exe(&tail, len), Ok(ZipPlace { start: 100, directory: 107 }));
    assert_eq!(find_zip_in_exe(&vec![0; 64], 64), Err(ZipError::NoRecord));
    assert_eq!(find_zip_in_exe(&vec![1, 2], 2), Err(ZipError::NoRecord));
    let mut beyond = with_archive(0, 10, 10);
    beyond[36] = 200;
    let beyond_len = beyond.len() as u64;
    assert_eq!(find_zip_in_exe(&beyond, beyond_len), Err(ZipError::OutOfRange));
    assert_eq!(find_record(&bytes), Some(407));
    assert_eq!(scan_len(10), 10);
    assert_eq!(scan_len(1_000_000), 65_557);
    assert!(is_central_directory(&vec![0x50, 0x4b, 0x01, 0x02]));
    assert!(!is_central_directory(&vec![0x50, 0x4b, 0x05, 0x06]));
}

#[test]
fn archives_with_the_longest_comment_are_found() {
    let mut bytes = with_archive(100_000, 300, 7);
    let at = bytes.len() - 22;
    bytes[at + 20..].copy_from_slice(&65_535u16.to_le_bytes());
    bytes.extend(vec![b' '; 65_535]);
    let len = bytes.len() as u64;
    assert_eq!(len - at as u64, 65_557);
    let tail = bytes[bytes.len() - scan_len(len) as usize..].to_vec();
    assert_eq!(find_record(&tail), Some(0));
    assert_eq!(find_zip_in_exe(&tail, len), Ok(ZipPlace { start: 100_000, directory: 100_007 }));
}

#[test]
fn positions_are_those_of_the_archive() {
    assert_eq!(real_target(100, SeekTarget::Start(7)), SeekTarget::Start(107));
    assert_eq!(real_target(100, SeekTarget::End(-3)), SeekTarget::End(-3));
    assert_eq!(real_target(100, SeekTarget::Current(3)), SeekTarget::Current(3));
    assert_eq!(position_in_archive(100, 107), 7);
    assert_eq!(position_in_archive(100, 50), 0);
}

#[test]
fn new_files_take_the_place_of_old_ones() {
    assert_eq!(
        swap_steps(false, false, true),
        vec![SwapStep::Rename { from: SwapFile::Temporary, to: SwapFile::Target }]
    );
    assert_eq!(
        swap_steps(true, true, true),
        vec![
            SwapStep::ClearReadonly(SwapFile::Target),
            SwapStep::ClearReadonly(SwapFile::Backup),
            SwapStep::Remove(SwapFile::Backup),
            SwapStep::Rename { from: SwapFile::Target, to: SwapFile::Backup },
            SwapStep::Rename { from: SwapFile::Temporary, to: SwapFile::Target },
        ]
    );
    assert_eq!(
        swap_steps(true, true, false),
        vec![
            SwapStep::ClearReadonly(SwapFile::Target),
            SwapStep::Remove(SwapFile::Target),
            SwapStep::Rename { from: SwapFile::Temporary, to: SwapFile::Target },
        ]
    );
    assert_eq!(
        swap_recovery(false, true, true),
        vec![
            SwapStep::Rename { from: SwapFile::Backup, to: SwapFile::Target },
            SwapStep::Remove(SwapFile::Temporary),
        ]
    );
    assert_eq!(
        swap_recovery(false, true, false),
        vec![SwapStep::Remove(SwapFile::Temporary)]
    );
}

#[test]
fn nobody_passes_the_license_without_agreeing() {
    let mut w = Wizard::new("C:/q".into(), Vec::new());
    assert_eq!(w.screen, Screen::Welcome);
    assert!(!w.can_back());
    assert!(w.can_next());
    assert!(!w.go_next(Vec::new()));
    assert_eq!(w.screen, Screen::License);
    assert!(!w.can_next());
    w.license_agreed = true;
    assert!(w.can_next());
    assert!(!w.go_next(Vec::new()));
    assert_eq!(w.screen, Screen::Location);
    w.go_back();
    assert_eq!(w.screen, Screen::License);
}

#[test]
fn the_wizard_installs_where_the_user_said() {
    let mut w = Wizard::new("C:/q".into(), Vec::new());
    w.screen = Screen::Location;
    w.location_input = "   ".into();
    assert!(!w.can_next());
    w.location_input = " D:/tools ".into();
    assert!(w.can_next());
    assert!(!w.go_next(Vec::new()));
    assert_eq!(w.config.target_path, "D:/tools");
    assert_eq!(w.next_label(), "安装");
    w.config.install_desktop_app = false;
    assert!(!w.can_next());
    w.config.install_desktop_app = true;
    assert!(w.go_next(Vec::new()));
    assert_eq!(w.screen, Screen::Progress);
    assert!(w.is_install_phase());
    assert_eq!(w.step_mark(3), StepMark::Done);
    w.go_back();
    assert_eq!(w.screen, Screen::Progress);
}

#[test]
fn running_programs_are_closed_before_an_installation() {
    let mut w = Wizard::new("C:/q".into(), Vec::new());
    w.screen = Screen::Components;
    let found = vec![proc(1, "QAQ-Harness.exe", false), proc(2, "qaqh-daemon.exe", false)];
    assert!(!w.go_next(found));
    assert_eq!(w.screen, Screen::CloseProcesses);
    assert_eq!(w.close_note(), CloseNote::Offer);
    let buttons = w.close_buttons();
    assert!(buttons.auto && !buttons.retry && !buttons.proceed && !buttons.force && !buttons.skip);
    w.auto_closed(false, &vec![false, true]);
    assert_eq!(w.close_note(), CloseNote::SomeLeft);
    assert!(w.running_procs[0].closed);
    assert!(!w.running_procs[1].closed);
    let buttons = w.close_buttons();
    assert!(buttons.force && buttons.retry && buttons.skip && !buttons.auto && !buttons.proceed);
    w.force_closed(&vec![true, false]);
    assert!(w.running_procs[0].closed);
    assert!(w.running_procs[1].closed);
    assert_eq!(w.close_note(), CloseNote::AllClosed);
    assert!(w.close_buttons().proceed);
    w.start_install();
    assert_eq!(w.screen, Screen::Progress);
    w.retry_close(vec![proc(9, "x", false)]);
    assert!(!w.close_attempted);
    assert_eq!(process_line(&proc(9, "x", false)), "  x  (PID: 9)  运行中");
    assert_eq!(process_line(&proc(9, "x", true)), "  x  (PID: 9)  已关闭");
}

#[test]
fn an_installation_ends_with_what_went_wrong() {
    let mut w = Wizard::new("C:/q".into(), Vec::new());
    w.install_done(Ok(()), Ok(()));
    assert!(w.install_result.is_none());
    w.screen = Screen::Progress;
    w.config.bundle_kind = "full".into();
    assert_eq!(
        w.post_install(),
        vec![
            PostStep::WriteInstallMarker,
            PostStep::RemoveLegacyUninstaller,
            PostStep::WriteUninstallRegistry,
            PostStep::WriteLegalAcceptance,
            PostStep::CreateDesktopShortcut,
            PostStep::CreateStartMenuShortcut,
        ]
    );
    w.install_done(Ok(()), Err("late".into()));
    assert_eq!(w.screen, Screen::Finish);
    assert!(!w.success());
    assert_eq!(w.finish_title(), "安装失败");
    assert_eq!(w.finish_message(), "late");
    assert_eq!(w.finish_button(), ("关闭", 1));
    w.screen = Screen::Progress;
    w.config.operation = "upgrade".into();
    w.install_done(Ok(()), Ok(()));
    assert_eq!(w.finish_title(), "升级完成");
    assert_eq!(w.finish_message(), "QAQ-Harness 已成功升级。");
    assert_eq!(w.finish_button(), ("完成", 0));
    assert_eq!(
        w.launch_hints(),
        vec!["开始菜单中的 QAQ-Harness", "桌面快捷方式", "C:/q\\QAQ-Harness.exe"]
    );
    w.config.bundle_kind = "web".into();
    assert!(w.post_install().is_empty());
}

#[test]
fn space_and_drives_are_told() {
    assert_eq!(space_label(199_999_999), (true, "可用空间不足"));
    assert_eq!(space_label(200_000_000), (false, "磁盘可用空间"));
    assert_eq!(drive_of("C:\\x").as_deref(), Some("C:"));
    assert_eq!(drive_of("\\\\server"), None);
    assert_eq!(Screen::all().len(), 4);
    assert_eq!(Screen::Location.title(), "安装位置");
    assert_eq!(Screen::Progress.step_index(), 4);
}

#[test]
fn processes_are_found_by_name() {
    let snapshot = vec![
        (1, "qaq-harness.exe".to_string()),
        (2, "other.exe".to_string()),
        (3, "qaqh-daemon.exe".to_string()),
    ];
    let found = find_qaqh_processes(Some(snapshot), &vec![None, None, None]);
    assert_eq!(found.iter().map(|p| p.pid).collect::<Vec<_>>(), vec![1, 3]);
    assert!(found.iter().all(|p| !p.closed));
    let removed = find_removed_processes(&vec![
        (7, "QAQH-UPDATER.EXE".to_string()),
        (8, "qaqh-workspace.exe".to_string()),
    ]);
    assert_eq!(removed, vec![7]);
    let listed = find_via_tasklist(
        "qaqh-daemon.exe",
        "\"qaqh-daemon.exe\",\"4321\",\"Console\",\"1\",\"9,000 K\"\r\n",
    );
    assert_eq!(listed.len(), 1);
    assert_eq!(listed[0].pid, 4321);
}

#[test]
fn programs_are_asked_before_they_are_ended() {
    assert!(is_alive(Some(259)));
    assert!(!is_alive(Some(0)));
    assert!(!is_alive(None));
    let mut procs = vec![proc(1, "QAQ-Harness.exe", false), proc(2, "qaqh-daemon.exe", false)];
    assert!(is_shell_process(&procs[0]));
    assert!(!is_shell_process(&procs[1]));
    assert_eq!(shells_to_end(&procs, &vec![true, true]), vec![true, false]);
    assert_eq!(others_to_end(&procs, &vec![true, true]), vec![false, true]);
    assert!(others_have_ended(&procs, &vec![true, false], 0));
    assert!(!others_have_ended(&procs, &vec![true, true], 0));
    graceful_close(&mut procs, &vec![false, true]);
    assert!(procs[0].closed);
    assert!(!procs[1].closed);
    assert_eq!(wait_for_exit(&vec![false, false], 0, 1_000), ExitWait::Ended);
    assert_eq!(wait_for_exit(&vec![true, false], 0, 1_000), ExitWait::Again);
    assert_eq!(wait_for_exit(&vec![true, false], 1_000, 1_000), ExitWait::TimedOut);
}

#[test]
fn processes_are_ended_with_those_that_they_started() {
    assert_eq!(taskkill_arguments(17), vec!["/f", "/t", "/pid", "17"]);
    assert_eq!(force_terminate(None, None), EndStep::EndTree);
    assert_eq!(force_terminate(Some(true), None), EndStep::Done { ended: true });
    assert_eq!(force_terminate(Some(false), None), EndStep::EndAlone);
    assert_eq!(force_terminate(Some(false), Some(true)), EndStep::Done { ended: true });
    assert_eq!(force_terminate(Some(false), Some(false)), EndStep::Done { ended: false });
}

#[test]
fn failed_swaps_say_what_failed() {
    let said = |step: SwapStep| step_failure(step, "t", "b", "e");
    assert_eq!(said(SwapStep::Remove(SwapFile::Backup)), "删除旧备份 'b' 失败: e");
    assert_eq!(said(SwapStep::Remove(SwapFile::Target)), "替换前删除 't' 失败: e");
    assert_eq!(
        said(SwapStep::Rename { from: SwapFile::Target, to: SwapFile::Backup }),
        "备份 't' 失败: e"
    );
    assert_eq!(
        said(SwapStep::Rename { from: SwapFile::Temporary, to: SwapFile::Target }),
        "启用新文件 't' 失败: e"
    );
}

#[test]
fn the_daemon_is_asked_to_stop_over_http() {
    assert!(stop_daemon_via_http("no json", true).is_none());
    assert!(stop_daemon_via_http(r#"{"endpoint":"ws://x"}"#, true).is_none());
    assert!(stop_daemon_via_http(r#"{"endpoint":"ws://x","token":""}"#, true).is_none());
    let asked = stop_daemon_via_http(
        r#"{"endpoint":"ws://127.0.0.1:4711/ws","token":"t"}"#,
        true,
    )
    .expect("a request");
    assert_eq!(asked.address, "127.0.0.1:4711");
    assert_eq!(
        asked.request,
        "POST /control/v1/stop HTTP/1.1\r\nHost: 127.0.0.1:4711\r\nAuthorization: Bearer t\r\n\
         Content-Length: 0\r\nConnection: close\r\n\r\n"
    );
    assert!(stop_confirmed("HTTP/1.1 200 OK\r\n\r\n"));
    assert!(!stop_confirmed("HTTP/1.1 403 Forbidden\r\n\r\n"));
}

#[test]
fn the_installer_does_what_it_was_started_for() {
    let args = |list: &[&str]| list.iter().map(|a| a.to_string()).collect::<Vec<_>>();
    let updater = Some("qaq-harnessupdate.EXE");
    assert!(matches!(launch(&args(&["i"]), updater, true), Launch::StageBeside));
    assert!(matches!(launch(&args(&["i"]), updater, false), Launch::Wizard));
    assert!(matches!(launch(&args(&["i"]), Some("setup.exe"), true), Launch::Wizard));
    assert!(matches!(launch(&args(&["i"]), None, true), Launch::Wizard));
    assert!(matches!(
        launch(&args(&["i", "--patch", "s", "t"]), updater, true),
        Launch::Patch { source, target } if source == "s" && target == "t"
    ));
    assert!(matches!(
        launch(&args(&["i", "--push-update", "s", "t"]), None, false),
        Launch::PushUpdate { .. }
    ));
    assert!(matches!(
        launch(&args(&["i", "--apply-self", "t"]), None, false),
        Launch::ApplySelf { target } if target == "t"
    ));
    assert!(matches!(launch(&args(&["i", "--patch", "s"]), None, false), Launch::Wizard));
    assert!(!staged_notice(None).error);
    let failed = staged_notice(Some("boom"));
    assert_eq!(failed.title, "QAQ-Harness 更新失败");
    assert_eq!(failed.message, "boom\n\n若尚未安装 QAQ-Harness，请先运行 Full 安装包。");
}

#[test]
fn a_process_is_waited_for() {
    assert_eq!(wait_for_process_exit(7, ProcessWait::NotThere), Ok(()));
    assert_eq!(wait_for_process_exit(7, ProcessWait::Ended), Ok(()));
    assert_eq!(
        wait_for_process_exit(7, ProcessWait::TimedOut),
        Err("timed out waiting for process 7 to exit".to_string())
    );
    assert_eq!(
        wait_for_process_exit(7, ProcessWait::Failed { reason: "x".into() }),
        Err("failed waiting for process 7: x".to_string())
    );
}

#[test]
fn updates_are_pushed_to_installations_with_an_updater() {
    assert_eq!(check_updater("u", true), Ok(()));
    assert_eq!(
        check_updater("D:/q/u", false),
        Err("目标安装缺少 updater，请先进行完整安装或升级: D:/q/u".to_string())
    );
    assert_eq!(application_path("D:\\q"), "D:\\q\\QAQ-Harness.exe");
    assert_eq!(SHORTCUT_DESCRIPTION, "QAQ-Harness 桌面应用");
    assert_eq!(ZipError::NoRecord.message(), "末尾未找到 ZIP 签名");
    assert_eq!(ZipError::OutOfRange.message(), "ZIP 偏移计算溢出");
}
