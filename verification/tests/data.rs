//! The data directory, log files, and the texts and values that everything else
//! is made of.

use qaqh_apps::app_log::{base_dir, log_file_name, log_line, LogPlaces, LogRoot};
use qaqh_apps::data_root::{
    context_stats_path, data_root_marker_id, data_root_override, data_root_parts, home_variable,
    migrate_legacy_data_root_at, normalize_data_path_text, session_meta_parts, DataRootMarker,
};
use qaqh_apps::json;
use qaqh_apps::json::Json;
use qaqh_apps::motion::{
    animate_offset, animate_size, motion_mode, motion_steps, Motion, MotionStep,
};
use qaqh_apps::seed_map::SeedMap;
use qaqh_apps::text;

#[test]
fn data_root_marker_id_matches_backend_formula() {
    assert_eq!(
        data_root_marker_id("c:/users/qaqtam/.deepx", "c:/users/qaqtam"),
        "data-d8773e7dcb45bed4"
    );
}

#[test]
fn paths_have_one_form_in_markers() {
    assert_eq!(normalize_data_path_text(r"\\?\C:\Users\A\", true), "c:/users/a");
    assert_eq!(normalize_data_path_text(r"\\?\UNC\S\d", true), "//s/d");
    assert_eq!(normalize_data_path_text("/Home/A/", false), "/Home/A");
}

fn marker(product: &str, root: &str, home: &str) -> DataRootMarker {
    DataRootMarker {
        format_version: 1,
        product: product.into(),
        canonical_root: root.into(),
        owner_home: home.into(),
        root_id: data_root_marker_id(root, home),
    }
}

#[test]
fn legacy_markers_are_rewritten_once() {
    let root = "/tmp/x/.deepx";
    let home = "/tmp/x/home";
    let after = migrate_legacy_data_root_at(marker("DeepX", root, home), root, home, false)
        .expect("rewritten");
    assert_eq!(after.product, "QAQ-Harness");
    assert_eq!(after.canonical_root, root);
    assert_eq!(after.owner_home, home);
    assert_eq!(after.root_id, data_root_marker_id(root, home));
    assert!(migrate_legacy_data_root_at(after, root, home, false).is_none());
}

#[test]
fn foreign_markers_are_not_rewritten() {
    let root = "/tmp/x/.deepx";
    let home = "/tmp/x/home";
    let other = marker("OtherApp", root, home);
    assert!(migrate_legacy_data_root_at(other, root, home, false).is_none());
    let elsewhere = DataRootMarker {
        canonical_root: "c:/other/place".into(),
        root_id: String::new(),
        ..marker("DeepX", root, home)
    };
    assert!(migrate_legacy_data_root_at(elsewhere, root, home, false).is_none());
    let forged = DataRootMarker { root_id: "data-0".into(), ..marker("DeepX", root, home) };
    assert!(migrate_legacy_data_root_at(forged, root, home, false).is_none());
}

#[test]
fn an_empty_variable_names_no_directory() {
    assert_eq!(data_root_override(Some("D:/d".into())).as_deref(), Some("D:/d"));
    assert_eq!(data_root_override(Some(String::new())), None);
    assert_eq!(data_root_override(None), None);
    assert_eq!(data_root_parts(Some("D:/d".into()), "H".into()), vec!["D:/d"]);
    assert_eq!(data_root_parts(Some(String::new()), "H".into()), vec!["H", ".deepx"]);
    assert_eq!(data_root_parts(None, "H".into()), vec!["H", ".deepx"]);
    assert_eq!(home_variable(true), "USERPROFILE");
    assert_eq!(home_variable(false), "HOME");
    assert_eq!(session_meta_parts("s1"), vec!["sessions", "s1", "meta.json"]);
    assert_eq!(
        context_stats_path(None, "H".into(), "s1"),
        vec!["H", ".deepx", "sessions", "s1", "meta.json"]
    );
    assert_eq!(
        context_stats_path(Some("D:/d".into()), "H".into(), "s1"),
        vec!["D:/d", "sessions", "s1", "meta.json"]
    );
}

#[test]
fn logs_go_to_the_first_place_that_can_be_written() {
    let places = LogPlaces {
        redirect: None,
        exe_dir: Some("E".into()),
        user_area: Some("U".into()),
    };
    assert!(matches!(base_dir(&places, true, true), LogRoot::BesideExe { dir } if dir == "E"));
    assert!(matches!(base_dir(&places, false, true), LogRoot::UserArea { dir } if dir == "U"));
    assert!(matches!(base_dir(&places, false, false), LogRoot::Temporary));
    let named = LogPlaces { redirect: Some("R".into()), ..places };
    assert!(matches!(base_dir(&named, true, true), LogRoot::Redirected { dir } if dir == "R"));
    let blank = LogPlaces { redirect: Some(" ".into()), exe_dir: None, user_area: None };
    assert!(matches!(base_dir(&blank, true, true), LogRoot::Temporary));
    assert_eq!(log_line(42, "hello"), "[42] hello\n");
    assert_eq!(log_file_name("bridge"), "bridge.log");
    let record = qaqh_apps::app_log::write("shell", 7, "started");
    assert_eq!(record.folder, "shell");
    assert_eq!(record.file, "shell.log");
    assert_eq!(record.line, "[7] started\n");
}

#[test]
fn json_is_read_as_it_is_written() {
    let value = json::parse(r#"{"a":"x","b":true,"c":7,"d":["p",1,"q"],"e":-1,"f":1.5}"#).unwrap();
    assert_eq!(value.text_field("a").as_deref(), Some("x"));
    assert_eq!(value.text_field("b"), None);
    assert!(value.flag("b"));
    assert!(!value.flag("a"));
    assert_eq!(value.count("c"), 7);
    assert_eq!(value.count("e"), 0);
    assert_eq!(value.count("f"), 0);
    assert_eq!(value.texts("d"), vec!["p", "q"]);
    assert!(value.texts("a").is_empty());
    assert!(value.get("z").is_none());
    assert!(matches!(json::parse("null"), Some(Json::Null)));
    assert_eq!(json::parse(r#""s""#).unwrap().as_str().map(String::as_str), Some("s"));
    assert!(json::parse("{").is_none());
    assert!(json::parse("").is_none());
}

#[test]
fn seeds_are_keys() {
    let mut map: SeedMap<u32> = SeedMap::new();
    assert!(map.get("a").is_none());
    map.insert("a".into(), 1);
    map.insert("b".into(), 2);
    map.insert("a".into(), 3);
    assert_eq!(map.get("a"), Some(&3));
    assert!(map.contains_key("b"));
    let mut keys = map.keys();
    keys.sort();
    assert_eq!(keys, vec!["a", "b"]);
    map.retain_keys(&vec!["b".to_string()]);
    assert!(!map.contains_key("a"));
    assert_eq!(map.remove("b"), Some(2));
    assert_eq!(map.remove("b"), None);
}

#[test]
fn texts_are_cut_and_joined() {
    assert_eq!(text::trim(" \t a b\n"), "a b");
    assert_eq!(text::trim_start("  a "), "a ");
    assert!(text::is_blank(" \u{3000}\n"));
    assert!(!text::is_blank(" a "));
    assert_eq!(text::to_lower("ÄbC"), "Äbc");
    assert!(text::same_ignoring_case("ABc", "abC"));
    assert_eq!(text::replace_char("a\\b\\", '\\', '/'), "a/b/");
    assert!(text::starts_with("abc", "ab"));
    assert!(text::ends_with("abc", "bc"));
    assert_eq!(text::find("abcabc", "ca"), Some(2));
    assert_eq!(text::find("abc", "x"), None);
    assert!(text::contains("abc", ""));
    assert_eq!(text::strip_prefix("abc", "ab").as_deref(), Some("c"));
    assert_eq!(text::split_once("a=b=c", "="), Some(("a".to_string(), "b=c".to_string())));
    assert_eq!(text::trim_end_char("a//", '/'), "a");
    assert_eq!(text::trim_char("\"a\"", '"'), "a");
    assert_eq!(text::split_char("a,,b", ','), vec!["a", "", "b"]);
    assert_eq!(text::lines_of("a\r\nb\n\nc"), vec!["a", "b", "", "c"]);
    assert_eq!(text::squeeze("  a \n b  "), "a b");
    assert_eq!(text::first_chars("äbc", 2), "äb");
    assert_eq!(text::count("äbc"), 3);
}

#[test]
fn numbers_are_written_and_read() {
    assert_eq!(text::decimal_of(0), "0");
    assert_eq!(text::decimal_of(u64::MAX), "18446744073709551615");
    assert_eq!(text::hex_of(0xab, 4), "00ab");
    assert_eq!(text::parse_u32("42"), Some(42));
    assert_eq!(text::parse_u32("+42"), Some(42));
    assert_eq!(text::parse_u32("4294967295"), Some(u32::MAX));
    assert_eq!(text::parse_u32("4294967296"), None);
    assert_eq!(text::parse_u32(""), None);
    assert_eq!(text::parse_u32("1a"), None);
    for given in ["", "+", "-", "++1", "1a", "99999999999x", "9x999999999", "4294967296"] {
        assert_eq!(
            text::read_u32(given).unwrap_err().message(),
            given.parse::<u32>().unwrap_err().to_string()
        );
    }
    assert_eq!(text::wide("a𝄞"), vec![0x61, 0xd834, 0xdd1e, 0]);
}

#[test]
fn animations_are_tried_by_mode() {
    assert!(animate_size("size") && animate_size("both") && animate_size("manual"));
    assert!(!animate_size("offset") && !animate_size("none"));
    assert!(animate_offset("offset") && animate_offset("both") && animate_offset("manual"));
    assert!(!animate_offset("size"));
    assert_eq!(motion_mode(None), "manual");
    assert_eq!(motion_mode(Some("size".into())), "size");
    assert!(motion_steps("manual").is_empty());
    let steps = motion_steps("size");
    assert_eq!(steps[0], (1_000, MotionStep::Grow));
    assert_eq!(steps[4], (7_000, MotionStep::Exit));
    let mut motion = Motion::new();
    let mut over = false;
    for (_, step) in steps {
        over = motion.step(step);
    }
    assert!(over);
    assert_eq!(motion, Motion::new());
    motion.card_tapped();
    assert_eq!(motion.card(), (340, 220, "大卡片 340×220"));
    motion.flip_tapped();
    assert_eq!(motion.chip_names(), vec!["丙 · 3", "乙 · 2", "甲 · 1"]);
}
