use platform::{BuildTarget, PlatformUtils};
use std::path::Path;

const TARGETS: [BuildTarget; 4] =
    [BuildTarget::Windows, BuildTarget::MacOs, BuildTarget::Linux, BuildTarget::Other];

fn two_replacements(path: &str) -> String {
    path.replace('\\', "/").replace("//", "/")
}

#[test]
fn line_ending_per_target() {
    assert_eq!(PlatformUtils::line_ending(BuildTarget::Windows), "\r\n");
    assert_eq!(PlatformUtils::line_ending(BuildTarget::MacOs), "\n");
    assert_eq!(PlatformUtils::line_ending(BuildTarget::Linux), "\n");
    assert_eq!(PlatformUtils::line_ending(BuildTarget::Other), "\n");
}

#[test]
fn path_separator_per_target() {
    assert_eq!(PlatformUtils::path_separator(BuildTarget::Windows), '\\');
    assert_eq!(PlatformUtils::path_separator(BuildTarget::MacOs), '/');
    assert_eq!(PlatformUtils::path_separator(BuildTarget::Linux), '/');
    assert_eq!(PlatformUtils::path_separator(BuildTarget::Other), '/');
}

#[test]
fn normalize_turns_backslashes_into_slashes() {
    assert_eq!(PlatformUtils::normalize_path("a\\b\\c"), "a/b/c");
}

#[test]
fn normalize_collapses_a_double_slash() {
    assert_eq!(PlatformUtils::normalize_path("a//b"), "a/b");
}

#[test]
fn normalize_leaves_two_of_three_slashes() {
    assert_eq!(PlatformUtils::normalize_path("a///b"), "a//b");
}

#[test]
fn normalize_is_not_idempotent() {
    let once = PlatformUtils::normalize_path("a///b");
    let twice = PlatformUtils::normalize_path(&once);
    assert_eq!(once, "a//b");
    assert_eq!(twice, "a/b");
}

#[test]
fn normalize_edge_cases() {
    assert_eq!(PlatformUtils::normalize_path(""), "");
    assert_eq!(PlatformUtils::normalize_path("/"), "/");
    assert_eq!(PlatformUtils::normalize_path("\\"), "/");
    assert_eq!(PlatformUtils::normalize_path("//"), "/");
    assert_eq!(PlatformUtils::normalize_path("\\\\"), "/");
    assert_eq!(PlatformUtils::normalize_path("////"), "//");
    assert_eq!(PlatformUtils::normalize_path("/////"), "///");
    assert_eq!(PlatformUtils::normalize_path("a/\\/b"), "a//b");
    assert_eq!(PlatformUtils::normalize_path("\\\\server\\share"), "/server/share");
    assert_eq!(PlatformUtils::normalize_path("C:\\Users\\alice\\\\file.txt"), "C:/Users/alice/file.txt");
    assert_eq!(PlatformUtils::normalize_path("plain"), "plain");
    assert_eq!(PlatformUtils::normalize_path("a/b/"), "a/b/");
    assert_eq!(PlatformUtils::normalize_path("a//"), "a/");
}

#[test]
fn normalize_keeps_other_characters() {
    assert_eq!(PlatformUtils::normalize_path("dossier\\été\\文件.txt"), "dossier/été/文件.txt");
    assert_eq!(PlatformUtils::normalize_path("a b\\c\td"), "a b/c\td");
}

#[test]
fn normalize_agrees_with_two_replacements() {
    let samples = [
        "", "/", "//", "///", "////", "/////", "\\", "\\\\", "\\/", "/\\", "a", "a/b", "a//b",
        "a///b", "a////b", "//a//b//", "\\\\a\\\\b\\\\", "a/\\/\\b", "/a/\\", "é//ü", "x\\//\\y//",
    ];
    for s in samples {
        assert_eq!(PlatformUtils::normalize_path(s), two_replacements(s), "input {:?}", s);
    }
}

#[test]
fn db_path_absent_without_config_dir() {
    assert_eq!(PlatformUtils::db_path_in(None), None);
}

#[test]
fn db_path_appends_folder_and_file() {
    let dir = "/home/alice/.config";
    let expected = Path::new(dir).join("prompt-tools").join("database.db");
    let got = PlatformUtils::db_path_in(Some(dir.to_string()));
    assert_eq!(got, Some(expected.to_string_lossy().into_owned()));
    assert_ne!(got.as_deref(), Some(dir));
    if std::path::MAIN_SEPARATOR == '/' {
        assert_eq!(got.as_deref(), Some("/home/alice/.config/prompt-tools/database.db"));
    }
}

#[test]
fn db_path_with_trailing_separator() {
    if std::path::MAIN_SEPARATOR == '/' {
        let got = PlatformUtils::db_path_in(Some("/cfg/".to_string()));
        assert_eq!(got.as_deref(), Some("/cfg/prompt-tools/database.db"));
    }
}

#[test]
fn default_db_path_follows_the_config_dir() {
    let dir = dirs::config_dir().map(|p| p.to_string_lossy().into_owned());
    let got = PlatformUtils::get_default_db_path();
    assert_eq!(got.is_some(), dir.is_some());
    assert_eq!(got, PlatformUtils::db_path_in(dir));
    if let Some(p) = got {
        assert!(p.ends_with("database.db"));
        assert!(p.contains("prompt-tools"));
    }
}

#[test]
fn export_path_absent_without_documents_dir() {
    assert_eq!(PlatformUtils::export_path_in(None, "notes.json"), None);
}

#[test]
fn export_path_appends_file_name() {
    let dir = "/home/alice/Documents";
    let expected = Path::new(dir).join("notes.json");
    let got = PlatformUtils::export_path_in(Some(dir.to_string()), "notes.json");
    assert_eq!(got, Some(expected.to_string_lossy().into_owned()));
    assert_ne!(got.as_deref(), Some(dir));
    if std::path::MAIN_SEPARATOR == '/' {
        assert_eq!(got.as_deref(), Some("/home/alice/Documents/notes.json"));
    }
}

#[test]
fn export_path_with_absolute_file_name_stays_in_the_directory() {
    let got = PlatformUtils::export_path_in(Some("/home/u/Documents".to_string()), "/etc/passwd");
    let p = got.expect("a directory was given");
    assert!(p.starts_with("/home/u/Documents"));
    assert!(p.ends_with("etc/passwd"));
    if std::path::MAIN_SEPARATOR == '/' {
        assert_eq!(p, "/home/u/Documents/etc/passwd");
    }
    let got = PlatformUtils::export_path_in(Some("/docs".to_string()), "/tmp/out.json");
    let p = got.expect("a directory was given");
    assert!(p.starts_with("/docs"));
    if std::path::MAIN_SEPARATOR == '/' {
        assert_eq!(p, "/docs/tmp/out.json");
    }
}

#[test]
fn export_path_always_begins_with_the_directory() {
    let dirs = ["/home/u/Documents", "/docs/", "", "relative/dir", "C:\\Users\\u\\Documents"];
    let names = [
        "a.json", "/a.json", "//a.json", "\\a.json", "/\\/a.json", "", "/", "sub/a.json",
        "/etc/passwd", "C:\\x.json", "C:x.json", "..", "./a",
    ];
    for dir in dirs {
        for name in names {
            let got = PlatformUtils::export_path_in(Some(dir.to_string()), name);
            let p = got.expect("a directory was given");
            assert!(p.starts_with(dir), "dir {:?} name {:?} gave {:?}", dir, name, p);
            assert!(
                p.ends_with(PlatformUtils::relative_file_name(name).as_str()),
                "dir {:?} name {:?} gave {:?}",
                dir,
                name,
                p
            );
        }
    }
}

#[test]
fn export_path_of_a_relative_name_is_the_plain_join() {
    for name in ["a.json", "sub/a.json", "", "..", "./a", "with space.txt"] {
        let dir = "/home/u/Documents";
        let expected = Path::new(dir).join(name).to_string_lossy().into_owned();
        assert_eq!(PlatformUtils::export_path_in(Some(dir.to_string()), name), Some(expected));
    }
}

#[test]
fn relative_file_name_drops_leading_separators() {
    assert_eq!(PlatformUtils::relative_file_name("/etc/passwd"), "etc/passwd");
    assert_eq!(PlatformUtils::relative_file_name("///a"), "a");
    assert_eq!(PlatformUtils::relative_file_name("\\windows"), "windows");
    assert_eq!(PlatformUtils::relative_file_name("/\\/mixed"), "mixed");
    assert_eq!(PlatformUtils::relative_file_name("plain.txt"), "plain.txt");
    assert_eq!(PlatformUtils::relative_file_name("a/b/"), "a/b/");
    assert_eq!(PlatformUtils::relative_file_name(""), "");
    assert_eq!(PlatformUtils::relative_file_name("/"), "");
    assert_eq!(PlatformUtils::relative_file_name("//"), "");
    assert_eq!(PlatformUtils::relative_file_name("/é"), "é");
}

#[test]
fn every_path_is_valid() {
    for p in ["", "a", "a/b", "/abs/path", "C:\\Users\\x", "..", "./x", "with space", "文件"] {
        assert!(PlatformUtils::is_valid_path(p), "path {:?}", p);
    }
}

#[test]
fn modifier_key_per_target() {
    assert_eq!(PlatformUtils::get_modifier_key(BuildTarget::MacOs), "Cmd");
    assert_eq!(PlatformUtils::get_modifier_key(BuildTarget::Windows), "Ctrl");
    assert_eq!(PlatformUtils::get_modifier_key(BuildTarget::Linux), "Ctrl");
    assert_eq!(PlatformUtils::get_modifier_key(BuildTarget::Other), "Ctrl");
}

#[test]
fn save_shortcut_uses_the_modifier() {
    assert_eq!(PlatformUtils::get_shortcut_description(BuildTarget::MacOs, "save"), "Cmd + S");
    assert_eq!(PlatformUtils::get_shortcut_description(BuildTarget::Windows, "save"), "Ctrl + S");
    assert_eq!(PlatformUtils::get_shortcut_description(BuildTarget::Linux, "save"), "Ctrl + S");
    assert_eq!(PlatformUtils::get_shortcut_description(BuildTarget::Other, "save"), "Ctrl + S");
}

#[test]
fn new_and_search_shortcuts() {
    assert_eq!(PlatformUtils::get_shortcut_description(BuildTarget::MacOs, "new"), "Cmd + N");
    assert_eq!(PlatformUtils::get_shortcut_description(BuildTarget::Linux, "new"), "Ctrl + N");
    assert_eq!(PlatformUtils::get_shortcut_description(BuildTarget::MacOs, "search"), "Cmd + F");
    assert_eq!(PlatformUtils::get_shortcut_description(BuildTarget::Windows, "search"), "Ctrl + F");
}

#[test]
fn quit_shortcut_off_macos_ignores_the_modifier() {
    assert_eq!(PlatformUtils::get_shortcut_description(BuildTarget::Windows, "quit"), "Alt + F4");
    assert_eq!(PlatformUtils::get_shortcut_description(BuildTarget::Linux, "quit"), "Alt + F4");
    assert_eq!(PlatformUtils::get_shortcut_description(BuildTarget::Other, "quit"), "Alt + F4");
}

#[test]
fn quit_shortcut_on_macos() {
    assert_eq!(PlatformUtils::get_shortcut_description(BuildTarget::MacOs, "quit"), "Cmd + Q");
}

#[test]
fn unknown_action_has_no_shortcut() {
    for target in TARGETS {
        assert_eq!(PlatformUtils::get_shortcut_description(target, "unknown_action"), "");
        assert_eq!(PlatformUtils::get_shortcut_description(target, ""), "");
        assert_eq!(PlatformUtils::get_shortcut_description(target, "Save"), "");
        assert_eq!(PlatformUtils::get_shortcut_description(target, "save "), "");
    }
}

#[test]
fn shortcut_starts_with_modifier_key() {
    for target in TARGETS {
        let key = PlatformUtils::get_modifier_key(target);
        for action in ["new", "save", "search"] {
            let label = PlatformUtils::get_shortcut_description(target, action);
            assert!(label.starts_with(key), "{:?} {:?}", target, action);
        }
    }
}

#[test]
fn normalize_leaves_clean_paths_alone() {
    for p in ["", "a", "/", "/usr/local/bin", "relative/path/file.txt", "C:/Users/alice", "a/b/"] {
        assert_eq!(PlatformUtils::normalize_path(p), p);
    }
}

#[test]
fn normalize_never_lengthens_and_leaves_no_backslash() {
    for p in ["\\", "a\\b", "\\\\a", "a//b\\\\c", "///", "x\\/\\/y", "é\\\\ü"] {
        let normal = PlatformUtils::normalize_path(p);
        assert!(normal.chars().count() <= p.chars().count(), "input {:?}", p);
        assert!(!normal.contains('\\'), "input {:?}", p);
    }
}

#[test]
fn three_slashes_need_two_passes() {
    assert_eq!(PlatformUtils::normalize_path("///"), "//");
    assert_eq!(PlatformUtils::normalize_path("//"), "/");
}

#[test]
fn modifier_key_is_cmd_only_on_macos() {
    for target in TARGETS {
        let is_cmd = PlatformUtils::get_modifier_key(target) == "Cmd";
        assert_eq!(is_cmd, target == BuildTarget::MacOs);
    }
}

#[test]
fn label_is_empty_exactly_for_unknown_actions() {
    for target in TARGETS {
        for action in ["new", "save", "search", "quit"] {
            assert!(!PlatformUtils::get_shortcut_description(target, action).is_empty());
        }
        for action in ["", "open", "NEW", "quit!", "sav"] {
            assert!(PlatformUtils::get_shortcut_description(target, action).is_empty());
        }
    }
}
