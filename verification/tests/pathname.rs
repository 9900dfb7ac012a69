use electron_hook::pathname::{file_name_of, grandparent_of, join_paths, parent_of, PathStyle};
use std::path::Path;

fn std_parent(p: &str) -> Option<String> {
    Path::new(p).parent().map(|d| d.to_string_lossy().into_owned())
}

fn std_file_name(p: &str) -> Option<String> {
    Path::new(p).file_name().map(|d| d.to_string_lossy().into_owned())
}

#[test]
fn posix_parent_agrees_with_std_on_plain_paths() {
    for p in [
        "/usr/bin/discord",
        "/discord",
        "/",
        "",
        "discord",
        "a/b/",
        "a//b",
        "/opt/Discord/resources/app.asar",
        "..",
        "a/..",
        "/home/u/.cache/electron-hook/asar/x.asar",
    ] {
        assert_eq!(parent_of(PathStyle::Posix, p), std_parent(p), "{p:?}");
    }
}

#[test]
fn posix_file_name_agrees_with_std_on_plain_paths() {
    for p in ["/usr/bin/discord", "/discord", "/", "", "discord", "a/b/", "a//b", "..", "a/..", "."] {
        assert_eq!(file_name_of(PathStyle::Posix, p), std_file_name(p), "{p:?}");
    }
}

#[test]
fn parent_keeps_the_root_as_written() {
    assert_eq!(parent_of(PathStyle::Posix, "//discord"), Some("//".to_string()));
    assert_eq!(parent_of(PathStyle::Windows, "\\discord"), Some("\\".to_string()));
}

#[test]
fn windows_paths_split_at_both_separators() {
    let exe = "C:\\Users\\u\\AppData\\Local\\Discord\\app-1.0.9001\\Discord.exe";
    assert_eq!(
        parent_of(PathStyle::Windows, exe),
        Some("C:\\Users\\u\\AppData\\Local\\Discord\\app-1.0.9001".to_string())
    );
    assert_eq!(
        grandparent_of(PathStyle::Windows, exe),
        Some("C:\\Users\\u\\AppData\\Local\\Discord".to_string())
    );
    assert_eq!(file_name_of(PathStyle::Windows, exe), Some("Discord.exe".to_string()));
    assert_eq!(file_name_of(PathStyle::Windows, "C:/a\\b/c"), Some("c".to_string()));
    assert_eq!(parent_of(PathStyle::Windows, "C:/a\\b/c"), Some("C:/a\\b".to_string()));
}

#[test]
fn a_backslash_is_no_separator_on_posix() {
    assert_eq!(file_name_of(PathStyle::Posix, "a\\b"), Some("a\\b".to_string()));
    assert_eq!(parent_of(PathStyle::Posix, "a\\b"), Some(String::new()));
}

#[test]
fn dot_and_dot_dot_are_no_names() {
    assert_eq!(file_name_of(PathStyle::Posix, "a/."), None);
    assert_eq!(file_name_of(PathStyle::Posix, "a/.."), None);
    assert_eq!(file_name_of(PathStyle::Posix, "a/..."), Some("...".to_string()));
    assert_eq!(file_name_of(PathStyle::Posix, "a/.b"), Some(".b".to_string()));
}

#[test]
fn grandparent_of_short_paths() {
    assert_eq!(grandparent_of(PathStyle::Posix, "/a"), None);
    assert_eq!(grandparent_of(PathStyle::Posix, "a"), None);
    assert_eq!(grandparent_of(PathStyle::Posix, "a/b"), Some(String::new()));
    assert_eq!(grandparent_of(PathStyle::Posix, "/a/b"), Some("/".to_string()));
}

#[test]
fn posix_join_agrees_with_std() {
    for (base, part) in [
        ("/home/u/.cache", "electron-hook"),
        ("/home/u/.cache/", "electron-hook"),
        ("", "electron-hook"),
        ("/home/u", "/abs/x.asar"),
        ("/work", "foo.so"),
        ("/", "foo.so"),
        ("a", ""),
    ] {
        let expected = Path::new(base).join(part).to_string_lossy().into_owned();
        assert_eq!(join_paths(PathStyle::Posix, base, part), expected, "{base:?} {part:?}");
    }
}

#[test]
fn windows_join_writes_a_backslash() {
    assert_eq!(join_paths(PathStyle::Windows, "C:\\a", "b"), "C:\\a\\b");
    assert_eq!(join_paths(PathStyle::Windows, "C:\\a\\", "b"), "C:\\a\\b");
    assert_eq!(join_paths(PathStyle::Windows, "C:\\a/", "b"), "C:\\a/b");
    assert_eq!(join_paths(PathStyle::Windows, "C:\\a", "\\b"), "\\b");
}

#[test]
fn separators_of_each_style() {
    assert!(PathStyle::Posix.is_separator('/'));
    assert!(!PathStyle::Posix.is_separator('\\'));
    assert!(PathStyle::Windows.is_separator('/'));
    assert!(PathStyle::Windows.is_separator('\\'));
    assert_eq!(PathStyle::Posix.separator_text(), "/");
    assert_eq!(PathStyle::Windows.separator_text(), "\\");
}

#[test]
fn drive_root_keeps_its_separator() {
    assert_eq!(parent_of(PathStyle::Windows, "C:\\Discord.exe"), Some("C:\\".to_string()));
    assert_eq!(parent_of(PathStyle::Windows, "c:/Discord.exe"), Some("c:/".to_string()));
    assert_eq!(parent_of(PathStyle::Windows, "C:\\d\\x"), Some("C:\\d".to_string()));
    assert_eq!(grandparent_of(PathStyle::Windows, "C:\\d\\x"), Some("C:\\".to_string()));
    assert_eq!(file_name_of(PathStyle::Windows, "C:\\Discord.exe"), Some("Discord.exe".to_string()));
}

#[test]
fn drive_root_has_no_parent_and_no_name() {
    for root in ["C:\\", "C:", "C:\\\\", "z:/"] {
        assert_eq!(parent_of(PathStyle::Windows, root), None, "{root:?}");
        assert_eq!(file_name_of(PathStyle::Windows, root), None, "{root:?}");
    }
    assert_eq!(grandparent_of(PathStyle::Windows, "C:\\Discord.exe"), None);
}

#[test]
fn drive_relative_path() {
    assert_eq!(parent_of(PathStyle::Windows, "C:foo"), Some("C:".to_string()));
    assert_eq!(file_name_of(PathStyle::Windows, "C:foo"), Some("foo".to_string()));
    assert_eq!(parent_of(PathStyle::Windows, "C:foo\\bar"), Some("C:foo".to_string()));
}

#[test]
fn a_drive_is_a_name_on_posix() {
    assert_eq!(file_name_of(PathStyle::Posix, "C:"), Some("C:".to_string()));
    assert_eq!(parent_of(PathStyle::Posix, "C:/x"), Some("C:".to_string()));
    assert_eq!(parent_of(PathStyle::Posix, "C:"), Some(String::new()));
}

#[test]
fn only_a_letter_names_a_drive() {
    assert_eq!(file_name_of(PathStyle::Windows, "1:"), Some("1:".to_string()));
    assert_eq!(parent_of(PathStyle::Windows, "1:\\x"), Some("1:".to_string()));
    assert_eq!(file_name_of(PathStyle::Windows, "ab:"), Some("ab:".to_string()));
}
