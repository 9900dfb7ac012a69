use electron_hook::text::{chars_of, concat2, concat3, find, matches_at, str_contains, str_eq, str_replace, str_starts_with};

#[test]
fn chars_of_keeps_every_character() {
    assert_eq!(chars_of("a/é"), vec!['a', '/', 'é']);
    assert_eq!(chars_of(""), Vec::<char>::new());
}

#[test]
fn contains_agrees_with_std() {
    let cases = [
        ("/opt/discord/resources/app.asar", "resources/app.asar"),
        ("/opt/discord/resources/_app.asar", "resources/app.asar"),
        ("", ""),
        ("abc", ""),
        ("", "a"),
        ("aab", "ab"),
        ("ab", "abc"),
    ];
    for (hay, needle) in cases {
        assert_eq!(str_contains(hay, needle), hay.contains(needle), "{hay:?} {needle:?}");
    }
}

#[test]
fn find_gives_the_first_index() {
    let hay = chars_of("xx--yy--");
    let needle = chars_of("--");
    assert_eq!(find(&hay, &needle, 0), Some(2));
    assert_eq!(find(&hay, &needle, 3), Some(6));
    assert_eq!(find(&hay, &needle, 7), None);
    assert!(matches_at(&hay, &needle, 6));
    assert!(!matches_at(&hay, &needle, 7));
}

#[test]
fn starts_with_agrees_with_std() {
    assert!(str_starts_with("/home/u/foo.so", "/home"));
    assert!(!str_starts_with("/hom", "/home"));
    assert!(str_starts_with("abc", ""));
    assert!(!str_starts_with("foo.so", "/"));
}

#[test]
fn replace_agrees_with_std_on_non_empty_patterns() {
    let cases = [
        ("/a/resources/_app.asar", "/_app.asar", "/app.asar"),
        ("/_app.asar/_app.asar", "/_app.asar", "/app.asar"),
        ("aaaa", "aa", "b"),
        ("aaa", "aa", "b"),
        ("abc", "x", "y"),
        ("", "x", "y"),
        ("ab", "abc", "y"),
        ("héllo wörld", "ö", "oe"),
    ];
    for (s, from, to) in cases {
        assert_eq!(str_replace(s, from, to), s.replace(from, to), "{s:?}");
    }
}

#[test]
fn replace_with_an_empty_pattern_changes_nothing() {
    assert_eq!(str_replace("abc", "", "x"), "abc");
}

#[test]
fn equality_and_concatenation() {
    assert!(str_eq("LD_PRELOAD", "LD_PRELOAD"));
    assert!(!str_eq("LD_PRELOAD", "LD_PRELOAD "));
    assert!(!str_eq("a", "b"));
    assert_eq!(concat2("/run/host", "/usr/lib/foo.so"), "/run/host/usr/lib/foo.so");
    assert_eq!(concat3("a", "\\", "b"), "a\\b");
}
