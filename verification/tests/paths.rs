use maketemp::path::{candidate_path, join};
use std::path::Path;

#[test]
fn name_follows_the_directory() {
    assert_eq!(join("/tmp", "x"), "/tmp/x");
    assert_eq!(join("relative/dir", "x.txt"), "relative/dir/x.txt");
}

#[test]
fn no_second_separator() {
    assert_eq!(join("/tmp/", "x"), "/tmp/x");
    assert_eq!(join("/", "x"), "/x");
}

#[test]
fn empty_directory_gives_the_bare_name() {
    assert_eq!(join("", "x"), "x");
}

#[test]
fn absolute_name_replaces_the_directory() {
    assert_eq!(join("/tmp", "/abs/x"), "/abs/x");
    assert_eq!(join("", "/x"), "/x");
}

#[test]
fn empty_name_leaves_a_trailing_separator() {
    assert_eq!(join("/tmp", ""), "/tmp/");
    assert_eq!(join("/tmp/", ""), "/tmp/");
    assert_eq!(join("", ""), "");
}

#[test]
fn join_looks_at_characters_not_bytes() {
    assert_eq!(join("/t\u{e9}", "\u{e9}"), "/t\u{e9}/\u{e9}");
    assert_eq!(join("/\u{1f600}/", "x"), "/\u{1f600}/x");
}

#[test]
fn join_agrees_with_the_standard_library() {
    let bases = ["", "/", "/tmp", "/tmp/", "a", "a/", "a/b", "./", "..", "/t\u{e9}", "//", "a//"];
    let names = ["", "x", "x/y", "/x", "/", "temp-17", "17", ".txt", "\u{e9}", "//x", "./x"];
    for base in bases.iter() {
        for name in names.iter() {
            let expected = Path::new(base).join(name);
            assert_eq!(Some(join(base, name).as_str()), expected.to_str(), "{:?} {:?}", base, name);
        }
    }
}

#[test]
fn candidate_path_is_the_name_under_the_directory() {
    assert_eq!(candidate_path("/var/tmp", "temp-", 42, ""), "/var/tmp/temp-42");
    assert_eq!(
        candidate_path("/var/tmp/", "abc-", 1_700_000_000_000_000, ".txt"),
        "/var/tmp/abc-1700000000000000.txt"
    );
    assert_eq!(candidate_path("", "", 5, ""), "5");
}

#[test]
fn candidate_path_with_absolute_prefix_leaves_the_directory() {
    assert_eq!(candidate_path("/var/tmp", "/elsewhere/t-", 42, ""), "/elsewhere/t-42");
}

#[test]
fn candidate_path_starts_with_directory_and_ends_with_name() {
    let path = candidate_path("/work/dir", "abc-", 31_337, ".log");
    assert!(path.starts_with("/work/dir"));
    assert!(path.ends_with("abc-31337.log"));
    assert!(path.contains("abc-"));
}

#[test]
fn distinct_timestamps_give_distinct_paths() {
    let stamps: [u128; 6] = [0, 1, 10, 100, 1_700_000_000_000_000, 1_700_000_000_000_001];
    for a in stamps.iter() {
        for b in stamps.iter() {
            let left = candidate_path("/tmp", "temp-", *a, "");
            let right = candidate_path("/tmp", "temp-", *b, "");
            assert_eq!(left == right, a == b);
        }
    }
}
