use xclod::paths::{extension_of, filter_by_extension, has_extension_ignore_case, stem_of};
use xclod::text::{decimal_string, join_strings, sort_lex, str_eq_ignore_ascii_case, str_le};

fn strings(items: &[&str]) -> Vec<String> {
    items.iter().map(|s| s.to_string()).collect()
}

#[test]
fn decimal_renders_like_format() {
    assert_eq!(decimal_string(0), "0");
    assert_eq!(decimal_string(7), "7");
    assert_eq!(decimal_string(10), "10");
    assert_eq!(decimal_string(255), "255");
    assert_eq!(decimal_string(1234567890), "1234567890");
    assert_eq!(decimal_string(u64::MAX), u64::MAX.to_string());
}

#[test]
fn ascii_case_is_ignored_only_for_ascii() {
    assert!(str_eq_ignore_ascii_case("FBX", "fbx"));
    assert!(str_eq_ignore_ascii_case("fBx", "FbX"));
    assert!(!str_eq_ignore_ascii_case("fbx", "fbxx"));
    assert!(!str_eq_ignore_ascii_case("fbx", "obj"));
    assert!(!str_eq_ignore_ascii_case("é", "É"));
    assert!(str_eq_ignore_ascii_case("", ""));
}

#[test]
fn lexicographic_order() {
    assert!(str_le("a", "b"));
    assert!(!str_le("b", "a"));
    assert!(str_le("ab", "abc"));
    assert!(!str_le("abc", "ab"));
    assert!(str_le("same", "same"));
    assert!(str_le("", "x"));
    assert!(str_le("Z", "a"));
}

#[test]
fn sort_orders_and_keeps_every_item() {
    let sorted = sort_lex(strings(&["c.fbx", "a.fbx", "b.fbx", "a.fbx"]));
    assert_eq!(sorted, strings(&["a.fbx", "a.fbx", "b.fbx", "c.fbx"]));
    assert_eq!(sort_lex(vec![]), Vec::<String>::new());
    let mut expected = strings(&["dir/z", "dir/a", "dir/m10", "dir/m2"]);
    expected.sort();
    assert_eq!(sort_lex(strings(&["dir/z", "dir/a", "dir/m10", "dir/m2"])), expected);
}

#[test]
fn joins_with_separator_between() {
    assert_eq!(join_strings(&vec![], "\n"), "");
    assert_eq!(join_strings(&strings(&["one"]), "\n"), "one");
    assert_eq!(join_strings(&strings(&["one", "two", "three"]), "\n"), "one\ntwo\nthree");
}

#[test]
fn extension_follows_path_extension() {
    for p in ["dir/x.FBX", ".hidden", "a.tar.gz", "noext", "a.", "dir/..", "", "/", "dir/.x.y"] {
        let expected = std::path::Path::new(p)
            .extension()
            .map(|e| e.to_string_lossy().into_owned());
        assert_eq!(extension_of(p), expected, "extension of {p}");
    }
    assert_eq!(extension_of("dir/x.FBX"), Some("FBX".to_string()));
    assert_eq!(extension_of(".hidden"), None);
}

#[test]
fn stem_follows_path_file_stem() {
    for p in ["dir/x.fbx", ".hidden", "a.tar.gz", "noext", "a.", "dir/..", "", "/", "dir/.x.y"] {
        let expected = std::path::Path::new(p)
            .file_stem()
            .map(|e| e.to_string_lossy().into_owned());
        assert_eq!(stem_of(p), expected, "stem of {p}");
    }
    assert_eq!(stem_of("in/model.fbx"), Some("model".to_string()));
}

#[test]
fn extension_check_ignores_case() {
    assert!(has_extension_ignore_case("a/b.FbX", "fbx"));
    assert!(!has_extension_ignore_case("a/b.fbx.bak", "fbx"));
    assert!(!has_extension_ignore_case("a/fbx", "fbx"));
    assert!(!has_extension_ignore_case("a/.fbx", "fbx"));
}

#[test]
fn filter_keeps_matching_paths_in_order() {
    let entries = strings(&["d/b.fbx", "d/readme.txt", "d/a.FBX", "d/.fbx", "d/c.obj"]);
    assert_eq!(filter_by_extension(&entries, "fbx"), strings(&["d/b.fbx", "d/a.FBX"]));
    assert_eq!(filter_by_extension(&entries, "jpg"), Vec::<String>::new());
}
