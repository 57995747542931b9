use noterm::listing::{build_listing, listing_path, shown_entries, sort_entries, RawEntry};
use noterm::model::SftpEntry;

fn raw(name: Option<&str>, is_dir: bool) -> RawEntry {
    RawEntry { name: name.map(|n| n.to_string()), is_dir, size: Some(1), modified: Some(2), perm: Some(0o644) }
}

fn names(v: &[SftpEntry]) -> Vec<String> {
    v.iter().map(|e| e.name.clone()).collect()
}

#[test]
fn listing_of_empty_path_sorts_directories_first() {
    let entries = vec![
        raw(Some("."), true),
        raw(Some(".."), true),
        raw(Some("a"), false),
        raw(Some("B"), false),
        raw(Some("z"), false),
        raw(Some("d"), true),
    ];
    let r = build_listing("", &entries);
    assert_eq!(names(&r), vec!["d", "a", "B", "z"]);
    assert!(r[0].is_dir);
    assert!(!r[1].is_dir);
}

#[test]
fn listing_of_subdirectory_starts_with_parent() {
    let entries = vec![raw(Some("."), true), raw(Some(".."), true), raw(Some("a"), false), raw(Some("B"), false), raw(Some("z"), false), raw(Some("d"), true)];
    let r = build_listing("/home/user", &entries);
    assert_eq!(names(&r), vec!["..", "d", "a", "B", "z"]);
    assert!(r[0].is_dir);
    assert_eq!(r[0].size, None);
    assert_eq!(r[0].modified, None);
    assert_eq!(r[0].perm, None);
    assert_eq!(r[1].size, Some(1));
}

#[test]
fn listing_roots_get_no_parent() {
    let entries = vec![raw(Some("x"), false)];
    for p in ["", " ", ".", "/", "  /  "] {
        let r = build_listing(p, &entries);
        assert_eq!(names(&r), vec!["x"], "path {:?}", p);
    }
}

#[test]
fn listing_drops_nameless_and_empty_entries() {
    let entries = vec![raw(None, false), raw(Some(""), false), raw(Some("k"), true)];
    let r = build_listing("docs", &entries);
    assert_eq!(names(&r), vec!["..", "k"]);
}

#[test]
fn listing_twice_gives_same_sequence() {
    let entries = vec![raw(Some("b"), false), raw(Some("A"), true), raw(Some("a"), true), raw(Some("C"), false)];
    let first = build_listing("dir", &entries);
    let second = build_listing("dir", &entries);
    assert_eq!(first, second);
    assert_eq!(names(&first), vec!["..", "A", "a", "b", "C"]);
}

#[test]
fn listing_path_trims_and_defaults_to_dot() {
    assert_eq!(listing_path("   "), ".");
    assert_eq!(listing_path(""), ".");
    assert_eq!(listing_path("  /tmp  "), "/tmp");
}

#[test]
fn sort_keeps_reported_order_for_equal_names() {
    let e = |n: &str, d: bool, size: u64| SftpEntry { name: n.to_string(), is_dir: d, size: Some(size), modified: None, perm: None };
    let r = sort_entries(vec![e("Zed", false, 1), e("zed", false, 2), e("alpha", false, 3), e("dir", true, 4)]);
    assert_eq!(names(&r), vec!["dir", "alpha", "Zed", "zed"]);
    assert_eq!(r[2].size, Some(1));
}

#[test]
fn shown_entries_keep_fields() {
    let r = shown_entries(&vec![raw(Some("f"), false)]);
    assert_eq!(r, vec![SftpEntry { name: "f".to_string(), is_dir: false, size: Some(1), modified: Some(2), perm: Some(0o644) }]);
}

#[test]
fn order_by_given_keys() {
    let e = |n: &str, d: bool| SftpEntry { name: n.to_string(), is_dir: d, size: None, modified: None, perm: None };
    let keys = vec!["b".to_string(), "a".to_string(), "b".to_string(), "z".to_string()];
    let r = noterm::listing::order_by_keys(vec![e("x1", false), e("x2", false), e("x3", false), e("x4", true)], keys);
    assert_eq!(names(&r), vec!["x4", "x2", "x1", "x3"]);
}
