use carbon_core::listing::{find_entry, Entry, EntryKind};
use carbon_core::text::{chars_of, contains, ends_with, matches_at, same, starts_with};

fn chars(text: &str) -> Vec<char> {
    text.chars().collect()
}

fn entry(name: &str, kind: EntryKind) -> Entry {
    Entry { name: name.to_string(), path: format!("/d/{}", name), kind, entries: vec![] }
}

#[test]
fn characters_are_listed_in_order() {
    assert_eq!(chars_of(""), Vec::<char>::new());
    assert_eq!(chars_of("a.b"), vec!['a', '.', 'b']);
    assert_eq!(chars_of("héé"), vec!['h', 'é', 'é']);
}

#[test]
fn pattern_is_matched_at_an_offset() {
    let text = chars("init.server.luau");
    assert!(matches_at(&text, 0, "init."));
    assert!(matches_at(&text, 5, "server"));
    assert!(matches_at(&text, 11, ".luau"));
    assert!(matches_at(&text, 16, ""));
    assert!(matches_at(&text, 0, ""));
    assert!(!matches_at(&text, 1, "init."));
    assert!(!matches_at(&text, 12, ".luau"));
    assert!(!matches_at(&text, 17, ""));
    assert!(!matches_at(&text, 0, "init.server.luau.bak"));
}

#[test]
fn prefixes_and_suffixes() {
    let text = chars("Hud.client.luau");
    assert!(starts_with(&text, "Hud"));
    assert!(starts_with(&text, ""));
    assert!(starts_with(&text, "Hud.client.luau"));
    assert!(!starts_with(&text, "hud"));
    assert!(!starts_with(&text, "Hud.client.luau "));
    assert!(ends_with(&text, ".luau"));
    assert!(ends_with(&text, ".client.luau"));
    assert!(ends_with(&text, ""));
    assert!(ends_with(&text, "Hud.client.luau"));
    assert!(!ends_with(&text, ".server.luau"));
    assert!(!ends_with(&text, "xHud.client.luau"));
    assert!(!ends_with(&chars(""), "a"));
}

#[test]
fn same_text_means_same_characters() {
    assert!(same("", ""));
    assert!(same("Workspace", "Workspace"));
    assert!(same("héllo", "héllo"));
    assert!(!same("Workspace", "workspace"));
    assert!(!same("Workspace", "Workspaces"));
    assert!(!same("Workspaces", "Workspace"));
    assert!(!same("", "a"));
    assert!(!same("a", ""));
}

#[test]
fn pattern_is_found_anywhere() {
    assert!(contains(&chars("a/../b"), ".."));
    assert!(contains(&chars(".."), ".."));
    assert!(contains(&chars("ab"), ""));
    assert!(contains(&chars(""), ""));
    assert!(contains(&chars("abc"), "c"));
    assert!(!contains(&chars("a.b.c"), ".."));
    assert!(!contains(&chars(""), "."));
    assert!(!contains(&chars("."), ".."));
}

#[test]
fn first_entry_of_name_and_kind_is_found() {
    let entries = vec![
        entry("init.luau", EntryKind::Directory),
        entry("a.luau", EntryKind::File),
        entry("init.luau", EntryKind::File),
        entry("init.luau", EntryKind::File),
    ];
    assert_eq!(find_entry(&entries, "init.luau", EntryKind::File), Some(2));
    assert_eq!(find_entry(&entries, "init.luau", EntryKind::Directory), Some(0));
    assert_eq!(find_entry(&entries, "a.luau", EntryKind::File), Some(1));
    assert_eq!(find_entry(&entries, "a.luau", EntryKind::Directory), None);
    assert_eq!(find_entry(&entries, "init.luau", EntryKind::Other), None);
    assert_eq!(find_entry(&entries, "missing", EntryKind::File), None);
    assert_eq!(find_entry(&Vec::new(), "a", EntryKind::File), None);
}
