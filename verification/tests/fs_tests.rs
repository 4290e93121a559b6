use taskhost::fs_path::{
    entry_le_exec, path_within_home, resolve_safe_path, sort_entries, virtual_child_path,
    FileEntry,
};

fn entry(name: &str, is_dir: bool) -> FileEntry {
    FileEntry {
        name: String::from(name),
        path: format!("/{}", name),
        is_dir,
        size: 1,
        modified: 2,
    }
}

#[test]
fn virtual_root_maps_to_home() {
    assert_eq!(resolve_safe_path("/", "/home/alice"), "/home/alice");
    assert_eq!(resolve_safe_path("", "/home/alice"), "/home/alice");
    assert_eq!(resolve_safe_path("/docs/a.txt", "/home/alice"), "/home/alice/docs/a.txt");
    assert_eq!(resolve_safe_path("docs", "/home/alice"), "/home/alice/docs");
    assert_eq!(resolve_safe_path("///x", "/home/alice/"), "/home/alice/x");
}

#[test]
fn sandbox_check_is_component_wise() {
    assert!(path_within_home("/home/alice", "/home/alice"));
    assert!(path_within_home("/home/alice/docs", "/home/alice"));
    assert!(!path_within_home("/home/alice2", "/home/alice"));
    assert!(!path_within_home("/etc/passwd", "/home/alice"));
    assert!(path_within_home("/anything", "/"));
    assert!(!path_within_home("", "/"));
}

#[test]
fn virtual_child_paths() {
    assert_eq!(virtual_child_path("/", "bar"), "/bar");
    assert_eq!(virtual_child_path("/foo", "bar"), "/foo/bar");
    assert_eq!(virtual_child_path("/foo/", "bar"), "/foo/bar");
}

#[test]
fn listing_order_dirs_first_then_name() {
    assert!(entry_le_exec(&entry("zzz", true), &entry("aaa", false)));
    assert!(!entry_le_exec(&entry("aaa", false), &entry("zzz", true)));
    assert!(entry_le_exec(&entry("aaa", false), &entry("abb", false)));
    assert!(!entry_le_exec(&entry("abb", false), &entry("aaa", false)));
}

#[test]
fn sort_entries_orders_listing() {
    let input = vec![
        entry("notes.txt", false),
        entry("archive", true),
        entry("beta", true),
        entry("alpha.txt", false),
    ];
    let sorted = sort_entries(input);
    let names: Vec<&str> = sorted.iter().map(|e| e.name.as_str()).collect();
    assert_eq!(names, vec!["archive", "beta", "alpha.txt", "notes.txt"]);
}

#[test]
fn sort_entries_keeps_every_entry() {
    let input = vec![
        entry("b", false),
        entry("a", false),
        entry("a", false),
        entry("c", true),
    ];
    let sorted = sort_entries(input);
    assert_eq!(sorted.len(), 4);
    let names: Vec<&str> = sorted.iter().map(|e| e.name.as_str()).collect();
    assert_eq!(names, vec!["c", "a", "a", "b"]);
}

#[test]
fn sort_entries_empty() {
    let sorted = sort_entries(Vec::new());
    assert!(sorted.is_empty());
}
