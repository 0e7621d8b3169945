use plugin_install::entries::{conflicting_dirs, entry_action, is_plugin_file, plugin_files, EntryAction};
use plugin_install::mod_string::PackageIdentifier;

#[test]
fn skips_entries_without_safe_path() {
    assert!(matches!(entry_action("../evil.dll", None), EntryAction::Skip));
}

#[test]
fn skips_parent_references() {
    assert!(matches!(entry_action("a/../b.txt", Some("a/../b.txt")), EntryAction::Skip));
    assert!(matches!(entry_action("a/..", Some("a/..")), EntryAction::Skip));
    assert!(matches!(entry_action("a\\..\\b", Some("a\\..\\b")), EntryAction::Skip));
}

#[test]
fn skips_hidden_entries() {
    assert!(matches!(entry_action(".git/config", Some(".git/config")), EntryAction::Skip));
    assert!(matches!(entry_action("./x", Some("./x")), EntryAction::Skip));
}

#[test]
fn keeps_names_with_dots() {
    assert!(matches!(entry_action("a/..b/c", Some("a/..b/c")), EntryAction::WriteFile));
    assert!(matches!(entry_action("plugins/x.dll", Some("plugins/x.dll")), EntryAction::WriteFile));
    assert!(matches!(entry_action("plugins/", Some("plugins")), EntryAction::CreateDir));
    assert!(matches!(entry_action("info.json", Some("info.json")), EntryAction::WriteFile));
}

#[test]
fn plugin_extension() {
    assert!(is_plugin_file("x.dll"));
    assert!(is_plugin_file("a.b.dll"));
    assert!(is_plugin_file("..dll"));
    assert!(!is_plugin_file(".dll"));
    assert!(!is_plugin_file("dll"));
    assert!(!is_plugin_file("x.DLL"));
    assert!(!is_plugin_file("x.dlll"));
    assert!(!is_plugin_file("x.so"));
}

#[test]
fn selects_plugins_in_order() {
    let listing = vec!["b.dll".to_string(), "readme.txt".to_string(), "a.dll".to_string()];
    assert_eq!(plugin_files(&listing), vec!["b.dll".to_string(), "a.dll".to_string()]);
    assert!(plugin_files(&Vec::new()).is_empty());
}

#[test]
fn conflicts_ignore_author_and_version() {
    let incoming = PackageIdentifier::parse("authorB-Foo-2.0.0").ok().unwrap();
    let dirs = vec![
        "authorA-Foo-1.0.0".to_string(),
        "authorA-Bar-1.0.0".to_string(),
        "not a package".to_string(),
        "x-Foo-Bar-1".to_string(),
        "authorB-Foo-2.0.0".to_string(),
    ];
    assert_eq!(
        conflicting_dirs(&incoming, &dirs),
        vec!["authorA-Foo-1.0.0".to_string(), "authorB-Foo-2.0.0".to_string()]
    );
}
