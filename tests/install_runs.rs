use plugin_install::session::{Action, Event, InstallError, Session};

/// Drives a session with a scripted environment and records its actions.
struct Run {
    actions: Vec<String>,
    removed: Vec<String>,
    committed: Option<(String, Vec<String>)>,
}

fn drive(
    mod_string: &str,
    allowed: bool,
    any_content: bool,
    plugin_dir: Option<Vec<&str>>,
    decision: Option<bool>,
    installed: Vec<&str>,
) -> (Result<(), InstallError>, Run) {
    let mut run = Run { actions: Vec::new(), removed: Vec::new(), committed: None };
    let (mut s, mut a) = match Session::new(mod_string, allowed, "info.json") {
        Ok(p) => p,
        Err(e) => return (Err(e), run),
    };
    loop {
        let e = match a {
            Action::CreateStaging => {
                run.actions.push("create".to_string());
                Event::Done
            }
            Action::Extract => {
                run.actions.push("extract".to_string());
                Event::Extracted {
                    any_content,
                    plugin_dir: plugin_dir
                        .clone()
                        .map(|v| v.into_iter().map(|x| x.to_string()).collect()),
                }
            }
            Action::AskConsent => {
                run.actions.push("consent".to_string());
                Event::Decision(decision)
            }
            Action::ListInstalled => {
                run.actions.push("list".to_string());
                Event::Installed(installed.iter().map(|x| x.to_string()).collect())
            }
            Action::RemoveDirs(v) => {
                run.actions.push("remove".to_string());
                run.removed = v;
                Event::Done
            }
            Action::Commit { folder, files } => {
                run.actions.push("commit".to_string());
                run.committed = Some((folder, files));
                Event::Done
            }
            Action::Teardown => {
                run.actions.push("teardown".to_string());
                Event::Done
            }
            Action::Finish(r) => return (r, run),
        };
        assert!(s.accepts(&e));
        a = s.step(e);
    }
}

fn teardowns(run: &Run) -> usize {
    run.actions.iter().filter(|a| *a == "teardown").count()
}

#[test]
fn plugins_disabled_fails_and_cleans_up() {
    let (r, run) = drive("a-Mod-1.0.0", false, true, Some(vec!["x.dll"]), None, vec![]);
    assert!(matches!(r, Err(InstallError::PluginsDisabled)));
    assert_eq!(run.actions, vec!["create", "extract", "teardown"]);
    assert!(run.committed.is_none());
}

#[test]
fn empty_archive_is_missing_file() {
    let (r, run) = drive("a-Mod-1.0.0", true, false, None, None, vec![]);
    assert!(matches!(r, Err(InstallError::MissingFile)));
    assert_eq!(teardowns(&run), 1);
}

#[test]
fn denial_fails_without_commit() {
    let (r, run) = drive("a-Mod-1.0.0", true, true, Some(vec!["x.dll"]), Some(false), vec![]);
    assert!(matches!(r, Err(InstallError::UserDenied)));
    assert_eq!(run.actions, vec!["create", "extract", "consent", "teardown"]);
    assert!(run.committed.is_none());
}

#[test]
fn closed_channel_counts_as_denial() {
    let (r, _) = drive("a-Mod-1.0.0", true, true, Some(vec!["x.dll"]), None, vec![]);
    assert!(matches!(r, Err(InstallError::UserDenied)));
}

#[test]
fn upgrade_replaces_same_name_from_other_author() {
    let (r, run) = drive(
        "authorB-Foo-2.0.0",
        true,
        true,
        Some(vec!["foo.dll", "notes.txt"]),
        Some(true),
        vec!["authorA-Foo-1.0.0", "authorA-Bar-1.0.0", "___flightcore-temp-plugin-dir"],
    );
    assert!(r.is_ok());
    assert_eq!(run.removed, vec!["authorA-Foo-1.0.0".to_string()]);
    let (folder, files) = run.committed.unwrap();
    assert_eq!(folder, "authorB-Foo-2.0.0");
    assert_eq!(files, vec!["info.json".to_string(), "foo.dll".to_string()]);
    assert_eq!(
        run.actions,
        vec!["create", "extract", "consent", "list", "remove", "commit", "teardown"]
    );
}

#[test]
fn no_plugins_folder_commits_metadata_only() {
    let (r, run) = drive("a-Mod-1.0.0", false, true, None, None, vec![]);
    assert!(r.is_ok());
    assert_eq!(run.committed.unwrap().1, vec!["info.json".to_string()]);
}

#[test]
fn malformed_identifier_stages_nothing() {
    let (r, run) = drive("onlyonehyphen", true, true, None, None, vec![]);
    assert!(matches!(r, Err(InstallError::Parse(ref m)) if m == "onlyonehyphen"));
    assert!(run.actions.is_empty());
}

#[test]
fn teardown_once_on_every_path() {
    let cases: Vec<(bool, bool, Option<Vec<&str>>, Option<bool>)> = vec![
        (true, true, Some(vec!["x.dll"]), Some(true)),
        (true, true, Some(vec!["x.dll"]), Some(false)),
        (false, true, Some(vec!["x.dll"]), None),
        (true, false, None, None),
        (true, true, Some(vec![]), None),
    ];
    for (allowed, content, dir, decision) in cases {
        let (_, run) = drive("a-Mod-1", allowed, content, dir, decision, vec!["a-Mod-0"]);
        assert_eq!(teardowns(&run), 1);
        assert_eq!(run.actions.last().map(|s| s.as_str()), Some("teardown"));
    }
}

#[test]
fn failures_after_staging_tear_down() {
    let (mut s, _) = Session::new("a-Mod-1", true, "info.json").ok().unwrap();
    assert!(matches!(s.step(Event::Done), Action::Extract));
    let a = s.step(Event::Failed(InstallError::Archive("corrupt".to_string())));
    assert!(matches!(a, Action::Teardown));
    assert!(!s.accepts(&Event::Decision(Some(true))));
    let a = s.step(Event::Failed(InstallError::Io("busy".to_string())));
    assert!(matches!(a, Action::Finish(Err(InstallError::Archive(ref m))) if m == "corrupt"));
}

#[test]
fn staging_failure_finishes_without_teardown() {
    let (mut s, _) = Session::new("a-Mod-1", true, "info.json").ok().unwrap();
    let a = s.step(Event::Failed(InstallError::Io("denied".to_string())));
    assert!(matches!(a, Action::Finish(Err(InstallError::Io(_)))));
}
