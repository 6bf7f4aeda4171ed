use likec4::resolver::{
    binary_path, launch_command, package_dir, stale_directories, Action, Event, InstallStatus,
    LikeC4Extension, ResolveError, Stage,
};

/// Feeds `events` to a resolution from the start and returns the actions.
fn drive(ext: &mut LikeC4Extension, events: Vec<Event>) -> (Stage, Vec<Action>) {
    let mut stage = Stage::Start;
    let mut actions = Vec::new();
    for event in events {
        let (next, action) = ext.resume(stage, event);
        stage = next;
        actions.push(action);
    }
    (stage, actions)
}

fn s(text: &str) -> String {
    text.to_string()
}

const BINARY: &str = "likec4-lsp-1.2.3/node_modules/.bin/likec4-language-server";

fn contacts_registry(a: &Action) -> bool {
    matches!(a, Action::FetchLatestVersion(_) | Action::Install { .. })
}

fn finished_ok(a: &Action) -> Option<String> {
    match a {
        Action::Finish(Ok(p)) => Some(p.clone()),
        _ => None,
    }
}

/// A fresh install of 1.2.3, with `names` in the current directory.
fn install_events(names: Vec<String>) -> Vec<Event> {
    vec![
        Event::Begin,
        Event::PathLookup(None),
        Event::LatestVersion(Ok(s("1.2.3"))),
        Event::IsFile(false),
        Event::Notified,
        Event::Notified,
        Event::Installed(Ok(())),
        Event::DirectoryListing(Some(names)),
        Event::Removed,
    ]
}

#[test]
fn path_hit_is_returned_without_installing() {
    let mut ext = LikeC4Extension::new();
    let (stage, actions) = drive(
        &mut ext,
        vec![
            Event::Begin,
            Event::PathLookup(Some(s("/usr/bin/likec4-language-server"))),
            Event::Notified,
            Event::LatestVersion(Ok(s("9.9.9"))),
        ],
    );
    assert!(matches!(&actions[0], Action::FindInPath(n) if n == "likec4-language-server"));
    assert_eq!(finished_ok(&actions[1]), Some(s("/usr/bin/likec4-language-server")));
    assert!(matches!(stage, Stage::Done));
    assert!(!actions.iter().any(contacts_registry));
    assert!(actions[2..].iter().all(|a| matches!(a, Action::Ignore)));
    assert!(ext.cached_binary_path().is_none());
}

#[test]
fn fresh_install_removes_other_versions() {
    let mut ext = LikeC4Extension::new();
    let names = vec![s("likec4-lsp-1.0.0"), s("likec4-lsp-1.2.3"), s("node_modules"), s("likec4-lsp-0.9")];
    let (stage, actions) = drive(&mut ext, install_events(names));
    assert!(matches!(&actions[1], Action::FetchLatestVersion(p) if p == "@likec4/language-server"));
    assert!(matches!(&actions[2], Action::CheckIsFile(p) if p == BINARY));
    assert!(matches!(&actions[3], Action::Notify(InstallStatus::CheckingForUpdate)));
    assert!(matches!(&actions[4], Action::Notify(InstallStatus::Downloading)));
    assert!(matches!(&actions[5], Action::Install { package, version }
        if package == "@likec4/language-server" && version == "1.2.3"));
    assert!(matches!(&actions[6], Action::ListDirectory));
    match &actions[7] {
        Action::RemoveDirectories(d) => assert_eq!(d, &vec![s("likec4-lsp-1.0.0"), s("likec4-lsp-0.9")]),
        other => panic!("unexpected action {:?}", other),
    }
    assert_eq!(finished_ok(&actions[8]), Some(s(BINARY)));
    assert!(matches!(stage, Stage::Done));
    assert_eq!(ext.cached_binary_path(), &Some(s(BINARY)));
}

#[test]
fn second_resolution_reuses_the_cached_path() {
    let mut ext = LikeC4Extension::new();
    drive(&mut ext, install_events(vec![]));
    let (_, actions) = drive(
        &mut ext,
        vec![Event::Begin, Event::PathLookup(None), Event::IsFile(true)],
    );
    assert!(matches!(&actions[1], Action::CheckIsFile(p) if p == BINARY));
    assert_eq!(finished_ok(&actions[2]), Some(s(BINARY)));
    assert!(!actions.iter().any(contacts_registry));
}

#[test]
fn deleted_cached_path_falls_through_to_the_registry() {
    let mut ext = LikeC4Extension::new();
    drive(&mut ext, install_events(vec![]));
    let (stage, actions) = drive(
        &mut ext,
        vec![Event::Begin, Event::PathLookup(None), Event::IsFile(false)],
    );
    assert!(matches!(&actions[1], Action::CheckIsFile(p) if p == BINARY));
    assert!(matches!(&actions[2], Action::FetchLatestVersion(p) if p == "@likec4/language-server"));
    assert_eq!(actions.len(), 3);
    assert!(matches!(stage, Stage::AwaitVersion));
}

#[test]
fn already_installed_version_is_cached_without_installing() {
    let mut ext = LikeC4Extension::new();
    let (stage, actions) = drive(
        &mut ext,
        vec![
            Event::Begin,
            Event::PathLookup(None),
            Event::LatestVersion(Ok(s("1.2.3"))),
            Event::IsFile(true),
        ],
    );
    assert_eq!(finished_ok(&actions[3]), Some(s(BINARY)));
    assert!(!actions.iter().any(|a| matches!(a, Action::Install { .. })));
    assert!(!actions.iter().any(|a| matches!(a, Action::Notify(_))));
    assert!(matches!(stage, Stage::Done));
    assert_eq!(ext.cached_binary_path(), &Some(s(BINARY)));
}

#[test]
fn registry_failure_is_surfaced_and_cache_kept() {
    let mut ext = LikeC4Extension::new();
    drive(&mut ext, install_events(vec![]));
    let (_, actions) = drive(
        &mut ext,
        vec![
            Event::Begin,
            Event::PathLookup(None),
            Event::IsFile(false),
            Event::LatestVersion(Err(s("network down"))),
        ],
    );
    assert!(!actions.iter().any(|a| matches!(a, Action::Notify(_))));
    match &actions[3] {
        Action::Finish(Err(e)) => {
            assert!(matches!(e, ResolveError::Registry(m) if m == "network down"));
            assert_eq!(e.message(), "network down");
        }
        other => panic!("unexpected action {:?}", other),
    }
    assert_eq!(ext.cached_binary_path(), &Some(s(BINARY)));
}

#[test]
fn install_failure_wraps_the_message() {
    let mut ext = LikeC4Extension::new();
    let (stage, actions) = drive(
        &mut ext,
        vec![
            Event::Begin,
            Event::PathLookup(None),
            Event::LatestVersion(Ok(s("1.2.3"))),
            Event::IsFile(false),
            Event::Notified,
            Event::Notified,
            Event::Installed(Err(s("npm exited with 1"))),
        ],
    );
    match &actions[6] {
        Action::Finish(Err(e)) => assert_eq!(
            e.message(),
            "Failed to install @likec4/language-server: npm exited with 1"
        ),
        other => panic!("unexpected action {:?}", other),
    }
    assert!(matches!(stage, Stage::Done));
    assert!(ext.cached_binary_path().is_none());
}

#[test]
fn unreadable_directory_skips_cleanup() {
    let mut ext = LikeC4Extension::new();
    let mut events = install_events(vec![]);
    events.truncate(7);
    events.push(Event::DirectoryListing(None));
    let (stage, actions) = drive(&mut ext, events);
    assert_eq!(finished_ok(&actions[7]), Some(s(BINARY)));
    assert!(matches!(stage, Stage::Done));
    assert_eq!(ext.cached_binary_path(), &Some(s(BINARY)));
}

#[test]
fn event_of_another_stage_is_ignored() {
    let mut ext = LikeC4Extension::new();
    let (stage, action) = ext.resume(Stage::AwaitVersion, Event::IsFile(true));
    assert!(matches!(stage, Stage::AwaitVersion));
    assert!(matches!(action, Action::Ignore));
    let (stage, action) = ext.resume(Stage::Done, Event::Begin);
    assert!(matches!(stage, Stage::Done));
    assert!(matches!(action, Action::Ignore));
}

#[test]
fn install_locations_are_named_by_version() {
    assert_eq!(package_dir(&s("2.0.1")), "likec4-lsp-2.0.1");
    assert_eq!(
        binary_path(&s("2.0.1")),
        "likec4-lsp-2.0.1/node_modules/.bin/likec4-language-server"
    );
}

#[test]
fn stale_directories_keep_order_and_skip_the_new_one() {
    let names = vec![
        s("likec4-lsp-3"),
        s("other"),
        s("likec4-lsp-1"),
        s("likec4-lsp-2"),
        s("likec4-ls"),
        s("xlikec4-lsp-1"),
    ];
    let stale = stale_directories(&names, &s("likec4-lsp-2"));
    assert_eq!(stale, vec![s("likec4-lsp-3"), s("likec4-lsp-1")]);
    assert!(stale_directories(&vec![], &s("likec4-lsp-2")).is_empty());
}

#[test]
fn launch_command_speaks_over_stdio() {
    let c = launch_command(s(BINARY));
    assert_eq!(c.command, BINARY);
    assert_eq!(c.args, vec![s("--stdio")]);
    assert!(c.env.is_empty());
}
