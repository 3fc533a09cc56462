use mudkip::args::{ParseNotice, ParsedLaunchArgs};
use mudkip::instance::{on_launch, on_opened, on_reinvocation, ShellAction};
use mudkip::options::StartupOptions;
use mudkip::queue::PendingOpenTargets;
use mudkip::target::{EntryKind, LaunchTarget, OpenTargetPayload, ResolvedPath};

fn request(target: Option<LaunchTarget>, options: StartupOptions, exit: bool) -> ParsedLaunchArgs {
    let notices = if exit { vec![ParseNotice::Help] } else { Vec::new() };
    ParsedLaunchArgs {
        launch_target: target,
        startup_options: options,
        exit_after_print: exit,
        notices,
    }
}

fn dark() -> StartupOptions {
    StartupOptions { theme: Some("vscode-dark".to_string()), toc_open: None, auto_refresh: None }
}

fn file_payload(path: &str) -> OpenTargetPayload {
    OpenTargetPayload { target_type: "file".to_string(), path: path.to_string() }
}

fn folder_payload(path: &str) -> OpenTargetPayload {
    OpenTargetPayload { target_type: "folder".to_string(), path: path.to_string() }
}

fn drain(pending: &mut PendingOpenTargets) -> Vec<OpenTargetPayload> {
    let mut all = Vec::new();
    while let Some(next) = pending.pop() {
        all.push(next);
    }
    all
}

#[test]
fn the_first_launch_queues_its_target_without_announcing_it() {
    let mut pending = PendingOpenTargets::new();
    let parsed = request(Some(LaunchTarget::File("/srv/guide.md".to_string())), dark(), false);

    let actions = on_launch(&parsed, &mut pending);

    assert_eq!(actions, vec![ShellAction::OpenOnLaunch(file_payload("/srv/guide.md"))]);
    assert_eq!(drain(&mut pending), vec![file_payload("/srv/guide.md")]);
}

#[test]
fn the_first_launch_without_a_target_does_nothing() {
    let mut pending = PendingOpenTargets::new();
    let actions = on_launch(&request(None, dark(), false), &mut pending);
    assert_eq!(actions, Vec::new());
    assert!(pending.is_empty());
}

#[test]
fn a_launch_that_only_prints_leaves_everything_alone() {
    let mut pending = PendingOpenTargets::new();
    pending.push(file_payload("/srv/waiting.md"));
    let parsed = request(Some(LaunchTarget::Folder("/srv/docs".to_string())), dark(), true);

    assert_eq!(on_launch(&parsed, &mut pending), Vec::new());
    assert_eq!(on_reinvocation(&parsed, &mut pending), Vec::new());
    assert_eq!(drain(&mut pending), vec![file_payload("/srv/waiting.md")]);
}

#[test]
fn a_later_launch_with_target_and_options_broadcasts_announces_and_focuses() {
    let mut pending = PendingOpenTargets::new();
    pending.push(file_payload("/srv/waiting.md"));
    let parsed = request(Some(LaunchTarget::Folder("/srv/docs".to_string())), dark(), false);

    let actions = on_reinvocation(&parsed, &mut pending);

    assert_eq!(
        actions,
        vec![
            ShellAction::BroadcastOptions(dark()),
            ShellAction::AnnounceOpened(folder_payload("/srv/docs")),
            ShellAction::FocusWindow,
        ]
    );
    assert_eq!(
        drain(&mut pending),
        vec![file_payload("/srv/waiting.md"), folder_payload("/srv/docs")]
    );
}

#[test]
fn a_later_launch_with_a_target_alone_announces_and_focuses() {
    let mut pending = PendingOpenTargets::new();
    let parsed = request(
        Some(LaunchTarget::File("/srv/guide.md".to_string())),
        StartupOptions::default(),
        false,
    );

    let actions = on_reinvocation(&parsed, &mut pending);

    assert_eq!(
        actions,
        vec![ShellAction::AnnounceOpened(file_payload("/srv/guide.md")), ShellAction::FocusWindow]
    );
    assert_eq!(drain(&mut pending), vec![file_payload("/srv/guide.md")]);
}

#[test]
fn a_later_launch_with_options_alone_focuses_without_queueing() {
    let mut pending = PendingOpenTargets::new();
    let actions = on_reinvocation(&request(None, dark(), false), &mut pending);
    assert_eq!(actions, vec![ShellAction::BroadcastOptions(dark()), ShellAction::FocusWindow]);
    assert!(pending.is_empty());
}

#[test]
fn a_later_launch_with_nothing_does_nothing() {
    let mut pending = PendingOpenTargets::new();
    let actions = on_reinvocation(&request(None, StartupOptions::default(), false), &mut pending);
    assert_eq!(actions, Vec::new());
    assert!(pending.is_empty());
}

#[test]
fn opened_paths_are_queued_in_order_and_each_is_announced() {
    let mut pending = PendingOpenTargets::new();
    pending.push(file_payload("/srv/waiting.md"));
    let probes = vec![
        Some(ResolvedPath { canonical: "/srv/a.md".to_string(), kind: EntryKind::File }),
        None,
        Some(ResolvedPath { canonical: "/srv/b.png".to_string(), kind: EntryKind::File }),
        Some(ResolvedPath { canonical: "/srv/docs".to_string(), kind: EntryKind::Directory }),
    ];

    let actions = on_opened(&probes, &mut pending);

    assert_eq!(
        actions,
        vec![
            ShellAction::AnnounceOpened(file_payload("/srv/a.md")),
            ShellAction::FocusWindow,
            ShellAction::AnnounceOpened(folder_payload("/srv/docs")),
            ShellAction::FocusWindow,
        ]
    );
    assert_eq!(
        drain(&mut pending),
        vec![file_payload("/srv/waiting.md"), file_payload("/srv/a.md"), folder_payload("/srv/docs")]
    );
}

#[test]
fn actions_name_their_events() {
    assert_eq!(ShellAction::BroadcastOptions(dark()).event_name(), Some("app:startup-options"));
    assert_eq!(
        ShellAction::AnnounceOpened(file_payload("/srv/a.md")).event_name(),
        Some("file:opened-external")
    );
    assert_eq!(
        ShellAction::OpenOnLaunch(file_payload("/srv/a.md")).event_name(),
        Some("file:open-on-launch")
    );
    assert_eq!(ShellAction::FocusWindow.event_name(), None);
}
