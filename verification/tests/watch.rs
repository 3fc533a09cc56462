use mudkip::target::{EntryKind, ResolvedPath};
use mudkip::watch::{
    can_watch, change_event_name, is_file_change_event, is_folder_change_event, refuse_start,
    republish, AttachOutcome, ChangeKind, StartDecision, WatchCoordinator, WatchKind,
};
use std::cell::RefCell;
use std::rc::Rc;

/// A handle that writes down when it is dropped.
#[derive(Debug)]
struct Handle {
    name: &'static str,
    log: Rc<RefCell<Vec<String>>>,
}

impl Drop for Handle {
    fn drop(&mut self) {
        self.log.borrow_mut().push(format!("detach {}", self.name));
    }
}

fn file_at(canonical: &str) -> Result<ResolvedPath, String> {
    Ok(ResolvedPath { canonical: canonical.to_string(), kind: EntryKind::File })
}

fn folder_at(canonical: &str) -> Result<ResolvedPath, String> {
    Ok(ResolvedPath { canonical: canonical.to_string(), kind: EntryKind::Directory })
}

/// Runs one start the way the shell does, attaching where the coordinator asks for it.
fn start(
    coordinator: &mut WatchCoordinator<Handle>,
    requested: &str,
    resolved: Result<ResolvedPath, String>,
    name: &'static str,
    log: &Rc<RefCell<Vec<String>>>,
) -> Result<(), String> {
    match coordinator.begin_start(requested, resolved) {
        StartDecision::AlreadyWatching => Ok(()),
        StartDecision::Rejected(reason) => Err(reason),
        StartDecision::Attach(canonical) => {
            log.borrow_mut().push(format!("attach {name} to {canonical}"));
            let handle = Handle { name, log: Rc::clone(log) };
            coordinator.finish_start(canonical, AttachOutcome::Attached(handle))
        }
    }
}

#[test]
fn a_new_coordinator_is_idle() {
    let coordinator: WatchCoordinator<u8> = WatchCoordinator::new(WatchKind::File);
    assert_eq!(coordinator.kind(), WatchKind::File);
    assert!(!coordinator.is_watching());
    assert_eq!(coordinator.watched_path(), None);
}

#[test]
fn starting_twice_on_one_path_attaches_once() {
    let log = Rc::new(RefCell::new(Vec::new()));
    let mut coordinator = WatchCoordinator::new(WatchKind::File);

    assert_eq!(start(&mut coordinator, "guide.md", file_at("/srv/guide.md"), "first", &log), Ok(()));
    assert_eq!(
        start(&mut coordinator, "./guide.md", file_at("/srv/guide.md"), "second", &log),
        Ok(())
    );

    assert_eq!(*log.borrow(), vec!["attach first to /srv/guide.md".to_string()]);
    assert_eq!(coordinator.watched_path().as_deref(), Some("/srv/guide.md"));
    assert!(coordinator.is_watching());
}

#[test]
fn starting_on_another_path_detaches_before_it_attaches() {
    let log = Rc::new(RefCell::new(Vec::new()));
    let mut coordinator = WatchCoordinator::new(WatchKind::File);

    assert_eq!(start(&mut coordinator, "a.md", file_at("/srv/a.md"), "first", &log), Ok(()));
    assert_eq!(start(&mut coordinator, "b.md", file_at("/srv/b.md"), "second", &log), Ok(()));

    assert_eq!(
        *log.borrow(),
        vec![
            "attach first to /srv/a.md".to_string(),
            "detach first".to_string(),
            "attach second to /srv/b.md".to_string(),
        ]
    );
    assert_eq!(coordinator.watched_path().as_deref(), Some("/srv/b.md"));
}

#[test]
fn the_coordinator_is_idle_while_the_new_watch_is_attached() {
    let mut coordinator: WatchCoordinator<u8> = WatchCoordinator::new(WatchKind::Folder);
    assert_eq!(
        coordinator.begin_start("docs", folder_at("/srv/docs")),
        StartDecision::Attach("/srv/docs".to_string())
    );
    assert_eq!(coordinator.finish_start("/srv/docs".to_string(), AttachOutcome::Attached(1)), Ok(()));
    assert_eq!(
        coordinator.begin_start("other", folder_at("/srv/other")),
        StartDecision::Attach("/srv/other".to_string())
    );
    assert!(!coordinator.is_watching());
    assert_eq!(coordinator.watched_path(), None);
}

#[test]
fn a_file_coordinator_turns_down_what_is_not_markdown() {
    let mut coordinator: WatchCoordinator<u8> = WatchCoordinator::new(WatchKind::File);
    assert_eq!(coordinator.finish_start("/srv/a.md".to_string(), AttachOutcome::Attached(7)), Ok(()));

    assert_eq!(
        coordinator.begin_start("picture.png", file_at("/srv/picture.png")),
        StartDecision::Rejected("Can only watch markdown files.".to_string())
    );
    assert_eq!(
        coordinator.begin_start("gone.md", Err("No such file or directory (os error 2)".to_string())),
        StartDecision::Rejected(
            "Failed to resolve file path 'gone.md': No such file or directory (os error 2)"
                .to_string()
        )
    );
    assert_eq!(coordinator.watched_path().as_deref(), Some("/srv/a.md"));
}

#[test]
fn a_folder_coordinator_turns_down_what_is_no_directory() {
    let mut coordinator: WatchCoordinator<u8> = WatchCoordinator::new(WatchKind::Folder);
    assert_eq!(
        coordinator.begin_start("guide.md", file_at("/srv/guide.md")),
        StartDecision::Rejected("Can only watch folders.".to_string())
    );
    assert_eq!(
        coordinator.begin_start("gone", Err("Permission denied (os error 13)".to_string())),
        StartDecision::Rejected(
            "Failed to resolve folder path 'gone': Permission denied (os error 13)".to_string()
        )
    );
    assert!(!coordinator.is_watching());
}

#[test]
fn a_failed_attach_leaves_the_coordinator_idle() {
    let mut file: WatchCoordinator<u8> = WatchCoordinator::new(WatchKind::File);
    assert_eq!(
        file.finish_start("/srv/a.md".to_string(), AttachOutcome::InitFailed("no inotify".to_string())),
        Err("Failed to initialize markdown file watcher: no inotify".to_string())
    );
    assert!(!file.is_watching());
    assert_eq!(
        file.finish_start("/srv/a.md".to_string(), AttachOutcome::WatchFailed("too many".to_string())),
        Err("Failed to watch markdown file '/srv/a.md': too many".to_string())
    );
    assert!(!file.is_watching());

    let mut folder: WatchCoordinator<u8> = WatchCoordinator::new(WatchKind::Folder);
    assert_eq!(
        folder.finish_start("/srv/docs".to_string(), AttachOutcome::InitFailed("no inotify".to_string())),
        Err("Failed to initialize markdown folder watcher: no inotify".to_string())
    );
    assert_eq!(
        folder.finish_start("/srv/docs".to_string(), AttachOutcome::WatchFailed("too many".to_string())),
        Err("Failed to watch folder '/srv/docs': too many".to_string())
    );
    assert!(!folder.is_watching());
}

#[test]
fn stop_detaches_and_may_be_repeated() {
    let log = Rc::new(RefCell::new(Vec::new()));
    let mut coordinator = WatchCoordinator::new(WatchKind::Folder);
    assert_eq!(start(&mut coordinator, "docs", folder_at("/srv/docs"), "first", &log), Ok(()));

    coordinator.stop();
    coordinator.stop();

    assert!(!coordinator.is_watching());
    assert_eq!(
        *log.borrow(),
        vec!["attach first to /srv/docs".to_string(), "detach first".to_string()]
    );
}

#[test]
fn a_watched_file_reacts_to_creation_and_modification() {
    for change in [ChangeKind::Create, ChangeKind::Modify] {
        assert!(is_file_change_event(change));
    }
    for change in [ChangeKind::Any, ChangeKind::Access, ChangeKind::Remove, ChangeKind::Other] {
        assert!(!is_file_change_event(change));
    }
}

#[test]
fn a_watched_folder_reacts_to_removal_too() {
    for change in [ChangeKind::Create, ChangeKind::Modify, ChangeKind::Remove] {
        assert!(is_folder_change_event(change));
    }
    for change in [ChangeKind::Any, ChangeKind::Access, ChangeKind::Other] {
        assert!(!is_folder_change_event(change));
    }
}

#[test]
fn the_payload_is_rebuilt_for_the_watched_path() {
    let mut coordinator: WatchCoordinator<u8> = WatchCoordinator::new(WatchKind::File);
    assert_eq!(coordinator.rebuild_path(ChangeKind::Modify), None);
    assert_eq!(coordinator.finish_start("/srv/a.md".to_string(), AttachOutcome::Attached(3)), Ok(()));

    assert_eq!(coordinator.rebuild_path(ChangeKind::Modify).as_deref(), Some("/srv/a.md"));
    assert_eq!(coordinator.rebuild_path(ChangeKind::Create).as_deref(), Some("/srv/a.md"));
    assert_eq!(coordinator.rebuild_path(ChangeKind::Remove), None);
    assert_eq!(coordinator.rebuild_path(ChangeKind::Access), None);
    assert_eq!(coordinator.watched_path().as_deref(), Some("/srv/a.md"));
}

#[test]
fn a_failed_rebuild_publishes_nothing() {
    let failed: Result<u32, String> = Err("Failed to resolve file path".to_string());
    assert_eq!(republish(failed), None);
    assert_eq!(republish(Ok::<u32, String>(5)), Some(5));
}

#[test]
fn each_kind_of_watch_has_its_event() {
    assert_eq!(change_event_name(WatchKind::File), "file:changed");
    assert_eq!(change_event_name(WatchKind::Folder), "folder:changed");
}

#[test]
fn a_directory_is_never_watched_as_a_file() {
    let log = Rc::new(RefCell::new(Vec::new()));
    let mut coordinator = WatchCoordinator::new(WatchKind::File);
    assert_eq!(start(&mut coordinator, "a.md", file_at("/srv/a.md"), "first", &log), Ok(()));

    assert_eq!(
        coordinator.begin_start("notes.md", folder_at("/srv/notes.md")),
        StartDecision::Rejected("Can only watch markdown files.".to_string())
    );
    let other = Ok(ResolvedPath { canonical: "/dev/odd.md".to_string(), kind: EntryKind::Other });
    assert_eq!(
        coordinator.begin_start("odd.md", other),
        StartDecision::Rejected("Can only watch markdown files.".to_string())
    );

    assert_eq!(coordinator.watched_path().as_deref(), Some("/srv/a.md"));
    assert_eq!(*log.borrow(), vec!["attach first to /srv/a.md".to_string()]);
}

#[test]
fn a_request_is_screened_without_the_coordinator() {
    let directory = ResolvedPath { canonical: "/srv/notes.md".to_string(), kind: EntryKind::Directory };
    let file = ResolvedPath { canonical: "/srv/guide.md".to_string(), kind: EntryKind::File };
    assert!(!can_watch(WatchKind::File, &directory));
    assert!(can_watch(WatchKind::Folder, &directory));
    assert!(can_watch(WatchKind::File, &file));
    assert!(!can_watch(WatchKind::Folder, &file));
    assert_eq!(refuse_start(WatchKind::File, "guide.md", &Ok(file)), None);
    assert_eq!(
        refuse_start(WatchKind::File, "notes.md", &Ok(directory)),
        Some("Can only watch markdown files.".to_string())
    );
    assert_eq!(
        refuse_start(WatchKind::Folder, "gone", &Err("No such file or directory".to_string())),
        Some("Failed to resolve folder path 'gone': No such file or directory".to_string())
    );
}

#[test]
fn a_new_handle_replaces_the_one_that_was_held() {
    let log = Rc::new(RefCell::new(Vec::new()));
    let mut coordinator = WatchCoordinator::new(WatchKind::File);
    let first = Handle { name: "first", log: Rc::clone(&log) };
    let second = Handle { name: "second", log: Rc::clone(&log) };
    assert_eq!(
        coordinator.finish_start("/srv/a.md".to_string(), AttachOutcome::Attached(first)),
        Ok(())
    );
    assert_eq!(
        coordinator.finish_start("/srv/b.md".to_string(), AttachOutcome::Attached(second)),
        Ok(())
    );
    assert_eq!(*log.borrow(), vec!["detach first".to_string()]);
    assert_eq!(coordinator.watched_path().as_deref(), Some("/srv/b.md"));
    coordinator.stop();
    assert_eq!(*log.borrow(), vec!["detach first".to_string(), "detach second".to_string()]);
}
