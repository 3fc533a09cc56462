use mudkip::queue::PendingOpenTargets;
use mudkip::target::OpenTargetPayload;

fn file(path: &str) -> OpenTargetPayload {
    OpenTargetPayload { target_type: "file".to_string(), path: path.to_string() }
}

#[test]
fn a_new_queue_is_empty() {
    let mut pending = PendingOpenTargets::new();
    assert!(pending.is_empty());
    assert_eq!(pending.len(), 0);
    assert_eq!(pending.pop(), None);
    assert!(PendingOpenTargets::default().is_empty());
}

#[test]
fn pop_returns_the_oldest_unpopped_push() {
    let mut pending = PendingOpenTargets::new();
    pending.push(file("/srv/first.md"));
    assert_eq!(pending.pop(), Some(file("/srv/first.md")));
    pending.push(file("/srv/second.md"));
    assert_eq!(pending.pop(), Some(file("/srv/second.md")));
    assert_eq!(pending.pop(), None);
}

#[test]
fn a_push_between_two_pops_goes_behind_what_waits() {
    let mut pending = PendingOpenTargets::new();
    pending.push(file("/srv/first.md"));
    pending.push(file("/srv/second.md"));
    assert_eq!(pending.pop(), Some(file("/srv/first.md")));
    pending.push(file("/srv/third.md"));
    assert_eq!(pending.len(), 2);
    assert_eq!(pending.pop(), Some(file("/srv/second.md")));
    assert_eq!(pending.pop(), Some(file("/srv/third.md")));
    assert_eq!(pending.pop(), None);
    assert!(pending.is_empty());
}

#[test]
fn equal_targets_are_queued_as_often_as_they_are_pushed() {
    let mut pending = PendingOpenTargets::new();
    pending.push(file("/srv/same.md"));
    pending.push(file("/srv/same.md"));
    assert_eq!(pending.len(), 2);
    assert_eq!(pending.pop(), Some(file("/srv/same.md")));
    assert_eq!(pending.pop(), Some(file("/srv/same.md")));
    assert_eq!(pending.pop(), None);
}
