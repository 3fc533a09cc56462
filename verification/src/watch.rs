//! The watch coordinators: which path is being watched, and what a start, a
//! stop or a change event does to that.
//!
//! A coordinator is idle or watching one canonical path. It owns the handle
//! of the watch it is in: the handle and the path sit in one value, so there
//! is never one without the other, and the contracts say which handle is
//! held as well as which path is watched. Attaching a watch is the shell's
//! work.
//! [`WatchCoordinator::begin_start`] decides whether there is anything to
//! attach, the shell attaches, and [`WatchCoordinator::finish_start`] takes
//! the handle or reports why there is none.

use crate::target::{
    is_markdown, is_markdown_path, resolution_of, EntryKind, ResolvedPath, ResolvedPathView,
};
use crate::text::{join2, join4, same_text, text_of};
use vstd::prelude::*;

verus! {

/// What a coordinator watches.
#[derive(Clone, Copy, Debug, PartialEq, Eq)]
pub enum WatchKind {
    /// One markdown file.
    File,
    /// One folder, without what lies below its entries.
    Folder,
}

/// The broad kind of change that the operating system reports.
#[derive(Clone, Copy, Debug, PartialEq, Eq)]
pub enum ChangeKind {
    /// The system did not say what happened.
    Any,
    /// Something was read or opened.
    Access,
    /// Something was created.
    Create,
    /// Content, name or metadata changed.
    Modify,
    /// Something was removed.
    Remove,
    /// None of these.
    Other,
}

/// Whether a change calls for the payload to be built again. A watched file
/// reacts to creation and modification. A watched folder reacts to removal
/// as well, since a removal changes its listing.
pub open spec fn calls_for_rebuild(kind: WatchKind, change: ChangeKind) -> bool {
    match kind {
        WatchKind::File => change is Create || change is Modify,
        WatchKind::Folder => change is Create || change is Modify || change is Remove,
    }
}

/// Whether a change to a watched file calls for its payload to be built
/// again.
pub fn is_file_change_event(change: ChangeKind) -> (rebuild: bool)
    ensures
        rebuild == calls_for_rebuild(WatchKind::File, change),
{
    match change {
        ChangeKind::Create => true,
        ChangeKind::Modify => true,
        _ => false,
    }
}

/// Whether a change in a watched folder calls for its listing to be built
/// again.
pub fn is_folder_change_event(change: ChangeKind) -> (rebuild: bool)
    ensures
        rebuild == calls_for_rebuild(WatchKind::Folder, change),
{
    match change {
        ChangeKind::Create => true,
        ChangeKind::Modify => true,
        ChangeKind::Remove => true,
        _ => false,
    }
}

/// The name of the event that carries a rebuilt payload to the window.
pub open spec fn change_event(kind: WatchKind) -> Seq<char> {
    match kind {
        WatchKind::File => "file:changed"@,
        WatchKind::Folder => "folder:changed"@,
    }
}

/// The name of the event that carries a rebuilt payload to the window.
pub fn change_event_name(kind: WatchKind) -> (name: &'static str)
    ensures
        name@ == change_event(kind),
{
    match kind {
        WatchKind::File => "file:changed",
        WatchKind::Folder => "folder:changed",
    }
}

/// Whether a resolved path is something that a coordinator of this kind
/// watches: a regular file with an extension of the allow-list for a file
/// coordinator, a directory for a folder coordinator. A directory is never
/// watched as a file, whatever its name.
pub open spec fn is_watchable(kind: WatchKind, found: ResolvedPathView) -> bool {
    match kind {
        WatchKind::File => found.kind == EntryKind::File && is_markdown(found.canonical),
        WatchKind::Folder => found.kind == EntryKind::Directory,
    }
}

/// Whether a coordinator of this kind watches what `found` is.
pub fn can_watch(kind: WatchKind, found: &ResolvedPath) -> (watchable: bool)
    ensures
        watchable == is_watchable(kind, found@),
{
    match kind {
        WatchKind::File => match found.kind {
            EntryKind::File => is_markdown_path(found.canonical.as_str()),
            _ => false,
        },
        WatchKind::Folder => match found.kind {
            EntryKind::Directory => true,
            _ => false,
        },
    }
}

/// Why a start is turned down, if it is.
pub open spec fn start_refusal(
    kind: WatchKind,
    requested: Seq<char>,
    resolved: Result<ResolvedPathView, Seq<char>>,
) -> Option<Seq<char>> {
    match resolved {
        Err(reason) => Some(
            match kind {
                WatchKind::File => "Failed to resolve file path '"@ + requested + "': "@ + reason,
                WatchKind::Folder => "Failed to resolve folder path '"@ + requested + "': "@
                    + reason,
            },
        ),
        Ok(found) => if is_watchable(kind, found) {
            None
        } else {
            Some(
                match kind {
                    WatchKind::File => "Can only watch markdown files."@,
                    WatchKind::Folder => "Can only watch folders."@,
                },
            )
        },
    }
}

/// Why a coordinator of this kind turns a request down, if it does. The
/// answer does not depend on what is being watched, so it can be had before
/// the coordinator is.
pub fn refuse_start(kind: WatchKind, requested: &str, resolved: &Result<ResolvedPath, String>) -> (reason:
    Option<String>)
    ensures
        text_of(reason) == start_refusal(kind, requested@, resolution_of(*resolved)),
{
    match resolved {
        Err(reason) => {
            let opening = match kind {
                WatchKind::File => "Failed to resolve file path '",
                WatchKind::Folder => "Failed to resolve folder path '",
            };
            Some(join4(opening, requested, "': ", reason.as_str()))
        },
        Ok(found) => {
            if can_watch(kind, found) {
                None
            } else {
                match kind {
                    WatchKind::File => Some("Can only watch markdown files.".to_string()),
                    WatchKind::Folder => Some("Can only watch folders.".to_string()),
                }
            }
        },
    }
}

/// What a coordinator answers to a request to start watching.
#[derive(Debug, PartialEq, Eq)]
pub enum StartDecision {
    /// The path is being watched already; there is nothing to do.
    AlreadyWatching,
    /// The coordinator is idle now; attach a watch to this canonical path
    /// and report back.
    Attach(String),
    /// The request is turned down, for this reason. Nothing has changed.
    Rejected(String),
}

/// The mathematical value of [`StartDecision`].
pub ghost enum StartDecisionView {
    AlreadyWatching,
    Attach(Seq<char>),
    Rejected(Seq<char>),
}

impl View for StartDecision {
    type V = StartDecisionView;

    open spec fn view(&self) -> StartDecisionView {
        match self {
            StartDecision::AlreadyWatching => StartDecisionView::AlreadyWatching,
            StartDecision::Attach(path) => StartDecisionView::Attach(path@),
            StartDecision::Rejected(reason) => StartDecisionView::Rejected(reason@),
        }
    }
}

/// What the coordinator answers in state `watching` to a request to start
/// watching `requested`, which resolved as `resolved`.
pub open spec fn start_decision(
    kind: WatchKind,
    watching: Option<Seq<char>>,
    requested: Seq<char>,
    resolved: Result<ResolvedPathView, Seq<char>>,
) -> StartDecisionView {
    match start_refusal(kind, requested, resolved) {
        Some(reason) => StartDecisionView::Rejected(reason),
        None => if watching == Some(resolved->Ok_0.canonical) {
            StartDecisionView::AlreadyWatching
        } else {
            StartDecisionView::Attach(resolved->Ok_0.canonical)
        },
    }
}

/// The state in which a request to start leaves the coordinator before any
/// watch is attached: unchanged unless there is something to attach, idle
/// where there is.
pub open spec fn watching_after_decision(
    watching: Option<Seq<char>>,
    decision: StartDecisionView,
) -> Option<Seq<char>> {
    match decision {
        StartDecisionView::Attach(_) => None,
        _ => watching,
    }
}

/// How an attempt to attach a watch ended.
#[derive(Debug)]
pub enum AttachOutcome<H> {
    /// The watch is attached; this is its handle.
    Attached(H),
    /// No watcher could be set up.
    InitFailed(String),
    /// The watcher could not be attached to the path.
    WatchFailed(String),
}

/// Why an attempt to attach a watch to `canonical` failed, if it did.
pub open spec fn attach_failure<H>(
    kind: WatchKind,
    canonical: Seq<char>,
    outcome: AttachOutcome<H>,
) -> Option<Seq<char>> {
    match outcome {
        AttachOutcome::Attached(_) => None,
        AttachOutcome::InitFailed(reason) => Some(
            match kind {
                WatchKind::File => "Failed to initialize markdown file watcher: "@ + reason@,
                WatchKind::Folder => "Failed to initialize markdown folder watcher: "@ + reason@,
            },
        ),
        AttachOutcome::WatchFailed(reason) => Some(
            match kind {
                WatchKind::File => "Failed to watch markdown file '"@ + canonical + "': "@
                    + reason@,
                WatchKind::Folder => "Failed to watch folder '"@ + canonical + "': "@ + reason@,
            },
        ),
    }
}

/// The handle that an attempt to attach leaves with the coordinator: the new
/// one where the watch is attached, none where it is not.
pub open spec fn handle_after_attach<H>(outcome: AttachOutcome<H>) -> Option<H> {
    match outcome {
        AttachOutcome::Attached(handle) => Some(handle),
        _ => None,
    }
}

/// The handle that a request to start leaves with the coordinator before
/// any watch is attached: the one it held, unless there is something to
/// attach; then the old handle is given up.
pub open spec fn handle_after_decision<H>(held: Option<H>, decision: StartDecisionView) -> Option<H> {
    match decision {
        StartDecisionView::Attach(_) => None,
        _ => held,
    }
}

/// The state in which an attempt to attach leaves the coordinator: watching
/// the path where the watch is attached, idle where it is not.
pub open spec fn watching_after_attach<H>(
    canonical: Seq<char>,
    outcome: AttachOutcome<H>,
) -> Option<Seq<char>> {
    match outcome {
        AttachOutcome::Attached(_) => Some(canonical),
        _ => None,
    }
}

/// A watch that is attached: its handle and the canonical path it is on.
struct ActiveWatch<H> {
    handle: H,
    path: String,
}

/// The coordinator of one kind of watch. `H` is the handle of an attached
/// watch; dropping the handle ends the watch.
pub struct WatchCoordinator<H> {
    kind: WatchKind,
    active: Option<ActiveWatch<H>>,
}

impl<H> WatchCoordinator<H> {
    /// What this coordinator watches.
    pub closed spec fn watch_kind(&self) -> WatchKind {
        self.kind
    }

    /// The canonical path being watched; `None` while idle.
    pub closed spec fn watching(&self) -> Option<Seq<char>> {
        match self.active {
            Some(watch) => Some(watch.path@),
            None => None,
        }
    }

    /// The handle of the attached watch; `None` while idle.
    pub closed spec fn held_handle(&self) -> Option<H> {
        match self.active {
            Some(watch) => Some(watch.handle),
            None => None,
        }
    }

    /// The handle and the watched path are set and cleared together: the
    /// coordinator holds a handle exactly while it watches a path.
    pub proof fn lemma_handle_goes_with_path(&self)
        ensures
            self.held_handle() is Some <==> self.watching() is Some,
    {
    }

    /// An idle coordinator.
    pub fn new(kind: WatchKind) -> (coordinator: Self)
        ensures
            coordinator.watch_kind() == kind,
            coordinator.watching() is None,
            coordinator.held_handle() is None,
    {
        WatchCoordinator { kind, active: None }
    }

    /// What this coordinator watches.
    pub fn kind(&self) -> (kind: WatchKind)
        ensures
            kind == self.watch_kind(),
    {
        self.kind
    }

    /// Whether a watch is attached.
    pub fn is_watching(&self) -> (busy: bool)
        ensures
            busy == self.watching() is Some,
    {
        self.active.is_some()
    }

    /// The canonical path being watched; `None` while idle.
    pub fn watched_path(&self) -> (path: Option<String>)
        ensures
            text_of(path) == self.watching(),
    {
        match &self.active {
            Some(watch) => Some(watch.path.clone()),
            None => None,
        }
    }

    /// Whether `canonical` is the path being watched.
    fn is_watching_path(&self, canonical: &str) -> (same: bool)
        ensures
            same == (self.watching() == Some(canonical@)),
    {
        match &self.active {
            Some(watch) => same_text(watch.path.as_str(), canonical),
            None => false,
        }
    }

    /// Takes a request to watch `requested`, which the filesystem resolved
    /// as `resolved`.
    ///
    /// A request that cannot be served is turned down and changes nothing.
    /// A request for the path that is being watched is a no-op. Any other
    /// request ends the watch that is attached, which leaves the coordinator
    /// idle, and asks for a watch on the new path.
    pub fn begin_start(&mut self, requested: &str, resolved: Result<ResolvedPath, String>) -> (decision:
        StartDecision)
        ensures
            decision@ == start_decision(
                old(self).watch_kind(),
                old(self).watching(),
                requested@,
                resolution_of(resolved),
            ),
            final(self).watch_kind() == old(self).watch_kind(),
            final(self).watching() == watching_after_decision(old(self).watching(), decision@),
            final(self).held_handle() == handle_after_decision(old(self).held_handle(), decision@),
    {
        if let Some(reason) = refuse_start(self.kind, requested, &resolved) {
            return StartDecision::Rejected(reason);
        }
        match resolved {
            Ok(found) => {
                if self.is_watching_path(found.canonical.as_str()) {
                    StartDecision::AlreadyWatching
                } else {
                    self.active = None;
                    StartDecision::Attach(found.canonical)
                }
            },
            Err(reason) => {
                // An unresolved request has been turned down above.
                assert(false);
                StartDecision::Rejected(reason)
            },
        }
    }

    /// Takes the outcome of attaching a watch to `canonical`.
    ///
    /// With a handle the coordinator watches `canonical` and holds that
    /// handle, whatever it held before. Without one it is idle and holds
    /// none, and the reason comes back as the error.
    pub fn finish_start(&mut self, canonical: String, outcome: AttachOutcome<H>) -> (done: Result<
        (),
        String,
    >)
        ensures
            final(self).watch_kind() == old(self).watch_kind(),
            final(self).watching() == watching_after_attach(canonical@, outcome),
            final(self).held_handle() == handle_after_attach(outcome),
            match done {
                Ok(_) => attach_failure(old(self).watch_kind(), canonical@, outcome) is None,
                Err(reason) => attach_failure(old(self).watch_kind(), canonical@, outcome) == Some(
                    reason@,
                ),
            },
    {
        match outcome {
            AttachOutcome::Attached(handle) => {
                self.active = Some(ActiveWatch { handle, path: canonical });
                Ok(())
            },
            AttachOutcome::InitFailed(reason) => {
                self.active = None;
                let opening = match self.kind {
                    WatchKind::File => "Failed to initialize markdown file watcher: ",
                    WatchKind::Folder => "Failed to initialize markdown folder watcher: ",
                };
                Err(join2(opening, reason.as_str()))
            },
            AttachOutcome::WatchFailed(reason) => {
                self.active = None;
                let opening = match self.kind {
                    WatchKind::File => "Failed to watch markdown file '",
                    WatchKind::Folder => "Failed to watch folder '",
                };
                Err(join4(opening, canonical.as_str(), "': ", reason.as_str()))
            },
        }
    }

    /// Ends the watch, if there is one. The coordinator is idle afterwards.
    pub fn stop(&mut self)
        ensures
            final(self).watch_kind() == old(self).watch_kind(),
            final(self).watching() is None,
            final(self).held_handle() is None,
    {
        self.active = None;
    }

    /// The path whose payload is to be built again after `change`: the path
    /// being watched, whatever path the event itself named, where the change
    /// calls for it; `None` otherwise. The coordinator stays as it is.
    pub fn rebuild_path(&self, change: ChangeKind) -> (path: Option<String>)
        ensures
            text_of(path) == if calls_for_rebuild(self.watch_kind(), change) {
                self.watching()
            } else {
                None
            },
    {
        let rebuild = match self.kind {
            WatchKind::File => is_file_change_event(change),
            WatchKind::Folder => is_folder_change_event(change),
        };
        if rebuild {
            self.watched_path()
        } else {
            None
        }
    }
}

/// What is published of a payload that was built again: the payload, or
/// nothing where building it failed.
pub open spec fn published<P, R>(rebuilt: Result<P, R>) -> Option<P> {
    match rebuilt {
        Ok(payload) => Some(payload),
        Err(_) => None,
    }
}

/// What is published after a change: the payload that was built again, or
/// nothing where building it failed. A failure is not reported to anyone;
/// the watch stays, and a later event may succeed.
pub fn republish<P>(rebuilt: Result<P, String>) -> (payload: Option<P>)
    ensures
        payload == published(rebuilt),
{
    match rebuilt {
        Ok(payload) => Some(payload),
        Err(_) => None,
    }
}

/// A second start on the path that is being watched attaches nothing: once
/// a start has attached a watch to a path, a start that resolves to the same
/// canonical path is a no-op and leaves the coordinator watching it.
pub proof fn lemma_start_is_idempotent<H>(
    kind: WatchKind,
    watching: Option<Seq<char>>,
    requested: Seq<char>,
    requested_again: Seq<char>,
    found: ResolvedPathView,
    outcome: AttachOutcome<H>,
)
    requires
        is_watchable(kind, found),
        outcome is Attached,
    ensures
        ({
            let first = start_decision(kind, watching, requested, Ok(found));
            let after_first = if first is Attach {
                watching_after_attach(found.canonical, outcome)
            } else {
                watching_after_decision(watching, first)
            };
            let second = start_decision(kind, after_first, requested_again, Ok(found));
            &&& first is Attach <==> watching != Some(found.canonical)
            &&& after_first == Some(found.canonical)
            &&& second is AlreadyWatching
            &&& watching_after_decision(after_first, second) == after_first
        }),
{
}

/// A start on another path ends the watch that is attached before the new
/// one is asked for: the coordinator is idle and has given up the handle it
/// held when it asks for the watch.
pub proof fn lemma_restart_tears_down_first<H>(
    kind: WatchKind,
    watched: Seq<char>,
    held: Option<H>,
    requested: Seq<char>,
    found: ResolvedPathView,
)
    requires
        is_watchable(kind, found),
        found.canonical != watched,
    ensures
        start_decision(kind, Some(watched), requested, Ok(found)) == StartDecisionView::Attach(
            found.canonical,
        ),
        watching_after_decision(
            Some(watched),
            start_decision(kind, Some(watched), requested, Ok(found)),
        ) is None,
        handle_after_decision(
            held,
            start_decision(kind, Some(watched), requested, Ok(found)),
        ) is None,
{
}

/// A directory is never watched as a file, and a file never as a folder:
/// such a request is turned down, whatever the name, and changes nothing.
pub proof fn lemma_kind_must_match(
    kind: WatchKind,
    watching: Option<Seq<char>>,
    requested: Seq<char>,
    found: ResolvedPathView,
)
    requires
        (kind == WatchKind::File && found.kind != EntryKind::File) || (kind == WatchKind::Folder
            && found.kind != EntryKind::Directory),
    ensures
        start_decision(kind, watching, requested, Ok(found)) is Rejected,
        watching_after_decision(
            watching,
            start_decision(kind, watching, requested, Ok(found)),
        ) == watching,
{
}

/// A request that is turned down changes nothing, and a watch is asked for
/// only where the request can be served.
pub proof fn lemma_refusal_changes_nothing(
    kind: WatchKind,
    watching: Option<Seq<char>>,
    requested: Seq<char>,
    resolved: Result<ResolvedPathView, Seq<char>>,
)
    ensures
        ({
            let decision = start_decision(kind, watching, requested, resolved);
            &&& decision is Rejected ==> watching_after_decision(watching, decision) == watching
            &&& decision is Rejected <==> (resolved matches Ok(found) ==> !is_watchable(kind, found))
            &&& decision matches StartDecisionView::Attach(path) ==> (resolved matches Ok(found)
                && path == found.canonical && is_watchable(kind, found))
        }),
{
}

} // verus!
