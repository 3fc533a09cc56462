//! The single-instance coordinator: what the surviving instance does when the
//! program starts, is started again, or is asked by the system to open
//! something.
//!
//! The coordinator decides; the shell acts. Each function here queues what
//! there is to queue and returns, in order, what the shell has to do with the
//! window. The shell carries an action out only while the window exists.

use crate::args::{ParsedLaunchArgs, ParsedLaunchArgsView};
use crate::options::{StartupOptions, StartupOptionsView};
use crate::queue::PendingOpenTargets;
use crate::target::{
    classified, classify, LaunchTargetView, OpenTargetPayload, OpenTargetPayloadView, ResolvedPath,
    ResolvedPathView,
};
use crate::text::borrowed_text;
use vstd::prelude::*;

verus! {

/// Something for the shell to do with the window.
#[derive(Debug, PartialEq, Eq)]
pub enum ShellAction {
    /// Send the options of a later launch to the window. They are not kept.
    BroadcastOptions(StartupOptions),
    /// Tell the window that a target was opened from outside.
    AnnounceOpened(OpenTargetPayload),
    /// Tell the window which target the program was started with.
    OpenOnLaunch(OpenTargetPayload),
    /// Show the window and give it the focus.
    FocusWindow,
}

/// The mathematical value of [`ShellAction`].
pub ghost enum ShellActionView {
    BroadcastOptions(StartupOptionsView),
    AnnounceOpened(OpenTargetPayloadView),
    OpenOnLaunch(OpenTargetPayloadView),
    FocusWindow,
}

impl ShellActionView {
    /// The name of the event that carries the action to the window. Giving
    /// the focus is no event.
    pub open spec fn event_name(self) -> Option<Seq<char>> {
        match self {
            ShellActionView::BroadcastOptions(_) => Some("app:startup-options"@),
            ShellActionView::AnnounceOpened(_) => Some("file:opened-external"@),
            ShellActionView::OpenOnLaunch(_) => Some("file:open-on-launch"@),
            ShellActionView::FocusWindow => None,
        }
    }
}

impl View for ShellAction {
    type V = ShellActionView;

    open spec fn view(&self) -> ShellActionView {
        match self {
            ShellAction::BroadcastOptions(options) => ShellActionView::BroadcastOptions(options@),
            ShellAction::AnnounceOpened(payload) => ShellActionView::AnnounceOpened(payload@),
            ShellAction::OpenOnLaunch(payload) => ShellActionView::OpenOnLaunch(payload@),
            ShellAction::FocusWindow => ShellActionView::FocusWindow,
        }
    }
}

impl DeepView for ShellAction {
    type V = ShellActionView;

    open spec fn deep_view(&self) -> ShellActionView {
        self.view()
    }
}

impl ShellAction {
    /// The name of the event that carries this action to the window.
    pub fn event_name(&self) -> (name: Option<&'static str>)
        ensures
            borrowed_text(name) == self@.event_name(),
    {
        match self {
            ShellAction::BroadcastOptions(_) => Some("app:startup-options"),
            ShellAction::AnnounceOpened(_) => Some("file:opened-external"),
            ShellAction::OpenOnLaunch(_) => Some("file:open-on-launch"),
            ShellAction::FocusWindow => None,
        }
    }
}

/// The payload of an optional target.
pub open spec fn payload_of(target: Option<LaunchTargetView>) -> Option<OpenTargetPayloadView> {
    match target {
        Some(chosen) => Some(chosen.payload()),
        None => None,
    }
}

/// A queue with one more entry, where there is one to add.
pub open spec fn with_queued(
    queue: Seq<OpenTargetPayloadView>,
    payload: Option<OpenTargetPayloadView>,
) -> Seq<OpenTargetPayloadView> {
    match payload {
        Some(entry) => queue.push(entry),
        None => queue,
    }
}

/// What a launch has queued, the first launch like every later one: the
/// payload of its target, unless the launch only asked for a printout.
pub open spec fn queued_target(parsed: ParsedLaunchArgsView) -> Option<OpenTargetPayloadView> {
    if parsed.exit_after_print {
        None
    } else {
        payload_of(parsed.launch_target)
    }
}

/// What the first instance does with its window when it starts. The target
/// is handed over by a signal of its own; the window is neither told of an
/// outside open nor given the focus.
pub open spec fn launch_actions(parsed: ParsedLaunchArgsView) -> Seq<ShellActionView> {
    match queued_target(parsed) {
        Some(payload) => seq![ShellActionView::OpenOnLaunch(payload)],
        None => Seq::empty(),
    }
}

/// The options that a later launch has the window told of.
pub open spec fn broadcast_on_reinvocation(parsed: ParsedLaunchArgsView) -> Seq<ShellActionView> {
    if parsed.startup_options.is_empty() {
        Seq::empty()
    } else {
        seq![ShellActionView::BroadcastOptions(parsed.startup_options)]
    }
}

/// What the surviving instance does with its window when the program is
/// started again: nothing where the launch only asked for a printout;
/// otherwise it passes on the options, if any were given, and then either
/// announces the target and takes the focus, or, with options alone, takes
/// the focus.
pub open spec fn reinvocation_actions(parsed: ParsedLaunchArgsView) -> Seq<ShellActionView> {
    if parsed.exit_after_print {
        Seq::empty()
    } else {
        broadcast_on_reinvocation(parsed) + match parsed.launch_target {
            Some(target) => seq![
                ShellActionView::AnnounceOpened(target.payload()),
                ShellActionView::FocusWindow,
            ],
            None => if parsed.startup_options.is_empty() {
                Seq::empty()
            } else {
                seq![ShellActionView::FocusWindow]
            },
        }
    }
}

/// The payloads of the probes that denote a target, in the order of the
/// probes.
pub open spec fn opened_payloads(probes: Seq<Option<ResolvedPathView>>) -> Seq<
    OpenTargetPayloadView,
>
    decreases probes.len(),
{
    if probes.len() == 0 {
        Seq::empty()
    } else {
        let earlier = opened_payloads(probes.drop_last());
        match classified(probes.last()) {
            Some(target) => earlier.push(target.payload()),
            None => earlier,
        }
    }
}

/// What the window is told when the system asks to open `payloads`: each is
/// announced, and the window takes the focus after each.
pub open spec fn opened_actions(payloads: Seq<OpenTargetPayloadView>) -> Seq<ShellActionView>
    decreases payloads.len(),
{
    if payloads.len() == 0 {
        Seq::empty()
    } else {
        opened_actions(payloads.drop_last()) + seq![
            ShellActionView::AnnounceOpened(payloads.last()),
            ShellActionView::FocusWindow,
        ]
    }
}

/// The first instance starts. Queues the launch target for the window to
/// pick up and says how the window learns of it.
pub fn on_launch(parsed: &ParsedLaunchArgs, pending: &mut PendingOpenTargets) -> (actions: Vec<
    ShellAction,
>)
    ensures
        final(pending)@ == with_queued(old(pending)@, queued_target(parsed@)),
        actions.deep_view() == launch_actions(parsed@),
{
    let mut actions: Vec<ShellAction> = Vec::new();
    if parsed.exit_after_print {
        assert(actions.deep_view() =~= Seq::empty());
        return actions;
    }
    match &parsed.launch_target {
        Some(target) => {
            let payload = target.to_payload();
            pending.push(payload.clone());
            actions.push(ShellAction::OpenOnLaunch(payload));
            assert(actions.deep_view() =~= launch_actions(parsed@));
        },
        None => {
            assert(actions.deep_view() =~= Seq::empty());
        },
    }
    actions
}

/// The program was started again while a window is there. Queues the target
/// of the new launch and says what to tell the window.
pub fn on_reinvocation(parsed: &ParsedLaunchArgs, pending: &mut PendingOpenTargets) -> (actions:
    Vec<ShellAction>)
    ensures
        final(pending)@ == with_queued(old(pending)@, queued_target(parsed@)),
        actions.deep_view() == reinvocation_actions(parsed@),
{
    let mut actions: Vec<ShellAction> = Vec::new();
    if parsed.exit_after_print {
        assert(actions.deep_view() =~= Seq::empty());
        return actions;
    }
    let has_options = !parsed.startup_options.is_empty();
    if has_options {
        actions.push(ShellAction::BroadcastOptions(parsed.startup_options.clone()));
    }
    assert(actions.deep_view() =~= broadcast_on_reinvocation(parsed@));
    match &parsed.launch_target {
        Some(target) => {
            let payload = target.to_payload();
            pending.push(payload.clone());
            actions.push(ShellAction::AnnounceOpened(payload));
            actions.push(ShellAction::FocusWindow);
        },
        None => {
            if has_options {
                actions.push(ShellAction::FocusWindow);
            }
        },
    }
    assert(actions.deep_view() =~= reinvocation_actions(parsed@));
    actions
}

/// The system asked the running program to open some paths. `probes` holds
/// what resolving each path found, `None` for a path that could not be
/// resolved. Queues every path that denotes a target and says what to tell
/// the window.
pub fn on_opened(probes: &Vec<Option<ResolvedPath>>, pending: &mut PendingOpenTargets) -> (actions:
    Vec<ShellAction>)
    ensures
        final(pending)@ == old(pending)@ + opened_payloads(probes.deep_view()),
        actions.deep_view() == opened_actions(opened_payloads(probes.deep_view())),
{
    let mut actions: Vec<ShellAction> = Vec::new();
    let ghost found = probes.deep_view();
    let mut index: usize = 0;
    assert(actions.deep_view() =~= Seq::empty());
    assert(found.take(0) =~= Seq::empty());
    assert(old(pending)@ + Seq::<OpenTargetPayloadView>::empty() =~= old(pending)@);
    while index < probes.len()
        invariant
            index <= probes.len(),
            found == probes.deep_view(),
            pending@ == old(pending)@ + opened_payloads(found.take(index as int)),
            actions.deep_view() == opened_actions(opened_payloads(found.take(index as int))),
        decreases probes.len() - index,
    {
        let ghost seen = found.take(index as int);
        let ghost next = found.take(index + 1);
        assert(next.drop_last() =~= seen);
        assert(next.last() == probes[index as int].deep_view());
        let ghost queued = opened_payloads(seen);
        match classify(&probes[index]) {
            Some(target) => {
                let payload = target.to_payload();
                let ghost before = actions.deep_view();
                pending.push(payload.clone());
                actions.push(ShellAction::AnnounceOpened(payload));
                actions.push(ShellAction::FocusWindow);
                proof {
                    assert(opened_payloads(next) == queued.push(payload@));
                    assert(queued.push(payload@).drop_last() =~= queued);
                    assert(actions.deep_view() =~= before + seq![
                        ShellActionView::AnnounceOpened(payload@),
                        ShellActionView::FocusWindow,
                    ]);
                    assert(old(pending)@ + queued.push(payload@) =~= (old(pending)@ + queued).push(
                        payload@,
                    ));
                }
            },
            None => {},
        }
        index = index + 1;
    }
    assert(found.take(index as int) =~= found);
    actions
}

/// A launch that only asks for a printout changes nothing in the instance
/// that is already running: nothing is queued and the window is left alone.
pub proof fn lemma_printout_leaves_instance_alone(
    parsed: ParsedLaunchArgsView,
    queue: Seq<OpenTargetPayloadView>,
)
    requires
        parsed.exit_after_print,
    ensures
        with_queued(queue, queued_target(parsed)) == queue,
        reinvocation_actions(parsed) == Seq::<ShellActionView>::empty(),
{
}

/// The window takes the focus on a later launch exactly when that launch
/// named a target or gave options, and a target is announced exactly when
/// it is queued.
pub proof fn lemma_reinvocation_focus(parsed: ParsedLaunchArgsView)
    requires
        !parsed.exit_after_print,
    ensures
        reinvocation_actions(parsed).contains(ShellActionView::FocusWindow) <==> (
        parsed.launch_target is Some || !parsed.startup_options.is_empty()),
        forall|payload: OpenTargetPayloadView|
            reinvocation_actions(parsed).contains(ShellActionView::AnnounceOpened(payload)) <==> (
            queued_target(parsed) == Some(payload)),
{
    let actions = reinvocation_actions(parsed);
    let head = broadcast_on_reinvocation(parsed);
    assert forall|i: int| 0 <= i < head.len() implies head[i] is BroadcastOptions by {}
    match parsed.launch_target {
        Some(target) => {
            assert(actions[head.len() as int] == ShellActionView::AnnounceOpened(target.payload()));
            assert(actions[head.len() as int + 1] == ShellActionView::FocusWindow);
        },
        None => {
            if !parsed.startup_options.is_empty() {
                assert(actions[head.len() as int] == ShellActionView::FocusWindow);
            }
        },
    }
}

} // verus!
