//! The pending-target queue: targets that a later launch hands to the window
//! that is already there, taken out in the order in which they came in.

use crate::target::{OpenTargetPayload, OpenTargetPayloadView};
use std::collections::VecDeque;
use vstd::prelude::*;

verus! {

/// What taking the oldest entry out of a queue gives: the entry, if there is
/// one, and the queue that is left.
pub open spec fn taken_from(queue: Seq<OpenTargetPayloadView>) -> (
    Option<OpenTargetPayloadView>,
    Seq<OpenTargetPayloadView>,
) {
    if queue.len() == 0 {
        (None, queue)
    } else {
        (Some(queue.first()), queue.drop_first())
    }
}

/// The queue that is left after taking out `count` entries, oldest first.
pub open spec fn after_taking(queue: Seq<OpenTargetPayloadView>, count: nat) -> Seq<
    OpenTargetPayloadView,
>
    decreases count,
{
    if count == 0 {
        queue
    } else {
        after_taking(taken_from(queue).1, (count - 1) as nat)
    }
}

/// The targets waiting to be opened, oldest first.
pub struct PendingOpenTargets {
    queue: VecDeque<OpenTargetPayload>,
}

impl View for PendingOpenTargets {
    type V = Seq<OpenTargetPayloadView>;

    closed spec fn view(&self) -> Seq<OpenTargetPayloadView> {
        self.queue.deep_view()
    }
}

impl Default for PendingOpenTargets {
    fn default() -> (pending: Self)
        ensures
            pending@ == Seq::<OpenTargetPayloadView>::empty(),
    {
        PendingOpenTargets::new()
    }
}

impl PendingOpenTargets {
    /// A queue with nothing waiting.
    pub fn new() -> (pending: Self)
        ensures
            pending@ == Seq::<OpenTargetPayloadView>::empty(),
    {
        let pending = PendingOpenTargets { queue: VecDeque::new() };
        assert(pending.queue.deep_view() =~= Seq::empty());
        pending
    }

    /// How many targets are waiting.
    pub fn len(&self) -> (count: usize)
        ensures
            count == self@.len(),
    {
        self.queue.len()
    }

    /// Whether nothing is waiting.
    pub fn is_empty(&self) -> (empty: bool)
        ensures
            empty == (self@.len() == 0),
    {
        self.queue.len() == 0
    }

    /// Puts `target` behind everything that is waiting.
    pub fn push(&mut self, target: OpenTargetPayload)
        ensures
            final(self)@ == old(self)@.push(target@),
    {
        self.queue.push_back(target);
        assert(self.queue.deep_view() =~= old(self).queue.deep_view().push(target@));
    }

    /// Takes out the target that has waited longest, if one is waiting.
    pub fn pop(&mut self) -> (target: Option<OpenTargetPayload>)
        ensures
            target.deep_view() == taken_from(old(self)@).0,
            final(self)@ == taken_from(old(self)@).1,
    {
        let target = self.queue.pop_front();
        assert(self.queue.deep_view() =~= taken_from(old(self).queue.deep_view()).1);
        target
    }
}

/// Taking from a queue right after a push gives what had waited longest
/// before the push, and the pushed entry itself only where nothing waited.
pub proof fn lemma_push_goes_last(queue: Seq<OpenTargetPayloadView>, target: OpenTargetPayloadView)
    ensures
        taken_from(queue.push(target)).0 == Some(
            if queue.len() == 0 {
                target
            } else {
                queue.first()
            },
        ),
        queue.len() > 0 ==> taken_from(queue.push(target)).1 == taken_from(queue).1.push(target),
        queue.len() == 0 ==> taken_from(queue.push(target)).1 == queue,
{
    if queue.len() > 0 {
        assert(queue.push(target).drop_first() =~= queue.drop_first().push(target));
    } else {
        assert(queue.push(target).drop_first() =~= queue);
    }
}

/// Strict first-in, first-out: whatever went in comes out in the order of
/// the pushes. Taking `count` entries from a queue gives its `count` oldest
/// entries, oldest first, and leaves the rest in their order.
pub proof fn lemma_taken_in_push_order(queue: Seq<OpenTargetPayloadView>, count: nat)
    requires
        count <= queue.len(),
    ensures
        after_taking(queue, count) == queue.skip(count as int),
        count < queue.len() ==> taken_from(after_taking(queue, count)).0 == Some(
            queue[count as int],
        ),
        count == queue.len() ==> taken_from(after_taking(queue, count)).0 is None,
    decreases count,
{
    if count == 0 {
        assert(queue.skip(0) =~= queue);
    } else {
        let rest = queue.drop_first();
        lemma_taken_in_push_order(rest, (count - 1) as nat);
        assert(rest.skip(count - 1) =~= queue.skip(count as int));
    }
}

} // verus!
