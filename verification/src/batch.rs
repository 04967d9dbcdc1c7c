//! The input of the user on its way to the session.
use crate::events::{RdpInputEvent, RdpInputEventView};
use crate::input::Operation;
use vstd::prelude::*;

verus! {

/// The input of the user that has come in since the last look.
#[derive(Debug)]
pub struct InputBatch {
    pub operations: Vec<Operation>,
    pub should_close: bool,
}

/// The contents of an [`InputBatch`].
pub struct InputBatchView {
    pub operations: Seq<Operation>,
    pub should_close: bool,
}

impl View for InputBatch {
    type V = InputBatchView;

    open spec fn view(&self) -> InputBatchView {
        InputBatchView { operations: self.operations@, should_close: self.should_close }
    }
}

impl InputBatchView {
    /// The batch in which nothing has come in.
    pub open spec fn empty() -> InputBatchView {
        InputBatchView { operations: Seq::empty(), should_close: false }
    }

    /// The batch with one more event. A resize is of no account: it would take a new connection.
    pub open spec fn with(self, event: RdpInputEventView) -> InputBatchView {
        match event {
            RdpInputEventView::Operations(operations) => InputBatchView {
                operations: self.operations + operations,
                ..self
            },
            RdpInputEventView::Close => InputBatchView { should_close: true, ..self },
            RdpInputEventView::Resize { .. } => self,
        }
    }

    /// The batch with the events up to the first that closes it.
    pub open spec fn with_all(self, events: Seq<RdpInputEventView>) -> InputBatchView
        decreases events.len(),
    {
        if self.should_close || events.len() == 0 {
            self
        } else {
            self.with(events[0]).with_all(events.drop_first())
        }
    }
}

impl InputBatch {
    /// The batch in which nothing has come in.
    pub fn new() -> (batch: InputBatch)
        ensures
            batch@ == InputBatchView::empty(),
            batch.operations@.len() == 0,
            !batch.should_close,
    {
        InputBatch { operations: Vec::new(), should_close: false }
    }

    /// Takes in one event. A batch that is to close takes no more.
    pub fn add(&mut self, event: RdpInputEvent)
        requires
            !old(self).should_close,
        ensures
            final(self)@ == old(self)@.with(event@),
            event matches RdpInputEvent::Operations(operations) ==> final(self).operations@ == old(
                self,
            ).operations@ + operations@,
            !(event is Operations) ==> final(self).operations@ == old(self).operations@,
            final(self).should_close == (event is Close),
    {
        match event {
            RdpInputEvent::Operations(operations) => {
                let mut operations = operations;
                self.operations.append(&mut operations);
            },
            RdpInputEvent::Close => {
                self.should_close = true;
            },
            RdpInputEvent::Resize { .. } => {},
        }
    }
}

/// A batch is to close exactly when a close has come in.
pub proof fn a_batch_closes_on_a_close(batch: InputBatchView, events: Seq<RdpInputEventView>)
    requires
        !batch.should_close,
    ensures
        batch.with_all(events).should_close <==> events.contains(RdpInputEventView::Close),
    decreases events.len(),
{
    reveal_with_fuel(InputBatchView::with_all, 2);
    if events.len() > 0 {
        let rest = events.drop_first();
        if events[0] != RdpInputEventView::Close {
            a_batch_closes_on_a_close(batch.with(events[0]), rest);
            if rest.contains(RdpInputEventView::Close) {
                let i = choose|i: int| 0 <= i < rest.len() && rest[i] == RdpInputEventView::Close;
                assert(events[i + 1] == RdpInputEventView::Close);
            }
            if events.contains(RdpInputEventView::Close) {
                let i = choose|i: int|
                    0 <= i < events.len() && events[i] == RdpInputEventView::Close;
                assert(rest[i - 1] == RdpInputEventView::Close);
            }
        }
    }
}

/// A resize changes nothing, wherever it comes among the events.
pub proof fn a_resize_is_passed_over(
    batch: InputBatchView,
    earlier: Seq<RdpInputEventView>,
    width: u16,
    height: u16,
    later: Seq<RdpInputEventView>,
)
    ensures
        batch.with_all(earlier.push(RdpInputEventView::Resize { width, height }) + later)
            == batch.with_all(earlier + later),
    decreases earlier.len(),
{
    let resize = RdpInputEventView::Resize { width, height };
    let all = earlier.push(resize) + later;
    if batch.should_close {
    } else if earlier.len() == 0 {
        assert(all[0] == resize);
        assert(all.drop_first() =~= later);
        assert(earlier + later =~= later);
    } else {
        let rest = earlier.drop_first();
        assert(all[0] == earlier[0]);
        assert((earlier + later)[0] == earlier[0]);
        assert(all.drop_first() =~= rest.push(resize) + later);
        assert((earlier + later).drop_first() =~= rest + later);
        a_resize_is_passed_over(batch.with(earlier[0]), rest, width, height, later);
    }
}

/// Events without the resizes among them.
pub open spec fn without_resizes(events: Seq<RdpInputEventView>) -> Seq<RdpInputEventView>
    decreases events.len(),
{
    if events.len() == 0 {
        events
    } else {
        let rest = without_resizes(events.drop_first());
        if events[0] is Resize {
            rest
        } else {
            seq![events[0]] + rest
        }
    }
}

/// All the resizes among the events together change nothing.
pub proof fn resizes_are_passed_over(batch: InputBatchView, events: Seq<RdpInputEventView>)
    ensures
        batch.with_all(without_resizes(events)) == batch.with_all(events),
    decreases events.len(),
{
    if events.len() > 0 && !batch.should_close {
        let rest = events.drop_first();
        if events[0] is Resize {
            resizes_are_passed_over(batch, rest);
        } else {
            let kept = without_resizes(events);
            assert(kept[0] == events[0]);
            assert(kept.drop_first() =~= without_resizes(rest));
            resizes_are_passed_over(batch.with(events[0]), rest);
        }
    }
}

/// What comes after a close is left unread.
pub proof fn nothing_is_read_after_a_close(
    batch: InputBatchView,
    earlier: Seq<RdpInputEventView>,
    later: Seq<RdpInputEventView>,
)
    requires
        earlier.contains(RdpInputEventView::Close),
    ensures
        batch.with_all(earlier + later) == batch.with_all(earlier),
    decreases earlier.len(),
{
    reveal_with_fuel(InputBatchView::with_all, 2);
    if !batch.should_close {
        let all = earlier + later;
        let rest = earlier.drop_first();
        assert(all[0] == earlier[0]);
        assert(all.drop_first() =~= rest + later);
        if earlier[0] != RdpInputEventView::Close {
            let i = choose|i: int| 0 <= i < earlier.len() && earlier[i] == RdpInputEventView::Close;
            assert(rest[i - 1] == RdpInputEventView::Close);
            nothing_is_read_after_a_close(batch.with(earlier[0]), rest, later);
        }
    }
}

/// Events that come in parts make the same batch as events that come at once.
pub proof fn events_add_up(
    batch: InputBatchView,
    earlier: Seq<RdpInputEventView>,
    later: Seq<RdpInputEventView>,
)
    ensures
        batch.with_all(earlier + later) == batch.with_all(earlier).with_all(later),
    decreases earlier.len(),
{
    if batch.should_close {
    } else if earlier.len() == 0 {
        assert(earlier + later =~= later);
    } else {
        let all = earlier + later;
        let rest = earlier.drop_first();
        assert(all[0] == earlier[0]);
        assert(all.drop_first() =~= rest + later);
        events_add_up(batch.with(earlier[0]), rest, later);
    }
}

/// How many operations an event holds.
pub open spec fn operation_count(event: RdpInputEventView) -> nat {
    if event is Operations {
        event->Operations_0.len()
    } else {
        0
    }
}

/// How many operations the first `count` events hold together.
pub open spec fn operations_before(events: Seq<RdpInputEventView>, count: int) -> nat
    decreases count,
{
    if count <= 0 {
        0
    } else {
        operations_before(events, count - 1) + operation_count(events[count - 1])
    }
}

/// The operations of all events but the first come after those of the first.
proof fn lemma_operations_before(events: Seq<RdpInputEventView>, count: int)
    requires
        0 < count <= events.len(),
    ensures
        operations_before(events, count) == operation_count(events[0]) + operations_before(
            events.drop_first(),
            count - 1,
        ),
    decreases count,
{
    reveal_with_fuel(operations_before, 2);
    if count > 1 {
        lemma_operations_before(events, count - 1);
        assert(events.drop_first()[count - 2] == events[count - 1]);
    }
}

/// Without a close among the events, a batch keeps the operations that it had, followed by those of
/// all the events one after the other, with none left out and none added: operation `k` of event
/// `i` lies behind the operations of the batch and those of the events before it. The batch stays
/// open.
pub proof fn every_operation_is_kept_in_its_place(
    batch: InputBatchView,
    events: Seq<RdpInputEventView>,
)
    requires
        !batch.should_close,
        forall|i: int| 0 <= i < events.len() ==> !(#[trigger] events[i] is Close),
    ensures
        !batch.with_all(events).should_close,
        batch.with_all(events).operations.len() == batch.operations.len() + operations_before(
            events,
            events.len() as int,
        ),
        forall|j: int|
            0 <= j < batch.operations.len() ==> #[trigger] batch.with_all(events).operations[j]
                == batch.operations[j],
        forall|i: int, k: int|
            0 <= i < events.len() && events[i] is Operations && 0 <= k
                < events[i]->Operations_0.len() ==> batch.with_all(
                events,
            ).operations[batch.operations.len() + operations_before(events, i) + k]
                == #[trigger] events[i]->Operations_0[k],
    decreases events.len(),
{
    if events.len() > 0 {
        let rest = events.drop_first();
        let next = batch.with(events[0]);
        let all = batch.with_all(events).operations;
        assert(!(events[0] is Close));
        assert forall|i: int| 0 <= i < rest.len() implies !(#[trigger] rest[i] is Close) by {
            assert(rest[i] == events[i + 1]);
        }
        every_operation_is_kept_in_its_place(next, rest);
        lemma_operations_before(events, events.len() as int);
        assert(next.operations.len() == batch.operations.len() + operation_count(events[0]));
        assert forall|j: int| 0 <= j < batch.operations.len() implies #[trigger] all[j]
            == batch.operations[j] by {
            assert(next.operations[j] == batch.operations[j]);
        }
        assert forall|i: int, k: int|
            0 <= i < events.len() && events[i] is Operations && 0 <= k
                < events[i]->Operations_0.len() implies all[batch.operations.len()
            + operations_before(events, i) + k] == #[trigger] events[i]->Operations_0[k] by {
            if i == 0 {
                let at = batch.operations.len() + k;
                assert(next.operations[at] == events[0]->Operations_0[k]);
                assert(all[at] == next.operations[at]);
            } else {
                lemma_operations_before(events, i);
                assert(rest[i - 1] == events[i]);
                assert(all[next.operations.len() + operations_before(rest, i - 1) + k]
                    == rest[i - 1]->Operations_0[k]);
            }
        }
    }
}

/// The first close closes the batch and leaves its operations as the events before it have made
/// them, whatever comes after it.
pub proof fn a_close_keeps_the_operations_before_it(
    batch: InputBatchView,
    events: Seq<RdpInputEventView>,
    first: int,
)
    requires
        !batch.should_close,
        0 <= first < events.len(),
        events[first] is Close,
        forall|i: int| 0 <= i < first ==> !(#[trigger] events[i] is Close),
    ensures
        batch.with_all(events).should_close,
        batch.with_all(events).operations == batch.with_all(events.take(first)).operations,
    decreases first,
{
    reveal_with_fuel(InputBatchView::with_all, 2);
    if first == 0 {
        assert(events.take(0) =~= Seq::empty());
    } else {
        let rest = events.drop_first();
        assert(!(events[0] is Close));
        assert forall|i: int| 0 <= i < first - 1 implies !(#[trigger] rest[i] is Close) by {
            assert(rest[i] == events[i + 1]);
        }
        assert(rest[first - 1] == events[first]);
        a_close_keeps_the_operations_before_it(batch.with(events[0]), rest, first - 1);
        assert(events.take(first)[0] == events[0]);
        assert(events.take(first).drop_first() =~= rest.take(first - 1));
    }
}

/// The view of a batch holds what the batch holds.
pub proof fn batch_views_are_faithful(batch: InputBatch)
    ensures
        batch@.operations == batch.operations@,
        batch@.should_close == batch.should_close,
{
}

} // verus!
