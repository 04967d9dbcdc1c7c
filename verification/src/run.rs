//! A session from its start to its end: turns, each of which reads from the server once and then
//! takes in the input that has come in, until one side ends it or something fails.
use crate::batch::{resizes_are_passed_over, without_resizes, InputBatchView};
use crate::events::{RdpInputEventView, RdpOutputEventView};
use crate::image::same_shape;
use crate::input::input_state;
use crate::plan::{
    closing_always_ends_the_session, frames_are_sent_first_and_in_order, planned, planned_shutdown,
    regions_fit, settled, the_session_stops_when_the_server_ends_it, SessionActionView, StepView,
};
use crate::session::{told, ReadOutcomeView, Session};
use crate::stage::{shutdown_reply, stage_may_reply, StageReplyView};
use vstd::prelude::*;

verus! {

/// One half of a turn: what came of the step, and which of its sends failed, if one did.
pub struct Half {
    pub step: StepView,
    pub broken: Option<nat>,
}

impl Half {
    /// What fails is a send.
    pub open spec fn well_formed(self) -> bool {
        self.broken matches Some(i) ==> (self.step matches Ok(actions) && i < actions.len()
            && actions[i as int] is Send)
    }

    /// The actions that are carried out: all of them, or those before the one that fails.
    pub open spec fn done(self) -> Seq<SessionActionView> {
        match (self.step, self.broken) {
            (Ok(actions), None) => actions,
            (Ok(actions), Some(i)) => actions.take(i as int),
            (Err(_), _) => Seq::empty(),
        }
    }

    /// Whether the session stops in good order.
    pub open spec fn stops(self) -> bool {
        self.step is Ok && self.broken is None && self.step->Ok_0.contains(SessionActionView::Stop)
    }

    /// Whether the session goes on.
    pub open spec fn goes_on(self) -> bool {
        self.step is Ok && self.broken is None && !self.step->Ok_0.contains(SessionActionView::Stop)
    }
}

/// A turn: what is read, what comes of it, the session between the two halves, the events that the
/// window has sent, what comes of them, and the session thereafter. If the session does not go on
/// after the first half, there is no second one.
pub struct Turn {
    pub read: ReadOutcomeView,
    pub reading: Half,
    pub between: Session,
    pub events: Seq<RdpInputEventView>,
    pub input: Half,
    pub after: Session,
}

impl Turn {
    /// Whether the turn is one that a session may take.
    pub open spec fn follows(self, before: Session) -> bool {
        &&& before.reads(self.read, self.between, self.reading.step)
        &&& self.reading.well_formed()
        &&& self.reading.goes_on() ==> self.input.well_formed() && self.between.takes_in(
            InputBatchView::empty().with_all(self.events),
            self.after,
            self.input.step,
        )
    }

    /// The half after which the turn is over.
    pub open spec fn last_half(self) -> Half {
        if self.reading.goes_on() {
            self.input
        } else {
            self.reading
        }
    }

    /// What is done in the turn.
    pub open spec fn done(self) -> Seq<SessionActionView> {
        if self.reading.goes_on() {
            self.reading.done() + self.input.done()
        } else {
            self.reading.done()
        }
    }
}

/// Whether a session may take these turns one after the other.
pub open spec fn is_run(start: Session, turns: Seq<Turn>) -> bool
    decreases turns.len(),
{
    if turns.len() == 0 {
        true
    } else {
        &&& turns[0].follows(start)
        &&& turns.len() > 1 ==> turns[0].last_half().goes_on()
        &&& is_run(turns[0].after, turns.drop_first())
    }
}

/// Whether the session is over with the last of the turns.
pub open spec fn is_over(turns: Seq<Turn>) -> bool {
    turns.len() > 0 && !turns.last().last_half().goes_on()
}

/// Whether the session is over in good order with the last of the turns.
pub open spec fn ends_well(turns: Seq<Turn>) -> bool {
    turns.len() > 0 && turns.last().last_half().stops()
}

/// What is done in the turns.
pub open spec fn done_in(turns: Seq<Turn>) -> Seq<SessionActionView>
    decreases turns.len(),
{
    if turns.len() == 0 {
        Seq::empty()
    } else {
        turns[0].done() + done_in(turns.drop_first())
    }
}

/// What the window is told by actions.
pub open spec fn events_of(actions: Seq<SessionActionView>) -> Seq<RdpOutputEventView>
    decreases actions.len(),
{
    if actions.len() == 0 {
        Seq::empty()
    } else {
        let earlier = events_of(actions.drop_last());
        match actions.last() {
            SessionActionView::Notify(event) => earlier.push(event),
            _ => earlier,
        }
    }
}

/// Whether an event hands updated regions to the window, at least one.
pub open spec fn is_update(event: RdpOutputEventView) -> bool {
    event matches RdpOutputEventView::FrameUpdate { regions } && regions.len() > 0
}

/// Whether an event tells the window that the session has ended, and why, without an error.
pub open spec fn is_good_end(event: RdpOutputEventView) -> bool {
    event matches RdpOutputEventView::Terminated(Ok(_))
}

/// Whether an action leaves the session going: it sends something or hands updated regions to the
/// window.
spec fn is_plain(action: SessionActionView) -> bool {
    match action {
        SessionActionView::Send(_) => true,
        SessionActionView::TrySend(_) => true,
        SessionActionView::Notify(event) => is_update(event),
        SessionActionView::Stop => false,
    }
}

/// Actions as the steps of a session make them: plain ones, and at the end, if the session stops,
/// the event that tells so and the stop.
spec fn is_shaped(actions: Seq<SessionActionView>) -> bool {
    if actions.contains(SessionActionView::Stop) {
        &&& actions.len() >= 2
        &&& actions.last() == SessionActionView::Stop
        &&& actions[actions.len() - 2] matches SessionActionView::Notify(event) && is_good_end(
            event,
        )
        &&& forall|i: int|
            0 <= i < actions.len() - 2 ==> #[trigger] actions[i] is Send || actions[i] is TrySend
    } else {
        forall|i: int| 0 <= i < actions.len() ==> is_plain(#[trigger] actions[i])
    }
}

/// What the window is told by two lists of actions.
proof fn lemma_events_add_up(first: Seq<SessionActionView>, second: Seq<SessionActionView>)
    ensures
        events_of(first + second) == events_of(first) + events_of(second),
    decreases second.len(),
{
    if second.len() == 0 {
        assert(first + second =~= first);
        assert(events_of(first) + events_of(second) =~= events_of(first));
    } else {
        let both = first + second;
        assert(both.drop_last() =~= first + second.drop_last());
        assert(both.last() == second.last());
        lemma_events_add_up(first, second.drop_last());
        assert(events_of(both) =~= events_of(first) + events_of(second));
    }
}

/// Plain actions tell the window of nothing but updates.
proof fn lemma_plain_events(actions: Seq<SessionActionView>)
    requires
        forall|i: int| 0 <= i < actions.len() ==> is_plain(#[trigger] actions[i]),
    ensures
        forall|i: int|
            0 <= i < events_of(actions).len() ==> is_update(#[trigger] events_of(actions)[i]),
    decreases actions.len(),
{
    if actions.len() > 0 {
        let earlier = actions.drop_last();
        assert forall|i: int| 0 <= i < earlier.len() implies is_plain(#[trigger] earlier[i]) by {
            assert(earlier[i] == actions[i]);
        }
        lemma_plain_events(earlier);
        assert(is_plain(actions[actions.len() - 1]));
        let events = events_of(actions);
        assert forall|i: int| 0 <= i < events.len() implies is_update(#[trigger] events[i]) by {
            if i < events_of(earlier).len() {
                assert(events[i] == events_of(earlier)[i]);
            }
        }
    }
}

/// Sends alone tell the window nothing.
proof fn lemma_silent_sends(actions: Seq<SessionActionView>)
    requires
        forall|i: int|
            0 <= i < actions.len() ==> #[trigger] actions[i] is Send || actions[i] is TrySend,
    ensures
        events_of(actions).len() == 0,
    decreases actions.len(),
{
    if actions.len() > 0 {
        let earlier = actions.drop_last();
        assert forall|i: int| 0 <= i < earlier.len() implies #[trigger] earlier[i] is Send
            || earlier[i] is TrySend by {
            assert(earlier[i] == actions[i]);
        }
        lemma_silent_sends(earlier);
        assert(actions[actions.len() - 1] is Send || actions[actions.len() - 1] is TrySend);
    }
}

/// What a half of a turn tells the window: updates, unless the session stops in it; then that it
/// has ended, and nothing else.
proof fn lemma_half_events(half: Half)
    requires
        half.well_formed(),
        half.step matches Ok(actions) ==> is_shaped(actions),
    ensures
        half.stops() ==> events_of(half.done()).len() == 1 && is_good_end(
            events_of(half.done())[0],
        ),
        !half.stops() ==> forall|i: int|
            0 <= i < events_of(half.done()).len() ==> is_update(
                #[trigger] events_of(half.done())[i],
            ),
{
    let done = half.done();
    if half.stops() {
        let sends = done.take(done.len() - 2);
        lemma_silent_sends(sends);
        let told = done.drop_last();
        assert(told.drop_last() =~= sends);
        assert(told.last() == done[done.len() - 2]);
        assert(events_of(done) == events_of(told));
    } else {
        assert forall|i: int| 0 <= i < done.len() implies is_plain(#[trigger] done[i]) by {
            if half.broken is Some {
                let actions = half.step->Ok_0;
                let at = half.broken->Some_0 as int;
                assert(done[i] == actions[i]);
                assert(actions[at] is Send);
            }
        }
        lemma_plain_events(done);
    }
}

/// What comes of reading is shaped.
proof fn lemma_reading_is_shaped(before: Session, turn: Turn)
    requires
        before.reads(turn.read, turn.between, turn.reading.step),
    ensures
        turn.reading.step matches Ok(actions) ==> is_shaped(actions),
{
    if let ReadOutcomeView::Pdu { action, payload } = turn.read {
        assert(before.decodes(action, payload, turn.between, turn.reading.step));
        let image = turn.between.image;
        let reply = choose|reply: StageReplyView|
            #[trigger] stage_may_reply(
                before.stage,
                before.image,
                action,
                payload,
                turn.between.stage,
                image,
                reply,
            ) && turn.reading.step == settled(image, reply);
        if turn.reading.step is Ok {
            let outputs = reply->Ok_0;
            assert(regions_fit(image, outputs));
            let actions = planned(image, outputs);
            the_session_stops_when_the_server_ends_it(image, outputs, Seq::empty());
            frames_are_sent_first_and_in_order(image, outputs);
            assert(is_shaped(actions));
        }
    }
}

/// What comes of the input is shaped.
proof fn lemma_input_is_shaped(turn: Turn)
    requires
        turn.reading.goes_on(),
        turn.between.takes_in(
            InputBatchView::empty().with_all(turn.events),
            turn.after,
            turn.input.step,
        ),
    ensures
        turn.input.step matches Ok(actions) ==> is_shaped(actions),
{
    let batch = InputBatchView::empty().with_all(turn.events);
    if batch.should_close {
        let reply = shutdown_reply(turn.between.stage);
        closing_always_ends_the_session(reply);
        let actions = planned_shutdown(reply);
        assert(actions[actions.len() - 1] == SessionActionView::Stop);
        assert(is_shaped(actions));
    } else {
        let state = input_state(turn.between.input);
        assert(turn.input.step == told(state, batch.operations));
    }
}

/// What a turn tells the window: updates, and that the session has ended exactly if it stops in the
/// turn, after everything else.
proof fn lemma_turn_events(before: Session, turn: Turn)
    requires
        turn.follows(before),
    ensures
        ({
            let events = events_of(turn.done());
            let stops = turn.last_half().stops();
            &&& forall|i: int| 0 <= i < events.len() - 1 ==> is_update(#[trigger] events[i])
            &&& stops ==> events.len() > 0 && is_good_end(events.last())
            &&& !stops ==> forall|i: int| 0 <= i < events.len() ==> is_update(#[trigger] events[i])
        }),
{
    lemma_reading_is_shaped(before, turn);
    lemma_half_events(turn.reading);
    if turn.reading.goes_on() {
        lemma_input_is_shaped(turn);
        lemma_half_events(turn.input);
        lemma_events_add_up(turn.reading.done(), turn.input.done());
    }
}

/// What the window is told in a whole run.
proof fn lemma_run_events(start: Session, turns: Seq<Turn>)
    requires
        is_run(start, turns),
    ensures
        ({
            let events = events_of(done_in(turns));
            &&& forall|i: int| 0 <= i < events.len() - 1 ==> is_update(#[trigger] events[i])
            &&& ends_well(turns) ==> events.len() > 0 && is_good_end(events.last())
            &&& !ends_well(turns) ==> forall|i: int|
                0 <= i < events.len() ==> is_update(#[trigger] events[i])
        }),
    decreases turns.len(),
{
    if turns.len() > 0 {
        let rest = turns.drop_first();
        lemma_turn_events(start, turns[0]);
        lemma_events_add_up(turns[0].done(), done_in(rest));
        lemma_run_events(turns[0].after, rest);
        if rest.len() > 0 {
            assert(rest.last() == turns.last());
        } else {
            assert(events_of(done_in(rest)).len() == 0);
        }
    }
}

/// A session that is over in good order has told the window so exactly once, as the last thing, and
/// without an error. One that fails has not told it. Everything else that the window is told is
/// updates of at least one region each.
pub proof fn the_end_is_told_once(start: Session, turns: Seq<Turn>)
    requires
        is_run(start, turns),
        is_over(turns),
    ensures
        ({
            let events = events_of(done_in(turns));
            &&& forall|i: int|
                0 <= i < events.len() ==> is_update(#[trigger] events[i]) || (i == events.len() - 1
                    && is_good_end(events[i]))
            &&& ends_well(turns) <==> exists|i: int|
                0 <= i < events.len() && #[trigger] events[i] is Terminated
            &&& ends_well(turns) ==> is_good_end(events.last())
        }),
{
    lemma_run_events(start, turns);
    let events = events_of(done_in(turns));
    if ends_well(turns) {
        assert(events[events.len() - 1] is Terminated);
    }
}

/// In every turn the image keeps its format and its size, and the decoder leaves the pointer to the
/// window, so that the session can take in the input that comes next.
pub proof fn every_turn_keeps_the_session_in_shape(start: Session, turns: Seq<Turn>, i: int)
    requires
        is_run(start, turns),
        start.well_formed(),
        0 <= i < turns.len(),
    ensures
        turns[i].between.well_formed(),
        same_shape(start.image, turns[i].between.image),
        turns[i].reading.goes_on() ==> turns[i].after.well_formed() && same_shape(
            start.image,
            turns[i].after.image,
        ),
    decreases turns.len(),
{
    if i > 0 {
        let rest = turns.drop_first();
        assert(rest[i - 1] == turns[i]);
        every_turn_keeps_the_session_in_shape(turns[0].after, rest, i - 1);
    }
}

/// Whether two turns differ in nothing but the resizes among the events of the window.
pub open spec fn differ_in_resizes(a: Turn, b: Turn) -> bool {
    &&& b == (Turn { events: b.events, ..a })
    &&& without_resizes(a.events) == without_resizes(b.events)
}

/// A resize has no effect on a session: if the window sends more or fewer of them, in whichever
/// turns, the session may take the same turns, does the same things in them and ends in the same
/// way.
pub proof fn resizes_have_no_effect(start: Session, a: Seq<Turn>, b: Seq<Turn>)
    requires
        a.len() == b.len(),
        forall|i: int| 0 <= i < a.len() ==> #[trigger] differ_in_resizes(a[i], b[i]),
    ensures
        is_run(start, a) == is_run(start, b),
        done_in(a) == done_in(b),
        is_over(a) == is_over(b),
        ends_well(a) == ends_well(b),
    decreases a.len(),
{
    if a.len() > 0 {
        let rest_a = a.drop_first();
        let rest_b = b.drop_first();
        assert(differ_in_resizes(a[0], b[0]));
        assert(differ_in_resizes(a[a.len() - 1], b[b.len() - 1]));
        assert forall|i: int| 0 <= i < rest_a.len() implies #[trigger] differ_in_resizes(
            rest_a[i],
            rest_b[i],
        ) by {
            assert(differ_in_resizes(a[i + 1], b[i + 1]));
        }
        resizes_have_no_effect(a[0].after, rest_a, rest_b);
        resizes_are_passed_over(InputBatchView::empty(), a[0].events);
        resizes_are_passed_over(InputBatchView::empty(), b[0].events);
    }
}

} // verus!
