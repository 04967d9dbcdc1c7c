//! What is done with the outputs of the session decoder.
use crate::error::{ClientError, ClientErrorView};
use crate::events::{
    regions_view, FrameRegion, FrameRegionView, RdpOutputEvent, RdpOutputEventView,
};
use crate::gpu::{has_row_length, write_of};
use crate::image::{
    a_region_is_copied_pixel_by_pixel, a_region_lies_in_an_image_up_to_its_last_pixel, copy_region,
    image_bytes, image_width, region_bytes, region_bytes_are_the_pixels, Region,
};
use crate::stage::{outputs_view, reply_view, StageOutput, StageOutputView, StageReplyView};
use ironrdp::session::image::DecodedImage;
use vstd::prelude::*;

verus! {

/// What is to be done, in the order of the list.
#[derive(Debug)]
pub enum SessionAction {
    /// Send this to the server; a failure ends the session.
    Send(Vec<u8>),
    /// Send this to the server; a failure is of no account.
    TrySend(Vec<u8>),
    /// Tell the window.
    Notify(RdpOutputEvent),
    /// End the session.
    Stop,
}

/// The contents of a [`SessionAction`].
pub enum SessionActionView {
    Send(Seq<u8>),
    TrySend(Seq<u8>),
    Notify(RdpOutputEventView),
    Stop,
}

impl View for SessionAction {
    type V = SessionActionView;

    open spec fn view(&self) -> SessionActionView {
        match *self {
            SessionAction::Send(frame) => SessionActionView::Send(frame@),
            SessionAction::TrySend(frame) => SessionActionView::TrySend(frame@),
            SessionAction::Notify(event) => SessionActionView::Notify(event@),
            SessionAction::Stop => SessionActionView::Stop,
        }
    }
}

/// The contents of a list of actions.
pub open spec fn actions_view(actions: Seq<SessionAction>) -> Seq<SessionActionView> {
    actions.map_values(|action: SessionAction| action@)
}

/// How many outputs come before the end of the session, or all of them if it goes on.
pub open spec fn before_termination(outputs: Seq<StageOutputView>) -> nat
    decreases outputs.len(),
{
    if outputs.len() == 0 || outputs[0] is Terminate {
        0
    } else {
        1 + before_termination(outputs.drop_first())
    }
}

/// The frames among the outputs.
pub open spec fn frames_of(outputs: Seq<StageOutputView>) -> Seq<Seq<u8>>
    decreases outputs.len(),
{
    if outputs.len() == 0 {
        Seq::empty()
    } else {
        let earlier = frames_of(outputs.drop_last());
        match outputs.last() {
            StageOutputView::ResponseFrame(frame) => earlier.push(frame),
            _ => earlier,
        }
    }
}

/// The frames among the outputs, each to be sent.
pub open spec fn sends_of(outputs: Seq<StageOutputView>) -> Seq<SessionActionView> {
    frames_of(outputs).map_values(|frame: Seq<u8>| SessionActionView::Send(frame))
}

/// The frames among the outputs, each to be sent if possible.
pub open spec fn try_sends_of(outputs: Seq<StageOutputView>) -> Seq<SessionActionView> {
    frames_of(outputs).map_values(|frame: Seq<u8>| SessionActionView::TrySend(frame))
}

/// A region of an image with its pixels.
pub open spec fn frame_region_of(image: DecodedImage, region: Region) -> FrameRegionView {
    (
        region.left as u32,
        region.top as u32,
        region.columns() as u32,
        region.rows() as u32,
        region_bytes(image, region),
    )
}

/// The updated regions among the outputs, with their pixels.
pub open spec fn regions_of(image: DecodedImage, outputs: Seq<StageOutputView>) -> Seq<
    FrameRegionView,
>
    decreases outputs.len(),
{
    if outputs.len() == 0 {
        Seq::empty()
    } else {
        let earlier = regions_of(image, outputs.drop_last());
        match outputs.last() {
            StageOutputView::GraphicsUpdate(region) => earlier.push(frame_region_of(image, region)),
            _ => earlier,
        }
    }
}

/// Every region that is updated before the end of the session lies in the image.
pub open spec fn regions_fit(image: DecodedImage, outputs: Seq<StageOutputView>) -> bool {
    forall|i: int|
        0 <= i < before_termination(outputs) ==> (#[trigger] outputs[i] matches
            StageOutputView::GraphicsUpdate(region) ==> region.lies_in(image))
}

/// What is done with the outputs: the frames are sent in their order; then, if the session is
/// over, the window is told why and the session stops; if it goes on and regions were updated,
/// the window gets them all at once.
pub open spec fn planned(image: DecodedImage, outputs: Seq<StageOutputView>) -> Seq<
    SessionActionView,
> {
    let count = before_termination(outputs) as int;
    let handled = outputs.take(count);
    let regions = regions_of(image, handled);
    if count < outputs.len() {
        sends_of(handled) + seq![
            SessionActionView::Notify(
                RdpOutputEventView::Terminated(Ok(outputs[count]->Terminate_0)),
            ),
            SessionActionView::Stop,
        ]
    } else if regions.len() > 0 {
        sends_of(handled).push(
            SessionActionView::Notify(RdpOutputEventView::FrameUpdate { regions }),
        )
    } else {
        sends_of(handled)
    }
}

/// Outputs of which the first `count` do not end the session: the count of those before the end
/// goes on from there.
proof fn lemma_before_termination(outputs: Seq<StageOutputView>, count: int)
    requires
        0 <= count <= outputs.len(),
        forall|i: int| 0 <= i < count ==> !(#[trigger] outputs[i] is Terminate),
    ensures
        before_termination(outputs) == count + before_termination(outputs.skip(count)),
        before_termination(outputs) <= outputs.len(),
        count < outputs.len() && outputs[count] is Terminate ==> before_termination(outputs)
            == count,
        count == outputs.len() ==> before_termination(outputs) == count,
    decreases outputs.len(),
{
    if outputs.len() == 0 {
        assert(outputs.skip(count) =~= outputs);
    } else if count == 0 {
        assert(outputs.skip(0) =~= outputs);
        lemma_before_termination(outputs.drop_first(), 0);
    } else {
        let rest = outputs.drop_first();
        assert(!(outputs[0] is Terminate));
        assert forall|i: int| 0 <= i < count - 1 implies !(#[trigger] rest[i] is Terminate) by {
            assert(rest[i] == outputs[i + 1]);
        }
        lemma_before_termination(rest, count - 1);
        assert(rest.skip(count - 1) =~= outputs.skip(count));
    }
}

/// Whether every region that is updated before the end of the session lies in the image.
pub fn outputs_fit(image: &DecodedImage, outputs: &Vec<StageOutput>) -> (fit: bool)
    ensures
        fit == regions_fit(*image, outputs_view(outputs@)),
{
    let ghost all = outputs_view(outputs@);
    let mut i: usize = 0;
    while i < outputs.len()
        invariant
            i <= outputs.len(),
            all == outputs_view(outputs@),
            forall|j: int| 0 <= j < i ==> !(#[trigger] all[j] is Terminate),
            forall|j: int|
                0 <= j < i ==> (#[trigger] all[j] matches StageOutputView::GraphicsUpdate(region)
                    ==> region.lies_in(*image)),
        decreases outputs.len() - i,
    {
        assert(all[i as int] == outputs@[i as int]@);
        match &outputs[i] {
            StageOutput::GraphicsUpdate(region) => {
                if !region.fits(image) {
                    proof {
                        lemma_before_termination(all, i + 1);
                    }
                    return false;
                }
            },
            StageOutput::Terminate(_) => {
                proof {
                    lemma_before_termination(all, i as int);
                }
                return true;
            },
            _ => {},
        }
        i = i + 1;
    }
    proof {
        lemma_before_termination(all, i as int);
    }
    true
}

/// Decides what is done with the outputs of the decoder, the image being as it is after them.
pub fn plan_outputs(image: &DecodedImage, outputs: Vec<StageOutput>) -> (actions: Vec<
    SessionAction,
>)
    requires
        regions_fit(*image, outputs_view(outputs@)),
    ensures
        actions_view(actions@) == planned(*image, outputs_view(outputs@)),
{
    let ghost all = outputs_view(outputs@);
    let mut actions: Vec<SessionAction> = Vec::new();
    let mut regions: Vec<FrameRegion> = Vec::new();
    assert(all.take(0) =~= Seq::empty());
    assert(actions_view(actions@) =~= sends_of(all.take(0)));
    assert(regions_view(regions@) =~= regions_of(*image, all.take(0)));
    for output in iter: outputs
        invariant
            all == outputs_view(iter.seq()),
            regions_fit(*image, all),
            forall|j: int| 0 <= j < iter.index() ==> !(#[trigger] all[j] is Terminate),
            actions_view(actions@) == sends_of(all.take(iter.index())),
            regions_view(regions@) == regions_of(*image, all.take(iter.index())),
    {
        let ghost i = iter.index();
        let ghost updated = regions_view(regions@);
        proof {
            assert(all[i] == output@);
            assert(all.take(i + 1).drop_last() =~= all.take(i));
            assert(all.take(i + 1).last() == output@);
        }
        match output {
            StageOutput::ResponseFrame(frame) => {
                let ghost sent = actions_view(actions@);
                actions.push(SessionAction::Send(frame));
                assert(actions_view(actions@) =~= sent.push(SessionActionView::Send(frame@)));
                assert(sends_of(all.take(i + 1)) =~= sent.push(SessionActionView::Send(frame@)));
            },
            StageOutput::GraphicsUpdate(region) => {
                proof {
                    lemma_before_termination(all, i + 1);
                }
                let data = copy_region(image, &region);
                let copied = (
                    region.left as u32,
                    region.top as u32,
                    region.width() as u32,
                    region.height() as u32,
                    data,
                );
                regions.push(copied);
                assert(regions_view(regions@) =~= updated.push(frame_region_of(*image, region)));
            },
            StageOutput::Terminate(reason) => {
                proof {
                    lemma_before_termination(all, i);
                }
                actions.push(SessionAction::Notify(RdpOutputEvent::Terminated(Ok(reason))));
                actions.push(SessionAction::Stop);
                assert(actions_view(actions@) =~= planned(*image, all));
                return actions;
            },
            StageOutput::Other => {},
        }
    }
    proof {
        lemma_before_termination(all, all.len() as int);
        assert(all.take(all.len() as int) =~= all);
    }
    if regions.len() > 0 {
        actions.push(SessionAction::Notify(RdpOutputEvent::FrameUpdate { regions }));
        assert(actions_view(actions@) =~= planned(*image, all));
    }
    actions
}

/// The contents of what comes of a step of the session: the actions, or the error that ends it.
pub type StepView = Result<Seq<SessionActionView>, ClientErrorView>;

/// The contents of what comes of a step.
pub open spec fn step_view(outcome: Result<Vec<SessionAction>, ClientError>) -> StepView {
    match outcome {
        Ok(actions) => Ok(actions_view(actions@)),
        Err(error) => Err(error@),
    }
}

/// What comes of a reply of the decoder, the image being as it is after it: its outputs are
/// handled, unless one of them updates pixels that the image does not have.
pub open spec fn settled(image: DecodedImage, reply: StageReplyView) -> StepView {
    match reply {
        Ok(outputs) => if regions_fit(image, outputs) {
            Ok(planned(image, outputs))
        } else {
            Err(ClientErrorView::RegionOutsideImage)
        },
        Err(detail) => Err(ClientErrorView::Stage(detail)),
    }
}

/// Handles a reply of the decoder, the image being as it is after it.
pub fn handle_reply(image: &DecodedImage, reply: Result<Vec<StageOutput>, String>) -> (outcome:
    Result<Vec<SessionAction>, ClientError>)
    ensures
        step_view(outcome) == settled(*image, reply_view(reply)),
{
    match reply {
        Ok(outputs) => {
            if outputs_fit(image, &outputs) {
                Ok(plan_outputs(image, outputs))
            } else {
                Err(ClientError::RegionOutsideImage)
            }
        },
        Err(detail) => Err(ClientError::Stage(detail)),
    }
}

/// A frame alone is sent.
pub(crate) proof fn lemma_one_frame(outputs: Seq<StageOutputView>)
    requires
        outputs.len() == 1,
        outputs[0] is ResponseFrame,
    ensures
        frames_of(outputs) == seq![outputs[0]->ResponseFrame_0],
{
    assert(frames_of(outputs.drop_last()) =~= Seq::empty());
    assert(frames_of(outputs) =~= seq![outputs[0]->ResponseFrame_0]);
}

/// The actions that send the frames among the outputs; the other outputs are passed over.
pub fn send_frames(outputs: Vec<StageOutput>) -> (actions: Vec<SessionAction>)
    ensures
        actions_view(actions@) == sends_of(outputs_view(outputs@)),
{
    let ghost all = outputs_view(outputs@);
    let mut actions: Vec<SessionAction> = Vec::new();
    assert(actions_view(actions@) =~= sends_of(all.take(0)));
    for output in iter: outputs
        invariant
            all == outputs_view(iter.seq()),
            actions_view(actions@) == sends_of(all.take(iter.index())),
    {
        let ghost i = iter.index();
        proof {
            assert(all[i] == output@);
            assert(all.take(i + 1).drop_last() =~= all.take(i));
            assert(all.take(i + 1).last() == output@);
        }
        if let StageOutput::ResponseFrame(frame) = output {
            let ghost sent = actions_view(actions@);
            actions.push(SessionAction::Send(frame));
            assert(actions_view(actions@) =~= sent.push(SessionActionView::Send(frame@)));
            assert(sends_of(all.take(i + 1)) =~= sent.push(SessionActionView::Send(frame@)));
        }
    }
    assert(all.take(all.len() as int) =~= all);
    actions
}

/// The actions that send the frames among the outputs if possible; the other outputs are passed
/// over.
pub fn try_send_frames(outputs: Vec<StageOutput>) -> (actions: Vec<SessionAction>)
    ensures
        actions_view(actions@) == try_sends_of(outputs_view(outputs@)),
{
    let ghost all = outputs_view(outputs@);
    let mut actions: Vec<SessionAction> = Vec::new();
    assert(actions_view(actions@) =~= try_sends_of(all.take(0)));
    for output in iter: outputs
        invariant
            all == outputs_view(iter.seq()),
            actions_view(actions@) == try_sends_of(all.take(iter.index())),
    {
        let ghost i = iter.index();
        proof {
            assert(all[i] == output@);
            assert(all.take(i + 1).drop_last() =~= all.take(i));
            assert(all.take(i + 1).last() == output@);
        }
        if let StageOutput::ResponseFrame(frame) = output {
            let ghost sent = actions_view(actions@);
            actions.push(SessionAction::TrySend(frame));
            assert(actions_view(actions@) =~= sent.push(SessionActionView::TrySend(frame@)));
            assert(try_sends_of(all.take(i + 1)) =~= sent.push(
                SessionActionView::TrySend(frame@),
            ));
        }
    }
    assert(all.take(all.len() as int) =~= all);
    actions
}

/// What is done when the window closes: the request to end the session is sent if it could be
/// made, the window is told, and the session stops.
pub open spec fn planned_shutdown(reply: StageReplyView) -> Seq<SessionActionView> {
    let requests: Seq<SessionActionView> = match reply {
        Ok(outputs) => try_sends_of(outputs),
        Err(_) => Seq::empty(),
    };
    requests + seq![
        SessionActionView::Notify(RdpOutputEventView::Terminated(Ok("Graceful shutdown"@))),
        SessionActionView::Stop,
    ]
}

/// Decides what is done when the window closes, given the reply of the decoder.
pub fn plan_shutdown(reply: Result<Vec<StageOutput>, String>) -> (actions: Vec<SessionAction>)
    ensures
        actions_view(actions@) == planned_shutdown(reply_view(reply)),
{
    let ghost replied = reply_view(reply);
    let mut actions: Vec<SessionAction> = match reply {
        Ok(outputs) => try_send_frames(outputs),
        Err(_) => Vec::new(),
    };
    actions.push(
        SessionAction::Notify(RdpOutputEvent::Terminated(Ok("Graceful shutdown".to_owned()))),
    );
    actions.push(SessionAction::Stop);
    assert(actions_view(actions@) =~= planned_shutdown(replied));
    actions
}

/// Closing the window ends the session whatever the decoder replies: stopping is the last thing
/// done, the window is told just before it, and no send can fail on the way.
pub proof fn closing_always_ends_the_session(reply: StageReplyView)
    ensures
        ({
            let actions = planned_shutdown(reply);
            &&& actions.len() >= 2
            &&& actions.last() == SessionActionView::Stop
            &&& actions[actions.len() - 2] == SessionActionView::Notify(
                RdpOutputEventView::Terminated(Ok("Graceful shutdown"@)),
            )
            &&& forall|i: int| 0 <= i < actions.len() ==> !(#[trigger] actions[i] is Send)
        }),
{
    if reply is Ok {
        let tries = try_sends_of(reply->Ok_0);
        let actions = planned_shutdown(reply);
        assert forall|i: int| 0 <= i < tries.len() implies !(#[trigger] actions[i] is Send) by {
            assert(actions[i] == tries[i]);
        }
    }
}

/// Whether some output ends the session.
pub open spec fn ends(outputs: Seq<StageOutputView>) -> bool {
    exists|i: int| 0 <= i < outputs.len() && #[trigger] outputs[i] is Terminate
}

/// Whether some output updates the image.
pub open spec fn updates(outputs: Seq<StageOutputView>) -> bool {
    exists|i: int| 0 <= i < outputs.len() && #[trigger] outputs[i] is GraphicsUpdate
}

/// Whether an action hands updated regions to the window.
pub open spec fn is_frame_update(action: SessionActionView) -> bool {
    action matches SessionActionView::Notify(RdpOutputEventView::FrameUpdate { .. })
}

/// The outputs before the end are none that end the session, and the one after them is.
proof fn lemma_first_end(outputs: Seq<StageOutputView>)
    ensures
        before_termination(outputs) <= outputs.len(),
        forall|i: int|
            0 <= i < before_termination(outputs) ==> !(#[trigger] outputs[i] is Terminate),
        before_termination(outputs) < outputs.len() ==> outputs[before_termination(
            outputs,
        ) as int] is Terminate,
        before_termination(outputs) < outputs.len() <==> ends(outputs),
    decreases outputs.len(),
{
    if outputs.len() > 0 && !(outputs[0] is Terminate) {
        let rest = outputs.drop_first();
        lemma_first_end(rest);
        let count = before_termination(outputs) as int;
        assert forall|i: int| 0 <= i < count implies !(#[trigger] outputs[i] is Terminate) by {
            if i > 0 {
                assert(rest[i - 1] == outputs[i]);
            }
        }
        if count < outputs.len() {
            assert(rest[count - 1] == outputs[count]);
        }
    }
}

/// There are updated regions exactly when some output updates the image.
proof fn lemma_regions_of(image: DecodedImage, outputs: Seq<StageOutputView>)
    ensures
        regions_of(image, outputs).len() > 0 <==> updates(outputs),
    decreases outputs.len(),
{
    if outputs.len() > 0 {
        let earlier = outputs.drop_last();
        lemma_regions_of(image, earlier);
        if updates(earlier) {
            let i = choose|i: int|
                0 <= i < earlier.len() && #[trigger] earlier[i] is GraphicsUpdate;
            assert(outputs[i] is GraphicsUpdate);
        }
        if updates(outputs) && !(outputs.last() is GraphicsUpdate) {
            let i = choose|i: int|
                0 <= i < outputs.len() && #[trigger] outputs[i] is GraphicsUpdate;
            assert(earlier[i] is GraphicsUpdate);
        }
    }
}

/// A message of the server updates the window at most once, whatever number of regions it updates.
/// It does so exactly when it updates some region and does not end the session, and then the
/// window gets all the regions, after everything has been sent.
pub proof fn a_message_updates_the_window_at_most_once(
    image: DecodedImage,
    outputs: Seq<StageOutputView>,
)
    ensures
        forall|i: int|
            0 <= i < planned(image, outputs).len() && #[trigger] is_frame_update(
                planned(image, outputs)[i],
            ) ==> i == planned(image, outputs).len() - 1 && planned(image, outputs)[i]
                == SessionActionView::Notify(
                RdpOutputEventView::FrameUpdate { regions: regions_of(image, outputs) },
            ),
        (exists|i: int|
            0 <= i < planned(image, outputs).len() && #[trigger] is_frame_update(
                planned(image, outputs)[i],
            )) <==> (updates(outputs) && !ends(outputs)),
{
    lemma_first_end(outputs);
    lemma_regions_of(image, outputs);
    let actions = planned(image, outputs);
    let count = before_termination(outputs) as int;
    let sends = sends_of(outputs.take(count));
    assert forall|i: int| 0 <= i < sends.len() implies !is_frame_update(#[trigger] actions[i]) by {
        assert(actions[i] == sends[i]);
    }
    if count == outputs.len() {
        assert(outputs.take(count) =~= outputs);
        if updates(outputs) {
            assert(is_frame_update(actions[actions.len() - 1]));
        }
    }
}

/// The session stops exactly when some output ends it. Then stopping is the last thing done, the
/// window is told the reason of the first such output just before it, and no later output counts.
pub proof fn the_session_stops_when_the_server_ends_it(
    image: DecodedImage,
    outputs: Seq<StageOutputView>,
    later: Seq<StageOutputView>,
)
    ensures
        planned(image, outputs).contains(SessionActionView::Stop) <==> ends(outputs),
        ends(outputs) ==> planned(image, outputs).last() == SessionActionView::Stop,
        ends(outputs) ==> planned(image, outputs)[planned(image, outputs).len() - 2]
            == SessionActionView::Notify(
            RdpOutputEventView::Terminated(
                Ok(outputs[before_termination(outputs) as int]->Terminate_0),
            ),
        ),
        ends(outputs) ==> planned(image, outputs + later) == planned(image, outputs),
{
    lemma_first_end(outputs);
    let actions = planned(image, outputs);
    let count = before_termination(outputs) as int;
    let sends = sends_of(outputs.take(count));
    if ends(outputs) {
        assert(actions[actions.len() - 1] == SessionActionView::Stop);
        let all = outputs + later;
        assert forall|i: int| 0 <= i < count implies !(#[trigger] all[i] is Terminate) by {
            assert(all[i] == outputs[i]);
        }
        assert(all[count] == outputs[count]);
        lemma_before_termination(all, count);
        assert(all.take(count) =~= outputs.take(count));
    } else {
        assert forall|i: int| 0 <= i < actions.len() implies actions[i]
            != SessionActionView::Stop by {
            if i < sends.len() {
                assert(actions[i] == sends[i]);
            }
        }
    }
}

/// The sends of a message are its frames before the end of the session, in their order, and they
/// come before everything else.
pub proof fn frames_are_sent_first_and_in_order(
    image: DecodedImage,
    outputs: Seq<StageOutputView>,
)
    ensures
        ({
            let frames = frames_of(outputs.take(before_termination(outputs) as int));
            let actions = planned(image, outputs);
            &&& frames.len() <= actions.len()
            &&& forall|i: int|
                0 <= i < frames.len() ==> #[trigger] actions[i] == SessionActionView::Send(
                    frames[i],
                )
            &&& forall|i: int|
                frames.len() <= i < actions.len() ==> !(#[trigger] actions[i] is Send)
        }),
{
    let sends = sends_of(outputs.take(before_termination(outputs) as int));
    let actions = planned(image, outputs);
    assert forall|i: int| 0 <= i < sends.len() implies #[trigger] actions[i] == sends[i] by {}
}

/// Every updated region has four bytes for each of its pixels.
proof fn lemma_regions_are_complete(image: DecodedImage, outputs: Seq<StageOutputView>, i: int)
    requires
        forall|j: int|
            0 <= j < outputs.len() ==> (#[trigger] outputs[j] matches
                StageOutputView::GraphicsUpdate(region) ==> region.lies_in(image)),
        0 <= i < regions_of(image, outputs).len(),
    ensures
        regions_of(image, outputs)[i].4.len() == regions_of(image, outputs)[i].2 * 4
            * regions_of(image, outputs)[i].3,
        0 < regions_of(image, outputs)[i].2 <= u16::MAX,
        0 < regions_of(image, outputs)[i].3 <= u16::MAX,
    decreases outputs.len(),
{
    let earlier = outputs.drop_last();
    assert forall|j: int| 0 <= j < earlier.len() implies (#[trigger] earlier[j] matches
        StageOutputView::GraphicsUpdate(region) ==> region.lies_in(image)) by {
        assert(earlier[j] == outputs[j]);
    }
    if i < regions_of(image, earlier).len() {
        lemma_regions_are_complete(image, earlier, i);
    } else {
        let last = outputs[outputs.len() - 1];
        assert(last is GraphicsUpdate);
        let region = last->GraphicsUpdate_0;
        region_bytes_are_the_pixels(image, region);
        assert(region.rows() * (region.columns() * 4) == region.columns() * 4 * region.rows())
            by (nonlinear_arith);
    }
}

/// Every region that the window gets fills its write to the desktop texture: the write takes as
/// many bytes as the region has, and their number can be counted.
pub proof fn updated_regions_fill_their_writes(
    image: DecodedImage,
    outputs: Seq<StageOutputView>,
    regions: Seq<FrameRegionView>,
    i: int,
)
    requires
        regions_fit(image, outputs),
        planned(image, outputs).contains(
            SessionActionView::Notify(RdpOutputEventView::FrameUpdate { regions }),
        ),
        0 <= i < regions.len(),
    ensures
        ({
            let (x, y, width, height, data) = regions[i];
            let write = write_of(x, y, width, height);
            &&& has_row_length(width)
            &&& write.bytes_per_row * write.rows_per_image == data.len()
            &&& write.width == width > 0
            &&& write.height == height > 0
        }),
{
    a_message_updates_the_window_at_most_once(image, outputs);
    lemma_first_end(outputs);
    let update = SessionActionView::Notify(RdpOutputEventView::FrameUpdate { regions });
    let actions = planned(image, outputs);
    let at = choose|at: int| 0 <= at < actions.len() && actions[at] == update;
    assert(is_frame_update(actions[at]));
    assert(regions == regions_of(image, outputs));
    assert forall|j: int| 0 <= j < outputs.len() implies (#[trigger] outputs[j] matches
        StageOutputView::GraphicsUpdate(region) ==> region.lies_in(image)) by {}
    lemma_regions_are_complete(image, outputs, i);
}

/// How many of the outputs are frames.
pub open spec fn frames_among(outputs: Seq<StageOutputView>) -> nat {
    outputs.filter(|output: StageOutputView| output is ResponseFrame).len()
}

/// How many of the outputs update a region.
pub open spec fn updates_among(outputs: Seq<StageOutputView>) -> nat {
    outputs.filter(|output: StageOutputView| output is GraphicsUpdate).len()
}

/// The frames are collected in their order: as many come before one as there are before it.
proof fn lemma_frame_places(outputs: Seq<StageOutputView>)
    ensures
        frames_of(outputs).len() == frames_among(outputs),
        forall|i: int|
            0 <= i < outputs.len() && #[trigger] outputs[i] is ResponseFrame ==> frames_among(
                outputs.take(i),
            ) < frames_among(outputs) && frames_of(outputs)[frames_among(outputs.take(i)) as int]
                == outputs[i]->ResponseFrame_0,
    decreases outputs.len(),
{
    reveal(Seq::filter);
    if outputs.len() > 0 {
        let earlier = outputs.drop_last();
        lemma_frame_places(earlier);
        assert forall|i: int|
            0 <= i < outputs.len() && #[trigger] outputs[i] is ResponseFrame implies frames_among(
            outputs.take(i),
        ) < frames_among(outputs) && frames_of(outputs)[frames_among(outputs.take(i)) as int]
            == outputs[i]->ResponseFrame_0 by {
            if i < earlier.len() {
                assert(earlier[i] == outputs[i]);
                assert(earlier.take(i) =~= outputs.take(i));
            } else {
                assert(outputs.take(i) =~= earlier);
            }
        }
    }
}

/// The updated regions are collected in their order: as many come before one as there are before
/// it.
proof fn lemma_update_places(image: DecodedImage, outputs: Seq<StageOutputView>)
    ensures
        regions_of(image, outputs).len() == updates_among(outputs),
        forall|i: int|
            0 <= i < outputs.len() && #[trigger] outputs[i] is GraphicsUpdate ==> updates_among(
                outputs.take(i),
            ) < updates_among(outputs) && regions_of(image, outputs)[updates_among(
                outputs.take(i),
            ) as int] == frame_region_of(image, outputs[i]->GraphicsUpdate_0),
    decreases outputs.len(),
{
    reveal(Seq::filter);
    if outputs.len() > 0 {
        let earlier = outputs.drop_last();
        lemma_update_places(image, earlier);
        assert forall|i: int|
            0 <= i < outputs.len() && #[trigger] outputs[i] is GraphicsUpdate implies updates_among(
            outputs.take(i),
        ) < updates_among(outputs) && regions_of(image, outputs)[updates_among(
            outputs.take(i),
        ) as int] == frame_region_of(image, outputs[i]->GraphicsUpdate_0) by {
            if i < earlier.len() {
                assert(earlier[i] == outputs[i]);
                assert(earlier.take(i) =~= outputs.take(i));
            } else {
                assert(outputs.take(i) =~= earlier);
            }
        }
    }
}

/// Every frame that comes before the end of the session is sent, after exactly those that come
/// before it.
pub proof fn every_frame_is_sent_in_its_turn(
    image: DecodedImage,
    outputs: Seq<StageOutputView>,
    i: int,
)
    requires
        0 <= i < outputs.len(),
        outputs[i] is ResponseFrame,
        forall|j: int| 0 <= j < i ==> !(#[trigger] outputs[j] is Terminate),
    ensures
        frames_among(outputs.take(i)) < planned(image, outputs).len(),
        planned(image, outputs)[frames_among(outputs.take(i)) as int] == SessionActionView::Send(
            outputs[i]->ResponseFrame_0,
        ),
{
    lemma_before_termination(outputs, i + 1);
    let count = before_termination(outputs) as int;
    let handled = outputs.take(count);
    assert(handled[i] == outputs[i]);
    assert(handled.take(i) =~= outputs.take(i));
    lemma_frame_places(handled);
    let at = frames_among(outputs.take(i)) as int;
    assert(sends_of(handled)[at] == SessionActionView::Send(outputs[i]->ResponseFrame_0));
    assert(planned(image, outputs)[at] == sends_of(handled)[at]);
}

/// The first output that ends the session does: the frames before it are sent, the window is told
/// its reason, the session stops, and nothing else is done.
pub proof fn the_first_end_is_the_end(
    image: DecodedImage,
    outputs: Seq<StageOutputView>,
    first: int,
)
    requires
        0 <= first < outputs.len(),
        outputs[first] is Terminate,
        forall|j: int| 0 <= j < first ==> !(#[trigger] outputs[j] is Terminate),
    ensures
        ({
            let actions = planned(image, outputs);
            let sent = frames_among(outputs.take(first)) as int;
            &&& actions.len() == sent + 2
            &&& actions[sent] == SessionActionView::Notify(
                RdpOutputEventView::Terminated(Ok(outputs[first]->Terminate_0)),
            )
            &&& actions[sent + 1] == SessionActionView::Stop
        }),
{
    lemma_before_termination(outputs, first);
    lemma_frame_places(outputs.take(first));
}

/// Without an end the frames are sent, and then the window gets one update if there is a region to
/// be updated, and nothing else is done.
pub proof fn a_message_without_an_end_is_sent_and_painted(
    image: DecodedImage,
    outputs: Seq<StageOutputView>,
)
    requires
        forall|j: int| 0 <= j < outputs.len() ==> !(#[trigger] outputs[j] is Terminate),
    ensures
        ({
            let actions = planned(image, outputs);
            let sent = frames_among(outputs) as int;
            &&& updates_among(outputs) == 0 ==> actions.len() == sent
            &&& updates_among(outputs) > 0 ==> actions.len() == sent + 1 && actions[sent] is Notify
                && actions[sent]->Notify_0 is FrameUpdate
                && actions[sent]->Notify_0->regions.len() == updates_among(outputs)
        }),
{
    lemma_before_termination(outputs, outputs.len() as int);
    assert(outputs.take(outputs.len() as int) =~= outputs);
    lemma_frame_places(outputs);
    lemma_update_places(image, outputs);
}

/// Every updated rectangle is handed to the window with its left and top edge, its width and its
/// height, after exactly those that are updated before it, and its bytes are those of the image:
/// byte `column` of its row `row` is the one in row `top + row` of the image, `column` bytes right
/// of its left edge.
pub proof fn every_updated_rectangle_is_handed_on(
    image: DecodedImage,
    outputs: Seq<StageOutputView>,
    i: int,
)
    requires
        regions_fit(image, outputs),
        forall|j: int| 0 <= j < outputs.len() ==> !(#[trigger] outputs[j] is Terminate),
        0 <= i < outputs.len(),
        outputs[i] is GraphicsUpdate,
    ensures
        planned(image, outputs).len() > 0,
        planned(image, outputs).last() is Notify,
        planned(image, outputs).last()->Notify_0 is FrameUpdate,
        ({
            let regions = planned(image, outputs).last()->Notify_0->regions;
            let at = updates_among(outputs.take(i)) as int;
            let rectangle = outputs[i]->GraphicsUpdate_0;
            let (x, y, width, height, data) = regions[at];
            &&& at < regions.len()
            &&& x == rectangle.left
            &&& y == rectangle.top
            &&& width == rectangle.right - rectangle.left + 1
            &&& height == rectangle.bottom - rectangle.top + 1
            &&& data.len() == width * 4 * height
            &&& forall|row: int, column: int|
                0 <= row < height && 0 <= column < width * 4 ==> #[trigger] data[row * (width * 4)
                    + column] == image_bytes(image)[(y + row) * (4 * image_width(image)) + x * 4
                    + column]
        }),
{
    lemma_before_termination(outputs, outputs.len() as int);
    assert(outputs.take(outputs.len() as int) =~= outputs);
    lemma_update_places(image, outputs);
    let rectangle = outputs[i]->GraphicsUpdate_0;
    assert(rectangle.lies_in(image));
    a_region_is_copied_pixel_by_pixel(image, rectangle);
}

/// A reply that is an error is passed on with its text. Another is refused exactly when it updates,
/// before the end of the session, a rectangle that is empty, too large or not in the image, and is
/// otherwise handled.
pub proof fn a_reply_is_refused_for_a_region_outside_the_image(
    image: DecodedImage,
    reply: StageReplyView,
)
    ensures
        reply is Err ==> settled(image, reply) == StepView::Err(
            ClientErrorView::Stage(reply->Err_0),
        ),
        reply is Ok ==> (settled(image, reply) is Err <==> exists|i: int|
            0 <= i < reply->Ok_0.len() && (#[trigger] reply->Ok_0[i] matches
                StageOutputView::GraphicsUpdate(r) && !(r.left <= r.right && r.top <= r.bottom
                && r.right - r.left < 0xFFFF && r.bottom - r.top < 0xFFFF && 4 * (r.bottom
                * image_width(image) + r.right + 1) <= image_bytes(image).len())) && forall|j: int|
                0 <= j < i ==> !(#[trigger] reply->Ok_0[j] is Terminate)),
        reply is Ok && settled(image, reply) is Err ==> settled(image, reply)->Err_0
            is RegionOutsideImage,
        reply is Ok && settled(image, reply) is Ok ==> settled(image, reply)->Ok_0 == planned(
            image,
            reply->Ok_0,
        ),
{
    if let Ok(outputs) = reply {
        lemma_first_end(outputs);
        let count = before_termination(outputs) as int;
        assert forall|i: int|
            0 <= i < outputs.len() && #[trigger] outputs[i] is GraphicsUpdate implies (
        outputs[i]->GraphicsUpdate_0.lies_in(image) <==> ({
            let r = outputs[i]->GraphicsUpdate_0;
            r.left <= r.right && r.top <= r.bottom && r.right - r.left < 0xFFFF && r.bottom - r.top
                < 0xFFFF && 4 * (r.bottom * image_width(image) + r.right + 1) <= image_bytes(
                image,
            ).len()
        })) by {
            a_region_lies_in_an_image_up_to_its_last_pixel(image, outputs[i]->GraphicsUpdate_0);
        }
        if !regions_fit(image, outputs) {
            let i = choose|i: int|
                0 <= i < count && !(#[trigger] outputs[i] matches StageOutputView::GraphicsUpdate(
                    region,
                ) ==> region.lies_in(image));
            assert(outputs[i] is GraphicsUpdate);
        } else {
            assert forall|i: int| 0 <= i < outputs.len() && (forall|j: int|
                0 <= j < i ==> !(#[trigger] outputs[j] is Terminate)) && #[trigger] outputs[i]
                is GraphicsUpdate implies outputs[i]->GraphicsUpdate_0.lies_in(image) by {
                lemma_before_termination(outputs, i + 1);
            }
        }
    }
}

/// Each frame among outputs is sent, after exactly those before it, and nothing else; and so it is
/// where it is only tried.
pub proof fn frames_alone_are_sent(outputs: Seq<StageOutputView>, i: int)
    ensures
        sends_of(outputs).len() == frames_among(outputs),
        try_sends_of(outputs).len() == frames_among(outputs),
        0 <= i < outputs.len() && outputs[i] is ResponseFrame ==> frames_among(outputs.take(i))
            < frames_among(outputs) && sends_of(outputs)[frames_among(outputs.take(i)) as int]
            == SessionActionView::Send(outputs[i]->ResponseFrame_0) && try_sends_of(
            outputs,
        )[frames_among(outputs.take(i)) as int] == SessionActionView::TrySend(
            outputs[i]->ResponseFrame_0,
        ),
{
    lemma_frame_places(outputs);
}

/// On closing, each frame of the request is tried to be sent, after exactly those before it; then
/// the window is told and the session stops, and nothing else is done.
pub proof fn closing_tries_every_frame_of_the_request(reply: StageReplyView, i: int)
    ensures
        reply is Err ==> planned_shutdown(reply).len() == 2,
        reply is Ok ==> planned_shutdown(reply).len() == frames_among(reply->Ok_0) + 2,
        reply is Ok && 0 <= i < reply->Ok_0.len() && reply->Ok_0[i] is ResponseFrame
            ==> planned_shutdown(reply)[frames_among(reply->Ok_0.take(i)) as int]
            == SessionActionView::TrySend(reply->Ok_0[i]->ResponseFrame_0),
{
    if reply is Ok {
        frames_alone_are_sent(reply->Ok_0, i);
    }
}

/// The view of actions holds what the actions hold, in their order.
pub proof fn action_views_are_faithful(actions: Seq<SessionAction>, i: int)
    requires
        0 <= i < actions.len(),
    ensures
        actions_view(actions).len() == actions.len(),
        actions[i] is Send ==> actions_view(actions)[i] is Send && actions_view(actions)[i]->Send_0
            == actions[i]->Send_0@,
        actions[i] is TrySend ==> actions_view(actions)[i] is TrySend && actions_view(
            actions,
        )[i]->TrySend_0 == actions[i]->TrySend_0@,
        actions[i] is Notify ==> actions_view(actions)[i] is Notify && actions_view(
            actions,
        )[i]->Notify_0 == actions[i]->Notify_0@,
        actions[i] is Stop <==> actions_view(actions)[i] is Stop,
{
}

/// The view of a step holds the actions of the step or its error.
pub proof fn step_views_are_faithful(outcome: Result<Vec<SessionAction>, ClientError>)
    ensures
        outcome is Ok <==> step_view(outcome) is Ok,
        outcome is Ok ==> step_view(outcome)->Ok_0 == actions_view(outcome->Ok_0@),
        outcome is Err ==> step_view(outcome)->Err_0 == outcome->Err_0@,
{
}

} // verus!
