//! The protocol state of a running session, which the session decoder keeps.
use crate::config::DesktopSize;
use crate::image::{image_bytes, image_format, image_width, Region};
use crate::input::{input_events, InputState, Operation};
use ironrdp::connector::ConnectionResult;
use ironrdp::pdu::input::fast_path::FastPathInputEvent;
use ironrdp::pdu::Action;
use ironrdp::session::image::DecodedImage;
use ironrdp::session::{ActiveStage, ActiveStageOutput};
use vstd::prelude::*;

verus! {

/// `ironrdp::session::ActiveStage`: the state of the protocol and of its decoders.
#[verifier::external_type_specification]
#[verifier::external_body]
pub struct ExActiveStage(ActiveStage);

/// `ironrdp::connector::ConnectionResult`: what was agreed on while connecting.
#[verifier::external_type_specification]
#[verifier::external_body]
pub struct ExConnectionResult(ConnectionResult);

/// The two framings of a message of the server.
#[derive(Debug, Clone, Copy, PartialEq, Eq, Structural)]
pub enum PduAction {
    FastPath,
    X224,
}

/// What the session decoder asks for.
#[derive(Debug)]
pub enum StageOutput {
    /// Send this to the server.
    ResponseFrame(Vec<u8>),
    /// These pixels of the image have changed.
    GraphicsUpdate(Region),
    /// The server has ended the session, for this reason.
    Terminate(String),
    /// Something that this client has no use for.
    Other,
}

/// The contents of a [`StageOutput`].
pub enum StageOutputView {
    ResponseFrame(Seq<u8>),
    GraphicsUpdate(Region),
    Terminate(Seq<char>),
    Other,
}

impl View for StageOutput {
    type V = StageOutputView;

    open spec fn view(&self) -> StageOutputView {
        match *self {
            StageOutput::ResponseFrame(frame) => StageOutputView::ResponseFrame(frame@),
            StageOutput::GraphicsUpdate(region) => StageOutputView::GraphicsUpdate(region),
            StageOutput::Terminate(reason) => StageOutputView::Terminate(reason@),
            StageOutput::Other => StageOutputView::Other,
        }
    }
}

/// The contents of a list of outputs.
pub open spec fn outputs_view(outputs: Seq<StageOutput>) -> Seq<StageOutputView> {
    outputs.map_values(|output: StageOutput| output@)
}

/// The contents of a reply of the decoder: the outputs, or the text of an error.
pub type StageReplyView = Result<Seq<StageOutputView>, Seq<char>>;

/// The contents of a reply of the decoder.
pub open spec fn reply_view(reply: Result<Vec<StageOutput>, String>) -> StageReplyView {
    match reply {
        Ok(outputs) => Ok(outputs_view(outputs@)),
        Err(detail) => Err(detail@),
    }
}

/// Whether the decoder, in the state `stage` and with the image `image`, may reply in this way to a
/// message, and be in the state `stage_after` with the image `image_after` thereafter.
pub uninterp spec fn stage_may_reply(
    stage: ActiveStage,
    image: DecodedImage,
    action: PduAction,
    payload: Seq<u8>,
    stage_after: ActiveStage,
    image_after: DecodedImage,
    reply: StageReplyView,
) -> bool;

/// Whether the decoder has a reply to a message at all. On some malformed messages, such as a
/// bitmap with more rows than its rectangle has, it panics instead.
pub open spec fn stage_returns(
    stage: ActiveStage,
    image: DecodedImage,
    action: PduAction,
    payload: Seq<u8>,
) -> bool {
    exists|stage_after: ActiveStage, image_after: DecodedImage, reply: StageReplyView|
        #[trigger] stage_may_reply(
            stage,
            image,
            action,
            payload,
            stage_after,
            image_after,
            reply,
        )
}

/// Whether the decoder paints the pointer into the image.
pub uninterp spec fn paints_the_pointer(stage: ActiveStage) -> bool;

/// Whether a connection is one on which the decoder paints the pointer.
pub uninterp spec fn enables_the_pointer(connection: ConnectionResult) -> bool;

/// The size of the desktop that was agreed on.
pub uninterp spec fn agreed_size(connection: ConnectionResult) -> DesktopSize;

/// Whether the decoder may be in this state at the start of a session on a connection.
pub uninterp spec fn stage_may_start(connection: ConnectionResult, stage: ActiveStage) -> bool;

/// What the decoder makes of input events: the frame to send, or the text of an error.
pub uninterp spec fn fast_path_reply(events: Seq<FastPathInputEvent>) -> Result<
    Seq<u8>,
    Seq<char>,
>;

/// What the decoder, in this state, replies when asked to end the session.
pub uninterp spec fn shutdown_reply(stage: ActiveStage) -> StageReplyView;

/// `ConnectionResult::enable_server_pointer`.
#[verifier::external_body]
pub(crate) fn pointer_of(connection: &ConnectionResult) -> (enabled: bool)
    ensures
        enabled == enables_the_pointer(*connection),
{
    connection.enable_server_pointer
}

/// `ConnectionResult::desktop_size`.
#[verifier::external_body]
pub(crate) fn size_of(connection: &ConnectionResult) -> (size: DesktopSize)
    ensures
        size == agreed_size(*connection),
{
    let size = connection.desktop_size;
    DesktopSize { width: size.width, height: size.height }
}

/// `ActiveStage::new`: the state at the start of a session. It takes over whether the pointer is
/// painted; the rest of it is named as it comes.
#[verifier::external_body]
pub(crate) fn new_stage(connection: ConnectionResult) -> (stage: ActiveStage)
    ensures
        stage_may_start(connection, stage),
        paints_the_pointer(stage) == enables_the_pointer(connection),
{
    ActiveStage::new(connection)
}

/// `ActiveStage::process`: decodes a message and paints what it holds. A message that cannot be
/// decoded is an error, and one on which the decoder panics is left out.
///
/// What the reply is takes the whole protocol to state: the contract ties it, and the state and the
/// image after it, to those before it by name. The image keeps its format and its size, and whether
/// the pointer is painted stays as it is.
#[verifier::external_body]
pub(crate) fn process_pdu(
    stage: &mut ActiveStage,
    image: &mut DecodedImage,
    action: PduAction,
    payload: &Vec<u8>,
) -> (reply: Result<Vec<StageOutput>, String>)
    requires
        stage_returns(*old(stage), *old(image), action, payload@),
    ensures
        stage_may_reply(
            *old(stage),
            *old(image),
            action,
            payload@,
            *final(stage),
            *final(image),
            reply_view(reply),
        ),
        paints_the_pointer(*final(stage)) == paints_the_pointer(*old(stage)),
        image_format(*final(image)) == image_format(*old(image)),
        image_width(*final(image)) == image_width(*old(image)),
        image_bytes(*final(image)).len() == image_bytes(*old(image)).len(),
{
    let action = match action {
        PduAction::FastPath => Action::FastPath,
        PduAction::X224 => Action::X224,
    };
    let outputs = stage.process(image, action, payload).map_err(|e| e.to_string())?;
    Ok(outputs.into_iter().map(|output| match output {
        ActiveStageOutput::ResponseFrame(frame) => StageOutput::ResponseFrame(frame),
        ActiveStageOutput::GraphicsUpdate(r) => StageOutput::GraphicsUpdate(
            Region { left: r.left, top: r.top, right: r.right, bottom: r.bottom },
        ),
        ActiveStageOutput::Terminate(reason) => StageOutput::Terminate(format!("{:?}", reason)),
        _ => StageOutput::Other,
    }).collect())
}

/// `ActiveStage::process_fastpath_input`: encodes input events as one frame.
///
/// No events come to nothing. Otherwise there is an error exactly when they do not fit in a frame,
/// and else the frame is the only output. Neither the state nor the image changes: the pointer must
/// not be one that the decoder paints, which it would have to move. The events have to come from
/// the input database, whose flags fit in their fields.
#[verifier::external_body]
pub(crate) fn encode_input(
    stage: &mut ActiveStage,
    image: &mut DecodedImage,
    events: &Vec<FastPathInputEvent>,
) -> (reply: Result<Vec<StageOutput>, String>)
    requires
        !paints_the_pointer(*old(stage)),
        exists|state: InputState, operations: Seq<Operation>|
            events@ == #[trigger] input_events(state, operations),
    ensures
        events@.len() == 0 ==> reply_view(reply) == StageReplyView::Ok(Seq::empty()),
        events@.len() > 0 ==> match fast_path_reply(events@) {
            Ok(frame) => reply matches Ok(outputs) && outputs@.len() == 1 && outputs@[0]@
                == StageOutputView::ResponseFrame(frame),
            Err(detail) => reply matches Err(told) && told@ == detail,
        },
        forall|state: InputState, operations: Seq<Operation>|
            events@ == #[trigger] input_events(state, operations) && events@.len() > 0 ==> (
            reply is Ok <==> state.fits_in_a_frame(operations)),
        *final(stage) == *old(stage),
        *final(image) == *old(image),
{
    let outputs = stage.process_fastpath_input(image, events).map_err(|e| e.to_string())?;
    Ok(outputs.into_iter().map(|output| match output {
        ActiveStageOutput::ResponseFrame(frame) => StageOutput::ResponseFrame(frame),
        ActiveStageOutput::GraphicsUpdate(r) => StageOutput::GraphicsUpdate(
            Region { left: r.left, top: r.top, right: r.right, bottom: r.bottom },
        ),
        ActiveStageOutput::Terminate(reason) => StageOutput::Terminate(format!("{:?}", reason)),
        _ => StageOutput::Other,
    }).collect())
}

/// `ActiveStage::graceful_shutdown`: encodes the request to end the session, which is one frame.
///
/// The bytes of the frame depend on the channels of the session, which are part of the state, and
/// on nothing else: the reply to a state has a name.
#[verifier::external_body]
pub(crate) fn encode_shutdown(stage: &ActiveStage) -> (reply: Result<Vec<StageOutput>, String>)
    ensures
        reply_view(reply) == shutdown_reply(*stage),
        reply matches Ok(outputs) ==> outputs@.len() == 1 && outputs@[0] is ResponseFrame,
{
    let outputs = stage.graceful_shutdown().map_err(|e| e.to_string())?;
    Ok(outputs.into_iter().map(|output| match output {
        ActiveStageOutput::ResponseFrame(frame) => StageOutput::ResponseFrame(frame),
        ActiveStageOutput::GraphicsUpdate(r) => StageOutput::GraphicsUpdate(
            Region { left: r.left, top: r.top, right: r.right, bottom: r.bottom },
        ),
        ActiveStageOutput::Terminate(reason) => StageOutput::Terminate(format!("{:?}", reason)),
        _ => StageOutput::Other,
    }).collect())
}

/// The view of outputs holds what the outputs hold, in their order.
pub proof fn output_views_are_faithful(outputs: Seq<StageOutput>, i: int)
    requires
        0 <= i < outputs.len(),
    ensures
        outputs_view(outputs).len() == outputs.len(),
        outputs[i] is ResponseFrame ==> outputs_view(outputs)[i] is ResponseFrame && outputs_view(
            outputs,
        )[i]->ResponseFrame_0 == outputs[i]->ResponseFrame_0@,
        outputs[i] is GraphicsUpdate ==> outputs_view(outputs)[i] is GraphicsUpdate && outputs_view(
            outputs,
        )[i]->GraphicsUpdate_0 == outputs[i]->GraphicsUpdate_0,
        outputs[i] is Terminate ==> outputs_view(outputs)[i] is Terminate && outputs_view(
            outputs,
        )[i]->Terminate_0 == outputs[i]->Terminate_0@,
        outputs[i] is Other <==> outputs_view(outputs)[i] is Other,
{
}

/// The view of a reply holds the outputs of the reply or the text of its error.
pub proof fn reply_views_are_faithful(reply: Result<Vec<StageOutput>, String>)
    ensures
        reply is Ok <==> reply_view(reply) is Ok,
        reply is Ok ==> reply_view(reply)->Ok_0 == outputs_view(reply->Ok_0@),
        reply is Err ==> reply_view(reply)->Err_0 == reply->Err_0@,
{
}

} // verus!
