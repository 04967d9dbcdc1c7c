//! The session: what is done with a message of the server and with the input of the user.
use crate::batch::{InputBatch, InputBatchView};
use crate::config::DesktopSize;
use crate::error::{ClientError, ClientErrorView};
use crate::image::{
    can_be_allocated, has_size, image_bytes, image_format, image_width, is_allocatable, new_image,
    same_shape, PixelFormat, IMAGE_FORMAT,
};
use crate::input::{
    apply_operations, events_are_counted, input_events, input_state, new_database, InputState,
    MouseButton, Operation, Scancode,
};
use crate::plan::{
    action_views_are_faithful, actions_view, frames_of, handle_reply, lemma_one_frame,
    plan_shutdown, planned_shutdown, send_frames, sends_of, settled, step_view, SessionAction,
    SessionActionView, StepView,
};
use crate::stage::{
    agreed_size, enables_the_pointer, encode_input, encode_shutdown, fast_path_reply, new_stage,
    outputs_view, paints_the_pointer, pointer_of, process_pdu, reply_view, shutdown_reply,
    size_of, stage_may_reply, stage_may_start, stage_returns, PduAction, StageReplyView,
};
use ironrdp::connector::ConnectionResult;
use ironrdp::input::Database;
use ironrdp::session::image::DecodedImage;
use ironrdp::session::ActiveStage;
use vstd::prelude::*;

verus! {

/// What comes of reading from the server.
#[derive(Debug)]
pub enum ReadOutcome {
    /// A whole message.
    Pdu { action: PduAction, payload: Vec<u8> },
    /// Nothing has come in time.
    WouldBlock,
    /// The connection is broken.
    Failed(String),
}

/// The contents of a [`ReadOutcome`].
pub enum ReadOutcomeView {
    Pdu { action: PduAction, payload: Seq<u8> },
    WouldBlock,
    Failed(Seq<char>),
}

impl View for ReadOutcome {
    type V = ReadOutcomeView;

    open spec fn view(&self) -> ReadOutcomeView {
        match *self {
            ReadOutcome::Pdu { action, payload } => ReadOutcomeView::Pdu {
                action,
                payload: payload@,
            },
            ReadOutcome::WouldBlock => ReadOutcomeView::WouldBlock,
            ReadOutcome::Failed(detail) => ReadOutcomeView::Failed(detail@),
        }
    }
}

/// A session with a server.
pub struct Session {
    /// The protocol state.
    pub stage: ActiveStage,
    /// The desktop as the server has painted it so far.
    pub image: DecodedImage,
    /// What is down on the keyboard and the mouse.
    pub input: Database,
}

/// What comes of operations of the user in a state of the input: nothing if they tell the server
/// nothing new, and otherwise the one frame that holds their events.
pub open spec fn told(state: InputState, operations: Seq<Operation>) -> StepView {
    if state.all_silent(operations) {
        Ok(Seq::empty())
    } else {
        match fast_path_reply(input_events(state, operations)) {
            Ok(frame) => Ok(seq![SessionActionView::Send(frame)]),
            Err(detail) => Err(ClientErrorView::Input(detail)),
        }
    }
}

impl Session {
    /// The decoder leaves the pointer to the window.
    pub open spec fn well_formed(self) -> bool {
        !paints_the_pointer(self.stage)
    }

    /// Whether a session can be on a connection: the decoder leaves the pointer to the window, and
    /// there can be an image of the size that was agreed on.
    pub open spec fn is_possible(connection: ConnectionResult) -> bool {
        &&& !enables_the_pointer(connection)
        &&& is_allocatable(agreed_size(connection).width, agreed_size(connection).height)
    }

    /// Whether this is a session at its start: a black desktop of the size that was agreed on, and
    /// nothing down on the keyboard and the mouse.
    pub open spec fn starts_on(self, connection: ConnectionResult) -> bool {
        let DesktopSize { width, height } = agreed_size(connection);
        &&& stage_may_start(connection, self.stage)
        &&& image_format(self.image) == IMAGE_FORMAT
        &&& has_size(self.image, width as nat, height as nat)
        &&& forall|i: int|
            0 <= i < image_bytes(self.image).len() ==> #[trigger] image_bytes(self.image)[i] == 0
        &&& input_state(self.input) == InputState::initial()
    }

    /// Whether the session can take in what was read: a message has to be one to which the decoder
    /// has a reply.
    pub open spec fn can_read(self, read: ReadOutcomeView) -> bool {
        match read {
            ReadOutcomeView::Pdu { action, payload } => stage_returns(
                self.stage,
                self.image,
                action,
                payload,
            ),
            _ => true,
        }
    }

    /// Whether the session may become `after` by a message, and this come of it. The message goes
    /// through the decoder once, and its reply is settled with the image as it is then.
    pub open spec fn decodes(
        self,
        action: PduAction,
        payload: Seq<u8>,
        after: Session,
        step: StepView,
    ) -> bool {
        &&& exists|reply: StageReplyView|
            #[trigger] stage_may_reply(
                self.stage,
                self.image,
                action,
                payload,
                after.stage,
                after.image,
                reply,
            ) && step == settled(after.image, reply)
        &&& same_shape(self.image, after.image)
        &&& after.well_formed() == self.well_formed()
        &&& after.input == self.input
    }

    /// Whether the session may become `after` by what was read, and this come of it.
    pub open spec fn reads(self, read: ReadOutcomeView, after: Session, step: StepView) -> bool {
        match read {
            ReadOutcomeView::Pdu { action, payload } => self.decodes(action, payload, after, step),
            ReadOutcomeView::WouldBlock => after == self && step == StepView::Ok(Seq::empty()),
            ReadOutcomeView::Failed(detail) => after == self && step == StepView::Err(
                ClientErrorView::Read(detail),
            ),
        }
    }

    /// Whether the session may become `after` by input of the user, and this come of it. A close
    /// takes precedence over the operations before it, which are not sent any more.
    pub open spec fn takes_in(self, batch: InputBatchView, after: Session, step: StepView) -> bool {
        if batch.should_close {
            &&& after == self
            &&& step == StepView::Ok(planned_shutdown(shutdown_reply(self.stage)))
        } else {
            &&& after.stage == self.stage
            &&& after.image == self.image
            &&& input_state(after.input) == input_state(self.input).after_all(batch.operations)
            &&& step == told(input_state(self.input), batch.operations)
        }
    }

    /// The session on a connection.
    pub fn new(connection: ConnectionResult) -> (session: Session)
        requires
            Session::is_possible(connection),
        ensures
            session.starts_on(connection),
            session.well_formed(),
            image_width(session.image) == agreed_size(connection).width,
            image_bytes(session.image).len() == agreed_size(connection).height * (4 * agreed_size(
                connection,
            ).width),
            image_format(session.image) == PixelFormat::RgbA32,
    {
        let size = size_of(&connection);
        let image = new_image(IMAGE_FORMAT, size.width, size.height);
        assert(size.width * size.height * 4 == size.height * (4 * size.width)) by (nonlinear_arith);
        Session { stage: new_stage(connection), image, input: new_database() }
    }

    /// The session on a connection, if it can be.
    pub fn open(connection: ConnectionResult) -> (session: Option<Session>)
        ensures
            match session {
                Some(session) => Session::is_possible(connection) && session.starts_on(connection)
                    && session.well_formed(),
                None => !Session::is_possible(connection),
            },
    {
        let size = size_of(&connection);
        if !pointer_of(&connection) && can_be_allocated(size.width, size.height) {
            Some(Session::new(connection))
        } else {
            None
        }
    }

    /// Handles a message of the server.
    pub fn on_pdu(&mut self, action: PduAction, payload: &Vec<u8>) -> (outcome: Result<
        Vec<SessionAction>,
        ClientError,
    >)
        requires
            stage_returns(old(self).stage, old(self).image, action, payload@),
        ensures
            old(self).decodes(action, payload@, *final(self), step_view(outcome)),
    {
        let reply = process_pdu(&mut self.stage, &mut self.image, action, payload);
        let ghost replied = reply_view(reply);
        let outcome = handle_reply(&self.image, reply);
        proof {
            assert(stage_may_reply(
                old(self).stage,
                old(self).image,
                action,
                payload@,
                self.stage,
                self.image,
                replied,
            ));
        }
        outcome
    }

    /// Handles what came of reading from the server.
    pub fn on_read(&mut self, outcome: ReadOutcome) -> (step: Result<
        Vec<SessionAction>,
        ClientError,
    >)
        requires
            old(self).can_read(outcome@),
        ensures
            old(self).reads(outcome@, *final(self), step_view(step)),
            outcome is WouldBlock ==> *final(self) == *old(self) && step is Ok
                && step->Ok_0@.len() == 0,
            outcome matches ReadOutcome::Failed(detail) ==> *final(self) == *old(self) && step
                is Err && step->Err_0 is Read && step->Err_0->Read_0@ == detail@,
    {
        match outcome {
            ReadOutcome::Pdu { action, payload } => self.on_pdu(action, &payload),
            ReadOutcome::WouldBlock => {
                let none: Vec<SessionAction> = Vec::new();
                assert(step_view(Ok(none))->Ok_0 =~= Seq::empty());
                Ok(none)
            },
            ReadOutcome::Failed(detail) => Err(ClientError::Read(detail)),
        }
    }

    /// Passes operations of the user on to the server. If they tell it something new, the events
    /// are sent in one frame.
    pub fn on_operations(&mut self, operations: &Vec<Operation>) -> (outcome: Result<
        Vec<SessionAction>,
        ClientError,
    >)
        requires
            old(self).well_formed(),
        ensures
            final(self).stage == old(self).stage,
            final(self).image == old(self).image,
            input_state(final(self).input) == input_state(old(self).input).after_all(operations@),
            step_view(outcome) == told(input_state(old(self).input), operations@),
            input_state(old(self).input).all_silent(operations@) ==> outcome is Ok
                && outcome->Ok_0@.len() == 0,
            !input_state(old(self).input).all_silent(operations@) && outcome is Ok
                ==> fast_path_reply(
                input_events(input_state(old(self).input), operations@),
            ) is Ok && outcome->Ok_0@.len() == 1 && outcome->Ok_0@[0] is Send
                && outcome->Ok_0@[0]->Send_0@ == fast_path_reply(
                input_events(input_state(old(self).input), operations@),
            )->Ok_0,
            outcome is Err ==> outcome->Err_0 is Input && fast_path_reply(
                input_events(input_state(old(self).input), operations@),
            ) == Err::<Seq<u8>, Seq<char>>(outcome->Err_0->Input_0@),
            outcome is Ok <==> input_state(old(self).input).fits_in_a_frame(operations@),
            operations@.len() <= 7 ==> outcome is Ok,
    {
        proof {
            events_are_counted(input_state(self.input), operations@);
        }
        let none: Vec<SessionAction> = Vec::new();
        assert(step_view(Ok(none))->Ok_0 =~= Seq::empty());
        if operations.len() == 0 {
            return Ok(none);
        }
        let events = apply_operations(&mut self.input, operations);
        if events.len() == 0 {
            return Ok(none);
        }
        match encode_input(&mut self.stage, &mut self.image, &events) {
            Ok(outputs) => {
                proof {
                    lemma_one_frame(outputs_view(outputs@));
                    assert(sends_of(outputs_view(outputs@)) =~= seq![
                        SessionActionView::Send(outputs@[0]@->ResponseFrame_0),
                    ]);
                }
                let actions = send_frames(outputs);
                proof {
                    action_views_are_faithful(actions@, 0);
                    assert(actions_view(actions@)[0] == actions@[0]@);
                }
                Ok(actions)
            },
            Err(detail) => Err(ClientError::Input(detail)),
        }
    }

    /// Asks the server to end the session and ends it.
    pub fn on_close(&self) -> (actions: Vec<SessionAction>)
        ensures
            actions_view(actions@) == planned_shutdown(shutdown_reply(self.stage)),
            shutdown_reply(self.stage) matches Ok(outputs) ==> frames_of(outputs).len() == 1
                && actions@.len() == 3,
            shutdown_reply(self.stage) is Err ==> actions@.len() == 2,
    {
        let reply = encode_shutdown(&self.stage);
        proof {
            if reply is Ok {
                lemma_one_frame(outputs_view(reply->Ok_0@));
            }
        }
        let actions = plan_shutdown(reply);
        assert(actions_view(actions@).len() == actions@.len());
        actions
    }

    /// Handles the input that has come in.
    pub fn on_batch(&mut self, batch: InputBatch) -> (outcome: Result<
        Vec<SessionAction>,
        ClientError,
    >)
        requires
            old(self).well_formed(),
        ensures
            old(self).takes_in(batch@, *final(self), step_view(outcome)),
            outcome is Ok <==> batch.should_close || input_state(old(self).input).fits_in_a_frame(
                batch.operations@,
            ),
            !batch.should_close && batch.operations@.len() <= 7 ==> outcome is Ok,
    {
        if batch.should_close {
            Ok(self.on_close())
        } else {
            self.on_operations(&batch.operations)
        }
    }
}

/// At its start a session has a desktop of the size that was agreed on, four zero bytes for each
/// pixel in the order red, green, blue, alpha; no key and no button is down, and the mouse is in
/// the top left corner.
pub proof fn a_session_starts_black_and_at_rest(session: Session, connection: ConnectionResult)
    requires
        session.starts_on(connection),
    ensures
        image_format(session.image) == PixelFormat::RgbA32,
        image_width(session.image) == agreed_size(connection).width,
        image_bytes(session.image).len() == 4 * agreed_size(connection).width * agreed_size(
            connection,
        ).height,
        forall|i: int|
            0 <= i < image_bytes(session.image).len() ==> #[trigger] image_bytes(session.image)[i]
                == 0,
        stage_may_start(connection, session.stage),
        forall|key: Scancode| !input_state(session.input).keys.contains(key),
        forall|button: MouseButton| !input_state(session.input).buttons.contains(button),
        input_state(session.input).position.x == 0,
        input_state(session.input).position.y == 0,
{
    let size = agreed_size(connection);
    assert(size.height * (4 * size.width) == 4 * size.width * size.height) by (nonlinear_arith);
}

/// A session can be on a connection exactly when the pointer is left to the window and the bytes of
/// the image can be addressed.
pub proof fn a_session_needs_room_and_no_pointer(connection: ConnectionResult)
    ensures
        Session::is_possible(connection) <==> !enables_the_pointer(connection) && agreed_size(
            connection,
        ).width * agreed_size(connection).height * 4 <= isize::MAX,
{
}

/// What comes of operations: nothing exactly when each of them tells the server nothing new;
/// otherwise one frame is sent, which is the one that the events of these operations make, or the
/// error of making it is passed on.
pub proof fn operations_are_told_in_one_frame(state: InputState, operations: Seq<Operation>)
    ensures
        state.all_silent(operations) ==> told(state, operations) == StepView::Ok(Seq::empty()),
        !state.all_silent(operations) && fast_path_reply(input_events(state, operations)) is Ok
            ==> told(state, operations) is Ok && told(state, operations)->Ok_0.len() == 1 && told(
            state,
            operations,
        )->Ok_0[0] == SessionActionView::Send(
            fast_path_reply(input_events(state, operations))->Ok_0,
        ),
        !state.all_silent(operations) && fast_path_reply(input_events(state, operations)) is Err
            ==> told(state, operations) == StepView::Err(
            ClientErrorView::Input(fast_path_reply(input_events(state, operations))->Err_0),
        ),
{
}

/// A message goes through the decoder once, with the state and the image of the session; what comes
/// of it is what comes of the decoder's reply, with the image as it is then. The image keeps its
/// format and size, and the input is left alone.
pub proof fn a_message_is_decoded_once(
    before: Session,
    action: PduAction,
    payload: Seq<u8>,
    after: Session,
    step: StepView,
)
    requires
        before.reads(ReadOutcomeView::Pdu { action, payload }, after, step),
    ensures
        exists|reply: StageReplyView|
            #[trigger] stage_may_reply(
                before.stage,
                before.image,
                action,
                payload,
                after.stage,
                after.image,
                reply,
            ) && step == settled(after.image, reply),
        image_width(after.image) == image_width(before.image),
        image_bytes(after.image).len() == image_bytes(before.image).len(),
        image_format(after.image) == image_format(before.image),
        after.input == before.input,
        paints_the_pointer(after.stage) == paints_the_pointer(before.stage),
{
    assert(before.decodes(action, payload, after, step));
}

/// Reading nothing, and failing to read, leave the session as it is; the failure is passed on with
/// its text.
pub proof fn what_is_no_message_changes_nothing(
    before: Session,
    detail: Seq<char>,
    after: Session,
    step: StepView,
)
    ensures
        before.reads(ReadOutcomeView::WouldBlock, after, step) ==> after == before && step is Ok
            && step->Ok_0.len() == 0,
        before.reads(ReadOutcomeView::Failed(detail), after, step) ==> after == before && step
            == StepView::Err(ClientErrorView::Read(detail)),
{
}

/// A batch that is to close ends the session, whatever operations it holds, and leaves its state as
/// it is. Another is told in one frame and leaves the decoder and the image as they are; its
/// operations are recorded.
pub proof fn a_close_takes_precedence(
    before: Session,
    batch: InputBatchView,
    after: Session,
    step: StepView,
)
    requires
        before.takes_in(batch, after, step),
    ensures
        batch.should_close ==> after == before && step == StepView::Ok(
            planned_shutdown(shutdown_reply(before.stage)),
        ),
        !batch.should_close ==> after.stage == before.stage && after.image == before.image
            && input_state(after.input) == input_state(before.input).after_all(batch.operations)
            && step == told(input_state(before.input), batch.operations),
{
}

/// The view of what came of reading holds what was read.
pub proof fn read_views_are_faithful(read: ReadOutcome)
    ensures
        read is Pdu ==> read@ is Pdu && read@->action == read->action && read@->payload
            == read->payload@,
        read is WouldBlock <==> read@ is WouldBlock,
        read matches ReadOutcome::Failed(detail) ==> read@ == ReadOutcomeView::Failed(detail@),
{
}

} // verus!
