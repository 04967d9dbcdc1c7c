use ironrdp::connector::connection_activation::ConnectionActivationSequence;
use ironrdp::connector::{Config, ConnectionResult, Credentials};
use ironrdp::graphics::image_processing::PixelFormat;
use ironrdp::pdu::gcc::KeyboardType;
use ironrdp::pdu::rdp::capability_sets::MajorPlatformType;
use ironrdp::pdu::rdp::client_info::{PerformanceFlags, TimezoneInfo};
use rdp_client::batch::InputBatch;
use rdp_client::error::ClientError;
use rdp_client::events::{RdpInputEvent, RdpOutputEvent};
use rdp_client::image::Region;
use rdp_client::input::{MouseButton, MousePosition, Operation, Scancode, WheelRotations};
use rdp_client::plan::{
    handle_reply, outputs_fit, plan_outputs, plan_shutdown, send_frames, try_send_frames,
    SessionAction,
};
use rdp_client::session::{ReadOutcome, Session};
use rdp_client::stage::{PduAction, StageOutput};

const WIDTH: u16 = 16;
const HEIGHT: u16 = 8;

fn connection() -> ConnectionResult {
    let desktop_size = ironrdp::connector::DesktopSize { width: WIDTH, height: HEIGHT };
    let config = Config {
        desktop_size,
        desktop_scale_factor: 0,
        enable_tls: false,
        enable_credssp: true,
        credentials: Credentials::UsernamePassword {
            username: String::from("user"),
            password: String::new(),
        },
        domain: None,
        client_build: 0,
        client_name: String::new(),
        keyboard_type: KeyboardType::IbmEnhanced,
        keyboard_subtype: 0,
        keyboard_functional_keys_count: 12,
        keyboard_layout: 0x409,
        ime_file_name: String::new(),
        bitmap: None,
        dig_product_id: String::new(),
        client_dir: String::new(),
        alternate_shell: String::new(),
        work_dir: String::new(),
        platform: MajorPlatformType::UNIX,
        hardware_id: None,
        request_data: None,
        autologon: false,
        enable_audio_playback: false,
        performance_flags: PerformanceFlags::empty(),
        license_cache: None,
        timezone_info: TimezoneInfo::default(),
        compression_type: None,
        enable_server_pointer: false,
        pointer_software_rendering: true,
        multitransport_flags: None,
    };
    ConnectionResult {
        io_channel_id: 1003,
        user_channel_id: 1007,
        share_id: 66538,
        static_channels: Default::default(),
        desktop_size,
        enable_server_pointer: false,
        pointer_software_rendering: true,
        connection_activation: ConnectionActivationSequence::new(config, 1003, 1007),
        compression_type: None,
    }
}

fn session() -> Session {
    Session::open(connection()).expect("the session can be")
}

/// A bitmap update with one uncompressed rectangle.
fn bitmap_message(
    (left, top, right, bottom): (u16, u16, u16, u16),
    (width, height): (u16, u16),
    bits: u16,
    pixels: &[u8],
) -> Vec<u8> {
    let mut update: Vec<u8> = Vec::new();
    for field in [1, 1, left, top, right, bottom, width, height, bits, 0, pixels.len() as u16] {
        update.extend_from_slice(&field.to_le_bytes());
    }
    update.extend_from_slice(pixels);
    let mut message = vec![0, 0, 1];
    message.extend_from_slice(&(update.len() as u16).to_le_bytes());
    message.extend_from_slice(&update);
    message[1] = message.len() as u8;
    message
}

fn sent(actions: &[SessionAction]) -> Vec<Vec<u8>> {
    actions
        .iter()
        .map(|action| match action {
            SessionAction::Send(frame) => frame.clone(),
            other => panic!("unexpected action {other:?}"),
        })
        .collect()
}

fn frame_of(session: &mut Session, operation: Operation) -> Vec<u8> {
    let actions = session.on_operations(&vec![operation]).expect("the input is accepted");
    let mut frames = sent(&actions);
    assert_eq!(frames.len(), 1);
    frames.remove(0)
}

#[test]
fn a_new_session_has_a_black_desktop() {
    let session = session();
    assert_eq!(session.image.width(), WIDTH);
    assert_eq!(session.image.height(), HEIGHT);
    assert!(session.image.data().iter().all(|byte| *byte == 0));
    assert_eq!(session.image.data().len(), 16 * 8 * 4);
    assert_eq!(session.image.pixel_format(), PixelFormat::RgbA32);
}

#[test]
fn a_decoder_that_paints_the_pointer_is_refused() {
    let mut painting = connection();
    painting.enable_server_pointer = true;
    assert!(Session::open(painting).is_none());
}

#[test]
fn a_bitmap_is_handed_to_the_window() {
    let mut session = session();
    // Two rows of two pixels, the lower one first; blue comes first in each pixel.
    let pixels = [3, 2, 1, 0, 6, 5, 4, 0, 9, 8, 7, 0, 12, 11, 10, 0];
    let message = bitmap_message((3, 2, 4, 3), (2, 2), 32, &pixels);
    let actions = session.on_pdu(PduAction::FastPath, &message).expect("the message is valid");
    assert_eq!(actions.len(), 2);
    assert!(matches!(&actions[0], SessionAction::Send(frame) if frame.is_empty()));
    let expected: Vec<u8> = vec![7, 8, 9, 255, 10, 11, 12, 255, 1, 2, 3, 255, 4, 5, 6, 255];
    match &actions[1] {
        SessionAction::Notify(RdpOutputEvent::FrameUpdate { regions }) => {
            assert_eq!(regions, &vec![(3, 2, 2, 2, expected.clone())]);
        }
        other => panic!("unexpected action {other:?}"),
    }
    // The pixels are in the image at their place.
    let start = (2 * 16 + 3) * 4;
    assert_eq!(&session.image.data()[start..start + 8], &expected[..8]);
}

#[test]
fn a_region_outside_the_image_is_refused() {
    let mut session = session();
    // A depth that the decoder does not know: it reports the rectangle as it came.
    let message = bitmap_message((100, 100, 103, 100), (4, 1), 7, &[0; 4]);
    let outcome = session.on_pdu(PduAction::FastPath, &message);
    assert!(matches!(outcome, Err(ClientError::RegionOutsideImage)));
}

#[test]
fn a_malformed_message_is_an_error() {
    let mut session = session();
    match session.on_pdu(PduAction::FastPath, &vec![0]) {
        Err(error @ ClientError::Stage(_)) => {
            assert!(error.message().starts_with("ActiveStage-Fehler: "));
        }
        other => panic!("unexpected outcome {other:?}"),
    }
}

#[test]
fn the_server_ends_the_session() {
    let mut session = session();
    // A message on the channel 1003 that the shutdown is not up to the server alone.
    let denied = vec![
        0x03, 0x00, 0x00, 0x20, 0x02, 0xF0, 0x80, 0x68, 0x00, 0x06, 0x03, 0xEB, 0x70, 0x12, 0x12,
        0x00, 0x17, 0x00, 0xEF, 0x03, 0xEA, 0x03, 0x01, 0x00, 0x00, 0x02, 0x00, 0x00, 0x25, 0x00,
        0x00, 0x00,
    ];
    let actions = session.on_pdu(PduAction::X224, &denied).expect("the message is valid");
    assert_eq!(actions.len(), 3);
    let ultimatum = vec![0x03, 0x00, 0x00, 0x09, 0x02, 0xF0, 0x80, 0x21, 0x80];
    assert_eq!(sent(&actions[..1]), vec![ultimatum]);
    match &actions[1] {
        SessionAction::Notify(RdpOutputEvent::Terminated(Ok(reason))) => {
            assert_eq!(reason, "UserInitiated");
        }
        other => panic!("unexpected action {other:?}"),
    }
    assert!(matches!(actions[2], SessionAction::Stop));
}

#[test]
fn reading_nothing_does_nothing() {
    let mut session = session();
    let actions = session.on_read(ReadOutcome::WouldBlock).expect("this is no error");
    assert!(actions.is_empty());
}

#[test]
fn a_broken_connection_is_an_error() {
    let mut session = session();
    match session.on_read(ReadOutcome::Failed(String::from("reset"))) {
        Err(error @ ClientError::Read(_)) => assert_eq!(error.message(), "reset"),
        other => panic!("unexpected outcome {other:?}"),
    }
}

#[test]
fn a_message_that_was_read_is_handled() {
    let mut session = session();
    let payload = bitmap_message((0, 0, 0, 0), (1, 1), 32, &[3, 2, 1, 0]);
    let read = ReadOutcome::Pdu { action: PduAction::FastPath, payload };
    let actions = session.on_read(read).expect("the message is valid");
    assert_eq!(actions.len(), 2);
    match &actions[1] {
        SessionAction::Notify(RdpOutputEvent::FrameUpdate { regions }) => {
            assert_eq!(regions, &vec![(0, 0, 1, 1, vec![1, 2, 3, 255])]);
        }
        other => panic!("unexpected action {other:?}"),
    }
}

#[test]
fn a_movement_is_told_once() {
    let mut session = session();
    let movement = Operation::MouseMove(MousePosition { x: 5, y: 0x0106 });
    let frame = frame_of(&mut session, movement);
    assert_eq!(frame, vec![0x04, 0x09, 0x20, 0x00, 0x08, 0x05, 0x00, 0x06, 0x01]);
    assert!(session.on_operations(&vec![movement]).expect("this is no error").is_empty());
    let pos = session.input.mouse_position();
    assert_eq!((pos.x, pos.y), (5, 0x0106));
}

#[test]
fn keys_are_told_with_their_scancodes() {
    let mut session = session();
    let key = Scancode { extended: true, code: 0x1D };
    assert_eq!(frame_of(&mut session, Operation::KeyPressed(key)), vec![0x04, 0x04, 0x02, 0x1D]);
    // A key that is held down is released before it is pressed again.
    assert_eq!(
        frame_of(&mut session, Operation::KeyPressed(key)),
        vec![0x08, 0x06, 0x03, 0x1D, 0x02, 0x1D]
    );
    assert_eq!(frame_of(&mut session, Operation::KeyReleased(key)), vec![0x04, 0x04, 0x03, 0x1D]);
    let again = session.on_operations(&vec![Operation::KeyReleased(key)]);
    assert!(again.expect("this is no error").is_empty());
}

#[test]
fn buttons_are_told_apart_by_the_server() {
    let expected = [
        (MouseButton::Left, 0x20, 0x9000u16),
        (MouseButton::Middle, 0x20, 0xC000),
        (MouseButton::Right, 0x20, 0xA000),
        (MouseButton::X1, 0x40, 0x8001),
        (MouseButton::X2, 0x40, 0x8002),
    ];
    for (button, kind, flags) in expected {
        let mut session = session();
        let frame = frame_of(&mut session, Operation::MouseButtonPressed(button));
        let [low, high] = flags.to_le_bytes();
        assert_eq!(frame, vec![0x04, 0x09, kind, low, high, 0, 0, 0, 0]);
        let held = session.on_operations(&vec![Operation::MouseButtonPressed(button)]);
        assert!(held.expect("this is no error").is_empty());
        let [low, high] = (flags & 0x7FFF).to_le_bytes();
        let frame = frame_of(&mut session, Operation::MouseButtonReleased(button));
        assert_eq!(frame, vec![0x04, 0x09, kind, low, high, 0, 0, 0, 0]);
    }
}

#[test]
fn the_wheel_is_told_with_its_direction() {
    let mut session = session();
    let turn = |is_vertical, rotation_units| {
        Operation::WheelRotations(WheelRotations { is_vertical, rotation_units })
    };
    let up = frame_of(&mut session, turn(true, 120));
    assert_eq!(up, vec![0x04, 0x09, 0x20, 0x78, 0x02, 0, 0, 0, 0]);
    let left = frame_of(&mut session, turn(false, -1));
    assert_eq!(left, vec![0x04, 0x09, 0x20, 0xFF, 0x05, 0, 0, 0, 0]);
}

#[test]
fn a_frame_holds_a_limited_number_of_events() {
    let turn = Operation::WheelRotations(WheelRotations { is_vertical: true, rotation_units: 1 });
    let mut session = session();
    assert_eq!(session.on_operations(&vec![turn; 15]).expect("fifteen fit").len(), 1);
    match session.on_operations(&vec![turn; 256]) {
        Err(error @ ClientError::Input(_)) => {
            assert!(error.message().starts_with("Input-Fehler: "));
        }
        other => panic!("unexpected outcome {other:?}"),
    }
}

#[test]
fn a_frame_of_one_awkward_length_is_refused() {
    let turn = Operation::WheelRotations(WheelRotations { is_vertical: true, rotation_units: 1 });
    let operations = |keys: u8| -> Vec<Operation> {
        let mut operations = vec![turn];
        for code in 0..keys {
            operations.push(Operation::KeyPressed(Scancode { extended: false, code }));
        }
        operations
    };
    // The events take seven bytes and two for each key.
    assert_eq!(session().on_operations(&operations(58)).expect("123 bytes fit").len(), 1);
    assert!(matches!(session().on_operations(&operations(59)), Err(ClientError::Input(_))));
    assert_eq!(session().on_operations(&operations(60)).expect("127 bytes fit").len(), 1);
    assert_eq!(session().on_operations(&operations(254)).expect("255 events fit").len(), 1);
    assert!(matches!(session().on_operations(&operations(255)), Err(ClientError::Input(_))));
}

#[test]
fn no_operations_send_nothing() {
    let mut session = session();
    assert!(session.on_operations(&Vec::new()).expect("this is no error").is_empty());
}

#[test]
fn closing_asks_the_server_and_stops() {
    let session = session();
    let actions = session.on_close();
    assert_eq!(actions.len(), 3);
    assert!(matches!(&actions[0], SessionAction::TrySend(frame) if !frame.is_empty()));
    match &actions[1] {
        SessionAction::Notify(RdpOutputEvent::Terminated(Ok(reason))) => {
            assert_eq!(reason, "Graceful shutdown");
        }
        other => panic!("unexpected action {other:?}"),
    }
    assert!(matches!(actions[2], SessionAction::Stop));
}

#[test]
fn two_closes_of_a_session_are_alike() {
    let session = session();
    assert_eq!(format!("{:?}", session.on_close()), format!("{:?}", session.on_close()));
}

#[test]
fn a_close_comes_before_the_operations_of_its_batch() {
    let mut session = session();
    let key = Scancode { extended: false, code: 0x1E };
    let mut batch = InputBatch::new();
    batch.add(RdpInputEvent::Operations(vec![Operation::KeyPressed(key)]));
    batch.add(RdpInputEvent::Close);
    assert!(batch.should_close);
    let actions = session.on_batch(batch).expect("this is no error");
    assert!(matches!(actions.last(), Some(SessionAction::Stop)));
    assert!(!actions.iter().any(|action| matches!(action, SessionAction::Send(_))));
    let pressed = ironrdp::input::Scancode::from_u8(false, 0x1E);
    assert!(!session.input.is_key_pressed(pressed));
}

#[test]
fn a_batch_is_sent_in_one_frame() {
    let mut session = session();
    let key = Scancode { extended: false, code: 0x1E };
    let mut batch = InputBatch::new();
    batch.add(RdpInputEvent::Operations(vec![Operation::KeyPressed(key)]));
    batch.add(RdpInputEvent::Resize { width: 800, height: 600 });
    batch.add(RdpInputEvent::Operations(vec![Operation::KeyReleased(key)]));
    assert!(!batch.should_close);
    assert_eq!(batch.operations, vec![Operation::KeyPressed(key), Operation::KeyReleased(key)]);
    let actions = session.on_batch(batch).expect("this is no error");
    assert_eq!(sent(&actions), vec![vec![0x08, 0x06, 0x00, 0x1E, 0x01, 0x1E]]);
}

#[test]
fn an_empty_batch_does_nothing() {
    let mut session = session();
    assert!(session.on_batch(InputBatch::new()).expect("this is no error").is_empty());
}

#[test]
fn outputs_are_handled_in_order_up_to_the_end() {
    let session = session();
    let region = Region { left: 0, top: 0, right: 1, bottom: 0 };
    let outside = Region { left: 0, top: 0, right: 999, bottom: 999 };
    let outputs = vec![
        StageOutput::ResponseFrame(vec![1]),
        StageOutput::GraphicsUpdate(region),
        StageOutput::Other,
        StageOutput::ResponseFrame(vec![2]),
        StageOutput::Terminate(String::from("over")),
        StageOutput::ResponseFrame(vec![3]),
        StageOutput::GraphicsUpdate(outside),
    ];
    assert!(outputs_fit(&session.image, &outputs));
    let actions = plan_outputs(&session.image, outputs);
    assert_eq!(actions.len(), 4);
    assert_eq!(sent(&actions[..2]), vec![vec![1], vec![2]]);
    assert!(matches!(
        &actions[2],
        SessionAction::Notify(RdpOutputEvent::Terminated(Ok(reason))) if reason == "over"
    ));
    assert!(matches!(actions[3], SessionAction::Stop));
}

#[test]
fn all_regions_come_in_one_update() {
    let session = session();
    let region = |x| Region { left: x, top: 0, right: x, bottom: 0 };
    let outputs = vec![
        StageOutput::GraphicsUpdate(region(1)),
        StageOutput::ResponseFrame(vec![7]),
        StageOutput::GraphicsUpdate(region(2)),
    ];
    let actions = plan_outputs(&session.image, outputs);
    assert_eq!(actions.len(), 2);
    assert_eq!(sent(&actions[..1]), vec![vec![7]]);
    match &actions[1] {
        SessionAction::Notify(RdpOutputEvent::FrameUpdate { regions }) => {
            assert_eq!(regions, &vec![(1, 0, 1, 1, vec![0; 4]), (2, 0, 1, 1, vec![0; 4])]);
        }
        other => panic!("unexpected action {other:?}"),
    }
}

#[test]
fn outputs_without_an_update_leave_the_window_alone() {
    let session = session();
    let outputs = vec![StageOutput::Other, StageOutput::ResponseFrame(vec![7])];
    let actions = plan_outputs(&session.image, outputs);
    assert_eq!(sent(&actions), vec![vec![7]]);
    assert!(plan_outputs(&session.image, Vec::new()).is_empty());
}

#[test]
fn replies_are_settled() {
    let session = session();
    let outside = Region { left: 0, top: 0, right: 999, bottom: 999 };
    let reply = Ok(vec![StageOutput::GraphicsUpdate(outside)]);
    assert!(matches!(handle_reply(&session.image, reply), Err(ClientError::RegionOutsideImage)));
    match handle_reply(&session.image, Err(String::from("bad"))) {
        Err(error) => assert_eq!(error.message(), "ActiveStage-Fehler: bad"),
        other => panic!("unexpected outcome {other:?}"),
    }
}

#[test]
fn only_frames_are_sent() {
    let outputs = || {
        vec![
            StageOutput::Other,
            StageOutput::ResponseFrame(vec![1]),
            StageOutput::Terminate(String::new()),
            StageOutput::ResponseFrame(vec![2]),
        ]
    };
    assert_eq!(sent(&send_frames(outputs())), vec![vec![1], vec![2]]);
    let tried = try_send_frames(outputs());
    assert_eq!(tried.len(), 2);
    assert!(matches!(&tried[0], SessionAction::TrySend(frame) if frame == &vec![1]));
    assert!(matches!(&tried[1], SessionAction::TrySend(frame) if frame == &vec![2]));
}

#[test]
fn a_request_that_cannot_be_made_is_not_sent() {
    let actions = plan_shutdown(Err(String::from("no")));
    assert_eq!(actions.len(), 2);
    match &actions[0] {
        SessionAction::Notify(RdpOutputEvent::Terminated(Ok(reason))) => {
            assert_eq!(reason, "Graceful shutdown");
        }
        other => panic!("unexpected action {other:?}"),
    }
    assert!(matches!(actions[1], SessionAction::Stop));
}

/// Runs a session with these messages and events, one of each in a turn, and tells what the window
/// was told, what was sent, and how the session ended.
fn run(
    turns: Vec<(ReadOutcome, Vec<RdpInputEvent>)>,
) -> (Vec<RdpOutputEvent>, Vec<Vec<u8>>, Option<Result<(), ClientError>>) {
    let mut session = session();
    let mut events = Vec::new();
    let mut frames = Vec::new();
    for (read, input) in turns {
        let mut batch = InputBatch::new();
        for event in input {
            if !batch.should_close {
                batch.add(event);
            }
        }
        for reading in [true, false] {
            let step = if reading {
                session.on_read(match &read {
                    ReadOutcome::Pdu { action, payload } => {
                        ReadOutcome::Pdu { action: *action, payload: payload.clone() }
                    }
                    ReadOutcome::WouldBlock => ReadOutcome::WouldBlock,
                    ReadOutcome::Failed(detail) => ReadOutcome::Failed(detail.clone()),
                })
            } else {
                session.on_batch(std::mem::replace(&mut batch, InputBatch::new()))
            };
            match step {
                Ok(actions) => {
                    for action in actions {
                        match action {
                            SessionAction::Send(frame) | SessionAction::TrySend(frame) => {
                                frames.push(frame);
                            }
                            SessionAction::Notify(event) => events.push(event),
                            SessionAction::Stop => return (events, frames, Some(Ok(()))),
                        }
                    }
                }
                Err(error) => return (events, frames, Some(Err(error))),
            }
        }
    }
    (events, frames, None)
}

fn bitmap() -> ReadOutcome {
    let payload = bitmap_message((0, 0, 0, 0), (1, 1), 32, &[3, 2, 1, 0]);
    ReadOutcome::Pdu { action: PduAction::FastPath, payload }
}

#[test]
fn a_run_that_ends_well_tells_the_end_once() {
    let (events, _, end) = run(vec![
        (bitmap(), vec![]),
        (ReadOutcome::WouldBlock, vec![]),
        (bitmap(), vec![RdpInputEvent::Close]),
        (bitmap(), vec![]),
    ]);
    assert!(matches!(end, Some(Ok(()))));
    assert_eq!(events.len(), 3);
    assert!(matches!(&events[0], RdpOutputEvent::FrameUpdate { regions } if regions.len() == 1));
    assert!(matches!(&events[1], RdpOutputEvent::FrameUpdate { regions } if regions.len() == 1));
    assert!(matches!(&events[2], RdpOutputEvent::Terminated(Ok(_))));
}

#[test]
fn a_run_that_fails_tells_no_end() {
    let (events, _, end) = run(vec![
        (bitmap(), vec![]),
        (ReadOutcome::Failed(String::from("reset")), vec![RdpInputEvent::Close]),
    ]);
    assert!(matches!(end, Some(Err(ClientError::Read(_)))));
    assert_eq!(events.len(), 1);
    assert!(matches!(&events[0], RdpOutputEvent::FrameUpdate { .. }));
}

#[test]
fn runs_that_differ_in_resizes_act_alike() {
    let press = || {
        let key = Scancode { extended: false, code: 0x1E };
        RdpInputEvent::Operations(vec![Operation::KeyPressed(key)])
    };
    let resize = || RdpInputEvent::Resize { width: 640, height: 480 };
    let (plain_events, plain_frames, plain_end) =
        run(vec![(bitmap(), vec![press()]), (bitmap(), vec![press(), RdpInputEvent::Close])]);
    let (events, frames, end) = run(vec![
        (bitmap(), vec![resize(), press(), resize()]),
        (bitmap(), vec![press(), resize(), RdpInputEvent::Close, resize()]),
    ]);
    assert_eq!(format!("{events:?}"), format!("{plain_events:?}"));
    assert_eq!(frames, plain_frames);
    assert!(matches!((end, plain_end), (Some(Ok(())), Some(Ok(())))));
}
