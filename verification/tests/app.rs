use rdp_client::app::{App, AppAction, WindowInput, NANOS_PER_SEC};
use rdp_client::events::{RdpInputEvent, RdpOutputEvent};
use rdp_client::input::{
    MouseButton, MousePosition, Operation, Scancode, WheelRotations, WindowButton,
};

fn open_app() -> App {
    let mut app = App::new();
    assert!(app.resumed().is_some());
    app
}

fn sent_operations(actions: Vec<AppAction>) -> Vec<Operation> {
    assert_eq!(actions.len(), 1);
    match actions.into_iter().next() {
        Some(AppAction::SendInput(RdpInputEvent::Operations(operations))) => operations,
        other => panic!("unexpected action {other:?}"),
    }
}

#[test]
fn the_program_starts_without_a_window() {
    let app = App::new();
    assert!(!app.has_window);
    assert!(!app.has_gpu);
    assert_eq!(app.buffer, vec![0; 1920 * 1080]);
    assert_eq!(app.buffer_size, (1920, 1080));
    assert_eq!(app.pending_resize, None);
    assert!(!app.needs_redraw);
    assert_eq!(app.frame_count, 0);
}

#[test]
fn one_window_is_opened() {
    let mut app = App::new();
    let plan = app.resumed().expect("there is no window yet");
    assert_eq!(plan.title, "IronRDP Client");
    assert!(plan.fullscreen);
    assert_eq!((plan.texture_width, plan.texture_height), (1920, 1080));
    assert!(app.has_window && app.has_gpu);
    assert!(app.resumed().is_none());
    app.suspended();
    assert!(!app.has_window && !app.has_gpu);
    assert!(app.resumed().is_some());
}

#[test]
fn a_resize_is_passed_on_after_a_second() {
    let mut app = open_app();
    assert!(app.window_event(WindowInput::Resized { now: 5 }).is_empty());
    let early = app.about_to_wait(4 + NANOS_PER_SEC, (800, 600));
    assert!(matches!(early[..], [AppAction::Wait]));
    assert_eq!(app.pending_resize, Some(5));
    let due = app.about_to_wait(5 + NANOS_PER_SEC, (800, 600));
    assert!(matches!(
        due[..],
        [
            AppAction::SendInput(RdpInputEvent::Resize { width: 800, height: 600 }),
            AppAction::Wait
        ]
    ));
    let again = app.about_to_wait(9 * NANOS_PER_SEC, (800, 600));
    assert!(matches!(again[..], [AppAction::Wait]));
}

#[test]
fn another_resize_starts_the_second_anew() {
    let mut app = open_app();
    app.window_event(WindowInput::Resized { now: 0 });
    app.window_event(WindowInput::Resized { now: NANOS_PER_SEC });
    let early = app.about_to_wait(2 * NANOS_PER_SEC - 1, (800, 600));
    assert!(matches!(early[..], [AppAction::Wait]));
    let due = app.about_to_wait(2 * NANOS_PER_SEC, (800, 600));
    assert_eq!(due.len(), 2);
}

#[test]
fn a_resize_without_a_window_is_dropped() {
    let mut app = App::new();
    app.window_event(WindowInput::Resized { now: 0 });
    let actions = app.about_to_wait(NANOS_PER_SEC, (800, 600));
    assert!(matches!(actions[..], [AppAction::Wait]));
    assert_eq!(app.pending_resize, None);
}

#[test]
fn a_size_is_cut_to_sixteen_bits() {
    let mut app = open_app();
    app.window_event(WindowInput::Resized { now: 0 });
    let actions = app.about_to_wait(NANOS_PER_SEC, (0x1_0005, 0xFFFF_FFFF));
    assert!(matches!(
        actions[0],
        AppAction::SendInput(RdpInputEvent::Resize { width: 5, height: 0xFFFF })
    ));
}

#[test]
fn a_region_update_asks_for_a_redraw() {
    let mut app = open_app();
    let update =
        RdpOutputEvent::RegionUpdate { x: 1, y: 2, width: 1, height: 1, data: vec![1, 2, 3, 4] };
    match &app.user_event(update)[..] {
        [AppAction::WriteRegion { x: 1, y: 2, width: 1, height: 1, data }] => {
            assert_eq!(data, &vec![1, 2, 3, 4]);
        }
        other => panic!("unexpected actions {other:?}"),
    }
    let waiting = app.about_to_wait(0, (800, 600));
    assert!(matches!(waiting[..], [AppAction::RequestRedraw, AppAction::Poll]));
    let painted = app.window_event(WindowInput::RedrawRequested);
    assert!(matches!(painted[..], [AppAction::Render(None)]));
    assert_eq!(app.frame_count, 1);
    assert!(app.window_event(WindowInput::RedrawRequested).is_empty());
    assert_eq!(app.frame_count, 1);
    assert!(matches!(app.about_to_wait(0, (800, 600))[..], [AppAction::Wait]));
}

#[test]
fn a_frame_update_is_painted_at_once() {
    let mut app = open_app();
    app.needs_redraw = true;
    let regions = vec![(1, 2, 1, 1, vec![1, 2, 3, 4])];
    match &app.user_event(RdpOutputEvent::FrameUpdate { regions: regions.clone() })[..] {
        [AppAction::Render(Some(painted))] => assert_eq!(painted, &regions),
        other => panic!("unexpected actions {other:?}"),
    }
    assert!(!app.needs_redraw);
    assert_eq!(app.frame_count, 0);
}

#[test]
fn nothing_is_painted_without_a_window() {
    let mut app = App::new();
    let update =
        RdpOutputEvent::RegionUpdate { x: 0, y: 0, width: 1, height: 1, data: vec![0; 4] };
    assert!(app.user_event(update).is_empty());
    assert!(app.needs_redraw);
    assert!(matches!(app.about_to_wait(0, (0, 0))[..], [AppAction::Poll]));
    assert!(app.window_event(WindowInput::RedrawRequested).is_empty());
    assert_eq!(app.frame_count, 1);
    assert!(app.user_event(RdpOutputEvent::FrameUpdate { regions: Vec::new() }).is_empty());
}

#[test]
fn an_image_replaces_the_buffer() {
    let mut app = open_app();
    let image = RdpOutputEvent::Image { buffer: vec![1, 2], width: 2, height: 1 };
    assert!(app.user_event(image).is_empty());
    assert_eq!(app.buffer, vec![1, 2]);
    assert_eq!(app.buffer_size, (2, 1));
    assert!(app.needs_redraw);
}

#[test]
fn the_frame_rate_is_told_every_sixty_frames() {
    let mut app = open_app();
    for frame in 1..=120 {
        app.needs_redraw = true;
        let actions = app.window_event(WindowInput::RedrawRequested);
        if frame % 60 == 0 {
            match actions[..] {
                [AppAction::Render(None), AppAction::ReportFrames(count)] => {
                    assert_eq!(count, frame);
                }
                _ => panic!("unexpected actions {actions:?}"),
            }
        } else {
            assert!(matches!(actions[..], [AppAction::Render(None)]));
        }
    }
}

#[test]
fn the_end_of_the_session_ends_the_program() {
    let mut app = open_app();
    let text = || String::from("x");
    match &app.user_event(RdpOutputEvent::ConnectionFailure(text()))[..] {
        [AppAction::PrintError(line), AppAction::Exit] => {
            assert_eq!(line, "❌ Verbindungsfehler: x");
        }
        other => panic!("unexpected actions {other:?}"),
    }
    match &app.user_event(RdpOutputEvent::Terminated(Ok(text())))[..] {
        [AppAction::Print(line), AppAction::Exit] => assert_eq!(line, "🔌 Verbindung beendet: x"),
        other => panic!("unexpected actions {other:?}"),
    }
    match &app.user_event(RdpOutputEvent::Terminated(Err(text())))[..] {
        [AppAction::PrintError(line), AppAction::Exit] => {
            assert_eq!(line, "❌ Sitzungsfehler: x");
        }
        other => panic!("unexpected actions {other:?}"),
    }
}

#[test]
fn closing_the_window_ends_the_program() {
    let mut app = open_app();
    let actions = app.window_event(WindowInput::CloseRequested);
    assert!(matches!(
        actions[..],
        [AppAction::SendInput(RdpInputEvent::Close), AppAction::Exit]
    ));
}

#[test]
fn keys_are_passed_on() {
    let mut app = open_app();
    let key = Scancode { extended: false, code: 30 };
    let down = app.window_event(WindowInput::Keyboard { scancode: Some(key), pressed: true });
    assert_eq!(sent_operations(down), vec![Operation::KeyPressed(key)]);
    let up = app.window_event(WindowInput::Keyboard { scancode: Some(key), pressed: false });
    assert_eq!(sent_operations(up), vec![Operation::KeyReleased(key)]);
    let unknown = app.window_event(WindowInput::Keyboard { scancode: None, pressed: true });
    assert!(unknown.is_empty());
}

#[test]
fn movements_are_passed_on_while_there_is_a_desktop() {
    let mut app = open_app();
    let moved = app.window_event(WindowInput::CursorMoved { x: 7, y: 8 });
    assert_eq!(sent_operations(moved), vec![Operation::MouseMove(MousePosition { x: 7, y: 8 })]);
    app.user_event(RdpOutputEvent::Image { buffer: Vec::new(), width: 0, height: 1 });
    assert!(app.window_event(WindowInput::CursorMoved { x: 7, y: 8 }).is_empty());
    app.user_event(RdpOutputEvent::Image { buffer: Vec::new(), width: 1, height: 0 });
    assert!(app.window_event(WindowInput::CursorMoved { x: 7, y: 8 }).is_empty());
    let mut closed = App::new();
    assert!(closed.window_event(WindowInput::CursorMoved { x: 7, y: 8 }).is_empty());
}

#[test]
fn buttons_are_passed_on() {
    let mut app = open_app();
    let down = WindowInput::MouseInput { button: WindowButton::Back, pressed: true };
    assert_eq!(
        sent_operations(app.window_event(down)),
        vec![Operation::MouseButtonPressed(MouseButton::X1)]
    );
    let up = WindowInput::MouseInput { button: WindowButton::Back, pressed: false };
    assert_eq!(
        sent_operations(app.window_event(up)),
        vec![Operation::MouseButtonReleased(MouseButton::X1)]
    );
    let other = WindowInput::MouseInput { button: WindowButton::Other(9), pressed: true };
    assert!(app.window_event(other).is_empty());
}

#[test]
fn turns_of_the_wheel_are_passed_on() {
    let mut app = open_app();
    let turned = WindowInput::MouseWheel { horizontal: Some(-3), vertical: Some(120) };
    let turn = |is_vertical, rotation_units| {
        Operation::WheelRotations(WheelRotations { is_vertical, rotation_units })
    };
    assert_eq!(sent_operations(app.window_event(turned)), vec![turn(false, -3), turn(true, 120)]);
    let still = WindowInput::MouseWheel { horizontal: None, vertical: None };
    assert!(app.window_event(still).is_empty());
}

#[test]
fn a_window_event_leaves_the_rest_alone() {
    let mut app = open_app();
    app.needs_redraw = true;
    app.window_event(WindowInput::Resized { now: 3 });
    app.window_event(WindowInput::CursorMoved { x: 1, y: 1 });
    assert_eq!(app.pending_resize, Some(3));
    assert!(app.needs_redraw);
    app.window_event(WindowInput::RedrawRequested);
    assert_eq!(app.pending_resize, Some(3));
    assert_eq!((app.needs_redraw, app.frame_count), (false, 1));
    assert_eq!(app.buffer_size, (1920, 1080));
}

#[test]
fn other_events_are_passed_over() {
    let mut app = open_app();
    assert!(app.window_event(WindowInput::Other).is_empty());
    assert!(app.has_window && !app.needs_redraw);
}
