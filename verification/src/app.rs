//! The window: what it does about the events of the user, of the session and of the clock.
use crate::config::{DESKTOP_HEIGHT, DESKTOP_WIDTH, FULLSCREEN, RESIZE_DEBOUNCE_SECS};
use crate::error::prefixed;
use crate::events::{
    regions_view, FrameRegion, FrameRegionView, RdpInputEvent, RdpInputEventView, RdpOutputEvent,
    RdpOutputEventView,
};
use crate::input::{
    button_operation, button_operation_of, key_operation, key_operation_of, remote_button,
    wheel_operations, wheel_operations_of, winit_button_to_ironrdp, MouseButton, MousePosition,
    Operation, Scancode, WheelRotations, WindowButton,
};
use vstd::prelude::*;

verus! {

/// The number of nanoseconds in a second.
pub const NANOS_PER_SEC: u128 = 1_000_000_000;

/// How many frames are painted from one report of the frame rate to the next.
pub const FRAMES_PER_REPORT: u32 = 60;

/// Something that happens to the window.
#[derive(Debug)]
pub enum WindowInput {
    /// The user wants to close the window.
    CloseRequested,
    /// A key goes down or up. A key without a scan code is passed over.
    Keyboard { scancode: Option<Scancode>, pressed: bool },
    /// The mouse has moved; the position is the one on the remote desktop.
    CursorMoved { x: u16, y: u16 },
    /// A mouse button goes down or up.
    MouseInput { button: WindowButton, pressed: bool },
    /// The wheel has turned, by these units; a part that is too small to count is `None`.
    MouseWheel { horizontal: Option<i16>, vertical: Option<i16> },
    /// The window has a new size. The time is in nanoseconds, on a clock that never goes back.
    Resized { now: u128 },
    /// The window is to be painted.
    RedrawRequested,
    /// Anything else.
    Other,
}

/// What is to be done, in the order of the list.
#[derive(Debug)]
pub enum AppAction {
    /// Tell the session.
    SendInput(RdpInputEvent),
    /// Write a region to the desktop texture.
    WriteRegion { x: u32, y: u32, width: u32, height: u32, data: Vec<u8> },
    /// Paint a frame, after writing these regions.
    Render(Option<Vec<FrameRegion>>),
    /// Say how many frames have been painted, and how fast the last ones were.
    ReportFrames(u32),
    /// Print a line.
    Print(String),
    /// Print a line to the error output.
    PrintError(String),
    /// Ask for the window to be painted.
    RequestRedraw,
    /// Look for the next event without waiting.
    Poll,
    /// Wait for the next event.
    Wait,
    /// End the program.
    Exit,
}

/// The contents of an [`AppAction`].
pub enum AppActionView {
    SendInput(RdpInputEventView),
    WriteRegion { x: u32, y: u32, width: u32, height: u32, data: Seq<u8> },
    Render(Option<Seq<FrameRegionView>>),
    ReportFrames(u32),
    Print(Seq<char>),
    PrintError(Seq<char>),
    RequestRedraw,
    Poll,
    Wait,
    Exit,
}

impl View for AppAction {
    type V = AppActionView;

    open spec fn view(&self) -> AppActionView {
        match *self {
            AppAction::SendInput(event) => AppActionView::SendInput(event@),
            AppAction::WriteRegion { x, y, width, height, data } => AppActionView::WriteRegion {
                x,
                y,
                width,
                height,
                data: data@,
            },
            AppAction::Render(Some(regions)) => AppActionView::Render(Some(regions_view(regions@))),
            AppAction::Render(None) => AppActionView::Render(None),
            AppAction::ReportFrames(count) => AppActionView::ReportFrames(count),
            AppAction::Print(text) => AppActionView::Print(text@),
            AppAction::PrintError(text) => AppActionView::PrintError(text@),
            AppAction::RequestRedraw => AppActionView::RequestRedraw,
            AppAction::Poll => AppActionView::Poll,
            AppAction::Wait => AppActionView::Wait,
            AppAction::Exit => AppActionView::Exit,
        }
    }
}

/// The contents of a list of actions.
pub open spec fn app_actions_view(actions: Seq<AppAction>) -> Seq<AppActionView> {
    actions.map_values(|action: AppAction| action@)
}

/// A window to be opened.
#[derive(Debug)]
pub struct WindowPlan {
    pub title: String,
    pub fullscreen: bool,
    pub texture_width: u32,
    pub texture_height: u32,
}

/// The state of the window.
pub struct App {
    /// Whether there is a window.
    pub has_window: bool,
    /// Whether there is something to paint with.
    pub has_gpu: bool,
    /// The last whole image.
    pub buffer: Vec<u32>,
    /// The size of the remote desktop.
    pub buffer_size: (u32, u32),
    /// When the window last changed its size, if that has not been passed on yet.
    pub pending_resize: Option<u128>,
    /// Whether the window is out of date.
    pub needs_redraw: bool,
    /// How many frames have been painted on request.
    pub frame_count: u32,
}

/// The contents of an [`App`].
pub struct AppView {
    pub has_window: bool,
    pub has_gpu: bool,
    pub buffer: Seq<u32>,
    pub buffer_size: (u32, u32),
    pub pending_resize: Option<u128>,
    pub needs_redraw: bool,
    pub frame_count: u32,
}

impl View for App {
    type V = AppView;

    open spec fn view(&self) -> AppView {
        AppView {
            has_window: self.has_window,
            has_gpu: self.has_gpu,
            buffer: self.buffer@,
            buffer_size: self.buffer_size,
            pending_resize: self.pending_resize,
            needs_redraw: self.needs_redraw,
            frame_count: self.frame_count,
        }
    }
}

/// The low sixteen bits of a number.
pub open spec fn low_bits(n: u32) -> u16 {
    (n % 0x10000) as u16
}

/// The low sixteen bits of a number.
fn truncated(n: u32) -> (low: u16)
    ensures
        low == low_bits(n),
{
    assert((#[verifier::truncate] (n as u16)) == n % 0x10000) by (bit_vector);
    #[verifier::truncate]
    (n as u16)
}

impl AppView {
    /// The state at the start of the program.
    pub open spec fn initial() -> AppView {
        AppView {
            has_window: false,
            has_gpu: false,
            buffer: Seq::new((DESKTOP_WIDTH * DESKTOP_HEIGHT) as nat, |i: int| 0u32),
            buffer_size: (DESKTOP_WIDTH as u32, DESKTOP_HEIGHT as u32),
            pending_resize: None,
            needs_redraw: false,
            frame_count: 0,
        }
    }

    /// There is something to paint with exactly when there is a window to paint.
    pub open spec fn well_formed(self) -> bool {
        self.has_gpu == self.has_window
    }

    /// The state after an event of the session.
    pub open spec fn after_user_event(self, event: RdpOutputEventView) -> AppView {
        match event {
            RdpOutputEventView::Image { buffer, width, height } => AppView {
                buffer,
                buffer_size: (width, height),
                needs_redraw: true,
                ..self
            },
            RdpOutputEventView::RegionUpdate { .. } => AppView { needs_redraw: true, ..self },
            RdpOutputEventView::FrameUpdate { .. } => AppView { needs_redraw: false, ..self },
            RdpOutputEventView::ConnectionFailure(_) => self,
            RdpOutputEventView::Terminated(_) => self,
        }
    }

    /// What is done about an event of the session.
    pub open spec fn on_user_event(self, event: RdpOutputEventView) -> Seq<AppActionView> {
        match event {
            RdpOutputEventView::Image { .. } => seq![],
            RdpOutputEventView::RegionUpdate { x, y, width, height, data } => if self.has_gpu {
                seq![AppActionView::WriteRegion { x, y, width, height, data }]
            } else {
                seq![]
            },
            RdpOutputEventView::FrameUpdate { regions } => if self.has_gpu {
                seq![AppActionView::Render(Some(regions))]
            } else {
                seq![]
            },
            RdpOutputEventView::ConnectionFailure(detail) => seq![
                AppActionView::PrintError("❌ Verbindungsfehler: "@ + detail),
                AppActionView::Exit,
            ],
            RdpOutputEventView::Terminated(Ok(reason)) => seq![
                AppActionView::Print("🔌 Verbindung beendet: "@ + reason),
                AppActionView::Exit,
            ],
            RdpOutputEventView::Terminated(Err(detail)) => seq![
                AppActionView::PrintError("❌ Sitzungsfehler: "@ + detail),
                AppActionView::Exit,
            ],
        }
    }

    /// Whether a change of size has to be passed on.
    pub open spec fn resize_is_due(self, now: u128) -> bool {
        self.pending_resize matches Some(since) && now - since >= RESIZE_DEBOUNCE_SECS
            * NANOS_PER_SEC
    }

    /// The state after the events at hand are handled.
    pub open spec fn after_about_to_wait(self, now: u128) -> AppView {
        if self.resize_is_due(now) {
            AppView { pending_resize: None, ..self }
        } else {
            self
        }
    }

    /// What is done when the events at hand are handled: a change of size is passed on once it is
    /// due, and the next event is waited for unless the window is out of date.
    pub open spec fn on_about_to_wait(self, now: u128, inner_size: (u32, u32)) -> Seq<
        AppActionView,
    > {
        let resize: Seq<AppActionView> = if self.resize_is_due(now) && self.has_window {
            seq![
                AppActionView::SendInput(
                    RdpInputEventView::Resize {
                        width: low_bits(inner_size.0),
                        height: low_bits(inner_size.1),
                    },
                ),
            ]
        } else {
            seq![]
        };
        let redraw: Seq<AppActionView> = if self.needs_redraw && self.has_window {
            seq![AppActionView::RequestRedraw]
        } else {
            seq![]
        };
        let flow = if self.needs_redraw {
            AppActionView::Poll
        } else {
            AppActionView::Wait
        };
        resize + redraw + seq![flow]
    }

    /// The state after an event of the window.
    pub open spec fn after_window_event(self, event: WindowInput) -> AppView {
        match event {
            WindowInput::Resized { now } => AppView { pending_resize: Some(now), ..self },
            WindowInput::RedrawRequested => if self.needs_redraw {
                AppView {
                    needs_redraw: false,
                    frame_count: (self.frame_count + 1) as u32,
                    ..self
                }
            } else {
                self
            },
            _ => self,
        }
    }

    /// What is done about an event of the window.
    pub open spec fn on_window_event(self, event: WindowInput) -> Seq<AppActionView> {
        match event {
            WindowInput::CloseRequested => seq![
                AppActionView::SendInput(RdpInputEventView::Close),
                AppActionView::Exit,
            ],
            WindowInput::Keyboard { scancode, pressed } => match scancode {
                Some(key) => send_operations(seq![key_operation_of(key, pressed)]),
                None => seq![],
            },
            WindowInput::CursorMoved { x, y } => if self.tracks_the_mouse() {
                send_operations(seq![Operation::MouseMove(MousePosition { x, y })])
            } else {
                seq![]
            },
            WindowInput::MouseInput { button, pressed } => match remote_button(button) {
                Some(remote) => send_operations(seq![button_operation_of(remote, pressed)]),
                None => seq![],
            },
            WindowInput::MouseWheel { horizontal, vertical } => if horizontal is Some
                || vertical is Some {
                send_operations(wheel_operations_of(horizontal, vertical))
            } else {
                seq![]
            },
            WindowInput::Resized { .. } => seq![],
            WindowInput::RedrawRequested => if self.needs_redraw {
                let render: Seq<AppActionView> = if self.has_gpu {
                    seq![AppActionView::Render(None)]
                } else {
                    seq![]
                };
                let count = self.frame_count + 1;
                let report: Seq<AppActionView> = if count % FRAMES_PER_REPORT as int == 0 {
                    seq![AppActionView::ReportFrames(count as u32)]
                } else {
                    seq![]
                };
                render + report
            } else {
                seq![]
            },
            WindowInput::Other => seq![],
        }
    }

    /// Whether a movement of the mouse can be passed on: there is a window, and the remote desktop
    /// has a size to scale the position to.
    pub open spec fn tracks_the_mouse(self) -> bool {
        &&& self.has_window
        &&& self.buffer_size.0 > 0
        &&& self.buffer_size.1 > 0
    }
}

/// The one action that tells the session about operations.
pub open spec fn send_operations(operations: Seq<Operation>) -> Seq<AppActionView> {
    seq![AppActionView::SendInput(RdpInputEventView::Operations(operations))]
}

/// The action that tells the session about one operation.
fn send_operation(operation: Operation) -> (action: AppAction)
    ensures
        action@ == AppActionView::SendInput(RdpInputEventView::Operations(seq![operation])),
{
    let operations: Vec<Operation> = vec![operation];
    assert(operations@ =~= seq![operation]);
    AppAction::SendInput(RdpInputEvent::Operations(operations))
}

impl App {
    /// The state at the start of the program.
    pub fn new() -> (app: App)
        ensures
            app@ == AppView::initial(),
            app@.well_formed(),
    {
        let buffer: Vec<u32> = vec![0u32; DESKTOP_WIDTH as usize * DESKTOP_HEIGHT as usize];
        assert(buffer@ =~= AppView::initial().buffer);
        App {
            has_window: false,
            has_gpu: false,
            buffer,
            buffer_size: (DESKTOP_WIDTH as u32, DESKTOP_HEIGHT as u32),
            pending_resize: None,
            needs_redraw: false,
            frame_count: 0,
        }
    }

    /// The program may have a window: if there is none yet, this one is to be opened, together
    /// with what paints it.
    pub fn resumed(&mut self) -> (plan: Option<WindowPlan>)
        ensures
            final(self)@ == if old(self)@.has_window {
                old(self)@
            } else {
                AppView { has_window: true, has_gpu: true, ..old(self)@ }
            },
            old(self)@.has_window ==> plan is None,
            !old(self)@.has_window ==> (plan matches Some(window) && window.title@
                == "IronRDP Client"@ && window.fullscreen == FULLSCREEN && window.texture_width
                == DESKTOP_WIDTH && window.texture_height == DESKTOP_HEIGHT),
            old(self)@.well_formed() ==> final(self)@.well_formed(),
    {
        if self.has_window {
            return None;
        }
        self.has_gpu = true;
        self.has_window = true;
        Some(
            WindowPlan {
                title: "IronRDP Client".to_owned(),
                fullscreen: FULLSCREEN,
                texture_width: DESKTOP_WIDTH as u32,
                texture_height: DESKTOP_HEIGHT as u32,
            },
        )
    }

    /// The program may not have a window any more.
    pub fn suspended(&mut self)
        ensures
            final(self)@ == (AppView { has_window: false, has_gpu: false, ..old(self)@ }),
            final(self)@.well_formed(),
    {
        self.has_gpu = false;
        self.has_window = false;
    }

    /// Handles an event of the session.
    pub fn user_event(&mut self, event: RdpOutputEvent) -> (actions: Vec<AppAction>)
        ensures
            final(self)@ == old(self)@.after_user_event(event@),
            app_actions_view(actions@) == old(self)@.on_user_event(event@),
            old(self)@.well_formed() ==> final(self)@.well_formed(),
    {
        let mut actions: Vec<AppAction> = Vec::new();
        let ghost handled = event@;
        match event {
            RdpOutputEvent::Image { buffer, width, height } => {
                self.buffer = buffer;
                self.buffer_size = (width, height);
                self.needs_redraw = true;
            },
            RdpOutputEvent::RegionUpdate { x, y, width, height, data } => {
                if self.has_gpu {
                    actions.push(AppAction::WriteRegion { x, y, width, height, data });
                }
                self.needs_redraw = true;
            },
            RdpOutputEvent::FrameUpdate { regions } => {
                if self.has_gpu {
                    actions.push(AppAction::Render(Some(regions)));
                }
                self.needs_redraw = false;
            },
            RdpOutputEvent::ConnectionFailure(detail) => {
                actions.push(AppAction::PrintError(prefixed("❌ Verbindungsfehler: ", &detail)));
                actions.push(AppAction::Exit);
            },
            RdpOutputEvent::Terminated(result) => {
                match result {
                    Ok(reason) => {
                        actions.push(
                            AppAction::Print(prefixed("🔌 Verbindung beendet: ", &reason)),
                        );
                    },
                    Err(detail) => {
                        actions.push(
                            AppAction::PrintError(prefixed("❌ Sitzungsfehler: ", &detail)),
                        );
                    },
                }
                actions.push(AppAction::Exit);
            },
        }
        assert(app_actions_view(actions@) =~= old(self)@.on_user_event(handled));
        actions
    }

    /// Decides what is done when the events at hand are handled. The time is in nanoseconds, on
    /// the same clock as that of the window's events; the size is that of the window, if there is
    /// one.
    pub fn about_to_wait(&mut self, now: u128, inner_size: (u32, u32)) -> (actions: Vec<AppAction>)
        ensures
            final(self)@ == old(self)@.after_about_to_wait(now),
            app_actions_view(actions@) == old(self)@.on_about_to_wait(now, inner_size),
            old(self)@.well_formed() ==> final(self)@.well_formed(),
    {
        let mut actions: Vec<AppAction> = Vec::new();
        if let Some(since) = self.pending_resize {
            if now >= since && now - since >= RESIZE_DEBOUNCE_SECS as u128 * NANOS_PER_SEC {
                self.pending_resize = None;
                if self.has_window {
                    let width: u16 = truncated(inner_size.0);
                    let height: u16 = truncated(inner_size.1);
                    actions.push(AppAction::SendInput(RdpInputEvent::Resize { width, height }));
                }
            }
        }
        if self.needs_redraw {
            if self.has_window {
                actions.push(AppAction::RequestRedraw);
            }
            actions.push(AppAction::Poll);
        } else {
            actions.push(AppAction::Wait);
        }
        assert(app_actions_view(actions@) =~= old(self)@.on_about_to_wait(now, inner_size));
        actions
    }

    /// Handles an event of the window.
    pub fn window_event(&mut self, event: WindowInput) -> (actions: Vec<AppAction>)
        requires
            event is RedrawRequested && old(self)@.needs_redraw ==> old(self)@.frame_count
                < u32::MAX,
        ensures
            final(self)@ == old(self)@.after_window_event(event),
            app_actions_view(actions@) == old(self)@.on_window_event(event),
            old(self)@.well_formed() ==> final(self)@.well_formed(),
    {
        let mut actions: Vec<AppAction> = Vec::new();
        match event {
            WindowInput::CloseRequested => {
                actions.push(AppAction::SendInput(RdpInputEvent::Close));
                actions.push(AppAction::Exit);
            },
            WindowInput::Keyboard { scancode, pressed } => {
                if let Some(key) = scancode {
                    let operation = key_operation(key, pressed);
                    actions.push(send_operation(operation));
                }
            },
            WindowInput::CursorMoved { x, y } => {
                if self.has_window && self.buffer_size.0 > 0 && self.buffer_size.1 > 0 {
                    let operation = Operation::MouseMove(MousePosition { x, y });
                    actions.push(send_operation(operation));
                }
            },
            WindowInput::MouseInput { button, pressed } => {
                if let Some(remote) = winit_button_to_ironrdp(button) {
                    let operation = button_operation(remote, pressed);
                    actions.push(send_operation(operation));
                }
            },
            WindowInput::MouseWheel { horizontal, vertical } => {
                let operations = wheel_operations(horizontal, vertical);
                if operations.len() > 0 {
                    actions.push(AppAction::SendInput(RdpInputEvent::Operations(operations)));
                }
            },
            WindowInput::Resized { now } => {
                self.pending_resize = Some(now);
            },
            WindowInput::RedrawRequested => {
                if self.needs_redraw {
                    self.needs_redraw = false;
                    if self.has_gpu {
                        actions.push(AppAction::Render(None));
                    }
                    self.frame_count = self.frame_count + 1;
                    if self.frame_count % FRAMES_PER_REPORT == 0 {
                        actions.push(AppAction::ReportFrames(self.frame_count));
                    }
                }
            },
            WindowInput::Other => {},
        }
        assert(app_actions_view(actions@) =~= old(self)@.on_window_event(event));
        actions
    }
}

/// Whether an action passes a size of the window on.
pub open spec fn is_resize(action: AppActionView) -> bool {
    action matches AppActionView::SendInput(RdpInputEventView::Resize { .. })
}

/// A new size is passed on only once the window has kept it for the debounce time. Until then the
/// change stays pending; then it is passed on once, and no more.
pub proof fn a_size_is_passed_on_once_it_is_settled(
    app: AppView,
    resized: u128,
    now: u128,
    later: u128,
    inner_size: (u32, u32),
)
    ensures
        ({
            let resizing = app.after_window_event(WindowInput::Resized { now: resized });
            let actions = resizing.on_about_to_wait(now, inner_size);
            let settled = resizing.after_about_to_wait(now);
            if now - resized < RESIZE_DEBOUNCE_SECS * NANOS_PER_SEC {
                &&& forall|i: int| 0 <= i < actions.len() ==> !is_resize(#[trigger] actions[i])
                &&& settled == resizing
            } else {
                &&& app.has_window ==> actions[0] == AppActionView::SendInput(
                    RdpInputEventView::Resize {
                        width: low_bits(inner_size.0),
                        height: low_bits(inner_size.1),
                    },
                )
                &&& forall|i: int| 0 < i < actions.len() ==> !is_resize(#[trigger] actions[i])
                &&& !settled.resize_is_due(later)
            }
        }),
{
}

/// A second change of size starts the debounce time anew.
pub proof fn a_second_resize_starts_the_wait_anew(app: AppView, first: u128, second: u128)
    ensures
        app.after_window_event(WindowInput::Resized { now: first }).after_window_event(
            WindowInput::Resized { now: second },
        ) == app.after_window_event(WindowInput::Resized { now: second }),
{
}

/// A window that is up to date is not painted, and once it is painted it is up to date.
pub proof fn a_window_is_painted_once(app: AppView)
    requires
        app.frame_count < u32::MAX,
    ensures
        ({
            let painted = app.after_window_event(WindowInput::RedrawRequested);
            &&& painted.on_window_event(WindowInput::RedrawRequested) == Seq::<
                AppActionView,
            >::empty()
            &&& painted.after_window_event(WindowInput::RedrawRequested) == painted
        }),
{
}

/// A frame of the session is painted at once and leaves nothing to be painted: the next event is
/// then waited for.
pub proof fn a_frame_leaves_nothing_to_paint(
    app: AppView,
    regions: Seq<FrameRegionView>,
    now: u128,
    inner_size: (u32, u32),
)
    ensures
        ({
            let event = RdpOutputEventView::FrameUpdate { regions };
            let updated = app.after_user_event(event);
            &&& app.has_gpu ==> app.on_user_event(event) == seq![
                AppActionView::Render(Some(regions)),
            ]
            &&& updated.on_window_event(WindowInput::RedrawRequested) == Seq::<
                AppActionView,
            >::empty()
            &&& updated.on_about_to_wait(now, inner_size).last() == AppActionView::Wait
        }),
{
}

/// The last thing decided before the next event is how to get it: without waiting exactly when the
/// window is out of date.
pub proof fn the_next_event_is_waited_for_unless_the_window_is_out_of_date(
    app: AppView,
    now: u128,
    inner_size: (u32, u32),
)
    ensures
        app.on_about_to_wait(now, inner_size).last() == if app.needs_redraw {
            AppActionView::Poll
        } else {
            AppActionView::Wait
        },
        app.on_about_to_wait(now, inner_size).contains(AppActionView::RequestRedraw)
            <==> app.needs_redraw && app.has_window,
{
    let actions = app.on_about_to_wait(now, inner_size);
    if app.needs_redraw && app.has_window {
        assert(actions[actions.len() - 2] == AppActionView::RequestRedraw);
    }
}

/// The program ends when the session does, whichever way it ended, and when the window is closed.
pub proof fn the_program_ends_with_the_session(app: AppView, detail: Seq<char>)
    ensures
        app.on_user_event(RdpOutputEventView::ConnectionFailure(detail)).last()
            == AppActionView::Exit,
        app.on_user_event(RdpOutputEventView::Terminated(Ok(detail))).last() == AppActionView::Exit,
        app.on_user_event(RdpOutputEventView::Terminated(Err(detail))).last()
            == AppActionView::Exit,
        app.on_window_event(WindowInput::CloseRequested) == seq![
            AppActionView::SendInput(RdpInputEventView::Close),
            AppActionView::Exit,
        ],
{
}

/// The session is never told of no operations at all.
pub proof fn no_empty_message_is_sent(app: AppView, event: WindowInput, i: int)
    requires
        0 <= i < app.on_window_event(event).len(),
    ensures
        app.on_window_event(event)[i] matches AppActionView::SendInput(
            RdpInputEventView::Operations(operations),
        ) ==> operations.len() > 0,
{
}

/// Events of the window and of the session neither open nor close the window.
pub proof fn only_suspending_and_resuming_change_the_window(
    app: AppView,
    window: WindowInput,
    session: RdpOutputEventView,
    now: u128,
)
    ensures
        app.after_window_event(window).has_window == app.has_window,
        app.after_window_event(window).has_gpu == app.has_gpu,
        app.after_user_event(session).has_window == app.has_window,
        app.after_user_event(session).has_gpu == app.has_gpu,
        app.after_about_to_wait(now).has_window == app.has_window,
        app.after_about_to_wait(now).has_gpu == app.has_gpu,
{
}

/// Whether an action tells the session something.
pub open spec fn is_send(action: AppActionView) -> bool {
    action is SendInput
}

/// An event of the window changes nothing but this: a new size becomes pending, whatever it is and
/// with nothing told to the session, and a redraw settles whether the window is out of date, counts
/// the frame and may report the frame rate. The session is told at most one thing.
pub proof fn a_window_event_changes_little(app: AppView, event: WindowInput)
    ensures
        ({
            let after = app.after_window_event(event);
            let actions = app.on_window_event(event);
            &&& after.has_window == app.has_window
            &&& after.has_gpu == app.has_gpu
            &&& after.buffer == app.buffer
            &&& after.buffer_size == app.buffer_size
            &&& !(event is Resized) ==> after.pending_resize == app.pending_resize
            &&& event matches WindowInput::Resized { now } ==> after.pending_resize == Some(now)
                && actions.len() == 0
            &&& !(event is RedrawRequested) ==> after.needs_redraw == app.needs_redraw
                && after.frame_count == app.frame_count
            &&& forall|i: int|
                0 <= i < actions.len() && #[trigger] actions[i] is ReportFrames
                    ==> event is RedrawRequested
            &&& forall|i: int, j: int|
                0 <= i < actions.len() && 0 <= j < actions.len() && #[trigger] is_send(actions[i])
                    && #[trigger] is_send(actions[j]) ==> i == j
        }),
{
}

/// The one action that tells the session of one operation.
pub open spec fn send_one(operation: Operation) -> Seq<AppActionView> {
    seq![AppActionView::SendInput(RdpInputEventView::Operations(seq![operation]))]
}

/// A press of the window's left, middle, right, back or forward button tells the session of exactly
/// one operation, a press of the remote left, middle, right, first or second extra button in turn,
/// and a release tells it of a release of the same one. Any other button is passed over.
pub proof fn clicks_are_told_by_the_names_of_their_buttons(app: AppView, number: u16)
    ensures
        app.on_window_event(WindowInput::MouseInput { button: WindowButton::Left, pressed: true })
            == send_one(Operation::MouseButtonPressed(MouseButton::Left)),
        app.on_window_event(WindowInput::MouseInput { button: WindowButton::Left, pressed: false })
            == send_one(Operation::MouseButtonReleased(MouseButton::Left)),
        app.on_window_event(WindowInput::MouseInput { button: WindowButton::Middle, pressed: true })
            == send_one(Operation::MouseButtonPressed(MouseButton::Middle)),
        app.on_window_event(
            WindowInput::MouseInput { button: WindowButton::Middle, pressed: false },
        ) == send_one(Operation::MouseButtonReleased(MouseButton::Middle)),
        app.on_window_event(WindowInput::MouseInput { button: WindowButton::Right, pressed: true })
            == send_one(Operation::MouseButtonPressed(MouseButton::Right)),
        app.on_window_event(WindowInput::MouseInput { button: WindowButton::Right, pressed: false })
            == send_one(Operation::MouseButtonReleased(MouseButton::Right)),
        app.on_window_event(WindowInput::MouseInput { button: WindowButton::Back, pressed: true })
            == send_one(Operation::MouseButtonPressed(MouseButton::X1)),
        app.on_window_event(WindowInput::MouseInput { button: WindowButton::Back, pressed: false })
            == send_one(Operation::MouseButtonReleased(MouseButton::X1)),
        app.on_window_event(
            WindowInput::MouseInput { button: WindowButton::Forward, pressed: true },
        ) == send_one(Operation::MouseButtonPressed(MouseButton::X2)),
        app.on_window_event(
            WindowInput::MouseInput { button: WindowButton::Forward, pressed: false },
        ) == send_one(Operation::MouseButtonReleased(MouseButton::X2)),
        app.on_window_event(
            WindowInput::MouseInput { button: WindowButton::Other(number), pressed: true },
        ).len() == 0,
        app.on_window_event(
            WindowInput::MouseInput { button: WindowButton::Other(number), pressed: false },
        ).len() == 0,
{
}

/// A key with a scan code tells the session of exactly one operation, of a press or of a release of
/// that very scan code; a key without one is passed over.
pub proof fn keys_are_told_by_their_scancodes(app: AppView, key: Scancode)
    ensures
        app.on_window_event(WindowInput::Keyboard { scancode: Some(key), pressed: true })
            == send_one(Operation::KeyPressed(key)),
        app.on_window_event(WindowInput::Keyboard { scancode: Some(key), pressed: false })
            == send_one(Operation::KeyReleased(key)),
        app.on_window_event(WindowInput::Keyboard { scancode: None, pressed: true }).len() == 0,
        app.on_window_event(WindowInput::Keyboard { scancode: None, pressed: false }).len() == 0,
{
}

/// A movement tells the session of the very position, as long as there is a window and the desktop
/// has pixels, and is passed over otherwise.
pub proof fn movements_are_told_by_their_position(app: AppView, x: u16, y: u16)
    ensures
        app.has_window && app.buffer_size.0 > 0 && app.buffer_size.1 > 0 ==> app.on_window_event(
            WindowInput::CursorMoved { x, y },
        ) == send_one(Operation::MouseMove(MousePosition { x, y })),
        !app.has_window || app.buffer_size.0 == 0 || app.buffer_size.1 == 0 ==> app.on_window_event(
            WindowInput::CursorMoved { x, y },
        ).len() == 0,
{
}

/// A turn of the wheel tells the session of its units in one message, the horizontal ones first,
/// and a turn that does not count is passed over.
pub proof fn turns_are_told_in_one_message(app: AppView, across: i16, along: i16)
    ensures
        app.on_window_event(WindowInput::MouseWheel { horizontal: None, vertical: None }).len()
            == 0,
        app.on_window_event(WindowInput::MouseWheel { horizontal: Some(across), vertical: None })
            == send_one(
            Operation::WheelRotations(
                WheelRotations { is_vertical: false, rotation_units: across },
            ),
        ),
        app.on_window_event(WindowInput::MouseWheel { horizontal: None, vertical: Some(along) })
            == send_one(
            Operation::WheelRotations(WheelRotations { is_vertical: true, rotation_units: along }),
        ),
        app.on_window_event(
            WindowInput::MouseWheel { horizontal: Some(across), vertical: Some(along) },
        ) == seq![
            AppActionView::SendInput(
                RdpInputEventView::Operations(
                    seq![
                        Operation::WheelRotations(
                            WheelRotations { is_vertical: false, rotation_units: across },
                        ),
                        Operation::WheelRotations(
                            WheelRotations { is_vertical: true, rotation_units: along },
                        ),
                    ],
                ),
            ),
        ],
{
    assert(wheel_operations_of(Some(across), None) =~= seq![
        Operation::WheelRotations(WheelRotations { is_vertical: false, rotation_units: across }),
    ]);
    assert(wheel_operations_of(None, Some(along)) =~= seq![
        Operation::WheelRotations(WheelRotations { is_vertical: true, rotation_units: along }),
    ]);
    assert(wheel_operations_of(Some(across), Some(along)) =~= seq![
        Operation::WheelRotations(WheelRotations { is_vertical: false, rotation_units: across }),
        Operation::WheelRotations(WheelRotations { is_vertical: true, rotation_units: along }),
    ]);
}

/// A redraw of a window that is out of date paints it if there is something to paint with, counts
/// one frame, and reports the number of frames each time it is a multiple of sixty. A redraw of a
/// window that is up to date does nothing.
pub proof fn a_redraw_paints_and_counts(app: AppView)
    requires
        app.frame_count < u32::MAX,
    ensures
        ({
            let actions = app.on_window_event(WindowInput::RedrawRequested);
            let after = app.after_window_event(WindowInput::RedrawRequested);
            let reports = (app.frame_count + 1) % 60 == 0;
            &&& !app.needs_redraw ==> actions.len() == 0 && after == app
            &&& app.needs_redraw ==> !after.needs_redraw && after.frame_count == app.frame_count + 1
            &&& app.needs_redraw && app.has_gpu ==> actions.len() > 0 && actions[0]
                == AppActionView::Render(None)
            &&& app.needs_redraw && reports ==> actions.len() > 0 && actions.last()
                == AppActionView::ReportFrames((app.frame_count + 1) as u32)
            &&& app.needs_redraw ==> actions.len() == (if app.has_gpu {
                1int
            } else {
                0int
            }) + (if reports {
                1int
            } else {
                0int
            })
        }),
{
}

/// A new size is only remembered, with the time, and events that mean nothing do nothing.
pub proof fn sizes_are_remembered_and_the_rest_is_passed_over(app: AppView, now: u128)
    ensures
        app.after_window_event(WindowInput::Resized { now }) == (AppView {
            pending_resize: Some(now),
            ..app
        }),
        app.on_window_event(WindowInput::Resized { now }).len() == 0,
        app.after_window_event(WindowInput::Other) == app,
        app.on_window_event(WindowInput::Other).len() == 0,
        app.after_window_event(WindowInput::CloseRequested) == app,
{
}

/// An image of the session replaces the buffer and its size and leaves the window out of date; a
/// region leaves it out of date; a frame leaves it up to date; the rest changes nothing. No event
/// of the session touches the window, a pending size or the number of frames.
pub proof fn what_the_session_changes(app: AppView, event: RdpOutputEventView)
    ensures
        ({
            let after = app.after_user_event(event);
            &&& after.has_window == app.has_window && after.has_gpu == app.has_gpu
            &&& after.pending_resize == app.pending_resize && after.frame_count == app.frame_count
            &&& event is Image ==> after.buffer == event->buffer && after.buffer_size == (
                event->Image_width,
                event->Image_height,
            )
            &&& !(event is Image) ==> after.buffer == app.buffer && after.buffer_size
                == app.buffer_size
            &&& event is Image || event is RegionUpdate ==> after.needs_redraw
            &&& event is FrameUpdate ==> !after.needs_redraw
            &&& event is ConnectionFailure || event is Terminated ==> after.needs_redraw
                == app.needs_redraw
        }),
{
}

/// What the session sends is painted as it is, if there is something to paint with: a region is
/// written with its place, size and bytes, and a frame is painted with all its regions. An image is
/// only kept.
pub proof fn what_the_session_sends_is_painted(
    app: AppView,
    x: u32,
    y: u32,
    width: u32,
    height: u32,
    data: Seq<u8>,
    regions: Seq<FrameRegionView>,
    buffer: Seq<u32>,
)
    ensures
        app.has_gpu ==> app.on_user_event(
            RdpOutputEventView::RegionUpdate { x, y, width, height, data },
        ) == seq![AppActionView::WriteRegion { x, y, width, height, data }],
        app.has_gpu ==> app.on_user_event(RdpOutputEventView::FrameUpdate { regions }) == seq![
            AppActionView::Render(Some(regions)),
        ],
        !app.has_gpu ==> app.on_user_event(
            RdpOutputEventView::RegionUpdate { x, y, width, height, data },
        ).len() == 0,
        !app.has_gpu ==> app.on_user_event(RdpOutputEventView::FrameUpdate { regions }).len() == 0,
        app.on_user_event(RdpOutputEventView::Image { buffer, width, height }).len() == 0,
{
}

/// The end of the session is told to the user with its reason in full, on the error output exactly
/// if it is an error, and then the program ends.
pub proof fn the_end_is_told_with_its_reason(app: AppView, reason: Seq<char>)
    ensures
        app.on_user_event(RdpOutputEventView::Terminated(Ok(reason))) == seq![
            AppActionView::Print("🔌 Verbindung beendet: "@ + reason),
            AppActionView::Exit,
        ],
        app.on_user_event(RdpOutputEventView::Terminated(Err(reason))) == seq![
            AppActionView::PrintError("❌ Sitzungsfehler: "@ + reason),
            AppActionView::Exit,
        ],
        app.on_user_event(RdpOutputEventView::ConnectionFailure(reason)) == seq![
            AppActionView::PrintError("❌ Verbindungsfehler: "@ + reason),
            AppActionView::Exit,
        ],
{
}

/// Before the next event a size that is pending for a second or longer is passed on with the low
/// sixteen bits of its width and height, if there is a window, and is pending no more; a redraw is
/// asked for if the window is out of date; and the way to wait is set. Nothing else is done or
/// changed.
pub proof fn what_is_done_before_the_next_event(app: AppView, now: u128, inner_size: (u32, u32))
    ensures
        ({
            let actions = app.on_about_to_wait(now, inner_size);
            let after = app.after_about_to_wait(now);
            let due = app.pending_resize is Some && now - app.pending_resize->Some_0
                >= 1_000_000_000;
            let resizes = due && app.has_window;
            let redraws = app.needs_redraw && app.has_window;
            &&& actions.len() == (if resizes {
                1int
            } else {
                0int
            }) + (if redraws {
                1int
            } else {
                0int
            }) + 1
            &&& resizes ==> actions[0] is SendInput && actions[0]->SendInput_0 is Resize
                && actions[0]->SendInput_0->width == inner_size.0 % 0x10000
                && actions[0]->SendInput_0->height == inner_size.1 % 0x10000
            &&& redraws ==> actions[actions.len() - 2] == AppActionView::RequestRedraw
            &&& actions.last() == if app.needs_redraw {
                AppActionView::Poll
            } else {
                AppActionView::Wait
            }
            &&& after.pending_resize == if due {
                None
            } else {
                app.pending_resize
            }
            &&& after == (AppView { pending_resize: after.pending_resize, ..app })
        }),
{
}

/// The program starts without a window, with a black desktop of 1920 by 1080 pixels, with nothing
/// pending, nothing to paint and no frame counted.
pub proof fn the_program_starts_at_rest(i: int)
    ensures
        ({
            let app = AppView::initial();
            &&& !app.has_window && !app.has_gpu && !app.needs_redraw
            &&& app.pending_resize is None && app.frame_count == 0
            &&& app.buffer_size == (1920u32, 1080u32)
            &&& app.buffer.len() == 1920 * 1080
            &&& 0 <= i < app.buffer.len() ==> app.buffer[i] == 0
        }),
{
}

/// The view of the window's state holds what the state holds.
pub proof fn app_views_are_faithful(app: App)
    ensures
        app@.has_window == app.has_window,
        app@.has_gpu == app.has_gpu,
        app@.buffer == app.buffer@,
        app@.buffer_size == app.buffer_size,
        app@.pending_resize == app.pending_resize,
        app@.needs_redraw == app.needs_redraw,
        app@.frame_count == app.frame_count,
{
}

/// The view of actions holds what the actions hold, in their order.
pub proof fn app_action_views_are_faithful(actions: Seq<AppAction>, i: int)
    requires
        0 <= i < actions.len(),
    ensures
        ({
            let views = app_actions_view(actions);
            let action = actions[i];
            let view = views[i];
            &&& views.len() == actions.len()
            &&& action is SendInput ==> view is SendInput && view->SendInput_0
                == action->SendInput_0@
            &&& action is WriteRegion ==> view is WriteRegion && view->x == action->x && view->y
                == action->y && view->width == action->width && view->height == action->height
                && view->data == action->data@
            &&& action is Render ==> view is Render && (view->Render_0 is Some
                <==> action->Render_0 is Some)
            &&& action is Render && action->Render_0 is Some ==> view->Render_0->Some_0
                == regions_view(action->Render_0->Some_0@)
            &&& action is ReportFrames ==> view is ReportFrames && view->ReportFrames_0
                == action->ReportFrames_0
            &&& action is Print ==> view is Print && view->Print_0 == action->Print_0@
            &&& action is PrintError ==> view is PrintError && view->PrintError_0
                == action->PrintError_0@
            &&& action is RequestRedraw <==> view is RequestRedraw
            &&& action is Poll <==> view is Poll
            &&& action is Wait <==> view is Wait
            &&& action is Exit <==> view is Exit
        }),
{
}

} // verus!
