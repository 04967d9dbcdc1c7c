//! Keyboard and mouse input: what the window reports, and the operations it turns into.
use ironrdp::input::{
    Database, MouseButton as RdpButton, MousePosition as RdpPosition, Operation as RdpOperation,
    Scancode as RdpScancode, WheelRotations as RdpRotations,
};
use ironrdp::pdu::input::fast_path::FastPathInputEvent;
use vstd::prelude::*;
use winit::keyboard::PhysicalKey;
use winit::platform::scancode::PhysicalKeyExtScancode;

verus! {

/// The mouse buttons that the remote side knows.
#[derive(Debug, Clone, Copy, PartialEq, Eq, Structural)]
pub enum MouseButton {
    Left,
    Middle,
    Right,
    X1,
    X2,
}

/// The mouse buttons that the window reports.
#[derive(Debug, Clone, Copy, PartialEq, Eq, Structural)]
pub enum WindowButton {
    Left,
    Right,
    Middle,
    Back,
    Forward,
    Other(u16),
}

/// A keyboard scan code.
#[derive(Debug, Clone, Copy, PartialEq, Eq, Structural)]
pub struct Scancode {
    pub extended: bool,
    pub code: u8,
}

/// A position of the mouse on the remote desktop.
#[derive(Debug, Clone, Copy, PartialEq, Eq, Structural)]
pub struct MousePosition {
    pub x: u16,
    pub y: u16,
}

/// A rotation of the mouse wheel.
#[derive(Debug, Clone, Copy, PartialEq, Eq, Structural)]
pub struct WheelRotations {
    pub is_vertical: bool,
    pub rotation_units: i16,
}

/// One thing that the user did.
#[derive(Debug, Clone, Copy, PartialEq, Eq, Structural)]
pub enum Operation {
    MouseButtonPressed(MouseButton),
    MouseButtonReleased(MouseButton),
    MouseMove(MousePosition),
    WheelRotations(WheelRotations),
    KeyPressed(Scancode),
    KeyReleased(Scancode),
}

/// `ironrdp::input::Database`: which keys and buttons are down, and where the mouse is.
#[verifier::external_type_specification]
#[verifier::external_body]
pub struct ExDatabase(Database);

/// `FastPathInputEvent`: one input event in the form in which it is sent.
#[verifier::external_type_specification]
#[verifier::external_body]
pub struct ExFastPathInputEvent(FastPathInputEvent);

/// `winit::keyboard::PhysicalKey`: a key by its place on the keyboard.
#[verifier::external_type_specification]
#[verifier::external_body]
pub struct ExPhysicalKey(PhysicalKey);

/// The keys that are down in a database.
pub uninterp spec fn pressed_keys(database: Database) -> Set<Scancode>;

/// The mouse buttons that are down in a database.
pub uninterp spec fn pressed_buttons(database: Database) -> Set<MouseButton>;

/// The mouse position in a database.
pub uninterp spec fn mouse_position(database: Database) -> MousePosition;

/// What is down, and where the mouse is.
pub struct InputState {
    pub keys: Set<Scancode>,
    pub buttons: Set<MouseButton>,
    pub position: MousePosition,
}

/// The state that a database holds.
pub open spec fn input_state(database: Database) -> InputState {
    InputState {
        keys: pressed_keys(database),
        buttons: pressed_buttons(database),
        position: mouse_position(database),
    }
}

impl InputState {
    /// The state in which nothing is down and the mouse is in the top left corner.
    pub open spec fn initial() -> InputState {
        InputState {
            keys: Set::empty(),
            buttons: Set::empty(),
            position: (MousePosition { x: 0, y: 0 }),
        }
    }

    /// The state after one operation.
    pub open spec fn after(self, operation: Operation) -> InputState {
        match operation {
            Operation::MouseButtonPressed(button) => InputState {
                buttons: self.buttons.insert(button),
                ..self
            },
            Operation::MouseButtonReleased(button) => InputState {
                buttons: self.buttons.remove(button),
                ..self
            },
            Operation::MouseMove(position) => InputState { position, ..self },
            Operation::WheelRotations(_) => self,
            Operation::KeyPressed(key) => InputState { keys: self.keys.insert(key), ..self },
            Operation::KeyReleased(key) => InputState { keys: self.keys.remove(key), ..self },
        }
    }

    /// The state after a sequence of operations.
    pub open spec fn after_all(self, operations: Seq<Operation>) -> InputState
        decreases operations.len(),
    {
        if operations.len() == 0 {
            self
        } else {
            self.after_all(operations.drop_last()).after(operations.last())
        }
    }

    /// Whether an operation tells the remote side nothing new, so that no event is sent for it.
    pub open spec fn is_silent(self, operation: Operation) -> bool {
        match operation {
            Operation::MouseButtonPressed(button) => self.buttons.contains(button),
            Operation::MouseButtonReleased(button) => !self.buttons.contains(button),
            Operation::MouseMove(position) => position == self.position,
            Operation::WheelRotations(_) => false,
            Operation::KeyPressed(_) => false,
            Operation::KeyReleased(key) => !self.keys.contains(key),
        }
    }

    /// Whether each of the operations is silent.
    pub open spec fn all_silent(self, operations: Seq<Operation>) -> bool {
        forall|i: int| 0 <= i < operations.len() ==> self.is_silent(#[trigger] operations[i])
    }

    /// How many events are sent for one operation: none if it is silent, and two for a press of a
    /// key that is down already, which is released first.
    pub open spec fn event_count(self, operation: Operation) -> nat {
        if self.is_silent(operation) {
            0
        } else if operation matches Operation::KeyPressed(key) && self.keys.contains(key) {
            2
        } else {
            1
        }
    }

    /// How many events are sent for a sequence of operations.
    pub open spec fn total_event_count(self, operations: Seq<Operation>) -> nat
        decreases operations.len(),
    {
        if operations.len() == 0 {
            0
        } else {
            let earlier = operations.drop_last();
            self.total_event_count(earlier) + self.after_all(earlier).event_count(operations.last())
        }
    }

    /// How many bytes the events of a sequence of operations take: two for an event of a key, and
    /// seven for one of the mouse.
    pub open spec fn total_event_bytes(self, operations: Seq<Operation>) -> nat
        decreases operations.len(),
    {
        if operations.len() == 0 {
            0
        } else {
            let earlier = operations.drop_last();
            let operation = operations.last();
            let bytes: nat = if operation is KeyPressed || operation is KeyReleased {
                2
            } else {
                7
            };
            self.total_event_bytes(earlier) + bytes * self.after_all(earlier).event_count(operation)
        }
    }

    /// Whether the events of a sequence of operations can be sent in one frame. There may be 255 of
    /// them. Beyond 15 their number takes a byte of its own, and then 125 bytes are the one length
    /// that the encoder gets wrong: it makes room for a length of one byte and writes two.
    pub open spec fn fits_in_a_frame(self, operations: Seq<Operation>) -> bool {
        let count = self.total_event_count(operations);
        &&& count <= 255
        &&& count > 15 ==> self.total_event_bytes(operations) != 125
    }
}

/// The events that `Database::apply` returns for operations in a state.
pub uninterp spec fn input_events(
    state: InputState,
    operations: Seq<Operation>,
) -> Seq<FastPathInputEvent>;

/// `Database::new`: nothing is down and the mouse is in the top left corner.
#[verifier::external_body]
pub(crate) fn new_database() -> (database: Database)
    ensures
        pressed_keys(database) == Set::<Scancode>::empty(),
        pressed_buttons(database) == Set::<MouseButton>::empty(),
        mouse_position(database) == (MousePosition { x: 0, y: 0 }),
{
    Database::new()
}

/// `ironrdp::input::MouseButton`: a mouse button in the words of the input database.
#[verifier::external_type_specification]
#[verifier::external_body]
pub struct ExRdpButton(RdpButton);

/// Which button one of the input database is.
pub uninterp spec fn button_named(button: RdpButton) -> MouseButton;

/// The variants of `ironrdp::input::MouseButton`, each under the same name here.
#[verifier::external_body]
fn rdp_button(button: MouseButton) -> (named: RdpButton)
    ensures
        button_named(named) == button,
{
    match button {
        MouseButton::Left => RdpButton::Left,
        MouseButton::Middle => RdpButton::Middle,
        MouseButton::Right => RdpButton::Right,
        MouseButton::X1 => RdpButton::X1,
        MouseButton::X2 => RdpButton::X2,
    }
}

/// An operation with its button in the words of the input database.
enum NamedOperation {
    MouseButtonPressed(RdpButton),
    MouseButtonReleased(RdpButton),
    MouseMove(MousePosition),
    WheelRotations(WheelRotations),
    KeyPressed(Scancode),
    KeyReleased(Scancode),
}

impl View for NamedOperation {
    type V = Operation;

    closed spec fn view(&self) -> Operation {
        match *self {
            NamedOperation::MouseButtonPressed(b) => Operation::MouseButtonPressed(button_named(b)),
            NamedOperation::MouseButtonReleased(b) => Operation::MouseButtonReleased(
                button_named(b),
            ),
            NamedOperation::MouseMove(position) => Operation::MouseMove(position),
            NamedOperation::WheelRotations(turn) => Operation::WheelRotations(turn),
            NamedOperation::KeyPressed(key) => Operation::KeyPressed(key),
            NamedOperation::KeyReleased(key) => Operation::KeyReleased(key),
        }
    }
}

/// An operation with its button in the words of the input database.
fn named_operation(operation: Operation) -> (named: NamedOperation)
    ensures
        named@ == operation,
{
    match operation {
        Operation::MouseButtonPressed(b) => NamedOperation::MouseButtonPressed(rdp_button(b)),
        Operation::MouseButtonReleased(b) => NamedOperation::MouseButtonReleased(rdp_button(b)),
        Operation::MouseMove(position) => NamedOperation::MouseMove(position),
        Operation::WheelRotations(turn) => NamedOperation::WheelRotations(turn),
        Operation::KeyPressed(key) => NamedOperation::KeyPressed(key),
        Operation::KeyReleased(key) => NamedOperation::KeyReleased(key),
    }
}

/// The contents of a list of operations.
spec fn named_view(operations: Seq<NamedOperation>) -> Seq<Operation> {
    operations.map_values(|operation: NamedOperation| operation@)
}

/// `Database::apply`: records the operations one after the other and returns the events to send.
/// A silent operation yields none, a press of a key that is down already yields two, and each of
/// the others yields one.
#[verifier::external_body]
fn apply_named(database: &mut Database, operations: &Vec<NamedOperation>) -> (events: Vec<
    FastPathInputEvent,
>)
    ensures
        input_state(*final(database)) == input_state(*old(database)).after_all(
            named_view(operations@),
        ),
        events@ == input_events(input_state(*old(database)), named_view(operations@)),
        events@.len() == input_state(*old(database)).total_event_count(named_view(operations@)),
{
    let rdp = operations.iter().map(|operation| match operation {
        NamedOperation::MouseButtonPressed(b) => RdpOperation::MouseButtonPressed(*b),
        NamedOperation::MouseButtonReleased(b) => RdpOperation::MouseButtonReleased(*b),
        NamedOperation::MouseMove(p) => RdpOperation::MouseMove(RdpPosition { x: p.x, y: p.y }),
        NamedOperation::WheelRotations(w) => RdpOperation::WheelRotations(RdpRotations {
            is_vertical: w.is_vertical,
            rotation_units: w.rotation_units,
        }),
        NamedOperation::KeyPressed(k) => RdpOperation::KeyPressed((k.extended, k.code).into()),
        NamedOperation::KeyReleased(k) => RdpOperation::KeyReleased((k.extended, k.code).into()),
    });
    database.apply(rdp).into_vec()
}

/// Records the operations in the input database and returns the events to send.
pub(crate) fn apply_operations(database: &mut Database, operations: &Vec<Operation>) -> (events:
    Vec<FastPathInputEvent>)
    ensures
        input_state(*final(database)) == input_state(*old(database)).after_all(operations@),
        events@ == input_events(input_state(*old(database)), operations@),
        events@.len() == input_state(*old(database)).total_event_count(operations@),
{
    let mut named: Vec<NamedOperation> = Vec::new();
    let mut i: usize = 0;
    while i < operations.len()
        invariant
            i <= operations.len(),
            named_view(named@) == operations@.take(i as int),
        decreases operations.len() - i,
    {
        let ghost earlier = named_view(named@);
        named.push(named_operation(operations[i]));
        assert(named_view(named@) =~= earlier.push(operations@[i as int]));
        assert(named_view(named@) =~= operations@.take(i + 1));
        i = i + 1;
    }
    assert(named_view(named@) =~= operations@);
    apply_named(database, &named)
}

/// Silent operations leave the state as it is.
pub proof fn silent_operations_change_nothing(state: InputState, operations: Seq<Operation>)
    requires
        state.all_silent(operations),
    ensures
        state.after_all(operations) == state,
    decreases operations.len(),
{
    if operations.len() > 0 {
        let rest = operations.drop_last();
        assert forall|i: int| 0 <= i < rest.len() implies state.is_silent(#[trigger] rest[i]) by {
            assert(rest[i] == operations[i]);
        }
        silent_operations_change_nothing(state, rest);
        assert(state.is_silent(operations[operations.len() - 1]));
        let after = state.after(operations.last());
        assert(after.keys =~= state.keys);
        assert(after.buttons =~= state.buttons);
    }
}

/// No event is sent exactly when every operation is silent, and there are never more than two
/// events for each operation.
pub proof fn events_are_counted(state: InputState, operations: Seq<Operation>)
    ensures
        state.total_event_count(operations) == 0 <==> state.all_silent(operations),
        state.total_event_count(operations) <= 2 * operations.len(),
    decreases operations.len(),
{
    if operations.len() > 0 {
        let earlier = operations.drop_last();
        events_are_counted(state, earlier);
        if state.all_silent(earlier) {
            silent_operations_change_nothing(state, earlier);
            if state.is_silent(operations.last()) {
                assert forall|i: int| 0 <= i < operations.len() implies state.is_silent(
                    #[trigger] operations[i],
                ) by {
                    if i < earlier.len() {
                        assert(earlier[i] == operations[i]);
                    }
                }
            } else {
                assert(!state.is_silent(operations[operations.len() - 1]));
            }
        } else {
            let i = choose|i: int|
                0 <= i < earlier.len() && !state.is_silent(#[trigger] earlier[i]);
            assert(!state.is_silent(operations[i]));
        }
    }
}

/// Operations in two batches are told with as many events as in one.
pub proof fn event_counts_add_up(state: InputState, first: Seq<Operation>, second: Seq<Operation>)
    ensures
        state.total_event_count(first + second) == state.total_event_count(first)
            + state.after_all(first).total_event_count(second),
    decreases second.len(),
{
    if second.len() == 0 {
        assert(first + second =~= first);
    } else {
        let both = first + second;
        let earlier = second.drop_last();
        assert(both.drop_last() =~= first + earlier);
        assert(both.last() == second.last());
        event_counts_add_up(state, first, earlier);
        batches_add_up(state, first, earlier);
    }
}

/// Once an operation is done, doing it again is silent, but for a turn of the wheel and a press of
/// a key: those are always told.
pub proof fn a_repeated_operation_is_silent(state: InputState, operation: Operation)
    requires
        !(operation is WheelRotations),
        !(operation is KeyPressed),
    ensures
        state.after(operation).is_silent(operation),
{
}

/// Pressing and releasing a key or a button that was up leaves the state as it was.
pub proof fn releasing_undoes_pressing(state: InputState, key: Scancode, button: MouseButton)
    ensures
        !state.keys.contains(key) ==> state.after(Operation::KeyPressed(key)).after(
            Operation::KeyReleased(key),
        ) == state,
        !state.buttons.contains(button) ==> state.after(
            Operation::MouseButtonPressed(button),
        ).after(Operation::MouseButtonReleased(button)) == state,
{
    assert(!state.keys.contains(key) ==> state.keys.insert(key).remove(key) =~= state.keys);
    assert(!state.buttons.contains(button) ==> state.buttons.insert(button).remove(button)
        =~= state.buttons);
}

/// Applying operations in two batches leaves the same state as applying them in one.
pub proof fn batches_add_up(state: InputState, first: Seq<Operation>, second: Seq<Operation>)
    ensures
        state.after_all(first + second) == state.after_all(first).after_all(second),
    decreases second.len(),
{
    if second.len() == 0 {
        assert(first + second =~= first);
    } else {
        let both = first + second;
        assert(both.drop_last() =~= first + second.drop_last());
        assert(both.last() == second.last());
        batches_add_up(state, first, second.drop_last());
    }
}

/// Whether `to_scancode` may report `raw` for a key. What it reports depends on the platform.
pub uninterp spec fn may_have_scancode(key: PhysicalKey, raw: Option<u32>) -> bool;

/// `PhysicalKeyExtScancode::to_scancode`: the identifier of the key on this platform.
#[verifier::external_body]
fn raw_scancode(key: PhysicalKey) -> (raw: Option<u32>)
    ensures
        may_have_scancode(key, raw),
{
    key.to_scancode()
}

/// `Scancode::from_u16`: the low byte is the code, and the scan code is extended when the three
/// highest bits are set.
#[verifier::external_body]
fn split_scancode(raw: u16) -> (parts: (bool, u8))
    ensures
        parts.0 == (raw & 0xE000 == 0xE000),
        parts.1 == raw % 256,
{
    RdpScancode::from_u16(raw).as_u8()
}

/// The three highest of sixteen bits are set in the numbers from 0xE000 on.
proof fn lemma_high_bits(raw: u16)
    ensures
        (raw & 0xE000 == 0xE000) == (raw >= 0xE000),
{
    assert((raw & 0xE000 == 0xE000) == (raw >= 0xE000)) by (bit_vector);
}

impl Scancode {
    /// The scan code that a sixteen-bit number stands for.
    pub open spec fn of(raw: u16) -> Scancode {
        Scancode { extended: raw & 0xE000 == 0xE000, code: (raw % 256) as u8 }
    }

    /// The scan code that a platform's identifier stands for, if it has sixteen bits.
    pub open spec fn of_raw(raw: Option<u32>) -> Option<Scancode> {
        match raw {
            Some(raw) if raw <= u16::MAX => Some(Scancode::of(raw as u16)),
            _ => None,
        }
    }

    /// The scan code that a sixteen-bit number stands for.
    pub fn from_u16(raw: u16) -> (scancode: Scancode)
        ensures
            scancode == Scancode::of(raw),
            scancode.code == raw % 256,
            scancode.extended == (raw >= 0xE000),
    {
        proof {
            lemma_high_bits(raw);
        }
        let (extended, code) = split_scancode(raw);
        Scancode { extended, code }
    }

    /// The scan code that a platform's identifier stands for, if it has sixteen bits.
    pub fn from_raw(raw: Option<u32>) -> (scancode: Option<Scancode>)
        ensures
            scancode == Scancode::of_raw(raw),
            raw is None ==> scancode is None,
            raw matches Some(id) ==> (scancode is Some <==> id <= 0xFFFF),
            raw matches Some(id) ==> (id <= 0xFFFF ==> scancode->Some_0.code == id % 256
                && scancode->Some_0.extended == (id >= 0xE000)),
    {
        match raw {
            Some(raw) if raw <= 0xFFFF => Some(Scancode::from_u16(raw as u16)),
            _ => None,
        }
    }
}

/// The scan code of a key, as far as the platform has an identifier for it that fits.
pub fn physical_key_to_scancode(key: PhysicalKey) -> (scancode: Option<Scancode>)
    ensures
        exists|raw: Option<u32>|
            #[trigger] may_have_scancode(key, raw) && scancode == Scancode::of_raw(raw),
        exists|raw: Option<u32>|
            #[trigger] may_have_scancode(key, raw) && match raw {
                Some(id) if id <= 0xFFFF => scancode == Some(
                    Scancode { extended: id >= 0xE000, code: (id % 256) as u8 },
                ),
                _ => scancode is None,
            },
{
    let raw = raw_scancode(key);
    Scancode::from_raw(raw)
}

/// The remote side's name of a button, as far as it has one.
pub open spec fn remote_button(button: WindowButton) -> Option<MouseButton> {
    match button {
        WindowButton::Left => Some(MouseButton::Left),
        WindowButton::Middle => Some(MouseButton::Middle),
        WindowButton::Right => Some(MouseButton::Right),
        WindowButton::Back => Some(MouseButton::X1),
        WindowButton::Forward => Some(MouseButton::X2),
        WindowButton::Other(_) => None,
    }
}

/// The remote side's name of a button, as far as it has one.
pub fn winit_button_to_ironrdp(button: WindowButton) -> (remote: Option<MouseButton>)
    ensures
        remote == remote_button(button),
        remote is None <==> button is Other,
        remote == Some(MouseButton::Left) <==> button == WindowButton::Left,
        remote == Some(MouseButton::Middle) <==> button == WindowButton::Middle,
        remote == Some(MouseButton::Right) <==> button == WindowButton::Right,
        remote == Some(MouseButton::X1) <==> button == WindowButton::Back,
        remote == Some(MouseButton::X2) <==> button == WindowButton::Forward,
{
    match button {
        WindowButton::Left => Some(MouseButton::Left),
        WindowButton::Middle => Some(MouseButton::Middle),
        WindowButton::Right => Some(MouseButton::Right),
        WindowButton::Back => Some(MouseButton::X1),
        WindowButton::Forward => Some(MouseButton::X2),
        WindowButton::Other(_) => None,
    }
}

/// No two buttons of the window are the same button on the remote side, and every remote button
/// has one on the window.
pub proof fn buttons_are_told_apart(a: WindowButton, b: WindowButton, remote: MouseButton)
    ensures
        remote_button(a) is Some && remote_button(a) == remote_button(b) ==> a == b,
        exists|button: WindowButton| remote_button(button) == Some(remote),
{
    let button = match remote {
        MouseButton::Left => WindowButton::Left,
        MouseButton::Middle => WindowButton::Middle,
        MouseButton::Right => WindowButton::Right,
        MouseButton::X1 => WindowButton::Back,
        MouseButton::X2 => WindowButton::Forward,
    };
    assert(remote_button(button) == Some(remote));
}

/// The operation for a key going down or up.
pub open spec fn key_operation_of(key: Scancode, pressed: bool) -> Operation {
    if pressed {
        Operation::KeyPressed(key)
    } else {
        Operation::KeyReleased(key)
    }
}

/// The operation for a button going down or up.
pub open spec fn button_operation_of(button: MouseButton, pressed: bool) -> Operation {
    if pressed {
        Operation::MouseButtonPressed(button)
    } else {
        Operation::MouseButtonReleased(button)
    }
}

/// The operations for a turn of the wheel: the horizontal part before the vertical one.
pub open spec fn wheel_operations_of(horizontal: Option<i16>, vertical: Option<i16>) -> Seq<
    Operation,
> {
    let across: Seq<Operation> = match horizontal {
        Some(units) => seq![
            Operation::WheelRotations(WheelRotations { is_vertical: false, rotation_units: units }),
        ],
        None => seq![],
    };
    let along: Seq<Operation> = match vertical {
        Some(units) => seq![
            Operation::WheelRotations(WheelRotations { is_vertical: true, rotation_units: units }),
        ],
        None => seq![],
    };
    across + along
}

/// The operation for a key going down or up.
pub fn key_operation(key: Scancode, pressed: bool) -> (operation: Operation)
    ensures
        pressed ==> operation == Operation::KeyPressed(key),
        !pressed ==> operation == Operation::KeyReleased(key),
        operation == key_operation_of(key, pressed),
{
    if pressed {
        Operation::KeyPressed(key)
    } else {
        Operation::KeyReleased(key)
    }
}

/// The operation for a button going down or up.
pub fn button_operation(button: MouseButton, pressed: bool) -> (operation: Operation)
    ensures
        pressed ==> operation == Operation::MouseButtonPressed(button),
        !pressed ==> operation == Operation::MouseButtonReleased(button),
        operation == button_operation_of(button, pressed),
{
    if pressed {
        Operation::MouseButtonPressed(button)
    } else {
        Operation::MouseButtonReleased(button)
    }
}

/// The operations for a turn of the wheel by the given units, the horizontal part first. A part
/// that is `None` was too small to count.
pub fn wheel_operations(horizontal: Option<i16>, vertical: Option<i16>) -> (operations: Vec<
    Operation,
>)
    ensures
        operations@ == wheel_operations_of(horizontal, vertical),
        horizontal is None && vertical is None ==> operations@.len() == 0,
        horizontal is Some && vertical is None ==> operations@.len() == 1,
        horizontal is None && vertical is Some ==> operations@.len() == 1,
        horizontal is Some && vertical is Some ==> operations@.len() == 2,
        horizontal matches Some(units) ==> operations@[0] == Operation::WheelRotations(
            WheelRotations { is_vertical: false, rotation_units: units },
        ),
        vertical matches Some(units) ==> operations@.last() == Operation::WheelRotations(
            WheelRotations { is_vertical: true, rotation_units: units },
        ),
{
    let mut operations: Vec<Operation> = Vec::new();
    if let Some(units) = horizontal {
        operations.push(
            Operation::WheelRotations(WheelRotations { is_vertical: false, rotation_units: units }),
        );
    }
    if let Some(units) = vertical {
        operations.push(
            Operation::WheelRotations(WheelRotations { is_vertical: true, rotation_units: units }),
        );
    }
    assert(operations@ =~= wheel_operations_of(horizontal, vertical));
    operations
}

/// Every identifier of sixteen bits has a scan code, and no other has one. Its code is the low byte
/// of the identifier, and it is extended from 0xE000 on.
pub proof fn every_sixteen_bit_identifier_has_a_scancode(id: u32)
    ensures
        Scancode::of_raw(None) is None,
        Scancode::of_raw(Some(id)) is Some <==> id <= 0xFFFF,
        id <= 0xFFFF ==> Scancode::of_raw(Some(id))->Some_0.code == id % 256,
        id <= 0xFFFF ==> Scancode::of_raw(Some(id))->Some_0.extended == (id >= 0xE000),
{
    if id <= 0xFFFF {
        lemma_high_bits(id as u16);
    }
}

/// Identifiers below 0xE000 have the same scan code exactly when their low bytes are the same, and
/// so have those from 0xE000 on; across that border no two have the same.
pub proof fn scancodes_are_told_apart(a: u32, b: u32)
    requires
        a <= 0xFFFF,
        b <= 0xFFFF,
    ensures
        Scancode::of_raw(Some(a)) == Scancode::of_raw(Some(b)) <==> a % 256 == b % 256 && (a
            >= 0xE000) == (b >= 0xE000),
{
    every_sixteen_bit_identifier_has_a_scancode(a);
    every_sixteen_bit_identifier_has_a_scancode(b);
}

/// The window's left, middle, right, back and forward buttons are the remote left, middle, right,
/// first and second extra button, and no other button of the window is one there.
pub proof fn buttons_have_their_names(number: u16)
    ensures
        remote_button(WindowButton::Left) == Some(MouseButton::Left),
        remote_button(WindowButton::Middle) == Some(MouseButton::Middle),
        remote_button(WindowButton::Right) == Some(MouseButton::Right),
        remote_button(WindowButton::Back) == Some(MouseButton::X1),
        remote_button(WindowButton::Forward) == Some(MouseButton::X2),
        remote_button(WindowButton::Other(number)) is None,
{
}

/// A press and a release are told of the very key and the very button that went down or up, so that
/// in any state the press leaves it down and the release leaves it up, and all others as they were.
pub proof fn presses_and_releases_are_of_the_same_thing(
    state: InputState,
    key: Scancode,
    button: MouseButton,
    other_key: Scancode,
    other_button: MouseButton,
    pressed: bool,
)
    ensures
        ({
            let typed = state.after(key_operation_of(key, pressed));
            let clicked = state.after(button_operation_of(button, pressed));
            &&& typed.keys.contains(key) == pressed
            &&& other_key != key ==> typed.keys.contains(other_key) == state.keys.contains(
                other_key,
            )
            &&& typed.buttons == state.buttons && typed.position == state.position
            &&& clicked.buttons.contains(button) == pressed
            &&& other_button != button ==> clicked.buttons.contains(other_button)
                == state.buttons.contains(other_button)
            &&& clicked.keys == state.keys && clicked.position == state.position
        }),
        key_operation_of(key, pressed) is KeyPressed <==> pressed,
        button_operation_of(button, pressed) is MouseButtonPressed <==> pressed,
{
}

/// A turn of the wheel is told by its units in each direction, the horizontal part first, with
/// nothing for a direction in which there was none.
pub proof fn turns_are_told_with_their_units(horizontal: Option<i16>, vertical: Option<i16>)
    ensures
        ({
            let told = wheel_operations_of(horizontal, vertical);
            let parts: int = (if horizontal is Some {
                1int
            } else {
                0int
            }) + (if vertical is Some {
                1int
            } else {
                0int
            });
            &&& told.len() == parts
            &&& horizontal matches Some(units) ==> told[0] == Operation::WheelRotations(
                WheelRotations { is_vertical: false, rotation_units: units },
            )
            &&& vertical matches Some(units) ==> told[parts - 1] == Operation::WheelRotations(
                WheelRotations { is_vertical: true, rotation_units: units },
            )
        }),
{
}

/// Renaming an operation for the input database changes nothing about it.
proof fn named_operations_are_the_same(operation: NamedOperation)
    ensures
        match operation {
            NamedOperation::MouseButtonPressed(b) => operation@ is MouseButtonPressed
                && operation@->MouseButtonPressed_0 == button_named(b),
            NamedOperation::MouseButtonReleased(b) => operation@ is MouseButtonReleased
                && operation@->MouseButtonReleased_0 == button_named(b),
            NamedOperation::MouseMove(p) => operation@ is MouseMove && operation@->MouseMove_0 == p,
            NamedOperation::WheelRotations(w) => operation@ is WheelRotations
                && operation@->WheelRotations_0 == w,
            NamedOperation::KeyPressed(k) => operation@ is KeyPressed && operation@->KeyPressed_0
                == k,
            NamedOperation::KeyReleased(k) => operation@ is KeyReleased
                && operation@->KeyReleased_0 == k,
        },
{
}

} // verus!
