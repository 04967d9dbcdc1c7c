use rdp_client::input::{
    button_operation, key_operation, physical_key_to_scancode, wheel_operations,
    winit_button_to_ironrdp, MouseButton, Operation, Scancode, WheelRotations, WindowButton,
};
use winit::keyboard::{KeyCode, NativeKeyCode, PhysicalKey};

#[test]
fn scancodes_are_split() {
    assert_eq!(Scancode::from_u16(0x001E), Scancode { extended: false, code: 0x1E });
    assert_eq!(Scancode::from_u16(0xE01D), Scancode { extended: true, code: 0x1D });
    assert_eq!(Scancode::from_u16(0xF01D), Scancode { extended: true, code: 0x1D });
    assert_eq!(Scancode::from_u16(0x601D), Scancode { extended: false, code: 0x1D });
    assert_eq!(Scancode::from_u16(0x0168), Scancode { extended: false, code: 0x68 });
    assert_eq!(Scancode::from_u16(0xFFFF), Scancode { extended: true, code: 0xFF });
}

#[test]
fn only_sixteen_bits_make_a_scancode() {
    assert_eq!(Scancode::from_raw(None), None);
    assert_eq!(Scancode::from_raw(Some(0xFFFF)), Some(Scancode { extended: true, code: 0xFF }));
    assert_eq!(Scancode::from_raw(Some(0x1_0000)), None);
    assert_eq!(Scancode::from_raw(Some(u32::MAX)), None);
}

#[test]
fn keys_have_the_scancodes_of_the_platform() {
    let a = physical_key_to_scancode(PhysicalKey::Code(KeyCode::KeyA));
    assert_eq!(a, Some(Scancode { extended: false, code: 30 }));
    let escape = physical_key_to_scancode(PhysicalKey::Code(KeyCode::Escape));
    assert_eq!(escape, Some(Scancode { extended: false, code: 1 }));
    let raw = PhysicalKey::Unidentified(NativeKeyCode::Xkb(0xE01D));
    assert_eq!(physical_key_to_scancode(raw), Some(Scancode { extended: true, code: 0x1D }));
    let large = PhysicalKey::Unidentified(NativeKeyCode::Xkb(0x1_0000));
    assert_eq!(physical_key_to_scancode(large), None);
    let foreign = PhysicalKey::Unidentified(NativeKeyCode::MacOS(1));
    assert_eq!(physical_key_to_scancode(foreign), None);
}

#[test]
fn five_buttons_are_passed_on() {
    assert_eq!(winit_button_to_ironrdp(WindowButton::Left), Some(MouseButton::Left));
    assert_eq!(winit_button_to_ironrdp(WindowButton::Middle), Some(MouseButton::Middle));
    assert_eq!(winit_button_to_ironrdp(WindowButton::Right), Some(MouseButton::Right));
    assert_eq!(winit_button_to_ironrdp(WindowButton::Back), Some(MouseButton::X1));
    assert_eq!(winit_button_to_ironrdp(WindowButton::Forward), Some(MouseButton::X2));
    assert_eq!(winit_button_to_ironrdp(WindowButton::Other(6)), None);
}

#[test]
fn presses_and_releases_are_told_apart() {
    let key = Scancode { extended: true, code: 0x38 };
    assert_eq!(key_operation(key, true), Operation::KeyPressed(key));
    assert_eq!(key_operation(key, false), Operation::KeyReleased(key));
    assert_eq!(
        button_operation(MouseButton::X1, true),
        Operation::MouseButtonPressed(MouseButton::X1)
    );
    assert_eq!(
        button_operation(MouseButton::X1, false),
        Operation::MouseButtonReleased(MouseButton::X1)
    );
}

#[test]
fn the_horizontal_part_of_the_wheel_comes_first() {
    let turn = |is_vertical, rotation_units| {
        Operation::WheelRotations(WheelRotations { is_vertical, rotation_units })
    };
    let across = turn(false, 7);
    let along = turn(true, -120);
    assert_eq!(wheel_operations(Some(7), Some(-120)), vec![across, along]);
    assert_eq!(wheel_operations(Some(7), None), vec![across]);
    assert_eq!(wheel_operations(None, Some(-120)), vec![along]);
    assert!(wheel_operations(None, None).is_empty());
}
