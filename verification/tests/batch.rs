use rdp_client::batch::InputBatch;
use rdp_client::events::RdpInputEvent;
use rdp_client::input::{MousePosition, Operation, WheelRotations};

fn movement(x: u16) -> Operation {
    Operation::MouseMove(MousePosition { x, y: 0 })
}

fn batch_of(events: Vec<RdpInputEvent>) -> InputBatch {
    let mut batch = InputBatch::new();
    for event in events {
        if batch.should_close {
            break;
        }
        batch.add(event);
    }
    batch
}

#[test]
fn a_new_batch_is_empty() {
    let batch = InputBatch::new();
    assert!(batch.operations.is_empty());
    assert!(!batch.should_close);
}

#[test]
fn operations_are_collected_in_order() {
    let wheel = Operation::WheelRotations(WheelRotations { is_vertical: true, rotation_units: 1 });
    let batch = batch_of(vec![
        RdpInputEvent::Operations(vec![movement(1), movement(2)]),
        RdpInputEvent::Operations(vec![]),
        RdpInputEvent::Operations(vec![wheel]),
    ]);
    assert_eq!(batch.operations, vec![movement(1), movement(2), wheel]);
    assert!(!batch.should_close);
}

#[test]
fn a_resize_leaves_the_batch_alone() {
    let batch = batch_of(vec![
        RdpInputEvent::Operations(vec![movement(1)]),
        RdpInputEvent::Resize { width: 640, height: 480 },
        RdpInputEvent::Operations(vec![movement(2)]),
    ]);
    assert_eq!(batch.operations, vec![movement(1), movement(2)]);
}

#[test]
fn events_after_a_close_are_left_unread() {
    let batch = batch_of(vec![
        RdpInputEvent::Operations(vec![movement(1)]),
        RdpInputEvent::Close,
        RdpInputEvent::Operations(vec![movement(2)]),
    ]);
    assert_eq!(batch.operations, vec![movement(1)]);
    assert!(batch.should_close);
}
