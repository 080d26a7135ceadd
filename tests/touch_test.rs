use host_core::mapping::Fraction;
use host_core::protocol::PointerAction;
use host_core::touch::{AdbTouchCommand, TouchRuntime};

fn half() -> Fraction {
    Fraction::new(1, 2)
}

#[test]
fn down_then_up_in_place_is_a_tap() {
    let mut runtime = TouchRuntime::new();
    assert_eq!(runtime.plan_touch_command(0, PointerAction::Down, half(), half()), None);
    let command = runtime.plan_touch_command(0, PointerAction::Up, half(), half());
    assert_eq!(command, Some(AdbTouchCommand::Tap { x: 1230, y: 540 }));
}

#[test]
fn long_drag_is_a_swipe_with_fixed_duration() {
    let mut runtime = TouchRuntime::new();
    let zero = Fraction::new(0, 1);
    assert_eq!(runtime.plan_touch_command(0, PointerAction::Down, zero, zero), None);
    assert_eq!(runtime.plan_touch_command(0, PointerAction::Move, half(), half()), None);
    let command = runtime.plan_touch_command(0, PointerAction::Up, zero, zero);
    assert_eq!(
        command,
        Some(AdbTouchCommand::Swipe {
            start_x: 0,
            start_y: 0,
            end_x: 1230,
            end_y: 540,
            duration_ms: 40,
        })
    );
}

#[test]
fn small_drag_within_slop_is_a_tap_at_the_end() {
    let mut runtime = TouchRuntime::new();
    runtime.set_target(101, 101);
    let a = Fraction::new(10, 100);
    let b = Fraction::new(22, 100);
    runtime.plan_touch_command(0, PointerAction::Down, a, a);
    runtime.plan_touch_command(0, PointerAction::Move, b, b);
    let command = runtime.plan_touch_command(0, PointerAction::Up, b, b);
    assert_eq!(command, Some(AdbTouchCommand::Tap { x: 22, y: 22 }));

    runtime.plan_touch_command(0, PointerAction::Down, a, a);
    runtime.plan_touch_command(0, PointerAction::Move, Fraction::new(23, 100), b);
    let command = runtime.plan_touch_command(0, PointerAction::Up, b, b);
    assert_eq!(
        command,
        Some(AdbTouchCommand::Swipe { start_x: 10, start_y: 10, end_x: 23, end_y: 22, duration_ms: 40 })
    );
}

#[test]
fn other_pointers_and_cancel_produce_nothing() {
    let mut runtime = TouchRuntime::new();
    assert_eq!(runtime.plan_touch_command(1, PointerAction::Down, half(), half()), None);
    assert_eq!(runtime.plan_touch_command(1, PointerAction::Up, half(), half()), None);
    runtime.plan_touch_command(0, PointerAction::Down, half(), half());
    assert_eq!(runtime.plan_touch_command(0, PointerAction::Cancel, half(), half()), None);
    let zero = Fraction::new(0, 1);
    let command = runtime.plan_touch_command(0, PointerAction::Up, zero, zero);
    assert_eq!(command, Some(AdbTouchCommand::Tap { x: 0, y: 0 }));
}

#[test]
fn serial_is_resolved_once_and_cleared_on_disconnect() {
    let mut runtime = TouchRuntime::new();
    runtime.connect("192.168.1.9".to_string());
    assert!(runtime.accepts_from("192.168.1.9"));
    assert!(!runtime.accepts_from("192.168.1.10"));
    assert_eq!(runtime.serial(), None);
    let first = runtime
        .ensure_mumu_serial("List of devices attached\n127.0.0.1:7555\tdevice\n")
        .expect("serial");
    assert_eq!(first, "127.0.0.1:7555");
    let again = runtime
        .ensure_mumu_serial("List of devices attached\nother\tdevice\n")
        .expect("cached serial");
    assert_eq!(again, "127.0.0.1:7555");
    runtime.clear_connection();
    assert_eq!(runtime.serial(), None);
    assert!(!runtime.accepts_from("192.168.1.9"));
    assert!(runtime
        .ensure_mumu_serial("List of devices attached\n")
        .is_err());
}

#[test]
fn gestures_render_as_shell_input_words() {
    let tap = AdbTouchCommand::Tap { x: 12, y: 0 };
    assert_eq!(tap.shell_args(), vec!["tap", "12", "0"]);
    let swipe = AdbTouchCommand::Swipe { start_x: 1, start_y: 22, end_x: 333, end_y: 4444, duration_ms: 40 };
    assert_eq!(swipe.shell_args(), vec!["swipe", "1", "22", "333", "4444", "40"]);
}
