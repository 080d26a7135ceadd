use host_core::adb::{find_mumu_candidate, parse_adb_devices, AdbDeviceState};
use host_core::bridge::{MumuBridge, MumuBridgeError, ScaledEvent};
use host_core::mapping::{scale_clamped, Fraction};
use host_core::minitouch::{MinitouchBuilder, TouchPoint};
use host_core::protocol::PointerAction;

#[test]
fn parse_adb_devices_extracts_online_rows() {
    let sample = "List of devices attached\n127.0.0.1:7555\tdevice\nemulator-5554\toffline\n";
    let devices = parse_adb_devices(sample);

    assert_eq!(devices.len(), 2);
    assert_eq!(devices[0].serial, "127.0.0.1:7555");
    assert_eq!(devices[0].state, AdbDeviceState::Device);
    assert_eq!(devices[1].state, AdbDeviceState::Offline);
}

#[test]
fn pick_mumu_candidate_prefers_local_loopback_serial() {
    let sample = "List of devices attached\n192.168.1.11:7555\tdevice\n127.0.0.1:7555\tdevice\n";
    let devices = parse_adb_devices(sample);

    let picked = find_mumu_candidate(&devices).expect("candidate");
    assert_eq!(picked.serial, "127.0.0.1:7555");
}

#[test]
fn minitouch_builder_encodes_multitouch_frame() {
    let payload = MinitouchBuilder::default()
        .down(TouchPoint::new(0, 120, 300, 50))
        .move_to(TouchPoint::new(0, 150, 350, 40))
        .up(0)
        .commit()
        .to_string();

    assert_eq!(payload, "d 0 120 300 50\nm 0 150 350 40\nu 0\nc\n");
}

#[test]
fn bridge_picks_target_serial_from_adb_output() {
    let bridge = MumuBridge::new(2460, 1080);
    let sample = "List of devices attached\n192.168.1.20:7555\tdevice\n127.0.0.1:7555\tdevice\n";

    let serial = bridge
        .discover_serial_from_adb_output(sample)
        .expect("serial should be discovered");

    assert_eq!(serial, "127.0.0.1:7555");
}

fn scaled(bridge: &MumuBridge, pointer_id: u8, action: PointerAction, x: Fraction, y: Fraction, pressure: Fraction) -> ScaledEvent {
    ScaledEvent {
        pointer_id,
        action,
        x: scale_clamped(x, bridge.width()),
        y: scale_clamped(y, bridge.height()),
        pressure: scale_clamped(pressure, 100),
    }
}

#[test]
fn bridge_translates_touch_events_into_minitouch_payload() {
    let bridge = MumuBridge::new(2460, 1080);
    let half = Fraction::new(1, 2);
    let payload = bridge
        .build_minitouch_payload(&[
            scaled(&bridge, 0, PointerAction::Down, half, half, Fraction::new(8, 10)),
            scaled(&bridge, 0, PointerAction::Up, half, half, Fraction::new(2, 10)),
        ])
        .expect("payload should build");

    assert_eq!(payload, "d 0 1230 540 80\nu 0\nc\n");
}

#[test]
fn empty_batch_is_rejected() {
    let bridge = MumuBridge::new(2460, 1080);
    let err = bridge.build_minitouch_payload(&[]).expect_err("empty batch");
    assert!(matches!(err, MumuBridgeError::EmptyEventBatch));
}

#[test]
fn cancel_lifts_and_move_keeps_slot() {
    let bridge = MumuBridge::new(100, 100);
    let events = [
        ScaledEvent { pointer_id: 3, action: PointerAction::Move, x: 7, y: 8, pressure: 9 },
        ScaledEvent { pointer_id: 3, action: PointerAction::Cancel, x: 0, y: 0, pressure: 0 },
    ];
    let payload = bridge.build_minitouch_payload(&events).expect("payload");
    assert_eq!(payload, "m 3 7 8 9\nu 3\nc\n");
}

#[test]
fn empty_builder_renders_nothing() {
    assert_eq!(MinitouchBuilder::default().to_string(), "");
    assert_eq!(MinitouchBuilder::default().commit().to_string(), "c\n");
}

#[test]
fn listing_skips_header_blank_and_short_lines() {
    let sample = "List of devices attached\r\n\r\n  emulator-5556   unauthorized  usb:1\r\nlonely\nabc\tbootloader\n";
    let devices = parse_adb_devices(sample);
    assert_eq!(devices.len(), 2);
    assert_eq!(devices[0].serial, "emulator-5556");
    assert_eq!(devices[0].state, AdbDeviceState::Unauthorized);
    assert_eq!(devices[1].serial, "abc");
    assert_eq!(devices[1].state, AdbDeviceState::Unknown("bootloader".to_string()));
}

#[test]
fn header_only_listing_has_no_devices() {
    assert!(parse_adb_devices("List of devices attached\n").is_empty());
    assert!(parse_adb_devices("").is_empty());
    assert!(parse_adb_devices("127.0.0.1:7555\tdevice").is_empty());
}

#[test]
fn candidate_ranking_and_ties() {
    let sample = "List of devices attached\n127.0.0.1:5555\toffline\nphone-a\tdevice\n10.0.0.2:7555\tdevice\nphone-b\tdevice\n";
    let devices = parse_adb_devices(sample);
    let picked = find_mumu_candidate(&devices).expect("candidate");
    assert_eq!(picked.serial, "10.0.0.2:7555");

    let ties = parse_adb_devices("List of devices attached\nphone-a\tdevice\nphone-b\tdevice\n");
    let picked = find_mumu_candidate(&ties).expect("candidate");
    assert_eq!(picked.serial, "phone-b");
}

#[test]
fn no_online_device_is_an_error() {
    let bridge = MumuBridge::new(2460, 1080);
    let err = bridge
        .discover_serial_from_adb_output("List of devices attached\n127.0.0.1:7555\toffline\n")
        .expect_err("nothing online");
    assert!(matches!(err, MumuBridgeError::NoDeviceFound));
    assert!(find_mumu_candidate(&[]).is_none());
}
