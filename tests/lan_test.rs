use host_core::lan::{
    classify_connect_reply, connect_request_message, disconnect_message, discover_message,
    is_pong_reply, parse_discovery_response, parse_touch_packet, ping_message, record_discovered,
    ConnectReply, LanDevice,
};
use host_core::protocol::PointerAction;

#[test]
fn discovery_answer_becomes_a_device() {
    let device = parse_discovery_response("  LMC_DEVICE|Pixel 8|1.2.0|43000\n", "192.168.1.7")
        .expect("device");
    assert_eq!(device.id, "192.168.1.7:43000");
    assert_eq!(device.name, "Pixel 8");
    assert_eq!(device.ip, "192.168.1.7");
    assert_eq!(device.control_port, 43000);
    assert_eq!(device.version, "1.2.0");
}

#[test]
fn malformed_discovery_answers_are_dropped() {
    assert!(parse_discovery_response("LMC_DEVICE|Pixel|1.0", "10.0.0.1").is_none());
    assert!(parse_discovery_response("LMC_DEVICES|Pixel|1.0|1", "10.0.0.1").is_none());
    assert!(parse_discovery_response("LMC_DEVICE|Pixel|1.0|70000", "10.0.0.1").is_none());
    assert!(parse_discovery_response("LMC_DEVICE|Pixel|1.0|12a", "10.0.0.1").is_none());
    let extra = parse_discovery_response("LMC_DEVICE|Pixel|1.0|+8|x", "10.0.0.1").expect("device");
    assert_eq!(extra.control_port, 8);
}

#[test]
fn touch_datagram_fields() {
    let packet = parse_touch_packet("LMC_TOUCH|s1|0|MOVE|0.25|0.75|1.0|123\n").expect("packet");
    assert_eq!(packet.pointer_id, 0);
    assert_eq!(packet.action, PointerAction::Move);
    assert_eq!(packet.x, "0.25");
    assert_eq!(packet.y, "0.75");
    assert_eq!(packet.pressure, "1.0");
    assert!(parse_touch_packet("LMC_TOUCH|s1|0|HOVER|0.25|0.75|1.0|123").is_none());
    assert!(parse_touch_packet("LMC_TOUCH|s1|256|UP|0.25|0.75|1.0|123").is_none());
    assert!(parse_touch_packet("LMC_TOUCH|s1|0|UP|0.25|0.75|1.0").is_none());
    assert!(parse_touch_packet("LMC_PING|s1|0|UP|0.25|0.75|1.0|1").is_none());
}

#[test]
fn outgoing_messages() {
    assert_eq!(discover_message("DESK", 50123), "LMC_DISCOVER|DESK|50123");
    assert_eq!(connect_request_message("DESK", 42044), "LMC_CONNECT_REQUEST|DESK|42044");
    assert_eq!(ping_message(), "LMC_PING");
    assert_eq!(disconnect_message(), "LMC_DISCONNECT|HOST");
}

#[test]
fn connection_answers_count_only_from_the_phone() {
    assert_eq!(
        classify_connect_reply("10.0.0.2", "10.0.0.2", " LMC_CONNECT_ACCEPT|ok\n"),
        ConnectReply::Accepted
    );
    assert_eq!(
        classify_connect_reply("10.0.0.2", "10.0.0.2", "LMC_CONNECT_REJECT"),
        ConnectReply::Rejected
    );
    assert_eq!(
        classify_connect_reply("10.0.0.3", "10.0.0.2", "LMC_CONNECT_ACCEPT"),
        ConnectReply::Unrelated
    );
    assert_eq!(
        classify_connect_reply("10.0.0.2", "10.0.0.2", "LMC_PONG"),
        ConnectReply::Unrelated
    );
    assert!(is_pong_reply("10.0.0.2", "10.0.0.2", "LMC_PONG\r\n"));
    assert!(!is_pong_reply("10.0.0.2", "10.0.0.2", "LMC_PONGS"));
    assert!(!is_pong_reply("10.0.0.9", "10.0.0.2", "LMC_PONG"));
}

fn device(name: &str, ip: &str, port: u16) -> LanDevice {
    LanDevice {
        id: format!("{}:{}", ip, port),
        name: name.to_string(),
        ip: ip.to_string(),
        control_port: port,
        version: "1".to_string(),
    }
}

#[test]
fn discovered_list_is_sorted_and_deduplicated() {
    let mut list = Vec::new();
    record_discovered(&mut list, device("Tablet", "10.0.0.5", 1));
    record_discovered(&mut list, device("Phone", "10.0.0.9", 1));
    record_discovered(&mut list, device("Phone", "10.0.0.10", 1));
    let mut again = device("Tablet", "10.0.0.5", 1);
    again.version = "2".to_string();
    record_discovered(&mut list, again);
    let keys: Vec<(String, String, String)> = list
        .iter()
        .map(|d| (d.name.clone(), d.ip.clone(), d.version.clone()))
        .collect();
    assert_eq!(
        keys,
        vec![
            ("Phone".to_string(), "10.0.0.10".to_string(), "1".to_string()),
            ("Phone".to_string(), "10.0.0.9".to_string(), "1".to_string()),
            ("Tablet".to_string(), "10.0.0.5".to_string(), "2".to_string()),
        ]
    );
}
