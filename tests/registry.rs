use tokio::sync::mpsc;

use willow_was::client::WillowClient;
use willow_was::control::{client_action_frame, post_client_action, ApiClientAction};
use willow_was::error::WasApiError;
use willow_was::messages::{OutboundFrame, WillowAction, WillowMsg, WillowMsgGoodbyeHello};
use willow_was::registry::{ConnectionRegistry, RegistryError, OUTBOUND_CAPACITY};
use willow_was::session::{DeviceSession, SessionEvent, SessionState};

fn hello(hostname: &str, hw_type: &str, mac: [u8; 6]) -> WillowMsgGoodbyeHello {
    WillowMsgGoodbyeHello::new(hostname.to_string(), hw_type.to_string(), mac)
}

#[test]
fn client_version_drops_product_prefix() {
    let c = WillowClient::new("Willow/0.1.2");
    assert_eq!(c.version(), "0.1.2");
    assert_eq!(c.hostname(), &None);
    assert_eq!(c.platform(), &None);
    assert_eq!(c.mac_addr(), &None);
    assert!(!c.notification_active());
    assert_eq!(WillowClient::new("curl/8.0").version(), "curl/8.0");
    assert_eq!(WillowClient::new("Willow/Willow/x").version(), "x");
}

#[test]
fn client_setters_fill_record() {
    let mut c = WillowClient::new("Willow/1.0");
    c.set_hostname("kitchen".to_string());
    c.set_platform("esp32-s3-box".to_string());
    c.set_mac_addr([0x00, 0x1a, 0x2b, 0x3c, 0x4d, 0xfe]);
    assert_eq!(c.hostname(), &Some("kitchen".to_string()));
    assert_eq!(c.platform(), &Some("esp32-s3-box".to_string()));
    assert_eq!(c.mac_addr(), &Some("00:1a:2b:3c:4d:fe".to_string()));
}

#[test]
fn register_pairs_record_and_channel() {
    let mut reg = ConnectionRegistry::new();
    let (tx, _rx) = mpsc::channel(OUTBOUND_CAPACITY);
    assert_eq!(reg.register(7, tx, "Willow/1.0"), Ok(()));
    assert!(reg.lookup_by_identity(7).is_some());
    assert_eq!(reg.connected_ids(), vec![7]);
    assert!(reg.remove(7));
    assert!(reg.lookup_by_identity(7).is_none());
    assert!(reg.connected_ids().is_empty());
}

#[test]
fn register_refuses_duplicate_identity() {
    let mut reg = ConnectionRegistry::new();
    let (tx1, _rx1) = mpsc::channel(OUTBOUND_CAPACITY);
    let (tx2, _rx2) = mpsc::channel(OUTBOUND_CAPACITY);
    assert_eq!(reg.register(1, tx1, "Willow/1.0"), Ok(()));
    assert_eq!(reg.register(1, tx2, "Willow/2.0"), Err(RegistryError::DuplicateIdentity));
    assert_eq!(reg.lookup_by_identity(1).unwrap().version(), "1.0");
}

#[test]
fn remove_twice_is_a_no_op() {
    let mut reg = ConnectionRegistry::new();
    let (tx, _rx) = mpsc::channel(OUTBOUND_CAPACITY);
    reg.register(3, tx, "Willow/1.0").unwrap();
    assert!(reg.remove(3));
    assert!(!reg.remove(3));
    assert!(reg.lookup_by_identity(3).is_none());
    assert!(reg.connected_ids().is_empty());
}

#[test]
fn send_to_unknown_identity_is_not_found() {
    let reg = ConnectionRegistry::new();
    assert_eq!(reg.send(99, OutboundFrame::Ping), Err(RegistryError::NotFound));
}

#[test]
fn send_reports_full_queue() {
    let mut reg = ConnectionRegistry::new();
    let (id, mut rx) = reg.connect("Willow/1.0").unwrap();
    for _ in 0..OUTBOUND_CAPACITY {
        assert_eq!(reg.send(id, OutboundFrame::Ping), Ok(()));
    }
    assert_eq!(reg.send(id, OutboundFrame::Ping), Err(RegistryError::ChannelFull));
    assert!(matches!(rx.try_recv(), Ok(OutboundFrame::Ping)));
    assert_eq!(reg.send(id, OutboundFrame::Ping), Ok(()));
}

#[test]
fn send_reports_closed_queue() {
    let mut reg = ConnectionRegistry::new();
    let (id, rx) = reg.connect("Willow/1.0").unwrap();
    drop(rx);
    assert_eq!(reg.send(id, OutboundFrame::Ping), Err(RegistryError::ChannelClosed));
}

#[test]
fn frames_arrive_in_submission_order() {
    let mut reg = ConnectionRegistry::new();
    let (id, mut rx) = reg.connect("Willow/1.0").unwrap();
    reg.send(id, OutboundFrame::Action(WillowAction::Restart)).unwrap();
    reg.send(id, OutboundFrame::Ping).unwrap();
    assert!(matches!(rx.try_recv(), Ok(OutboundFrame::Action(WillowAction::Restart))));
    assert!(matches!(rx.try_recv(), Ok(OutboundFrame::Ping)));
}

#[test]
fn ping_all_reaches_every_device() {
    let mut reg = ConnectionRegistry::new();
    let (a, mut rx_a) = reg.connect("Willow/1.0").unwrap();
    let (b, mut rx_b) = reg.connect("Willow/1.0").unwrap();
    let mut probed = reg.ping_all();
    probed.sort();
    let mut expected = vec![a, b];
    expected.sort();
    assert_eq!(probed, expected);
    assert!(matches!(rx_a.try_recv(), Ok(OutboundFrame::Ping)));
    assert!(matches!(rx_b.try_recv(), Ok(OutboundFrame::Ping)));
}

#[test]
fn hello_then_lookup_by_hostname() {
    let mut reg = ConnectionRegistry::new();
    let mut session = DeviceSession::new();
    let _rx = session.open(&mut reg, "Willow/1.0", 0).unwrap();
    let msg = WillowMsg::Hello(hello("willow-1", "esp32", [1, 2, 3, 4, 5, 6]));
    assert!(session.on_event(&mut reg, SessionEvent::Message(msg)).is_none());
    let id = reg.lookup_by_hostname("willow-1").unwrap();
    assert_eq!(id, session.id);
    let rec = reg.lookup_by_identity(id).unwrap();
    assert_eq!(rec.platform(), &Some("esp32".to_string()));
    assert_eq!(rec.mac_addr(), &Some("01:02:03:04:05:06".to_string()));
    assert_eq!(reg.lookup_by_hostname("willow-2"), None);
}

#[test]
fn later_hello_overwrites() {
    let mut reg = ConnectionRegistry::new();
    let (id, _rx) = reg.connect("Willow/1.0").unwrap();
    reg.apply_hello(id, &hello("a", "esp32", [0; 6])).unwrap();
    reg.apply_hello(id, &hello("b", "esp32-s3", [0; 6])).unwrap();
    assert_eq!(reg.lookup_by_hostname("a"), None);
    assert_eq!(reg.lookup_by_hostname("b"), Some(id));
    assert_eq!(reg.apply_hello(id + 1, &hello("c", "x", [0; 6])), Err(RegistryError::NotFound));
}

#[test]
fn restart_reaches_device_by_hostname() {
    let mut reg = ConnectionRegistry::new();
    let (id, mut rx) = reg.connect("Willow/1.0").unwrap();
    reg.apply_hello(id, &hello("willow-1", "esp32", [1, 2, 3, 4, 5, 6])).unwrap();
    assert_eq!(post_client_action(&reg, "willow-1", ApiClientAction::Restart), Ok(id));
    assert!(matches!(rx.try_recv(), Ok(OutboundFrame::Action(WillowAction::Restart))));
}

#[test]
fn restart_for_unknown_hostname_is_an_error() {
    let mut reg = ConnectionRegistry::new();
    let (id, mut rx) = reg.connect("Willow/1.0").unwrap();
    reg.apply_hello(id, &hello("willow-1", "esp32", [1, 2, 3, 4, 5, 6])).unwrap();
    assert_eq!(
        post_client_action(&reg, "willow-9", ApiClientAction::Restart),
        Err(WasApiError::InternalServerError("client with hostname willow-9 not found".to_string()))
    );
    assert!(rx.try_recv().is_err());
}

#[test]
fn update_sends_ota_start() {
    let mut reg = ConnectionRegistry::new();
    let (id, mut rx) = reg.connect("Willow/1.0").unwrap();
    reg.apply_hello(id, &hello("willow-1", "esp32", [1, 2, 3, 4, 5, 6])).unwrap();
    assert_eq!(post_client_action(&reg, "willow-1", ApiClientAction::Update), Ok(id));
    match rx.try_recv() {
        Ok(OutboundFrame::Action(WillowAction::OtaStart(o))) => assert_eq!(o.ota_url, ""),
        _ => panic!("expected an OTA start frame"),
    }
}

#[test]
fn unsupported_client_action_is_bad_request() {
    let mut reg = ConnectionRegistry::new();
    let (id, mut rx) = reg.connect("Willow/1.0").unwrap();
    reg.apply_hello(id, &hello("willow-1", "esp32", [1, 2, 3, 4, 5, 6])).unwrap();
    assert_eq!(
        post_client_action(&reg, "willow-1", ApiClientAction::Identify),
        Err(WasApiError::BadRequestError("action not implemented".to_string()))
    );
    assert!(rx.try_recv().is_err());
}

#[test]
fn send_failure_is_reported_with_hostname() {
    let mut reg = ConnectionRegistry::new();
    let (id, rx) = reg.connect("Willow/1.0").unwrap();
    reg.apply_hello(id, &hello("willow-1", "esp32", [1, 2, 3, 4, 5, 6])).unwrap();
    drop(rx);
    assert_eq!(
        post_client_action(&reg, "willow-1", ApiClientAction::Restart),
        Err(WasApiError::InternalServerError(
            "failed to send command to client with hostname willow-1".to_string()
        ))
    );
}

#[test]
fn session_closes_after_missed_heartbeat() {
    let mut reg = ConnectionRegistry::new();
    let mut s = DeviceSession::new();
    let _rx = s.open(&mut reg, "Willow/1.0", 1_000).unwrap();
    s.on_event(&mut reg, SessionEvent::Tick { now_ms: 11_000 });
    assert_eq!(s.state, SessionState::Active);
    s.on_event(&mut reg, SessionEvent::Pong { now_ms: 12_000 });
    s.on_event(&mut reg, SessionEvent::Tick { now_ms: 27_000 });
    assert_eq!(s.state, SessionState::Active);
    s.on_event(&mut reg, SessionEvent::Tick { now_ms: 27_001 });
    assert_eq!(s.state, SessionState::Closing);
    assert!(s.is_done());
    assert!(reg.lookup_by_identity(s.id).is_none());
    s.finish();
    assert_eq!(s.state, SessionState::Closed);
}

#[test]
fn goodbye_and_transport_close_clean_up_once() {
    let mut reg = ConnectionRegistry::new();
    let mut s = DeviceSession::new();
    let _rx = s.open(&mut reg, "Willow/1.0", 0).unwrap();
    let (other, _rx2) = reg.connect("Willow/1.0").unwrap();
    let bye = WillowMsg::Goodbye(hello("willow-1", "esp32", [1, 2, 3, 4, 5, 6]));
    s.on_event(&mut reg, SessionEvent::Message(bye));
    assert_eq!(s.state, SessionState::Closing);
    assert!(reg.lookup_by_identity(s.id).is_none());
    s.on_event(&mut reg, SessionEvent::TransportClosed);
    assert_eq!(s.state, SessionState::Closing);
    assert!(reg.lookup_by_identity(other).is_some());
}

#[test]
fn malformed_frames_keep_session_open() {
    let mut reg = ConnectionRegistry::new();
    let mut s = DeviceSession::new();
    let _rx = s.open(&mut reg, "Willow/1.0", 0).unwrap();
    assert!(s.on_event(&mut reg, SessionEvent::Malformed).is_none());
    assert!(s.on_event(&mut reg, SessionEvent::Binary).is_none());
    assert_eq!(s.state, SessionState::Active);
    assert!(reg.lookup_by_identity(s.id).is_some());
}

#[test]
fn client_action_frames() {
    assert!(matches!(
        client_action_frame(ApiClientAction::Restart),
        Some(OutboundFrame::Action(WillowAction::Restart))
    ));
    match client_action_frame(ApiClientAction::Update) {
        Some(OutboundFrame::Action(WillowAction::OtaStart(o))) => assert_eq!(o.ota_url, ""),
        _ => panic!("expected an OTA start frame"),
    }
    assert!(client_action_frame(ApiClientAction::Config).is_none());
    assert!(client_action_frame(ApiClientAction::Identify).is_none());
    assert!(client_action_frame(ApiClientAction::Notify).is_none());
}

#[test]
fn restart_goes_only_to_the_named_device() {
    let mut reg = ConnectionRegistry::new();
    let (a, mut rx_a) = reg.connect("Willow/1.0").unwrap();
    let (b, mut rx_b) = reg.connect("Willow/1.0").unwrap();
    reg.apply_hello(a, &hello("willow-1", "esp32", [1, 2, 3, 4, 5, 6])).unwrap();
    reg.apply_hello(b, &hello("willow-2", "esp32", [1, 2, 3, 4, 5, 7])).unwrap();
    assert_eq!(post_client_action(&reg, "willow-2", ApiClientAction::Restart), Ok(b));
    assert!(rx_a.try_recv().is_err());
    assert!(matches!(rx_b.try_recv(), Ok(OutboundFrame::Action(WillowAction::Restart))));
}
