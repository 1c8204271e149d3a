use willow_was::bridge::{BridgeAction, BridgePhase, EndpointBridge, EndpointRequest, RECONNECT_BACKOFF_MS};
use willow_was::config::{BridgeConfig, WillowCommandEndpoint};
use willow_was::correlation::CorrelationTable;
use willow_was::messages::{
    OutboundFrame, WillowMsg, WillowMsgCmd, WillowMsgCmdDataType, WillowMsgCmdEndpointData, WillowMsgCmdType,
};
use willow_was::registry::{ConnectionRegistry, RegistryError};
use willow_was::router::{route_device_command, route_endpoint_result, RouteError};
use willow_was::session::{DeviceSession, SessionEvent};

fn ha_config(url: &str, token: &str) -> BridgeConfig {
    BridgeConfig {
        url: url.to_string(),
        token: token.to_string(),
        tls: false,
        kind: WillowCommandEndpoint::HomeAssistant,
    }
}

fn endpoint_cmd(text: &str) -> WillowMsgCmd {
    WillowMsgCmd {
        cmd: WillowMsgCmdType::Endpoint,
        data: Some(WillowMsgCmdDataType::Endpoint(WillowMsgCmdEndpointData { text: text.to_string() })),
    }
}

fn ready_bridge() -> EndpointBridge {
    let mut b = EndpointBridge::new(ha_config("ws://ha:8123/api/websocket", "tok"));
    b.begin_connect();
    b.connected();
    b.auth_ok();
    assert_eq!(b.current_phase(), BridgePhase::Ready);
    b
}

#[test]
fn dispatch_then_resolve_returns_owner_once() {
    let mut t = CorrelationTable::new();
    let id = t.dispatch(42).unwrap();
    assert_eq!(id, 1);
    assert_eq!(t.dispatch(43), Ok(2));
    assert_eq!(t.resolve(id), Some(42));
    assert_eq!(t.resolve(id), None);
    assert_eq!(t.resolve(77), None);
    assert_eq!(t.resolve(2), Some(43));
}

#[test]
fn purge_spares_other_generations() {
    let mut t = CorrelationTable::new();
    t.dispatch(1).unwrap();
    t.dispatch(2).unwrap();
    let old = t.generation_number();
    let new = t.begin_generation();
    assert_ne!(old, new);
    assert_eq!(t.len(), 0);
    let id = t.dispatch(3).unwrap();
    assert_eq!(id, 3);
    t.purge_generation(old);
    assert_eq!(t.len(), 1);
    assert_eq!(t.snapshot(), vec![(3, 3)]);
    t.purge_generation(new);
    assert_eq!(t.len(), 0);
}

#[test]
fn connect_cycle_and_auth() {
    let mut b = EndpointBridge::new(ha_config("ws://ha:8123/api/websocket", "secret-token"));
    assert_eq!(b.auth_required(), None);
    assert_eq!(
        b.begin_connect(),
        Some(BridgeAction::Connect { url: "ws://ha:8123/api/websocket".to_string() })
    );
    assert_eq!(b.begin_connect(), None);
    assert_eq!(b.connect_failed(), Some(BridgeAction::Wait { ms: RECONNECT_BACKOFF_MS }));
    assert_eq!(b.current_phase(), BridgePhase::Backoff);
    assert!(b.begin_connect().is_some());
    assert_eq!(b.connected(), Some(BridgeAction::SpawnWorkers));
    assert_eq!(b.current_phase(), BridgePhase::Authenticating);
    assert_eq!(
        b.auth_required(),
        Some(EndpointRequest::Auth { access_token: "secret-token".to_string() })
    );
    assert!(b.auth_ok().is_empty());
    assert_eq!(b.current_phase(), BridgePhase::Ready);
}

#[test]
fn commands_before_auth_are_queued_then_sent_in_order() {
    let mut b = EndpointBridge::new(ha_config("ws://ha:8123/api/websocket", "tok"));
    assert_eq!(b.submit(10, "first".to_string()), None);
    b.begin_connect();
    b.connected();
    assert_eq!(b.submit(11, "second".to_string()), None);
    let sent = b.auth_ok();
    assert_eq!(
        sent,
        vec![
            EndpointRequest::Command { id: 1, text: "first".to_string() },
            EndpointRequest::Command { id: 2, text: "second".to_string() },
        ]
    );
    assert_eq!(b.outstanding(), 2);
    assert_eq!(b.on_result(2, true, "ok".to_string()).map(|(o, _)| o), Some(11));
    assert_eq!(b.on_result(1, true, "ok".to_string()).map(|(o, _)| o), Some(10));
}

#[test]
fn endpoint_command_round_trip_reaches_device() {
    let mut reg = ConnectionRegistry::new();
    let mut session = DeviceSession::new();
    let mut rx = session.open(&mut reg, "Willow/1.0", 0).unwrap();
    let mut bridge = ready_bridge();

    let cmd = session
        .on_event(&mut reg, SessionEvent::Message(WillowMsg::Cmd(endpoint_cmd("turn on the lights"))))
        .unwrap();
    let req = route_device_command(&mut bridge, session.id, cmd).unwrap();
    let id = match req {
        EndpointRequest::Command { id, text } => {
            assert_eq!(text, "turn on the lights");
            id
        }
        _ => panic!("expected a command request"),
    };
    assert_eq!(id, 1);

    assert_eq!(
        route_endpoint_result(&mut bridge, &reg, id, true, "Turned on the lights".to_string()),
        Ok(session.id)
    );
    match rx.try_recv() {
        Ok(OutboundFrame::Result(r)) => {
            assert!(r.ok);
            assert_eq!(r.speech, "Turned on the lights");
        }
        _ => panic!("expected a result frame"),
    }
    assert_eq!(
        route_endpoint_result(&mut bridge, &reg, id, true, "again".to_string()),
        Err(RouteError::UnknownRequest)
    );
}

#[test]
fn result_for_departed_device_is_not_delivered() {
    let mut reg = ConnectionRegistry::new();
    let (owner, _rx) = reg.connect("Willow/1.0").unwrap();
    let mut bridge = ready_bridge();
    route_device_command(&mut bridge, owner, endpoint_cmd("hello")).unwrap();
    reg.remove(owner);
    assert_eq!(
        route_endpoint_result(&mut bridge, &reg, 1, false, "no".to_string()),
        Err(RouteError::Delivery(RegistryError::NotFound))
    );
    assert_eq!(bridge.outstanding(), 0);
}

#[test]
fn get_config_and_empty_commands_are_not_bridged() {
    let mut bridge = ready_bridge();
    let get = WillowMsgCmd { cmd: WillowMsgCmdType::GetConfig, data: None };
    assert_eq!(route_device_command(&mut bridge, 1, get), None);
    let empty = WillowMsgCmd { cmd: WillowMsgCmdType::Endpoint, data: None };
    assert_eq!(route_device_command(&mut bridge, 1, empty), None);
    assert_eq!(bridge.outstanding(), 0);
}

#[test]
fn config_change_purges_in_flight_requests() {
    let mut bridge = ready_bridge();
    for owner in 1..=3u128 {
        assert!(bridge.submit(owner, format!("cmd {owner}")).is_some());
    }
    assert_eq!(bridge.outstanding(), 3);
    let actions = bridge.config_changed(ha_config("wss://other:443/api/websocket", "new"));
    assert_eq!(
        actions,
        vec![BridgeAction::StopWorkers, BridgeAction::Wait { ms: RECONNECT_BACKOFF_MS }]
    );
    assert_eq!(bridge.outstanding(), 0);
    assert_eq!(bridge.current_phase(), BridgePhase::Backoff);
    for id in 1..=3u64 {
        assert!(bridge.on_result(id, true, "late".to_string()).is_none());
    }
    assert_eq!(
        bridge.begin_connect(),
        Some(BridgeAction::Connect { url: "wss://other:443/api/websocket".to_string() })
    );
    bridge.connected();
    assert_eq!(
        bridge.auth_required(),
        Some(EndpointRequest::Auth { access_token: "new".to_string() })
    );
    bridge.auth_ok();
    let next = bridge.submit(9, "after".to_string());
    assert!(matches!(next, Some(EndpointRequest::Command { .. })));
    assert_eq!(bridge.outstanding(), 1);
    assert_eq!(bridge.outstanding_requests().len(), 1);
    assert_eq!(bridge.outstanding_requests()[0].1, 9);
}

#[test]
fn lost_connection_reconnects_after_backoff() {
    let mut bridge = ready_bridge();
    bridge.submit(1, "x".to_string());
    assert_eq!(
        bridge.connection_lost(),
        vec![BridgeAction::StopWorkers, BridgeAction::Wait { ms: RECONNECT_BACKOFF_MS }]
    );
    assert_eq!(bridge.outstanding(), 0);
    assert!(bridge.connection_lost().is_empty());
}

#[test]
fn shutdown_stops_for_good() {
    let mut bridge = ready_bridge();
    bridge.submit(1, "x".to_string());
    assert_eq!(bridge.shutdown(), vec![BridgeAction::StopWorkers]);
    assert_eq!(bridge.current_phase(), BridgePhase::Stopped);
    assert_eq!(bridge.outstanding(), 0);
    assert_eq!(bridge.begin_connect(), None);
    assert_eq!(bridge.submit(2, "y".to_string()), None);
}

#[test]
fn config_change_while_idle_only_replaces_config() {
    let mut bridge = EndpointBridge::new(ha_config("ws://a:1/api/websocket", "t"));
    assert!(bridge.config_changed(ha_config("ws://b:2/api/websocket", "u")).is_empty());
    assert_eq!(bridge.current_config().url, "ws://b:2/api/websocket");
    assert_eq!(bridge.current_phase(), BridgePhase::Disconnected);
}
