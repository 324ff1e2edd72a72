use tdv::server::{echoes, FrameKind};
use tdv::tdv_client::{connect_request, server_url, ws_uri, ClientError};
use tdv::tdv_msg::WsMessage;
use tdv::tdv_server::{peer_role, ConnectionPlan, Hub, PeerRole};

#[test]
fn roles_from_replies() {
    assert_eq!(peer_role::<f64>(&WsMessage::IAmUI), PeerRole::Ui);
    assert_eq!(peer_role::<f64>(&WsMessage::IAmClient), PeerRole::Client);
    assert_eq!(peer_role::<f64>(&WsMessage::Ignore), PeerRole::Unknown);
    assert_eq!(peer_role::<f64>(&WsMessage::WhoAreYou), PeerRole::Unknown);
}

#[test]
fn hub_registers_peers() {
    let mut hub = Hub::new();
    assert!(!hub.has_ui() && !hub.has_client());
    assert_eq!(hub.on_identified::<f64>(&WsMessage::Ignore), ConnectionPlan::Close);
    assert!(!hub.has_ui() && !hub.has_client());
    assert_eq!(hub.on_identified::<f64>(&WsMessage::IAmClient), ConnectionPlan::RelayClient);
    assert!(!hub.has_ui() && hub.has_client());
    assert_eq!(hub.on_identified::<f64>(&WsMessage::IAmUI), ConnectionPlan::HoldUi);
    assert!(hub.has_ui() && hub.has_client());
}

#[test]
fn uris() {
    assert_eq!(ws_uri(&"0.0.0.0:9002".to_string()), "ws://0.0.0.0:9002");
    match connect_request::<f64>(&"0.0.0.0:9002".to_string()) {
        WsMessage::Connect(c) => assert_eq!(c.address, "0.0.0.0:9002"),
        other => panic!("unexpected {:?}", other),
    }
}

#[test]
fn server_url_is_parsed() {
    let url = server_url(&"0.0.0.0:9001".to_string());
    assert!(matches!(&url, Ok(u) if u == "ws://0.0.0.0:9001/"));
    let url = server_url(&"Example.COM:80".to_string());
    assert!(matches!(&url, Ok(u) if u == "ws://example.com/"));
}

#[test]
fn server_url_refuses_bad_address() {
    assert!(matches!(server_url(&"[".to_string()), Err(ClientError::InvalidAddress)));
    assert!(matches!(server_url(&"host:99999".to_string()), Err(ClientError::InvalidAddress)));
}

#[test]
fn echo_only_data_frames() {
    assert!(echoes(FrameKind::Text));
    assert!(echoes(FrameKind::Binary));
    assert!(!echoes(FrameKind::Ping));
    assert!(!echoes(FrameKind::Pong));
    assert!(!echoes(FrameKind::Close));
    assert!(!echoes(FrameKind::Frame));
}
