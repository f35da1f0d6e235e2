use catserver::bridge::{
    axum_to_tungstenite_close_code, axum_to_tungstenite_message, is_named_close_code,
    is_standard_close_code, tungstenite_to_axum_close_code, tungstenite_to_axum_message,
    AxumCloseFrame, AxumMessage, TungsteniteCloseCode, TungsteniteCloseFrame, TungsteniteMessage,
};
use catserver::server::ServerConfig;
use catserver::tunnel::{Tunnel, TunnelAction, TunnelEvent};

fn table() -> Vec<(TungsteniteCloseCode, u16)> {
    vec![
        (TungsteniteCloseCode::Normal, 1000),
        (TungsteniteCloseCode::Away, 1001),
        (TungsteniteCloseCode::Protocol, 1002),
        (TungsteniteCloseCode::Unsupported, 1003),
        (TungsteniteCloseCode::Status, 1005),
        (TungsteniteCloseCode::Abnormal, 1006),
        (TungsteniteCloseCode::Invalid, 1007),
        (TungsteniteCloseCode::Policy, 1008),
        (TungsteniteCloseCode::Size, 1009),
        (TungsteniteCloseCode::Extension, 1010),
        (TungsteniteCloseCode::Error, 1011),
        (TungsteniteCloseCode::Restart, 1012),
        (TungsteniteCloseCode::Again, 1013),
    ]
}

fn origin() -> ServerConfig {
    ServerConfig { dns: "example.org".into(), is_using_ssl: true, local_port: 3000 }
}

fn relaying() -> Tunnel {
    let (mut tunnel, _) = Tunnel::open(&origin(), "/spots_ws");
    assert!(tunnel.on_event(TunnelEvent::Connected).is_empty());
    tunnel
}

#[test]
fn thirteen_codes_map_both_ways() {
    let table = table();
    assert_eq!(table.len(), 13);
    for (name, number) in table {
        assert!(is_named_close_code(name));
        assert!(is_standard_close_code(number));
        assert_eq!(tungstenite_to_axum_close_code(name), number);
        assert_eq!(axum_to_tungstenite_close_code(number), name);
    }
}

#[test]
fn other_codes_are_outside_the_table() {
    for number in [0u16, 999, 1004, 1014, 1015, 2999, 3000, 4000, 4999, 65535] {
        assert!(!is_standard_close_code(number));
        assert!(!is_named_close_code(TungsteniteCloseCode::Other(number)));
    }
    let mut inside = 0;
    for number in 0..=u16::MAX {
        if is_standard_close_code(number) {
            inside += 1;
        }
    }
    assert_eq!(inside, 13);
}

#[test]
fn payloads_cross_unchanged() {
    match tungstenite_to_axum_message(TungsteniteMessage::Text("héllo".into())) {
        AxumMessage::Text(text) => assert_eq!(text, "héllo"),
        other => panic!("{:?}", other),
    }
    match tungstenite_to_axum_message(TungsteniteMessage::Binary(vec![0, 255, 7])) {
        AxumMessage::Binary(bytes) => assert_eq!(bytes, vec![0, 255, 7]),
        other => panic!("{:?}", other),
    }
    match tungstenite_to_axum_message(TungsteniteMessage::Ping(vec![1])) {
        AxumMessage::Ping(bytes) => assert_eq!(bytes, vec![1]),
        other => panic!("{:?}", other),
    }
    match tungstenite_to_axum_message(TungsteniteMessage::Pong(vec![])) {
        AxumMessage::Pong(bytes) => assert!(bytes.is_empty()),
        other => panic!("{:?}", other),
    }
    match axum_to_tungstenite_message(AxumMessage::Text("{}".into())) {
        TungsteniteMessage::Text(text) => assert_eq!(text, "{}"),
        other => panic!("{:?}", other),
    }
    match axum_to_tungstenite_message(AxumMessage::Binary(vec![9])) {
        TungsteniteMessage::Binary(bytes) => assert_eq!(bytes, vec![9]),
        other => panic!("{:?}", other),
    }
    match axum_to_tungstenite_message(AxumMessage::Ping(vec![2, 3])) {
        TungsteniteMessage::Ping(bytes) => assert_eq!(bytes, vec![2, 3]),
        other => panic!("{:?}", other),
    }
    match axum_to_tungstenite_message(AxumMessage::Pong(vec![4])) {
        TungsteniteMessage::Pong(bytes) => assert_eq!(bytes, vec![4]),
        other => panic!("{:?}", other),
    }
}

#[test]
fn close_frames_cross_with_code_and_reason() {
    let frame = TungsteniteCloseFrame { code: TungsteniteCloseCode::Away, reason: "bye".into() };
    match tungstenite_to_axum_message(TungsteniteMessage::Close(Some(frame))) {
        AxumMessage::Close(Some(frame)) => {
            assert_eq!(frame.code, 1001);
            assert_eq!(frame.reason, "bye");
        }
        other => panic!("{:?}", other),
    }
    let frame = AxumCloseFrame { code: 1011, reason: "".into() };
    match axum_to_tungstenite_message(AxumMessage::Close(Some(frame))) {
        TungsteniteMessage::Close(Some(frame)) => {
            assert_eq!(frame.code, TungsteniteCloseCode::Error);
            assert_eq!(frame.reason, "");
        }
        other => panic!("{:?}", other),
    }
    assert!(matches!(
        tungstenite_to_axum_message(TungsteniteMessage::Close(None)),
        AxumMessage::Close(None)
    ));
    assert!(matches!(
        axum_to_tungstenite_message(AxumMessage::Close(None)),
        TungsteniteMessage::Close(None)
    ));
}

#[test]
fn close_frame_round_trip() {
    for (name, number) in table() {
        let there = axum_to_tungstenite_message(AxumMessage::Close(Some(AxumCloseFrame {
            code: number,
            reason: "why".into(),
        })));
        assert!(there.is_bridgeable());
        match tungstenite_to_axum_message(there) {
            AxumMessage::Close(Some(frame)) => {
                assert_eq!(frame.code, number);
                assert_eq!(frame.reason, "why");
            }
            other => panic!("{:?}", other),
        }
        let back = tungstenite_to_axum_message(TungsteniteMessage::Close(Some(
            TungsteniteCloseFrame { code: name, reason: "ünï".into() },
        )));
        assert!(back.is_bridgeable());
        match axum_to_tungstenite_message(back) {
            TungsteniteMessage::Close(Some(frame)) => {
                assert_eq!(frame.code, name);
                assert_eq!(frame.reason, "ünï");
            }
            other => panic!("{:?}", other),
        }
    }
}

#[test]
fn what_cannot_cross_is_recognised() {
    assert!(!TungsteniteMessage::Frame.is_bridgeable());
    let frame = TungsteniteCloseFrame { code: TungsteniteCloseCode::Other(1015), reason: "".into() };
    assert!(!TungsteniteMessage::Close(Some(frame)).is_bridgeable());
    let frame = AxumCloseFrame { code: 4000, reason: "".into() };
    assert!(!AxumMessage::Close(Some(frame)).is_bridgeable());
    assert!(TungsteniteMessage::Text("x".into()).is_bridgeable());
    assert!(TungsteniteMessage::Close(None).is_bridgeable());
    assert!(AxumMessage::Binary(vec![]).is_bridgeable());
    assert!(AxumMessage::Close(None).is_bridgeable());
}

#[test]
fn tunnel_connects_to_same_path() {
    let (tunnel, uri) = Tunnel::open(&origin(), "/spots_ws");
    assert_eq!(uri, "wss://example.org/spots_ws");
    assert!(!tunnel.is_closed());
    let plain = ServerConfig { dns: "dev.example.org".into(), is_using_ssl: false, local_port: 1 };
    assert_eq!(Tunnel::open(&plain, "/submit_spot").1, "ws://dev.example.org/submit_spot");
}

#[test]
fn tunnel_gives_up_when_origin_is_out_of_reach() {
    let (mut tunnel, _) = Tunnel::open(&origin(), "/spots_ws");
    assert!(tunnel.on_event(TunnelEvent::FromClient(AxumMessage::Text("x".into()))).is_empty());
    assert!(tunnel.on_event(TunnelEvent::ConnectFailed).is_empty());
    assert!(tunnel.is_closed());
    assert!(tunnel.on_event(TunnelEvent::Connected).is_empty());
    assert!(tunnel.is_closed());
}

#[test]
fn tunnel_relays_both_ways() {
    let mut tunnel = relaying();
    let up = tunnel.on_event(TunnelEvent::FromClient(AxumMessage::Text("spot".into())));
    match &up[..] {
        [TunnelAction::ToUpstream(TungsteniteMessage::Text(text))] => assert_eq!(text, "spot"),
        other => panic!("{:?}", other),
    }
    let down = tunnel.on_event(TunnelEvent::FromUpstream(TungsteniteMessage::Binary(vec![1, 2])));
    match &down[..] {
        [TunnelAction::ToClient(AxumMessage::Binary(bytes))] => assert_eq!(bytes, &vec![1, 2]),
        other => panic!("{:?}", other),
    }
    let close = tunnel.on_event(TunnelEvent::FromClient(AxumMessage::Close(Some(
        AxumCloseFrame { code: 1001, reason: "tab closed".into() },
    ))));
    match &close[..] {
        [TunnelAction::ToUpstream(TungsteniteMessage::Close(Some(frame)))] => {
            assert_eq!(frame.code, TungsteniteCloseCode::Away);
            assert_eq!(frame.reason, "tab closed");
        }
        other => panic!("{:?}", other),
    }
    assert!(!tunnel.is_closed());
}

#[test]
fn tunnel_says_goodbye_to_both_sides() {
    for event in [
        TunnelEvent::ClientEnded,
        TunnelEvent::UpstreamEnded,
        TunnelEvent::ClientSendFailed,
        TunnelEvent::UpstreamSendFailed,
    ] {
        let mut tunnel = relaying();
        let actions = tunnel.on_event(event);
        assert_eq!(actions.len(), 2);
        match &actions[0] {
            TunnelAction::ToUpstream(TungsteniteMessage::Close(Some(frame))) => {
                assert_eq!(frame.code, TungsteniteCloseCode::Normal);
                assert_eq!(frame.reason, "Goodbye");
            }
            other => panic!("{:?}", other),
        }
        match &actions[1] {
            TunnelAction::ToClient(AxumMessage::Close(Some(frame))) => {
                assert_eq!(frame.code, 1000);
                assert_eq!(frame.reason, "Goodbye");
            }
            other => panic!("{:?}", other),
        }
        assert!(tunnel.is_closed());
        assert!(tunnel.on_event(TunnelEvent::UpstreamSendFailed).is_empty());
        assert!(tunnel.on_event(TunnelEvent::ClientSendFailed).is_empty());
        assert!(tunnel.on_event(TunnelEvent::FromClient(AxumMessage::Ping(vec![]))).is_empty());
    }
}

#[test]
fn tunnel_breaks_on_what_cannot_cross() {
    let mut tunnel = relaying();
    let actions = tunnel.on_event(TunnelEvent::FromUpstream(TungsteniteMessage::Frame));
    assert!(matches!(actions[..], [TunnelAction::Abort]));
    assert!(tunnel.is_closed());

    let mut tunnel = relaying();
    let frame = AxumCloseFrame { code: 1004, reason: "".into() };
    let actions = tunnel.on_event(TunnelEvent::FromClient(AxumMessage::Close(Some(frame))));
    assert!(matches!(actions[..], [TunnelAction::Abort]));
    assert!(tunnel.is_closed());
}
