use quic_tun::config::{EndpointConfig, Role, TransportParams, TrustMode, tunnel_server_name};
use quic_tun::driver::{
    ConnectionEvent, LoopStep, StreamAcceptEvent, StreamOpenEvent, TcpConnectEvent,
    on_connection_accept, on_stream_accept, on_tcp_accept, on_tcp_connect,
};

#[test]
fn client_insecure_only_on_explicit_flag() {
    let secure = EndpointConfig::client("0.0.0.0:4443".to_string(), None, false);
    assert!(matches!(secure.trust, TrustMode::TrustStore { ca_der: None }));

    let insecure = EndpointConfig::client("0.0.0.0:4443".to_string(), None, true);
    assert!(matches!(insecure.trust, TrustMode::InsecureSkipVerify));
    assert!(matches!(insecure.role, Role::Client));
}

#[test]
fn client_keeps_supplied_ca() {
    let ca = vec![1u8, 2, 3];
    let config = EndpointConfig::client("[::]:4443".to_string(), Some(ca.clone()), false);
    match config.trust {
        TrustMode::TrustStore { ca_der: Some(der) } => assert_eq!(der, ca),
        _ => panic!("expected a trust store with the supplied root"),
    }
}

#[test]
fn server_uses_files_only_when_both_are_given() {
    let cert = vec![10u8, 11];
    let key = vec![12u8, 13];
    let both = EndpointConfig::server("0.0.0.0:4443".to_string(), Some(cert.clone()), Some(key.clone()));
    match both.trust {
        TrustMode::FileProvided { cert_der, key_der } => {
            assert_eq!(cert_der, cert);
            assert_eq!(key_der, key);
        },
        _ => panic!("expected file-provided material"),
    }
    assert!(matches!(both.role, Role::Server));

    let missing_key = EndpointConfig::server("0.0.0.0:4443".to_string(), Some(cert), None);
    assert!(matches!(missing_key.trust, TrustMode::SelfSigned));
    let missing_cert = EndpointConfig::server("0.0.0.0:4443".to_string(), None, Some(key));
    assert!(matches!(missing_cert.trust, TrustMode::SelfSigned));
    let neither = EndpointConfig::server("0.0.0.0:4443".to_string(), None, None);
    assert!(matches!(neither.trust, TrustMode::SelfSigned));
}

#[test]
fn transport_parameters_are_pinned() {
    let server = TransportParams::server_defaults();
    assert_eq!(server.keep_alive_secs, 2);
    assert_eq!(server.max_bidi_streams, 100);
    assert_eq!(server.max_uni_streams, 0);

    let client = TransportParams::client_defaults();
    assert_eq!(client.keep_alive_secs, 2);
}

#[test]
fn fixed_server_name_on_the_wire() {
    assert_eq!(tunnel_server_name(), "server");
}

#[test]
fn stream_accept_policy_ends_loop_only_on_terminal_events() {
    assert!(matches!(on_stream_accept(&StreamAcceptEvent::Opened), LoopStep::Dispatch));
    assert!(matches!(on_stream_accept(&StreamAcceptEvent::TimedOut), LoopStep::EndConnection));
    assert!(matches!(on_stream_accept(&StreamAcceptEvent::Closed), LoopStep::EndConnection));
    assert!(matches!(
        on_stream_accept(&StreamAcceptEvent::TransportFailed),
        LoopStep::EndConnection
    ));
}

#[test]
fn tcp_accept_policy_never_ends_the_loop() {
    assert!(matches!(on_tcp_accept(&StreamOpenEvent::Opened), LoopStep::Dispatch));
    assert!(matches!(on_tcp_accept(&StreamOpenEvent::ConnectFailed), LoopStep::AbandonItem));
    assert!(matches!(on_tcp_accept(&StreamOpenEvent::OpenFailed), LoopStep::AbandonItem));
}

#[test]
fn tcp_connect_policy_never_ends_the_loop() {
    assert!(matches!(on_tcp_connect(&TcpConnectEvent::Connected), LoopStep::Dispatch));
    assert!(matches!(on_tcp_connect(&TcpConnectEvent::ConnectFailed), LoopStep::AbandonItem));
}

#[test]
fn connection_accept_policy_never_ends_the_loop() {
    assert!(matches!(on_connection_accept(&ConnectionEvent::Established), LoopStep::Dispatch));
    assert!(matches!(
        on_connection_accept(&ConnectionEvent::HandshakeFailed),
        LoopStep::AbandonItem
    ));
}
