use streaming_server::network::address::{parse_port, IpAddress, PortParseError, SocketAddress};
use streaming_server::network::client_connection::{
    frontend_event_ends_watch, server_event_ends_watch, tasks_to_abort, SessionTask,
};
use streaming_server::network::iroh::{
    classify_tag, tag_of, transport_capacities, Side, StreamRole, EVENTS_TAG, FRAMES_TAG,
};
use streaming_server::network::server_connection::{ServerConnection, ServerConnectionMode};
use streaming_server::network::transport::{StreamingEvent, Transport};
use streaming_server::network::{
    ClientPipeline, ConnectionBuildError, ConnectionBuildInfo, ConnectionMode,
};
use streaming_server::text::decimal_string;

/// Reads `a.b.c.d:port` and `[::1]:port`, enough for these tests.
fn parse_addr(text: &str) -> Option<SocketAddress> {
    let (host, port) = text.rsplit_once(':')?;
    let port: u16 = port.parse().ok()?;
    if host == "[::1]" {
        return Some(SocketAddress::new(IpAddress::V6([0, 0, 0, 0, 0, 0, 0, 1]), port));
    }
    let parts: Vec<u8> = host.split('.').map(|p| p.parse::<u8>()).collect::<Result<_, _>>().ok()?;
    if parts.len() != 4 {
        return None;
    }
    Some(SocketAddress::new(IpAddress::V4([parts[0], parts[1], parts[2], parts[3]]), port))
}

type Info = ConnectionBuildInfo<(), ()>;

#[test]
fn port_parses_like_std() {
    for text in ["0", "80", "+80", "0080", "65535", "65536", "", "+", "-", "-1", " 80", "80 ", "8a", "99999", "999999x", "١"] {
        let ours = parse_port(text);
        let std_result = text.parse::<u16>();
        match (ours, std_result) {
            (Ok(a), Ok(b)) => assert_eq!(a, b, "{text:?}"),
            (Err(e), Err(s)) => {
                let expected = match s.kind() {
                    std::num::IntErrorKind::Empty => PortParseError::Empty,
                    std::num::IntErrorKind::InvalidDigit => PortParseError::InvalidDigit,
                    std::num::IntErrorKind::PosOverflow => PortParseError::PosOverflow,
                    other => panic!("unexpected kind {other:?}"),
                };
                assert_eq!(e, expected, "{text:?}");
            }
            (a, b) => panic!("{text:?}: {a:?} vs {b:?}"),
        }
    }
}

#[test]
fn port_errors() {
    assert_eq!(parse_port(""), Err(PortParseError::Empty));
    assert_eq!(parse_port("12x"), Err(PortParseError::InvalidDigit));
    assert_eq!(parse_port("70000"), Err(PortParseError::PosOverflow));
    assert_eq!(parse_port("+5000"), Ok(5000));
}

#[test]
fn port_text_roundtrip() {
    for p in [0u16, 7, 10, 99, 100, 5000, 8010, 65535] {
        let text = decimal_string(p as u32);
        assert_eq!(text, p.to_string());
        assert_eq!(parse_port(&text), Ok(p));
    }
}

#[test]
fn direct_info_ipv4() {
    let r: Result<Info, _> =
        Info::from_direct_info("5000".to_string(), "192.168.1.20".to_string(), parse_addr);
    match r {
        Ok(ConnectionBuildInfo::Direct { watcher_stream_port, tcp_socket_address }) => {
            assert_eq!(watcher_stream_port, 5000);
            assert_eq!(tcp_socket_address, SocketAddress::new(IpAddress::V4([192, 168, 1, 20]), 5000));
        }
        _ => panic!("expected direct info"),
    }
}

#[test]
fn direct_info_ipv6_in_brackets() {
    let r: Result<Info, _> = Info::from_direct_info("8080".to_string(), "[::1]".to_string(), parse_addr);
    match r {
        Ok(ConnectionBuildInfo::Direct { watcher_stream_port, tcp_socket_address }) => {
            assert_eq!(watcher_stream_port, 8080);
            assert_eq!(tcp_socket_address.ip(), IpAddress::V6([0, 0, 0, 0, 0, 0, 0, 1]));
            assert_eq!(tcp_socket_address.port, 8080);
        }
        _ => panic!("expected direct info"),
    }
}

#[test]
fn direct_info_address_text() {
    assert_eq!(Info::address_text("10.0.0.1", 5000), "10.0.0.1:5000");
    assert_eq!(Info::address_text("", 0), ":0");
}

#[test]
fn direct_info_invalid_port() {
    let r: Result<Info, _> = Info::from_direct_info("port".to_string(), "10.0.0.1".to_string(), parse_addr);
    assert!(matches!(r, Err(ConnectionBuildError::InvalidPort(PortParseError::InvalidDigit))));
    let r: Result<Info, _> = Info::from_direct_info("".to_string(), "10.0.0.1".to_string(), parse_addr);
    assert!(matches!(r, Err(ConnectionBuildError::InvalidPort(PortParseError::Empty))));
}

#[test]
fn direct_info_hands_address_with_port_to_parser() {
    let seen = std::cell::RefCell::new(Vec::new());
    let r: Result<Info, _> = Info::from_direct_info("+0042".to_string(), "host".to_string(), |t: &str| {
        seen.borrow_mut().push(t.to_string());
        None
    });
    assert!(matches!(r, Err(ConnectionBuildError::InvalidIp)));
    assert_eq!(seen.into_inner(), vec!["host:42".to_string()]);
}

#[test]
fn direct_info_invalid_ip() {
    let r: Result<Info, _> = Info::from_direct_info("5000".to_string(), "not-an-ip".to_string(), parse_addr);
    assert!(matches!(r, Err(ConnectionBuildError::InvalidIp)));
    let r: Result<Info, _> = Info::from_direct_info("5000".to_string(), "10.0.0.1:80".to_string(), parse_addr);
    assert!(matches!(r, Err(ConnectionBuildError::InvalidIp)));
}

#[test]
fn direct_info_from_parsed_uses_given_port() {
    let parsed = SocketAddress::new(IpAddress::V4([1, 2, 3, 4]), 9);
    match Info::direct_info_from_parsed(7000, Some(parsed)) {
        Ok(ConnectionBuildInfo::Direct { watcher_stream_port, tcp_socket_address }) => {
            assert_eq!(watcher_stream_port, 7000);
            assert_eq!(tcp_socket_address, SocketAddress::new(IpAddress::V4([1, 2, 3, 4]), 7000));
        }
        _ => panic!("expected direct info"),
    }
    assert!(matches!(Info::direct_info_from_parsed(7000, None), Err(ConnectionBuildError::InvalidIp)));
}

#[test]
fn iroh_info_keeps_endpoint_and_ticket() {
    match ConnectionBuildInfo::from_endpoint_and_ticket("endpoint", 42u32) {
        ConnectionBuildInfo::Iroh { endpoint, ticket } => {
            assert_eq!(endpoint, "endpoint");
            assert_eq!(ticket, 42);
        }
        _ => panic!("expected iroh info"),
    }
}

#[test]
fn client_mode_and_pipeline() {
    let addr = SocketAddress::new(IpAddress::V4([127, 0, 0, 1]), 6000);
    let info: Info = ConnectionBuildInfo::Direct { watcher_stream_port: 6000, tcp_socket_address: addr };
    let mode: ConnectionMode<(), (), ()> = ConnectionMode::from_direct_build_info(info);
    match &mode {
        ConnectionMode::Direct { socket_addr, watcher_stream_port } => {
            assert_eq!(*socket_addr, addr);
            assert_eq!(*watcher_stream_port, 6000);
        }
        _ => panic!("expected direct mode"),
    }
    assert_eq!(mode.pipeline_kind(), ClientPipeline::Udp { port: 6000 });
    let iroh: ConnectionMode<&str, (), &str> = ConnectionMode::iroh_connected("conn", "ticket");
    assert_eq!(iroh.pipeline_kind(), ClientPipeline::Iroh);
    match iroh {
        ConnectionMode::Iroh { connection, frames_stream, ticket } => {
            assert_eq!(connection, Some("conn"));
            assert!(frames_stream.is_none());
            assert_eq!(ticket, "ticket");
        }
        _ => panic!("expected iroh mode"),
    }
}

#[test]
fn server_connection_from_direct_info() {
    let addr = SocketAddress::new(IpAddress::V4([10, 1, 1, 1]), 4000);
    let info: Info = ConnectionBuildInfo::Direct { watcher_stream_port: 4000, tcp_socket_address: addr };
    let conn: ServerConnection<(), (), (), ()> = ServerConnection::from_build_info(info);
    match conn.connection_mode {
        ServerConnectionMode::Direct { client_address, client_streaming_port } => {
            assert_eq!(client_address, addr);
            assert_eq!(client_streaming_port, 4000);
        }
        _ => panic!("expected direct mode"),
    }
    assert!(conn.events_transport.is_none());
    assert!(conn.events_sender.is_none());
}

#[test]
fn stream_tags_roundtrip() {
    assert_eq!(tag_of(StreamRole::Frames), FRAMES_TAG);
    assert_eq!(tag_of(StreamRole::Events), EVENTS_TAG);
    assert_eq!(classify_tag(tag_of(StreamRole::Frames)), Some(StreamRole::Frames));
    assert_eq!(classify_tag(tag_of(StreamRole::Events)), Some(StreamRole::Events));
    assert_eq!(classify_tag(2), None);
    assert_eq!(classify_tag(255), None);
}

#[test]
fn transport_capacities_by_side_and_role() {
    assert_eq!(transport_capacities(Side::Streamer, StreamRole::Frames), (8, 65536));
    assert_eq!(transport_capacities(Side::Watcher, StreamRole::Frames), (32, 65536));
    assert_eq!(transport_capacities(Side::Streamer, StreamRole::Events), (32, 1024));
    assert_eq!(transport_capacities(Side::Watcher, StreamRole::Events), (32, 1024));
}

#[test]
fn session_events_that_end_watching() {
    assert!(server_event_ends_watch(StreamingEvent::ServerEndsStream));
    assert!(!server_event_ends_watch(StreamingEvent::ClientQuit));
    assert!(!server_event_ends_watch(StreamingEvent::GenericError));
    assert!(frontend_event_ends_watch(StreamingEvent::ClientQuit));
    assert!(!frontend_event_ends_watch(StreamingEvent::ServerEndsStream));
    assert!(!frontend_event_ends_watch(StreamingEvent::GenericError));
}

#[test]
fn finished_task_aborts_the_others() {
    assert_eq!(
        tasks_to_abort(SessionTask::StreamingEvents),
        vec![SessionTask::PipelineBus, SessionTask::FrontendEvents]
    );
    assert_eq!(
        tasks_to_abort(SessionTask::PipelineBus),
        vec![SessionTask::StreamingEvents, SessionTask::FrontendEvents]
    );
    assert_eq!(
        tasks_to_abort(SessionTask::FrontendEvents),
        vec![SessionTask::StreamingEvents, SessionTask::PipelineBus]
    );
}

#[test]
fn transport_pairs_halves() {
    let t = Transport::new(1u8, "send");
    assert_eq!(t.recv, 1);
    assert_eq!(t.send, "send");
}
