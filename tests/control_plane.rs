use omic::message::{ConnectionStatus, Request, Response};
use omic::server::{
    connect_outcome, dispatch, parse_port, Action, OpenStep, FAILED_TO_CONNECT, INVALID_PORT,
};
use omic::session::ConnectionState;
use omic::device::{configure_and_start, poll_frame};

fn connect_req(address: &str, port: &str) -> Result<Request, String> {
    Ok(Request::Connect { address: address.to_string(), port: port.to_string() })
}

fn status_of(state: &mut ConnectionState<u32>) -> Response {
    match dispatch(state, Ok(Request::Status)) {
        Action::Reply { response, release } => {
            assert!(release.is_none());
            response
        }
        Action::Open { .. } => panic!("status must not open a channel"),
    }
}

/// Drives a full connect through to `Connected` with channel `ch`.
fn connect_ok(state: &mut ConnectionState<u32>, address: &str, port: &str, ch: u32) -> Option<u32> {
    let (addr, p, released) = match dispatch(state, connect_req(address, port)) {
        Action::Open { address, port, release, .. } => (address, port, release),
        Action::Reply { response, .. } => panic!("unexpected reply {:?}", response),
    };
    match connect_outcome(state, Some(ch), addr, p) {
        OpenStep::Configure(frames) => assert_eq!(frames, configure_and_start(state.local_udp_port())),
        OpenStep::Reply(r) => panic!("unexpected reply {:?}", r),
    }
    let (resp, rel) = state.configure_finished(Ok(()));
    assert_eq!(resp, Response::Success);
    assert!(rel.is_none());
    released
}

#[test]
fn scenario_connect_then_status() {
    let mut state: ConnectionState<u32> = ConnectionState::new(40000);
    let released = connect_ok(&mut state, "10.0.0.5", "9000", 7);
    assert!(released.is_none());
    assert_eq!(
        status_of(&mut state),
        Response::Connection {
            status: ConnectionStatus::Connected,
            address: Some("10.0.0.5".to_string()),
            port: Some("9000".to_string()),
            udp_port: 40000,
        }
    );
    assert_eq!(state.control_channel(), Some(&7));
}

#[test]
fn connect_targets_the_parsed_device_port() {
    let mut state: ConnectionState<u32> = ConnectionState::new(1);
    match dispatch(&mut state, connect_req("10.0.0.5", "9000")) {
        Action::Open { address, port, device_port, release } => {
            assert_eq!(address, "10.0.0.5");
            assert_eq!(port, "9000");
            assert_eq!(device_port, 9000);
            assert!(release.is_none());
        }
        Action::Reply { .. } => panic!("expected an open"),
    }
}

#[test]
fn scenario_connect_timeout_reports_failure() {
    let mut state: ConnectionState<u32> = ConnectionState::new(40000);
    let (addr, p) = match dispatch(&mut state, connect_req("10.0.0.5", "9000")) {
        Action::Open { address, port, .. } => (address, port),
        Action::Reply { .. } => panic!("expected an open"),
    };
    match connect_outcome(&mut state, None, addr, p) {
        OpenStep::Reply(r) => assert_eq!(r, Response::Error("Failed to connect.".to_string())),
        OpenStep::Configure(_) => panic!("expected a failure reply"),
    }
    assert_eq!(FAILED_TO_CONNECT, "Failed to connect.");
    assert_eq!(
        status_of(&mut state),
        Response::Connection {
            status: ConnectionStatus::Disconnected,
            address: None,
            port: None,
            udp_port: 40000,
        }
    );
}

#[test]
fn malformed_request_is_answered_with_error() {
    let mut state: ConnectionState<u32> = ConnectionState::new(5);
    connect_ok(&mut state, "h", "1", 3);
    match dispatch(&mut state, Err("io error: unexpected end of file".to_string())) {
        Action::Reply { response, release } => {
            assert_eq!(response, Response::Error("io error: unexpected end of file".to_string()));
            assert!(release.is_none());
        }
        Action::Open { .. } => panic!("expected a reply"),
    }
    // the session is untouched
    match status_of(&mut state) {
        Response::Connection { status, .. } => assert_eq!(status, ConnectionStatus::Connected),
        r => panic!("unexpected {:?}", r),
    }
}

#[test]
fn disconnect_twice_is_idempotent() {
    let mut state: ConnectionState<u32> = ConnectionState::new(5);
    connect_ok(&mut state, "10.0.0.5", "9000", 11);
    match dispatch(&mut state, Ok(Request::Disconnect)) {
        Action::Reply { response, release } => {
            assert_eq!(response, Response::Success);
            assert_eq!(release, Some(11));
        }
        Action::Open { .. } => panic!("expected a reply"),
    }
    match dispatch(&mut state, Ok(Request::Disconnect)) {
        Action::Reply { response, release } => {
            assert_eq!(response, Response::Success);
            assert_eq!(release, None);
        }
        Action::Open { .. } => panic!("expected a reply"),
    }
    assert_eq!(
        status_of(&mut state),
        Response::Connection {
            status: ConnectionStatus::Disconnected,
            address: None,
            port: None,
            udp_port: 5,
        }
    );
}

#[test]
fn udp_port_is_stable_across_cycles() {
    let mut state: ConnectionState<u32> = ConnectionState::new(51234);
    for i in 0..5u32 {
        connect_ok(&mut state, "10.0.0.5", "9000", i);
        assert_eq!(state.local_udp_port(), 51234);
        let _ = dispatch(&mut state, Ok(Request::Disconnect));
        assert_eq!(state.local_udp_port(), 51234);
    }
}

#[test]
fn connect_while_connected_releases_old_channel() {
    let mut state: ConnectionState<u32> = ConnectionState::new(5);
    connect_ok(&mut state, "a", "1", 1);
    let released = connect_ok(&mut state, "b", "2", 2);
    assert_eq!(released, Some(1));
    assert_eq!(state.control_channel(), Some(&2));
}

#[test]
fn configure_failure_returns_to_disconnected() {
    let mut state: ConnectionState<u32> = ConnectionState::new(5);
    connect_ok(&mut state, "old", "2", 8);
    let (addr, p, released) = match dispatch(&mut state, connect_req("10.0.0.5", "9000")) {
        Action::Open { address, port, release, .. } => (address, port, release),
        Action::Reply { .. } => panic!("expected an open"),
    };
    assert_eq!(released, Some(8));
    let _ = connect_outcome(&mut state, Some(9), addr, p);
    let (resp, rel) = state.configure_finished(Err("broken pipe".to_string()));
    assert_eq!(resp, Response::Error("broken pipe".to_string()));
    assert_eq!(rel, Some(9));
    assert_eq!(state.control_channel(), None);
    assert_eq!(
        status_of(&mut state),
        Response::Connection {
            status: ConnectionStatus::Disconnected,
            address: None,
            port: None,
            udp_port: 5,
        }
    );
    // a new connect is allowed afterwards
    connect_ok(&mut state, "a", "1", 10);
}

#[test]
fn heartbeat_failure_ends_session() {
    let mut state: ConnectionState<u32> = ConnectionState::new(5);
    connect_ok(&mut state, "a", "1", 4);
    assert_eq!(state.heartbeat_finished(Ok(())), None);
    assert_eq!(state.control_channel(), Some(&4));
    assert_eq!(state.heartbeat_finished(Err("reset".to_string())), Some(4));
    assert_eq!(state.control_channel(), None);
    assert_eq!(state.heartbeat(), None);
    match status_of(&mut state) {
        Response::Connection { status, .. } => assert_eq!(status, ConnectionStatus::Disconnected),
        r => panic!("unexpected {:?}", r),
    }
}

#[test]
fn invalid_port_ends_the_session_with_error() {
    for bad in ["", "90x0", "65536", "-1", " 80"] {
        let mut state: ConnectionState<u32> = ConnectionState::new(5);
        connect_ok(&mut state, "a", "1", 4);
        match dispatch(&mut state, connect_req("a", bad)) {
            Action::Reply { response, release } => {
                assert_eq!(response, Response::Error(INVALID_PORT.to_string()));
                assert_eq!(release, Some(4));
            }
            Action::Open { .. } => panic!("port {:?} must be rejected", bad),
        }
        assert_eq!(state.control_channel(), None);
        assert_eq!(
            status_of(&mut state),
            Response::Connection {
                status: ConnectionStatus::Disconnected,
                address: None,
                port: None,
                udp_port: 5,
            }
        );
    }
}

#[test]
fn parse_port_values() {
    assert_eq!(parse_port("9000"), Some(9000));
    assert_eq!(parse_port("0"), Some(0));
    assert_eq!(parse_port("65535"), Some(65535));
    assert_eq!(parse_port("0008125"), Some(8125));
    assert_eq!(parse_port("65536"), None);
    assert_eq!(parse_port("99999999999999999999"), None);
    assert_eq!(parse_port(""), None);
    assert_eq!(parse_port("12a"), None);
}

#[test]
fn heartbeat_only_while_connected() {
    let mut state: ConnectionState<u32> = ConnectionState::new(5);
    assert_eq!(state.heartbeat(), None);
    connect_ok(&mut state, "a", "1", 4);
    assert_eq!(state.heartbeat(), Some(poll_frame()));
    let _ = state.disconnect();
    assert_eq!(state.heartbeat(), None);
}
