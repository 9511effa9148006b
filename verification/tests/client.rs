use tcp2quic::client::{
    handle, run, Listener, ListenerStage, RunAction, RunEvent, Session, SessionAction,
    SessionEvent, Stage, TlsTrust,
};
use tcp2quic::error::{ErrorKind, TunnelError};
use tcp2quic::relay::{Action, Direction, Event};
use tcp2quic::transport::create_transport_config;

fn client_error(kind: ErrorKind, text: &str) -> TunnelError {
    TunnelError::new(kind, text.to_string())
}

fn client_refusal() -> TunnelError {
    client_error(ErrorKind::InvalidInput, "the event does not answer the pending operation")
}

fn client_listener_at(stage: ListenerStage) -> Listener {
    Listener { stage, insecure: false }
}

#[test]
fn client_listener_sets_up_in_order() {
    let (mut listener, first) = Listener::new(false);
    assert_eq!(listener.stage, ListenerStage::Binding);
    assert_eq!(first, RunAction::Bind);
    assert_eq!(run(&mut listener, RunEvent::Bound), RunAction::ConfigureTls(TlsTrust::WebPkiRoots));
    assert_eq!(listener.stage, ListenerStage::ConfiguringTls);
    assert_eq!(run(&mut listener, RunEvent::TlsConfigured), RunAction::ConfigureQuic);
    assert_eq!(
        run(&mut listener, RunEvent::QuicConfigured),
        RunAction::OpenEndpoint { transport: create_transport_config().unwrap(), ip: 0, port: 0 }
    );
    assert_eq!(listener.stage, ListenerStage::OpeningEndpoint);
    assert_eq!(run(&mut listener, RunEvent::EndpointOpened), RunAction::Accept);
    assert_eq!(listener.stage, ListenerStage::Accepting);
    assert!(!listener.has_ended());
}

#[test]
fn insecure_option_skips_verification() {
    let (mut listener, _) = Listener::new(true);
    assert_eq!(
        run(&mut listener, RunEvent::Bound),
        RunAction::ConfigureTls(TlsTrust::SkipVerification)
    );
}

#[test]
fn client_setup_failures_are_fatal() {
    let (mut listener, _) = Listener::new(false);
    let e = client_error(ErrorKind::AddrInUse, "address in use");
    assert_eq!(run(&mut listener, RunEvent::BindFailed(e.clone())), RunAction::Fail(e));
    assert_eq!(listener.stage, ListenerStage::Failed);
    assert!(listener.has_ended());

    let mut listener = client_listener_at(ListenerStage::ConfiguringTls);
    assert_eq!(
        run(&mut listener, RunEvent::TlsRefused(client_error(ErrorKind::Other, "no versions"))),
        RunAction::Fail(client_error(ErrorKind::InvalidInput, "no versions"))
    );
    assert_eq!(listener.stage, ListenerStage::Failed);

    let mut listener = client_listener_at(ListenerStage::ConfiguringQuic);
    assert_eq!(
        run(&mut listener, RunEvent::QuicRefused(client_error(ErrorKind::InvalidInput, "no suite"))),
        RunAction::Fail(client_error(ErrorKind::Other, "no suite"))
    );
    assert_eq!(listener.stage, ListenerStage::Failed);

    let mut listener = client_listener_at(ListenerStage::OpeningEndpoint);
    let e = client_error(ErrorKind::AddrInUse, "udp");
    assert_eq!(run(&mut listener, RunEvent::EndpointFailed(e.clone())), RunAction::Fail(e));
    assert_eq!(listener.stage, ListenerStage::Failed);
}

#[test]
fn each_accepted_connection_gets_a_session() {
    let mut listener = client_listener_at(ListenerStage::Accepting);
    for _ in 0..3 {
        assert_eq!(run(&mut listener, RunEvent::Accepted), RunAction::SetNoDelay);
        assert_eq!(listener.stage, ListenerStage::ConfiguringSocket);
        assert_eq!(run(&mut listener, RunEvent::NoDelaySet), RunAction::Spawn);
        assert_eq!(listener.stage, ListenerStage::Accepting);
    }
}

#[test]
fn a_socket_that_cannot_be_configured_is_dropped() {
    let mut listener = client_listener_at(ListenerStage::Accepting);
    run(&mut listener, RunEvent::Accepted);
    let answer =
        run(&mut listener, RunEvent::NoDelayFailed(client_error(ErrorKind::Other, "bad socket")));
    assert_eq!(
        answer,
        RunAction::Discard { log: "Failed to set TCP_NODELAY: bad socket".to_string() }
    );
    assert_eq!(listener.stage, ListenerStage::Accepting);
    assert!(!listener.has_ended());
    assert_eq!(run(&mut listener, RunEvent::Accepted), RunAction::SetNoDelay);
}

#[test]
fn client_listener_stops_when_accepting_fails() {
    let mut listener = client_listener_at(ListenerStage::Accepting);
    assert_eq!(run(&mut listener, RunEvent::AcceptFailed), RunAction::Stop);
    assert_eq!(listener.stage, ListenerStage::Stopped);
    assert!(listener.has_ended());
    assert_eq!(run(&mut listener, RunEvent::Accepted), RunAction::Ignore);
    assert_eq!(listener.stage, ListenerStage::Stopped);
}

#[test]
fn client_listener_refuses_an_event_out_of_turn() {
    let (mut listener, _) = Listener::new(false);
    assert_eq!(run(&mut listener, RunEvent::Accepted), RunAction::Fail(client_refusal()));
    assert_eq!(listener.stage, ListenerStage::Failed);
    assert_eq!(run(&mut listener, RunEvent::Bound), RunAction::Ignore);
}

#[test]
fn session_uses_early_data_when_it_can() {
    let (mut session, first) = Session::new("example.com".to_string());
    assert_eq!(first, SessionAction::Connect { server_name: "example.com".to_string() });
    assert_eq!(session.stage, Stage::Connecting);
    assert_eq!(handle(&mut session, SessionEvent::ConnectedEarly), SessionAction::OpenStream);
    assert_eq!(session.stage, Stage::OpeningStream);
}

#[test]
fn session_awaits_the_handshake_without_early_data() {
    let (mut session, _) = Session::new("localhost".to_string());
    assert_eq!(handle(&mut session, SessionEvent::HandshakePending), SessionAction::AwaitHandshake);
    assert_eq!(session.stage, Stage::Handshaking);
    assert_eq!(handle(&mut session, SessionEvent::HandshakeCompleted), SessionAction::OpenStream);
    assert_eq!(session.stage, Stage::OpeningStream);
}

#[test]
fn session_opens_one_stream_and_relays_both_ways() {
    let (mut session, _) = Session::new("localhost".to_string());
    handle(&mut session, SessionEvent::ConnectedEarly);
    let read = Action::Read { max_len: 8192, timeout_ms: 1 };
    assert_eq!(
        handle(&mut session, SessionEvent::StreamOpened),
        SessionAction::StartRelay { to_quic: read.clone(), to_tcp: read.clone() }
    );
    assert_eq!(session.stage, Stage::Relaying);
    assert!(session.pair.is_open());
    assert_eq!(
        handle(&mut session, SessionEvent::StreamOpened),
        SessionAction::Fail(client_refusal())
    );
}

#[test]
fn a_connection_that_cannot_start_is_aborted() {
    let (mut session, _) = Session::new("localhost".to_string());
    let answer = handle(
        &mut session,
        SessionEvent::ConnectFailed(client_error(ErrorKind::Other, "invalid server name")),
    );
    assert_eq!(
        answer,
        SessionAction::Fail(client_error(ErrorKind::ConnectionAborted, "invalid server name"))
    );
    assert_eq!(session.stage, Stage::Failed);
    assert!(session.has_ended());
    assert_eq!(handle(&mut session, SessionEvent::ConnectedEarly), SessionAction::Ignore);
}

#[test]
fn a_failed_handshake_fails_the_session() {
    let (mut session, _) = Session::new("localhost".to_string());
    handle(&mut session, SessionEvent::HandshakePending);
    let e = client_error(ErrorKind::TimedOut, "timed out");
    assert_eq!(handle(&mut session, SessionEvent::HandshakeFailed(e.clone())), SessionAction::Fail(e));
    assert_eq!(session.stage, Stage::Failed);
}

#[test]
fn a_stream_that_cannot_open_fails_the_session() {
    let (mut session, _) = Session::new("localhost".to_string());
    handle(&mut session, SessionEvent::ConnectedEarly);
    let e = client_error(ErrorKind::ConnectionReset, "reset by peer");
    assert_eq!(handle(&mut session, SessionEvent::StreamFailed(e.clone())), SessionAction::Fail(e));
    assert_eq!(session.stage, Stage::Failed);
}

#[test]
fn session_ends_without_error_when_a_direction_ends() {
    let (mut session, _) = Session::new("localhost".to_string());
    handle(&mut session, SessionEvent::ConnectedEarly);
    handle(&mut session, SessionEvent::StreamOpened);
    assert_eq!(
        handle(&mut session, SessionEvent::Relay(Direction::QuicToTcp, Event::ReadData(vec![1]))),
        SessionAction::Relay(Direction::QuicToTcp, Action::Write(vec![1]))
    );
    assert_eq!(
        handle(&mut session, SessionEvent::Relay(Direction::TcpToQuic, Event::ReadData(Vec::new()))),
        SessionAction::Relay(Direction::TcpToQuic, Action::FinishStream)
    );
    assert_eq!(
        handle(&mut session, SessionEvent::Relay(Direction::TcpToQuic, Event::Closed)),
        SessionAction::Finish { ended: Direction::TcpToQuic, failure: None }
    );
    assert_eq!(session.stage, Stage::Ended);
    assert!(!session.pair.is_open());
    assert_eq!(
        handle(&mut session, SessionEvent::Relay(Direction::QuicToTcp, Event::Written)),
        SessionAction::Ignore
    );
}

#[test]
fn session_ends_without_error_when_a_direction_fails() {
    let (mut session, _) = Session::new("localhost".to_string());
    handle(&mut session, SessionEvent::ConnectedEarly);
    handle(&mut session, SessionEvent::StreamOpened);
    let reset = client_error(ErrorKind::ConnectionReset, "reset");
    assert_eq!(
        handle(&mut session, SessionEvent::Relay(Direction::TcpToQuic, Event::ReadFailed(reset.clone()))),
        SessionAction::Finish { ended: Direction::TcpToQuic, failure: Some(reset) }
    );
    assert_eq!(session.stage, Stage::Ended);
    assert!(session.has_ended());
}
