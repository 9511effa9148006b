use std::collections::VecDeque;

use tcp2quic::certificate::{KeyFormat, PrivateKey};
use tcp2quic::client;
use tcp2quic::error::{ErrorKind, TunnelError};
use tcp2quic::pair::{PairAction, RelayPair};
use tcp2quic::relay::{Action, Direction, Event};
use tcp2quic::server;

/// A one-way byte channel whose writer buffers until it flushes.
#[derive(Default)]
struct Wire {
    staged: Vec<u8>,
    ready: VecDeque<u8>,
    closed: bool,
    flushes: usize,
}

impl Wire {
    fn send(&mut self, bytes: &[u8]) {
        self.ready.extend(bytes.iter().copied());
    }

    fn take(&mut self) -> Vec<u8> {
        self.ready.drain(..).collect()
    }
}

/// The machine that decides for one tunneled connection.
enum Machine {
    Client(client::Session),
    Server(RelayPair),
}

/// One end of the tunnel for one connection: the machine, the operations it
/// waits for, and the wires of its socket and of its stream.
struct Side {
    machine: Machine,
    pending: Vec<(Direction, Action)>,
    socket_in: usize,
    socket_out: usize,
    stream_in: usize,
    stream_out: usize,
    torn_down: Option<(Direction, Option<TunnelError>)>,
}

impl Side {
    fn step(&mut self, dir: Direction, event: Event) -> PairAction {
        match &mut self.machine {
            Machine::Server(pair) => pair.step(dir, event),
            Machine::Client(session) => {
                match client::handle(session, client::SessionEvent::Relay(dir, event)) {
                    client::SessionAction::Relay(d, action) => PairAction::Continue(d, action),
                    client::SessionAction::Finish { ended, failure } => {
                        PairAction::TearDown { ended, failure }
                    }
                    client::SessionAction::Ignore => PairAction::Ignore,
                    other => panic!("not an answer of a relaying session: {:?}", other),
                }
            }
        }
    }

    fn source(&self, dir: Direction) -> usize {
        match dir {
            Direction::TcpToQuic => self.socket_in,
            Direction::QuicToTcp => self.stream_in,
        }
    }

    fn sink(&self, dir: Direction) -> usize {
        match dir {
            Direction::TcpToQuic => self.stream_out,
            Direction::QuicToTcp => self.socket_out,
        }
    }

    /// Performs every pending operation once and takes the answers.
    fn round(&mut self, wires: &mut [Wire]) {
        let pending = std::mem::take(&mut self.pending);
        for (dir, action) in pending {
            let event = match action {
                Action::Read { max_len, .. } => {
                    let wire = &mut wires[self.source(dir)];
                    if !wire.ready.is_empty() {
                        let n = max_len.min(wire.ready.len());
                        Event::ReadData(wire.ready.drain(..n).collect())
                    } else if wire.closed {
                        match dir {
                            Direction::TcpToQuic => Event::ReadData(Vec::new()),
                            Direction::QuicToTcp => Event::ReadEnd,
                        }
                    } else {
                        Event::ReadTimedOut
                    }
                }
                Action::Write(bytes) => {
                    wires[self.sink(dir)].staged.extend_from_slice(&bytes);
                    Event::Written
                }
                Action::Flush => {
                    let wire = &mut wires[self.sink(dir)];
                    let staged = std::mem::take(&mut wire.staged);
                    wire.ready.extend(staged);
                    wire.flushes += 1;
                    Event::Flushed
                }
                Action::ShutdownSocket | Action::FinishStream => {
                    wires[self.sink(dir)].closed = true;
                    Event::Closed
                }
                Action::Done | Action::Fail(_) => panic!("a pair never hands these on"),
            };
            match self.step(dir, event) {
                PairAction::Continue(d, next) => self.pending.push((d, next)),
                PairAction::TearDown { ended, failure } => {
                    self.torn_down = Some((ended, failure));
                    self.pending.clear();
                    wires[self.socket_out].closed = true;
                    wires[self.stream_out].closed = true;
                    return;
                }
                PairAction::Ignore => {}
            }
        }
    }
}

fn scenario_wires(n: usize) -> Vec<Wire> {
    (0..n).map(|_| Wire::default()).collect()
}

fn server_side(socket_in: usize, socket_out: usize, stream_in: usize, stream_out: usize) -> Side {
    let (pair, to_quic, to_tcp) = RelayPair::new();
    Side {
        machine: Machine::Server(pair),
        pending: vec![(Direction::TcpToQuic, to_quic), (Direction::QuicToTcp, to_tcp)],
        socket_in,
        socket_out,
        stream_in,
        stream_out,
        torn_down: None,
    }
}

/// Brings a session of the client role to the point where it relays.
fn client_side(
    early_data: bool,
    socket_in: usize,
    socket_out: usize,
    stream_in: usize,
    stream_out: usize,
) -> Side {
    let (mut session, first) = client::Session::new("localhost".to_string());
    assert_eq!(first, client::SessionAction::Connect { server_name: "localhost".to_string() });
    if early_data {
        assert_eq!(
            client::handle(&mut session, client::SessionEvent::ConnectedEarly),
            client::SessionAction::OpenStream
        );
    } else {
        assert_eq!(
            client::handle(&mut session, client::SessionEvent::HandshakePending),
            client::SessionAction::AwaitHandshake
        );
        assert_eq!(
            client::handle(&mut session, client::SessionEvent::HandshakeCompleted),
            client::SessionAction::OpenStream
        );
    }
    let start = client::handle(&mut session, client::SessionEvent::StreamOpened);
    let pending = match start {
        client::SessionAction::StartRelay { to_quic, to_tcp } => {
            vec![(Direction::TcpToQuic, to_quic), (Direction::QuicToTcp, to_tcp)]
        }
        other => panic!("the session does not relay: {:?}", other),
    };
    assert_eq!(session.stage, client::Stage::Relaying);
    Side {
        machine: Machine::Client(session),
        pending,
        socket_in,
        socket_out,
        stream_in,
        stream_out,
        torn_down: None,
    }
}

/// Brings the listener of the client role to the point where it has started
/// a session for one accepted connection.
fn client_listener_accepts_one(insecure: bool) -> client::Listener {
    let (mut listener, first) = client::Listener::new(insecure);
    assert_eq!(first, client::RunAction::Bind);
    assert!(matches!(
        client::run(&mut listener, client::RunEvent::Bound),
        client::RunAction::ConfigureTls(_)
    ));
    assert_eq!(
        client::run(&mut listener, client::RunEvent::TlsConfigured),
        client::RunAction::ConfigureQuic
    );
    assert!(matches!(
        client::run(&mut listener, client::RunEvent::QuicConfigured),
        client::RunAction::OpenEndpoint { .. }
    ));
    assert_eq!(
        client::run(&mut listener, client::RunEvent::EndpointOpened),
        client::RunAction::Accept
    );
    assert_eq!(client::run(&mut listener, client::RunEvent::Accepted), client::RunAction::SetNoDelay);
    assert_eq!(client::run(&mut listener, client::RunEvent::NoDelaySet), client::RunAction::Spawn);
    listener
}

/// Brings a session of the server role to the point where it has started a
/// relay pair for one more stream.
fn server_session_accepts_stream(session: &mut server::Session) {
    assert_eq!(
        server::handle(session, server::SessionEvent::StreamAccepted),
        server::SessionAction::Dial
    );
    assert_eq!(server::handle(session, server::SessionEvent::Dialed), server::SessionAction::SetNoDelay);
    assert_eq!(
        server::handle(session, server::SessionEvent::NoDelaySet),
        server::SessionAction::SpawnRelay
    );
    assert_eq!(session.stage, server::Stage::Accepting);
}

fn server_session_after_handshake() -> server::Session {
    let (mut session, first) = server::Session::new();
    assert_eq!(first, server::SessionAction::AwaitHandshake);
    assert_eq!(
        server::handle(&mut session, server::SessionEvent::HandshakeCompleted),
        server::SessionAction::AcceptStream
    );
    session
}

#[test]
fn ping_reaches_the_target_and_pong_comes_back() {
    for early_data in [false, true] {
        // 0: caller -> client socket, 1: stream up, 2: server -> target,
        // 3: target -> server, 4: stream down, 5: client socket -> caller
        let mut wires = scenario_wires(6);

        let listener = client_listener_accepts_one(false);
        assert_eq!(listener.stage, client::ListenerStage::Accepting);
        let mut near = client_side(early_data, 0, 5, 4, 1);

        let key = PrivateKey { format: KeyFormat::Pkcs8, der: vec![0x30, 0x00] };
        let (mut far_listener, first) =
            server::Listener::with_certificate(Ok((vec![vec![1, 2, 3]], key.clone())));
        assert_eq!(first, server::RunAction::ConfigureTls { certs: vec![vec![1, 2, 3]], key });
        server::run(&mut far_listener, server::RunEvent::TlsConfigured);
        server::run(&mut far_listener, server::RunEvent::QuicConfigured);
        assert_eq!(
            server::run(&mut far_listener, server::RunEvent::EndpointOpened),
            server::RunAction::Accept
        );
        assert_eq!(server::run(&mut far_listener, server::RunEvent::Accepted), server::RunAction::Spawn);
        let mut far_session = server_session_after_handshake();
        server_session_accepts_stream(&mut far_session);
        let mut far = server_side(3, 2, 1, 4);

        wires[0].send(b"PING");
        let mut heard = Vec::new();
        let mut answered = false;
        for _ in 0..40 {
            near.round(&mut wires);
            far.round(&mut wires);
            heard.extend(wires[2].take());
            if heard == b"PING" && !answered {
                wires[3].send(b"PONG");
                answered = true;
            }
        }
        assert_eq!(heard, b"PING".to_vec());
        assert!(answered);
        assert_eq!(wires[5].take(), b"PONG".to_vec());
        assert!(near.torn_down.is_none());
        assert!(far.torn_down.is_none());

        // The caller closes its connection: both ends finish.
        wires[0].closed = true;
        for _ in 0..40 {
            near.round(&mut wires);
            far.round(&mut wires);
        }
        assert_eq!(near.torn_down, Some((Direction::TcpToQuic, None)));
        assert_eq!(far.torn_down, Some((Direction::QuicToTcp, None)));
        match &near.machine {
            Machine::Client(session) => {
                assert!(session.has_ended());
                assert_eq!(session.stage, client::Stage::Ended);
            }
            Machine::Server(_) => unreachable!(),
        }
        assert!(wires[2].closed);
        assert!(wires.iter().all(|w| w.ready.is_empty() || w.closed));
    }
}

#[test]
fn two_streams_of_one_connection_do_not_mix() {
    let mut session = server_session_after_handshake();
    server_session_accepts_stream(&mut session);
    server_session_accepts_stream(&mut session);
    assert!(!session.has_ended());

    // Stream A: 0 up, 1 to target, 2 from target, 3 down. Stream B: 4..8.
    let mut wires = scenario_wires(8);
    let mut a = server_side(2, 1, 0, 3);
    let mut b = server_side(6, 5, 4, 7);

    let payload_a: Vec<u8> = (0..20000u32).map(|i| (i % 7) as u8).collect();
    let payload_b: Vec<u8> = (0..15000u32).map(|i| 100 + (i % 11) as u8).collect();
    wires[0].send(&payload_a);
    wires[4].send(&payload_b);
    let mut target_a = Vec::new();
    let mut target_b = Vec::new();
    let mut back_a = Vec::new();
    let mut back_b = Vec::new();
    for round in 0..40 {
        a.round(&mut wires);
        b.round(&mut wires);
        target_a.extend(wires[1].take());
        target_b.extend(wires[5].take());
        if round == 3 {
            wires[2].send(b"reply to a");
            wires[6].send(b"reply to b");
        }
        back_a.extend(wires[3].take());
        back_b.extend(wires[7].take());
    }
    assert_eq!(target_a, payload_a);
    assert_eq!(target_b, payload_b);
    assert_eq!(back_a, b"reply to a".to_vec());
    assert_eq!(back_b, b"reply to b".to_vec());
    assert!(a.torn_down.is_none());
    assert!(b.torn_down.is_none());

    // The target of stream A resets its connection: stream B goes on.
    let reset = TunnelError::new(ErrorKind::ConnectionReset, "reset".to_string());
    let torn = a.step(Direction::TcpToQuic, Event::ReadFailed(reset.clone()));
    assert_eq!(torn, PairAction::TearDown { ended: Direction::TcpToQuic, failure: Some(reset) });
    wires[4].send(b"more for b");
    for _ in 0..6 {
        b.round(&mut wires);
    }
    assert_eq!(wires[5].take(), b"more for b".to_vec());
    assert!(b.torn_down.is_none());
    assert!(!session.has_ended());
}

#[test]
fn peer_close_ends_accepting_and_spares_running_pairs() {
    for (fault, graceful) in [
        (server::ConnectionFault::ApplicationClosed, true),
        (server::ConnectionFault::ConnectionClosed, true),
    ] {
        let mut session = server_session_after_handshake();
        server_session_accepts_stream(&mut session);
        let mut wires = scenario_wires(4);
        let mut pair = server_side(2, 1, 0, 3);
        wires[0].send(b"before");
        for _ in 0..4 {
            pair.round(&mut wires);
        }
        assert_eq!(wires[1].take(), b"before".to_vec());

        let answer = server::handle(&mut session, server::SessionEvent::AcceptFailed(fault));
        assert_eq!(answer, server::SessionAction::Finish { graceful });
        assert_eq!(session.stage, server::Stage::Ended);
        assert!(session.has_ended());
        assert_eq!(
            server::handle(&mut session, server::SessionEvent::StreamAccepted),
            server::SessionAction::Ignore
        );

        assert!(pair.torn_down.is_none());
        wires[0].send(b"after");
        wires[2].send(b"reply");
        for _ in 0..6 {
            pair.round(&mut wires);
        }
        assert_eq!(wires[1].take(), b"after".to_vec());
        assert_eq!(wires[3].take(), b"reply".to_vec());
        assert!(pair.torn_down.is_none());
    }
}

#[test]
fn unflushed_bytes_reach_the_far_side_after_one_idle_read() {
    let mut wires = scenario_wires(4);
    let mut side = server_side(2, 1, 0, 3);
    wires[0].send(b"x");
    side.round(&mut wires); // read
    side.round(&mut wires); // write
    assert!(wires[1].ready.is_empty());
    assert_eq!(wires[1].staged, b"x".to_vec());
    side.round(&mut wires); // idle read
    side.round(&mut wires); // flush
    assert_eq!(wires[1].take(), b"x".to_vec());
    assert_eq!(wires[1].flushes, 1);
}
