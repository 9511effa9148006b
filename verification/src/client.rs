//! The client role: a listener for plaintext connections, and one session
//! for each connection that it accepts.
//!
//! `run` decides for the listener and `handle` for a session. Both take the
//! outcome of the operation that was asked for last and answer with the next
//! one; the caller performs it.

use crate::error::refusal;
use crate::error::ErrorKind;
use crate::error::TunnelError;
use crate::error::TunnelErrorView;
use crate::pair::initial_pair;
use crate::pair::lemma_first_end_tears_down;
use crate::pair::pair_action;
use crate::pair::pair_next;
use crate::pair::PairAction;
use crate::pair::PairActionView;
use crate::pair::RelayPair;
use crate::relay::is_terminal;
use crate::relay::next_action;
use crate::relay::next_state;
use crate::relay::read_action;
use crate::relay::Action;
use crate::relay::ActionView;
use crate::relay::Direction;
use crate::relay::Event;
use crate::relay::EventView;
use crate::transport::create_transport_config;
use crate::transport::reference_settings;
use crate::transport::TransportSettings;
use vstd::prelude::*;
use vstd::string::StringExecFns;

verus! {

/// How the client checks the identity of the server.
#[derive(Clone, Copy, Debug, PartialEq, Eq, Structural)]
pub enum TlsTrust {
    /// The certificate must chain to one of the public web roots and be
    /// valid for the server name.
    WebPkiRoots,
    /// Any certificate is accepted; only the handshake signatures are checked.
    SkipVerification,
}

/// The check of the server's identity that the option `insecure` selects.
pub open spec fn trust_of(insecure: bool) -> TlsTrust {
    if insecure {
        TlsTrust::SkipVerification
    } else {
        TlsTrust::WebPkiRoots
    }
}

/// What the listener waits for, or how it ended.
#[derive(Clone, Copy, Debug, PartialEq, Eq, Structural)]
pub enum ListenerStage {
    /// The plaintext listening socket is being bound.
    Binding,
    /// The TLS configuration is being built.
    ConfiguringTls,
    /// The transport's client configuration is being built from it.
    ConfiguringQuic,
    /// The transport endpoint is being opened.
    OpeningEndpoint,
    /// The next plaintext connection is awaited.
    Accepting,
    /// The accepted socket is being configured.
    ConfiguringSocket,
    /// Accepting failed: the listener ended without an error.
    Stopped,
    /// The set-up failed or an event was refused.
    Failed,
}

/// The state of the listener of the client role.
#[derive(Clone, Copy, Debug, PartialEq, Eq, Structural)]
pub struct Listener {
    pub stage: ListenerStage,
    /// Whether the identity of the server goes unchecked.
    pub insecure: bool,
}

/// The outcome of the operation that the listener asked for.
#[derive(Clone, Debug, PartialEq, Eq)]
pub enum RunEvent {
    Bound,
    BindFailed(TunnelError),
    TlsConfigured,
    TlsRefused(TunnelError),
    QuicConfigured,
    QuicRefused(TunnelError),
    EndpointOpened,
    EndpointFailed(TunnelError),
    Accepted,
    AcceptFailed,
    NoDelaySet,
    NoDelayFailed(TunnelError),
}

/// The mathematical value of a `RunEvent`.
pub enum RunEventView {
    Bound,
    BindFailed(TunnelErrorView),
    TlsConfigured,
    TlsRefused(TunnelErrorView),
    QuicConfigured,
    QuicRefused(TunnelErrorView),
    EndpointOpened,
    EndpointFailed(TunnelErrorView),
    Accepted,
    AcceptFailed,
    NoDelaySet,
    NoDelayFailed(TunnelErrorView),
}

impl View for RunEvent {
    type V = RunEventView;

    open spec fn view(&self) -> RunEventView {
        match self {
            RunEvent::Bound => RunEventView::Bound,
            RunEvent::BindFailed(e) => RunEventView::BindFailed(e@),
            RunEvent::TlsConfigured => RunEventView::TlsConfigured,
            RunEvent::TlsRefused(e) => RunEventView::TlsRefused(e@),
            RunEvent::QuicConfigured => RunEventView::QuicConfigured,
            RunEvent::QuicRefused(e) => RunEventView::QuicRefused(e@),
            RunEvent::EndpointOpened => RunEventView::EndpointOpened,
            RunEvent::EndpointFailed(e) => RunEventView::EndpointFailed(e@),
            RunEvent::Accepted => RunEventView::Accepted,
            RunEvent::AcceptFailed => RunEventView::AcceptFailed,
            RunEvent::NoDelaySet => RunEventView::NoDelaySet,
            RunEvent::NoDelayFailed(e) => RunEventView::NoDelayFailed(e@),
        }
    }
}

/// The operation that the caller performs next for the listener.
#[derive(Clone, Debug, PartialEq, Eq)]
pub enum RunAction {
    /// Bind the plaintext listening socket to the local address.
    Bind,
    /// Build the TLS client configuration with this check of the server.
    ConfigureTls(TlsTrust),
    /// Build the transport's client configuration from the TLS configuration.
    ConfigureQuic,
    /// Give the client configuration this tuning, open the endpoint on the
    /// IPv4 address whose four bytes make the number `ip` and on the port
    /// `port`, and make the configuration its default. Zero stands for the
    /// unspecified address and for a port of the system's choice.
    OpenEndpoint { transport: TransportSettings, ip: u32, port: u16 },
    /// Wait for the next plaintext connection.
    Accept,
    /// Switch off the coalescing delay of the accepted socket.
    SetNoDelay,
    /// Start a session for the accepted socket as a unit of work of its own,
    /// then wait for the next connection.
    Spawn,
    /// Log this line and drop the accepted socket, then wait for the next
    /// connection.
    Discard { log: String },
    /// The listener ended; the role returns without an error.
    Stop,
    /// The set-up failed; the role returns this error.
    Fail(TunnelError),
    /// The listener ended before: drop the event.
    Ignore,
}

/// The mathematical value of a `RunAction`.
pub enum RunActionView {
    Bind,
    ConfigureTls(TlsTrust),
    ConfigureQuic,
    OpenEndpoint { transport: TransportSettings, ip: u32, port: u16 },
    Accept,
    SetNoDelay,
    Spawn,
    Discard { log: Seq<char> },
    Stop,
    Fail(TunnelErrorView),
    Ignore,
}

impl View for RunAction {
    type V = RunActionView;

    open spec fn view(&self) -> RunActionView {
        match self {
            RunAction::Bind => RunActionView::Bind,
            RunAction::ConfigureTls(trust) => RunActionView::ConfigureTls(*trust),
            RunAction::ConfigureQuic => RunActionView::ConfigureQuic,
            RunAction::OpenEndpoint { transport, ip, port } => RunActionView::OpenEndpoint {
                transport: *transport,
                ip: *ip,
                port: *port,
            },
            RunAction::Accept => RunActionView::Accept,
            RunAction::SetNoDelay => RunActionView::SetNoDelay,
            RunAction::Spawn => RunActionView::Spawn,
            RunAction::Discard { log } => RunActionView::Discard { log: log@ },
            RunAction::Stop => RunActionView::Stop,
            RunAction::Fail(e) => RunActionView::Fail(e@),
            RunAction::Ignore => RunActionView::Ignore,
        }
    }
}

/// Whether the listener has ended.
pub open spec fn listener_ended(stage: ListenerStage) -> bool {
    stage == ListenerStage::Stopped || stage == ListenerStage::Failed
}

/// Whether `e` is an outcome of the operation that is pending in `stage`.
pub open spec fn run_answers(stage: ListenerStage, e: RunEventView) -> bool {
    match stage {
        ListenerStage::Binding => e is Bound || e is BindFailed,
        ListenerStage::ConfiguringTls => e is TlsConfigured || e is TlsRefused,
        ListenerStage::ConfiguringQuic => e is QuicConfigured || e is QuicRefused,
        ListenerStage::OpeningEndpoint => e is EndpointOpened || e is EndpointFailed,
        ListenerStage::Accepting => e is Accepted || e is AcceptFailed,
        ListenerStage::ConfiguringSocket => e is NoDelaySet || e is NoDelayFailed,
        ListenerStage::Stopped | ListenerStage::Failed => false,
    }
}

/// The line that is logged when an accepted socket cannot be configured.
pub open spec fn no_delay_log(e: TunnelErrorView) -> Seq<char> {
    "Failed to set TCP_NODELAY: "@ + e.message
}

/// The stage of the listener after `e`.
pub open spec fn run_next_stage(stage: ListenerStage, e: RunEventView) -> ListenerStage {
    if listener_ended(stage) {
        stage
    } else if !run_answers(stage, e) {
        ListenerStage::Failed
    } else {
        match e {
            RunEventView::Bound => ListenerStage::ConfiguringTls,
            RunEventView::TlsConfigured => ListenerStage::ConfiguringQuic,
            RunEventView::QuicConfigured => ListenerStage::OpeningEndpoint,
            RunEventView::EndpointOpened => ListenerStage::Accepting,
            RunEventView::Accepted => ListenerStage::ConfiguringSocket,
            RunEventView::AcceptFailed => ListenerStage::Stopped,
            RunEventView::NoDelaySet => ListenerStage::Accepting,
            RunEventView::NoDelayFailed(_) => ListenerStage::Accepting,
            _ => ListenerStage::Failed,
        }
    }
}

/// The state of the listener after `e`.
pub open spec fn run_next(l: Listener, e: RunEventView) -> Listener {
    Listener { stage: run_next_stage(l.stage, e), insecure: l.insecure }
}

/// The operation that the listener asks for after `e`.
pub open spec fn run_action(l: Listener, e: RunEventView) -> RunActionView {
    if listener_ended(l.stage) {
        RunActionView::Ignore
    } else if !run_answers(l.stage, e) {
        RunActionView::Fail(refusal())
    } else {
        match e {
            RunEventView::Bound => RunActionView::ConfigureTls(trust_of(l.insecure)),
            RunEventView::BindFailed(err) => RunActionView::Fail(err),
            RunEventView::TlsConfigured => RunActionView::ConfigureQuic,
            RunEventView::TlsRefused(err) => RunActionView::Fail(
                err.with_kind(ErrorKind::InvalidInput),
            ),
            RunEventView::QuicConfigured => RunActionView::OpenEndpoint {
                transport: reference_settings(),
                ip: 0,
                port: 0,
            },
            RunEventView::QuicRefused(err) => RunActionView::Fail(err.with_kind(ErrorKind::Other)),
            RunEventView::EndpointOpened => RunActionView::Accept,
            RunEventView::EndpointFailed(err) => RunActionView::Fail(err),
            RunEventView::Accepted => RunActionView::SetNoDelay,
            RunEventView::AcceptFailed => RunActionView::Stop,
            RunEventView::NoDelaySet => RunActionView::Spawn,
            RunEventView::NoDelayFailed(err) => RunActionView::Discard { log: no_delay_log(err) },
        }
    }
}

impl Listener {
    /// The listener at its start, and its first operation: binding the
    /// plaintext listening socket.
    pub fn new(insecure: bool) -> (start: (Listener, RunAction))
        ensures
            start.0 == (Listener { stage: ListenerStage::Binding, insecure }),
            start.1@ == RunActionView::Bind,
    {
        (Listener { stage: ListenerStage::Binding, insecure }, RunAction::Bind)
    }

    /// Whether the listener has ended.
    pub fn has_ended(&self) -> (ended: bool)
        ensures
            ended == listener_ended(self.stage),
    {
        match self.stage {
            ListenerStage::Stopped | ListenerStage::Failed => true,
            _ => false,
        }
    }

    fn fail(&mut self, err: TunnelError) -> (action: RunAction)
        ensures
            final(self).stage == ListenerStage::Failed,
            final(self).insecure == old(self).insecure,
            action@ == RunActionView::Fail(err@),
    {
        self.stage = ListenerStage::Failed;
        RunAction::Fail(err)
    }

    fn refuse(&mut self) -> (action: RunAction)
        ensures
            final(self).stage == ListenerStage::Failed,
            final(self).insecure == old(self).insecure,
            action@ == RunActionView::Fail(refusal()),
    {
        self.fail(TunnelError::refusal())
    }
}

/// One step of the listener of the client role.
///
/// The set-up is a chain: bind the listening socket, build the TLS
/// configuration, build the transport's configuration, open the endpoint
/// with the reference tuning. A failure of any link ends the role with an
/// error: a refused TLS configuration under the category `InvalidInput`, a
/// refused transport configuration under `Other`, the others as they came.
/// Then connections are accepted one after the other. Each accepted socket
/// has its coalescing delay switched off and gets a session of its own; a
/// socket that cannot be configured is logged and dropped, and accepting
/// goes on. When accepting itself fails the listener stops without an error.
pub fn run(listener: &mut Listener, event: RunEvent) -> (action: RunAction)
    ensures
        *final(listener) == run_next(*old(listener), event@),
        action@ == run_action(*old(listener), event@),
{
    match listener.stage {
        ListenerStage::Binding => match event {
            RunEvent::Bound => {
                listener.stage = ListenerStage::ConfiguringTls;
                if listener.insecure {
                    RunAction::ConfigureTls(TlsTrust::SkipVerification)
                } else {
                    RunAction::ConfigureTls(TlsTrust::WebPkiRoots)
                }
            },
            RunEvent::BindFailed(err) => listener.fail(err),
            _ => listener.refuse(),
        },
        ListenerStage::ConfiguringTls => match event {
            RunEvent::TlsConfigured => {
                listener.stage = ListenerStage::ConfiguringQuic;
                RunAction::ConfigureQuic
            },
            RunEvent::TlsRefused(err) => listener.fail(err.with_kind(ErrorKind::InvalidInput)),
            _ => listener.refuse(),
        },
        ListenerStage::ConfiguringQuic => match event {
            RunEvent::QuicConfigured => match create_transport_config() {
                Ok(transport) => {
                    listener.stage = ListenerStage::OpeningEndpoint;
                    RunAction::OpenEndpoint { transport, ip: 0, port: 0 }
                },
                Err(err) => listener.fail(err),
            },
            RunEvent::QuicRefused(err) => listener.fail(err.with_kind(ErrorKind::Other)),
            _ => listener.refuse(),
        },
        ListenerStage::OpeningEndpoint => match event {
            RunEvent::EndpointOpened => {
                listener.stage = ListenerStage::Accepting;
                RunAction::Accept
            },
            RunEvent::EndpointFailed(err) => listener.fail(err),
            _ => listener.refuse(),
        },
        ListenerStage::Accepting => match event {
            RunEvent::Accepted => {
                listener.stage = ListenerStage::ConfiguringSocket;
                RunAction::SetNoDelay
            },
            RunEvent::AcceptFailed => {
                listener.stage = ListenerStage::Stopped;
                RunAction::Stop
            },
            _ => listener.refuse(),
        },
        ListenerStage::ConfiguringSocket => match event {
            RunEvent::NoDelaySet => {
                listener.stage = ListenerStage::Accepting;
                RunAction::Spawn
            },
            RunEvent::NoDelayFailed(err) => {
                listener.stage = ListenerStage::Accepting;
                let mut log = "Failed to set TCP_NODELAY: ".to_owned();
                log.append(err.message.as_str());
                RunAction::Discard { log }
            },
            _ => listener.refuse(),
        },
        ListenerStage::Stopped | ListenerStage::Failed => RunAction::Ignore,
    }
}

/// What a session waits for, or how it ended.
#[derive(Clone, Copy, Debug, PartialEq, Eq, Structural)]
pub enum Stage {
    /// The connection to the remote endpoint is being started.
    Connecting,
    /// The handshake is awaited, as early data was not possible.
    Handshaking,
    /// The stream is being opened.
    OpeningStream,
    /// Both directions relay.
    Relaying,
    /// One direction ended and the pair was torn down.
    Ended,
    /// The connection or the stream could not be had, or an event was refused.
    Failed,
}

/// The state of the session of one accepted plaintext connection.
#[derive(Clone, Copy, Debug, PartialEq, Eq, Structural)]
pub struct Session {
    pub stage: Stage,
    /// The two directions between the socket and the stream.
    pub pair: RelayPair,
}

/// The outcome of the operation that a session asked for.
#[derive(Clone, Debug, PartialEq, Eq)]
pub enum SessionEvent {
    /// The connection could not be started.
    ConnectFailed(TunnelError),
    /// The connection resumed an earlier session: it can be used at once.
    ConnectedEarly,
    /// The connection cannot carry early data: its handshake must be awaited.
    HandshakePending,
    /// The handshake completed.
    HandshakeCompleted,
    /// The handshake failed.
    HandshakeFailed(TunnelError),
    /// The stream is open.
    StreamOpened,
    /// The stream could not be opened.
    StreamFailed(TunnelError),
    /// An outcome of an operation of one of the two directions.
    Relay(Direction, Event),
}

/// The mathematical value of a `SessionEvent`.
pub enum SessionEventView {
    ConnectFailed(TunnelErrorView),
    ConnectedEarly,
    HandshakePending,
    HandshakeCompleted,
    HandshakeFailed(TunnelErrorView),
    StreamOpened,
    StreamFailed(TunnelErrorView),
    Relay(Direction, EventView),
}

impl View for SessionEvent {
    type V = SessionEventView;

    open spec fn view(&self) -> SessionEventView {
        match self {
            SessionEvent::ConnectFailed(e) => SessionEventView::ConnectFailed(e@),
            SessionEvent::ConnectedEarly => SessionEventView::ConnectedEarly,
            SessionEvent::HandshakePending => SessionEventView::HandshakePending,
            SessionEvent::HandshakeCompleted => SessionEventView::HandshakeCompleted,
            SessionEvent::HandshakeFailed(e) => SessionEventView::HandshakeFailed(e@),
            SessionEvent::StreamOpened => SessionEventView::StreamOpened,
            SessionEvent::StreamFailed(e) => SessionEventView::StreamFailed(e@),
            SessionEvent::Relay(dir, event) => SessionEventView::Relay(*dir, event@),
        }
    }
}

/// The operation that the caller performs next for a session.
#[derive(Clone, Debug, PartialEq, Eq)]
pub enum SessionAction {
    /// Start a connection to the remote endpoint, to be verified under the
    /// name `server_name`, and try to use it at once with the credentials of
    /// an earlier session.
    Connect { server_name: String },
    /// Wait for the handshake of the connection to complete.
    AwaitHandshake,
    /// Open one bidirectional stream on the connection.
    OpenStream,
    /// Run both directions concurrently, starting with these operations.
    StartRelay { to_quic: Action, to_tcp: Action },
    /// Perform this operation for this direction.
    Relay(Direction, Action),
    /// The direction `ended` has ended, with `failure` if it was aborted:
    /// cancel the other direction, release socket, stream and connection.
    /// The session returns without an error.
    Finish { ended: Direction, failure: Option<TunnelError> },
    /// The session returns this error.
    Fail(TunnelError),
    /// The session ended before: drop the event.
    Ignore,
}

/// The mathematical value of a `SessionAction`.
pub enum SessionActionView {
    Connect { server_name: Seq<char> },
    AwaitHandshake,
    OpenStream,
    StartRelay { to_quic: ActionView, to_tcp: ActionView },
    Relay(Direction, ActionView),
    Finish { ended: Direction, failure: Option<TunnelErrorView> },
    Fail(TunnelErrorView),
    Ignore,
}

impl View for SessionAction {
    type V = SessionActionView;

    open spec fn view(&self) -> SessionActionView {
        match self {
            SessionAction::Connect { server_name } => SessionActionView::Connect {
                server_name: server_name@,
            },
            SessionAction::AwaitHandshake => SessionActionView::AwaitHandshake,
            SessionAction::OpenStream => SessionActionView::OpenStream,
            SessionAction::StartRelay { to_quic, to_tcp } => SessionActionView::StartRelay {
                to_quic: to_quic@,
                to_tcp: to_tcp@,
            },
            SessionAction::Relay(dir, action) => SessionActionView::Relay(*dir, action@),
            SessionAction::Finish { ended, failure } => SessionActionView::Finish {
                ended: *ended,
                failure: match failure {
                    Some(e) => Some(e@),
                    None => None,
                },
            },
            SessionAction::Fail(e) => SessionActionView::Fail(e@),
            SessionAction::Ignore => SessionActionView::Ignore,
        }
    }
}

/// Whether a session in this stage has ended.
pub open spec fn session_ended(stage: Stage) -> bool {
    stage == Stage::Ended || stage == Stage::Failed
}

/// Whether `e` is an outcome of the operation that is pending in `stage`.
pub open spec fn session_answers(stage: Stage, e: SessionEventView) -> bool {
    match stage {
        Stage::Connecting => e is ConnectFailed || e is ConnectedEarly || e is HandshakePending,
        Stage::Handshaking => e is HandshakeCompleted || e is HandshakeFailed,
        Stage::OpeningStream => e is StreamOpened || e is StreamFailed,
        Stage::Relaying => e is Relay,
        Stage::Ended | Stage::Failed => false,
    }
}

/// The session in which the connection is being started.
pub open spec fn initial_session() -> Session {
    Session { stage: Stage::Connecting, pair: initial_pair() }
}

/// The state of a session after `e`.
pub open spec fn session_next(s: Session, e: SessionEventView) -> Session {
    if session_ended(s.stage) {
        s
    } else if !session_answers(s.stage, e) {
        Session { stage: Stage::Failed, pair: s.pair }
    } else {
        match e {
            SessionEventView::ConnectedEarly => Session { stage: Stage::OpeningStream, pair: s.pair },
            SessionEventView::HandshakePending => Session { stage: Stage::Handshaking, pair: s.pair },
            SessionEventView::HandshakeCompleted => Session {
                stage: Stage::OpeningStream,
                pair: s.pair,
            },
            SessionEventView::StreamOpened => Session { stage: Stage::Relaying, pair: initial_pair() },
            SessionEventView::Relay(dir, event) => Session {
                stage: if pair_action(s.pair, dir, event) is TearDown {
                    Stage::Ended
                } else {
                    Stage::Relaying
                },
                pair: pair_next(s.pair, dir, event),
            },
            _ => Session { stage: Stage::Failed, pair: s.pair },
        }
    }
}

/// The operation that a session asks for after `e`.
pub open spec fn session_action(s: Session, e: SessionEventView) -> SessionActionView {
    if session_ended(s.stage) {
        SessionActionView::Ignore
    } else if !session_answers(s.stage, e) {
        SessionActionView::Fail(refusal())
    } else {
        match e {
            SessionEventView::ConnectFailed(err) => SessionActionView::Fail(
                err.with_kind(ErrorKind::ConnectionAborted),
            ),
            SessionEventView::ConnectedEarly => SessionActionView::OpenStream,
            SessionEventView::HandshakePending => SessionActionView::AwaitHandshake,
            SessionEventView::HandshakeCompleted => SessionActionView::OpenStream,
            SessionEventView::HandshakeFailed(err) => SessionActionView::Fail(err),
            SessionEventView::StreamOpened => SessionActionView::StartRelay {
                to_quic: read_action(),
                to_tcp: read_action(),
            },
            SessionEventView::StreamFailed(err) => SessionActionView::Fail(err),
            SessionEventView::Relay(dir, event) => match pair_action(s.pair, dir, event) {
                PairActionView::Continue(d, action) => SessionActionView::Relay(d, action),
                PairActionView::TearDown { ended, failure } => SessionActionView::Finish {
                    ended,
                    failure,
                },
                PairActionView::Ignore => SessionActionView::Ignore,
            },
        }
    }
}

impl Session {
    /// A session at its start, and its first operation: connecting to the
    /// remote endpoint under the name `server_name`.
    pub fn new(server_name: String) -> (start: (Session, SessionAction))
        ensures
            start.0 == initial_session(),
            start.1@ == (SessionActionView::Connect { server_name: server_name@ }),
    {
        let (pair, _, _) = RelayPair::new();
        (Session { stage: Stage::Connecting, pair }, SessionAction::Connect { server_name })
    }

    /// Whether the session has ended.
    pub fn has_ended(&self) -> (ended: bool)
        ensures
            ended == session_ended(self.stage),
    {
        match self.stage {
            Stage::Ended | Stage::Failed => true,
            _ => false,
        }
    }

    fn fail(&mut self, err: TunnelError) -> (action: SessionAction)
        ensures
            final(self).stage == Stage::Failed,
            final(self).pair == old(self).pair,
            action@ == SessionActionView::Fail(err@),
    {
        self.stage = Stage::Failed;
        SessionAction::Fail(err)
    }

    fn refuse(&mut self) -> (action: SessionAction)
        ensures
            final(self).stage == Stage::Failed,
            final(self).pair == old(self).pair,
            action@ == SessionActionView::Fail(refusal()),
    {
        self.fail(TunnelError::refusal())
    }
}

/// One step of the session of one accepted plaintext connection.
///
/// The session starts a connection of its own to the remote endpoint. If
/// the connection could not be started the session fails under the category
/// `ConnectionAborted`. If the connection resumed an earlier session it is
/// used at once; otherwise its handshake is awaited, and a failed handshake
/// fails the session. Then exactly one stream is opened and both directions
/// relay between the socket and the stream. As soon as either direction
/// ends, cleanly or not, the pair is torn down and the session ends without
/// an error.
pub fn handle(session: &mut Session, event: SessionEvent) -> (action: SessionAction)
    ensures
        *final(session) == session_next(*old(session), event@),
        action@ == session_action(*old(session), event@),
{
    match session.stage {
        Stage::Connecting => match event {
            SessionEvent::ConnectFailed(err) => session.fail(
                err.with_kind(ErrorKind::ConnectionAborted),
            ),
            SessionEvent::ConnectedEarly => {
                session.stage = Stage::OpeningStream;
                SessionAction::OpenStream
            },
            SessionEvent::HandshakePending => {
                session.stage = Stage::Handshaking;
                SessionAction::AwaitHandshake
            },
            _ => session.refuse(),
        },
        Stage::Handshaking => match event {
            SessionEvent::HandshakeCompleted => {
                session.stage = Stage::OpeningStream;
                SessionAction::OpenStream
            },
            SessionEvent::HandshakeFailed(err) => session.fail(err),
            _ => session.refuse(),
        },
        Stage::OpeningStream => match event {
            SessionEvent::StreamOpened => {
                let (pair, to_quic, to_tcp) = RelayPair::new();
                session.stage = Stage::Relaying;
                session.pair = pair;
                SessionAction::StartRelay { to_quic, to_tcp }
            },
            SessionEvent::StreamFailed(err) => session.fail(err),
            _ => session.refuse(),
        },
        Stage::Relaying => match event {
            SessionEvent::Relay(dir, relay_event) => {
                let mut pair = session.pair;
                let answer = pair.step(dir, relay_event);
                session.pair = pair;
                match answer {
                    PairAction::Continue(d, action) => SessionAction::Relay(d, action),
                    PairAction::TearDown { ended, failure } => {
                        session.stage = Stage::Ended;
                        SessionAction::Finish { ended, failure }
                    },
                    PairAction::Ignore => SessionAction::Ignore,
                }
            },
            _ => session.refuse(),
        },
        Stage::Ended | Stage::Failed => SessionAction::Ignore,
    }
}

/// A socket that cannot be configured does not stop the listener: only
/// that socket is dropped, and the listener waits for the next connection.
/// After the set-up nothing but a failure of accepting itself ends the
/// listener, and it ends it without an error.
pub proof fn lemma_listener_survives(l: Listener, e: RunEventView)
    requires
        l.stage == ListenerStage::Accepting || l.stage == ListenerStage::ConfiguringSocket,
        run_answers(l.stage, e),
    ensures
        !(run_action(l, e) is Fail),
        e is NoDelayFailed ==> run_next(l, e).stage == ListenerStage::Accepting && run_action(l, e)
            is Discard,
        run_next(l, e).stage == ListenerStage::Stopped <==> e is AcceptFailed,
        !(e is AcceptFailed) ==> !listener_ended(run_next(l, e).stage),
{
}

/// A session relays with an open pair, and holds the pair of the start
/// until then.
pub open spec fn session_wf(s: Session) -> bool {
    &&& s.stage == Stage::Relaying ==> s.pair.open()
    &&& s.stage == Stage::Connecting || s.stage == Stage::Handshaking || s.stage
        == Stage::OpeningStream ==> s.pair == initial_pair()
}

/// The state of a session that started and then received `trace`.
pub open spec fn session_after(trace: Seq<SessionEventView>) -> Session
    decreases trace.len(),
{
    if trace.len() == 0 {
        initial_session()
    } else {
        session_next(session_after(trace.drop_last()), trace.last())
    }
}

/// Every run leaves a session well-formed.
pub proof fn lemma_session_wf(trace: Seq<SessionEventView>)
    ensures
        session_wf(session_after(trace)),
    decreases trace.len(),
{
    if trace.len() > 0 {
        lemma_session_wf(trace.drop_last());
        let s = session_after(trace.drop_last());
        if let SessionEventView::Relay(dir, event) = trace.last() {
            if s.stage == Stage::Relaying {
                lemma_first_end_tears_down(s.pair, dir, event);
            }
        }
    }
}

/// A session ends with its pair. While a session relays, an event that ends
/// its direction ends the session: the answer is to finish, without an
/// error for the session whatever ended the direction, and the pair is not
/// open afterwards. An event that does not end its direction is answered
/// with the next operation of that direction. Once the session has ended
/// every event is dropped.
pub proof fn lemma_session_ends_with_pair(s: Session, dir: Direction, event: EventView)
    requires
        session_wf(s),
        s.stage == Stage::Relaying,
    ensures
        ({
            let e = SessionEventView::Relay(dir, event);
            let after = session_next(s, e);
            let ends = is_terminal(next_state(s.pair.relay_of(dir), event).phase);
            &&& ends ==> after.stage == Stage::Ended && !after.pair.open() && (session_action(s, e)
                matches SessionActionView::Finish { ended, .. } && ended == dir)
            &&& !ends ==> after.stage == Stage::Relaying && after.pair.open() && session_action(s, e)
                == SessionActionView::Relay(dir, next_action(s.pair.relay_of(dir), dir, event))
            &&& forall|later: SessionEventView|
                ends ==> session_next(after, later) == after && session_action(after, later)
                    == SessionActionView::Ignore
        }),
{
    lemma_first_end_tears_down(s.pair, dir, event);
}

/// How many times a session asked for a stream to be opened in the run
/// `trace`.
pub open spec fn streams_asked(trace: Seq<SessionEventView>) -> nat
    decreases trace.len(),
{
    if trace.len() == 0 {
        0
    } else if session_action(session_after(trace.drop_last()), trace.last()) is OpenStream {
        streams_asked(trace.drop_last()) + 1
    } else {
        streams_asked(trace.drop_last())
    }
}

/// One connection, one stream. In every run a session asks for at most one
/// stream, and a session that relays or has ended with its pair has asked
/// for exactly one.
pub proof fn lemma_one_stream_per_session(trace: Seq<SessionEventView>)
    ensures
        ({
            let stage = session_after(trace).stage;
            let asked = streams_asked(trace);
            &&& asked <= 1
            &&& stage == Stage::Connecting || stage == Stage::Handshaking ==> asked == 0
            &&& stage == Stage::OpeningStream || stage == Stage::Relaying || stage == Stage::Ended
                ==> asked == 1
        }),
    decreases trace.len(),
{
    if trace.len() > 0 {
        lemma_one_stream_per_session(trace.drop_last());
        lemma_session_wf(trace.drop_last());
    }
}

} // verus!
