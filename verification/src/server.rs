//! The server role: a listener for transport connections, and one session
//! for each connection that it accepts.
//!
//! `run` decides for the listener and `handle` for a session. A session
//! accepts the streams of its connection one after the other; each stream
//! gets a plaintext connection to the forwarding target and a relay pair
//! that runs as a unit of work of its own.

use crate::certificate::generate_certificate;
use crate::certificate::key_format;
use crate::certificate::PrivateKey;
use crate::error::refusal;
use crate::error::ErrorKind;
use crate::error::TunnelError;
use crate::error::TunnelErrorView;
use crate::transport::create_transport_config;
use crate::transport::reference_settings;
use crate::transport::TransportSettings;
use vstd::prelude::*;

verus! {

/// What the listener waits for, or how it ended.
#[derive(Clone, Copy, Debug, PartialEq, Eq, Structural)]
pub enum ListenerStage {
    /// The TLS configuration is being built.
    ConfiguringTls,
    /// The transport's server configuration is being built from it.
    ConfiguringQuic,
    /// The transport endpoint is being opened on the local address.
    OpeningEndpoint,
    /// The next transport connection is awaited.
    Accepting,
    /// The endpoint was closed: the listener ended without an error.
    Stopped,
    /// The set-up failed or an event was refused.
    Failed,
}

/// The state of the listener of the server role.
#[derive(Clone, Copy, Debug, PartialEq, Eq, Structural)]
pub struct Listener {
    pub stage: ListenerStage,
}

/// The outcome of the operation that the listener asked for.
#[derive(Clone, Debug, PartialEq, Eq)]
pub enum RunEvent {
    TlsConfigured,
    TlsRefused(TunnelError),
    QuicConfigured,
    QuicRefused(TunnelError),
    EndpointOpened,
    EndpointFailed(TunnelError),
    /// A transport connection arrived.
    Accepted,
    /// The endpoint was closed: no connection will arrive any more.
    EndpointClosed,
}

/// The mathematical value of a `RunEvent`.
pub enum RunEventView {
    TlsConfigured,
    TlsRefused(TunnelErrorView),
    QuicConfigured,
    QuicRefused(TunnelErrorView),
    EndpointOpened,
    EndpointFailed(TunnelErrorView),
    Accepted,
    EndpointClosed,
}

impl View for RunEvent {
    type V = RunEventView;

    open spec fn view(&self) -> RunEventView {
        match self {
            RunEvent::TlsConfigured => RunEventView::TlsConfigured,
            RunEvent::TlsRefused(e) => RunEventView::TlsRefused(e@),
            RunEvent::QuicConfigured => RunEventView::QuicConfigured,
            RunEvent::QuicRefused(e) => RunEventView::QuicRefused(e@),
            RunEvent::EndpointOpened => RunEventView::EndpointOpened,
            RunEvent::EndpointFailed(e) => RunEventView::EndpointFailed(e@),
            RunEvent::Accepted => RunEventView::Accepted,
            RunEvent::EndpointClosed => RunEventView::EndpointClosed,
        }
    }
}

/// The operation that the caller performs next for the listener.
#[derive(Clone, Debug, PartialEq, Eq)]
pub enum RunAction {
    /// Build the TLS server configuration, without client authentication,
    /// that presents this certificate chain with this key.
    ConfigureTls { certs: Vec<Vec<u8>>, key: PrivateKey },
    /// Build the transport's server configuration from the TLS configuration.
    ConfigureQuic,
    /// Give the server configuration this tuning and open the endpoint on
    /// the local address.
    OpenEndpoint { transport: TransportSettings },
    /// Wait for the next transport connection.
    Accept,
    /// Start a session for the connection as a unit of work of its own, then
    /// wait for the next connection.
    Spawn,
    /// The listener ended; the role returns without an error.
    Stop,
    /// The set-up failed; the role returns this error.
    Fail(TunnelError),
    /// The listener ended before: drop the event.
    Ignore,
}

/// The mathematical value of a `RunAction`.
pub enum RunActionView {
    ConfigureTls { certs: Seq<Vec<u8>>, key: PrivateKey },
    ConfigureQuic,
    OpenEndpoint { transport: TransportSettings },
    Accept,
    Spawn,
    Stop,
    Fail(TunnelErrorView),
    Ignore,
}

impl View for RunAction {
    type V = RunActionView;

    open spec fn view(&self) -> RunActionView {
        match self {
            RunAction::ConfigureTls { certs, key } => RunActionView::ConfigureTls {
                certs: certs@,
                key: *key,
            },
            RunAction::ConfigureQuic => RunActionView::ConfigureQuic,
            RunAction::OpenEndpoint { transport } => RunActionView::OpenEndpoint {
                transport: *transport,
            },
            RunAction::Accept => RunActionView::Accept,
            RunAction::Spawn => RunActionView::Spawn,
            RunAction::Stop => RunActionView::Stop,
            RunAction::Fail(e) => RunActionView::Fail(e@),
            RunAction::Ignore => RunActionView::Ignore,
        }
    }
}

/// Whether the listener has ended.
pub open spec fn listener_ended(stage: ListenerStage) -> bool {
    stage == ListenerStage::Stopped || stage == ListenerStage::Failed
}

/// Whether `e` is an outcome of the operation that is pending in `stage`.
pub open spec fn run_answers(stage: ListenerStage, e: RunEventView) -> bool {
    match stage {
        ListenerStage::ConfiguringTls => e is TlsConfigured || e is TlsRefused,
        ListenerStage::ConfiguringQuic => e is QuicConfigured || e is QuicRefused,
        ListenerStage::OpeningEndpoint => e is EndpointOpened || e is EndpointFailed,
        ListenerStage::Accepting => e is Accepted || e is EndpointClosed,
        ListenerStage::Stopped | ListenerStage::Failed => false,
    }
}

/// The state of the listener after `e`.
pub open spec fn run_next(l: Listener, e: RunEventView) -> Listener {
    if listener_ended(l.stage) {
        l
    } else if !run_answers(l.stage, e) {
        Listener { stage: ListenerStage::Failed }
    } else {
        match e {
            RunEventView::TlsConfigured => Listener { stage: ListenerStage::ConfiguringQuic },
            RunEventView::QuicConfigured => Listener { stage: ListenerStage::OpeningEndpoint },
            RunEventView::EndpointOpened => Listener { stage: ListenerStage::Accepting },
            RunEventView::Accepted => Listener { stage: ListenerStage::Accepting },
            RunEventView::EndpointClosed => Listener { stage: ListenerStage::Stopped },
            _ => Listener { stage: ListenerStage::Failed },
        }
    }
}

/// The operation that the listener asks for after `e`.
pub open spec fn run_action(l: Listener, e: RunEventView) -> RunActionView {
    if listener_ended(l.stage) {
        RunActionView::Ignore
    } else if !run_answers(l.stage, e) {
        RunActionView::Fail(refusal())
    } else {
        match e {
            RunEventView::TlsConfigured => RunActionView::ConfigureQuic,
            RunEventView::TlsRefused(err) => RunActionView::Fail(
                err.with_kind(ErrorKind::InvalidInput),
            ),
            RunEventView::QuicConfigured => RunActionView::OpenEndpoint {
                transport: reference_settings(),
            },
            RunEventView::QuicRefused(err) => RunActionView::Fail(err.with_kind(ErrorKind::Other)),
            RunEventView::EndpointOpened => RunActionView::Accept,
            RunEventView::EndpointFailed(err) => RunActionView::Fail(
                err.with_kind(ErrorKind::AddrInUse),
            ),
            RunEventView::Accepted => RunActionView::Spawn,
            RunEventView::EndpointClosed => RunActionView::Stop,
        }
    }
}

/// The names that the certificate of the server role is asked for: the host
/// name, and no other.
pub fn certificate_names(hostname: String) -> (san: Vec<String>)
    ensures
        san@.len() == 1,
        san@[0] == hostname,
{
    let mut san: Vec<String> = Vec::new();
    san.push(hostname);
    san
}

impl Listener {
    /// The listener that starts from the outcome of making the certificate:
    /// with a certificate the TLS configuration is built next; without one
    /// the role has failed with the error of the attempt.
    pub fn with_certificate(made: Result<(Vec<Vec<u8>>, PrivateKey), TunnelError>) -> (start: (
        Listener,
        RunAction,
    ))
        ensures
            match made {
                Ok((certs, key)) => start.0.stage == ListenerStage::ConfiguringTls && start.1@ == (
                RunActionView::ConfigureTls { certs: certs@, key }),
                Err(e) => start.0.stage == ListenerStage::Failed && start.1@ == RunActionView::Fail(
                    e@,
                ),
            },
    {
        match made {
            Ok((certs, key)) => (
                Listener { stage: ListenerStage::ConfiguringTls },
                RunAction::ConfigureTls { certs, key },
            ),
            Err(e) => (Listener { stage: ListenerStage::Failed }, RunAction::Fail(e)),
        }
    }

    /// The listener at its start. A fresh self-signed certificate is made
    /// first, for the names that `certificate_names` gives for `hostname`:
    /// `hostname` and nothing else. The key is random, so the start is not a
    /// function of `hostname`: either the TLS configuration is built next,
    /// with one certificate and a key of the format that its bytes announce,
    /// or the role has failed with an error of category `Other`. What
    /// follows from each outcome of making the certificate is stated by
    /// `with_certificate`.
    pub fn new(hostname: String) -> (start: (Listener, RunAction))
        ensures
            match start.1@ {
                RunActionView::ConfigureTls { certs, key } => start.0.stage
                    == ListenerStage::ConfiguringTls && certs.len() == 1 && key_format(key.der@)
                    == Some(key.format),
                RunActionView::Fail(e) => start.0.stage == ListenerStage::Failed && e.kind
                    == ErrorKind::Other,
                _ => false,
            },
    {
        Listener::with_certificate(generate_certificate(certificate_names(hostname)))
    }

    /// Whether the listener has ended.
    pub fn has_ended(&self) -> (ended: bool)
        ensures
            ended == listener_ended(self.stage),
    {
        match self.stage {
            ListenerStage::Stopped | ListenerStage::Failed => true,
            _ => false,
        }
    }

    fn fail(&mut self, err: TunnelError) -> (action: RunAction)
        ensures
            final(self).stage == ListenerStage::Failed,
            action@ == RunActionView::Fail(err@),
    {
        self.stage = ListenerStage::Failed;
        RunAction::Fail(err)
    }

    fn refuse(&mut self) -> (action: RunAction)
        ensures
            final(self).stage == ListenerStage::Failed,
            action@ == RunActionView::Fail(refusal()),
    {
        self.fail(TunnelError::refusal())
    }
}

/// One step of the listener of the server role.
///
/// The set-up is a chain: build the TLS configuration with the certificate,
/// build the transport's configuration, open the endpoint with the reference
/// tuning. A failure of any link ends the role with an error: a refused TLS
/// configuration under the category `InvalidInput`, a refused transport
/// configuration under `Other`, an endpoint that cannot be opened under
/// `AddrInUse`. Then every connection that arrives gets a session of its
/// own, and the listener goes on until the endpoint is closed.
pub fn run(listener: &mut Listener, event: RunEvent) -> (action: RunAction)
    ensures
        *final(listener) == run_next(*old(listener), event@),
        action@ == run_action(*old(listener), event@),
{
    match listener.stage {
        ListenerStage::ConfiguringTls => match event {
            RunEvent::TlsConfigured => {
                listener.stage = ListenerStage::ConfiguringQuic;
                RunAction::ConfigureQuic
            },
            RunEvent::TlsRefused(err) => listener.fail(err.with_kind(ErrorKind::InvalidInput)),
            _ => listener.refuse(),
        },
        ListenerStage::ConfiguringQuic => match event {
            RunEvent::QuicConfigured => match create_transport_config() {
                Ok(transport) => {
                    listener.stage = ListenerStage::OpeningEndpoint;
                    RunAction::OpenEndpoint { transport }
                },
                Err(err) => listener.fail(err),
            },
            RunEvent::QuicRefused(err) => listener.fail(err.with_kind(ErrorKind::Other)),
            _ => listener.refuse(),
        },
        ListenerStage::OpeningEndpoint => match event {
            RunEvent::EndpointOpened => {
                listener.stage = ListenerStage::Accepting;
                RunAction::Accept
            },
            RunEvent::EndpointFailed(err) => listener.fail(err.with_kind(ErrorKind::AddrInUse)),
            _ => listener.refuse(),
        },
        ListenerStage::Accepting => match event {
            RunEvent::Accepted => RunAction::Spawn,
            RunEvent::EndpointClosed => {
                listener.stage = ListenerStage::Stopped;
                RunAction::Stop
            },
            _ => listener.refuse(),
        },
        ListenerStage::Stopped | ListenerStage::Failed => RunAction::Ignore,
    }
}

/// Why accepting a stream failed, after the reasons for which the transport
/// ends a connection.
#[derive(Clone, Copy, Debug, PartialEq, Eq, Structural)]
pub enum ConnectionFault {
    /// The peer implements no supported version.
    VersionMismatch,
    /// The peer violated the protocol.
    TransportError,
    /// The peer's transport closed the connection.
    ConnectionClosed,
    /// The peer's application closed the connection.
    ApplicationClosed,
    /// The peer reset the connection.
    Reset,
    /// The connection was idle for too long.
    TimedOut,
    /// This side closed the connection.
    LocallyClosed,
    /// The connection ran out of identifiers.
    CidsExhausted,
}

/// Whether the fault is the peer's orderly close of the connection.
pub open spec fn is_graceful(fault: ConnectionFault) -> bool {
    fault == ConnectionFault::ApplicationClosed || fault == ConnectionFault::ConnectionClosed
}

/// What a session waits for, or how it ended.
#[derive(Clone, Copy, Debug, PartialEq, Eq, Structural)]
pub enum Stage {
    /// The handshake of the connection is awaited.
    Handshaking,
    /// The next stream of the connection is awaited.
    Accepting,
    /// The plaintext connection to the forwarding target is being opened.
    Dialing,
    /// The socket to the target is being configured.
    ConfiguringSocket,
    /// The connection yields no more streams: the session ended without an
    /// error.
    Ended,
    /// The handshake, the target or the socket failed, or an event was
    /// refused.
    Failed,
}

/// The state of the session of one transport connection.
#[derive(Clone, Copy, Debug, PartialEq, Eq, Structural)]
pub struct Session {
    pub stage: Stage,
}

/// The outcome of the operation that a session asked for.
#[derive(Clone, Debug, PartialEq, Eq)]
pub enum SessionEvent {
    HandshakeCompleted,
    HandshakeFailed(TunnelError),
    /// The peer opened a stream.
    StreamAccepted,
    /// No stream will arrive any more, for this reason.
    AcceptFailed(ConnectionFault),
    /// The plaintext connection to the target is open.
    Dialed,
    DialFailed(TunnelError),
    NoDelaySet,
    NoDelayFailed(TunnelError),
}

/// The mathematical value of a `SessionEvent`.
pub enum SessionEventView {
    HandshakeCompleted,
    HandshakeFailed(TunnelErrorView),
    StreamAccepted,
    AcceptFailed(ConnectionFault),
    Dialed,
    DialFailed(TunnelErrorView),
    NoDelaySet,
    NoDelayFailed(TunnelErrorView),
}

impl View for SessionEvent {
    type V = SessionEventView;

    open spec fn view(&self) -> SessionEventView {
        match self {
            SessionEvent::HandshakeCompleted => SessionEventView::HandshakeCompleted,
            SessionEvent::HandshakeFailed(e) => SessionEventView::HandshakeFailed(e@),
            SessionEvent::StreamAccepted => SessionEventView::StreamAccepted,
            SessionEvent::AcceptFailed(fault) => SessionEventView::AcceptFailed(*fault),
            SessionEvent::Dialed => SessionEventView::Dialed,
            SessionEvent::DialFailed(e) => SessionEventView::DialFailed(e@),
            SessionEvent::NoDelaySet => SessionEventView::NoDelaySet,
            SessionEvent::NoDelayFailed(e) => SessionEventView::NoDelayFailed(e@),
        }
    }
}

/// The operation that the caller performs next for a session.
#[derive(Clone, Debug, PartialEq, Eq)]
pub enum SessionAction {
    /// Wait for the handshake of the connection to complete.
    AwaitHandshake,
    /// Wait for the next stream that the peer opens.
    AcceptStream,
    /// Open a new plaintext connection to the forwarding target.
    Dial,
    /// Switch off the coalescing delay of the socket to the target.
    SetNoDelay,
    /// Start a relay pair between the accepted stream and the socket as a
    /// unit of work of its own, then wait for the next stream without
    /// waiting for the pair.
    SpawnRelay,
    /// The connection yields no more streams, because the peer closed it in
    /// good order (`graceful`) or because it broke. Stop accepting; the pairs
    /// that were started go on by themselves. The session returns without an
    /// error.
    Finish { graceful: bool },
    /// Stop accepting; the session returns this error.
    Fail(TunnelError),
    /// The session ended before: drop the event.
    Ignore,
}

/// The mathematical value of a `SessionAction`.
pub enum SessionActionView {
    AwaitHandshake,
    AcceptStream,
    Dial,
    SetNoDelay,
    SpawnRelay,
    Finish { graceful: bool },
    Fail(TunnelErrorView),
    Ignore,
}

impl View for SessionAction {
    type V = SessionActionView;

    open spec fn view(&self) -> SessionActionView {
        match self {
            SessionAction::AwaitHandshake => SessionActionView::AwaitHandshake,
            SessionAction::AcceptStream => SessionActionView::AcceptStream,
            SessionAction::Dial => SessionActionView::Dial,
            SessionAction::SetNoDelay => SessionActionView::SetNoDelay,
            SessionAction::SpawnRelay => SessionActionView::SpawnRelay,
            SessionAction::Finish { graceful } => SessionActionView::Finish { graceful: *graceful },
            SessionAction::Fail(e) => SessionActionView::Fail(e@),
            SessionAction::Ignore => SessionActionView::Ignore,
        }
    }
}

/// Whether a session in this stage has ended.
pub open spec fn session_ended(stage: Stage) -> bool {
    stage == Stage::Ended || stage == Stage::Failed
}

/// Whether `e` is an outcome of the operation that is pending in `stage`.
pub open spec fn session_answers(stage: Stage, e: SessionEventView) -> bool {
    match stage {
        Stage::Handshaking => e is HandshakeCompleted || e is HandshakeFailed,
        Stage::Accepting => e is StreamAccepted || e is AcceptFailed,
        Stage::Dialing => e is Dialed || e is DialFailed,
        Stage::ConfiguringSocket => e is NoDelaySet || e is NoDelayFailed,
        Stage::Ended | Stage::Failed => false,
    }
}

/// The state of a session after `e`.
pub open spec fn session_next(s: Session, e: SessionEventView) -> Session {
    if session_ended(s.stage) {
        s
    } else if !session_answers(s.stage, e) {
        Session { stage: Stage::Failed }
    } else {
        match e {
            SessionEventView::HandshakeCompleted => Session { stage: Stage::Accepting },
            SessionEventView::StreamAccepted => Session { stage: Stage::Dialing },
            SessionEventView::AcceptFailed(_) => Session { stage: Stage::Ended },
            SessionEventView::Dialed => Session { stage: Stage::ConfiguringSocket },
            SessionEventView::NoDelaySet => Session { stage: Stage::Accepting },
            _ => Session { stage: Stage::Failed },
        }
    }
}

/// The operation that a session asks for after `e`.
pub open spec fn session_action(s: Session, e: SessionEventView) -> SessionActionView {
    if session_ended(s.stage) {
        SessionActionView::Ignore
    } else if !session_answers(s.stage, e) {
        SessionActionView::Fail(refusal())
    } else {
        match e {
            SessionEventView::HandshakeCompleted => SessionActionView::AcceptStream,
            SessionEventView::HandshakeFailed(err) => SessionActionView::Fail(
                err.with_kind(ErrorKind::ConnectionAborted),
            ),
            SessionEventView::StreamAccepted => SessionActionView::Dial,
            SessionEventView::AcceptFailed(fault) => SessionActionView::Finish {
                graceful: is_graceful(fault),
            },
            SessionEventView::Dialed => SessionActionView::SetNoDelay,
            SessionEventView::DialFailed(err) => SessionActionView::Fail(err),
            SessionEventView::NoDelaySet => SessionActionView::SpawnRelay,
            SessionEventView::NoDelayFailed(err) => SessionActionView::Fail(err),
        }
    }
}

impl ConnectionFault {
    /// Whether the fault is the peer's orderly close of the connection.
    pub fn is_graceful(&self) -> (graceful: bool)
        ensures
            graceful == is_graceful(*self),
    {
        match self {
            ConnectionFault::ApplicationClosed | ConnectionFault::ConnectionClosed => true,
            _ => false,
        }
    }
}

impl Session {
    /// A session at its start, and its first operation: awaiting the
    /// handshake.
    pub fn new() -> (start: (Session, SessionAction))
        ensures
            start.0 == (Session { stage: Stage::Handshaking }),
            start.1@ == SessionActionView::AwaitHandshake,
    {
        (Session { stage: Stage::Handshaking }, SessionAction::AwaitHandshake)
    }

    /// Whether the session has ended.
    pub fn has_ended(&self) -> (ended: bool)
        ensures
            ended == session_ended(self.stage),
    {
        match self.stage {
            Stage::Ended | Stage::Failed => true,
            _ => false,
        }
    }

    fn fail(&mut self, err: TunnelError) -> (action: SessionAction)
        ensures
            final(self).stage == Stage::Failed,
            action@ == SessionActionView::Fail(err@),
    {
        self.stage = Stage::Failed;
        SessionAction::Fail(err)
    }

    fn refuse(&mut self) -> (action: SessionAction)
        ensures
            final(self).stage == Stage::Failed,
            action@ == SessionActionView::Fail(refusal()),
    {
        self.fail(TunnelError::refusal())
    }
}

/// One step of the session of one transport connection.
///
/// The session awaits the handshake; a failed handshake fails the session
/// under the category `ConnectionAborted`. Then it accepts the streams of
/// the connection one after the other. For each stream it opens a new
/// plaintext connection to the forwarding target, switches off the
/// coalescing delay of that socket and starts a relay pair, without waiting
/// for the pair to end. A target that cannot be reached or a socket that
/// cannot be configured fails the session with that error. When accepting
/// fails the session ends without an error, whether the peer closed the
/// connection in good order or the connection broke. No step of the session
/// touches a pair that was started before.
pub fn handle(session: &mut Session, event: SessionEvent) -> (action: SessionAction)
    ensures
        *final(session) == session_next(*old(session), event@),
        action@ == session_action(*old(session), event@),
{
    match session.stage {
        Stage::Handshaking => match event {
            SessionEvent::HandshakeCompleted => {
                session.stage = Stage::Accepting;
                SessionAction::AcceptStream
            },
            SessionEvent::HandshakeFailed(err) => session.fail(
                err.with_kind(ErrorKind::ConnectionAborted),
            ),
            _ => session.refuse(),
        },
        Stage::Accepting => match event {
            SessionEvent::StreamAccepted => {
                session.stage = Stage::Dialing;
                SessionAction::Dial
            },
            SessionEvent::AcceptFailed(fault) => {
                session.stage = Stage::Ended;
                SessionAction::Finish { graceful: fault.is_graceful() }
            },
            _ => session.refuse(),
        },
        Stage::Dialing => match event {
            SessionEvent::Dialed => {
                session.stage = Stage::ConfiguringSocket;
                SessionAction::SetNoDelay
            },
            SessionEvent::DialFailed(err) => session.fail(err),
            _ => session.refuse(),
        },
        Stage::ConfiguringSocket => match event {
            SessionEvent::NoDelaySet => {
                session.stage = Stage::Accepting;
                SessionAction::SpawnRelay
            },
            SessionEvent::NoDelayFailed(err) => session.fail(err),
            _ => session.refuse(),
        },
        Stage::Ended | Stage::Failed => SessionAction::Ignore,
    }
}

/// The state of a session that started and then received `trace`.
pub open spec fn session_after(trace: Seq<SessionEventView>) -> Session
    decreases trace.len(),
{
    if trace.len() == 0 {
        Session { stage: Stage::Handshaking }
    } else {
        session_next(session_after(trace.drop_last()), trace.last())
    }
}

/// How many relay pairs a session started in the run `trace`.
pub open spec fn pairs_started(trace: Seq<SessionEventView>) -> nat
    decreases trace.len(),
{
    if trace.len() == 0 {
        0
    } else if session_action(session_after(trace.drop_last()), trace.last()) is SpawnRelay {
        pairs_started(trace.drop_last()) + 1
    } else {
        pairs_started(trace.drop_last())
    }
}

/// How many streams a session accepted in the run `trace`.
pub open spec fn streams_accepted(trace: Seq<SessionEventView>) -> nat
    decreases trace.len(),
{
    if trace.len() == 0 {
        0
    } else if session_answers(session_after(trace.drop_last()).stage, trace.last())
        && trace.last() is StreamAccepted {
        streams_accepted(trace.drop_last()) + 1
    } else {
        streams_accepted(trace.drop_last())
    }
}

/// One stream, one pair. In every run of a session each pair was started
/// for a stream of its own: the pairs are as many as the accepted streams,
/// less the one stream whose target is still being reached, and less the
/// one whose target or socket failed the session.
pub proof fn lemma_one_pair_per_stream(trace: Seq<SessionEventView>)
    ensures
        ({
            let stage = session_after(trace).stage;
            let started = pairs_started(trace);
            let accepted = streams_accepted(trace);
            &&& started <= accepted <= started + 1
            &&& stage == Stage::Dialing || stage == Stage::ConfiguringSocket ==> accepted == started
                + 1
            &&& stage == Stage::Handshaking || stage == Stage::Accepting || stage == Stage::Ended
                ==> accepted == started
        }),
    decreases trace.len(),
{
    if trace.len() > 0 {
        lemma_one_pair_per_stream(trace.drop_last());
    }
}

/// The end of accepting is no error. Whatever the reason for which no
/// stream arrives any more, the peer's orderly close or a broken
/// connection, the session ends without an error, it starts no further
/// pair and asks for no operation on a pair that it started before.
pub proof fn lemma_accept_failure_is_clean(s: Session, fault: ConnectionFault)
    requires
        s.stage == Stage::Accepting,
    ensures
        session_next(s, SessionEventView::AcceptFailed(fault)).stage == Stage::Ended,
        session_action(s, SessionEventView::AcceptFailed(fault)) == (SessionActionView::Finish {
            graceful: is_graceful(fault),
        }),
        forall|later: SessionEventView|
            session_action(
                session_next(s, SessionEventView::AcceptFailed(fault)),
                later,
            ) == SessionActionView::Ignore,
{
}

/// The listener goes on. Once the endpoint is open, every connection that
/// arrives gets a session and the listener waits for the next one; nothing
/// but the close of the endpoint ends it, and that is no error.
pub proof fn lemma_listener_goes_on(l: Listener, e: RunEventView)
    requires
        l.stage == ListenerStage::Accepting,
        run_answers(l.stage, e),
    ensures
        e is Accepted ==> run_next(l, e) == l && run_action(l, e) == RunActionView::Spawn,
        e is EndpointClosed ==> run_next(l, e).stage == ListenerStage::Stopped && run_action(l, e)
            == RunActionView::Stop,
        !(run_action(l, e) is Fail),
{
}

} // verus!
