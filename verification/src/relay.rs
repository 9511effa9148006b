//! One direction of a tunneled connection: bytes are taken from a source and
//! handed to a sink until the source ends or an operation fails.
//!
//! The relay never flushes after a write. It flushes when a read found the
//! source idle for `FLUSH_TIMEOUT_MS`, and once more at the end of the source,
//! so a burst of small reads reaches the sink as one flush while no byte waits
//! longer than one idle interval.
//!
//! The caller performs each `Action` and reports its outcome as an `Event`.

use crate::error::refusal;
use crate::error::ErrorKind;
use crate::error::TunnelError;
use crate::error::TunnelErrorView;
use vstd::prelude::*;

verus! {

/// Capacity of the buffer that a read may fill.
pub const BUFFER_SIZE: usize = 8192;

/// How long a read may wait for data before the sink is flushed, in milliseconds.
pub const FLUSH_TIMEOUT_MS: u64 = 1;

/// Which way a relay moves bytes.
#[derive(Clone, Copy, Debug, PartialEq, Eq, Structural)]
pub enum Direction {
    /// From the transport stream to the plaintext socket.
    QuicToTcp,
    /// From the plaintext socket to the transport stream.
    TcpToQuic,
}

/// The operation whose outcome a relay waits for, or how it ended.
#[derive(Clone, Copy, Debug, PartialEq, Eq, Structural)]
pub enum Phase {
    /// A read from the source is pending.
    Reading,
    /// A write of the bytes just read is pending.
    Writing,
    /// A flush after an idle interval is pending.
    Flushing,
    /// The flush after the end of the source is pending.
    Draining,
    /// The half-close of the sink is pending.
    Closing,
    /// The source ended and the sink was flushed and closed.
    Finished,
    /// An operation failed or an event was refused.
    Failed,
}

/// The state of one direction.
#[derive(Clone, Copy, Debug, PartialEq, Eq, Structural)]
pub struct Relay {
    /// What the relay waits for.
    pub phase: Phase,
    /// Whether the sink holds bytes written since its last flush.
    pub need_flush: bool,
}

/// The outcome of the operation that the relay asked for.
#[derive(Clone, Debug, PartialEq, Eq)]
pub enum Event {
    /// The read returned these bytes, at most as many as it was asked for;
    /// none means that the source is at its end.
    ReadData(Vec<u8>),
    /// The read reported that the source has finished.
    ReadEnd,
    /// The read failed.
    ReadFailed(TunnelError),
    /// No data arrived within the flush timeout.
    ReadTimedOut,
    /// All bytes of the write were accepted by the sink.
    Written,
    /// The write failed.
    WriteFailed(TunnelError),
    /// The flush completed.
    Flushed,
    /// The flush failed.
    FlushFailed(TunnelError),
    /// The half-close completed.
    Closed,
    /// The half-close failed.
    CloseFailed(TunnelError),
}

/// The mathematical value of an `Event`.
pub enum EventView {
    ReadData(Seq<u8>),
    ReadEnd,
    ReadFailed(TunnelErrorView),
    ReadTimedOut,
    Written,
    WriteFailed(TunnelErrorView),
    Flushed,
    FlushFailed(TunnelErrorView),
    Closed,
    CloseFailed(TunnelErrorView),
}

impl View for Event {
    type V = EventView;

    open spec fn view(&self) -> EventView {
        match self {
            Event::ReadData(bytes) => EventView::ReadData(bytes@),
            Event::ReadEnd => EventView::ReadEnd,
            Event::ReadFailed(e) => EventView::ReadFailed(e@),
            Event::ReadTimedOut => EventView::ReadTimedOut,
            Event::Written => EventView::Written,
            Event::WriteFailed(e) => EventView::WriteFailed(e@),
            Event::Flushed => EventView::Flushed,
            Event::FlushFailed(e) => EventView::FlushFailed(e@),
            Event::Closed => EventView::Closed,
            Event::CloseFailed(e) => EventView::CloseFailed(e@),
        }
    }
}

/// The operation that the caller performs next.
#[derive(Clone, Debug, PartialEq, Eq)]
pub enum Action {
    /// Read at most `max_len` bytes from the source, waiting at most
    /// `timeout_ms` milliseconds for them.
    Read { max_len: usize, timeout_ms: u64 },
    /// Write all of these bytes to the sink, without flushing.
    Write(Vec<u8>),
    /// Flush the sink.
    Flush,
    /// Shut down the write side of the plaintext socket.
    ShutdownSocket,
    /// Finish the transport stream: no more data will be sent on it.
    FinishStream,
    /// The direction ended cleanly.
    Done,
    /// The direction was aborted with this error.
    Fail(TunnelError),
}

/// The mathematical value of an `Action`.
pub enum ActionView {
    Read { max_len: usize, timeout_ms: u64 },
    Write(Seq<u8>),
    Flush,
    ShutdownSocket,
    FinishStream,
    Done,
    Fail(TunnelErrorView),
}

impl View for Action {
    type V = ActionView;

    open spec fn view(&self) -> ActionView {
        match self {
            Action::Read { max_len, timeout_ms } => ActionView::Read {
                max_len: *max_len,
                timeout_ms: *timeout_ms,
            },
            Action::Write(bytes) => ActionView::Write(bytes@),
            Action::Flush => ActionView::Flush,
            Action::ShutdownSocket => ActionView::ShutdownSocket,
            Action::FinishStream => ActionView::FinishStream,
            Action::Done => ActionView::Done,
            Action::Fail(e) => ActionView::Fail(e@),
        }
    }
}

/// The state in which every relay starts: the first read is pending and the
/// sink holds nothing.
pub open spec fn initial() -> Relay {
    Relay { phase: Phase::Reading, need_flush: false }
}

/// The timed read that a relay asks for.
pub open spec fn read_action() -> ActionView {
    ActionView::Read { max_len: BUFFER_SIZE, timeout_ms: FLUSH_TIMEOUT_MS }
}

/// The half-close of the sink of a direction.
pub open spec fn close_action(dir: Direction) -> ActionView {
    match dir {
        Direction::QuicToTcp => ActionView::ShutdownSocket,
        Direction::TcpToQuic => ActionView::FinishStream,
    }
}

/// The error that a failed read ends a direction with. A failure of the
/// transport stream is reported under the category `Other`; a failure of the
/// socket is passed on as it is.
pub open spec fn read_failure(dir: Direction, e: TunnelErrorView) -> TunnelErrorView {
    match dir {
        Direction::QuicToTcp => e.with_kind(ErrorKind::Other),
        Direction::TcpToQuic => e,
    }
}

/// Whether a relay in this phase has ended.
pub open spec fn is_terminal(phase: Phase) -> bool {
    phase == Phase::Finished || phase == Phase::Failed
}

/// Whether `e` is an outcome of the operation that is pending in `phase`. A
/// read cannot return more bytes than the buffer holds.
pub open spec fn answers(phase: Phase, e: EventView) -> bool {
    match phase {
        Phase::Reading => match e {
            EventView::ReadData(bytes) => bytes.len() <= BUFFER_SIZE,
            EventView::ReadEnd | EventView::ReadFailed(_) | EventView::ReadTimedOut => true,
            _ => false,
        },
        Phase::Writing => e is Written || e is WriteFailed,
        Phase::Flushing | Phase::Draining => e is Flushed || e is FlushFailed,
        Phase::Closing => e is Closed || e is CloseFailed,
        Phase::Finished | Phase::Failed => false,
    }
}

/// Whether `e` tells a reading relay that the source is at its end.
pub open spec fn is_end_of_source(e: EventView) -> bool {
    e is ReadEnd || (e matches EventView::ReadData(bytes) && bytes.len() == 0)
}

/// The state of a relay after `e`.
pub open spec fn next_state(r: Relay, e: EventView) -> Relay {
    if !answers(r.phase, e) {
        if is_terminal(r.phase) {
            r
        } else {
            Relay { phase: Phase::Failed, need_flush: r.need_flush }
        }
    } else if is_end_of_source(e) {
        if r.need_flush {
            Relay { phase: Phase::Draining, need_flush: true }
        } else {
            Relay { phase: Phase::Closing, need_flush: false }
        }
    } else {
        match e {
            EventView::ReadData(_) => Relay { phase: Phase::Writing, need_flush: r.need_flush },
            EventView::ReadTimedOut => if r.need_flush {
                Relay { phase: Phase::Flushing, need_flush: true }
            } else {
                r
            },
            EventView::Written => Relay { phase: Phase::Reading, need_flush: true },
            EventView::Flushed => if r.phase == Phase::Draining {
                Relay { phase: Phase::Closing, need_flush: false }
            } else {
                Relay { phase: Phase::Reading, need_flush: false }
            },
            EventView::Closed => Relay { phase: Phase::Finished, need_flush: r.need_flush },
            _ => Relay { phase: Phase::Failed, need_flush: r.need_flush },
        }
    }
}

/// The operation that a relay of direction `dir` asks for after `e`.
pub open spec fn next_action(r: Relay, dir: Direction, e: EventView) -> ActionView {
    if !answers(r.phase, e) {
        ActionView::Fail(refusal())
    } else if is_end_of_source(e) {
        if r.need_flush {
            ActionView::Flush
        } else {
            close_action(dir)
        }
    } else {
        match e {
            EventView::ReadData(bytes) => ActionView::Write(bytes),
            EventView::ReadFailed(err) => ActionView::Fail(read_failure(dir, err)),
            EventView::ReadTimedOut => if r.need_flush {
                ActionView::Flush
            } else {
                read_action()
            },
            EventView::Written => read_action(),
            EventView::Flushed => if r.phase == Phase::Draining {
                close_action(dir)
            } else {
                read_action()
            },
            EventView::Closed => ActionView::Done,
            EventView::WriteFailed(err) => ActionView::Fail(err),
            EventView::FlushFailed(err) => ActionView::Fail(err),
            EventView::CloseFailed(err) => ActionView::Fail(err),
            _ => ActionView::Fail(refusal()),
        }
    }
}

impl Relay {
    /// A relay at its start, and the read that it asks for first.
    pub fn new() -> (start: (Relay, Action))
        ensures
            start.0 == initial(),
            start.1@ == read_action(),
    {
        (Relay { phase: Phase::Reading, need_flush: false }, Relay::read())
    }

    /// What the relay waits for.
    pub fn phase(&self) -> (phase: Phase)
        ensures
            phase == self.phase,
    {
        self.phase
    }

    /// Whether the sink holds bytes written since its last flush.
    pub fn needs_flush(&self) -> (dirty: bool)
        ensures
            dirty == self.need_flush,
    {
        self.need_flush
    }

    /// Whether the relay has ended, cleanly or not.
    pub fn is_terminal(&self) -> (ended: bool)
        ensures
            ended == is_terminal(self.phase),
    {
        match self.phase {
            Phase::Finished | Phase::Failed => true,
            _ => false,
        }
    }

    /// Whether `event` is an outcome of the operation that the relay waits for.
    pub fn expects(&self, event: &Event) -> (expected: bool)
        ensures
            expected == answers(self.phase, event@),
    {
        match self.phase {
            Phase::Reading => match event {
                Event::ReadData(bytes) => bytes.len() <= BUFFER_SIZE,
                Event::ReadEnd | Event::ReadFailed(_) | Event::ReadTimedOut => true,
                _ => false,
            },
            Phase::Writing => match event {
                Event::Written | Event::WriteFailed(_) => true,
                _ => false,
            },
            Phase::Flushing | Phase::Draining => match event {
                Event::Flushed | Event::FlushFailed(_) => true,
                _ => false,
            },
            Phase::Closing => match event {
                Event::Closed | Event::CloseFailed(_) => true,
                _ => false,
            },
            Phase::Finished | Phase::Failed => false,
        }
    }

    fn read() -> (action: Action)
        ensures
            action@ == read_action(),
    {
        Action::Read { max_len: BUFFER_SIZE, timeout_ms: FLUSH_TIMEOUT_MS }
    }

    fn close(dir: Direction) -> (action: Action)
        ensures
            action@ == close_action(dir),
    {
        match dir {
            Direction::QuicToTcp => Action::ShutdownSocket,
            Direction::TcpToQuic => Action::FinishStream,
        }
    }

    fn refuse(&mut self) -> (action: Action)
        ensures
            final(self).need_flush == old(self).need_flush,
            final(self).phase == if is_terminal(old(self).phase) {
                old(self).phase
            } else {
                Phase::Failed
            },
            action@ == ActionView::Fail(refusal()),
    {
        if !self.is_terminal() {
            self.phase = Phase::Failed;
        }
        Action::Fail(TunnelError::refusal())
    }

    fn end_of_source(&mut self, dir: Direction) -> (action: Action)
        requires
            old(self).phase == Phase::Reading,
        ensures
            *final(self) == next_state(*old(self), EventView::ReadEnd),
            action@ == next_action(*old(self), dir, EventView::ReadEnd),
    {
        if self.need_flush {
            self.phase = Phase::Draining;
            Action::Flush
        } else {
            self.phase = Phase::Closing;
            Relay::close(dir)
        }
    }

    fn abort(&mut self, err: TunnelError) -> (action: Action)
        ensures
            final(self).need_flush == old(self).need_flush,
            final(self).phase == Phase::Failed,
            action@ == ActionView::Fail(err@),
    {
        self.phase = Phase::Failed;
        Action::Fail(err)
    }

    /// Takes the outcome of the pending operation and answers with the next
    /// operation of a relay that runs in direction `dir`.
    pub fn advance(&mut self, dir: Direction, event: Event) -> (action: Action)
        ensures
            *final(self) == next_state(*old(self), event@),
            action@ == next_action(*old(self), dir, event@),
    {
        match self.phase {
            Phase::Reading => match event {
                Event::ReadData(bytes) => {
                    if bytes.len() > BUFFER_SIZE {
                        self.refuse()
                    } else if bytes.len() > 0 {
                        self.phase = Phase::Writing;
                        Action::Write(bytes)
                    } else {
                        self.end_of_source(dir)
                    }
                },
                Event::ReadEnd => self.end_of_source(dir),
                Event::ReadFailed(err) => match dir {
                    Direction::QuicToTcp => self.abort(err.with_kind(ErrorKind::Other)),
                    Direction::TcpToQuic => self.abort(err),
                },
                Event::ReadTimedOut => {
                    if self.need_flush {
                        self.phase = Phase::Flushing;
                        Action::Flush
                    } else {
                        Relay::read()
                    }
                },
                _ => self.refuse(),
            },
            Phase::Writing => match event {
                Event::Written => {
                    self.phase = Phase::Reading;
                    self.need_flush = true;
                    Relay::read()
                },
                Event::WriteFailed(err) => self.abort(err),
                _ => self.refuse(),
            },
            Phase::Flushing => match event {
                Event::Flushed => {
                    self.phase = Phase::Reading;
                    self.need_flush = false;
                    Relay::read()
                },
                Event::FlushFailed(err) => self.abort(err),
                _ => self.refuse(),
            },
            Phase::Draining => match event {
                Event::Flushed => {
                    self.phase = Phase::Closing;
                    self.need_flush = false;
                    Relay::close(dir)
                },
                Event::FlushFailed(err) => self.abort(err),
                _ => self.refuse(),
            },
            Phase::Closing => match event {
                Event::Closed => {
                    self.phase = Phase::Finished;
                    Action::Done
                },
                Event::CloseFailed(err) => self.abort(err),
                _ => self.refuse(),
            },
            Phase::Finished | Phase::Failed => self.refuse(),
        }
    }
}

/// One step of the relay that moves bytes from the transport stream to the
/// plaintext socket: takes the outcome of the pending operation and answers
/// with the next one. A failed read of the stream ends the direction with an
/// error of category `Other`; the sink is closed by shutting down the socket.
pub fn copy_quic_to_tcp(relay: &mut Relay, event: Event) -> (action: Action)
    ensures
        *final(relay) == next_state(*old(relay), event@),
        action@ == next_action(*old(relay), Direction::QuicToTcp, event@),
{
    relay.advance(Direction::QuicToTcp, event)
}

/// One step of the relay that moves bytes from the plaintext socket to the
/// transport stream: takes the outcome of the pending operation and answers
/// with the next one. A failed read of the socket ends the direction with
/// that error; the sink is closed by finishing the stream.
pub fn copy_tcp_to_quic(relay: &mut Relay, event: Event) -> (action: Action)
    ensures
        *final(relay) == next_state(*old(relay), event@),
        action@ == next_action(*old(relay), Direction::TcpToQuic, event@),
{
    relay.advance(Direction::TcpToQuic, event)
}

} // verus!
