use tcp2quic::error::{ErrorKind, TunnelError};
use tcp2quic::relay::{
    copy_quic_to_tcp, copy_tcp_to_quic, Action, Direction, Event, Phase, Relay, BUFFER_SIZE,
    FLUSH_TIMEOUT_MS,
};

/// A sink that shows what reached it and what a reader on its far side can see.
#[derive(Default)]
struct RelaySink {
    written: Vec<u8>,
    visible: Vec<u8>,
    writes: usize,
    flushes: usize,
    closed: bool,
}

fn relay_error(kind: ErrorKind, text: &str) -> TunnelError {
    TunnelError::new(kind, text.to_string())
}

fn relay_step(dir: Direction, relay: &mut Relay, event: Event) -> Action {
    match dir {
        Direction::QuicToTcp => copy_quic_to_tcp(relay, event),
        Direction::TcpToQuic => copy_tcp_to_quic(relay, event),
    }
}

/// Runs one direction: every read is answered from `reads`, every other
/// operation succeeds on the sink. Stops when the relay ends or the script
/// runs out, and returns the last answer.
fn relay_run(dir: Direction, reads: Vec<Event>) -> (Relay, RelaySink, Action) {
    let (mut relay, mut action) = Relay::new();
    let mut sink = RelaySink::default();
    let mut script = reads.into_iter();
    loop {
        let event = match &action {
            Action::Read { max_len, timeout_ms } => {
                assert_eq!(*max_len, BUFFER_SIZE);
                assert_eq!(*timeout_ms, FLUSH_TIMEOUT_MS);
                match script.next() {
                    Some(e) => e,
                    None => return (relay, sink, action),
                }
            }
            Action::Write(bytes) => {
                assert!(!bytes.is_empty());
                sink.written.extend_from_slice(bytes);
                sink.writes += 1;
                Event::Written
            }
            Action::Flush => {
                sink.visible = sink.written.clone();
                sink.flushes += 1;
                Event::Flushed
            }
            Action::ShutdownSocket | Action::FinishStream => {
                sink.closed = true;
                Event::Closed
            }
            Action::Done | Action::Fail(_) => return (relay, sink, action),
        };
        action = relay_step(dir, &mut relay, event);
    }
}

#[test]
fn reference_buffer_and_timeout() {
    assert_eq!(BUFFER_SIZE, 8 * 1024);
    assert_eq!(FLUSH_TIMEOUT_MS, 1);
}

#[test]
fn relay_starts_with_a_timed_read() {
    let (relay, action) = Relay::new();
    assert_eq!(relay.phase(), Phase::Reading);
    assert!(!relay.needs_flush());
    assert!(!relay.is_terminal());
    assert_eq!(action, Action::Read { max_len: 8192, timeout_ms: 1 });
}

#[test]
fn bytes_reach_the_sink_in_order() {
    for dir in [Direction::QuicToTcp, Direction::TcpToQuic] {
        let (relay, sink, last) = relay_run(
            dir,
            vec![
                Event::ReadData(b"hello ".to_vec()),
                Event::ReadData(b"wor".to_vec()),
                Event::ReadTimedOut,
                Event::ReadData(b"ld".to_vec()),
                Event::ReadEnd,
            ],
        );
        assert_eq!(last, Action::Done);
        assert_eq!(relay.phase(), Phase::Finished);
        assert_eq!(sink.written, b"hello world".to_vec());
        assert_eq!(sink.visible, b"hello world".to_vec());
        assert_eq!(sink.writes, 3);
        assert!(sink.closed);
    }
}

#[test]
fn a_read_is_written_at_once_and_not_flushed() {
    let (mut relay, _) = Relay::new();
    let action = copy_tcp_to_quic(&mut relay, Event::ReadData(vec![1, 2, 3]));
    assert_eq!(action, Action::Write(vec![1, 2, 3]));
    assert_eq!(relay.phase(), Phase::Writing);
    let action = copy_tcp_to_quic(&mut relay, Event::Written);
    assert_eq!(action, Action::Read { max_len: 8192, timeout_ms: 1 });
    assert_eq!(relay.phase(), Phase::Reading);
    assert!(relay.needs_flush());
}

#[test]
fn idle_gap_flushes_what_was_written() {
    let (relay, sink, last) = relay_run(
        Direction::TcpToQuic,
        vec![Event::ReadData(b"a".to_vec()), Event::ReadTimedOut],
    );
    assert_eq!(last, Action::Read { max_len: 8192, timeout_ms: 1 });
    assert_eq!(sink.flushes, 1);
    assert_eq!(sink.visible, b"a".to_vec());
    assert_eq!(relay.phase(), Phase::Reading);
    assert!(!relay.needs_flush());
}

#[test]
fn idle_gap_asks_for_the_flush_before_any_other_operation() {
    let (mut relay, _) = Relay::new();
    copy_quic_to_tcp(&mut relay, Event::ReadData(vec![7]));
    copy_quic_to_tcp(&mut relay, Event::Written);
    let action = copy_quic_to_tcp(&mut relay, Event::ReadTimedOut);
    assert_eq!(action, Action::Flush);
    assert_eq!(relay.phase(), Phase::Flushing);
    let action = copy_quic_to_tcp(&mut relay, Event::Flushed);
    assert_eq!(action, Action::Read { max_len: 8192, timeout_ms: 1 });
}

#[test]
fn idle_gap_without_data_flushes_nothing() {
    let (relay, sink, last) = relay_run(
        Direction::QuicToTcp,
        vec![Event::ReadTimedOut, Event::ReadTimedOut, Event::ReadTimedOut],
    );
    assert_eq!(last, Action::Read { max_len: 8192, timeout_ms: 1 });
    assert_eq!(sink.flushes, 0);
    assert_eq!(sink.writes, 0);
    assert_eq!(relay.phase(), Phase::Reading);
}

#[test]
fn a_second_idle_gap_does_not_flush_again() {
    let (_, sink, _) = relay_run(
        Direction::QuicToTcp,
        vec![Event::ReadData(vec![1]), Event::ReadTimedOut, Event::ReadTimedOut],
    );
    assert_eq!(sink.flushes, 1);
}

#[test]
fn the_timeout_never_aborts_the_relay() {
    let reads: Vec<Event> = (0..1000).map(|_| Event::ReadTimedOut).collect();
    let (relay, sink, last) = relay_run(Direction::TcpToQuic, reads);
    assert_eq!(last, Action::Read { max_len: 8192, timeout_ms: 1 });
    assert_eq!(relay.phase(), Phase::Reading);
    assert!(!sink.closed);
}

#[test]
fn a_burst_of_small_reads_is_flushed_once() {
    let mut reads: Vec<Event> = (0u8..10).map(|i| Event::ReadData(vec![i])).collect();
    reads.push(Event::ReadTimedOut);
    let (_, sink, _) = relay_run(Direction::TcpToQuic, reads);
    assert_eq!(sink.writes, 10);
    assert_eq!(sink.flushes, 1);
    assert_eq!(sink.written, (0u8..10).collect::<Vec<u8>>());
    assert_eq!(sink.visible, sink.written);
}

#[test]
fn a_burst_is_not_flushed_before_the_idle_gap() {
    let reads: Vec<Event> = (0u8..10).map(|i| Event::ReadData(vec![i])).collect();
    let (relay, sink, _) = relay_run(Direction::TcpToQuic, reads);
    assert_eq!(sink.writes, 10);
    assert_eq!(sink.flushes, 0);
    assert!(sink.visible.is_empty());
    assert!(relay.needs_flush());
}

#[test]
fn two_bursts_are_flushed_twice() {
    let (_, sink, last) = relay_run(
        Direction::QuicToTcp,
        vec![
            Event::ReadData(vec![1]),
            Event::ReadData(vec![2]),
            Event::ReadTimedOut,
            Event::ReadData(vec![3]),
            Event::ReadData(vec![4]),
            Event::ReadEnd,
        ],
    );
    assert_eq!(last, Action::Done);
    assert_eq!(sink.flushes, 2);
    assert_eq!(sink.visible, vec![1, 2, 3, 4]);
}

#[test]
fn end_of_source_flushes_then_closes() {
    let (mut relay, _) = Relay::new();
    copy_quic_to_tcp(&mut relay, Event::ReadData(vec![9]));
    copy_quic_to_tcp(&mut relay, Event::Written);
    assert_eq!(copy_quic_to_tcp(&mut relay, Event::ReadEnd), Action::Flush);
    assert_eq!(relay.phase(), Phase::Draining);
    assert_eq!(copy_quic_to_tcp(&mut relay, Event::Flushed), Action::ShutdownSocket);
    assert_eq!(relay.phase(), Phase::Closing);
    assert_eq!(copy_quic_to_tcp(&mut relay, Event::Closed), Action::Done);
    assert_eq!(relay.phase(), Phase::Finished);
    assert!(relay.is_terminal());
}

#[test]
fn end_of_source_without_data_closes_at_once() {
    let (relay, sink, last) = relay_run(Direction::QuicToTcp, vec![Event::ReadEnd]);
    assert_eq!(last, Action::Done);
    assert_eq!(sink.flushes, 0);
    assert!(sink.closed);
    assert_eq!(relay.phase(), Phase::Finished);
}

#[test]
fn a_read_of_no_bytes_is_the_end_of_the_source() {
    let (mut relay, _) = Relay::new();
    assert_eq!(copy_tcp_to_quic(&mut relay, Event::ReadData(Vec::new())), Action::FinishStream);
    assert_eq!(relay.phase(), Phase::Closing);
    let (mut relay, _) = Relay::new();
    copy_tcp_to_quic(&mut relay, Event::ReadData(vec![1]));
    copy_tcp_to_quic(&mut relay, Event::Written);
    assert_eq!(copy_tcp_to_quic(&mut relay, Event::ReadData(Vec::new())), Action::Flush);
    assert_eq!(relay.phase(), Phase::Draining);
}

#[test]
fn each_direction_closes_its_own_sink() {
    let (mut to_tcp, _) = Relay::new();
    assert_eq!(copy_quic_to_tcp(&mut to_tcp, Event::ReadEnd), Action::ShutdownSocket);
    let (mut to_quic, _) = Relay::new();
    assert_eq!(copy_tcp_to_quic(&mut to_quic, Event::ReadEnd), Action::FinishStream);
    let (mut any, _) = Relay::new();
    assert_eq!(any.advance(Direction::QuicToTcp, Event::ReadEnd), Action::ShutdownSocket);
}

#[test]
fn a_failed_read_of_the_stream_is_reported_as_other() {
    let (mut relay, _) = Relay::new();
    let action =
        copy_quic_to_tcp(&mut relay, Event::ReadFailed(relay_error(ErrorKind::ConnectionReset, "reset")));
    assert_eq!(action, Action::Fail(relay_error(ErrorKind::Other, "reset")));
    assert_eq!(relay.phase(), Phase::Failed);
}

#[test]
fn a_failed_read_of_the_socket_is_passed_on() {
    let (mut relay, _) = Relay::new();
    let action =
        copy_tcp_to_quic(&mut relay, Event::ReadFailed(relay_error(ErrorKind::ConnectionReset, "reset")));
    assert_eq!(action, Action::Fail(relay_error(ErrorKind::ConnectionReset, "reset")));
    assert_eq!(relay.phase(), Phase::Failed);
}

#[test]
fn a_failed_read_leaves_written_bytes_unflushed() {
    let (relay, sink, last) = relay_run(
        Direction::TcpToQuic,
        vec![
            Event::ReadData(vec![1, 2]),
            Event::ReadFailed(relay_error(ErrorKind::TimedOut, "late")),
        ],
    );
    assert_eq!(last, Action::Fail(relay_error(ErrorKind::TimedOut, "late")));
    assert_eq!(relay.phase(), Phase::Failed);
    assert_eq!(sink.written, vec![1, 2]);
    assert_eq!(sink.flushes, 0);
    assert!(!sink.closed);
}

#[test]
fn a_failed_write_aborts_the_direction() {
    let (mut relay, _) = Relay::new();
    copy_quic_to_tcp(&mut relay, Event::ReadData(vec![1]));
    let action =
        copy_quic_to_tcp(&mut relay, Event::WriteFailed(relay_error(ErrorKind::NotConnected, "gone")));
    assert_eq!(action, Action::Fail(relay_error(ErrorKind::NotConnected, "gone")));
    assert_eq!(relay.phase(), Phase::Failed);
    assert!(relay.is_terminal());
}

#[test]
fn a_failed_flush_aborts_the_direction() {
    let (mut relay, _) = Relay::new();
    copy_tcp_to_quic(&mut relay, Event::ReadData(vec![1]));
    copy_tcp_to_quic(&mut relay, Event::Written);
    copy_tcp_to_quic(&mut relay, Event::ReadTimedOut);
    let action = copy_tcp_to_quic(&mut relay, Event::FlushFailed(relay_error(ErrorKind::Other, "x")));
    assert_eq!(action, Action::Fail(relay_error(ErrorKind::Other, "x")));
    assert_eq!(relay.phase(), Phase::Failed);
}

#[test]
fn a_failed_final_flush_aborts_the_direction() {
    let (mut relay, _) = Relay::new();
    copy_tcp_to_quic(&mut relay, Event::ReadData(vec![1]));
    copy_tcp_to_quic(&mut relay, Event::Written);
    copy_tcp_to_quic(&mut relay, Event::ReadEnd);
    let action = copy_tcp_to_quic(&mut relay, Event::FlushFailed(relay_error(ErrorKind::Other, "x")));
    assert_eq!(action, Action::Fail(relay_error(ErrorKind::Other, "x")));
    assert_eq!(relay.phase(), Phase::Failed);
}

#[test]
fn a_failed_close_aborts_the_direction() {
    let (mut relay, _) = Relay::new();
    copy_tcp_to_quic(&mut relay, Event::ReadEnd);
    let action =
        copy_tcp_to_quic(&mut relay, Event::CloseFailed(relay_error(ErrorKind::NotConnected, "closed")));
    assert_eq!(action, Action::Fail(relay_error(ErrorKind::NotConnected, "closed")));
    assert_eq!(relay.phase(), Phase::Failed);
}

#[test]
fn an_event_that_answers_nothing_is_refused() {
    let refusal = relay_error(
        ErrorKind::InvalidInput,
        "the event does not answer the pending operation",
    );
    let (mut relay, _) = Relay::new();
    assert!(!relay.expects(&Event::Written));
    assert_eq!(copy_tcp_to_quic(&mut relay, Event::Written), Action::Fail(refusal.clone()));
    assert_eq!(relay.phase(), Phase::Failed);

    let (mut relay, _) = Relay::new();
    copy_tcp_to_quic(&mut relay, Event::ReadData(vec![1]));
    assert!(!relay.expects(&Event::ReadData(vec![2])));
    assert_eq!(copy_tcp_to_quic(&mut relay, Event::ReadData(vec![2])), Action::Fail(refusal));
    assert_eq!(relay.phase(), Phase::Failed);
}

#[test]
fn a_read_beyond_the_buffer_is_refused() {
    let (mut relay, _) = Relay::new();
    assert!(relay.expects(&Event::ReadData(vec![0; BUFFER_SIZE])));
    assert!(!relay.expects(&Event::ReadData(vec![0; BUFFER_SIZE + 1])));
    let action = copy_quic_to_tcp(&mut relay, Event::ReadData(vec![0; BUFFER_SIZE + 1]));
    assert_eq!(
        action,
        Action::Fail(relay_error(
            ErrorKind::InvalidInput,
            "the event does not answer the pending operation"
        ))
    );
    assert_eq!(relay.phase(), Phase::Failed);
}

#[test]
fn an_ended_relay_stays_as_it_is() {
    let (mut relay, _, _) = relay_run(Direction::QuicToTcp, vec![Event::ReadEnd]);
    assert_eq!(relay.phase(), Phase::Finished);
    for event in [Event::ReadData(vec![1]), Event::ReadTimedOut, Event::Closed, Event::Flushed] {
        assert!(!relay.expects(&event));
        let action = copy_quic_to_tcp(&mut relay, event);
        assert!(matches!(action, Action::Fail(_)));
        assert_eq!(relay.phase(), Phase::Finished);
    }
}

#[test]
fn a_relay_expects_the_outcomes_of_its_pending_operation() {
    let (mut relay, _) = Relay::new();
    assert!(relay.expects(&Event::ReadData(vec![1])));
    assert!(relay.expects(&Event::ReadEnd));
    assert!(relay.expects(&Event::ReadTimedOut));
    assert!(relay.expects(&Event::ReadFailed(relay_error(ErrorKind::Other, ""))));
    assert!(!relay.expects(&Event::Flushed));
    copy_tcp_to_quic(&mut relay, Event::ReadData(vec![1]));
    assert!(relay.expects(&Event::Written));
    assert!(relay.expects(&Event::WriteFailed(relay_error(ErrorKind::Other, ""))));
    assert!(!relay.expects(&Event::ReadEnd));
    copy_tcp_to_quic(&mut relay, Event::Written);
    copy_tcp_to_quic(&mut relay, Event::ReadEnd);
    assert!(relay.expects(&Event::Flushed));
    assert!(!relay.expects(&Event::Closed));
    copy_tcp_to_quic(&mut relay, Event::Flushed);
    assert!(relay.expects(&Event::Closed));
    assert!(relay.expects(&Event::CloseFailed(relay_error(ErrorKind::Other, ""))));
}

#[test]
fn a_full_buffer_is_relayed_whole() {
    let chunk: Vec<u8> = (0..BUFFER_SIZE).map(|i| (i % 251) as u8).collect();
    let (_, sink, last) = relay_run(
        Direction::QuicToTcp,
        vec![Event::ReadData(chunk.clone()), Event::ReadData(chunk.clone()), Event::ReadEnd],
    );
    assert_eq!(last, Action::Done);
    let mut expected = chunk.clone();
    expected.extend_from_slice(&chunk);
    assert_eq!(sink.visible, expected);
    assert_eq!(sink.flushes, 1);
}
