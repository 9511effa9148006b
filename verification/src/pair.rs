//! The two directions of one tunneled connection.
//!
//! A pair binds one plaintext socket to one transport stream. Its two relays
//! race: as soon as either of them ends, cleanly or with an error, the whole
//! pair is torn down. The operation that the other direction waits for is
//! cancelled, socket and stream are released, and nothing is asked of either
//! afterwards. There is no half-closed pair.

use crate::error::TunnelError;
use crate::error::TunnelErrorView;
use crate::relay::copy_quic_to_tcp;
use crate::relay::copy_tcp_to_quic;
use crate::relay::initial;
use crate::relay::is_terminal;
use crate::relay::next_action;
use crate::relay::next_state;
use crate::relay::read_action;
use crate::relay::Action;
use crate::relay::ActionView;
use crate::relay::Direction;
use crate::relay::Event;
use crate::relay::EventView;
use crate::relay::Relay;
use vstd::prelude::*;

verus! {

/// The state of one tunneled connection: the relay of each direction.
#[derive(Clone, Copy, Debug, PartialEq, Eq, Structural)]
pub struct RelayPair {
    /// The relay from the plaintext socket to the transport stream.
    pub to_quic: Relay,
    /// The relay from the transport stream to the plaintext socket.
    pub to_tcp: Relay,
}

/// What the caller does after an event of one direction.
#[derive(Clone, Debug, PartialEq, Eq)]
pub enum PairAction {
    /// Perform this operation for this direction.
    Continue(Direction, Action),
    /// The direction `ended` has ended, with `failure` if it was aborted:
    /// cancel the operation that the other direction waits for and release
    /// the socket and the stream.
    TearDown { ended: Direction, failure: Option<TunnelError> },
    /// The pair was torn down before: drop the event.
    Ignore,
}

/// The mathematical value of a `PairAction`.
pub enum PairActionView {
    Continue(Direction, ActionView),
    TearDown { ended: Direction, failure: Option<TunnelErrorView> },
    Ignore,
}

impl View for PairAction {
    type V = PairActionView;

    open spec fn view(&self) -> PairActionView {
        match self {
            PairAction::Continue(dir, action) => PairActionView::Continue(*dir, action@),
            PairAction::TearDown { ended, failure } => PairActionView::TearDown {
                ended: *ended,
                failure: match failure {
                    Some(e) => Some(e@),
                    None => None,
                },
            },
            PairAction::Ignore => PairActionView::Ignore,
        }
    }
}

/// The other direction of a pair.
pub open spec fn opposite(dir: Direction) -> Direction {
    match dir {
        Direction::QuicToTcp => Direction::TcpToQuic,
        Direction::TcpToQuic => Direction::QuicToTcp,
    }
}

impl RelayPair {
    /// The relay that runs in direction `dir`.
    pub open spec fn relay_of(self, dir: Direction) -> Relay {
        match dir {
            Direction::QuicToTcp => self.to_tcp,
            Direction::TcpToQuic => self.to_quic,
        }
    }

    /// The pair with `r` as its relay of direction `dir`.
    pub open spec fn with_relay(self, dir: Direction, r: Relay) -> RelayPair {
        match dir {
            Direction::QuicToTcp => RelayPair { to_quic: self.to_quic, to_tcp: r },
            Direction::TcpToQuic => RelayPair { to_quic: r, to_tcp: self.to_tcp },
        }
    }

    /// Whether the pair still holds its socket and its stream: neither
    /// direction has ended.
    pub open spec fn open(self) -> bool {
        !is_terminal(self.to_quic.phase) && !is_terminal(self.to_tcp.phase)
    }
}

/// The pair in which both directions are at their start.
pub open spec fn initial_pair() -> RelayPair {
    RelayPair { to_quic: initial(), to_tcp: initial() }
}

/// The state of a pair after the event `e` of its direction `dir`.
pub open spec fn pair_next(p: RelayPair, dir: Direction, e: EventView) -> RelayPair {
    if p.open() {
        p.with_relay(dir, next_state(p.relay_of(dir), e))
    } else {
        p
    }
}

/// What a pair answers to the event `e` of its direction `dir`.
pub open spec fn pair_action(p: RelayPair, dir: Direction, e: EventView) -> PairActionView {
    if p.open() {
        match next_action(p.relay_of(dir), dir, e) {
            ActionView::Done => PairActionView::TearDown { ended: dir, failure: None },
            ActionView::Fail(err) => PairActionView::TearDown { ended: dir, failure: Some(err) },
            action => PairActionView::Continue(dir, action),
        }
    } else {
        PairActionView::Ignore
    }
}

impl RelayPair {
    /// A pair at its start, with the first operation of the direction from
    /// socket to stream and the first operation of the direction from stream
    /// to socket: both are reads.
    pub fn new() -> (start: (RelayPair, Action, Action))
        ensures
            start.0 == initial_pair(),
            start.0.open(),
            start.1@ == read_action(),
            start.2@ == read_action(),
    {
        let (to_quic, first_to_quic) = Relay::new();
        let (to_tcp, first_to_tcp) = Relay::new();
        (RelayPair { to_quic, to_tcp }, first_to_quic, first_to_tcp)
    }

    /// Whether the pair still holds its socket and its stream.
    pub fn is_open(&self) -> (open: bool)
        ensures
            open == self.open(),
    {
        !self.to_quic.is_terminal() && !self.to_tcp.is_terminal()
    }

    /// The relay that runs in direction `dir`.
    pub fn relay(&self, dir: Direction) -> (r: Relay)
        ensures
            r == self.relay_of(dir),
    {
        match dir {
            Direction::QuicToTcp => self.to_tcp,
            Direction::TcpToQuic => self.to_quic,
        }
    }

    /// Takes the outcome of the operation that direction `dir` waited for.
    /// While the pair is open the relay of that direction advances; if it
    /// ends thereby, the pair is torn down. Once the pair is torn down every
    /// event is dropped.
    pub fn step(&mut self, dir: Direction, event: Event) -> (action: PairAction)
        ensures
            *final(self) == pair_next(*old(self), dir, event@),
            action@ == pair_action(*old(self), dir, event@),
    {
        if !self.is_open() {
            return PairAction::Ignore;
        }
        let action = match dir {
            Direction::QuicToTcp => {
                let mut r = self.to_tcp;
                let action = copy_quic_to_tcp(&mut r, event);
                self.to_tcp = r;
                action
            },
            Direction::TcpToQuic => {
                let mut r = self.to_quic;
                let action = copy_tcp_to_quic(&mut r, event);
                self.to_quic = r;
                action
            },
        };
        match action {
            Action::Done => PairAction::TearDown { ended: dir, failure: None },
            Action::Fail(err) => PairAction::TearDown { ended: dir, failure: Some(err) },
            other => PairAction::Continue(dir, other),
        }
    }
}

/// One event of a run of a pair: the direction it belongs to and the outcome.
pub struct PairEvent {
    pub dir: Direction,
    pub event: EventView,
}

/// The state of a pair that started and then received `trace`.
pub open spec fn pair_after(trace: Seq<PairEvent>) -> RelayPair
    decreases trace.len(),
{
    if trace.len() == 0 {
        initial_pair()
    } else {
        pair_next(pair_after(trace.drop_last()), trace.last().dir, trace.last().event)
    }
}

/// What the pair answered to the event at position `i` of its run `trace`.
pub open spec fn answer_at(trace: Seq<PairEvent>, i: int) -> PairActionView
    recommends
        0 <= i < trace.len(),
{
    pair_action(pair_after(trace.take(i)), trace[i].dir, trace[i].event)
}

/// A relay ends with an event exactly when it answers that it is done or
/// that it failed.
pub proof fn lemma_end_is_announced(r: Relay, dir: Direction, e: EventView)
    ensures
        is_terminal(next_state(r, e).phase) <==> (next_action(r, dir, e) is Done || next_action(
            r,
            dir,
            e,
        ) is Fail),
{
}

/// All-or-nothing teardown, one step. While a pair is open, an event that
/// ends its direction tears the pair down: the answer names that direction,
/// the pair is not open afterwards, and the other direction is left where it
/// was, its pending operation cancelled. An event that does not end its
/// direction leaves the pair open and the other direction untouched.
pub proof fn lemma_first_end_tears_down(p: RelayPair, dir: Direction, e: EventView)
    requires
        p.open(),
    ensures
        pair_next(p, dir, e).relay_of(opposite(dir)) == p.relay_of(opposite(dir)),
        pair_next(p, dir, e).relay_of(dir) == next_state(p.relay_of(dir), e),
        is_terminal(next_state(p.relay_of(dir), e).phase) ==> !pair_next(p, dir, e).open() && (
        pair_action(p, dir, e) matches PairActionView::TearDown { ended, .. } && ended == dir),
        !is_terminal(next_state(p.relay_of(dir), e).phase) ==> pair_next(p, dir, e).open() && (
        pair_action(p, dir, e) matches PairActionView::Continue(d, a) && d == dir && a
            == next_action(p.relay_of(dir), dir, e)),
{
    lemma_end_is_announced(p.relay_of(dir), dir, e);
}

/// All-or-nothing teardown, afterwards. A pair that was torn down stays as
/// it is and drops every event: no operation is asked of the socket or of
/// the stream again.
pub proof fn lemma_torn_down_is_final(p: RelayPair, dir: Direction, e: EventView)
    requires
        !p.open(),
    ensures
        pair_next(p, dir, e) == p,
        pair_action(p, dir, e) == PairActionView::Ignore,
{
}

proof fn lemma_take_step(trace: Seq<PairEvent>, i: int)
    requires
        0 <= i < trace.len(),
    ensures
        pair_after(trace.take(i + 1)) == pair_next(
            pair_after(trace.take(i)),
            trace[i].dir,
            trace[i].event,
        ),
{
    let t = trace.take(i + 1);
    assert(t.drop_last() == trace.take(i));
    assert(t.last() == trace[i]);
}

proof fn lemma_closed_stays_closed(trace: Seq<PairEvent>, i: int, j: int)
    requires
        0 <= i <= j <= trace.len(),
        !pair_after(trace.take(i)).open(),
    ensures
        pair_after(trace.take(j)) == pair_after(trace.take(i)),
    decreases j - i,
{
    if i < j {
        lemma_closed_stays_closed(trace, i, j - 1);
        lemma_take_step(trace, j - 1);
    }
}

/// All-or-nothing teardown, whole runs. In every run of a pair, once an
/// event was answered with a teardown the pair is not open, it stays in the
/// state of that moment to the end of the run, and every later event is
/// dropped: a run holds at most one teardown.
pub proof fn lemma_all_or_nothing(trace: Seq<PairEvent>, i: int, j: int)
    requires
        0 <= i < j < trace.len(),
        answer_at(trace, i) is TearDown,
    ensures
        !pair_after(trace.take(i + 1)).open(),
        pair_after(trace.take(j)) == pair_after(trace.take(i + 1)),
        pair_after(trace) == pair_after(trace.take(i + 1)),
        answer_at(trace, j) == PairActionView::Ignore,
{
    let before = pair_after(trace.take(i));
    lemma_end_is_announced(before.relay_of(trace[i].dir), trace[i].dir, trace[i].event);
    lemma_take_step(trace, i);
    lemma_closed_stays_closed(trace, i + 1, j);
    lemma_closed_stays_closed(trace, i + 1, trace.len() as int);
    assert(trace.take(trace.len() as int) == trace);
}

/// An open pair answers every event with an operation or with a teardown,
/// never by dropping it.
pub proof fn lemma_open_pair_answers(p: RelayPair, dir: Direction, e: EventView)
    requires
        p.open(),
    ensures
        !(pair_action(p, dir, e) is Ignore),
{
}

/// One event in a set of concurrently active pairs: the pair it belongs to,
/// the direction and the outcome.
pub struct FleetEvent {
    pub pair: int,
    pub dir: Direction,
    pub event: EventView,
}

/// The states of `count` pairs that started and then received `trace`, each
/// event going to the pair that it names. An event that names no pair
/// changes nothing.
pub open spec fn fleet_after(count: nat, trace: Seq<FleetEvent>) -> Seq<RelayPair>
    decreases trace.len(),
{
    if trace.len() == 0 {
        Seq::new(count, |i: int| initial_pair())
    } else {
        let before = fleet_after(count, trace.drop_last());
        let ev = trace.last();
        if 0 <= ev.pair < count {
            before.update(ev.pair, pair_next(before[ev.pair], ev.dir, ev.event))
        } else {
            before
        }
    }
}

/// The events of `trace` that belong to pair `k`, in their order.
pub open spec fn events_of(trace: Seq<FleetEvent>, k: int) -> Seq<PairEvent>
    decreases trace.len(),
{
    if trace.len() == 0 {
        Seq::empty()
    } else if trace.last().pair == k {
        events_of(trace.drop_last(), k).push(
            PairEvent { dir: trace.last().dir, event: trace.last().event },
        )
    } else {
        events_of(trace.drop_last(), k)
    }
}

/// Isolation, one step. An event of one pair leaves every other pair of the
/// set as it was, whatever the event is: a failure or the teardown of one
/// pair neither ends nor alters another.
pub proof fn lemma_isolation_step(count: nat, trace: Seq<FleetEvent>, ev: FleetEvent, k: int)
    requires
        0 <= k < count,
        ev.pair != k,
    ensures
        fleet_after(count, trace).len() == count,
        fleet_after(count, trace.push(ev)).len() == count,
        fleet_after(count, trace.push(ev))[k] == fleet_after(count, trace)[k],
{
    lemma_fleet_len(count, trace);
    lemma_fleet_len(count, trace.push(ev));
    assert(trace.push(ev).drop_last() == trace);
}

proof fn lemma_fleet_len(count: nat, trace: Seq<FleetEvent>)
    ensures
        fleet_after(count, trace).len() == count,
    decreases trace.len(),
{
    if trace.len() > 0 {
        lemma_fleet_len(count, trace.drop_last());
    }
}

/// Isolation, whole runs. In every interleaving of the events of a set of
/// pairs, each pair is in the state that its own events alone would have
/// left it in: what happens to the other pairs has no effect on it.
pub proof fn lemma_isolation(count: nat, trace: Seq<FleetEvent>, k: int)
    requires
        0 <= k < count,
    ensures
        fleet_after(count, trace).len() == count,
        fleet_after(count, trace)[k] == pair_after(events_of(trace, k)),
    decreases trace.len(),
{
    lemma_fleet_len(count, trace);
    if trace.len() > 0 {
        lemma_isolation(count, trace.drop_last(), k);
        lemma_fleet_len(count, trace.drop_last());
        if trace.last().pair == k {
            let own = events_of(trace, k);
            assert(own.drop_last() == events_of(trace.drop_last(), k));
        }
    }
}

} // verus!
