//! What a run of a relay has read, written and flushed, and the laws that
//! hold of every run.
//!
//! A run is the sequence of events that a relay received since its start. The
//! `Ledger` of a run is kept from the outside: it counts the bytes of the
//! reads that the relay asked for, the bytes of the writes and the flushes
//! that it answered with, and the completions that were reported to it.

use crate::relay::answers;
use crate::relay::close_action;
use crate::relay::initial;
use crate::relay::is_end_of_source;
use crate::relay::is_terminal;
use crate::relay::next_action;
use crate::relay::next_state;
use crate::relay::read_action;
use crate::relay::ActionView;
use crate::relay::Direction;
use crate::relay::EventView;
use crate::relay::BUFFER_SIZE;
use crate::relay::Phase;
use crate::relay::Relay;
use vstd::prelude::*;

verus! {

/// The account of one run of a relay.
pub struct Ledger {
    /// The bytes that the reads returned, in the order of the reads.
    pub consumed: Seq<u8>,
    /// The bytes of the writes that the relay asked for, in their order.
    pub handed: Seq<u8>,
    /// The bytes of the writes that completed.
    pub delivered: Seq<u8>,
    /// The bytes that were delivered when the last flush completed.
    pub flushed: Seq<u8>,
    /// How many writes completed.
    pub writes: nat,
    /// How many flushes the relay asked for.
    pub flushes: nat,
    /// How many reads found the source idle for the flush timeout.
    pub idle_gaps: nat,
    /// Whether a read found the source at its end.
    pub source_ended: bool,
}

/// The account of a run without events.
pub open spec fn empty_ledger() -> Ledger {
    Ledger {
        consumed: Seq::empty(),
        handed: Seq::empty(),
        delivered: Seq::empty(),
        flushed: Seq::empty(),
        writes: 0,
        flushes: 0,
        idle_gaps: 0,
        source_ended: false,
    }
}

/// The account `l` of a run that left a relay of direction `dir` in state
/// `r`, continued by the event `e`.
pub open spec fn record(r: Relay, dir: Direction, l: Ledger, e: EventView) -> Ledger {
    let accepted = answers(r.phase, e);
    let action = next_action(r, dir, e);
    Ledger {
        consumed: match e {
            EventView::ReadData(bytes) if accepted => l.consumed + bytes,
            _ => l.consumed,
        },
        handed: match action {
            ActionView::Write(bytes) => l.handed + bytes,
            _ => l.handed,
        },
        delivered: if accepted && e is Written {
            l.handed
        } else {
            l.delivered
        },
        flushed: if accepted && e is Flushed {
            l.delivered
        } else {
            l.flushed
        },
        writes: if accepted && e is Written {
            l.writes + 1
        } else {
            l.writes
        },
        flushes: if action is Flush {
            l.flushes + 1
        } else {
            l.flushes
        },
        idle_gaps: if accepted && e is ReadTimedOut {
            l.idle_gaps + 1
        } else {
            l.idle_gaps
        },
        source_ended: l.source_ended || (accepted && is_end_of_source(e)),
    }
}

/// The state of a relay that started and then received `trace`.
pub open spec fn state_after(trace: Seq<EventView>) -> Relay
    decreases trace.len(),
{
    if trace.len() == 0 {
        initial()
    } else {
        next_state(state_after(trace.drop_last()), trace.last())
    }
}

/// The account of the run `trace` of a relay of direction `dir`.
pub open spec fn ledger_after(dir: Direction, trace: Seq<EventView>) -> Ledger
    decreases trace.len(),
{
    if trace.len() == 0 {
        empty_ledger()
    } else {
        record(
            state_after(trace.drop_last()),
            dir,
            ledger_after(dir, trace.drop_last()),
            trace.last(),
        )
    }
}

/// What the state of a relay says about the account of its run.
pub open spec fn consistent(r: Relay, l: Ledger) -> bool {
    &&& l.handed == l.consumed
    &&& l.delivered.is_prefix_of(l.handed)
    &&& l.flushed.is_prefix_of(l.delivered)
    &&& r.phase == Phase::Writing ==> l.delivered.len() < l.handed.len()
    &&& r.phase != Phase::Writing && r.phase != Phase::Failed ==> l.delivered == l.handed
    &&& r.phase != Phase::Failed ==> (r.need_flush <==> l.flushed.len() < l.delivered.len())
    &&& r.phase == Phase::Closing || r.phase == Phase::Finished ==> l.flushed == l.delivered
    &&& l.source_ended ==> r.phase == Phase::Draining || r.phase == Phase::Closing || r.phase
        == Phase::Finished || r.phase == Phase::Failed
    &&& r.phase == Phase::Draining || r.phase == Phase::Closing || r.phase == Phase::Finished
        ==> l.source_ended
    &&& l.flushes <= l.idle_gaps + (if l.source_ended {
        1nat
    } else {
        0nat
    })
    &&& l.flushes + (if r.need_flush && (r.phase == Phase::Reading || r.phase == Phase::Writing) {
        1nat
    } else {
        0nat
    }) <= l.writes
    &&& l.writes > 0 && r.phase != Phase::Failed && !(r.need_flush && (r.phase == Phase::Reading
        || r.phase == Phase::Writing)) ==> l.flushes >= 1
}

proof fn lemma_record_consistent(r: Relay, dir: Direction, l: Ledger, e: EventView)
    requires
        consistent(r, l),
    ensures
        consistent(next_state(r, e), record(r, dir, l, e)),
{
    let l2 = record(r, dir, l, e);
    if answers(r.phase, e) {
        match e {
            EventView::ReadData(bytes) => {
                assert(l.delivered.is_prefix_of(l.handed + bytes));
            },
            EventView::Written => {
                assert(l.flushed.is_prefix_of(l.handed));
            },
            _ => {},
        }
    }
}

/// Every run leaves the relay and its account consistent.
pub proof fn lemma_consistent(dir: Direction, trace: Seq<EventView>)
    ensures
        consistent(state_after(trace), ledger_after(dir, trace)),
    decreases trace.len(),
{
    if trace.len() > 0 {
        lemma_consistent(dir, trace.drop_last());
        lemma_record_consistent(
            state_after(trace.drop_last()),
            dir,
            ledger_after(dir, trace.drop_last()),
            trace.last(),
        );
    }
}

/// Ordering. In every run the bytes that the relay asked the sink to write
/// are the bytes that its reads returned, byte for byte and in the order of
/// the reads; the bytes of the completed writes are a prefix of them, and the
/// bytes that a flush covers are a prefix of those. When the relay has
/// finished, every byte that was read has been written and flushed.
pub proof fn lemma_ordering(dir: Direction, trace: Seq<EventView>)
    ensures
        ledger_after(dir, trace).handed == ledger_after(dir, trace).consumed,
        ledger_after(dir, trace).delivered.is_prefix_of(ledger_after(dir, trace).handed),
        ledger_after(dir, trace).flushed.is_prefix_of(ledger_after(dir, trace).delivered),
        state_after(trace).phase == Phase::Finished ==> ledger_after(dir, trace).delivered
            == ledger_after(dir, trace).consumed && ledger_after(dir, trace).flushed
            == ledger_after(dir, trace).consumed,
{
    lemma_consistent(dir, trace);
}

/// Flush bound. Take a relay that waits for data after any run. If its read
/// finds the source idle for the flush timeout and some byte that was read
/// has not been flushed, the relay asks for a flush and for nothing before
/// it, and once that flush has completed every byte that was read is flushed
/// and the relay reads again. If nothing waits to be flushed, the relay just
/// reads again.
pub proof fn lemma_flush_bound(dir: Direction, trace: Seq<EventView>)
    ensures
        state_after(trace).phase == Phase::Reading ==> ({
            let r = state_after(trace);
            let l = ledger_after(dir, trace);
            let idle = trace.push(EventView::ReadTimedOut);
            let flushed = idle.push(EventView::Flushed);
            if l.flushed == l.consumed {
                &&& next_action(r, dir, EventView::ReadTimedOut) == read_action()
                &&& state_after(idle) == r
            } else {
                &&& next_action(r, dir, EventView::ReadTimedOut) == ActionView::Flush
                &&& ledger_after(dir, flushed).flushed == l.consumed
                &&& ledger_after(dir, flushed).consumed == l.consumed
                &&& next_action(state_after(idle), dir, EventView::Flushed) == read_action()
                &&& state_after(flushed) == Relay { phase: Phase::Reading, need_flush: false }
            }
        }),
{
    lemma_consistent(dir, trace);
    let idle = trace.push(EventView::ReadTimedOut);
    let flushed = idle.push(EventView::Flushed);
    assert(idle.drop_last() == trace);
    assert(flushed.drop_last() == idle);
    let r = state_after(trace);
    let l = ledger_after(dir, trace);
    assert(state_after(idle) == next_state(r, EventView::ReadTimedOut));
    assert(ledger_after(dir, idle) == record(r, dir, l, EventView::ReadTimedOut));
    assert(state_after(flushed) == next_state(state_after(idle), EventView::Flushed));
    assert(ledger_after(dir, flushed) == record(
        state_after(idle),
        dir,
        ledger_after(dir, idle),
        EventView::Flushed,
    ));
}

/// Coalescing. In every run the relay asks for at most one flush for each
/// read that found the source idle, and one more when the source has ended;
/// and it never asks for more flushes than writes have completed. A burst of
/// reads without an idle interval between them is therefore written without
/// a flush in between.
pub proof fn lemma_coalescing(dir: Direction, trace: Seq<EventView>)
    ensures
        ledger_after(dir, trace).flushes <= ledger_after(dir, trace).idle_gaps + 1,
        !ledger_after(dir, trace).source_ended ==> ledger_after(dir, trace).flushes
            <= ledger_after(dir, trace).idle_gaps,
        ledger_after(dir, trace).flushes <= ledger_after(dir, trace).writes,
{
    lemma_consistent(dir, trace);
}

/// One burst, one flush. A run that finished after at least one write and
/// in which no read found the source idle has flushed exactly once, however
/// many writes it made; a run that finished without a write has not
/// flushed at all.
pub proof fn lemma_burst_is_flushed_once(dir: Direction, trace: Seq<EventView>)
    requires
        state_after(trace).phase == Phase::Finished,
        ledger_after(dir, trace).idle_gaps == 0,
    ensures
        ledger_after(dir, trace).writes > 0 ==> ledger_after(dir, trace).flushes == 1,
        ledger_after(dir, trace).writes == 0 ==> ledger_after(dir, trace).flushes == 0,
{
    lemma_consistent(dir, trace);
}

/// The buffer bounds every write: a relay never hands the sink more bytes
/// at once than the buffer holds, and never an empty write.
pub proof fn lemma_writes_fit_the_buffer(r: Relay, dir: Direction, e: EventView)
    ensures
        next_action(r, dir, e) matches ActionView::Write(bytes) ==> 0 < bytes.len() <= BUFFER_SIZE
            && e == EventView::ReadData(bytes) && r.phase == Phase::Reading,
{
}

/// A relay asks for a flush only in answer to a read that found the source
/// idle or at its end, and only when a write has completed since the last
/// flush.
pub proof fn lemma_flush_only_when_idle(r: Relay, dir: Direction, e: EventView)
    ensures
        next_action(r, dir, e) == ActionView::Flush ==> r.phase == Phase::Reading && r.need_flush
            && (e is ReadTimedOut || is_end_of_source(e)),
{
}

/// The timeout is a flush trigger and nothing else: a read that finds the
/// source idle never ends a relay. The relay flushes or reads again.
pub proof fn lemma_timeout_never_aborts(r: Relay, dir: Direction)
    requires
        r.phase == Phase::Reading,
    ensures
        !is_terminal(next_state(r, EventView::ReadTimedOut).phase),
        next_action(r, dir, EventView::ReadTimedOut) == ActionView::Flush || next_action(
            r,
            dir,
            EventView::ReadTimedOut,
        ) == read_action(),
{
}

/// The end of the source is no error. When a read finds the source at its
/// end and the operations on the sink succeed, the relay flushes if a write
/// has completed since the last flush, closes the sink of its direction and
/// is done.
pub proof fn lemma_clean_end(r: Relay, dir: Direction, e: EventView)
    requires
        r.phase == Phase::Reading,
        is_end_of_source(e),
    ensures
        ({
            let ended = next_state(r, e);
            let drained = if r.need_flush {
                next_state(ended, EventView::Flushed)
            } else {
                ended
            };
            &&& r.need_flush ==> next_action(r, dir, e) == ActionView::Flush && next_action(
                ended,
                dir,
                EventView::Flushed,
            ) == close_action(dir)
            &&& !r.need_flush ==> next_action(r, dir, e) == close_action(dir)
            &&& drained == Relay { phase: Phase::Closing, need_flush: false }
            &&& next_action(drained, dir, EventView::Closed) == ActionView::Done
            &&& next_state(drained, EventView::Closed).phase == Phase::Finished
        }),
{
}

} // verus!
