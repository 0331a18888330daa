//! Execution timing: how long state reads, state writes and Cairo Keccak
//! syscalls took, and how often they ran, between a start and a stop,
//! together with the hash figures of the same span.

use vstd::prelude::*;

use crate::counters::{
    capped, lemma_wrapped_total_step, low_u64, saturated_sum, truncate_to_u64, wrapped_sum,
};
use crate::hash_metrics::{
    hash_timing_run, lemma_hash_timing_reports_records, mod_u64, pedersen_count,
    pedersen_us_total, sn_keccak_count, sn_keccak_us_total, start_hash_timing, stop_hash_timing,
    HashMetrics, HashTimingEvent, HashTimingState,
};

verus! {

/// Everything that a stop of timing reports.
#[derive(Clone, Copy, Debug, PartialEq, Eq, Structural)]
pub struct BlockifierTiming {
    pub hash_pedersen_us: u64,
    pub hash_pedersen_calls: u64,
    pub hash_poseidon_us: u64,
    pub hash_poseidon_calls: u64,
    pub hash_sn_keccak_us: u64,
    pub hash_sn_keccak_calls: u64,
    pub hash_cairo_keccak_us: u64,
    pub hash_cairo_keccak_calls: u64,
    pub state_read_us: u64,
    pub state_read_calls: u64,
    pub state_write_us: u64,
    pub state_write_calls: u64,
}

impl BlockifierTiming {
    /// All figures zero.
    pub open spec fn zero() -> BlockifierTiming {
        BlockifierTiming {
            hash_pedersen_us: 0,
            hash_pedersen_calls: 0,
            hash_poseidon_us: 0,
            hash_poseidon_calls: 0,
            hash_sn_keccak_us: 0,
            hash_sn_keccak_calls: 0,
            hash_cairo_keccak_us: 0,
            hash_cairo_keccak_calls: 0,
            state_read_us: 0,
            state_read_calls: 0,
            state_write_us: 0,
            state_write_calls: 0,
        }
    }
}

impl Default for BlockifierTiming {
    fn default() -> (t: BlockifierTiming)
        ensures
            t == BlockifierTiming::zero(),
            t.hash_pedersen_us == 0,
            t.hash_pedersen_calls == 0,
            t.hash_poseidon_us == 0,
            t.hash_poseidon_calls == 0,
            t.hash_sn_keccak_us == 0,
            t.hash_sn_keccak_calls == 0,
            t.hash_cairo_keccak_us == 0,
            t.hash_cairo_keccak_calls == 0,
            t.state_read_us == 0,
            t.state_read_calls == 0,
            t.state_write_us == 0,
            t.state_write_calls == 0,
    {
        BlockifierTiming {
            hash_pedersen_us: 0,
            hash_pedersen_calls: 0,
            hash_poseidon_us: 0,
            hash_poseidon_calls: 0,
            hash_sn_keccak_us: 0,
            hash_sn_keccak_calls: 0,
            hash_cairo_keccak_us: 0,
            hash_cairo_keccak_calls: 0,
            state_read_us: 0,
            state_read_calls: 0,
            state_write_us: 0,
            state_write_calls: 0,
        }
    }
}

/// The hash figures that a native Cairo executor collected over the same
/// span, where one runs.
#[derive(Clone, Copy, Debug, PartialEq, Eq, Structural)]
pub struct NativeHashTiming {
    pub pedersen_hash_us: u64,
    pub pedersen_calls: u64,
    pub poseidon_hash_us: u64,
    pub poseidon_calls: u64,
}

/// The counters of execution timing.
#[derive(Clone, Copy, Debug, PartialEq, Eq, Structural)]
pub struct TimingCounters {
    pub state_read_us: u64,
    pub state_read_calls: u64,
    pub state_write_us: u64,
    pub state_write_calls: u64,
    pub cairo_keccak_us: u64,
    pub cairo_keccak_calls: u64,
}

impl TimingCounters {
    /// All counters zero.
    pub open spec fn zero() -> TimingCounters {
        TimingCounters {
            state_read_us: 0,
            state_read_calls: 0,
            state_write_us: 0,
            state_write_calls: 0,
            cairo_keccak_us: 0,
            cairo_keccak_calls: 0,
        }
    }

    fn zeroed() -> (c: TimingCounters)
        ensures
            c == TimingCounters::zero(),
            c.state_read_us == 0,
            c.state_read_calls == 0,
            c.state_write_us == 0,
            c.state_write_calls == 0,
            c.cairo_keccak_us == 0,
            c.cairo_keccak_calls == 0,
    {
        TimingCounters {
            state_read_us: 0,
            state_read_calls: 0,
            state_write_us: 0,
            state_write_calls: 0,
            cairo_keccak_us: 0,
            cairo_keccak_calls: 0,
        }
    }
}

/// The execution timing state of a process.
#[derive(Debug)]
pub struct TimingState {
    pub enabled: bool,
    pub counters: TimingCounters,
}

impl TimingState {
    /// Timing off, all counters zero.
    pub fn new() -> (s: TimingState)
        ensures
            !s.enabled,
            s.counters == TimingCounters::zero(),
    {
        TimingState { enabled: false, counters: TimingCounters::zeroed() }
    }
}

/// The report of a stop, from the counters held at the stop, the hash
/// figures and the native executor's figures (all zero where none runs).
pub open spec fn timing_report(
    counters: TimingCounters,
    hash: HashMetrics,
    native: Option<NativeHashTiming>,
) -> BlockifierTiming {
    let n = match native {
        Some(n) => n,
        None => NativeHashTiming {
            pedersen_hash_us: 0,
            pedersen_calls: 0,
            poseidon_hash_us: 0,
            poseidon_calls: 0,
        },
    };
    BlockifierTiming {
        hash_pedersen_us: saturated_sum(n.pedersen_hash_us, hash.pedersen_us),
        hash_pedersen_calls: saturated_sum(n.pedersen_calls, hash.pedersen_calls),
        hash_poseidon_us: n.poseidon_hash_us,
        hash_poseidon_calls: n.poseidon_calls,
        hash_sn_keccak_us: hash.sn_keccak_us,
        hash_sn_keccak_calls: hash.sn_keccak_calls,
        hash_cairo_keccak_us: counters.cairo_keccak_us,
        hash_cairo_keccak_calls: counters.cairo_keccak_calls,
        state_read_us: counters.state_read_us,
        state_read_calls: counters.state_read_calls,
        state_write_us: counters.state_write_us,
        state_write_calls: counters.state_write_calls,
    }
}

/// A stop right after a start, with no native executor, reports zero
/// throughout.
pub proof fn lemma_report_of_nothing_is_zero()
    ensures
        timing_report(TimingCounters::zero(), HashMetrics::zero(), None)
            == BlockifierTiming::zero(),
{
}

/// What happens to execution timing: a start, a stop, or an operation
/// recorded with the microseconds it took.
pub enum TimingEvent {
    Start,
    Stop,
    StateRead(u128),
    StateWrite(u128),
    CairoKeccak(u128),
}

/// The kinds of operation that execution timing records.
pub enum TimingKind {
    StateRead,
    StateWrite,
    CairoKeccak,
}

/// The microseconds an event adds to the figures of `kind`: the low 64
/// bits of its duration where it records an operation of that kind, none
/// otherwise.
pub open spec fn event_us(e: TimingEvent, kind: TimingKind) -> nat {
    match (e, kind) {
        (TimingEvent::StateRead(us), TimingKind::StateRead) => low_u64(us) as nat,
        (TimingEvent::StateWrite(us), TimingKind::StateWrite) => low_u64(us) as nat,
        (TimingEvent::CairoKeccak(us), TimingKind::CairoKeccak) => low_u64(us) as nat,
        _ => 0,
    }
}

/// Whether an event records an operation of `kind`.
pub open spec fn event_is(e: TimingEvent, kind: TimingKind) -> bool {
    match (e, kind) {
        (TimingEvent::StateRead(_), TimingKind::StateRead) => true,
        (TimingEvent::StateWrite(_), TimingKind::StateWrite) => true,
        (TimingEvent::CairoKeccak(_), TimingKind::CairoKeccak) => true,
        _ => false,
    }
}

/// The microseconds of the records of `kind` among `events`, added.
pub open spec fn timing_us_total(events: Seq<TimingEvent>, kind: TimingKind) -> nat
    decreases events.len(),
{
    if events.len() == 0 {
        0
    } else {
        timing_us_total(events.drop_last(), kind) + event_us(events.last(), kind)
    }
}

/// The number of records of `kind` among `events`.
pub open spec fn timing_count(events: Seq<TimingEvent>, kind: TimingKind) -> nat
    decreases events.len(),
{
    if events.len() == 0 {
        0
    } else {
        timing_count(events.drop_last(), kind) + if event_is(events.last(), kind) {
            1nat
        } else {
            0nat
        }
    }
}

/// The execution timing state (on, counters) after one event.
pub open spec fn timing_step(on: bool, c: TimingCounters, e: TimingEvent) -> (bool, TimingCounters) {
    match e {
        TimingEvent::Start => (true, TimingCounters::zero()),
        TimingEvent::Stop => (false, TimingCounters::zero()),
        TimingEvent::StateRead(us) => if on {
            (
                on,
                TimingCounters {
                    state_read_us: wrapped_sum(c.state_read_us, low_u64(us)),
                    state_read_calls: wrapped_sum(c.state_read_calls, 1),
                    ..c
                },
            )
        } else {
            (on, c)
        },
        TimingEvent::StateWrite(us) => if on {
            (
                on,
                TimingCounters {
                    state_write_us: wrapped_sum(c.state_write_us, low_u64(us)),
                    state_write_calls: wrapped_sum(c.state_write_calls, 1),
                    ..c
                },
            )
        } else {
            (on, c)
        },
        TimingEvent::CairoKeccak(us) => if on {
            (
                on,
                TimingCounters {
                    cairo_keccak_us: wrapped_sum(c.cairo_keccak_us, low_u64(us)),
                    cairo_keccak_calls: wrapped_sum(c.cairo_keccak_calls, 1),
                    ..c
                },
            )
        } else {
            (on, c)
        },
    }
}

/// The execution timing state after a series of events, in order.
pub open spec fn timing_run(on: bool, c: TimingCounters, events: Seq<TimingEvent>) -> (
    bool,
    TimingCounters,
)
    decreases events.len(),
{
    if events.len() == 0 {
        (on, c)
    } else {
        let (on1, c1) = timing_run(on, c, events.drop_last());
        timing_step(on1, c1, events.last())
    }
}

/// Where the events are a start followed by operation records only,
/// timing is on and each counter holds the records' microseconds (low 64
/// bits of each) added, or the records counted, kept modulo 2^64.
pub proof fn lemma_timing_counts_records(on: bool, c: TimingCounters, events: Seq<TimingEvent>)
    requires
        events.len() >= 1,
        events[0] is Start,
        forall|i: int|
            1 <= i < events.len() ==> !(#[trigger] events[i] is Start) && !(events[i] is Stop),
    ensures
        timing_run(on, c, events) == (
            true,
            TimingCounters {
                state_read_us: mod_u64(timing_us_total(events, TimingKind::StateRead)),
                state_read_calls: mod_u64(timing_count(events, TimingKind::StateRead)),
                state_write_us: mod_u64(timing_us_total(events, TimingKind::StateWrite)),
                state_write_calls: mod_u64(timing_count(events, TimingKind::StateWrite)),
                cairo_keccak_us: mod_u64(timing_us_total(events, TimingKind::CairoKeccak)),
                cairo_keccak_calls: mod_u64(timing_count(events, TimingKind::CairoKeccak)),
            },
        ),
    decreases events.len(),
{
    let prev = events.drop_last();
    if events.len() == 1 {
        assert(events.last() is Start);
    } else {
        assert forall|i: int| 1 <= i < prev.len() implies !(#[trigger] prev[i] is Start) && !(
        prev[i] is Stop) by {
            assert(prev[i] == events[i]);
        }
        lemma_timing_counts_records(on, c, prev);
        let last = events.last();
        assert(last == events[events.len() - 1]);
        match last {
            TimingEvent::StateRead(us) => {
                lemma_wrapped_total_step(timing_us_total(prev, TimingKind::StateRead), low_u64(us));
                lemma_wrapped_total_step(timing_count(prev, TimingKind::StateRead), 1);
            },
            TimingEvent::StateWrite(us) => {
                lemma_wrapped_total_step(timing_us_total(prev, TimingKind::StateWrite), low_u64(us));
                lemma_wrapped_total_step(timing_count(prev, TimingKind::StateWrite), 1);
            },
            TimingEvent::CairoKeccak(us) => {
                lemma_wrapped_total_step(
                    timing_us_total(prev, TimingKind::CairoKeccak),
                    low_u64(us),
                );
                lemma_wrapped_total_step(timing_count(prev, TimingKind::CairoKeccak), 1);
            },
            _ => {},
        }
    }
}

/// What a stop of timing reports after a start and a series of records,
/// with no native executor: each figure is the records of its kind, their
/// microseconds (low 64 bits of each) added or their number, kept modulo
/// 2^64; the Poseidon figures are zero.
pub proof fn lemma_stop_timing_reports_records(
    on: bool,
    c: TimingCounters,
    events: Seq<TimingEvent>,
    hash_on: bool,
    hash_c: HashMetrics,
    hash_events: Seq<HashTimingEvent>,
)
    requires
        events.len() >= 1,
        events[0] is Start,
        forall|i: int|
            1 <= i < events.len() ==> !(#[trigger] events[i] is Start) && !(events[i] is Stop),
        hash_events.len() >= 1,
        hash_events[0] is Start,
        forall|i: int|
            1 <= i < hash_events.len() ==> (#[trigger] hash_events[i] is SnKeccak
                || hash_events[i] is Pedersen),
    ensures
        timing_report(
            timing_run(on, c, events).1,
            hash_timing_run(hash_on, hash_c, hash_events).1,
            None,
        ) == (BlockifierTiming {
            hash_pedersen_us: mod_u64(pedersen_us_total(hash_events)),
            hash_pedersen_calls: mod_u64(pedersen_count(hash_events)),
            hash_poseidon_us: 0,
            hash_poseidon_calls: 0,
            hash_sn_keccak_us: mod_u64(sn_keccak_us_total(hash_events)),
            hash_sn_keccak_calls: mod_u64(sn_keccak_count(hash_events)),
            hash_cairo_keccak_us: mod_u64(timing_us_total(events, TimingKind::CairoKeccak)),
            hash_cairo_keccak_calls: mod_u64(timing_count(events, TimingKind::CairoKeccak)),
            state_read_us: mod_u64(timing_us_total(events, TimingKind::StateRead)),
            state_read_calls: mod_u64(timing_count(events, TimingKind::StateRead)),
            state_write_us: mod_u64(timing_us_total(events, TimingKind::StateWrite)),
            state_write_calls: mod_u64(timing_count(events, TimingKind::StateWrite)),
        }),
{
    lemma_timing_counts_records(on, c, events);
    lemma_hash_timing_reports_records(hash_on, hash_c, hash_events);
}

/// What a stop of timing reports after a start and a series of records,
/// where a native executor ran and collected `n`: the Pedersen figures are
/// the native ones plus those the hash timing recorded (their microseconds
/// and their number, each kept modulo 2^64), the sum held at `u64::MAX`;
/// the Poseidon figures are the native ones; every other figure is the
/// records of its kind, kept modulo 2^64.
pub proof fn lemma_stop_timing_adds_native_figures(
    on: bool,
    c: TimingCounters,
    events: Seq<TimingEvent>,
    hash_on: bool,
    hash_c: HashMetrics,
    hash_events: Seq<HashTimingEvent>,
    n: NativeHashTiming,
)
    requires
        events.len() >= 1,
        events[0] is Start,
        forall|i: int|
            1 <= i < events.len() ==> !(#[trigger] events[i] is Start) && !(events[i] is Stop),
        hash_events.len() >= 1,
        hash_events[0] is Start,
        forall|i: int|
            1 <= i < hash_events.len() ==> (#[trigger] hash_events[i] is SnKeccak
                || hash_events[i] is Pedersen),
    ensures
        ({
            let r = timing_report(
                timing_run(on, c, events).1,
                hash_timing_run(hash_on, hash_c, hash_events).1,
                Some(n),
            );
            &&& r.hash_pedersen_us == capped(
                (n.pedersen_hash_us + mod_u64(pedersen_us_total(hash_events))) as nat,
            )
            &&& r.hash_pedersen_calls == capped(
                (n.pedersen_calls + mod_u64(pedersen_count(hash_events))) as nat,
            )
            &&& r.hash_poseidon_us == n.poseidon_hash_us
            &&& r.hash_poseidon_calls == n.poseidon_calls
            &&& r.hash_sn_keccak_us == mod_u64(sn_keccak_us_total(hash_events))
            &&& r.hash_sn_keccak_calls == mod_u64(sn_keccak_count(hash_events))
            &&& r.hash_cairo_keccak_us == mod_u64(timing_us_total(events, TimingKind::CairoKeccak))
            &&& r.hash_cairo_keccak_calls == mod_u64(
                timing_count(events, TimingKind::CairoKeccak),
            )
            &&& r.state_read_us == mod_u64(timing_us_total(events, TimingKind::StateRead))
            &&& r.state_read_calls == mod_u64(timing_count(events, TimingKind::StateRead))
            &&& r.state_write_us == mod_u64(timing_us_total(events, TimingKind::StateWrite))
            &&& r.state_write_calls == mod_u64(timing_count(events, TimingKind::StateWrite))
        }),
{
    lemma_timing_counts_records(on, c, events);
    lemma_hash_timing_reports_records(hash_on, hash_c, hash_events);
}

/// Whether execution timing is on.
pub fn timing_enabled(state: &TimingState) -> (on: bool)
    ensures
        on == state.enabled,
{
    state.enabled
}

/// Turns execution timing and hash timing on, with every counter of both
/// back at zero.
pub fn start_timing(state: &mut TimingState, hash: &mut HashTimingState)
    ensures
        (final(state).enabled, final(state).counters) == timing_step(
            old(state).enabled,
            old(state).counters,
            TimingEvent::Start,
        ),
        final(state).enabled,
        final(state).counters == TimingCounters::zero(),
        final(hash).enabled,
        final(hash).counters == HashMetrics::zero(),
{
    state.enabled = true;
    state.counters = TimingCounters::zeroed();
    start_hash_timing(hash);
}

/// Turns execution timing and hash timing off and reports what both
/// collected since the last start, leaving zero in every counter. The
/// Pedersen figures of the native executor and of the hash timing are
/// added, held at `u64::MAX`.
pub fn stop_timing(
    state: &mut TimingState,
    hash: &mut HashTimingState,
    native: Option<NativeHashTiming>,
) -> (report: BlockifierTiming)
    ensures
        report == timing_report(old(state).counters, old(hash).counters, native),
        match native {
            Some(n) => {
                &&& report.hash_pedersen_us == capped(
                    (n.pedersen_hash_us + old(hash).counters.pedersen_us) as nat,
                )
                &&& report.hash_pedersen_calls == capped(
                    (n.pedersen_calls + old(hash).counters.pedersen_calls) as nat,
                )
                &&& report.hash_poseidon_us == n.poseidon_hash_us
                &&& report.hash_poseidon_calls == n.poseidon_calls
            },
            None => {
                &&& report.hash_pedersen_us == old(hash).counters.pedersen_us
                &&& report.hash_pedersen_calls == old(hash).counters.pedersen_calls
                &&& report.hash_poseidon_us == 0
                &&& report.hash_poseidon_calls == 0
            },
        },
        report.hash_sn_keccak_us == old(hash).counters.sn_keccak_us,
        report.hash_sn_keccak_calls == old(hash).counters.sn_keccak_calls,
        report.hash_cairo_keccak_us == old(state).counters.cairo_keccak_us,
        report.hash_cairo_keccak_calls == old(state).counters.cairo_keccak_calls,
        report.state_read_us == old(state).counters.state_read_us,
        report.state_read_calls == old(state).counters.state_read_calls,
        report.state_write_us == old(state).counters.state_write_us,
        report.state_write_calls == old(state).counters.state_write_calls,
        (final(state).enabled, final(state).counters) == timing_step(
            old(state).enabled,
            old(state).counters,
            TimingEvent::Stop,
        ),
        !final(state).enabled,
        final(state).counters == TimingCounters::zero(),
        !final(hash).enabled,
        final(hash).counters == HashMetrics::zero(),
{
    let counters = state.counters;
    state.counters = TimingCounters::zeroed();
    let (pedersen_us, pedersen_calls, poseidon_us, poseidon_calls) = match native {
        Some(n) => (n.pedersen_hash_us, n.pedersen_calls, n.poseidon_hash_us, n.poseidon_calls),
        None => (0u64, 0u64, 0u64, 0u64),
    };
    let sn = stop_hash_timing(hash);
    state.enabled = false;
    BlockifierTiming {
        hash_pedersen_us: pedersen_us.saturating_add(sn.pedersen_us),
        hash_pedersen_calls: pedersen_calls.saturating_add(sn.pedersen_calls),
        hash_poseidon_us: poseidon_us,
        hash_poseidon_calls: poseidon_calls,
        hash_sn_keccak_us: sn.sn_keccak_us,
        hash_sn_keccak_calls: sn.sn_keccak_calls,
        hash_cairo_keccak_us: counters.cairo_keccak_us,
        hash_cairo_keccak_calls: counters.cairo_keccak_calls,
        state_read_us: counters.state_read_us,
        state_read_calls: counters.state_read_calls,
        state_write_us: counters.state_write_us,
        state_write_calls: counters.state_write_calls,
    }
}

/// Counts one state read that took `us` microseconds; nothing happens
/// while timing is off. The low 64 bits of `us` are added, and the
/// counters wrap around at 2^64.
pub fn record_state_read(state: &mut TimingState, us: u128)
    ensures
        (final(state).enabled, final(state).counters) == timing_step(
            old(state).enabled,
            old(state).counters,
            TimingEvent::StateRead(us),
        ),
        final(state).enabled == old(state).enabled,
        old(state).enabled ==> final(state).counters == (TimingCounters {
            state_read_us: wrapped_sum(old(state).counters.state_read_us, low_u64(us)),
            state_read_calls: wrapped_sum(old(state).counters.state_read_calls, 1),
            ..old(state).counters
        }),
        !old(state).enabled ==> final(state).counters == old(state).counters,
{
    if !state.enabled {
        return ;
    }
    let low = truncate_to_u64(us);
    state.counters.state_read_us = state.counters.state_read_us.wrapping_add(low);
    state.counters.state_read_calls = state.counters.state_read_calls.wrapping_add(1);
}

/// Counts one state write that took `us` microseconds; nothing happens
/// while timing is off. The low 64 bits of `us` are added, and the
/// counters wrap around at 2^64.
pub fn record_state_write(state: &mut TimingState, us: u128)
    ensures
        (final(state).enabled, final(state).counters) == timing_step(
            old(state).enabled,
            old(state).counters,
            TimingEvent::StateWrite(us),
        ),
        final(state).enabled == old(state).enabled,
        old(state).enabled ==> final(state).counters == (TimingCounters {
            state_write_us: wrapped_sum(old(state).counters.state_write_us, low_u64(us)),
            state_write_calls: wrapped_sum(old(state).counters.state_write_calls, 1),
            ..old(state).counters
        }),
        !old(state).enabled ==> final(state).counters == old(state).counters,
{
    if !state.enabled {
        return ;
    }
    let low = truncate_to_u64(us);
    state.counters.state_write_us = state.counters.state_write_us.wrapping_add(low);
    state.counters.state_write_calls = state.counters.state_write_calls.wrapping_add(1);
}

/// Counts one Cairo Keccak syscall that took `us` microseconds; nothing
/// happens while timing is off. The low 64 bits of `us` are added, and
/// the counters wrap around at 2^64.
pub fn record_cairo_keccak(state: &mut TimingState, us: u128)
    ensures
        (final(state).enabled, final(state).counters) == timing_step(
            old(state).enabled,
            old(state).counters,
            TimingEvent::CairoKeccak(us),
        ),
        final(state).enabled == old(state).enabled,
        old(state).enabled ==> final(state).counters == (TimingCounters {
            cairo_keccak_us: wrapped_sum(old(state).counters.cairo_keccak_us, low_u64(us)),
            cairo_keccak_calls: wrapped_sum(old(state).counters.cairo_keccak_calls, 1),
            ..old(state).counters
        }),
        !old(state).enabled ==> final(state).counters == old(state).counters,
{
    if !state.enabled {
        return ;
    }
    let low = truncate_to_u64(us);
    state.counters.cairo_keccak_us = state.counters.cairo_keccak_us.wrapping_add(low);
    state.counters.cairo_keccak_calls = state.counters.cairo_keccak_calls.wrapping_add(1);
}

/// Whether timing figures are to be written to the log: never.
pub fn timing_logs_enabled() -> (on: bool)
    ensures
        !on,
{
    false
}

} // verus!
