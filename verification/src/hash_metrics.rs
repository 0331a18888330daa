//! Timing counters for the hashes computed during execution: how many
//! Starknet-Keccak and Pedersen hashes were asked for, and how many
//! microseconds they took, between a start and a stop.

use vstd::prelude::*;

use crate::counters::{lemma_wrapped_total_step, u64_modulus, wrapped_sum};

verus! {

/// The figures collected between a start and a stop of hash timing.
#[derive(Clone, Copy, Debug, PartialEq, Eq, Structural)]
pub struct HashMetrics {
    pub sn_keccak_us: u64,
    pub sn_keccak_calls: u64,
    pub pedersen_us: u64,
    pub pedersen_calls: u64,
}

impl HashMetrics {
    /// All figures zero.
    pub open spec fn zero() -> HashMetrics {
        HashMetrics { sn_keccak_us: 0, sn_keccak_calls: 0, pedersen_us: 0, pedersen_calls: 0 }
    }
}

impl Default for HashMetrics {
    fn default() -> (m: HashMetrics)
        ensures
            m == HashMetrics::zero(),
            m.sn_keccak_us == 0,
            m.sn_keccak_calls == 0,
            m.pedersen_us == 0,
            m.pedersen_calls == 0,
    {
        HashMetrics { sn_keccak_us: 0, sn_keccak_calls: 0, pedersen_us: 0, pedersen_calls: 0 }
    }
}

/// The hash timing state of a process: whether timing is on, and the
/// figures collected since it was last started.
#[derive(Debug)]
pub struct HashTimingState {
    pub enabled: bool,
    pub counters: HashMetrics,
}

impl HashTimingState {
    /// Timing off, all figures zero: the state of a process that has not
    /// started hash timing.
    pub fn new() -> (s: HashTimingState)
        ensures
            !s.enabled,
            s.counters == HashMetrics::zero(),
    {
        HashTimingState { enabled: false, counters: HashMetrics::default() }
    }
}

/// What happens to hash timing: a start, a stop, or a hash recorded with
/// the microseconds it took.
pub enum HashTimingEvent {
    Start,
    Stop,
    SnKeccak(u64),
    Pedersen(u64),
}

/// The hash timing state (on, figures) after one event.
pub open spec fn hash_timing_step(on: bool, c: HashMetrics, e: HashTimingEvent) -> (
    bool,
    HashMetrics,
) {
    match e {
        HashTimingEvent::Start => (true, HashMetrics::zero()),
        HashTimingEvent::Stop => (false, HashMetrics::zero()),
        HashTimingEvent::SnKeccak(us) => if on {
            (
                on,
                HashMetrics {
                    sn_keccak_us: wrapped_sum(c.sn_keccak_us, us),
                    sn_keccak_calls: wrapped_sum(c.sn_keccak_calls, 1),
                    ..c
                },
            )
        } else {
            (on, c)
        },
        HashTimingEvent::Pedersen(us) => if on {
            (
                on,
                HashMetrics {
                    pedersen_us: wrapped_sum(c.pedersen_us, us),
                    pedersen_calls: wrapped_sum(c.pedersen_calls, 1),
                    ..c
                },
            )
        } else {
            (on, c)
        },
    }
}

/// The hash timing state after a series of events, in order.
pub open spec fn hash_timing_run(on: bool, c: HashMetrics, events: Seq<HashTimingEvent>) -> (
    bool,
    HashMetrics,
)
    decreases events.len(),
{
    if events.len() == 0 {
        (on, c)
    } else {
        let (on1, c1) = hash_timing_run(on, c, events.drop_last());
        hash_timing_step(on1, c1, events.last())
    }
}

/// The microseconds of the Starknet-Keccak records among `events`, added.
pub open spec fn sn_keccak_us_total(events: Seq<HashTimingEvent>) -> nat
    decreases events.len(),
{
    if events.len() == 0 {
        0
    } else {
        sn_keccak_us_total(events.drop_last()) + match events.last() {
            HashTimingEvent::SnKeccak(us) => us as nat,
            _ => 0,
        }
    }
}

/// The number of Starknet-Keccak records among `events`.
pub open spec fn sn_keccak_count(events: Seq<HashTimingEvent>) -> nat
    decreases events.len(),
{
    if events.len() == 0 {
        0
    } else {
        sn_keccak_count(events.drop_last()) + if events.last() is SnKeccak {
            1nat
        } else {
            0nat
        }
    }
}

/// The microseconds of the Pedersen records among `events`, added.
pub open spec fn pedersen_us_total(events: Seq<HashTimingEvent>) -> nat
    decreases events.len(),
{
    if events.len() == 0 {
        0
    } else {
        pedersen_us_total(events.drop_last()) + match events.last() {
            HashTimingEvent::Pedersen(us) => us as nat,
            _ => 0,
        }
    }
}

/// The number of Pedersen records among `events`.
pub open spec fn pedersen_count(events: Seq<HashTimingEvent>) -> nat
    decreases events.len(),
{
    if events.len() == 0 {
        0
    } else {
        pedersen_count(events.drop_last()) + if events.last() is Pedersen {
            1nat
        } else {
            0nat
        }
    }
}

/// A number kept modulo 2^64, as the wrapping counters keep it.
pub open spec fn mod_u64(n: nat) -> u64 {
    (n as int % u64_modulus()) as u64
}

/// A stop reports what was recorded since the last start: where the
/// events are a start followed by hash records only, timing is on and
/// its figures are the records' microseconds added and the records
/// counted, each kept modulo 2^64.
pub proof fn lemma_hash_timing_reports_records(
    on: bool,
    c: HashMetrics,
    events: Seq<HashTimingEvent>,
)
    requires
        events.len() >= 1,
        events[0] is Start,
        forall|i: int| 1 <= i < events.len() ==> (#[trigger] events[i] is SnKeccak || events[i] is Pedersen),
    ensures
        hash_timing_run(on, c, events) == (
            true,
            HashMetrics {
                sn_keccak_us: mod_u64(sn_keccak_us_total(events)),
                sn_keccak_calls: mod_u64(sn_keccak_count(events)),
                pedersen_us: mod_u64(pedersen_us_total(events)),
                pedersen_calls: mod_u64(pedersen_count(events)),
            },
        ),
    decreases events.len(),
{
    let prev = events.drop_last();
    if events.len() == 1 {
        assert(prev.len() == 0);
        assert(events.last() is Start);
    } else {
        assert forall|i: int| 1 <= i < prev.len() implies (#[trigger] prev[i] is SnKeccak
            || prev[i] is Pedersen) by {
            assert(prev[i] == events[i]);
        }
        lemma_hash_timing_reports_records(on, c, prev);
        let last = events.last();
        assert(last == events[events.len() - 1]);
        lemma_wrapped_total_step(sn_keccak_us_total(prev), 0);
        lemma_wrapped_total_step(pedersen_us_total(prev), 0);
        match last {
            HashTimingEvent::SnKeccak(us) => {
                lemma_wrapped_total_step(sn_keccak_us_total(prev), us);
                lemma_wrapped_total_step(sn_keccak_count(prev), 1);
            },
            HashTimingEvent::Pedersen(us) => {
                lemma_wrapped_total_step(pedersen_us_total(prev), us);
                lemma_wrapped_total_step(pedersen_count(prev), 1);
            },
            _ => {},
        }
    }
}

/// Hash timing is on after a series of events exactly where a start came
/// after every stop in it, or, where there was no stop, timing was on
/// before or a start came.
pub proof fn lemma_hash_timing_on_after(on: bool, c: HashMetrics, events: Seq<HashTimingEvent>)
    ensures
        hash_timing_run(on, c, events).0 <==> (exists|i: int|
            0 <= i < events.len() && #[trigger] events[i] is Start && forall|j: int|
                i < j < events.len() ==> !(#[trigger] events[j] is Stop)) || (on && forall|j: int|
            0 <= j < events.len() ==> !(#[trigger] events[j] is Stop)),
    decreases events.len(),
{
    if events.len() > 0 {
        let prev = events.drop_last();
        lemma_hash_timing_on_after(on, c, prev);
        let n = events.len() - 1;
        let last = events[n];
        assert(events.last() == last);
        assert forall|j: int| 0 <= j < prev.len() implies prev[j] == events[j] by {}
        if last is Start {
            assert(events[n] is Start);
        } else if last is Stop {
            assert forall|i: int| 0 <= i < events.len() && #[trigger] events[i] is Start implies !(
            forall|j: int| i < j < events.len() ==> !(#[trigger] events[j] is Stop)) by {
                assert(i < n);
                assert(events[n] is Stop);
            }
            assert(events[n] is Stop);
        } else {
            if exists|i: int|
                0 <= i < prev.len() && #[trigger] prev[i] is Start && forall|j: int|
                    i < j < prev.len() ==> !(#[trigger] prev[j] is Stop) {
                let i = choose|i: int|
                    0 <= i < prev.len() && #[trigger] prev[i] is Start && forall|j: int|
                        i < j < prev.len() ==> !(#[trigger] prev[j] is Stop);
                assert(events[i] is Start);
                assert forall|j: int| i < j < events.len() implies !(#[trigger] events[j] is Stop) by {
                    if j < n {
                        assert(prev[j] == events[j]);
                    }
                }
            }
            if exists|i: int|
                0 <= i < events.len() && #[trigger] events[i] is Start && forall|j: int|
                    i < j < events.len() ==> !(#[trigger] events[j] is Stop) {
                let i = choose|i: int|
                    0 <= i < events.len() && #[trigger] events[i] is Start && forall|j: int|
                        i < j < events.len() ==> !(#[trigger] events[j] is Stop);
                assert(i < n);
                assert(prev[i] is Start);
                assert forall|j: int| i < j < prev.len() implies !(#[trigger] prev[j] is Stop) by {
                    assert(prev[j] == events[j]);
                }
            }
            if on && forall|j: int| 0 <= j < prev.len() ==> !(#[trigger] prev[j] is Stop) {
                assert forall|j: int| 0 <= j < events.len() implies !(#[trigger] events[j] is Stop) by {
                    if j < n {
                        assert(prev[j] == events[j]);
                    }
                }
            }
            if on && forall|j: int| 0 <= j < events.len() ==> !(#[trigger] events[j] is Stop) {
                assert forall|j: int| 0 <= j < prev.len() implies !(#[trigger] prev[j] is Stop) by {
                    assert(prev[j] == events[j]);
                }
            }
        }
    }
}

/// Turns hash timing on, with every figure back at zero.
pub fn start_hash_timing(state: &mut HashTimingState)
    ensures
        (final(state).enabled, final(state).counters) == hash_timing_step(
            old(state).enabled,
            old(state).counters,
            HashTimingEvent::Start,
        ),
        final(state).enabled,
        final(state).counters == HashMetrics::zero(),
{
    state.enabled = true;
    state.counters = HashMetrics::default();
}

/// Turns hash timing off and hands back the figures collected since the
/// last start, leaving zero in their place.
pub fn stop_hash_timing(state: &mut HashTimingState) -> (metrics: HashMetrics)
    ensures
        (final(state).enabled, final(state).counters) == hash_timing_step(
            old(state).enabled,
            old(state).counters,
            HashTimingEvent::Stop,
        ),
        metrics == old(state).counters,
        !final(state).enabled,
        final(state).counters == HashMetrics::zero(),
{
    let metrics = state.counters;
    state.counters = HashMetrics::default();
    state.enabled = false;
    metrics
}

/// Whether hash timing is on.
pub fn hash_timing_enabled(state: &HashTimingState) -> (on: bool)
    ensures
        on == state.enabled,
{
    state.enabled
}

/// Counts one Starknet-Keccak hash that took `us` microseconds; nothing
/// happens while timing is off. The counters wrap around at 2^64.
pub fn record_sn_keccak(state: &mut HashTimingState, us: u64)
    ensures
        (final(state).enabled, final(state).counters) == hash_timing_step(
            old(state).enabled,
            old(state).counters,
            HashTimingEvent::SnKeccak(us),
        ),
        final(state).enabled == old(state).enabled,
        old(state).enabled ==> final(state).counters == (HashMetrics {
            sn_keccak_us: wrapped_sum(old(state).counters.sn_keccak_us, us),
            sn_keccak_calls: wrapped_sum(old(state).counters.sn_keccak_calls, 1),
            ..old(state).counters
        }),
        !old(state).enabled ==> final(state).counters == old(state).counters,
{
    if !state.enabled {
        return ;
    }
    state.counters.sn_keccak_us = state.counters.sn_keccak_us.wrapping_add(us);
    state.counters.sn_keccak_calls = state.counters.sn_keccak_calls.wrapping_add(1);
}

/// Counts one Pedersen hash that took `us` microseconds; nothing happens
/// while timing is off. The counters wrap around at 2^64.
pub fn record_pedersen(state: &mut HashTimingState, us: u64)
    ensures
        (final(state).enabled, final(state).counters) == hash_timing_step(
            old(state).enabled,
            old(state).counters,
            HashTimingEvent::Pedersen(us),
        ),
        final(state).enabled == old(state).enabled,
        old(state).enabled ==> final(state).counters == (HashMetrics {
            pedersen_us: wrapped_sum(old(state).counters.pedersen_us, us),
            pedersen_calls: wrapped_sum(old(state).counters.pedersen_calls, 1),
            ..old(state).counters
        }),
        !old(state).enabled ==> final(state).counters == old(state).counters,
{
    if !state.enabled {
        return ;
    }
    state.counters.pedersen_us = state.counters.pedersen_us.wrapping_add(us);
    state.counters.pedersen_calls = state.counters.pedersen_calls.wrapping_add(1);
}

} // verus!
