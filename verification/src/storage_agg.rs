//! Per-transaction aggregation of storage accesses: how many reads and
//! writes went through each storage layer, how many of them hit a cache,
//! how many distinct cells they touched, and how long they took.

use vstd::prelude::*;

use crate::core_types::{ContractAddress, StorageKey};
use crate::counters::{capped, lemma_capped_step, saturated_sum};
use vstd::string::StringSliceAdditionalSpecFns;

verus! {

/// A storage cell: a contract and a key in its storage.
pub type StorageCell = (ContractAddress, StorageKey);

/// Whether two cells are the same cell.
pub fn same_cell(a: &StorageCell, b: &StorageCell) -> (same: bool)
    ensures
        same == (*a == *b),
{
    let x = &a.0.0.0.bytes;
    let y = &b.0.0.0.bytes;
    let u = &a.1.0.0.bytes;
    let v = &b.1.0.0.bytes;
    let mut i: usize = 0;
    while i < 32
        invariant
            i <= 32,
            *x == a.0.0.0.bytes,
            *y == b.0.0.0.bytes,
            *u == a.1.0.0.bytes,
            *v == b.1.0.0.bytes,
            forall|j: int| 0 <= j < i ==> x[j] == y[j] && u[j] == v[j],
        decreases 32 - i,
    {
        let (xi, yi, ui, vi) = (x[i], y[i], u[i], v[i]);
        if xi != yi || ui != vi {
            assert(xi != yi ==> x@[i as int] != y@[i as int]);
            return false;
        }
        i = i + 1;
    }
    assert(*x =~= *y);
    assert(*u =~= *v);
    true
}

/// A set of storage cells, each held once.
#[derive(Debug)]
pub struct CellSet {
    pub cells: Vec<StorageCell>,
}

impl View for CellSet {
    type V = Set<StorageCell>;

    open spec fn view(&self) -> Set<StorageCell> {
        self.cells@.to_set()
    }
}

impl CellSet {
    /// No cell is held twice.
    pub open spec fn wf(&self) -> bool {
        self.cells@.no_duplicates()
    }

    /// The empty set.
    pub fn new() -> (s: CellSet)
        ensures
            s.wf(),
            s@ == Set::<StorageCell>::empty(),
    {
        let s = CellSet { cells: Vec::new() };
        assert(s@ =~= Set::<StorageCell>::empty());
        s
    }

    /// The number of cells in the set.
    pub fn len(&self) -> (n: usize)
        requires
            self.wf(),
        ensures
            n == self@.len(),
    {
        proof {
            self.cells@.unique_seq_to_set();
        }
        self.cells.len()
    }

    /// Whether `cell` is in the set.
    pub fn contains(&self, cell: &StorageCell) -> (found: bool)
        ensures
            found == self@.contains(*cell),
    {
        let mut i: usize = 0;
        while i < self.cells.len()
            invariant
                i <= self.cells@.len(),
                forall|j: int| 0 <= j < i ==> self.cells@[j] != *cell,
            decreases self.cells@.len() - i,
        {
            if same_cell(&self.cells[i], cell) {
                assert(self.cells@.contains(*cell));
                return true;
            }
            i = i + 1;
        }
        assert(!self.cells@.contains(*cell));
        false
    }

    /// Adds `cell` to the set; nothing changes if it is already there.
    pub fn insert(&mut self, cell: StorageCell)
        requires
            old(self).wf(),
        ensures
            final(self).wf(),
            final(self)@ == old(self)@.insert(cell),
            final(self)@.len() == old(self)@.len() + if old(self)@.contains(cell) {
                0int
            } else {
                1int
            },
            final(self)@.len() <= usize::MAX,
    {
        proof {
            self.cells@.unique_seq_to_set();
        }
        if !self.contains(&cell) {
            let ghost before = self.cells@;
            self.cells.push(cell);
            proof {
                before.lemma_push_to_set_commute(cell);
                assert(self.cells@.no_duplicates()) by {
                    assert(self.cells@ == before.push(cell));
                    assert forall|a: int, b: int|
                        0 <= a < self.cells@.len() && 0 <= b < self.cells@.len() && a != b implies
                        self.cells@[a] != self.cells@[b] by {
                        if a == before.len() as int {
                            assert(before.contains(self.cells@[b]) || b == a);
                        } else if b == before.len() as int {
                            assert(before.contains(self.cells@[a]));
                        }
                    }
                }
            }
        } else {
            assert(self@.insert(cell) =~= self@);
        }
        proof {
            self.cells@.unique_seq_to_set();
            assert(self.cells@.len() == self.cells.len());
            vstd::seq_lib::seq_to_set_is_finite(old(self).cells@);
        }
    }
}

/// The figures that a snapshot of the aggregation reports.
#[derive(Clone, Copy, Debug, PartialEq, Eq, Structural)]
pub struct StorageAggSnapshot {
    pub cached_state_reads_total: u64,
    pub cached_state_cache_hits: u64,
    pub cached_state_cache_misses: u64,
    pub cached_state_unique_reads: u64,
    pub cached_state_writes_total: u64,
    pub cached_state_unique_writes: u64,
    pub cached_state_read_us: u64,
    pub cached_state_write_us: u64,
    pub layered_reads_total: u64,
    pub layered_cache_hits: u64,
    pub layered_cache_misses: u64,
    pub layered_unique_reads: u64,
    pub layered_read_us: u64,
    pub backend_reads_total: u64,
    pub backend_unique_reads: u64,
    pub backend_read_us: u64,
}

impl StorageAggSnapshot {
    /// All figures zero.
    pub open spec fn zero() -> StorageAggSnapshot {
        StorageAggSnapshot {
            cached_state_reads_total: 0,
            cached_state_cache_hits: 0,
            cached_state_cache_misses: 0,
            cached_state_unique_reads: 0,
            cached_state_writes_total: 0,
            cached_state_unique_writes: 0,
            cached_state_read_us: 0,
            cached_state_write_us: 0,
            layered_reads_total: 0,
            layered_cache_hits: 0,
            layered_cache_misses: 0,
            layered_unique_reads: 0,
            layered_read_us: 0,
            backend_reads_total: 0,
            backend_unique_reads: 0,
            backend_read_us: 0,
        }
    }
}

impl Default for StorageAggSnapshot {
    fn default() -> (s: StorageAggSnapshot)
        ensures
            s == StorageAggSnapshot::zero(),
            s.cached_state_reads_total == 0,
            s.cached_state_cache_hits == 0,
            s.cached_state_cache_misses == 0,
            s.cached_state_unique_reads == 0,
            s.cached_state_writes_total == 0,
            s.cached_state_unique_writes == 0,
            s.cached_state_read_us == 0,
            s.cached_state_write_us == 0,
            s.layered_reads_total == 0,
            s.layered_cache_hits == 0,
            s.layered_cache_misses == 0,
            s.layered_unique_reads == 0,
            s.layered_read_us == 0,
            s.backend_reads_total == 0,
            s.backend_unique_reads == 0,
            s.backend_read_us == 0,
    {
        StorageAggSnapshot {
            cached_state_reads_total: 0,
            cached_state_cache_hits: 0,
            cached_state_cache_misses: 0,
            cached_state_unique_reads: 0,
            cached_state_writes_total: 0,
            cached_state_unique_writes: 0,
            cached_state_read_us: 0,
            cached_state_write_us: 0,
            layered_reads_total: 0,
            layered_cache_hits: 0,
            layered_cache_misses: 0,
            layered_unique_reads: 0,
            layered_read_us: 0,
            backend_reads_total: 0,
            backend_unique_reads: 0,
            backend_read_us: 0,
        }
    }
}

/// The running figures of one transaction.
#[derive(Debug)]
pub struct StorageAggStats {
    pub cached_state_reads_total: u64,
    pub cached_state_cache_hits: u64,
    pub cached_state_cache_misses: u64,
    pub cached_state_read_keys: CellSet,
    pub cached_state_writes_total: u64,
    pub cached_state_write_keys: CellSet,
    pub cached_state_read_us: u64,
    pub cached_state_write_us: u64,
    pub layered_reads_total: u64,
    pub layered_cache_hits: u64,
    pub layered_cache_misses: u64,
    pub layered_read_keys: CellSet,
    pub layered_read_us: u64,
    pub backend_reads_total: u64,
    pub backend_read_keys: CellSet,
    pub backend_read_us: u64,
}

/// A count of operations that agrees with its hits and misses: it is
/// their sum, held at `u64::MAX`.
pub open spec fn hits_and_misses_add_up(total: u64, hits: u64, misses: u64) -> bool {
    total == saturated_sum(hits, misses)
}

/// A count of operations that agrees with the distinct cells they
/// touched: no more cells than operations, unless the count is held at
/// `u64::MAX`.
pub open spec fn distinct_cells_within(total: u64, cells: Set<StorageCell>) -> bool {
    cells.len() <= total || total == u64::MAX
}

impl StorageAggStats {
    /// The sets hold each cell once, and every count agrees with the
    /// hits, misses and cells recorded beside it.
    pub open spec fn wf(&self) -> bool {
        &&& self.cached_state_read_keys.wf()
        &&& self.cached_state_write_keys.wf()
        &&& self.layered_read_keys.wf()
        &&& self.backend_read_keys.wf()
        &&& hits_and_misses_add_up(
            self.cached_state_reads_total,
            self.cached_state_cache_hits,
            self.cached_state_cache_misses,
        )
        &&& hits_and_misses_add_up(
            self.layered_reads_total,
            self.layered_cache_hits,
            self.layered_cache_misses,
        )
        &&& distinct_cells_within(self.cached_state_reads_total, self.cached_state_read_keys@)
        &&& distinct_cells_within(self.cached_state_writes_total, self.cached_state_write_keys@)
        &&& distinct_cells_within(self.layered_reads_total, self.layered_read_keys@)
        &&& distinct_cells_within(self.backend_reads_total, self.backend_read_keys@)
        &&& self.cached_state_read_keys@.len() <= usize::MAX
        &&& self.cached_state_write_keys@.len() <= usize::MAX
        &&& self.layered_read_keys@.len() <= usize::MAX
        &&& self.backend_read_keys@.len() <= usize::MAX
    }

    /// No figure recorded yet.
    pub open spec fn is_empty(&self) -> bool {
        &&& self.cached_state_reads_total == 0
        &&& self.cached_state_cache_hits == 0
        &&& self.cached_state_cache_misses == 0
        &&& self.cached_state_read_keys@ == Set::<StorageCell>::empty()
        &&& self.cached_state_writes_total == 0
        &&& self.cached_state_write_keys@ == Set::<StorageCell>::empty()
        &&& self.cached_state_read_us == 0
        &&& self.cached_state_write_us == 0
        &&& self.layered_reads_total == 0
        &&& self.layered_cache_hits == 0
        &&& self.layered_cache_misses == 0
        &&& self.layered_read_keys@ == Set::<StorageCell>::empty()
        &&& self.layered_read_us == 0
        &&& self.backend_reads_total == 0
        &&& self.backend_read_keys@ == Set::<StorageCell>::empty()
        &&& self.backend_read_us == 0
    }

    /// What a snapshot of these figures reports.
    pub open spec fn snapshot_spec(&self) -> StorageAggSnapshot {
        StorageAggSnapshot {
            cached_state_reads_total: self.cached_state_reads_total,
            cached_state_cache_hits: self.cached_state_cache_hits,
            cached_state_cache_misses: self.cached_state_cache_misses,
            cached_state_unique_reads: self.cached_state_read_keys@.len() as u64,
            cached_state_writes_total: self.cached_state_writes_total,
            cached_state_unique_writes: self.cached_state_write_keys@.len() as u64,
            cached_state_read_us: self.cached_state_read_us,
            cached_state_write_us: self.cached_state_write_us,
            layered_reads_total: self.layered_reads_total,
            layered_cache_hits: self.layered_cache_hits,
            layered_cache_misses: self.layered_cache_misses,
            layered_unique_reads: self.layered_read_keys@.len() as u64,
            layered_read_us: self.layered_read_us,
            backend_reads_total: self.backend_reads_total,
            backend_unique_reads: self.backend_read_keys@.len() as u64,
            backend_read_us: self.backend_read_us,
        }
    }

    /// These figures as values: the sets of cells each access set holds.
    pub open spec fn figures(&self) -> StorageFigures {
        StorageFigures {
            cached_state_reads_total: self.cached_state_reads_total,
            cached_state_cache_hits: self.cached_state_cache_hits,
            cached_state_cache_misses: self.cached_state_cache_misses,
            cached_state_read_keys: self.cached_state_read_keys@,
            cached_state_writes_total: self.cached_state_writes_total,
            cached_state_write_keys: self.cached_state_write_keys@,
            cached_state_read_us: self.cached_state_read_us,
            cached_state_write_us: self.cached_state_write_us,
            layered_reads_total: self.layered_reads_total,
            layered_cache_hits: self.layered_cache_hits,
            layered_cache_misses: self.layered_cache_misses,
            layered_read_keys: self.layered_read_keys@,
            layered_read_us: self.layered_read_us,
            backend_reads_total: self.backend_reads_total,
            backend_read_keys: self.backend_read_keys@,
            backend_read_us: self.backend_read_us,
        }
    }

    /// Fresh figures: nothing recorded.
    pub fn new() -> (s: StorageAggStats)
        ensures
            s.wf(),
            s.is_empty(),
            s.figures() == StorageFigures::empty(),
    {
        StorageAggStats {
            cached_state_reads_total: 0,
            cached_state_cache_hits: 0,
            cached_state_cache_misses: 0,
            cached_state_read_keys: CellSet::new(),
            cached_state_writes_total: 0,
            cached_state_write_keys: CellSet::new(),
            cached_state_read_us: 0,
            cached_state_write_us: 0,
            layered_reads_total: 0,
            layered_cache_hits: 0,
            layered_cache_misses: 0,
            layered_read_keys: CellSet::new(),
            layered_read_us: 0,
            backend_reads_total: 0,
            backend_read_keys: CellSet::new(),
            backend_read_us: 0,
        }
    }
}

/// A snapshot of figures with nothing recorded reports zero throughout,
/// as one right after a reset does.
pub proof fn lemma_snapshot_of_nothing_is_zero(stats: StorageAggStats)
    requires
        stats.is_empty(),
    ensures
        stats.snapshot_spec() == StorageAggSnapshot::zero(),
{
    assert(Set::<StorageCell>::empty().len() == 0);
}

/// The figures of a transaction as values: the counts and times, and the
/// sets of cells touched.
pub struct StorageFigures {
    pub cached_state_reads_total: u64,
    pub cached_state_cache_hits: u64,
    pub cached_state_cache_misses: u64,
    pub cached_state_read_keys: Set<StorageCell>,
    pub cached_state_writes_total: u64,
    pub cached_state_write_keys: Set<StorageCell>,
    pub cached_state_read_us: u64,
    pub cached_state_write_us: u64,
    pub layered_reads_total: u64,
    pub layered_cache_hits: u64,
    pub layered_cache_misses: u64,
    pub layered_read_keys: Set<StorageCell>,
    pub layered_read_us: u64,
    pub backend_reads_total: u64,
    pub backend_read_keys: Set<StorageCell>,
    pub backend_read_us: u64,
}

impl StorageFigures {
    /// Nothing recorded.
    pub open spec fn empty() -> StorageFigures {
        StorageFigures {
            cached_state_reads_total: 0,
            cached_state_cache_hits: 0,
            cached_state_cache_misses: 0,
            cached_state_read_keys: Set::empty(),
            cached_state_writes_total: 0,
            cached_state_write_keys: Set::empty(),
            cached_state_read_us: 0,
            cached_state_write_us: 0,
            layered_reads_total: 0,
            layered_cache_hits: 0,
            layered_cache_misses: 0,
            layered_read_keys: Set::empty(),
            layered_read_us: 0,
            backend_reads_total: 0,
            backend_read_keys: Set::empty(),
            backend_read_us: 0,
        }
    }

    /// What a snapshot of these figures reports.
    pub open spec fn snapshot(self) -> StorageAggSnapshot {
        StorageAggSnapshot {
            cached_state_reads_total: self.cached_state_reads_total,
            cached_state_cache_hits: self.cached_state_cache_hits,
            cached_state_cache_misses: self.cached_state_cache_misses,
            cached_state_unique_reads: self.cached_state_read_keys.len() as u64,
            cached_state_writes_total: self.cached_state_writes_total,
            cached_state_unique_writes: self.cached_state_write_keys.len() as u64,
            cached_state_read_us: self.cached_state_read_us,
            cached_state_write_us: self.cached_state_write_us,
            layered_reads_total: self.layered_reads_total,
            layered_cache_hits: self.layered_cache_hits,
            layered_cache_misses: self.layered_cache_misses,
            layered_unique_reads: self.layered_read_keys.len() as u64,
            layered_read_us: self.layered_read_us,
            backend_reads_total: self.backend_reads_total,
            backend_unique_reads: self.backend_read_keys.len() as u64,
            backend_read_us: self.backend_read_us,
        }
    }
}

/// A storage access recorded: the cell, whether a cache was hit where the
/// layer has one, and the microseconds it took.
pub enum StorageEvent {
    CachedStateRead(StorageCell, bool, u64),
    CachedStateWrite(StorageCell, u64),
    LayeredRead(StorageCell, bool, u64),
    BackendRead(StorageCell, u64),
}

/// The figures after one more recorded access.
pub open spec fn storage_step(f: StorageFigures, e: StorageEvent) -> StorageFigures {
    match e {
        StorageEvent::CachedStateRead(cell, hit, us) => StorageFigures {
            cached_state_reads_total: saturated_sum(f.cached_state_reads_total, 1),
            cached_state_cache_hits: if hit {
                saturated_sum(f.cached_state_cache_hits, 1)
            } else {
                f.cached_state_cache_hits
            },
            cached_state_cache_misses: if hit {
                f.cached_state_cache_misses
            } else {
                saturated_sum(f.cached_state_cache_misses, 1)
            },
            cached_state_read_us: saturated_sum(f.cached_state_read_us, us),
            cached_state_read_keys: f.cached_state_read_keys.insert(cell),
            ..f
        },
        StorageEvent::CachedStateWrite(cell, us) => StorageFigures {
            cached_state_writes_total: saturated_sum(f.cached_state_writes_total, 1),
            cached_state_write_us: saturated_sum(f.cached_state_write_us, us),
            cached_state_write_keys: f.cached_state_write_keys.insert(cell),
            ..f
        },
        StorageEvent::LayeredRead(cell, hit, us) => StorageFigures {
            layered_reads_total: saturated_sum(f.layered_reads_total, 1),
            layered_cache_hits: if hit {
                saturated_sum(f.layered_cache_hits, 1)
            } else {
                f.layered_cache_hits
            },
            layered_cache_misses: if hit {
                f.layered_cache_misses
            } else {
                saturated_sum(f.layered_cache_misses, 1)
            },
            layered_read_us: saturated_sum(f.layered_read_us, us),
            layered_read_keys: f.layered_read_keys.insert(cell),
            ..f
        },
        StorageEvent::BackendRead(cell, us) => StorageFigures {
            backend_reads_total: saturated_sum(f.backend_reads_total, 1),
            backend_read_us: saturated_sum(f.backend_read_us, us),
            backend_read_keys: f.backend_read_keys.insert(cell),
            ..f
        },
    }
}

/// The figures after a series of recorded accesses, in order.
pub open spec fn storage_run(f: StorageFigures, events: Seq<StorageEvent>) -> StorageFigures
    decreases events.len(),
{
    if events.len() == 0 {
        f
    } else {
        storage_step(storage_run(f, events.drop_last()), events.last())
    }
}

/// The storage layers and directions that accesses are recorded for.
pub enum StorageOp {
    CachedStateRead,
    CachedStateWrite,
    LayeredRead,
    BackendRead,
}

/// The layer and direction of an access.
pub open spec fn op_of(e: StorageEvent) -> StorageOp {
    match e {
        StorageEvent::CachedStateRead(..) => StorageOp::CachedStateRead,
        StorageEvent::CachedStateWrite(..) => StorageOp::CachedStateWrite,
        StorageEvent::LayeredRead(..) => StorageOp::LayeredRead,
        StorageEvent::BackendRead(..) => StorageOp::BackendRead,
    }
}

/// The cell of an access.
pub open spec fn cell_of(e: StorageEvent) -> StorageCell {
    match e {
        StorageEvent::CachedStateRead(c, _, _) => c,
        StorageEvent::CachedStateWrite(c, _) => c,
        StorageEvent::LayeredRead(c, _, _) => c,
        StorageEvent::BackendRead(c, _) => c,
    }
}

/// The microseconds of an access.
pub open spec fn us_of(e: StorageEvent) -> u64 {
    match e {
        StorageEvent::CachedStateRead(_, _, us) => us,
        StorageEvent::CachedStateWrite(_, us) => us,
        StorageEvent::LayeredRead(_, _, us) => us,
        StorageEvent::BackendRead(_, us) => us,
    }
}

/// Whether an access hit a cache; accesses through a layer without one
/// never do.
pub open spec fn hit_of(e: StorageEvent) -> bool {
    match e {
        StorageEvent::CachedStateRead(_, hit, _) => hit,
        StorageEvent::LayeredRead(_, hit, _) => hit,
        _ => false,
    }
}

/// The number of accesses of `op` among `events`.
pub open spec fn op_count(events: Seq<StorageEvent>, op: StorageOp) -> nat
    decreases events.len(),
{
    if events.len() == 0 {
        0
    } else {
        op_count(events.drop_last(), op) + if op_of(events.last()) == op {
            1nat
        } else {
            0nat
        }
    }
}

/// The number of accesses of `op` among `events` that hit (`hit` true)
/// or missed (`hit` false) a cache.
pub open spec fn op_hit_count(events: Seq<StorageEvent>, op: StorageOp, hit: bool) -> nat
    decreases events.len(),
{
    if events.len() == 0 {
        0
    } else {
        op_hit_count(events.drop_last(), op, hit) + if op_of(events.last()) == op && hit_of(
            events.last(),
        ) == hit {
            1nat
        } else {
            0nat
        }
    }
}

/// The microseconds of the accesses of `op` among `events`, added.
pub open spec fn op_us(events: Seq<StorageEvent>, op: StorageOp) -> nat
    decreases events.len(),
{
    if events.len() == 0 {
        0
    } else {
        op_us(events.drop_last(), op) + if op_of(events.last()) == op {
            us_of(events.last()) as nat
        } else {
            0nat
        }
    }
}

/// The distinct cells of the accesses of `op` among `events`.
pub open spec fn op_cells(events: Seq<StorageEvent>, op: StorageOp) -> Set<StorageCell>
    decreases events.len(),
{
    if events.len() == 0 {
        Set::empty()
    } else if op_of(events.last()) == op {
        op_cells(events.drop_last(), op).insert(cell_of(events.last()))
    } else {
        op_cells(events.drop_last(), op)
    }
}

/// The figures after a series of accesses recorded from nothing: each
/// count is the number of accesses (of those that hit, of those that
/// missed) and each time their microseconds added, held at `u64::MAX`;
/// each set holds the distinct cells accessed.
pub open spec fn figures_of(events: Seq<StorageEvent>) -> StorageFigures {
    StorageFigures {
        cached_state_reads_total: capped(op_count(events, StorageOp::CachedStateRead)),
        cached_state_cache_hits: capped(op_hit_count(events, StorageOp::CachedStateRead, true)),
        cached_state_cache_misses: capped(op_hit_count(events, StorageOp::CachedStateRead, false)),
        cached_state_read_keys: op_cells(events, StorageOp::CachedStateRead),
        cached_state_writes_total: capped(op_count(events, StorageOp::CachedStateWrite)),
        cached_state_write_keys: op_cells(events, StorageOp::CachedStateWrite),
        cached_state_read_us: capped(op_us(events, StorageOp::CachedStateRead)),
        cached_state_write_us: capped(op_us(events, StorageOp::CachedStateWrite)),
        layered_reads_total: capped(op_count(events, StorageOp::LayeredRead)),
        layered_cache_hits: capped(op_hit_count(events, StorageOp::LayeredRead, true)),
        layered_cache_misses: capped(op_hit_count(events, StorageOp::LayeredRead, false)),
        layered_read_keys: op_cells(events, StorageOp::LayeredRead),
        layered_read_us: capped(op_us(events, StorageOp::LayeredRead)),
        backend_reads_total: capped(op_count(events, StorageOp::BackendRead)),
        backend_read_keys: op_cells(events, StorageOp::BackendRead),
        backend_read_us: capped(op_us(events, StorageOp::BackendRead)),
    }
}

/// Recording a series of accesses from nothing (as after a reset) leaves
/// the figures of `figures_of`: counts and times held at `u64::MAX`, and
/// the distinct cells of each kind of access.
pub proof fn lemma_storage_records_add_up(events: Seq<StorageEvent>)
    ensures
        storage_run(StorageFigures::empty(), events) == figures_of(events),
    decreases events.len(),
{
    if events.len() > 0 {
        let prev = events.drop_last();
        lemma_storage_records_add_up(prev);
        let e = events.last();
        lemma_capped_step(op_count(prev, op_of(e)), 1);
        lemma_capped_step(op_hit_count(prev, op_of(e), hit_of(e)), 1);
        lemma_capped_step(op_us(prev, op_of(e)), us_of(e));
        assert(storage_run(StorageFigures::empty(), events) =~= figures_of(events));
    }
}

/// The distinct cells of one kind of access are a finite set, no larger
/// than the number of such accesses.
pub proof fn lemma_op_cells_within_count(events: Seq<StorageEvent>, op: StorageOp)
    ensures
        op_cells(events, op).finite(),
        op_cells(events, op).len() <= op_count(events, op),
    decreases events.len(),
{
    if events.len() > 0 {
        lemma_op_cells_within_count(events.drop_last(), op);
    }
}

/// What a snapshot reports after a series of accesses recorded from
/// nothing: each total the number of accesses of its kind, each hit and
/// miss count the number of those that hit or missed, each time their
/// microseconds added, all held at `u64::MAX`; each unique count the
/// number of distinct cells of its kind of access.
pub proof fn lemma_snapshot_after_records(events: Seq<StorageEvent>)
    ensures
        ({
            let r = storage_run(StorageFigures::empty(), events).snapshot();
            &&& r.cached_state_reads_total == capped(op_count(events, StorageOp::CachedStateRead))
            &&& r.cached_state_cache_hits
                == capped(op_hit_count(events, StorageOp::CachedStateRead, true))
            &&& r.cached_state_cache_misses
                == capped(op_hit_count(events, StorageOp::CachedStateRead, false))
            &&& r.cached_state_unique_reads
                == op_cells(events, StorageOp::CachedStateRead).len() as u64
            &&& r.cached_state_read_us == capped(op_us(events, StorageOp::CachedStateRead))
            &&& r.cached_state_writes_total == capped(op_count(events, StorageOp::CachedStateWrite))
            &&& r.cached_state_unique_writes
                == op_cells(events, StorageOp::CachedStateWrite).len() as u64
            &&& r.cached_state_write_us == capped(op_us(events, StorageOp::CachedStateWrite))
            &&& r.layered_reads_total == capped(op_count(events, StorageOp::LayeredRead))
            &&& r.layered_cache_hits == capped(op_hit_count(events, StorageOp::LayeredRead, true))
            &&& r.layered_cache_misses
                == capped(op_hit_count(events, StorageOp::LayeredRead, false))
            &&& r.layered_unique_reads == op_cells(events, StorageOp::LayeredRead).len() as u64
            &&& r.layered_read_us == capped(op_us(events, StorageOp::LayeredRead))
            &&& r.backend_reads_total == capped(op_count(events, StorageOp::BackendRead))
            &&& r.backend_unique_reads == op_cells(events, StorageOp::BackendRead).len() as u64
            &&& r.backend_read_us == capped(op_us(events, StorageOp::BackendRead))
        }),
{
    lemma_storage_records_add_up(events);
}

/// The aggregation of one thread: whether it is switched on, and the
/// figures of the current transaction.
#[derive(Debug)]
pub struct StorageAgg {
    pub on: bool,
    pub stats: StorageAggStats,
}

impl StorageAgg {
    /// An aggregation switched on or off, with nothing recorded.
    pub fn new(on: bool) -> (agg: StorageAgg)
        ensures
            agg.on == on,
            agg.stats.wf(),
            agg.stats.is_empty(),
    {
        StorageAgg { on, stats: StorageAggStats::new() }
    }
}

/// Whether the text of the switch turns aggregation on: exactly `1`, or
/// `true` in any mix of ASCII upper and lower case.
pub open spec fn switch_text_turns_on(bytes: Seq<u8>) -> bool {
    ||| bytes == seq![0x31u8]
    ||| (bytes.len() == 4 && ascii_lower(bytes[0]) == 0x74 && ascii_lower(bytes[1]) == 0x72
        && ascii_lower(bytes[2]) == 0x75 && ascii_lower(bytes[3]) == 0x65)
}

/// A byte with ASCII upper case letters turned to lower case.
pub open spec fn ascii_lower(b: u8) -> u8 {
    if 0x41 <= b <= 0x5a {
        (b + 0x20) as u8
    } else {
        b
    }
}

fn to_ascii_lower(b: u8) -> (l: u8)
    ensures
        l == ascii_lower(b),
{
    if 0x41 <= b && b <= 0x5a {
        b + 0x20
    } else {
        b
    }
}

/// Whether aggregation is switched on by the value of its switch, where
/// one is set: `1` or `true` (in any ASCII case) turn it on, any other
/// value or none leaves it off.
pub fn switch_turns_on(value: Option<&str>) -> (on: bool)
    ensures
        on == match value {
            Some(text) => switch_text_turns_on(text.spec_bytes()),
            None => false,
        },
{
    match value {
        None => false,
        Some(text) => {
            let b = text.as_bytes();
            if b.len() == 1 {
                assert(switch_text_turns_on(b@) == (b@[0] == 0x31u8)) by {
                    if b@[0] == 0x31u8 {
                        assert(b@ =~= seq![0x31u8]);
                    }
                }
                b[0] == 0x31
            } else if b.len() == 4 {
                assert(b@ != seq![0x31u8]);
                to_ascii_lower(b[0]) == 0x74 && to_ascii_lower(b[1]) == 0x72 && to_ascii_lower(b[2])
                    == 0x75 && to_ascii_lower(b[3]) == 0x65
            } else {
                assert(b@ != seq![0x31u8]);
                false
            }
        },
    }
}

/// Whether aggregation is switched on.
pub fn enabled(agg: &StorageAgg) -> (on: bool)
    ensures
        on == agg.on,
{
    agg.on
}

/// Drops everything recorded so far; nothing happens while aggregation is
/// off.
pub fn reset(agg: &mut StorageAgg)
    requires
        old(agg).stats.wf(),
    ensures
        final(agg).on == old(agg).on,
        final(agg).stats.wf(),
        old(agg).on ==> final(agg).stats.is_empty(),
        old(agg).on ==> final(agg).stats.figures() == StorageFigures::empty(),
        !old(agg).on ==> final(agg).stats == old(agg).stats,
{
    if !agg.on {
        return ;
    }
    agg.stats = StorageAggStats::new();
}

/// The figures recorded so far; all zero while aggregation is off.
pub fn snapshot(agg: &StorageAgg) -> (s: StorageAggSnapshot)
    requires
        agg.stats.wf(),
    ensures
        agg.on ==> s == agg.stats.snapshot_spec(),
        agg.on ==> s == agg.stats.figures().snapshot(),
        agg.on ==> {
            &&& s.cached_state_reads_total == agg.stats.cached_state_reads_total
            &&& s.cached_state_cache_hits == agg.stats.cached_state_cache_hits
            &&& s.cached_state_cache_misses == agg.stats.cached_state_cache_misses
            &&& s.cached_state_writes_total == agg.stats.cached_state_writes_total
            &&& s.cached_state_read_us == agg.stats.cached_state_read_us
            &&& s.cached_state_write_us == agg.stats.cached_state_write_us
            &&& s.layered_reads_total == agg.stats.layered_reads_total
            &&& s.layered_cache_hits == agg.stats.layered_cache_hits
            &&& s.layered_cache_misses == agg.stats.layered_cache_misses
            &&& s.layered_read_us == agg.stats.layered_read_us
            &&& s.backend_reads_total == agg.stats.backend_reads_total
            &&& s.backend_read_us == agg.stats.backend_read_us
            &&& s.cached_state_unique_reads == agg.stats.cached_state_read_keys@.len()
            &&& s.cached_state_unique_writes == agg.stats.cached_state_write_keys@.len()
            &&& s.layered_unique_reads == agg.stats.layered_read_keys@.len()
            &&& s.backend_unique_reads == agg.stats.backend_read_keys@.len()
        },
        !agg.on ==> s == StorageAggSnapshot::zero(),
        !agg.on ==> {
            &&& s.cached_state_reads_total == 0
            &&& s.cached_state_cache_hits == 0
            &&& s.cached_state_cache_misses == 0
            &&& s.cached_state_unique_reads == 0
            &&& s.cached_state_writes_total == 0
            &&& s.cached_state_unique_writes == 0
            &&& s.cached_state_read_us == 0
            &&& s.cached_state_write_us == 0
            &&& s.layered_reads_total == 0
            &&& s.layered_cache_hits == 0
            &&& s.layered_cache_misses == 0
            &&& s.layered_unique_reads == 0
            &&& s.layered_read_us == 0
            &&& s.backend_reads_total == 0
            &&& s.backend_unique_reads == 0
            &&& s.backend_read_us == 0
        },
{
    if !agg.on {
        return StorageAggSnapshot::default();
    }
    let stats = &agg.stats;
    StorageAggSnapshot {
        cached_state_reads_total: stats.cached_state_reads_total,
        cached_state_cache_hits: stats.cached_state_cache_hits,
        cached_state_cache_misses: stats.cached_state_cache_misses,
        cached_state_unique_reads: stats.cached_state_read_keys.len() as u64,
        cached_state_writes_total: stats.cached_state_writes_total,
        cached_state_unique_writes: stats.cached_state_write_keys.len() as u64,
        cached_state_read_us: stats.cached_state_read_us,
        cached_state_write_us: stats.cached_state_write_us,
        layered_reads_total: stats.layered_reads_total,
        layered_cache_hits: stats.layered_cache_hits,
        layered_cache_misses: stats.layered_cache_misses,
        layered_unique_reads: stats.layered_read_keys.len() as u64,
        layered_read_us: stats.layered_read_us,
        backend_reads_total: stats.backend_reads_total,
        backend_unique_reads: stats.backend_read_keys.len() as u64,
        backend_read_us: stats.backend_read_us,
    }
}

/// Records one read through the cached state: a hit or a miss of its
/// cache, taking `elapsed_us` microseconds, of the cell `key` of
/// `contract_address`. Counts are held at `u64::MAX`; nothing happens
/// while aggregation is off.
pub fn record_cached_state_read(
    agg: &mut StorageAgg,
    contract_address: ContractAddress,
    key: StorageKey,
    hit: bool,
    elapsed_us: u64,
)
    requires
        old(agg).stats.wf(),
    ensures
        final(agg).on == old(agg).on,
        final(agg).stats.wf(),
        !old(agg).on ==> final(agg).stats == old(agg).stats,
        old(agg).on ==> final(agg).stats.figures() == storage_step(
            old(agg).stats.figures(),
            StorageEvent::CachedStateRead((contract_address, key), hit, elapsed_us),
        ),
        old(agg).on ==> {
            let cell = (contract_address, key);
            let before = old(agg).stats.snapshot_spec().cached_state_unique_reads;
            let after = final(agg).stats.snapshot_spec().cached_state_unique_reads;
            after == before + if old(agg).stats.cached_state_read_keys@.contains(cell) {
                0int
            } else {
                1int
            }
        },
        old(agg).on ==> {
            let s = old(agg).stats;
            let t = final(agg).stats;
            &&& t.cached_state_reads_total == saturated_sum(s.cached_state_reads_total, 1)
            &&& t.cached_state_cache_hits == if hit {
                saturated_sum(s.cached_state_cache_hits, 1)
            } else {
                s.cached_state_cache_hits
            }
            &&& t.cached_state_cache_misses == if hit {
                s.cached_state_cache_misses
            } else {
                saturated_sum(s.cached_state_cache_misses, 1)
            }
            &&& t.cached_state_read_us == saturated_sum(s.cached_state_read_us, elapsed_us)
            &&& t.cached_state_read_keys@ == s.cached_state_read_keys@.insert(
                (contract_address, key),
            )
            &&& t.cached_state_writes_total == s.cached_state_writes_total
            &&& t.cached_state_write_keys == s.cached_state_write_keys
            &&& t.cached_state_write_us == s.cached_state_write_us
            &&& t.layered_reads_total == s.layered_reads_total
            &&& t.layered_cache_hits == s.layered_cache_hits
            &&& t.layered_cache_misses == s.layered_cache_misses
            &&& t.layered_read_keys == s.layered_read_keys
            &&& t.layered_read_us == s.layered_read_us
            &&& t.backend_reads_total == s.backend_reads_total
            &&& t.backend_read_keys == s.backend_read_keys
            &&& t.backend_read_us == s.backend_read_us
        },
{
    if !agg.on {
        return ;
    }
    let stats = &mut agg.stats;
    stats.cached_state_reads_total = stats.cached_state_reads_total.saturating_add(1);
    if hit {
        stats.cached_state_cache_hits = stats.cached_state_cache_hits.saturating_add(1);
    } else {
        stats.cached_state_cache_misses = stats.cached_state_cache_misses.saturating_add(1);
    }
    stats.cached_state_read_us = stats.cached_state_read_us.saturating_add(elapsed_us);
    stats.cached_state_read_keys.insert((contract_address, key));
}

/// Records one write through the cached state, taking `elapsed_us`
/// microseconds, of the cell `key` of `contract_address`. Counts are held
/// at `u64::MAX`; nothing happens while aggregation is off.
pub fn record_cached_state_write(
    agg: &mut StorageAgg,
    contract_address: ContractAddress,
    key: StorageKey,
    elapsed_us: u64,
)
    requires
        old(agg).stats.wf(),
    ensures
        final(agg).on == old(agg).on,
        final(agg).stats.wf(),
        !old(agg).on ==> final(agg).stats == old(agg).stats,
        old(agg).on ==> final(agg).stats.figures() == storage_step(
            old(agg).stats.figures(),
            StorageEvent::CachedStateWrite((contract_address, key), elapsed_us),
        ),
        old(agg).on ==> {
            let cell = (contract_address, key);
            let before = old(agg).stats.snapshot_spec().cached_state_unique_writes;
            let after = final(agg).stats.snapshot_spec().cached_state_unique_writes;
            after == before + if old(agg).stats.cached_state_write_keys@.contains(cell) {
                0int
            } else {
                1int
            }
        },
        old(agg).on ==> {
            let s = old(agg).stats;
            let t = final(agg).stats;
            &&& t.cached_state_writes_total == saturated_sum(s.cached_state_writes_total, 1)
            &&& t.cached_state_write_us == saturated_sum(s.cached_state_write_us, elapsed_us)
            &&& t.cached_state_write_keys@ == s.cached_state_write_keys@.insert(
                (contract_address, key),
            )
            &&& t.cached_state_reads_total == s.cached_state_reads_total
            &&& t.cached_state_cache_hits == s.cached_state_cache_hits
            &&& t.cached_state_cache_misses == s.cached_state_cache_misses
            &&& t.cached_state_read_keys == s.cached_state_read_keys
            &&& t.cached_state_read_us == s.cached_state_read_us
            &&& t.layered_reads_total == s.layered_reads_total
            &&& t.layered_cache_hits == s.layered_cache_hits
            &&& t.layered_cache_misses == s.layered_cache_misses
            &&& t.layered_read_keys == s.layered_read_keys
            &&& t.layered_read_us == s.layered_read_us
            &&& t.backend_reads_total == s.backend_reads_total
            &&& t.backend_read_keys == s.backend_read_keys
            &&& t.backend_read_us == s.backend_read_us
        },
{
    if !agg.on {
        return ;
    }
    let stats = &mut agg.stats;
    stats.cached_state_writes_total = stats.cached_state_writes_total.saturating_add(1);
    stats.cached_state_write_us = stats.cached_state_write_us.saturating_add(elapsed_us);
    stats.cached_state_write_keys.insert((contract_address, key));
}

/// Records one read through the layered state: a hit or a miss of its
/// cache, taking `elapsed_us` microseconds, of the cell `key` of
/// `contract_address`. Counts are held at `u64::MAX`; nothing happens
/// while aggregation is off.
pub fn record_layered_read(
    agg: &mut StorageAgg,
    contract_address: ContractAddress,
    key: StorageKey,
    hit: bool,
    elapsed_us: u64,
)
    requires
        old(agg).stats.wf(),
    ensures
        final(agg).on == old(agg).on,
        final(agg).stats.wf(),
        !old(agg).on ==> final(agg).stats == old(agg).stats,
        old(agg).on ==> final(agg).stats.figures() == storage_step(
            old(agg).stats.figures(),
            StorageEvent::LayeredRead((contract_address, key), hit, elapsed_us),
        ),
        old(agg).on ==> {
            let cell = (contract_address, key);
            let before = old(agg).stats.snapshot_spec().layered_unique_reads;
            let after = final(agg).stats.snapshot_spec().layered_unique_reads;
            after == before + if old(agg).stats.layered_read_keys@.contains(cell) {
                0int
            } else {
                1int
            }
        },
        old(agg).on ==> {
            let s = old(agg).stats;
            let t = final(agg).stats;
            &&& t.layered_reads_total == saturated_sum(s.layered_reads_total, 1)
            &&& t.layered_cache_hits == if hit {
                saturated_sum(s.layered_cache_hits, 1)
            } else {
                s.layered_cache_hits
            }
            &&& t.layered_cache_misses == if hit {
                s.layered_cache_misses
            } else {
                saturated_sum(s.layered_cache_misses, 1)
            }
            &&& t.layered_read_us == saturated_sum(s.layered_read_us, elapsed_us)
            &&& t.layered_read_keys@ == s.layered_read_keys@.insert((contract_address, key))
            &&& t.cached_state_reads_total == s.cached_state_reads_total
            &&& t.cached_state_cache_hits == s.cached_state_cache_hits
            &&& t.cached_state_cache_misses == s.cached_state_cache_misses
            &&& t.cached_state_read_keys == s.cached_state_read_keys
            &&& t.cached_state_writes_total == s.cached_state_writes_total
            &&& t.cached_state_write_keys == s.cached_state_write_keys
            &&& t.cached_state_read_us == s.cached_state_read_us
            &&& t.cached_state_write_us == s.cached_state_write_us
            &&& t.backend_reads_total == s.backend_reads_total
            &&& t.backend_read_keys == s.backend_read_keys
            &&& t.backend_read_us == s.backend_read_us
        },
{
    if !agg.on {
        return ;
    }
    let stats = &mut agg.stats;
    stats.layered_reads_total = stats.layered_reads_total.saturating_add(1);
    if hit {
        stats.layered_cache_hits = stats.layered_cache_hits.saturating_add(1);
    } else {
        stats.layered_cache_misses = stats.layered_cache_misses.saturating_add(1);
    }
    stats.layered_read_us = stats.layered_read_us.saturating_add(elapsed_us);
    stats.layered_read_keys.insert((contract_address, key));
}

/// Records one read from the storage backend, taking `elapsed_us`
/// microseconds, of the cell `key` of `contract_address`. Counts are held
/// at `u64::MAX`; nothing happens while aggregation is off.
pub fn record_backend_read(
    agg: &mut StorageAgg,
    contract_address: ContractAddress,
    key: StorageKey,
    elapsed_us: u64,
)
    requires
        old(agg).stats.wf(),
    ensures
        final(agg).on == old(agg).on,
        final(agg).stats.wf(),
        !old(agg).on ==> final(agg).stats == old(agg).stats,
        old(agg).on ==> final(agg).stats.figures() == storage_step(
            old(agg).stats.figures(),
            StorageEvent::BackendRead((contract_address, key), elapsed_us),
        ),
        old(agg).on ==> {
            let cell = (contract_address, key);
            let before = old(agg).stats.snapshot_spec().backend_unique_reads;
            let after = final(agg).stats.snapshot_spec().backend_unique_reads;
            after == before + if old(agg).stats.backend_read_keys@.contains(cell) {
                0int
            } else {
                1int
            }
        },
        old(agg).on ==> {
            let s = old(agg).stats;
            let t = final(agg).stats;
            &&& t.backend_reads_total == saturated_sum(s.backend_reads_total, 1)
            &&& t.backend_read_us == saturated_sum(s.backend_read_us, elapsed_us)
            &&& t.backend_read_keys@ == s.backend_read_keys@.insert((contract_address, key))
            &&& t.cached_state_reads_total == s.cached_state_reads_total
            &&& t.cached_state_cache_hits == s.cached_state_cache_hits
            &&& t.cached_state_cache_misses == s.cached_state_cache_misses
            &&& t.cached_state_read_keys == s.cached_state_read_keys
            &&& t.cached_state_writes_total == s.cached_state_writes_total
            &&& t.cached_state_write_keys == s.cached_state_write_keys
            &&& t.cached_state_read_us == s.cached_state_read_us
            &&& t.cached_state_write_us == s.cached_state_write_us
            &&& t.layered_reads_total == s.layered_reads_total
            &&& t.layered_cache_hits == s.layered_cache_hits
            &&& t.layered_cache_misses == s.layered_cache_misses
            &&& t.layered_read_keys == s.layered_read_keys
            &&& t.layered_read_us == s.layered_read_us
        },
{
    if !agg.on {
        return ;
    }
    let stats = &mut agg.stats;
    stats.backend_reads_total = stats.backend_reads_total.saturating_add(1);
    stats.backend_read_us = stats.backend_read_us.saturating_add(elapsed_us);
    stats.backend_read_keys.insert((contract_address, key));
}

} // verus!
