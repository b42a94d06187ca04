//! The run coordinator: request validation, the one-bus-per-profile
//! rule, the sequential run machine, deterministic ordering of
//! parallel results, and summary aggregation.

use vstd::prelude::*;
use vstd::string::*;
use crate::control::{ControlRegistry, MaintenanceControl};
use crate::types::{DatabaseResult, MaintenanceOptions, MaintenanceSummary, copy_string};

verus! {

/// Sum of the per-database rebuilt counters.
pub open spec fn sum_rebuilt(s: Seq<DatabaseResult>) -> nat
    decreases s.len(),
{
    if s.len() == 0 {
        0
    } else {
        sum_rebuilt(s.drop_last()) + (s.last().indexes_rebuilt as nat)
    }
}

/// Sum of the per-database reorganized counters.
pub open spec fn sum_reorganized(s: Seq<DatabaseResult>) -> nat
    decreases s.len(),
{
    if s.len() == 0 {
        0
    } else {
        sum_reorganized(s.drop_last()) + (s.last().indexes_reorganized as nat)
    }
}

/// Sum of the per-database skipped counters.
pub open spec fn sum_skipped(s: Seq<DatabaseResult>) -> nat
    decreases s.len(),
{
    if s.len() == 0 {
        0
    } else {
        sum_skipped(s.drop_last()) + (s.last().indexes_skipped as nat)
    }
}

/// How many databases failed critically.
pub open spec fn count_critical(s: Seq<DatabaseResult>) -> nat
    decreases s.len(),
{
    if s.len() == 0 {
        0
    } else {
        count_critical(s.drop_last()) + (if s.last().critical_failure {
            1nat
        } else {
            0nat
        })
    }
}

/// How many databases were manually skipped.
pub open spec fn count_manually_skipped(s: Seq<DatabaseResult>) -> nat
    decreases s.len(),
{
    if s.len() == 0 {
        0
    } else {
        count_manually_skipped(s.drop_last()) + (if s.last().manually_skipped {
            1nat
        } else {
            0nat
        })
    }
}

proof fn lemma_aggregates_push(s: Seq<DatabaseResult>, e: DatabaseResult)
    ensures
        sum_rebuilt(s.push(e)) == sum_rebuilt(s) + e.indexes_rebuilt,
        sum_reorganized(s.push(e)) == sum_reorganized(s) + e.indexes_reorganized,
        sum_skipped(s.push(e)) == sum_skipped(s) + e.indexes_skipped,
        count_critical(s.push(e)) == count_critical(s) + (if e.critical_failure {
            1nat
        } else {
            0nat
        }),
        count_manually_skipped(s.push(e)) == count_manually_skipped(s) + (if e.manually_skipped {
            1nat
        } else {
            0nat
        }),
{
    assert(s.push(e).drop_last() =~= s);
    assert(s.push(e).last() == e);
}

proof fn lemma_counts_le_len(s: Seq<DatabaseResult>)
    ensures
        count_critical(s) <= s.len(),
        count_manually_skipped(s) <= s.len(),
    decreases s.len(),
{
    if s.len() > 0 {
        lemma_counts_le_len(s.drop_last());
    }
}

proof fn lemma_aggregates_prefix_bound(s: Seq<DatabaseResult>, i: int)
    requires
        0 <= i <= s.len(),
    ensures
        sum_rebuilt(s.subrange(0, i)) <= sum_rebuilt(s),
        sum_reorganized(s.subrange(0, i)) <= sum_reorganized(s),
        sum_skipped(s.subrange(0, i)) <= sum_skipped(s),
        count_critical(s.subrange(0, i)) <= count_critical(s),
        count_manually_skipped(s.subrange(0, i)) <= count_manually_skipped(s),
    decreases s.len(),
{
    if i == s.len() {
        assert(s.subrange(0, i) =~= s);
    } else {
        let rest = s.drop_last();
        assert(s.subrange(0, i) =~= rest.subrange(0, i));
        lemma_aggregates_prefix_bound(rest, i);
    }
}

/// Fold the per-database results into the run summary: counts of
/// processed, critically failed and manually skipped databases, and
/// straight sums of the per-database counters, in input order.
pub fn build_summary(results: Vec<DatabaseResult>, total_duration_ms: u64) -> (s:
    MaintenanceSummary)
    requires
        results@.len() <= u32::MAX,
        sum_rebuilt(results@) <= u32::MAX,
        sum_reorganized(results@) <= u32::MAX,
        sum_skipped(results@) <= u32::MAX,
    ensures
        s.databases_processed == results@.len(),
        s.databases_failed == count_critical(results@),
        s.databases_skipped == count_manually_skipped(results@),
        s.total_indexes_rebuilt == sum_rebuilt(results@),
        s.total_indexes_reorganized == sum_reorganized(results@),
        s.total_indexes_skipped == sum_skipped(results@),
        s.total_duration_ms == total_duration_ms,
        s.database_results == results,
{
    let n = results.len();
    let mut failed: u32 = 0;
    let mut skipped: u32 = 0;
    let mut rebuilt: u32 = 0;
    let mut reorganized: u32 = 0;
    let mut idx_skipped: u32 = 0;
    let mut i: usize = 0;
    while i < n
        invariant
            i <= n,
            n == results@.len(),
            results@.len() <= u32::MAX,
            sum_rebuilt(results@) <= u32::MAX,
            sum_reorganized(results@) <= u32::MAX,
            sum_skipped(results@) <= u32::MAX,
            failed == count_critical(results@.subrange(0, i as int)),
            skipped == count_manually_skipped(results@.subrange(0, i as int)),
            rebuilt == sum_rebuilt(results@.subrange(0, i as int)),
            reorganized == sum_reorganized(results@.subrange(0, i as int)),
            idx_skipped == sum_skipped(results@.subrange(0, i as int)),
        decreases n - i,
    {
        proof {
            let pre = results@.subrange(0, i as int);
            assert(results@.subrange(0, i + 1 as int) =~= pre.push(results@[i as int]));
            lemma_aggregates_push(pre, results@[i as int]);
            lemma_aggregates_prefix_bound(results@, i + 1 as int);
            lemma_counts_le_len(results@);
        }
        if results[i].critical_failure {
            failed = failed + 1;
        }
        if results[i].manually_skipped {
            skipped = skipped + 1;
        }
        rebuilt = rebuilt + results[i].indexes_rebuilt;
        reorganized = reorganized + results[i].indexes_reorganized;
        idx_skipped = idx_skipped + results[i].indexes_skipped;
        i += 1;
    }
    proof {
        assert(results@.subrange(0, n as int) =~= results@);
        lemma_aggregates_prefix_bound(results@, n as int);
    }
    MaintenanceSummary {
        databases_processed: n as u32,
        databases_failed: failed,
        databases_skipped: skipped,
        total_indexes_rebuilt: rebuilt,
        total_indexes_reorganized: reorganized,
        total_indexes_skipped: idx_skipped,
        total_duration_ms,
        database_results: results,
    }
}

/// The synthetic result for a database bypassed whole by
/// SkipDatabase: zero counters, successful, marked manually skipped.
pub fn make_skipped_result(db_name: &str) -> (r: DatabaseResult)
    ensures
        r.database_name@ == db_name@,
        r.success,
        r.indexes_processed == 0,
        r.indexes_rebuilt == 0,
        r.indexes_reorganized == 0,
        r.indexes_skipped == 0,
        r.total_duration_ms == 0,
        r.errors@.len() == 0,
        !r.critical_failure,
        r.manually_skipped,
        r.index_results@.len() == 0,
{
    DatabaseResult {
        database_name: String::from_str(db_name),
        success: true,
        indexes_processed: 0,
        indexes_rebuilt: 0,
        indexes_reorganized: 0,
        indexes_skipped: 0,
        total_duration_ms: 0,
        errors: Vec::new(),
        critical_failure: false,
        manually_skipped: true,
        index_results: Vec::new(),
    }
}

/// Fragmentation thresholds must be positive for a run to start.
pub open spec fn thresholds_valid(options: MaintenanceOptions) -> bool {
    options.reorganize_threshold_centipercent > 0 && options.rebuild_threshold_centipercent > 0
}

/// Admit a run request: reject non-positive thresholds, reject a
/// profile that already has an active bus, and otherwise register
/// the new bus under the profile id.
pub fn start_run<T>(
    registry: &mut ControlRegistry<T>,
    profile_id: &String,
    options: &MaintenanceOptions,
    bus: T,
) -> (r: Result<(), String>)
    requires
        old(registry).wf(),
    ensures
        final(registry).wf(),
        !thresholds_valid(*options) ==> (r matches Err(m) && m@
            == "Fragmentation thresholds must be positive"@) && *final(registry) == *old(registry),
        thresholds_valid(*options) && old(registry).has(profile_id@) ==> (r matches Err(m) && m@
            == "Maintenance run is already active for this profile"@) && *final(registry) == *old(registry),
        thresholds_valid(*options) && !old(registry).has(profile_id@) ==> r is Ok && final(registry).has(profile_id@) && final(registry).get_spec(profile_id@) == bus,
        forall|other: Seq<char>|
            other != profile_id@ ==> final(registry).has(other) == old(registry).has(other),
{
    if options.reorganize_threshold_centipercent == 0 || options.rebuild_threshold_centipercent
        == 0 {
        return Err(String::from_str("Fragmentation thresholds must be positive"));
    }
    let ok = registry.insert(profile_id, bus);
    if ok {
        Ok(())
    } else {
        Err(String::from_str("Maintenance run is already active for this profile"))
    }
}

/// Find the bus for a control command (pause, resume, skip, stop);
/// absent means no run is active for the profile.
pub fn lookup_bus<'a, T>(registry: &'a ControlRegistry<T>, profile_id: &String) -> (r: Result<
    &'a T,
    String,
>)
    requires
        registry.wf(),
    ensures
        registry.has(profile_id@) ==> (r matches Ok(v) && *v == registry.get_spec(profile_id@)),
        !registry.has(profile_id@) ==> (r matches Err(m) && m@
            == "No active maintenance run for this profile"@),
{
    match registry.lookup(profile_id) {
        Some(v) => Ok(v),
        None => Err(String::from_str("No active maintenance run for this profile")),
    }
}

/// This pair is one of the buffered pairs.
pub open spec fn appears(pairs: Seq<(usize, DatabaseResult)>, p: (usize, DatabaseResult)) -> bool {
    exists|k: int| 0 <= k < pairs.len() && #[trigger] pairs[k] == p
}

/// Some buffered pair carries input index `i`.
pub open spec fn covers_index(pairs: Seq<(usize, DatabaseResult)>, i: int) -> bool {
    exists|k: int| 0 <= k < pairs.len() && (#[trigger] pairs[k]).0 == i
}

/// The result that a parallel run produced for input database `i`
/// (meaningful when exactly one buffered pair carries `i`).
pub open spec fn result_at(pairs: Seq<(usize, DatabaseResult)>, i: int) -> DatabaseResult {
    pairs[choose|k: int| 0 <= k < pairs.len() && pairs[k].0 == i].1
}

/// Restore deterministic order after a parallel run: each worker
/// pushed its result tagged with its input index, in completion
/// order; the summary must list results in input order.
pub fn order_results(pairs: Vec<(usize, DatabaseResult)>) -> (out: Vec<DatabaseResult>)
    requires
        forall|k: int| 0 <= k < pairs@.len() ==> (#[trigger] pairs@[k]).0 < pairs@.len(),
        forall|k1: int, k2: int|
            0 <= k1 < k2 < pairs@.len() ==> pairs@[k1].0 != pairs@[k2].0,
        forall|i: int| 0 <= i < pairs@.len() ==> covers_index(pairs@, i),
    ensures
        out@.len() == pairs@.len(),
        forall|i: int| 0 <= i < out@.len() ==> out@[i] == result_at(pairs@, i),
{
    let ghost orig = pairs@;
    let n = pairs.len();
    let mut remaining = pairs;
    let mut out: Vec<DatabaseResult> = Vec::new();
    let mut i: usize = 0;
    proof {
        assert forall|k: int| 0 <= k < remaining@.len() implies appears(
            orig,
            #[trigger] remaining@[k],
        ) by {
            assert(0 <= k < orig.len() && orig[k] == remaining@[k]);
        }
    }
    while i < n
        invariant
            i <= n,
            n == orig.len(),
            remaining@.len() == n - i,
            forall|k1: int, k2: int| 0 <= k1 < k2 < orig.len() ==> orig[k1].0 != orig[k2].0,
            forall|k: int|
                0 <= k < remaining@.len() ==> appears(orig, #[trigger] remaining@[k]),
            forall|x: int| i <= x < n ==> covers_index(remaining@, x),
            out@.len() == i,
            forall|x: int| 0 <= x < i ==> out@[x] == result_at(orig, x),
        decreases n - i,
    {
        let m = remaining.len();
        let mut j: usize = 0;
        let mut found: usize = 0;
        let mut have: bool = false;
        while j < m
            invariant
                j <= m,
                m == remaining@.len(),
                have ==> found < m && remaining@[found as int].0 == i,
                !have ==> (forall|jj: int| 0 <= jj < j ==> remaining@[jj].0 != i),
            decreases m - j,
        {
            if !have && remaining[j].0 == i {
                found = j;
                have = true;
            }
            j += 1;
        }
        proof {
            assert(covers_index(remaining@, i as int));
        }
        assert(have);
        let ghost pre = remaining@;
        let pair = remaining.remove(found);
        out.push(pair.1);
        proof {
            assert(pair == pre[found as int]);
            assert(remaining@ =~= pre.remove(found as int));
            // the removed pair is orig's pair for index i
            assert(appears(orig, pre[found as int]));
            let removed = pre[found as int];
            let k0 = choose|k0: int| 0 <= k0 < orig.len() && #[trigger] orig[k0] == removed;
            let kc = choose|k: int| 0 <= k < orig.len() && orig[k].0 == i;
            assert(orig[k0].0 == i);
            assert(orig[kc].0 == i);
            if k0 != kc {
                assert(false);
            }
            assert(out@.last() == result_at(orig, i as int));
            // membership of the rest survives the removal
            assert forall|k: int|
                0 <= k < remaining@.len() implies appears(orig, #[trigger] remaining@[k]) by {
                if k < found {
                    assert(remaining@[k] == pre[k]);
                    assert(appears(orig, pre[k]));
                } else {
                    assert(remaining@[k] == pre[k + 1]);
                    assert(appears(orig, pre[k + 1]));
                }
            }
            // every later input index still has its pair
            assert forall|x: int| i + 1 <= x < n implies covers_index(remaining@, x) by {
                assert(covers_index(pre, x));
                let kx = choose|k: int| 0 <= k < pre.len() && (#[trigger] pre[k]).0 == x;
                assert(kx != found);
                if kx < found {
                    assert(remaining@[kx] == pre[kx]);
                } else {
                    assert(remaining@[kx - 1] == pre[kx]);
                }
            }
        }
        i += 1;
    }
    out
}

/// What the sequential dispatcher does next.
#[derive(Debug)]
pub enum SequencerDirective {
    /// Stop observed before this database: emit one stopped control
    /// event and finish the run.
    StopRun,
    /// SkipDatabase observed: this synthetic skipped result was
    /// recorded; reset the bus to Running, emit `db-complete`, and
    /// go on.
    RecordedSkip { result: DatabaseResult },
    /// Run the worker for this database, after emitting `db-start`.
    StartDatabase { db_name: String, current: u32, total: u32 },
}

/// The sequential dispatcher: one database at a time, in input
/// order, checking the control bus before each.
#[derive(Debug)]
pub struct RunSequencer {
    /// The databases of the run, in input order.
    pub databases: Vec<String>,
    /// One result per database handled so far, in input order.
    pub results: Vec<DatabaseResult>,
    /// The position of the next database.
    pub pos: usize,
    /// A worker is running for the database at `pos`.
    pub in_db: bool,
    /// Stop was observed (at a loop head or inside a worker); at
    /// most one stopped control event is ever called for.
    pub stopped: bool,
    /// The run is over: no further database is dispatched.
    pub done: bool,
}

impl RunSequencer {
    pub open spec fn wf(self) -> bool {
        &&& self.pos <= self.databases@.len()
        &&& self.results@.len() == self.pos
        &&& self.databases@.len() <= u32::MAX
        &&& (forall|i: int|
            0 <= i < self.results@.len() ==> (#[trigger] self.results@[i]).database_name@
                == self.databases@[i]@)
        &&& (self.stopped ==> self.done)
        &&& (self.in_db ==> !self.done && self.pos < self.databases@.len())
    }

    /// Start a sequential run over these databases.
    pub fn new(databases: Vec<String>) -> (r: Self)
        requires
            databases@.len() <= u32::MAX,
        ensures
            r.wf(),
            r.databases == databases,
            r.results@.len() == 0,
            r.pos == 0,
            !r.in_db,
            !r.stopped,
            !r.done,
    {
        RunSequencer { databases, results: Vec::new(), pos: 0, in_db: false, stopped: false, done: false }
    }

    /// All databases are handled or the run was stopped; build the
    /// summary next.
    pub fn is_complete(&self) -> (c: bool)
        ensures
            c == (self.done || self.pos == self.databases@.len()),
    {
        self.done || self.pos == self.databases.len()
    }

    /// At a loop head, with the control state the caller observed
    /// (Paused never arrives here: the caller polls it away):
    /// dispatch the next database, record a manual skip, or stop the
    /// run.
    pub fn next(&mut self, control: MaintenanceControl) -> (d: SequencerDirective)
        requires
            old(self).wf(),
            !old(self).done,
            !old(self).in_db,
            old(self).pos < old(self).databases@.len(),
            control != MaintenanceControl::Paused,
        ensures
            final(self).wf(),
            final(self).databases == old(self).databases,
            control is Stop ==> (d is StopRun && final(self).done && final(self).stopped && final(self).results@ == old(self).results@ && final(self).pos == old(self).pos),
            control is SkipDatabase ==> (d matches SequencerDirective::RecordedSkip { result }
                && result.manually_skipped && result.success && result.indexes_processed == 0
                && result.database_name@ == old(self).databases@[old(self).pos as int]@ && final(self).pos == old(self).pos + 1 && final(self).results@.len() == old(self).results@.len() + 1
                && final(self).results@.drop_last() == old(self).results@ && final(self).results@.last().manually_skipped && final(self).results@.last().indexes_processed == 0
                && final(self).results@.last().success && !final(self).done && !final(self).in_db),
            control is Running ==> (d matches SequencerDirective::StartDatabase {
                db_name,
                current,
                total,
            } && db_name@ == old(self).databases@[old(self).pos as int]@ && current == old(self).pos + 1 && total == old(self).databases@.len() && final(self).in_db && final(self).pos
                == old(self).pos && final(self).results@ == old(self).results@ && !final(self).done),
    {
        match control {
            MaintenanceControl::Stop => {
                self.stopped = true;
                self.done = true;
                SequencerDirective::StopRun
            },
            MaintenanceControl::SkipDatabase => {
                let synthetic = make_skipped_result(self.databases[self.pos].as_str());
                let for_event = make_skipped_result(self.databases[self.pos].as_str());
                self.results.push(synthetic);
                self.pos = self.pos + 1;
                SequencerDirective::RecordedSkip { result: for_event }
            },
            _ => {
                let db_name = copy_string(&self.databases[self.pos]);
                self.in_db = true;
                SequencerDirective::StartDatabase {
                    db_name,
                    current: (self.pos + 1) as u32,
                    total: self.databases.len() as u32,
                }
            },
        }
    }

    /// A worker finished the current database: record its result; a
    /// stop from inside the worker ends the run (the caller emits
    /// the one stopped control event exactly then).
    pub fn on_db_complete(&mut self, result: DatabaseResult, should_stop: bool)
        requires
            old(self).wf(),
            old(self).in_db,
            result.database_name@ == old(self).databases@[old(self).pos as int]@,
        ensures
            final(self).wf(),
            final(self).databases == old(self).databases,
            final(self).pos == old(self).pos + 1,
            !final(self).in_db,
            final(self).results@.len() == old(self).results@.len() + 1,
            final(self).results@.drop_last() == old(self).results@,
            final(self).results@.last() == result,
            final(self).done == (old(self).done || should_stop),
            final(self).stopped == (old(self).stopped || should_stop),
    {
        self.results.push(result);
        self.pos = self.pos + 1;
        self.in_db = false;
        if should_stop {
            self.stopped = true;
            self.done = true;
        }
    }
}

} // verus!
