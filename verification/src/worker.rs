//! The per-database worker: a state machine that sequences one
//! database's indexes, applies the fragmentation policy, records
//! exactly one result per index that reaches a terminal event, and
//! accumulates the event stream.  The caller performs the connect,
//! the probe, and each statement (through the retry executor), and
//! feeds the outcomes back in.

use vstd::prelude::*;
use vstd::string::*;
use crate::control::MaintenanceControl;
use crate::events::{DatabaseEvent, DbCompleteEvent, DbStartEvent, IndexActionEvent,
    IndexCompleteEvent, IndexFoundEvent, MaintenanceErrorEvent, WorkerEvent,
    database_stream_word, lemma_completed_stream_is_word, lemma_open_stream_is_prefix,
    valid_database_stream_prefix, worker_stream_shape, wrap_worker_stream};
use crate::policy::{decide_action, determine_action};
use crate::sql::{rebuild_index_sql, rebuild_sql_spec, reorganize_index_sql, reorganize_sql_spec,
    update_statistics_sql, update_statistics_sql_spec};
use crate::types::{DatabaseResult, IndexInfo, IndexResult, MaintenanceAction, MaintenanceOptions,
    copy_string, duplicate_index_info, index_info_like};

verus! {

/// How many recorded results are successful rebuilds.
pub open spec fn counts_rebuilt(s: Seq<IndexResult>) -> nat
    decreases s.len(),
{
    if s.len() == 0 {
        0
    } else {
        counts_rebuilt(s.drop_last()) + (if s.last().action is Rebuild && s.last().success {
            1nat
        } else {
            0nat
        })
    }
}

/// How many recorded results are successful reorganizations.
pub open spec fn counts_reorganized(s: Seq<IndexResult>) -> nat
    decreases s.len(),
{
    if s.len() == 0 {
        0
    } else {
        counts_reorganized(s.drop_last()) + (if s.last().action is Reorganize && s.last().success {
            1nat
        } else {
            0nat
        })
    }
}

/// How many recorded results chose Skip.
pub open spec fn counts_skipped(s: Seq<IndexResult>) -> nat
    decreases s.len(),
{
    if s.len() == 0 {
        0
    } else {
        counts_skipped(s.drop_last()) + (if s.last().action is Skip {
            1nat
        } else {
            0nat
        })
    }
}

/// How many recorded results failed.
pub open spec fn counts_failed(s: Seq<IndexResult>) -> nat
    decreases s.len(),
{
    if s.len() == 0 {
        0
    } else {
        counts_failed(s.drop_last()) + (if !s.last().success {
            1nat
        } else {
            0nat
        })
    }
}

proof fn lemma_counts_push(s: Seq<IndexResult>, e: IndexResult)
    ensures
        counts_rebuilt(s.push(e)) == counts_rebuilt(s) + (if e.action is Rebuild && e.success {
            1nat
        } else {
            0nat
        }),
        counts_reorganized(s.push(e)) == counts_reorganized(s) + (if e.action is Reorganize
            && e.success {
            1nat
        } else {
            0nat
        }),
        counts_skipped(s.push(e)) == counts_skipped(s) + (if e.action is Skip {
            1nat
        } else {
            0nat
        }),
        counts_failed(s.push(e)) == counts_failed(s) + (if !e.success {
            1nat
        } else {
            0nat
        }),
{
    assert(s.push(e).drop_last() =~= s);
    assert(s.push(e).last() == e);
}

proof fn lemma_counts_bounds(s: Seq<IndexResult>)
    ensures
        counts_rebuilt(s) <= s.len(),
        counts_reorganized(s) <= s.len(),
        counts_skipped(s) <= s.len(),
        counts_failed(s) <= s.len(),
    decreases s.len(),
{
    if s.len() > 0 {
        lemma_counts_bounds(s.drop_last());
    }
}

/// Every recorded result lands in exactly one bucket, so the buckets
/// partition the processed count.  (A Skip is always recorded as a
/// success, which the worker guarantees.)
pub proof fn lemma_counters_partition(s: Seq<IndexResult>)
    requires
        forall|i: int| 0 <= i < s.len() ==> (s[i].action is Skip ==> s[i].success),
    ensures
        s.len() == counts_rebuilt(s) + counts_reorganized(s) + counts_skipped(s) + counts_failed(
            s,
        ),
    decreases s.len(),
{
    if s.len() > 0 {
        let rest = s.drop_last();
        assert(forall|i: int| 0 <= i < rest.len() ==> rest[i] == s[i]);
        lemma_counters_partition(rest);
        assert(s.last() == s[s.len() - 1]);
    }
}

/// A recorded result carries this index's identity and these
/// outcome fields.
pub open spec fn entry_matches(
    e: IndexResult,
    idx: IndexInfo,
    action: MaintenanceAction,
    success: bool,
    duration_ms: u64,
    attempts: u32,
) -> bool {
    &&& e.schema_name@ == idx.schema_name@
    &&& e.table_name@ == idx.table_name@
    &&& e.index_name@ == idx.index_name@
    &&& e.fragmentation_centipercent == idx.fragmentation_centipercent
    &&& e.page_count == idx.page_count
    &&& e.action == action
    &&& e.success == success
    &&& e.duration_ms == duration_ms
    &&& e.retry_attempts == attempts
}

/// Equality of two database results on everything but the
/// `manually_skipped` flag.
pub open spec fn same_result_core(a: DatabaseResult, b: DatabaseResult) -> bool {
    &&& a.database_name == b.database_name
    &&& a.success == b.success
    &&& a.indexes_processed == b.indexes_processed
    &&& a.indexes_rebuilt == b.indexes_rebuilt
    &&& a.indexes_reorganized == b.indexes_reorganized
    &&& a.indexes_skipped == b.indexes_skipped
    &&& a.total_duration_ms == b.total_duration_ms
    &&& a.errors == b.errors
    &&& a.critical_failure == b.critical_failure
    &&& a.index_results == b.index_results
}

/// Where the worker stands.
#[derive(Debug, Clone, Copy, PartialEq, Eq, Structural)]
pub enum WorkerPhase {
    /// Waiting for the connection outcome.
    Connecting,
    /// Waiting for the index probe outcome.
    Probing,
    /// At the head of the index loop.
    Working,
    /// An index's statement is with the retry executor.
    AwaitingOp,
    /// Nothing more to do in this database.
    Finished,
}

/// What the caller does next with the current index.
#[derive(Debug)]
pub enum WorkerDirective {
    /// Stop observed: leave the database; the run should stop.
    Stopped,
    /// SkipDatabase observed: leave the database; the caller resets
    /// the bus to Running.
    SkippedDatabase,
    /// An index below the reorganize threshold was recorded as
    /// skipped; ask for the next step.
    SkippedIndex,
    /// Run this statement through the retry executor.
    ExecuteSql { action: MaintenanceAction, sql: String },
    /// Every index was handled; finish the database.
    DatabaseDone,
}

/// The worker for one database.
#[derive(Debug)]
pub struct DatabaseWorker {
    /// The profile this run belongs to, for event payloads.
    pub profile_id: String,
    /// The database being maintained.
    pub db_name: String,
    /// The probed indexes, in probe order.
    pub indexes: Vec<IndexInfo>,
    /// The accumulating result.
    pub result: DatabaseResult,
    /// The events emitted so far, in order; the caller forwards them.
    pub events: Vec<WorkerEvent>,
    /// Where the worker stands.
    pub phase: WorkerPhase,
    /// The action under execution while `phase` is AwaitingOp.
    pub pending_action: MaintenanceAction,
    /// An `index-action` event is unmatched (an operation is in
    /// flight, or one was abandoned by an interrupt).
    pub op_pending: bool,
    /// The position of the next index to consider.
    pub pos: usize,
    /// Stop was observed; the whole run should wind down.
    pub stopped: bool,
    /// The probe completed and `index-found` events were emitted.
    pub probed: bool,
}

impl DatabaseWorker {
    /// How many `index-found` events stand at the head of the stream.
    pub open spec fn founds(self) -> int {
        if self.probed {
            self.indexes@.len() as int
        } else {
            0
        }
    }

    /// The worker's invariant: counters agree with the recorded
    /// results, every Skip is recorded as a success, the event
    /// stream has the grammar's shape, and a critical failure
    /// precludes any per-index record.
    pub open spec fn wf(self) -> bool {
        &&& self.result.indexes_processed == self.result.index_results@.len()
        &&& self.result.indexes_rebuilt == counts_rebuilt(self.result.index_results@)
        &&& self.result.indexes_reorganized == counts_reorganized(self.result.index_results@)
        &&& self.result.indexes_skipped == counts_skipped(self.result.index_results@)
        &&& (forall|i: int|
            0 <= i < self.result.index_results@.len() ==> (self.result.index_results@[i].action
                is Skip ==> self.result.index_results@[i].success))
        &&& self.indexes@.len() <= u32::MAX
        &&& self.pos <= self.indexes@.len()
        &&& self.result.index_results@.len() <= self.pos
        &&& worker_stream_shape(
            self.events@,
            self.founds(),
            self.result.index_results@.len() as int,
            self.op_pending,
        )
        &&& (self.phase is AwaitingOp ==> self.op_pending && self.pos < self.indexes@.len()
            && !(self.pending_action is Skip))
        &&& (self.op_pending && !(self.phase is AwaitingOp) ==> self.phase is Finished)
        &&& (self.phase is Connecting || self.phase is Probing ==> !self.probed && self.pos == 0
            && self.result.index_results@.len() == 0 && self.indexes@.len() == 0
            && !self.op_pending)
        &&& (self.probed ==> self.phase is Working || self.phase is AwaitingOp || self.phase
            is Finished)
        &&& (self.result.critical_failure ==> self.result.index_results@.len() == 0
            && !self.probed && self.phase is Finished && !self.op_pending)
        &&& (self.stopped ==> self.phase is Finished)
        &&& (self.result.manually_skipped ==> self.phase is Finished)
    }

    /// Start a worker for one database.
    pub fn new(profile_id: String, db_name: String) -> (w: Self)
        ensures
            w.wf(),
            w.phase == WorkerPhase::Connecting,
            w.profile_id == profile_id,
            w.db_name == db_name,
            w.result.database_name@ == db_name@,
            w.result.success,
            w.result.indexes_processed == 0,
            w.result.indexes_rebuilt == 0,
            w.result.indexes_reorganized == 0,
            w.result.indexes_skipped == 0,
            w.result.total_duration_ms == 0,
            w.result.errors@.len() == 0,
            !w.result.critical_failure,
            !w.result.manually_skipped,
            w.result.index_results@.len() == 0,
            w.events@.len() == 0,
            w.pos == 0,
            !w.stopped,
            !w.probed,
            !w.op_pending,
    {
        let name_copy = copy_string(&db_name);
        DatabaseWorker {
            profile_id,
            db_name,
            indexes: Vec::new(),
            result: DatabaseResult {
                database_name: name_copy,
                success: true,
                indexes_processed: 0,
                indexes_rebuilt: 0,
                indexes_reorganized: 0,
                indexes_skipped: 0,
                total_duration_ms: 0,
                errors: Vec::new(),
                critical_failure: false,
                manually_skipped: false,
                index_results: Vec::new(),
            },
            events: Vec::new(),
            phase: WorkerPhase::Connecting,
            pending_action: MaintenanceAction::Skip,
            op_pending: false,
            pos: 0,
            stopped: false,
            probed: false,
        }
    }

    fn fail_critically(&mut self, prefix: &str, error: String) -> (ev: MaintenanceErrorEvent)
        requires
            old(self).wf(),
            old(self).phase == WorkerPhase::Connecting || old(self).phase == WorkerPhase::Probing,
        ensures
            final(self).wf(),
            final(self).phase == WorkerPhase::Finished,
            final(self).result.critical_failure,
            !final(self).result.success,
            final(self).result.errors@.len() == old(self).result.errors@.len() + 1,
            final(self).result.errors@.last()@ == prefix@ + error@,
            final(self).result.index_results@.len() == 0,
            final(self).result.indexes_processed == 0,
            final(self).result.database_name == old(self).result.database_name,
            final(self).result.manually_skipped == old(self).result.manually_skipped,
            final(self).events@ == old(self).events@,
            final(self).stopped == old(self).stopped,
            final(self).pos == old(self).pos,
            ev.profile_id@ == old(self).profile_id@,
            ev.message@ == old(self).db_name@ + ": "@ + error@,
    {
        self.result.success = false;
        self.result.critical_failure = true;
        let mut entry = String::new();
        entry.append(prefix);
        entry.append(error.as_str());
        self.result.errors.push(entry);
        self.phase = WorkerPhase::Finished;
        let mut message = copy_string(&self.db_name);
        message.append(": ");
        message.append(error.as_str());
        MaintenanceErrorEvent { profile_id: copy_string(&self.profile_id), message }
    }

    /// The connection could not be opened: a critical failure; no
    /// per-index work happens.
    pub fn on_connect_failed(&mut self, error: String) -> (ev: MaintenanceErrorEvent)
        requires
            old(self).wf(),
            old(self).phase == WorkerPhase::Connecting,
        ensures
            final(self).wf(),
            final(self).phase == WorkerPhase::Finished,
            final(self).result.critical_failure,
            !final(self).result.success,
            !final(self).stopped,
            final(self).result.errors@.len() == old(self).result.errors@.len() + 1,
            final(self).result.errors@.last()@ == "Connection failed: "@ + error@,
            final(self).result.index_results@.len() == 0,
            final(self).result.indexes_processed == 0,
            final(self).result.database_name == old(self).result.database_name,
            final(self).result.manually_skipped == old(self).result.manually_skipped,
            final(self).events@ == old(self).events@,
            ev.profile_id@ == old(self).profile_id@,
            ev.message@ == old(self).db_name@ + ": "@ + error@,
    {
        proof {
            assert(!old(self).stopped);
        }
        self.fail_critically("Connection failed: ", error)
    }

    /// The connection is open; the probe comes next.
    pub fn on_connected(&mut self)
        requires
            old(self).wf(),
            old(self).phase == WorkerPhase::Connecting,
        ensures
            final(self).wf(),
            *final(self) == (DatabaseWorker { phase: WorkerPhase::Probing, ..*old(self) }),
    {
        self.phase = WorkerPhase::Probing;
    }

    /// The probe could not enumerate indexes: a critical failure.
    pub fn on_probe_failed(&mut self, error: String) -> (ev: MaintenanceErrorEvent)
        requires
            old(self).wf(),
            old(self).phase == WorkerPhase::Probing,
        ensures
            final(self).wf(),
            final(self).phase == WorkerPhase::Finished,
            final(self).result.critical_failure,
            !final(self).result.success,
            !final(self).stopped,
            final(self).result.errors@.len() == old(self).result.errors@.len() + 1,
            final(self).result.errors@.last()@ == "Failed to fetch indexes: "@ + error@,
            final(self).result.index_results@.len() == 0,
            final(self).result.indexes_processed == 0,
            final(self).result.database_name == old(self).result.database_name,
            final(self).result.manually_skipped == old(self).result.manually_skipped,
            final(self).events@ == old(self).events@,
            ev.profile_id@ == old(self).profile_id@,
            ev.message@ == old(self).db_name@ + ": "@ + error@,
    {
        proof {
            assert(!old(self).stopped);
        }
        self.fail_critically("Failed to fetch indexes: ", error)
    }

    /// The probe returned these indexes: announce each with an
    /// `index-found` event and enter the index loop.
    pub fn on_indexes(&mut self, indexes: Vec<IndexInfo>)
        requires
            old(self).wf(),
            old(self).phase == WorkerPhase::Probing,
            indexes@.len() <= u32::MAX,
        ensures
            final(self).wf(),
            final(self).phase == WorkerPhase::Working,
            final(self).probed,
            final(self).pos == 0,
            final(self).indexes == indexes,
            final(self).result == old(self).result,
            final(self).stopped == old(self).stopped,
            final(self).events@.len() == indexes@.len(),
            forall|i: int|
                0 <= i < indexes@.len() ==> ((#[trigger] final(self).events@[i])
                    matches WorkerEvent::Found(f) && index_info_like(f.index, indexes@[i])
                    && f.profile_id@ == old(self).profile_id@),
    {
        self.indexes = indexes;
        let n = self.indexes.len();
        let mut i: usize = 0;
        while i < n
            invariant
                i <= n,
                n == self.indexes@.len(),
                self.indexes == indexes,
                self.events@.len() == i,
                forall|j: int|
                    0 <= j < i ==> ((#[trigger] self.events@[j]) matches WorkerEvent::Found(f)
                        && index_info_like(f.index, self.indexes@[j]) && f.profile_id@
                        == self.profile_id@),
                self.profile_id == old(self).profile_id,
                self.db_name == old(self).db_name,
                self.indexes@.len() <= u32::MAX,
                self.result == old(self).result,
                self.phase == old(self).phase,
                self.stopped == old(self).stopped,
                self.probed == old(self).probed,
                self.op_pending == old(self).op_pending,
                self.pos == old(self).pos,
            decreases n - i,
        {
            let found = IndexFoundEvent {
                profile_id: copy_string(&self.profile_id),
                index: duplicate_index_info(&self.indexes[i]),
            };
            self.events.push(WorkerEvent::Found(found));
            i += 1;
        }
        self.probed = true;
        self.phase = WorkerPhase::Working;
    }

    /// At the head of the index loop, with the control state the
    /// caller just observed (Paused is resolved by the caller's
    /// polling, so it never arrives here): react to the control
    /// state, or classify the next index and either record it as
    /// skipped or hand its statement out for execution.
    pub fn next_index_step(
        &mut self,
        control: MaintenanceControl,
        options: &MaintenanceOptions,
    ) -> (directive: WorkerDirective)
        requires
            old(self).wf(),
            old(self).phase == WorkerPhase::Working,
            control != MaintenanceControl::Paused,
        ensures
            final(self).wf(),
            final(self).profile_id == old(self).profile_id,
            final(self).db_name == old(self).db_name,
            final(self).indexes == old(self).indexes,
            control is Stop ==> (directive is Stopped && final(self).stopped && final(self).phase
                is Finished && final(self).result == old(self).result && final(self).events@ == old(self).events@),
            control is SkipDatabase ==> (directive is SkippedDatabase && final(self).phase
                is Finished && final(self).result.manually_skipped && same_result_core(
                final(self).result,
                old(self).result,
            ) && final(self).events@ == old(self).events@ && final(self).stopped == old(self).stopped),
            control is Running && old(self).pos == old(self).indexes@.len() ==> (directive
                is DatabaseDone && final(self).phase is Finished && final(self).result == old(self).result && final(self).events@ == old(self).events@ && final(self).stopped == old(self).stopped),
            control is Running && old(self).pos < old(self).indexes@.len() && decide_action(
                old(self).indexes@[old(self).pos as int].fragmentation_centipercent,
                options.reorganize_threshold_centipercent,
                options.rebuild_threshold_centipercent,
            ) is Skip ==> (directive is SkippedIndex && final(self).phase is Working && final(self).pos == old(self).pos + 1 && final(self).result.indexes_processed == old(self).result.indexes_processed + 1 && final(self).result.indexes_skipped == old(self).result.indexes_skipped + 1 && final(self).result.indexes_rebuilt == old(self).result.indexes_rebuilt && final(self).result.indexes_reorganized == old(self).result.indexes_reorganized && final(self).result.success == old(self).result.success
                && final(self).result.errors@ == old(self).result.errors@ && final(self).result.index_results@.len() == old(self).result.index_results@.len() + 1 && final(self).result.index_results@.drop_last() == old(self).result.index_results@ && entry_matches(
                final(self).result.index_results@.last(),
                old(self).indexes@[old(self).pos as int],
                MaintenanceAction::Skip,
                true,
                0,
                0,
            ) && final(self).result.index_results@.last().error is None && final(self).events@.len() == old(self).events@.len() + 2 && (final(self).events@[old(self).events@.len() as int] matches WorkerEvent::Action(a) && a.action
                == MaintenanceAction::Skip) && (final(self).events@.last()
                matches WorkerEvent::Complete(c) && c.action == MaintenanceAction::Skip && c.success
                && c.duration_ms == 0 && c.retry_attempts == 0 && c.error is None)),
            control is Running && old(self).pos < old(self).indexes@.len() && !(decide_action(
                old(self).indexes@[old(self).pos as int].fragmentation_centipercent,
                options.reorganize_threshold_centipercent,
                options.rebuild_threshold_centipercent,
            ) is Skip) ==> (directive matches WorkerDirective::ExecuteSql { action, sql }
                && action == decide_action(
                old(self).indexes@[old(self).pos as int].fragmentation_centipercent,
                options.reorganize_threshold_centipercent,
                options.rebuild_threshold_centipercent,
            ) && sql@ == (if action is Rebuild {
                rebuild_sql_spec(
                    old(self).indexes@[old(self).pos as int].schema_name@,
                    old(self).indexes@[old(self).pos as int].table_name@,
                    old(self).indexes@[old(self).pos as int].index_name@,
                    options.rebuild_online,
                )
            } else {
                reorganize_sql_spec(
                    old(self).indexes@[old(self).pos as int].schema_name@,
                    old(self).indexes@[old(self).pos as int].table_name@,
                    old(self).indexes@[old(self).pos as int].index_name@,
                )
            }) && final(self).phase is AwaitingOp && final(self).pending_action == action && final(self).pos == old(self).pos && final(self).result == old(self).result && final(self).events@.len() == old(self).events@.len() + 1 && (final(self).events@.last()
                matches WorkerEvent::Action(a) && a.action == action && a.schema_name@ == old(self).indexes@[old(self).pos as int].schema_name@ && a.table_name@ == old(self).indexes@[old(self).pos as int].table_name@ && a.index_name@ == old(self).indexes@[old(self).pos as int].index_name@) && final(self).stopped == old(self).stopped),
    {
        match control {
            MaintenanceControl::Stop => {
                self.stopped = true;
                self.phase = WorkerPhase::Finished;
                WorkerDirective::Stopped
            },
            MaintenanceControl::SkipDatabase => {
                self.result.manually_skipped = true;
                self.phase = WorkerPhase::Finished;
                WorkerDirective::SkippedDatabase
            },
            _ => {
                if self.pos == self.indexes.len() {
                    self.phase = WorkerPhase::Finished;
                    return WorkerDirective::DatabaseDone;
                }
                let action = determine_action(
                    self.indexes[self.pos].fragmentation_centipercent,
                    options.reorganize_threshold_centipercent,
                    options.rebuild_threshold_centipercent,
                );
                let action_event = IndexActionEvent {
                    profile_id: copy_string(&self.profile_id),
                    db_name: copy_string(&self.indexes[self.pos].database_name),
                    schema_name: copy_string(&self.indexes[self.pos].schema_name),
                    table_name: copy_string(&self.indexes[self.pos].table_name),
                    index_name: copy_string(&self.indexes[self.pos].index_name),
                    action,
                };
                self.events.push(WorkerEvent::Action(action_event));
                match action {
                    MaintenanceAction::Skip => {
                        proof {
                            lemma_counts_bounds(self.result.index_results@);
                        }
                        let entry = IndexResult {
                            schema_name: copy_string(&self.indexes[self.pos].schema_name),
                            table_name: copy_string(&self.indexes[self.pos].table_name),
                            index_name: copy_string(&self.indexes[self.pos].index_name),
                            fragmentation_centipercent:
                                self.indexes[self.pos].fragmentation_centipercent,
                            page_count: self.indexes[self.pos].page_count,
                            action: MaintenanceAction::Skip,
                            success: true,
                            duration_ms: 0,
                            retry_attempts: 0,
                            error: None,
                        };
                        proof {
                            lemma_counts_push(self.result.index_results@, entry);
                        }
                        self.result.indexes_processed = self.result.indexes_processed + 1;
                        self.result.indexes_skipped = self.result.indexes_skipped + 1;
                        self.result.index_results.push(entry);
                        let complete_event = IndexCompleteEvent {
                            profile_id: copy_string(&self.profile_id),
                            db_name: copy_string(&self.indexes[self.pos].database_name),
                            schema_name: copy_string(&self.indexes[self.pos].schema_name),
                            table_name: copy_string(&self.indexes[self.pos].table_name),
                            index_name: copy_string(&self.indexes[self.pos].index_name),
                            action: MaintenanceAction::Skip,
                            success: true,
                            duration_ms: 0,
                            retry_attempts: 0,
                            error: None,
                        };
                        self.events.push(WorkerEvent::Complete(complete_event));
                        self.pos = self.pos + 1;
                        WorkerDirective::SkippedIndex
                    },
                    MaintenanceAction::Rebuild => {
                        let sql = rebuild_index_sql(
                            self.indexes[self.pos].schema_name.as_str(),
                            self.indexes[self.pos].table_name.as_str(),
                            self.indexes[self.pos].index_name.as_str(),
                            options.rebuild_online,
                        );
                        self.pending_action = MaintenanceAction::Rebuild;
                        self.op_pending = true;
                        self.phase = WorkerPhase::AwaitingOp;
                        WorkerDirective::ExecuteSql { action: MaintenanceAction::Rebuild, sql }
                    },
                    MaintenanceAction::Reorganize => {
                        let sql = reorganize_index_sql(
                            self.indexes[self.pos].schema_name.as_str(),
                            self.indexes[self.pos].table_name.as_str(),
                            self.indexes[self.pos].index_name.as_str(),
                        );
                        self.pending_action = MaintenanceAction::Reorganize;
                        self.op_pending = true;
                        self.phase = WorkerPhase::AwaitingOp;
                        WorkerDirective::ExecuteSql { action: MaintenanceAction::Reorganize, sql }
                    },
                }
            },
        }
    }

    /// A control signal arrived during the operation's backoff: the
    /// index in flight gets no terminal event and no result, and the
    /// database is left.  On Stop the run winds down; on
    /// SkipDatabase the caller resets the bus to Running.
    pub fn on_operation_interrupted(&mut self, control: MaintenanceControl)
        requires
            old(self).wf(),
            old(self).phase == WorkerPhase::AwaitingOp,
            control == MaintenanceControl::Stop || control == MaintenanceControl::SkipDatabase,
        ensures
            final(self).wf(),
            final(self).phase == WorkerPhase::Finished,
            final(self).events@ == old(self).events@,
            final(self).pos == old(self).pos,
            control is Stop ==> final(self).result == old(self).result && final(self).stopped,
            control is SkipDatabase ==> same_result_core(final(self).result, old(self).result)
                && final(self).result.manually_skipped && final(self).stopped == old(self).stopped,
    {
        match control {
            MaintenanceControl::Stop => {
                self.stopped = true;
            },
            _ => {
                self.result.manually_skipped = true;
            },
        }
        self.phase = WorkerPhase::Finished;
    }

    /// The operation exhausted its retries or hit a non-transient
    /// error: record the failure and move to the next index.
    pub fn on_operation_failed(&mut self, attempts: u32, duration_ms: u64, error: String)
        requires
            old(self).wf(),
            old(self).phase == WorkerPhase::AwaitingOp,
            attempts >= 1,
        ensures
            final(self).wf(),
            final(self).phase == WorkerPhase::Working,
            final(self).pos == old(self).pos + 1,
            !final(self).result.success,
            final(self).result.indexes_processed == old(self).result.indexes_processed + 1,
            final(self).result.indexes_rebuilt == old(self).result.indexes_rebuilt,
            final(self).result.indexes_reorganized == old(self).result.indexes_reorganized,
            final(self).result.indexes_skipped == old(self).result.indexes_skipped,
            final(self).result.errors@.len() == old(self).result.errors@.len() + 1,
            final(self).result.errors@.last()@ == old(self).indexes@[old(
                self,
            ).pos as int].schema_name@ + "."@ + old(self).indexes@[old(self).pos as int].table_name@
                + "."@ + old(self).indexes@[old(self).pos as int].index_name@ + ": "@ + error@,
            final(self).result.index_results@.len() == old(self).result.index_results@.len() + 1,
            final(self).result.index_results@.drop_last() == old(self).result.index_results@,
            entry_matches(
                final(self).result.index_results@.last(),
                old(self).indexes@[old(self).pos as int],
                old(self).pending_action,
                false,
                duration_ms,
                attempts,
            ),
            (final(self).result.index_results@.last().error matches Some(m) && m@ == error@),
            final(self).events@.len() == old(self).events@.len() + 1,
            (final(self).events@.last() matches WorkerEvent::Complete(c) && !c.success && c.action
                == old(self).pending_action && c.duration_ms == duration_ms && c.retry_attempts
                == attempts && (c.error matches Some(m) && m@ == error@)),
            final(self).stopped == old(self).stopped,
            final(self).result.manually_skipped == old(self).result.manually_skipped,
            final(self).result.critical_failure == old(self).result.critical_failure,
            final(self).result.database_name == old(self).result.database_name,
            final(self).indexes == old(self).indexes,
    {
        proof {
            lemma_counts_bounds(self.result.index_results@);
        }
        self.result.success = false;
        let mut qualified = copy_string(&self.indexes[self.pos].schema_name);
        qualified.append(".");
        qualified.append(self.indexes[self.pos].table_name.as_str());
        qualified.append(".");
        qualified.append(self.indexes[self.pos].index_name.as_str());
        qualified.append(": ");
        qualified.append(error.as_str());
        self.result.errors.push(qualified);
        let entry = IndexResult {
            schema_name: copy_string(&self.indexes[self.pos].schema_name),
            table_name: copy_string(&self.indexes[self.pos].table_name),
            index_name: copy_string(&self.indexes[self.pos].index_name),
            fragmentation_centipercent: self.indexes[self.pos].fragmentation_centipercent,
            page_count: self.indexes[self.pos].page_count,
            action: self.pending_action,
            success: false,
            duration_ms,
            retry_attempts: attempts,
            error: Some(copy_string(&error)),
        };
        proof {
            lemma_counts_push(self.result.index_results@, entry);
        }
        self.result.indexes_processed = self.result.indexes_processed + 1;
        self.result.index_results.push(entry);
        let complete_event = IndexCompleteEvent {
            profile_id: copy_string(&self.profile_id),
            db_name: copy_string(&self.indexes[self.pos].database_name),
            schema_name: copy_string(&self.indexes[self.pos].schema_name),
            table_name: copy_string(&self.indexes[self.pos].table_name),
            index_name: copy_string(&self.indexes[self.pos].index_name),
            action: self.pending_action,
            success: false,
            duration_ms,
            retry_attempts: attempts,
            error: Some(error),
        };
        self.events.push(WorkerEvent::Complete(complete_event));
        self.op_pending = false;
        self.pos = self.pos + 1;
        self.phase = WorkerPhase::Working;
    }

    /// The operation succeeded: bump the counter for its action,
    /// record the result, and hand back the best-effort statistics
    /// refresh for the caller to run.
    pub fn on_operation_succeeded(&mut self, attempts: u32, duration_ms: u64) -> (stats_sql:
        String)
        requires
            old(self).wf(),
            old(self).phase == WorkerPhase::AwaitingOp,
            attempts >= 1,
            old(self).pending_action == MaintenanceAction::Rebuild || old(self).pending_action
                == MaintenanceAction::Reorganize,
        ensures
            final(self).wf(),
            final(self).phase == WorkerPhase::Working,
            final(self).pos == old(self).pos + 1,
            final(self).result.success == old(self).result.success,
            final(self).result.errors@ == old(self).result.errors@,
            final(self).result.indexes_processed == old(self).result.indexes_processed + 1,
            old(self).pending_action is Rebuild ==> final(self).result.indexes_rebuilt == old(
                self,
            ).result.indexes_rebuilt + 1 && final(self).result.indexes_reorganized == old(
                self,
            ).result.indexes_reorganized,
            old(self).pending_action is Reorganize ==> final(self).result.indexes_reorganized
                == old(self).result.indexes_reorganized + 1 && final(self).result.indexes_rebuilt
                == old(self).result.indexes_rebuilt,
            final(self).result.indexes_skipped == old(self).result.indexes_skipped,
            final(self).result.index_results@.len() == old(self).result.index_results@.len() + 1,
            final(self).result.index_results@.drop_last() == old(self).result.index_results@,
            entry_matches(
                final(self).result.index_results@.last(),
                old(self).indexes@[old(self).pos as int],
                old(self).pending_action,
                true,
                duration_ms,
                attempts,
            ),
            final(self).result.index_results@.last().error is None,
            final(self).events@.len() == old(self).events@.len() + 1,
            (final(self).events@.last() matches WorkerEvent::Complete(c) && c.success && c.action
                == old(self).pending_action && c.duration_ms == duration_ms && c.retry_attempts
                == attempts && c.error is None),
            stats_sql@ == update_statistics_sql_spec(
                old(self).indexes@[old(self).pos as int].schema_name@,
                old(self).indexes@[old(self).pos as int].table_name@,
                old(self).indexes@[old(self).pos as int].index_name@,
            ),
            final(self).stopped == old(self).stopped,
            final(self).result.manually_skipped == old(self).result.manually_skipped,
            final(self).result.critical_failure == old(self).result.critical_failure,
            final(self).result.database_name == old(self).result.database_name,
            final(self).indexes == old(self).indexes,
    {
        proof {
            lemma_counts_bounds(self.result.index_results@);
        }
        let entry = IndexResult {
            schema_name: copy_string(&self.indexes[self.pos].schema_name),
            table_name: copy_string(&self.indexes[self.pos].table_name),
            index_name: copy_string(&self.indexes[self.pos].index_name),
            fragmentation_centipercent: self.indexes[self.pos].fragmentation_centipercent,
            page_count: self.indexes[self.pos].page_count,
            action: self.pending_action,
            success: true,
            duration_ms,
            retry_attempts: attempts,
            error: None,
        };
        proof {
            lemma_counts_push(self.result.index_results@, entry);
        }
        match self.pending_action {
            MaintenanceAction::Rebuild => {
                self.result.indexes_rebuilt = self.result.indexes_rebuilt + 1;
            },
            _ => {
                self.result.indexes_reorganized = self.result.indexes_reorganized + 1;
            },
        }
        self.result.indexes_processed = self.result.indexes_processed + 1;
        self.result.index_results.push(entry);
        let complete_event = IndexCompleteEvent {
            profile_id: copy_string(&self.profile_id),
            db_name: copy_string(&self.indexes[self.pos].database_name),
            schema_name: copy_string(&self.indexes[self.pos].schema_name),
            table_name: copy_string(&self.indexes[self.pos].table_name),
            index_name: copy_string(&self.indexes[self.pos].index_name),
            action: self.pending_action,
            success: true,
            duration_ms,
            retry_attempts: attempts,
            error: None,
        };
        self.events.push(WorkerEvent::Complete(complete_event));
        let stats_sql = update_statistics_sql(
            self.indexes[self.pos].schema_name.as_str(),
            self.indexes[self.pos].table_name.as_str(),
            self.indexes[self.pos].index_name.as_str(),
        );
        self.op_pending = false;
        self.pos = self.pos + 1;
        self.phase = WorkerPhase::Working;
        stats_sql
    }

    /// Whether to issue the best-effort plan-cache flush: only when
    /// asked for, and only when this database actually changed
    /// something.
    pub fn needs_proc_cache_flush(&self, options: &MaintenanceOptions) -> (flush: bool)
        ensures
            flush == (options.free_proc_cache && (self.result.indexes_rebuilt > 0
                || self.result.indexes_reorganized > 0)),
    {
        options.free_proc_cache && (self.result.indexes_rebuilt > 0
            || self.result.indexes_reorganized > 0)
    }

    /// Close the worker: stamp the wall-clock duration and hand the
    /// result out, along with whether the run should stop.  The
    /// counters partition the processed count, and a critical
    /// failure carries no per-index record.
    pub fn finish(self, total_duration_ms: u64) -> (r: (DatabaseResult, bool))
        requires
            self.wf(),
            self.phase == WorkerPhase::Finished,
        ensures
            r.1 == self.stopped,
            r.0.database_name == self.result.database_name,
            r.0.success == self.result.success,
            r.0.indexes_processed == self.result.indexes_processed,
            r.0.indexes_rebuilt == self.result.indexes_rebuilt,
            r.0.indexes_reorganized == self.result.indexes_reorganized,
            r.0.indexes_skipped == self.result.indexes_skipped,
            r.0.total_duration_ms == total_duration_ms,
            r.0.errors == self.result.errors,
            r.0.critical_failure == self.result.critical_failure,
            r.0.manually_skipped == self.result.manually_skipped,
            r.0.index_results == self.result.index_results,
            r.0.indexes_processed == r.0.indexes_rebuilt + r.0.indexes_reorganized
                + r.0.indexes_skipped + counts_failed(r.0.index_results@),
            r.0.critical_failure ==> r.0.indexes_processed == 0 && r.0.index_results@.len() == 0,
    {
        proof {
            lemma_counters_partition(self.result.index_results@);
        }
        let DatabaseWorker { result: mut result, stopped, .. } = self;
        result.total_duration_ms = total_duration_ms;
        (result, stopped)
    }

    /// The stream of a worker, wrapped in its `db-start` (and, when
    /// no operation was left unmatched, its `db-complete`), is a
    /// valid prefix of the per-database event grammar; without an
    /// unmatched operation it is a full word of it.
    pub proof fn lemma_event_stream_valid(
        self,
        start: DbStartEvent,
        done: DbCompleteEvent,
    )
        requires
            self.wf(),
        ensures
            valid_database_stream_prefix(wrap_worker_stream(start, self.events@, None)),
            !self.op_pending ==> database_stream_word(
                wrap_worker_stream(start, self.events@, Some(done)),
                self.founds(),
                self.result.index_results@.len() as int,
            ),
            !self.op_pending ==> valid_database_stream_prefix(
                wrap_worker_stream(start, self.events@, Some(done)),
            ),
    {
        lemma_open_stream_is_prefix(
            start,
            self.events@,
            self.founds(),
            self.result.index_results@.len() as int,
            self.op_pending,
        );
        if !self.op_pending {
            lemma_completed_stream_is_word(
                start,
                self.events@,
                done,
                self.founds(),
                self.result.index_results@.len() as int,
            );
        }
    }
}

} // verus!
