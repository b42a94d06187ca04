//! Progress events and the shape of a database's event stream.
//!
//! For one database the stream is `db-start`, then one `index-found`
//! per probed index, then an `index-action` / `index-complete` pair
//! per index that reached a terminal event, then `db-complete`.  A
//! worker interrupted between an `index-action` and its
//! `index-complete` leaves that one action unmatched; in every other
//! case the stream is a prefix of a full word of that grammar.

use vstd::prelude::*;
use vstd::seq_lib::*;
use crate::types::{DatabaseResult, IndexInfo, MaintenanceAction, MaintenanceSummary};

verus! {

/// A control-state change, mirrored to the UI.
#[derive(Debug, Clone)]
pub struct ControlEvent {
    pub profile_id: String,
    pub state: String,
}

/// A database is about to be worked on.
#[derive(Debug, Clone)]
pub struct DbStartEvent {
    pub profile_id: String,
    pub db_name: String,
    pub current: u32,
    pub total: u32,
}

/// One fragmented index reported by the probe.
#[derive(Debug, Clone)]
pub struct IndexFoundEvent {
    pub profile_id: String,
    pub index: IndexInfo,
}

/// The action chosen for one index, announced before it runs.
#[derive(Debug, Clone)]
pub struct IndexActionEvent {
    pub profile_id: String,
    pub db_name: String,
    pub schema_name: String,
    pub table_name: String,
    pub index_name: String,
    pub action: MaintenanceAction,
}

/// The terminal event of one index.
#[derive(Debug, Clone)]
pub struct IndexCompleteEvent {
    pub profile_id: String,
    pub db_name: String,
    pub schema_name: String,
    pub table_name: String,
    pub index_name: String,
    pub action: MaintenanceAction,
    pub success: bool,
    pub duration_ms: u64,
    pub retry_attempts: u32,
    pub error: Option<String>,
}

/// A database's worker finished and produced its result.
#[derive(Debug, Clone)]
pub struct DbCompleteEvent {
    pub profile_id: String,
    pub result: DatabaseResult,
}

/// The whole run finished and produced its summary.
#[derive(Debug, Clone)]
pub struct MaintenanceFinishedEvent {
    pub profile_id: String,
    pub summary: MaintenanceSummary,
}

/// A database-level failure that prevented per-index work.
#[derive(Debug, Clone)]
pub struct MaintenanceErrorEvent {
    pub profile_id: String,
    pub message: String,
}

/// An event emitted by one database's worker, between `db-start` and
/// `db-complete`.
#[derive(Debug, Clone)]
pub enum WorkerEvent {
    Found(IndexFoundEvent),
    Action(IndexActionEvent),
    Complete(IndexCompleteEvent),
}

/// An event of one database's full stream.
#[derive(Debug, Clone)]
pub enum DatabaseEvent {
    Start(DbStartEvent),
    Found(IndexFoundEvent),
    Action(IndexActionEvent),
    Complete(IndexCompleteEvent),
    Done(DbCompleteEvent),
}

/// The exact shape of a worker's event stream: `founds` found
/// events, then `pairs` action/complete pairs, then one unmatched
/// action when an operation is in flight.
pub open spec fn worker_stream_shape(
    s: Seq<WorkerEvent>,
    founds: int,
    pairs: int,
    pending: bool,
) -> bool {
    &&& founds >= 0
    &&& pairs >= 0
    &&& s.len() == founds + 2 * pairs + (if pending {
        1int
    } else {
        0int
    })
    &&& (forall|i: int| 0 <= i < founds ==> s[i] is Found)
    &&& (forall|i: int|
        founds <= i < s.len() ==> if (i - founds) % 2 == 0 {
            s[i] is Action
        } else {
            s[i] is Complete
        })
}

/// A full word of the per-database event grammar: `db-start`, some
/// `index-found`s, some `index-action`/`index-complete` pairs, and
/// `db-complete`.
pub open spec fn database_stream_word(s: Seq<DatabaseEvent>, founds: int, pairs: int) -> bool {
    &&& founds >= 0
    &&& pairs >= 0
    &&& s.len() == 2 + founds + 2 * pairs
    &&& s[0] is Start
    &&& s[s.len() - 1] is Done
    &&& (forall|i: int| 1 <= i < 1 + founds ==> s[i] is Found)
    &&& (forall|i: int|
        1 + founds <= i < s.len() - 1 ==> if (i - 1 - founds) % 2 == 0 {
            s[i] is Action
        } else {
            s[i] is Complete
        })
}

/// The stream seen so far is a prefix of some full word of the
/// grammar.
pub open spec fn valid_database_stream_prefix(s: Seq<DatabaseEvent>) -> bool {
    exists|t: Seq<DatabaseEvent>, founds: int, pairs: int|
        database_stream_word(t, founds, pairs) && s.is_prefix_of(t)
}

/// Wrap a worker's events between a `db-start` and, when no
/// operation is left unmatched, a `db-complete`.
pub open spec fn wrap_worker_stream(
    start: DbStartEvent,
    s: Seq<WorkerEvent>,
    done: Option<DbCompleteEvent>,
) -> Seq<DatabaseEvent> {
    seq![DatabaseEvent::Start(start)] + s.map_values(
        |e: WorkerEvent|
            match e {
                WorkerEvent::Found(p) => DatabaseEvent::Found(p),
                WorkerEvent::Action(p) => DatabaseEvent::Action(p),
                WorkerEvent::Complete(p) => DatabaseEvent::Complete(p),
            },
    ) + (match done {
        Some(d) => seq![DatabaseEvent::Done(d)],
        None => Seq::empty(),
    })
}

/// A worker stream with no operation in flight, wrapped with its
/// `db-start` and `db-complete`, is a full word of the grammar.
pub proof fn lemma_completed_stream_is_word(
    start: DbStartEvent,
    s: Seq<WorkerEvent>,
    done: DbCompleteEvent,
    founds: int,
    pairs: int,
)
    requires
        worker_stream_shape(s, founds, pairs, false),
    ensures
        database_stream_word(wrap_worker_stream(start, s, Some(done)), founds, pairs),
        valid_database_stream_prefix(wrap_worker_stream(start, s, Some(done))),
{
    let t = wrap_worker_stream(start, s, Some(done));
    assert(t.len() == 2 + founds + 2 * pairs);
    assert(t[0] is Start);
    assert(t[t.len() - 1] is Done);
    assert forall|i: int| 1 <= i < 1 + founds implies t[i] is Found by {
        assert(s[i - 1] is Found);
    }
    assert forall|i: int|
        1 + founds <= i < t.len() - 1 implies (if (i - 1 - founds) % 2 == 0 {
        t[i] is Action
    } else {
        t[i] is Complete
    }) by {
        assert(if (i - 1 - founds) % 2 == 0 {
            s[i - 1] is Action
        } else {
            s[i - 1] is Complete
        });
    }
    assert(t.is_prefix_of(t));
    assert(database_stream_word(t, founds, pairs) && t.is_prefix_of(t));
}

/// A worker stream still in progress (or abandoned after an
/// interrupt at a pair boundary or mid-pair), wrapped with its
/// `db-start`, is a prefix of a full word of the grammar.
pub proof fn lemma_open_stream_is_prefix(
    start: DbStartEvent,
    s: Seq<WorkerEvent>,
    founds: int,
    pairs: int,
    pending: bool,
)
    requires
        worker_stream_shape(s, founds, pairs, pending),
    ensures
        valid_database_stream_prefix(wrap_worker_stream(start, s, None)),
{
    let u = wrap_worker_stream(start, s, None);
    if pending {
        let completion = IndexCompleteEvent {
            profile_id: arbitrary(),
            db_name: arbitrary(),
            schema_name: arbitrary(),
            table_name: arbitrary(),
            index_name: arbitrary(),
            action: arbitrary(),
            success: arbitrary(),
            duration_ms: arbitrary(),
            retry_attempts: arbitrary(),
            error: arbitrary(),
        };
        let s2 = s.push(WorkerEvent::Complete(completion));
        assert(worker_stream_shape(s2, founds, pairs + 1, false)) by {
            assert(forall|i: int| 0 <= i < s.len() ==> s2[i] == s[i]);
            assert(s2[s.len() as int] is Complete);
        }
        lemma_completed_stream_is_word(
            start,
            s2,
            DbCompleteEvent { profile_id: arbitrary(), result: arbitrary() },
            founds,
            pairs + 1,
        );
        let t = wrap_worker_stream(start, s2, Some(
            DbCompleteEvent { profile_id: arbitrary(), result: arbitrary() },
        ));
        assert(u.len() <= t.len());
        assert(forall|i: int| 0 <= i < u.len() ==> u[i] == t[i]);
        assert(u.is_prefix_of(t));
    } else {
        lemma_completed_stream_is_word(
            start,
            s,
            DbCompleteEvent { profile_id: arbitrary(), result: arbitrary() },
            founds,
            pairs,
        );
        let t = wrap_worker_stream(start, s, Some(
            DbCompleteEvent { profile_id: arbitrary(), result: arbitrary() },
        ));
        assert(u.len() <= t.len());
        assert(forall|i: int| 0 <= i < u.len() ==> u[i] == t[i]);
        assert(u.is_prefix_of(t));
    }
}

} // verus!
