use indexxorcist::control::{ControlRegistry, MaintenanceControl};
use indexxorcist::coordinator::{build_summary, lookup_bus, make_skipped_result, order_results,
    start_run, RunSequencer, SequencerDirective};
use indexxorcist::retry::{run_retry, AttemptOutcome, RetryRunResult};
use indexxorcist::types::{DatabaseResult, IndexInfo, MaintenanceAction, MaintenanceOptions};
use indexxorcist::worker::{DatabaseWorker, WorkerDirective};

fn index(db: &str, name: &str, frag_centipercent: u64) -> IndexInfo {
    IndexInfo {
        database_name: db.to_string(),
        schema_name: "dbo".to_string(),
        table_name: "T".to_string(),
        index_name: name.to_string(),
        fragmentation_centipercent: frag_centipercent,
        page_count: 500,
    }
}

fn plain_result(db: &str, rebuilt: u32, reorganized: u32, skipped: u32) -> DatabaseResult {
    DatabaseResult {
        database_name: db.to_string(),
        success: true,
        indexes_processed: rebuilt + reorganized + skipped,
        indexes_rebuilt: rebuilt,
        indexes_reorganized: reorganized,
        indexes_skipped: skipped,
        total_duration_ms: 0,
        errors: vec![],
        critical_failure: false,
        manually_skipped: false,
        index_results: vec![],
    }
}

#[test]
fn summary_counts_and_sums() {
    let mut failed = plain_result("B", 0, 0, 0);
    failed.success = false;
    failed.critical_failure = true;
    let mut skipped = plain_result("C", 0, 0, 0);
    skipped.manually_skipped = true;
    let results = vec![plain_result("A", 2, 3, 4), failed, skipped, plain_result("D", 1, 0, 1)];
    let summary = build_summary(results, 5500);
    assert_eq!(summary.databases_processed, 4);
    assert_eq!(summary.databases_failed, 1);
    assert_eq!(summary.databases_skipped, 1);
    assert_eq!(summary.total_indexes_rebuilt, 3);
    assert_eq!(summary.total_indexes_reorganized, 3);
    assert_eq!(summary.total_indexes_skipped, 5);
    assert_eq!(summary.total_duration_ms, 5500);
    assert_eq!(summary.database_results.len(), 4);
    assert_eq!(summary.database_results[0].database_name, "A");
    assert_eq!(summary.database_results[3].database_name, "D");
}

#[test]
fn empty_run_yields_empty_summary() {
    let seq = RunSequencer::new(Vec::new());
    assert!(seq.is_complete());
    let summary = build_summary(seq.results, 3);
    assert_eq!(summary.databases_processed, 0);
    assert_eq!(summary.databases_failed, 0);
    assert_eq!(summary.databases_skipped, 0);
    assert_eq!(summary.total_indexes_rebuilt, 0);
    assert!(summary.database_results.is_empty());
}

#[test]
fn skipped_result_is_clean() {
    let r = make_skipped_result("Sales");
    assert_eq!(r.database_name, "Sales");
    assert!(r.success);
    assert!(r.manually_skipped);
    assert!(!r.critical_failure);
    assert_eq!(r.indexes_processed, 0);
    assert!(r.index_results.is_empty());
    assert!(r.errors.is_empty());
}

// Parallel completion order differs from input order; the summary
// order must match the input order.
#[test]
fn parallel_results_are_reordered() {
    let pairs = vec![
        (2usize, plain_result("C", 1, 0, 0)),
        (0usize, plain_result("A", 0, 1, 0)),
        (1usize, plain_result("B", 0, 0, 1)),
    ];
    let ordered = order_results(pairs);
    let names: Vec<&str> = ordered.iter().map(|r| r.database_name.as_str()).collect();
    assert_eq!(names, vec!["A", "B", "C"]);
}

#[test]
fn run_request_validation() {
    let mut registry: ControlRegistry<u32> = ControlRegistry::new();
    let mut bad = MaintenanceOptions::default();
    bad.reorganize_threshold_centipercent = 0;
    let err = start_run(&mut registry, &"p1".to_string(), &bad, 7).unwrap_err();
    assert_eq!(err, "Fragmentation thresholds must be positive");

    let good = MaintenanceOptions::default();
    assert!(start_run(&mut registry, &"p1".to_string(), &good, 7).is_ok());
    // a second run for the same profile is rejected while the first is active
    let err = start_run(&mut registry, &"p1".to_string(), &good, 8).unwrap_err();
    assert_eq!(err, "Maintenance run is already active for this profile");
    // a different profile is fine
    assert!(start_run(&mut registry, &"p2".to_string(), &good, 9).is_ok());
}

#[test]
fn bus_lookup_and_lifecycle() {
    let mut registry: ControlRegistry<u32> = ControlRegistry::new();
    let err = lookup_bus(&registry, &"p1".to_string()).unwrap_err();
    assert_eq!(err, "No active maintenance run for this profile");
    assert!(registry.insert(&"p1".to_string(), 41));
    assert_eq!(lookup_bus(&registry, &"p1".to_string()).map(|v| *v), Ok(41));
    // at most one bus per profile id at any time
    assert!(!registry.insert(&"p1".to_string(), 42));
    assert_eq!(lookup_bus(&registry, &"p1".to_string()).map(|v| *v), Ok(41));
    // removed on finish; a new run may then register again
    registry.remove(&"p1".to_string());
    assert!(lookup_bus(&registry, &"p1".to_string()).is_err());
    assert!(registry.insert(&"p1".to_string(), 43));
}

fn drive_database(
    seq: &mut RunSequencer,
    profile_id: &str,
    indexes: Vec<IndexInfo>,
    skip_after: Option<u32>,
    options: &MaintenanceOptions,
) -> u32 {
    let (db_name, _current, _total) = match seq.next(MaintenanceControl::Running) {
        SequencerDirective::StartDatabase { db_name, current, total } => (db_name, current, total),
        _ => panic!("expected a database dispatch"),
    };
    let mut w = DatabaseWorker::new(profile_id.to_string(), db_name);
    w.on_connected();
    w.on_indexes(indexes);
    let mut completes: u32 = 0;
    loop {
        let control = if Some(completes) == skip_after {
            MaintenanceControl::SkipDatabase
        } else {
            MaintenanceControl::Running
        };
        match w.next_index_step(control, options) {
            WorkerDirective::SkippedIndex => {
                completes += 1;
            },
            WorkerDirective::SkippedDatabase => break,
            WorkerDirective::Stopped => break,
            WorkerDirective::DatabaseDone => break,
            WorkerDirective::ExecuteSql { .. } => {
                w.on_operation_succeeded(1, 10);
                completes += 1;
            },
        }
    }
    let (result, should_stop) = w.finish(50);
    seq.on_db_complete(result, should_stop);
    completes
}

// Two databases A (5 indexes) and B (2 indexes); SkipDatabase is
// published after A's second completion.  A's result keeps its
// partial counters and is marked manually skipped; B runs to
// completion; the summary lists A then B with one skipped database.
#[test]
fn skip_database_mid_loop() {
    let options = MaintenanceOptions::default();
    let mut seq = RunSequencer::new(vec!["A".to_string(), "B".to_string()]);

    let a_indexes: Vec<IndexInfo> =
        (0..5).map(|k| index("A", &format!("IX_{k}"), 500)).collect();
    let completes = drive_database(&mut seq, "p1", a_indexes, Some(2), &options);
    assert_eq!(completes, 2);

    let b_indexes: Vec<IndexInfo> =
        (0..2).map(|k| index("B", &format!("IX_{k}"), 500)).collect();
    drive_database(&mut seq, "p1", b_indexes, None, &options);

    assert!(seq.is_complete());
    assert!(!seq.stopped);
    let summary = build_summary(seq.results, 100);
    assert_eq!(summary.databases_processed, 2);
    assert_eq!(summary.databases_skipped, 1);
    assert_eq!(summary.database_results[0].database_name, "A");
    assert_eq!(summary.database_results[1].database_name, "B");
    let a = &summary.database_results[0];
    assert_eq!(a.indexes_processed, 2);
    assert!(a.manually_skipped);
    assert!(a.success);
    let b = &summary.database_results[1];
    assert_eq!(b.indexes_processed, 2);
    assert!(!b.manually_skipped);
}

// A stop during the first retry backoff: the index in flight gets no
// terminal event, the partial result is produced with should_stop,
// and no further database is dispatched.
#[test]
fn stop_during_retry_backoff() {
    let mut options = MaintenanceOptions::default();
    options.request_timeout_ms = 50;
    let mut seq = RunSequencer::new(vec!["A".to_string(), "B".to_string()]);

    let db_name = match seq.next(MaintenanceControl::Running) {
        SequencerDirective::StartDatabase { db_name, .. } => db_name,
        _ => panic!("expected a database dispatch"),
    };
    let mut w = DatabaseWorker::new("p1".to_string(), db_name);
    w.on_connected();
    w.on_indexes(vec![index("A", "IX_low", 500), index("A", "IX_hanging", 4500)]);

    // the first index is below the reorganize threshold and is recorded
    assert!(matches!(w.next_index_step(MaintenanceControl::Running, &options),
        WorkerDirective::SkippedIndex));

    // the second index hangs: every attempt times out, and a stop
    // arrives during the first backoff sleep
    match w.next_index_step(MaintenanceControl::Running, &options) {
        WorkerDirective::ExecuteSql { .. } => {},
        _ => panic!("expected an execution directive"),
    }
    let outcomes = vec![AttemptOutcome::TimedOut, AttemptOutcome::TimedOut,
        AttemptOutcome::TimedOut];
    let interrupts = vec![Some(MaintenanceControl::Stop), None, None];
    let trace = run_retry(&outcomes, &interrupts, &options);
    let control = match trace.result {
        RetryRunResult::Interrupted { control, attempts } => {
            assert_eq!(attempts, 1);
            control
        },
        _ => panic!("expected an interrupt"),
    };
    w.on_operation_interrupted(control);

    let events = w.events.len();
    let (result, should_stop) = w.finish(80);
    assert!(should_stop);
    // the hanging index produced an action event but no completion
    // and no result; the partial counters stand
    assert_eq!(events, 2 + 2 + 1);
    assert_eq!(result.indexes_processed, 1);
    assert_eq!(result.indexes_skipped, 1);
    assert_eq!(result.index_results.len(), 1);
    assert_eq!(result.index_results[0].action, MaintenanceAction::Skip);

    seq.on_db_complete(result, should_stop);
    // the run is over: B is never dispatched, and the one stopped
    // control signal has been accounted for
    assert!(seq.is_complete());
    assert!(seq.stopped);
    assert_eq!(seq.results.len(), 1);
    let summary = build_summary(seq.results, 90);
    assert_eq!(summary.databases_processed, 1);
    assert_eq!(summary.databases_skipped, 0);
}

// SkipDatabase observed before a database starts: a synthetic
// skipped result is recorded and the run goes on.
#[test]
fn skip_database_before_start() {
    let options = MaintenanceOptions::default();
    let mut seq = RunSequencer::new(vec!["A".to_string(), "B".to_string()]);
    match seq.next(MaintenanceControl::SkipDatabase) {
        SequencerDirective::RecordedSkip { result } => {
            assert_eq!(result.database_name, "A");
            assert!(result.manually_skipped);
        },
        _ => panic!("expected a recorded skip"),
    }
    drive_database(&mut seq, "p1", vec![index("B", "IX", 500)], None, &options);
    assert!(seq.is_complete());
    let summary = build_summary(seq.results, 10);
    assert_eq!(summary.databases_processed, 2);
    assert_eq!(summary.databases_skipped, 1);
    assert_eq!(summary.database_results[0].database_name, "A");
}

#[test]
fn dispatch_numbers_databases_from_one() {
    let mut seq = RunSequencer::new(vec!["A".to_string(), "B".to_string(), "C".to_string()]);
    match seq.next(MaintenanceControl::Running) {
        SequencerDirective::StartDatabase { db_name, current, total } => {
            assert_eq!(db_name, "A");
            assert_eq!(current, 1);
            assert_eq!(total, 3);
        },
        _ => panic!("expected a database dispatch"),
    }
    seq.on_db_complete(plain_result("A", 0, 0, 0), false);
    match seq.next(MaintenanceControl::Running) {
        SequencerDirective::StartDatabase { db_name, current, total } => {
            assert_eq!(db_name, "B");
            assert_eq!(current, 2);
            assert_eq!(total, 3);
        },
        _ => panic!("expected a database dispatch"),
    }
}

#[test]
fn stop_before_start_ends_run() {
    let mut seq = RunSequencer::new(vec!["A".to_string(), "B".to_string()]);
    assert!(matches!(seq.next(MaintenanceControl::Stop), SequencerDirective::StopRun));
    assert!(seq.is_complete());
    assert!(seq.stopped);
    assert!(seq.results.is_empty());
}
