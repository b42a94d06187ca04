use indexxorcist::control::MaintenanceControl;
use indexxorcist::events::WorkerEvent;
use indexxorcist::types::{IndexInfo, MaintenanceAction, MaintenanceOptions};
use indexxorcist::worker::{DatabaseWorker, WorkerDirective};

fn index(db: &str, name: &str, frag_centipercent: u64) -> IndexInfo {
    IndexInfo {
        database_name: db.to_string(),
        schema_name: "dbo".to_string(),
        table_name: "T".to_string(),
        index_name: name.to_string(),
        fragmentation_centipercent: frag_centipercent,
        page_count: 500,
    }
}

fn options() -> MaintenanceOptions {
    MaintenanceOptions::default()
}

#[test]
fn connect_failure_is_critical() {
    let mut w = DatabaseWorker::new("p1".to_string(), "Sales".to_string());
    let ev = w.on_connect_failed("login rejected".to_string());
    assert_eq!(ev.profile_id, "p1");
    assert_eq!(ev.message, "Sales: login rejected");
    let (result, should_stop) = w.finish(42);
    assert!(!should_stop);
    assert!(result.critical_failure);
    assert!(!result.success);
    assert_eq!(result.indexes_processed, 0);
    assert!(result.index_results.is_empty());
    assert_eq!(result.errors, vec!["Connection failed: login rejected".to_string()]);
    assert_eq!(result.total_duration_ms, 42);
}

#[test]
fn probe_failure_is_critical() {
    let mut w = DatabaseWorker::new("p1".to_string(), "Sales".to_string());
    w.on_connected();
    let ev = w.on_probe_failed("probe blew up".to_string());
    assert_eq!(ev.message, "Sales: probe blew up");
    let (result, _) = w.finish(7);
    assert!(result.critical_failure);
    assert_eq!(result.errors, vec!["Failed to fetch indexes: probe blew up".to_string()]);
}

#[test]
fn low_fragmentation_indexes_are_skipped() {
    let mut w = DatabaseWorker::new("p1".to_string(), "Sales".to_string());
    w.on_connected();
    w.on_indexes(vec![index("Sales", "IX_A", 500), index("Sales", "IX_B", 900)]);
    let opts = options();
    assert!(matches!(w.next_index_step(MaintenanceControl::Running, &opts),
        WorkerDirective::SkippedIndex));
    assert!(matches!(w.next_index_step(MaintenanceControl::Running, &opts),
        WorkerDirective::SkippedIndex));
    assert!(matches!(w.next_index_step(MaintenanceControl::Running, &opts),
        WorkerDirective::DatabaseDone));
    let (result, should_stop) = w.finish(10);
    assert!(!should_stop);
    assert!(result.success);
    assert_eq!(result.indexes_processed, 2);
    assert_eq!(result.indexes_skipped, 2);
    assert_eq!(result.indexes_rebuilt, 0);
    assert_eq!(result.indexes_reorganized, 0);
    assert_eq!(result.index_results.len(), 2);
    assert!(result.index_results.iter().all(|r| r.success
        && r.action == MaintenanceAction::Skip && r.retry_attempts == 0 && r.duration_ms == 0));
}

#[test]
fn rebuild_and_reorganize_paths() {
    let mut w = DatabaseWorker::new("p1".to_string(), "Sales".to_string());
    w.on_connected();
    w.on_indexes(vec![index("Sales", "IX_Hot", 4500), index("Sales", "IX_Warm", 1500)]);
    let opts = options();

    // 45% fragmentation: rebuild, online by default
    match w.next_index_step(MaintenanceControl::Running, &opts) {
        WorkerDirective::ExecuteSql { action, sql } => {
            assert_eq!(action, MaintenanceAction::Rebuild);
            assert_eq!(sql, "ALTER INDEX [IX_Hot] ON [dbo].[T] REBUILD WITH (ONLINE = ON);");
        },
        _ => panic!("expected a rebuild statement"),
    }
    let stats = w.on_operation_succeeded(2, 1234);
    assert_eq!(stats, "UPDATE STATISTICS [dbo].[T] [IX_Hot] WITH FULLSCAN;");

    // 15% fragmentation: reorganize
    match w.next_index_step(MaintenanceControl::Running, &opts) {
        WorkerDirective::ExecuteSql { action, sql } => {
            assert_eq!(action, MaintenanceAction::Reorganize);
            assert_eq!(sql, "ALTER INDEX [IX_Warm] ON [dbo].[T] REORGANIZE;");
        },
        _ => panic!("expected a reorganize statement"),
    }
    w.on_operation_failed(3, 900, "Permission denied".to_string());

    assert!(matches!(w.next_index_step(MaintenanceControl::Running, &opts),
        WorkerDirective::DatabaseDone));
    let (result, should_stop) = w.finish(2200);
    assert!(!should_stop);
    assert!(!result.success);
    assert_eq!(result.indexes_processed, 2);
    assert_eq!(result.indexes_rebuilt, 1);
    assert_eq!(result.indexes_reorganized, 0);
    assert_eq!(result.indexes_skipped, 0);
    assert_eq!(result.errors, vec!["dbo.T.IX_Warm: Permission denied".to_string()]);
    let failed = &result.index_results[1];
    assert!(!failed.success);
    assert_eq!(failed.retry_attempts, 3);
    assert_eq!(failed.duration_ms, 900);
    assert_eq!(failed.error.as_deref(), Some("Permission denied"));
    // UPDATE STATISTICS failure never marks the index as failed: the
    // first result stayed successful regardless of what the caller
    // did with the statistics statement.
    assert!(result.index_results[0].success);
}

// The event stream for one database: every found index is announced,
// then each handled index gets an action and a completion, in order.
#[test]
fn event_stream_shape() {
    let mut w = DatabaseWorker::new("p1".to_string(), "Sales".to_string());
    w.on_connected();
    w.on_indexes(vec![index("Sales", "IX_A", 4500), index("Sales", "IX_B", 200)]);
    let opts = options();
    match w.next_index_step(MaintenanceControl::Running, &opts) {
        WorkerDirective::ExecuteSql { .. } => {},
        _ => panic!("expected an execution directive"),
    }
    w.on_operation_succeeded(1, 10);
    assert!(matches!(w.next_index_step(MaintenanceControl::Running, &opts),
        WorkerDirective::SkippedIndex));
    let kinds: Vec<&str> = w.events.iter().map(|e| match e {
        WorkerEvent::Found(_) => "found",
        WorkerEvent::Action(_) => "action",
        WorkerEvent::Complete(_) => "complete",
    }).collect();
    assert_eq!(kinds, vec!["found", "found", "action", "complete", "action", "complete"]);
}

// An interrupt between an action and its completion leaves the
// action unmatched and the index unprocessed.
#[test]
fn interrupt_leaves_no_terminal_event() {
    let mut w = DatabaseWorker::new("p1".to_string(), "Sales".to_string());
    w.on_connected();
    w.on_indexes(vec![index("Sales", "IX_A", 4500), index("Sales", "IX_B", 4500)]);
    let opts = options();
    match w.next_index_step(MaintenanceControl::Running, &opts) {
        WorkerDirective::ExecuteSql { .. } => {},
        _ => panic!("expected an execution directive"),
    }
    w.on_operation_interrupted(MaintenanceControl::Stop);
    // the action event stands alone, with no completion after it
    let kinds: Vec<&str> = w.events.iter().map(|e| match e {
        WorkerEvent::Found(_) => "found",
        WorkerEvent::Action(_) => "action",
        WorkerEvent::Complete(_) => "complete",
    }).collect();
    assert_eq!(kinds, vec!["found", "found", "action"]);
    let (result, should_stop) = w.finish(100);
    assert!(should_stop);
    assert_eq!(result.indexes_processed, 0);
    assert!(result.index_results.is_empty());
    assert!(!result.manually_skipped);
}

#[test]
fn stop_at_loop_head() {
    let mut w = DatabaseWorker::new("p1".to_string(), "Sales".to_string());
    w.on_connected();
    w.on_indexes(vec![index("Sales", "IX_A", 4500)]);
    let opts = options();
    assert!(matches!(w.next_index_step(MaintenanceControl::Stop, &opts),
        WorkerDirective::Stopped));
    let (result, should_stop) = w.finish(5);
    assert!(should_stop);
    assert_eq!(result.indexes_processed, 0);
}

#[test]
fn proc_cache_flush_policy() {
    let mut opts = options();
    let mut w = DatabaseWorker::new("p1".to_string(), "Sales".to_string());
    w.on_connected();
    w.on_indexes(vec![index("Sales", "IX_A", 4500)]);
    // nothing changed yet
    opts.free_proc_cache = true;
    assert!(!w.needs_proc_cache_flush(&opts));
    match w.next_index_step(MaintenanceControl::Running, &opts) {
        WorkerDirective::ExecuteSql { .. } => {},
        _ => panic!("expected an execution directive"),
    }
    w.on_operation_succeeded(1, 10);
    assert!(w.needs_proc_cache_flush(&opts));
    opts.free_proc_cache = false;
    assert!(!w.needs_proc_cache_flush(&opts));
}
