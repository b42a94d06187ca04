use indexxorcist::policy::determine_action;
use indexxorcist::types::MaintenanceAction;

// Thresholds reorganize=10%, rebuild=30%: fragmentations 5.0, 10.0,
// 29.9, 30.0, 100.0 classify as Skip, Reorganize, Reorganize,
// Rebuild, Rebuild.
#[test]
fn threshold_classification() {
    let reorg = 1000;
    let rebuild = 3000;
    assert_eq!(determine_action(500, reorg, rebuild), MaintenanceAction::Skip);
    assert_eq!(determine_action(1000, reorg, rebuild), MaintenanceAction::Reorganize);
    assert_eq!(determine_action(2990, reorg, rebuild), MaintenanceAction::Reorganize);
    assert_eq!(determine_action(3000, reorg, rebuild), MaintenanceAction::Rebuild);
    assert_eq!(determine_action(10000, reorg, rebuild), MaintenanceAction::Rebuild);
}

// Misordered thresholds reorganize=40%, rebuild=10%: the effective
// rebuild cutoff is 40%, so a rebuild threshold below reorganize
// never disables rebuild.  45.0 rebuilds; 40.0 rebuilds rather than
// reorganizes; 35.0 sits below the reorganize threshold and is
// skipped.
#[test]
fn misordered_thresholds() {
    let reorg = 4000;
    let rebuild = 1000;
    assert_eq!(determine_action(4500, reorg, rebuild), MaintenanceAction::Rebuild);
    assert_eq!(determine_action(4000, reorg, rebuild), MaintenanceAction::Rebuild);
    assert_eq!(determine_action(3500, reorg, rebuild), MaintenanceAction::Skip);
}

#[test]
fn boundary_is_inclusive() {
    // At exactly the reorganize threshold the index is reorganized;
    // at exactly the effective rebuild threshold it is rebuilt.
    assert_eq!(determine_action(1000, 1000, 3000), MaintenanceAction::Reorganize);
    assert_eq!(determine_action(3000, 1000, 3000), MaintenanceAction::Rebuild);
    assert_eq!(determine_action(999, 1000, 3000), MaintenanceAction::Skip);
}

#[test]
fn equal_thresholds_never_reorganize() {
    assert_eq!(determine_action(2000, 2000, 2000), MaintenanceAction::Rebuild);
    assert_eq!(determine_action(1999, 2000, 2000), MaintenanceAction::Skip);
}
