//! Fragmentation policy: map a fragmentation reading and the two
//! thresholds to a remediation action.

use vstd::prelude::*;
use crate::types::MaintenanceAction;

verus! {

/// The rebuild cutoff actually applied: an operator-supplied rebuild
/// threshold below the reorganize threshold never disables rebuild.
pub open spec fn effective_rebuild_threshold(
    reorganize_threshold: u64,
    rebuild_threshold: u64,
) -> u64 {
    if rebuild_threshold >= reorganize_threshold {
        rebuild_threshold
    } else {
        reorganize_threshold
    }
}

/// The action the policy owes for a given fragmentation reading.
pub open spec fn decide_action(
    fragmentation: u64,
    reorganize_threshold: u64,
    rebuild_threshold: u64,
) -> MaintenanceAction {
    if fragmentation >= effective_rebuild_threshold(reorganize_threshold, rebuild_threshold) {
        MaintenanceAction::Rebuild
    } else if fragmentation >= reorganize_threshold {
        MaintenanceAction::Reorganize
    } else {
        MaintenanceAction::Skip
    }
}

/// Choose the remediation for one index.  All quantities are in
/// hundredths of a percent.
pub fn determine_action(
    fragmentation_centipercent: u64,
    reorganize_threshold_centipercent: u64,
    rebuild_threshold_centipercent: u64,
) -> (action: MaintenanceAction)
    ensures
        action == decide_action(
            fragmentation_centipercent,
            reorganize_threshold_centipercent,
            rebuild_threshold_centipercent,
        ),
{
    let effective_rebuild: u64 = if rebuild_threshold_centipercent
        >= reorganize_threshold_centipercent {
        rebuild_threshold_centipercent
    } else {
        reorganize_threshold_centipercent
    };
    if fragmentation_centipercent >= effective_rebuild {
        MaintenanceAction::Rebuild
    } else if fragmentation_centipercent >= reorganize_threshold_centipercent {
        MaintenanceAction::Reorganize
    } else {
        MaintenanceAction::Skip
    }
}

/// With misordered thresholds (rebuild below reorganize), any
/// fragmentation at or above the effective rebuild cutoff is assigned
/// Rebuild, never Reorganize: the policy cannot choose Reorganize for
/// an index that also qualifies for the effective rebuild threshold.
pub proof fn lemma_misordered_thresholds_never_reorganize(
    fragmentation: u64,
    reorganize_threshold: u64,
    rebuild_threshold: u64,
)
    requires
        rebuild_threshold < reorganize_threshold,
        fragmentation >= effective_rebuild_threshold(reorganize_threshold, rebuild_threshold),
    ensures
        decide_action(fragmentation, reorganize_threshold, rebuild_threshold)
            == MaintenanceAction::Rebuild,
{
}

} // verus!
