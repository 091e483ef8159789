use tier_tracker::error::TrackerError;
use tier_tracker::roles::{GrantStep, ReconcilePlan};
use tier_tracker::sync::{RoleCall, RoleReply, RoleSync, SyncStage};
use tier_tracker::tier::TierMarker;

fn plan(revoke: Vec<u64>, grant: GrantStep) -> ReconcilePlan {
    ReconcilePlan { revoke, grant }
}

#[test]
fn a_run_revokes_in_order_then_creates_then_grants() {
    let mut sync = RoleSync::begin(plan(
        vec![4, 6],
        GrantStep::Create { tier: TierMarker::Diamond, hoist: true },
    ));
    assert_eq!(sync.result(), None);
    assert_eq!(sync.pending(), Some(RoleCall::Revoke { role_id: 4 }));
    sync.record(RoleReply::Applied);
    assert_eq!(sync.pending(), Some(RoleCall::Revoke { role_id: 6 }));
    sync.record(RoleReply::Applied);
    assert_eq!(
        sync.pending(),
        Some(RoleCall::Create { tier: TierMarker::Diamond, hoist: true })
    );
    sync.record(RoleReply::Created { role_id: 31 });
    assert_eq!(sync.pending(), Some(RoleCall::Grant { role_id: 31 }));
    assert_eq!(sync.result(), None);
    sync.record(RoleReply::Applied);
    assert_eq!(sync.pending(), None);
    assert_eq!(sync.result(), Some(Ok(())));
    assert_eq!(sync.stage, SyncStage::Finished);
}

#[test]
fn a_run_with_an_existing_role_grants_it() {
    let mut sync = RoleSync::begin(plan(vec![], GrantStep::Existing { role_id: 2 }));
    assert_eq!(sync.pending(), Some(RoleCall::Grant { role_id: 2 }));
    sync.record(RoleReply::Applied);
    assert_eq!(sync.result(), Some(Ok(())));
}

#[test]
fn a_run_with_nothing_to_do_is_finished_at_once() {
    let sync = RoleSync::begin(plan(vec![], GrantStep::Nothing));
    assert_eq!(sync.pending(), None);
    assert_eq!(sync.result(), Some(Ok(())));
}

#[test]
fn a_run_that_only_clears_ends_after_the_last_revocation() {
    let mut sync = RoleSync::begin(plan(vec![7], GrantStep::Nothing));
    assert_eq!(sync.pending(), Some(RoleCall::Revoke { role_id: 7 }));
    sync.record(RoleReply::Applied);
    assert_eq!(sync.pending(), None);
    assert_eq!(sync.result(), Some(Ok(())));
}

#[test]
fn a_failed_revocation_ends_the_run() {
    let mut sync = RoleSync::begin(plan(vec![4, 6], GrantStep::Existing { role_id: 2 }));
    sync.record(RoleReply::Applied);
    sync.record(RoleReply::Failed);
    assert_eq!(sync.pending(), None);
    assert_eq!(sync.result(), Some(Err(TrackerError::RoleMutationError)));
    sync.record(RoleReply::Applied);
    assert_eq!(sync.pending(), None);
    assert_eq!(sync.result(), Some(Err(TrackerError::RoleMutationError)));
    assert_eq!(sync.stage, SyncStage::Failed);
}

#[test]
fn a_failed_creation_ends_the_run() {
    let mut sync = RoleSync::begin(plan(
        vec![],
        GrantStep::Create { tier: TierMarker::Iron, hoist: true },
    ));
    sync.record(RoleReply::Failed);
    assert_eq!(sync.result(), Some(Err(TrackerError::RoleMutationError)));
}

#[test]
fn a_failed_grant_ends_the_run() {
    let mut sync = RoleSync::begin(plan(vec![], GrantStep::Existing { role_id: 2 }));
    sync.record(RoleReply::Failed);
    assert_eq!(sync.pending(), None);
    assert_eq!(sync.result(), Some(Err(TrackerError::RoleMutationError)));
}

#[test]
fn an_answer_that_does_not_fit_the_call_counts_as_a_failure() {
    let mut sync = RoleSync::begin(plan(vec![4], GrantStep::Nothing));
    sync.record(RoleReply::Created { role_id: 1 });
    assert_eq!(sync.result(), Some(Err(TrackerError::RoleMutationError)));

    let mut sync = RoleSync::begin(plan(
        vec![],
        GrantStep::Create { tier: TierMarker::Iron, hoist: true },
    ));
    sync.record(RoleReply::Applied);
    assert_eq!(sync.result(), Some(Err(TrackerError::RoleMutationError)));
}

#[test]
fn a_finished_run_stays_finished() {
    let mut sync = RoleSync::begin(plan(vec![], GrantStep::Nothing));
    sync.record(RoleReply::Failed);
    assert_eq!(sync.result(), Some(Ok(())));
    assert_eq!(sync.pending(), None);
}
