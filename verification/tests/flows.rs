use tier_tracker::error::TrackerError;
use tier_tracker::command::parse_command;
use tier_tracker::flow::{dispatch, start, step, Event, Flow, Request, Trigger};
use tier_tracker::outcome::apply_plan;
use tier_tracker::reconcile;
use tier_tracker::roles::{Community, GrantStep, Membership, RoleHandle};
use tier_tracker::store::{PlayerKey, TrackedPlayer, TrackedPlayerStore};
use tier_tracker::sync::{RoleCall, RoleReply, RoleSync};
use tier_tracker::tier::TierMarker;

/// The outside world of a flow, held in memory, with a count of what was
/// asked of it.
struct World {
    identity: Result<String, TrackerError>,
    tier: Result<TierMarker, TrackerError>,
    store: TrackedPlayerStore,
    store_fails: bool,
    roles_fail: bool,
    community: Community,
    membership: Membership,
    next_role_id: u64,
    resolver_calls: usize,
    store_reads: usize,
    store_writes: usize,
    role_calls: Vec<RoleCall>,
    reconciliations: usize,
}

fn world(community: Community, membership: Membership) -> World {
    World {
        identity: Err(TrackerError::NotFound),
        tier: Err(TrackerError::NotFound),
        store: TrackedPlayerStore::new(),
        store_fails: false,
        roles_fail: false,
        community,
        membership,
        next_role_id: 1000,
        resolver_calls: 0,
        store_reads: 0,
        store_writes: 0,
        role_calls: Vec::new(),
        reconciliations: 0,
    }
}

fn run_roles(w: &mut World, desired: TierMarker) -> Result<(), TrackerError> {
    w.reconciliations += 1;
    let plan = reconcile(&w.community, &w.membership, desired);
    let mut sync = RoleSync::begin(plan);
    loop {
        match sync.pending() {
            None => return sync.result().unwrap(),
            Some(call) => {
                w.role_calls.push(call);
                let reply = if w.roles_fail {
                    RoleReply::Failed
                } else {
                    match call {
                        RoleCall::Revoke { role_id } => {
                            w.membership.revoke(role_id);
                            RoleReply::Applied
                        }
                        RoleCall::Grant { role_id } => {
                            w.membership.grant(role_id);
                            RoleReply::Applied
                        }
                        RoleCall::Create { tier, hoist } => {
                            assert!(hoist);
                            let id = w.next_role_id;
                            w.next_role_id += 1;
                            w.community.add_role(id, tier.label().unwrap());
                            RoleReply::Created { role_id: id }
                        }
                    }
                };
                sync.record(reply);
            }
        }
    }
}

/// Runs a trigger to its end and gives the request it ended with.
fn run(w: &mut World, trigger: Trigger) -> Request {
    let (mut flow, mut request) = start(trigger);
    loop {
        let event = match request {
            Request::ResolveIdentity { handle: _ } => {
                w.resolver_calls += 1;
                match w.identity.clone() {
                    Ok(identifier) => Event::Identity { identifier },
                    Err(error) => Event::ResolveFailed { error },
                }
            }
            Request::ResolveTier { identifier: _ } => {
                w.resolver_calls += 1;
                match w.tier {
                    Ok(tier) => Event::Tier { tier },
                    Err(error) => Event::ResolveFailed { error },
                }
            }
            Request::Load { key } => {
                w.store_reads += 1;
                if w.store_fails {
                    Event::StoreFailed
                } else {
                    Event::Loaded { player: w.store.get(key) }
                }
            }
            Request::Save { player } => {
                w.store_writes += 1;
                if w.store_fails {
                    Event::StoreFailed
                } else {
                    w.store.upsert(player);
                    Event::Stored
                }
            }
            Request::Delete { key } => {
                w.store_writes += 1;
                if w.store_fails {
                    Event::StoreFailed
                } else {
                    w.store.delete(key);
                    Event::Stored
                }
            }
            Request::Reconcile { key, desired } => {
                assert_eq!(key.member_id, w.membership.member_id);
                match run_roles(w, desired) {
                    Ok(()) => Event::Reconciled,
                    Err(_) => Event::ReconcileFailed,
                }
            }
            ended => {
                assert!(flow.has_ended());
                return ended;
            }
        };
        let (next_flow, next_request) = step(flow, event);
        flow = next_flow;
        request = next_request;
    }
}

fn key() -> PlayerKey {
    PlayerKey { community_id: 900, member_id: 42 }
}

fn role(id: u64, label: &str) -> RoleHandle {
    RoleHandle { id, label: label.to_string() }
}

fn sorted(mut roles: Vec<u64>) -> Vec<u64> {
    roles.sort();
    roles.dedup();
    roles
}

#[test]
fn track_creates_the_role_grants_it_and_keeps_the_player() {
    let mut w = world(
        Community { id: 900, roles: vec![role(1, "Moderator"), role(2, "GOLD")] },
        Membership { member_id: 42, roles: vec![1] },
    );
    w.identity = Ok("abc123".to_string());
    w.tier = Ok(TierMarker::Diamond);
    let end = run(&mut w, Trigger::Track { key: key(), handle: "Faker".to_string() });
    assert_eq!(end, Request::Done);
    assert_eq!(
        w.role_calls,
        vec![
            RoleCall::Create { tier: TierMarker::Diamond, hoist: true },
            RoleCall::Grant { role_id: 1000 },
        ]
    );
    assert_eq!(
        w.community.roles,
        vec![role(1, "Moderator"), role(2, "GOLD"), role(1000, "DIAMOND")]
    );
    assert_eq!(sorted(w.membership.roles.clone()), vec![1, 1000]);
    assert_eq!(
        w.store.get(key()),
        Some(TrackedPlayer {
            key: key(),
            player_identifier: "abc123".to_string(),
            tier: TierMarker::Diamond,
        })
    );
    assert_eq!(w.store.len(), 1);
}

#[test]
fn track_asks_for_the_handle_then_for_the_identifier() {
    let (flow, first) = start(Trigger::Track { key: key(), handle: "Faker".to_string() });
    assert_eq!(first, Request::ResolveIdentity { handle: "Faker".to_string() });
    assert_eq!(flow, Flow::TrackIdentity { key: key() });
    let (flow, second) = step(flow, Event::Identity { identifier: "abc123".to_string() });
    assert_eq!(second, Request::ResolveTier { identifier: "abc123".to_string() });
    let (flow, third) = step(flow, Event::Tier { tier: TierMarker::Diamond });
    assert_eq!(
        third,
        Request::Save {
            player: TrackedPlayer {
                key: key(),
                player_identifier: "abc123".to_string(),
                tier: TierMarker::Diamond,
            },
        }
    );
    let (flow, fourth) = step(flow, Event::Stored);
    assert_eq!(fourth, Request::Reconcile { key: key(), desired: TierMarker::Diamond });
    assert!(!flow.has_ended());
    let (flow, fifth) = step(flow, Event::Reconciled);
    assert_eq!(fifth, Request::Done);
    assert!(flow.has_ended());
    let (flow, sixth) = step(flow, Event::Reconciled);
    assert_eq!(sixth, Request::Idle);
    assert_eq!(flow, Flow::Ended);
}

#[test]
fn track_replaces_the_tier_role_held_before() {
    let mut w = world(
        Community { id: 900, roles: vec![role(1, "SILVER"), role(2, "GOLD")] },
        Membership { member_id: 42, roles: vec![1] },
    );
    w.store.upsert(TrackedPlayer {
        key: key(),
        player_identifier: "old".to_string(),
        tier: TierMarker::Silver,
    });
    w.identity = Ok("abc123".to_string());
    w.tier = Ok(TierMarker::Gold);
    let end = run(&mut w, Trigger::Track { key: key(), handle: "Faker".to_string() });
    assert_eq!(end, Request::Done);
    assert_eq!(
        w.role_calls,
        vec![RoleCall::Revoke { role_id: 1 }, RoleCall::Grant { role_id: 2 }]
    );
    assert_eq!(sorted(w.membership.roles.clone()), vec![2]);
    assert_eq!(w.store.get(key()).unwrap().player_identifier, "abc123");
    assert_eq!(w.store.get(key()).unwrap().tier, TierMarker::Gold);
}

#[test]
fn track_keeps_nothing_when_the_handle_is_unknown() {
    let mut w = world(
        Community { id: 900, roles: vec![role(2, "GOLD")] },
        Membership { member_id: 42, roles: vec![2] },
    );
    w.identity = Err(TrackerError::NotFound);
    let end = run(&mut w, Trigger::Track { key: key(), handle: "Nobody".to_string() });
    assert_eq!(end, Request::Fail { error: TrackerError::NotFound, visible: true });
    assert_eq!(w.resolver_calls, 1);
    assert_eq!(w.store_writes, 0);
    assert_eq!(w.reconciliations, 0);
    assert_eq!(w.store.len(), 0);
    assert_eq!(w.membership.roles, vec![2]);
}

#[test]
fn track_keeps_nothing_when_the_tier_cannot_be_resolved() {
    let mut w = world(
        Community { id: 900, roles: vec![] },
        Membership { member_id: 42, roles: vec![] },
    );
    w.identity = Ok("abc123".to_string());
    w.tier = Err(TrackerError::AuthError);
    let end = run(&mut w, Trigger::Track { key: key(), handle: "Faker".to_string() });
    assert_eq!(end, Request::Fail { error: TrackerError::AuthError, visible: true });
    assert_eq!(w.resolver_calls, 2);
    assert_eq!(w.store_writes, 0);
    assert_eq!(w.reconciliations, 0);
    assert_eq!(w.store.len(), 0);
}

#[test]
fn track_stops_when_the_store_fails() {
    let mut w = world(
        Community { id: 900, roles: vec![] },
        Membership { member_id: 42, roles: vec![] },
    );
    w.identity = Ok("abc123".to_string());
    w.tier = Ok(TierMarker::Iron);
    w.store_fails = true;
    let end = run(&mut w, Trigger::Track { key: key(), handle: "Faker".to_string() });
    assert_eq!(end, Request::Fail { error: TrackerError::StoreError, visible: true });
    assert_eq!(w.reconciliations, 0);
    assert!(w.role_calls.is_empty());
}

#[test]
fn track_keeps_the_record_when_the_roles_fail() {
    let mut w = world(
        Community { id: 900, roles: vec![role(1, "SILVER")] },
        Membership { member_id: 42, roles: vec![1] },
    );
    w.identity = Ok("abc123".to_string());
    w.tier = Ok(TierMarker::Iron);
    w.roles_fail = true;
    let end = run(&mut w, Trigger::Track { key: key(), handle: "Faker".to_string() });
    assert_eq!(end, Request::Fail { error: TrackerError::RoleMutationError, visible: true });
    assert_eq!(w.role_calls, vec![RoleCall::Revoke { role_id: 1 }]);
    assert_eq!(w.store.get(key()).unwrap().tier, TierMarker::Iron);
    assert_eq!(w.store_writes, 1);
}

#[test]
fn untrack_revokes_the_tier_role_and_deletes_the_player() {
    let mut w = world(
        Community { id: 900, roles: vec![role(1, "Moderator"), role(2, "GOLD"), role(3, "IRON")] },
        Membership { member_id: 42, roles: vec![2, 1] },
    );
    w.store.upsert(TrackedPlayer {
        key: key(),
        player_identifier: "abc123".to_string(),
        tier: TierMarker::Gold,
    });
    let end = run(&mut w, Trigger::Untrack { key: key() });
    assert_eq!(end, Request::Done);
    assert_eq!(w.role_calls, vec![RoleCall::Revoke { role_id: 2 }]);
    assert_eq!(sorted(w.membership.roles.clone()), vec![1]);
    assert_eq!(w.store.get(key()), None);
    assert_eq!(w.store.len(), 0);
    assert_eq!(w.resolver_calls, 0);
    assert_eq!(w.community.roles.len(), 3);
}

#[test]
fn untrack_of_a_member_who_is_not_tracked_still_clears() {
    let mut w = world(
        Community { id: 900, roles: vec![role(2, "GOLD")] },
        Membership { member_id: 42, roles: vec![2] },
    );
    let end = run(&mut w, Trigger::Untrack { key: key() });
    assert_eq!(end, Request::Done);
    assert_eq!(w.role_calls, vec![RoleCall::Revoke { role_id: 2 }]);
    assert!(w.membership.roles.is_empty());
}

#[test]
fn untrack_stops_when_the_store_fails() {
    let mut w = world(
        Community { id: 900, roles: vec![role(2, "GOLD")] },
        Membership { member_id: 42, roles: vec![2] },
    );
    w.store_fails = true;
    let end = run(&mut w, Trigger::Untrack { key: key() });
    assert_eq!(end, Request::Fail { error: TrackerError::StoreError, visible: true });
    assert!(w.role_calls.is_empty());
    assert_eq!(w.membership.roles, vec![2]);
}

#[test]
fn presence_of_an_untracked_member_does_nothing() {
    let mut w = world(
        Community { id: 900, roles: vec![role(2, "GOLD")] },
        Membership { member_id: 42, roles: vec![2] },
    );
    w.identity = Ok("abc123".to_string());
    w.tier = Ok(TierMarker::Diamond);
    let end = run(&mut w, Trigger::Presence { key: key() });
    assert_eq!(end, Request::Done);
    assert_eq!(w.store_reads, 1);
    assert_eq!(w.resolver_calls, 0);
    assert_eq!(w.store_writes, 0);
    assert_eq!(w.reconciliations, 0);
    assert!(w.role_calls.is_empty());
    assert_eq!(w.membership.roles, vec![2]);
    assert_eq!(w.store.len(), 0);
}

#[test]
fn presence_with_an_unchanged_tier_changes_nothing() {
    let mut w = world(
        Community { id: 900, roles: vec![role(1, "SILVER"), role(2, "GOLD")] },
        Membership { member_id: 42, roles: vec![1] },
    );
    let kept = TrackedPlayer {
        key: key(),
        player_identifier: "abc123".to_string(),
        tier: TierMarker::Silver,
    };
    w.store.upsert(kept.clone());
    w.tier = Ok(TierMarker::Silver);
    let end = run(&mut w, Trigger::Presence { key: key() });
    assert_eq!(end, Request::Done);
    assert_eq!(w.resolver_calls, 1);
    assert_eq!(w.store_writes, 0);
    assert_eq!(w.reconciliations, 0);
    assert!(w.role_calls.is_empty());
    assert_eq!(w.membership.roles, vec![1]);
    assert_eq!(w.store.get(key()), Some(kept));
}

#[test]
fn presence_with_a_changed_tier_writes_and_reconciles() {
    let mut w = world(
        Community { id: 900, roles: vec![role(1, "SILVER"), role(2, "GOLD")] },
        Membership { member_id: 42, roles: vec![1, 7] },
    );
    w.store.upsert(TrackedPlayer {
        key: key(),
        player_identifier: "abc123".to_string(),
        tier: TierMarker::Silver,
    });
    w.tier = Ok(TierMarker::Gold);
    let end = run(&mut w, Trigger::Presence { key: key() });
    assert_eq!(end, Request::Done);
    assert_eq!(w.store_writes, 1);
    assert_eq!(
        w.store.get(key()),
        Some(TrackedPlayer {
            key: key(),
            player_identifier: "abc123".to_string(),
            tier: TierMarker::Gold,
        })
    );
    assert_eq!(
        w.role_calls,
        vec![RoleCall::Revoke { role_id: 1 }, RoleCall::Grant { role_id: 2 }]
    );
    assert_eq!(sorted(w.membership.roles.clone()), vec![2, 7]);
}

#[test]
fn presence_asks_for_the_tier_of_the_identifier_on_record() {
    let (flow, first) = start(Trigger::Presence { key: key() });
    assert_eq!(first, Request::Load { key: key() });
    let (flow, second) = step(
        flow,
        Event::Loaded {
            player: Some(TrackedPlayer {
                key: key(),
                player_identifier: "abc123".to_string(),
                tier: TierMarker::Silver,
            }),
        },
    );
    assert_eq!(second, Request::ResolveTier { identifier: "abc123".to_string() });
    assert_eq!(
        flow,
        Flow::PresenceTier {
            key: key(),
            identifier: "abc123".to_string(),
            tier: TierMarker::Silver,
        }
    );
}

#[test]
fn presence_failures_are_not_shown() {
    let mut w = world(
        Community { id: 900, roles: vec![] },
        Membership { member_id: 42, roles: vec![] },
    );
    w.store_fails = true;
    let end = run(&mut w, Trigger::Presence { key: key() });
    assert_eq!(end, Request::Fail { error: TrackerError::StoreError, visible: false });

    let mut w = world(
        Community { id: 900, roles: vec![] },
        Membership { member_id: 42, roles: vec![] },
    );
    w.store.upsert(TrackedPlayer {
        key: key(),
        player_identifier: "abc123".to_string(),
        tier: TierMarker::Silver,
    });
    w.tier = Err(TrackerError::UpstreamError);
    let end = run(&mut w, Trigger::Presence { key: key() });
    assert_eq!(end, Request::Fail { error: TrackerError::UpstreamError, visible: false });
    assert_eq!(w.store_writes, 0);

    w.tier = Ok(TierMarker::Gold);
    w.roles_fail = true;
    let end = run(&mut w, Trigger::Presence { key: key() });
    assert_eq!(end, Request::Fail { error: TrackerError::RoleMutationError, visible: false });
    assert_eq!(w.store.get(key()).unwrap().tier, TierMarker::Gold);
}

#[test]
fn an_event_that_is_no_answer_fails_the_request() {
    let (flow, _) = start(Trigger::Track { key: key(), handle: "Faker".to_string() });
    let (flow, request) = step(flow, Event::Stored);
    assert_eq!(request, Request::Fail { error: TrackerError::UpstreamError, visible: true });
    assert!(flow.has_ended());

    let (flow, _) = start(Trigger::Untrack { key: key() });
    let (_, request) = step(flow, Event::Tier { tier: TierMarker::Gold });
    assert_eq!(request, Request::Fail { error: TrackerError::StoreError, visible: true });

    let (flow, _) = start(Trigger::Presence { key: key() });
    let (_, request) = step(flow, Event::Reconciled);
    assert_eq!(request, Request::Fail { error: TrackerError::StoreError, visible: false });

    let (flow, _) = start(Trigger::Untrack { key: key() });
    let (flow, _) = step(flow, Event::Stored);
    let (_, request) = step(flow, Event::Stored);
    assert_eq!(request, Request::Fail { error: TrackerError::RoleMutationError, visible: true });
}

#[test]
fn a_resolved_tier_of_untracked_is_no_answer() {
    let (flow, _) = start(Trigger::Track { key: key(), handle: "Faker".to_string() });
    let (flow, _) = step(flow, Event::Identity { identifier: "abc123".to_string() });
    let (_, request) = step(flow, Event::Tier { tier: TierMarker::Untracked });
    assert_eq!(request, Request::Fail { error: TrackerError::UpstreamError, visible: true });
}

#[test]
fn a_failure_of_the_resolver_keeps_its_kind() {
    for (given, shown) in [
        (TrackerError::NotFound, TrackerError::NotFound),
        (TrackerError::AuthError, TrackerError::AuthError),
        (TrackerError::UpstreamError, TrackerError::UpstreamError),
        (TrackerError::StoreError, TrackerError::UpstreamError),
        (TrackerError::RoleMutationError, TrackerError::UpstreamError),
    ] {
        let (flow, _) = start(Trigger::Track { key: key(), handle: "Faker".to_string() });
        let (_, request) = step(flow, Event::ResolveFailed { error: given });
        assert_eq!(request, Request::Fail { error: shown, visible: true });
    }
}

#[test]
fn a_plan_applied_at_once_leaves_what_the_run_leaves() {
    let c = Community { id: 900, roles: vec![role(1, "SILVER"), role(2, "IRON")] };
    let m = Membership { member_id: 42, roles: vec![2, 1, 5] };
    let mut w = world(c.clone(), m.clone());
    run_roles(&mut w, TierMarker::Challenger).unwrap();
    let mut c2 = c.clone();
    let mut m2 = m.clone();
    let plan = reconcile(&c2, &m2, TierMarker::Challenger);
    assert_eq!(plan.grant, GrantStep::Create { tier: TierMarker::Challenger, hoist: true });
    apply_plan(&mut c2, &mut m2, &plan, 1000);
    assert_eq!(c2, w.community);
    assert_eq!(sorted(m2.roles), sorted(w.membership.roles));
}

#[test]
fn commands_set_off_their_triggers() {
    assert_eq!(
        dispatch(parse_command("!track Hide on bush"), key()),
        Some(Trigger::Track { key: key(), handle: "Hide on bush".to_string() })
    );
    assert_eq!(dispatch(parse_command("!untrack"), key()), Some(Trigger::Untrack { key: key() }));
    assert_eq!(dispatch(parse_command("!ping"), key()), None);
    assert_eq!(dispatch(parse_command("good morning"), key()), None);
}
