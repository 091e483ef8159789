use tier_tracker::outcome::apply_plan;
use tier_tracker::roles::{Community, GrantStep, Membership, RoleHandle};
use tier_tracker::tier::{vocabulary, TierMarker};
use tier_tracker::{clear_current_role, reconcile, update_role};

fn role(id: u64, label: &str) -> RoleHandle {
    RoleHandle { id, label: label.to_string() }
}

fn community(roles: Vec<RoleHandle>) -> Community {
    Community { id: 900, roles }
}

fn member(roles: Vec<u64>) -> Membership {
    Membership { member_id: 42, roles }
}

fn held_tier_roles(community: &Community, membership: &Membership) -> Vec<u64> {
    let mut held: Vec<u64> = Vec::new();
    for r in &community.roles {
        if TierMarker::from_label(&r.label).is_some() && membership.roles.contains(&r.id) && !held.contains(&r.id) {
            held.push(r.id);
        }
    }
    held
}

fn sorted(mut roles: Vec<u64>) -> Vec<u64> {
    roles.sort();
    roles.dedup();
    roles
}

#[test]
fn clear_revokes_every_held_tier_role_in_community_order() {
    let c = community(vec![
        role(1, "Moderator"),
        role(2, "GOLD"),
        role(3, "SILVER"),
        role(4, "IRON"),
        role(5, "Friends"),
    ]);
    let m = member(vec![5, 4, 2, 1]);
    assert_eq!(clear_current_role(&c, &m), vec![2, 4]);
}

#[test]
fn clear_skips_tier_roles_that_are_not_held() {
    let c = community(vec![role(2, "GOLD"), role(3, "SILVER")]);
    let m = member(vec![77]);
    assert_eq!(clear_current_role(&c, &m), Vec::<u64>::new());
}

#[test]
fn clear_leaves_other_roles_alone() {
    let c = community(vec![role(1, "gold"), role(2, "Unranked"), role(3, "Moderator")]);
    let m = member(vec![1, 2, 3]);
    assert_eq!(clear_current_role(&c, &m), Vec::<u64>::new());
}

#[test]
fn clear_covers_roles_that_share_a_label() {
    let c = community(vec![role(10, "GOLD"), role(11, "GOLD")]);
    let m = member(vec![11, 10]);
    assert_eq!(clear_current_role(&c, &m), vec![10, 11]);
}

#[test]
fn clear_on_an_empty_community_revokes_nothing() {
    let c = community(vec![]);
    let m = member(vec![1, 2]);
    assert_eq!(clear_current_role(&c, &m), Vec::<u64>::new());
}

#[test]
fn update_grants_the_existing_role() {
    let c = community(vec![role(1, "SILVER"), role(2, "GOLD"), role(3, "GOLD")]);
    assert_eq!(update_role(&c, TierMarker::Gold), GrantStep::Existing { role_id: 2 });
}

#[test]
fn update_creates_a_hoisted_role_where_none_exists() {
    let c = community(vec![role(1, "SILVER"), role(2, "diamond")]);
    assert_eq!(
        update_role(&c, TierMarker::Diamond),
        GrantStep::Create { tier: TierMarker::Diamond, hoist: true }
    );
}

#[test]
fn update_grants_nothing_for_untracked() {
    let c = community(vec![role(1, "SILVER"), role(2, "UNTRACKED")]);
    assert_eq!(update_role(&c, TierMarker::Untracked), GrantStep::Nothing);
}

#[test]
fn role_by_name_finds_the_first_match() {
    let c = community(vec![role(1, "A"), role(2, "B"), role(3, "B")]);
    assert_eq!(c.role_by_name("B"), Some(2));
    assert_eq!(c.role_by_name("A"), Some(1));
    assert_eq!(c.role_by_name("C"), None);
    assert_eq!(c.role_by_name("b"), None);
}

#[test]
fn membership_knows_what_it_holds() {
    let mut m = member(vec![3, 5]);
    assert!(m.holds(3));
    assert!(!m.holds(4));
    m.grant(4);
    m.grant(4);
    assert_eq!(sorted(m.roles.clone()), vec![3, 4, 5]);
    m.revoke(3);
    m.revoke(3);
    assert_eq!(sorted(m.roles.clone()), vec![4, 5]);
    assert_eq!(m.member_id, 42);
}

#[test]
fn reconcile_clears_then_sets() {
    let c = community(vec![role(1, "SILVER"), role(2, "GOLD"), role(3, "Moderator")]);
    let m = member(vec![3, 1]);
    let plan = reconcile(&c, &m, TierMarker::Gold);
    assert_eq!(plan.revoke, vec![1]);
    assert_eq!(plan.grant, GrantStep::Existing { role_id: 2 });
}

#[test]
fn reconcile_regrants_a_role_that_is_held_already() {
    let c = community(vec![role(2, "GOLD")]);
    let m = member(vec![2]);
    let plan = reconcile(&c, &m, TierMarker::Gold);
    assert_eq!(plan.revoke, vec![2]);
    assert_eq!(plan.grant, GrantStep::Existing { role_id: 2 });
    let mut c2 = c.clone();
    let mut m2 = m.clone();
    apply_plan(&mut c2, &mut m2, &plan, 999);
    assert_eq!(sorted(m2.roles), vec![2]);
    assert_eq!(c2, c);
}

#[test]
fn applying_a_plan_that_creates_adds_the_role() {
    let mut c = community(vec![role(1, "SILVER")]);
    let mut m = member(vec![1, 8]);
    let plan = reconcile(&c, &m, TierMarker::Master);
    apply_plan(&mut c, &mut m, &plan, 50);
    assert_eq!(c.roles, vec![role(1, "SILVER"), role(50, "MASTER")]);
    assert_eq!(sorted(m.roles), vec![8, 50]);
    assert_eq!(c.id, 900);
    assert_eq!(m.member_id, 42);
}

#[test]
fn reconciling_twice_leaves_what_once_leaves() {
    let communities = vec![
        community(vec![]),
        community(vec![role(1, "SILVER"), role(2, "GOLD"), role(3, "Moderator")]),
        community(vec![role(1, "GOLD"), role(2, "GOLD"), role(3, "IRON")]),
    ];
    let memberships = vec![member(vec![]), member(vec![1, 3]), member(vec![1, 2, 3, 9])];
    let mut tiers = vocabulary();
    tiers.push(TierMarker::Untracked);
    for c in &communities {
        for m in &memberships {
            for tier in &tiers {
                let mut c1 = c.clone();
                let mut m1 = m.clone();
                let first = reconcile(&c1, &m1, *tier);
                apply_plan(&mut c1, &mut m1, &first, 100);
                let mut c2 = c1.clone();
                let mut m2 = m1.clone();
                let second = reconcile(&c2, &m2, *tier);
                apply_plan(&mut c2, &mut m2, &second, 200);
                assert_eq!(c2, c1);
                assert_eq!(sorted(m2.roles), sorted(m1.roles));
            }
        }
    }
}

#[test]
fn after_reconciling_at_most_one_tier_role_is_held() {
    let communities = vec![
        community(vec![]),
        community(vec![role(1, "SILVER"), role(2, "GOLD"), role(3, "Moderator")]),
        community(vec![role(1, "GOLD"), role(2, "GOLD"), role(3, "IRON")]),
    ];
    let memberships = vec![member(vec![]), member(vec![1, 3]), member(vec![1, 2, 3, 9])];
    for c in &communities {
        for m in &memberships {
            for tier in vocabulary() {
                let mut c1 = c.clone();
                let mut m1 = m.clone();
                let plan = reconcile(&c1, &m1, tier);
                apply_plan(&mut c1, &mut m1, &plan, 100);
                let held = held_tier_roles(&c1, &m1);
                assert_eq!(held.len(), 1);
                let label = &c1.roles.iter().find(|r| r.id == held[0]).unwrap().label;
                assert_eq!(label.as_str(), tier.label().unwrap());
            }
            let mut c1 = c.clone();
            let mut m1 = m.clone();
            let plan = reconcile(&c1, &m1, TierMarker::Untracked);
            apply_plan(&mut c1, &mut m1, &plan, 100);
            assert_eq!(held_tier_roles(&c1, &m1), Vec::<u64>::new());
        }
    }
}

#[test]
fn roles_outside_the_vocabulary_survive_a_reconciliation() {
    let mut c = community(vec![role(1, "SILVER"), role(3, "Moderator")]);
    let mut m = member(vec![1, 3, 9]);
    let plan = reconcile(&c, &m, TierMarker::Untracked);
    apply_plan(&mut c, &mut m, &plan, 100);
    assert_eq!(sorted(m.roles), vec![3, 9]);
}
