//! What a reconciliation leaves behind: the roles of the community and of
//! the member once every change of a plan has been applied.

use crate::roles::{
    held_tier_roles, plan_for, role_with_label, roles_to_clear, Community, GrantStep, Membership,
    PlanModel, ReconcilePlan, RoleHandle, RoleModel,
};
use crate::tier::{is_tier_label, TierMarker};
use vstd::prelude::*;

verus! {

/// The roles of a community together with the roles that one member holds.
pub struct GuildModel {
    pub roles: Seq<RoleModel>,
    pub held: Set<u64>,
}

/// The state after every change of `plan` has been applied to a member who
/// held `held`. `created` is the identifier that the platform gives to the
/// role that the plan creates, if it creates one.
pub open spec fn applied(roles: Seq<RoleModel>, held: Set<u64>, plan: PlanModel, created: u64)
    -> GuildModel {
    let cleared = held.difference(plan.revoke.to_set());
    match plan.grant {
        GrantStep::Nothing => GuildModel { roles, held: cleared },
        GrantStep::Existing { role_id } => GuildModel { roles, held: cleared.insert(role_id) },
        GrantStep::Create { tier, hoist } => match tier.spec_label() {
            Some(label) => GuildModel {
                roles: roles.push(RoleModel { id: created, label }),
                held: cleared.insert(created),
            },
            None => GuildModel { roles, held: cleared },
        },
    }
}

/// The state after a membership has been reconciled with `desired`.
pub open spec fn reconciled(roles: Seq<RoleModel>, held: Set<u64>, desired: TierMarker, created: u64)
    -> GuildModel {
    applied(roles, held, plan_for(roles, held, desired), created)
}

/// No two roles of the community share an identifier.
pub open spec fn distinct_ids(roles: Seq<RoleModel>) -> bool {
    forall|i: int, j: int|
        0 <= i < j < roles.len() ==> (#[trigger] roles[i]).id != (#[trigger] roles[j]).id
}

/// No role of the community has the identifier `id`.
pub open spec fn unused_id(roles: Seq<RoleModel>, id: u64) -> bool {
    forall|i: int| 0 <= i < roles.len() ==> (#[trigger] roles[i]).id != id
}

impl Membership {
    /// Takes a role from the member; nothing changes where it is not held.
    pub fn revoke(&mut self, role_id: u64)
        ensures
            final(self)@ == old(self)@.remove(role_id),
            final(self).member_id == old(self).member_id,
    {
        let n: usize = self.roles.len();
        let mut kept: Vec<u64> = Vec::new();
        let mut i: usize = 0;
        while i < n
            invariant
                n == self.roles.len(),
                i <= n,
                kept@.to_set() == self.roles@.take(i as int).to_set().remove(role_id),
            decreases n - i,
        {
            let held: u64 = self.roles[i];
            proof {
                lemma_to_set_push(self.roles@.take(i as int), held);
                assert(self.roles@.take(i as int + 1) =~= self.roles@.take(i as int).push(held));
                lemma_to_set_push(kept@, held);
            }
            if held != role_id {
                kept.push(held);
            }
            i += 1;
        }
        assert(self.roles@.take(n as int) == self.roles@);
        self.roles = kept;
    }

    /// Gives a role to the member; nothing changes where it is held already.
    pub fn grant(&mut self, role_id: u64)
        ensures
            final(self)@ == old(self)@.insert(role_id),
            final(self).member_id == old(self).member_id,
    {
        if !self.holds(role_id) {
            proof {
                lemma_to_set_push(self.roles@, role_id);
            }
            self.roles.push(role_id);
        }
    }
}

impl Community {
    /// Adds a role at the end of the community's list.
    pub fn add_role(&mut self, id: u64, label: &str)
        ensures
            final(self)@ == old(self)@.push(RoleModel { id, label: label@ }),
            final(self).id == old(self).id,
    {
        self.roles.push(RoleHandle { id, label: label.to_owned() });
    }
}

/// Applies every change of `plan` to a community and a membership held in
/// memory, as the platform does where each call succeeds. `created` is the
/// identifier given to the role that the plan creates.
pub fn apply_plan(
    community: &mut Community,
    membership: &mut Membership,
    plan: &ReconcilePlan,
    created: u64,
)
    ensures
        final(community)@ == applied(old(community)@, old(membership)@, plan@, created).roles,
        final(membership)@ == applied(old(community)@, old(membership)@, plan@, created).held,
        final(community).id == old(community).id,
        final(membership).member_id == old(membership).member_id,
{
    let n: usize = plan.revoke.len();
    let mut i: usize = 0;
    while i < n
        invariant
            n == plan.revoke.len(),
            i <= n,
            membership@ == old(membership)@.difference(plan.revoke@.take(i as int).to_set()),
            membership.member_id == old(membership).member_id,
        decreases n - i,
    {
        membership.revoke(plan.revoke[i]);
        proof {
            let done = plan.revoke@.take(i as int);
            lemma_to_set_push(done, plan.revoke@[i as int]);
            assert(plan.revoke@.take(i as int + 1) =~= done.push(plan.revoke@[i as int]));
        }
        i += 1;
    }
    assert(plan.revoke@.take(n as int) == plan.revoke@);
    match plan.grant {
        GrantStep::Nothing => {},
        GrantStep::Existing { role_id } => {
            membership.grant(role_id);
        },
        GrantStep::Create { tier, hoist } => match tier.label() {
            Some(label) => {
                community.add_role(created, label);
                membership.grant(created);
            },
            None => {},
        },
    }
}

/// The members of a sequence with one more item are those of the sequence
/// and the item.
pub(crate) proof fn lemma_to_set_push(s: Seq<u64>, x: u64)
    ensures
        s.push(x).to_set() =~= s.to_set().insert(x),
{
    let t = s.push(x);
    assert forall|y: u64| s.to_set().insert(x).contains(y) implies t.to_set().contains(y) by {
        if y == x {
            assert(t[s.len() as int] == x);
        } else {
            let k = choose|k: int| 0 <= k < s.len() && s[k] == y;
            assert(t[k] == y);
        }
    }
}

/// The clear step revokes the tier roles that the member holds: every one
/// of them, and nothing else.
pub proof fn lemma_clear_is_exact(roles: Seq<RoleModel>, held: Set<u64>)
    ensures
        roles_to_clear(roles, held).to_set() =~= held_tier_roles(roles, held),
    decreases roles.len(),
{
    if roles.len() > 0 {
        let front = roles.drop_last();
        let last = roles.last();
        lemma_clear_is_exact(front, held);
        if is_tier_label(last.label) && held.contains(last.id) {
            lemma_to_set_push(roles_to_clear(front, held), last.id);
        }
        assert forall|id: u64| held_tier_roles(roles, held).contains(id) implies roles_to_clear(
            roles,
            held,
        ).to_set().contains(id) by {
            let i = choose|i: int|
                0 <= i < roles.len() && #[trigger] roles[i].id == id && is_tier_label(
                    roles[i].label,
                );
            if i < front.len() {
                assert(front[i].id == id);
            }
        }
    }
}

/// `role_with_label` finds the first role that carries the label, and finds
/// none only where no role carries it.
pub proof fn lemma_role_with_label(roles: Seq<RoleModel>, label: Seq<char>)
    ensures
        role_with_label(roles, label) matches Some(id) ==> exists|i: int|
            0 <= i < roles.len() && #[trigger] roles[i].label == label && roles[i].id == id && forall|j: int|
                0 <= j < i ==> (#[trigger] roles[j]).label != label,
        role_with_label(roles, label) is None ==> forall|i: int|
            0 <= i < roles.len() ==> (#[trigger] roles[i]).label != label,
    decreases roles.len(),
{
    if roles.len() > 0 && roles[0].label != label {
        let rest = roles.drop_first();
        lemma_role_with_label(rest, label);
        match role_with_label(rest, label) {
            Some(id) => {
                let k = choose|i: int|
                    0 <= i < rest.len() && #[trigger] rest[i].label == label && rest[i].id == id && forall|j: int|
                        0 <= j < i ==> (#[trigger] rest[j]).label != label;
                assert forall|j: int| 0 <= j < k + 1 implies (#[trigger] roles[j]).label != label by {
                    if j > 0 {
                        assert(rest[j - 1].label != label);
                    }
                }
            },
            None => {
                assert forall|i: int| 0 <= i < roles.len() implies (#[trigger] roles[i]).label
                    != label by {
                    if i > 0 {
                        assert(rest[i - 1].label != label);
                    }
                }
            },
        }
    }
}

/// Adding a role at the end does not change which role is first to carry a
/// label, unless no role carried it: then the new role is found if it
/// carries the label.
proof fn lemma_role_with_label_push(roles: Seq<RoleModel>, role: RoleModel, label: Seq<char>)
    ensures
        role_with_label(roles.push(role), label) == match role_with_label(roles, label) {
            Some(id) => Some(id),
            None => if role.label == label {
                Some(role.id)
            } else {
                None
            },
        },
    decreases roles.len(),
{
    let longer = roles.push(role);
    if roles.len() == 0 {
        assert(role_with_label(longer.drop_first(), label) is None);
    } else {
        assert(longer.drop_first() =~= roles.drop_first().push(role));
        lemma_role_with_label_push(roles.drop_first(), role, label);
    }
}

/// The community has at most one role for each tier label.
pub open spec fn one_role_per_tier(roles: Seq<RoleModel>) -> bool {
    forall|i: int, j: int|
        0 <= i < j < roles.len() && is_tier_label((#[trigger] roles[i]).label) ==> roles[i].label
            != (#[trigger] roles[j]).label
}

/// A reconciliation never gives a tier a second role: it creates a role
/// only for a label that the community lacks.
pub proof fn lemma_reconcile_keeps_one_role_per_tier(
    roles: Seq<RoleModel>,
    held: Set<u64>,
    desired: TierMarker,
    created: u64,
)
    requires
        one_role_per_tier(roles),
    ensures
        one_role_per_tier(reconciled(roles, held, desired, created).roles),
{
    if let Some(label) = desired.spec_label() {
        lemma_role_with_label(roles, label);
    }
}

/// After a reconciliation the member holds at most one tier role: none
/// where `desired` is `Untracked`, else exactly the role granted, and the
/// community has that role under the label of `desired`. Where the
/// community's identifiers are distinct and a created role gets an unused
/// one, no role under another label shares the identifier.
pub proof fn lemma_reconcile_exclusive(
    roles: Seq<RoleModel>,
    held: Set<u64>,
    desired: TierMarker,
    created: u64,
)
    requires
        held.finite(),
    ensures
        ({
            let after = reconciled(roles, held, desired, created);
            let tier_held = held_tier_roles(after.roles, after.held);
            &&& tier_held.finite()
            &&& tier_held.len() <= 1
            &&& desired == TierMarker::Untracked ==> tier_held.len() == 0
            &&& desired != TierMarker::Untracked ==> tier_held.len() == 1
            &&& forall|id: u64| #[trigger]
                tier_held.contains(id) ==> {
                    &&& desired.spec_label() is Some
                    &&& exists|i: int|
                        0 <= i < after.roles.len() && #[trigger] after.roles[i].id == id
                            && after.roles[i].label == desired.spec_label().unwrap()
                    &&& distinct_ids(roles) && unused_id(roles, created) ==> forall|i: int|
                        0 <= i < after.roles.len() && #[trigger] after.roles[i].id == id
                            ==> after.roles[i].label == desired.spec_label().unwrap()
                }
        }),
{
    let after = reconciled(roles, held, desired, created);
    let tier_held = held_tier_roles(after.roles, after.held);
    lemma_clear_is_exact(roles, held);
    match desired.spec_label() {
        None => {
            assert(tier_held =~= Set::<u64>::empty());
        },
        Some(label) => {
            lemma_role_with_label(roles, label);
            match role_with_label(roles, label) {
                Some(role_id) => {
                    assert(tier_held =~= set![role_id]);
                },
                None => {
                    assert(after.roles[roles.len() as int].id == created);
                    assert(tier_held =~= set![created]);
                },
            }
        },
    }
}

/// Reconciling twice in a row with the same tier leaves what reconciling
/// once leaves: the same roles in the community and the same roles held.
pub proof fn lemma_reconcile_idempotent(
    roles: Seq<RoleModel>,
    held: Set<u64>,
    desired: TierMarker,
    created: u64,
    created_again: u64,
)
    ensures
        ({
            let once = reconciled(roles, held, desired, created);
            let twice = reconciled(once.roles, once.held, desired, created_again);
            twice.roles == once.roles && twice.held == once.held
        }),
{
    let once = reconciled(roles, held, desired, created);
    lemma_clear_is_exact(roles, held);
    lemma_clear_is_exact(once.roles, once.held);
    if let Some(label) = desired.spec_label() {
        lemma_role_with_label_push(roles, RoleModel { id: created, label }, label);
    }
}

} // verus!
