//! Roles, memberships and the clear-then-set reconciliation of tier roles.

use crate::text::same_text;
use crate::tier::{is_tier_label, TierMarker};
use vstd::prelude::*;

verus! {

/// A role of a community: the platform's identifier and the label shown.
#[derive(Clone, Debug, PartialEq, Eq)]
pub struct RoleHandle {
    pub id: u64,
    pub label: String,
}

/// A role as contracts see it.
pub struct RoleModel {
    pub id: u64,
    pub label: Seq<char>,
}

impl View for RoleHandle {
    type V = RoleModel;

    open spec fn view(&self) -> RoleModel {
        RoleModel { id: self.id, label: self.label@ }
    }
}

/// The roles that a community has, in the order the platform lists them.
#[derive(Clone, Debug, PartialEq, Eq)]
pub struct Community {
    pub id: u64,
    pub roles: Vec<RoleHandle>,
}

impl View for Community {
    type V = Seq<RoleModel>;

    open spec fn view(&self) -> Seq<RoleModel> {
        self.roles@.map_values(|r: RoleHandle| r@)
    }
}

/// A member of a community with the roles held, as the platform reported
/// them at the moment of asking.
#[derive(Clone, Debug, PartialEq, Eq)]
pub struct Membership {
    pub member_id: u64,
    pub roles: Vec<u64>,
}

impl View for Membership {
    type V = Set<u64>;

    open spec fn view(&self) -> Set<u64> {
        self.roles@.to_set()
    }
}

/// What follows the clearing of tier roles.
#[derive(Clone, Copy, Debug, PartialEq, Eq, Structural)]
pub enum GrantStep {
    /// Nothing is granted: the member is left without a tier role.
    Nothing,
    /// The community has the role; it is granted.
    Existing { role_id: u64 },
    /// The community lacks the role; it is created for the tier's label,
    /// shown apart from other roles where `hoist` is set, and then granted.
    Create { tier: TierMarker, hoist: bool },
}

/// The role changes of one reconciliation: first every revocation, in
/// order, then the grant.
#[derive(Clone, Debug, PartialEq, Eq)]
pub struct ReconcilePlan {
    pub revoke: Vec<u64>,
    pub grant: GrantStep,
}

/// A plan as contracts see it.
pub struct PlanModel {
    pub revoke: Seq<u64>,
    pub grant: GrantStep,
}

impl View for ReconcilePlan {
    type V = PlanModel;

    open spec fn view(&self) -> PlanModel {
        PlanModel { revoke: self.revoke@, grant: self.grant }
    }
}

/// Whether `id` names a role of the community whose label belongs to the
/// tier vocabulary.
pub open spec fn is_tier_role(roles: Seq<RoleModel>, id: u64) -> bool {
    exists|i: int| 0 <= i < roles.len() && #[trigger] roles[i].id == id && is_tier_label(roles[i].label)
}

/// The tier roles among the roles held.
pub open spec fn held_tier_roles(roles: Seq<RoleModel>, held: Set<u64>) -> Set<u64> {
    Set::new(|id: u64| held.contains(id) && is_tier_role(roles, id))
}

/// The roles that the clear step revokes: each role of the community, in
/// the community's order, that carries a tier label and is held.
pub open spec fn roles_to_clear(roles: Seq<RoleModel>, held: Set<u64>) -> Seq<u64>
    decreases roles.len(),
{
    if roles.len() == 0 {
        Seq::empty()
    } else {
        let before = roles_to_clear(roles.drop_last(), held);
        let last = roles.last();
        if is_tier_label(last.label) && held.contains(last.id) {
            before.push(last.id)
        } else {
            before
        }
    }
}

/// The first role of the community that carries `label`.
pub open spec fn role_with_label(roles: Seq<RoleModel>, label: Seq<char>) -> Option<u64>
    decreases roles.len(),
{
    if roles.len() == 0 {
        None
    } else if roles[0].label == label {
        Some(roles[0].id)
    } else {
        role_with_label(roles.drop_first(), label)
    }
}

/// The grant that brings a member to `desired`: none for `Untracked`, the
/// community's role of that label where it has one, a new hoisted role
/// where it has none.
pub open spec fn grant_for(roles: Seq<RoleModel>, desired: TierMarker) -> GrantStep {
    match desired.spec_label() {
        None => GrantStep::Nothing,
        Some(label) => match role_with_label(roles, label) {
            Some(role_id) => GrantStep::Existing { role_id },
            None => GrantStep::Create { tier: desired, hoist: true },
        },
    }
}

/// The plan that reconciles a membership with `desired`.
pub open spec fn plan_for(roles: Seq<RoleModel>, held: Set<u64>, desired: TierMarker) -> PlanModel {
    PlanModel { revoke: roles_to_clear(roles, held), grant: grant_for(roles, desired) }
}

impl Membership {
    /// Whether the member holds the role.
    pub fn holds(&self, role_id: u64) -> (r: bool)
        ensures
            r == self@.contains(role_id),
    {
        let mut i: usize = 0;
        while i < self.roles.len()
            invariant
                i <= self.roles.len(),
                forall|j: int| 0 <= j < i ==> self.roles@[j] != role_id,
            decreases self.roles.len() - i,
        {
            if self.roles[i] == role_id {
                return true;
            }
            i += 1;
        }
        false
    }
}

impl Community {
    /// The first role that carries `label`, if the community has one.
    pub fn role_by_name(&self, label: &str) -> (r: Option<u64>)
        ensures
            r == role_with_label(self@, label@),
    {
        let n: usize = self.roles.len();
        let mut i: usize = 0;
        assert(self@.skip(0) == self@);
        while i < n
            invariant
                n == self.roles.len(),
                i <= n,
                role_with_label(self@, label@) == role_with_label(self@.skip(i as int), label@),
            decreases n - i,
        {
            assert(self@.skip(i as int).drop_first() == self@.skip(i as int + 1));
            if same_text(self.roles[i].label.as_str(), label) {
                return Some(self.roles[i].id);
            }
            i += 1;
        }
        None
    }
}

/// The clear step: the tier roles to revoke from the member, all of them
/// and no other role. A tier role that the member does not hold is passed
/// over.
pub fn clear_current_role(community: &Community, membership: &Membership) -> (revoked: Vec<u64>)
    ensures
        revoked@ == roles_to_clear(community@, membership@),
{
    let n: usize = community.roles.len();
    let mut revoked: Vec<u64> = Vec::new();
    let mut i: usize = 0;
    while i < n
        invariant
            n == community.roles.len(),
            i <= n,
            revoked@ == roles_to_clear(community@.take(i as int), membership@),
        decreases n - i,
    {
        let role = &community.roles[i];
        assert(community@.take(i as int + 1).drop_last() == community@.take(i as int));
        if TierMarker::from_label(role.label.as_str()).is_some() && membership.holds(role.id) {
            revoked.push(role.id);
        }
        i += 1;
    }
    assert(community@.take(n as int) == community@);
    revoked
}

/// The set step: which role to grant so that the member shows `rank`.
pub fn update_role(community: &Community, rank: TierMarker) -> (grant: GrantStep)
    ensures
        grant == grant_for(community@, rank),
{
    match rank.label() {
        None => GrantStep::Nothing,
        Some(label) => match community.role_by_name(label) {
            Some(role_id) => GrantStep::Existing { role_id },
            None => GrantStep::Create { tier: rank, hoist: true },
        },
    }
}

/// Plans the reconciliation of a membership with `desired`: the member's
/// tier roles are cleared, whatever they are, and then the one role of
/// `desired` is set.
pub fn reconcile(community: &Community, membership: &Membership, desired: TierMarker) -> (plan:
    ReconcilePlan)
    ensures
        plan@ == plan_for(community@, membership@, desired),
{
    let revoke = clear_current_role(community, membership);
    let grant = update_role(community, desired);
    ReconcilePlan { revoke, grant }
}

} // verus!
