//! Carrying out a plan against the chat platform, one call at a time.
//!
//! The platform is asked for one change, the answer is recorded, and the
//! next change follows from it. A change that fails ends the run: nothing is
//! tried again and nothing that was applied is taken back.

use crate::error::TrackerError;
use crate::outcome::{
    applied, lemma_reconcile_exclusive, lemma_to_set_push, reconciled, GuildModel,
};
use crate::roles::{
    held_tier_roles, plan_for, GrantStep, PlanModel, ReconcilePlan, RoleModel,
};
use crate::tier::TierMarker;
use vstd::prelude::*;

verus! {

/// One call to the chat platform.
#[derive(Clone, Copy, Debug, PartialEq, Eq, Structural)]
pub enum RoleCall {
    /// Take the role from the member.
    Revoke { role_id: u64 },
    /// Create a role under the tier's label, hoisted where `hoist` is set.
    Create { tier: TierMarker, hoist: bool },
    /// Give the role to the member.
    Grant { role_id: u64 },
}

/// What the chat platform answered to a call.
#[derive(Clone, Copy, Debug, PartialEq, Eq, Structural)]
pub enum RoleReply {
    /// The revocation or the grant was applied.
    Applied,
    /// The role was created under this identifier.
    Created { role_id: u64 },
    /// The call failed.
    Failed,
}

/// How far a run has come.
#[derive(Clone, Copy, Debug, PartialEq, Eq, Structural)]
pub enum SyncStage {
    /// The revocation at position `next` of the plan is due.
    Revoking { next: usize },
    /// The creation of the role is due.
    Creating,
    /// The grant of this role is due.
    Granting { role_id: u64 },
    /// Every change was applied.
    Finished,
    /// A call failed and the run ended there.
    Failed,
}

/// A plan together with the stage that its run has reached.
#[derive(Clone, Debug, PartialEq, Eq)]
pub struct RoleSync {
    pub plan: ReconcilePlan,
    pub stage: SyncStage,
}

/// The stage that follows the last revocation.
pub open spec fn stage_after_revokes(plan: PlanModel) -> SyncStage {
    match plan.grant {
        GrantStep::Nothing => SyncStage::Finished,
        GrantStep::Existing { role_id } => SyncStage::Granting { role_id },
        GrantStep::Create { tier, hoist } => if tier.spec_label() is Some {
            SyncStage::Creating
        } else {
            SyncStage::Finished
        },
    }
}

/// The stage in which a run begins.
pub open spec fn first_stage(plan: PlanModel) -> SyncStage {
    if plan.revoke.len() > 0 {
        SyncStage::Revoking { next: 0 }
    } else {
        stage_after_revokes(plan)
    }
}

/// The call that is due in a stage, if the run has not ended.
pub open spec fn pending_call(plan: PlanModel, stage: SyncStage) -> Option<RoleCall> {
    match stage {
        SyncStage::Revoking { next } => if next < plan.revoke.len() {
            Some(RoleCall::Revoke { role_id: plan.revoke[next as int] })
        } else {
            None
        },
        SyncStage::Creating => match plan.grant {
            GrantStep::Create { tier, hoist } => Some(RoleCall::Create { tier, hoist }),
            _ => None,
        },
        SyncStage::Granting { role_id } => Some(RoleCall::Grant { role_id }),
        SyncStage::Finished => None,
        SyncStage::Failed => None,
    }
}

/// The stage that follows once the answer to the pending call is known.
/// An answer that does not fit the call counts as a failure.
pub open spec fn next_stage(plan: PlanModel, stage: SyncStage, reply: RoleReply) -> SyncStage {
    match stage {
        SyncStage::Revoking { next } => if reply == RoleReply::Applied {
            if next + 1 < plan.revoke.len() {
                SyncStage::Revoking { next: (next + 1) as usize }
            } else {
                stage_after_revokes(plan)
            }
        } else {
            SyncStage::Failed
        },
        SyncStage::Creating => match reply {
            RoleReply::Created { role_id } => SyncStage::Granting { role_id },
            _ => SyncStage::Failed,
        },
        SyncStage::Granting { role_id } => if reply == RoleReply::Applied {
            SyncStage::Finished
        } else {
            SyncStage::Failed
        },
        SyncStage::Finished => SyncStage::Finished,
        SyncStage::Failed => SyncStage::Failed,
    }
}

/// How the run ended, if it has ended.
pub open spec fn stage_result(stage: SyncStage) -> Option<Result<(), TrackerError>> {
    match stage {
        SyncStage::Finished => Some(Ok(())),
        SyncStage::Failed => Some(Err(TrackerError::RoleMutationError)),
        _ => None,
    }
}

/// What a call changes on the platform, given the platform's answer. A
/// call that failed changes nothing.
pub open spec fn effect(guild: GuildModel, call: Option<RoleCall>, reply: RoleReply) -> GuildModel {
    match (call, reply) {
        (Some(RoleCall::Revoke { role_id }), RoleReply::Applied) => GuildModel {
            roles: guild.roles,
            held: guild.held.remove(role_id),
        },
        (Some(RoleCall::Grant { role_id }), RoleReply::Applied) => GuildModel {
            roles: guild.roles,
            held: guild.held.insert(role_id),
        },
        (Some(RoleCall::Create { tier, hoist }), RoleReply::Created { role_id }) => match tier.spec_label() {
            Some(label) => GuildModel {
                roles: guild.roles.push(RoleModel { id: role_id, label }),
                held: guild.held,
            },
            None => guild,
        },
        _ => guild,
    }
}

/// The stage and the platform's state after a run has received `replies`,
/// one for each call it made.
pub open spec fn run(plan: PlanModel, stage: SyncStage, guild: GuildModel, replies: Seq<RoleReply>)
    -> (SyncStage, GuildModel)
    decreases replies.len(),
{
    if replies.len() == 0 {
        (stage, guild)
    } else {
        run(
            plan,
            next_stage(plan, stage, replies[0]),
            effect(guild, pending_call(plan, stage), replies[0]),
            replies.drop_first(),
        )
    }
}

/// The answers of a platform that applies every change of a plan and gives
/// a created role the identifier `created`.
pub open spec fn success_replies(plan: PlanModel, created: u64) -> Seq<RoleReply> {
    let revoked = Seq::new(plan.revoke.len(), |i: int| RoleReply::Applied);
    match stage_after_revokes(plan) {
        SyncStage::Creating => revoked.push(RoleReply::Created { role_id: created }).push(
            RoleReply::Applied,
        ),
        SyncStage::Granting { role_id } => revoked.push(RoleReply::Applied),
        _ => revoked,
    }
}

impl RoleSync {
    /// Whether the stage fits the plan: a revocation that is due exists, and
    /// a role is created only where the plan says so.
    pub open spec fn well_formed(&self) -> bool {
        match self.stage {
            SyncStage::Revoking { next } => next < self.plan.revoke@.len(),
            SyncStage::Creating => self.plan.grant is Create,
            _ => true,
        }
    }

    /// Begins the run of a plan.
    pub fn begin(plan: ReconcilePlan) -> (sync: RoleSync)
        ensures
            sync.plan@ == plan@,
            sync.stage == first_stage(plan@),
            sync.well_formed(),
    {
        let stage = if plan.revoke.len() > 0 {
            SyncStage::Revoking { next: 0 }
        } else {
            Self::after_revokes(&plan)
        };
        RoleSync { plan, stage }
    }

    fn after_revokes(plan: &ReconcilePlan) -> (stage: SyncStage)
        ensures
            stage == stage_after_revokes(plan@),
    {
        match plan.grant {
            GrantStep::Nothing => SyncStage::Finished,
            GrantStep::Existing { role_id } => SyncStage::Granting { role_id },
            GrantStep::Create { tier, hoist } => if tier.label().is_some() {
                SyncStage::Creating
            } else {
                SyncStage::Finished
            },
        }
    }

    /// The call to make now; `None` once the run has ended.
    pub fn pending(&self) -> (call: Option<RoleCall>)
        ensures
            call == pending_call(self.plan@, self.stage),
    {
        match self.stage {
            SyncStage::Revoking { next } => if next < self.plan.revoke.len() {
                Some(RoleCall::Revoke { role_id: self.plan.revoke[next] })
            } else {
                None
            },
            SyncStage::Creating => match self.plan.grant {
                GrantStep::Create { tier, hoist } => Some(RoleCall::Create { tier, hoist }),
                _ => None,
            },
            SyncStage::Granting { role_id } => Some(RoleCall::Grant { role_id }),
            SyncStage::Finished => None,
            SyncStage::Failed => None,
        }
    }

    /// Records the platform's answer to the pending call and moves on.
    pub fn record(&mut self, reply: RoleReply)
        ensures
            final(self).plan == old(self).plan,
            final(self).stage == next_stage(old(self).plan@, old(self).stage, reply),
            old(self).well_formed() ==> final(self).well_formed(),
    {
        let stage = match self.stage {
            SyncStage::Revoking { next } => if reply == RoleReply::Applied {
                if next < self.plan.revoke.len() && next + 1 < self.plan.revoke.len() {
                    SyncStage::Revoking { next: next + 1 }
                } else {
                    Self::after_revokes(&self.plan)
                }
            } else {
                SyncStage::Failed
            },
            SyncStage::Creating => match reply {
                RoleReply::Created { role_id } => SyncStage::Granting { role_id },
                _ => SyncStage::Failed,
            },
            SyncStage::Granting { role_id } => if reply == RoleReply::Applied {
                SyncStage::Finished
            } else {
                SyncStage::Failed
            },
            SyncStage::Finished => SyncStage::Finished,
            SyncStage::Failed => SyncStage::Failed,
        };
        self.stage = stage;
    }

    /// How the run ended: `None` while a call is due, `Ok` once every
    /// change was applied, the error once a call has failed.
    pub fn result(&self) -> (r: Option<Result<(), TrackerError>>)
        ensures
            r == stage_result(self.stage),
            self.well_formed() ==> (r is None <==> pending_call(self.plan@, self.stage) is Some),
    {
        match self.stage {
            SyncStage::Finished => Some(Ok(())),
            SyncStage::Failed => Some(Err(TrackerError::RoleMutationError)),
            _ => None,
        }
    }
}

/// A failed call ends the run for good: whatever stage it was in, the run
/// is `Failed`, stays so under every further answer, makes no further call,
/// and the failed call itself has changed nothing.
pub proof fn lemma_failure_is_final(
    plan: PlanModel,
    stage: SyncStage,
    guild: GuildModel,
    later: Seq<RoleReply>,
)
    requires
        stage != SyncStage::Finished,
    ensures
        next_stage(plan, stage, RoleReply::Failed) == SyncStage::Failed,
        effect(guild, pending_call(plan, stage), RoleReply::Failed) == guild,
        pending_call(plan, SyncStage::Failed) is None,
        run(plan, SyncStage::Failed, guild, later) == (SyncStage::Failed, guild),
    decreases later.len(),
{
    if later.len() > 0 {
        lemma_failure_is_final(plan, SyncStage::Failed, guild, later.drop_first());
    }
}

/// A finished run stays finished and changes nothing more.
pub proof fn lemma_finished_is_final(plan: PlanModel, guild: GuildModel, later: Seq<RoleReply>)
    ensures
        pending_call(plan, SyncStage::Finished) is None,
        run(plan, SyncStage::Finished, guild, later) == (SyncStage::Finished, guild),
    decreases later.len(),
{
    if later.len() > 0 {
        lemma_finished_is_final(plan, guild, later.drop_first());
    }
}

/// The revocations of a run, from position `done` on, each answered with
/// `Applied`: what they leave is what the rest of the answers start from.
proof fn lemma_run_revokes(
    plan: PlanModel,
    roles: Seq<RoleModel>,
    held: Set<u64>,
    done: int,
    rest: Seq<RoleReply>,
)
    requires
        0 <= done <= plan.revoke.len(),
        plan.revoke.len() <= usize::MAX,
    ensures
        run(
            plan,
            if done < plan.revoke.len() {
                SyncStage::Revoking { next: done as usize }
            } else {
                stage_after_revokes(plan)
            },
            GuildModel { roles, held: held.difference(plan.revoke.take(done).to_set()) },
            Seq::new((plan.revoke.len() - done) as nat, |i: int| RoleReply::Applied) + rest,
        ) == run(
            plan,
            stage_after_revokes(plan),
            GuildModel { roles, held: held.difference(plan.revoke.to_set()) },
            rest,
        ),
    decreases plan.revoke.len() - done,
{
    let n = plan.revoke.len() as int;
    let replies = Seq::new((n - done) as nat, |i: int| RoleReply::Applied) + rest;
    if done == n {
        assert(plan.revoke.take(done) == plan.revoke);
    } else {
        let stage = SyncStage::Revoking { next: done as usize };
        let guild = GuildModel { roles, held: held.difference(plan.revoke.take(done).to_set()) };
        assert(replies.drop_first() =~= Seq::new((n - done - 1) as nat, |i: int| RoleReply::Applied)
            + rest);
        let after = effect(guild, pending_call(plan, stage), RoleReply::Applied);
        assert(after.held =~= held.difference(plan.revoke.take(done + 1).to_set())) by {
            assert(plan.revoke.take(done + 1) =~= plan.revoke.take(done).push(plan.revoke[done]));
            lemma_to_set_push(plan.revoke.take(done), plan.revoke[done]);
        }
        lemma_run_revokes(plan, roles, held, done + 1, rest);
    }
}

/// Where the platform applies every change, the run finishes and leaves
/// what the plan describes.
pub proof fn lemma_run_reaches_plan(
    plan: PlanModel,
    roles: Seq<RoleModel>,
    held: Set<u64>,
    created: u64,
)
    requires
        plan.revoke.len() <= usize::MAX,
    ensures
        run(plan, first_stage(plan), GuildModel { roles, held }, success_replies(plan, created)) == (
            SyncStage::Finished,
            applied(roles, held, plan, created),
        ),
{
    let revoked = Seq::new(plan.revoke.len(), |i: int| RoleReply::Applied);
    let cleared = GuildModel { roles, held: held.difference(plan.revoke.to_set()) };
    let rest: Seq<RoleReply> = match stage_after_revokes(plan) {
        SyncStage::Creating => seq![RoleReply::Created { role_id: created }, RoleReply::Applied],
        SyncStage::Granting { role_id } => seq![RoleReply::Applied],
        _ => Seq::empty(),
    };
    assert(success_replies(plan, created) =~= revoked + rest);
    assert(held.difference(plan.revoke.take(0).to_set()) =~= held);
    lemma_run_revokes(plan, roles, held, 0, rest);
    match stage_after_revokes(plan) {
        SyncStage::Creating => {
            let granting = next_stage(plan, SyncStage::Creating, rest[0]);
            let made = effect(cleared, pending_call(plan, SyncStage::Creating), rest[0]);
            let last = effect(made, pending_call(plan, granting), RoleReply::Applied);
            assert(run(plan, SyncStage::Finished, last, rest.drop_first().drop_first()) == (
                SyncStage::Finished,
                last,
            ));
            assert(run(plan, granting, made, rest.drop_first()) == (SyncStage::Finished, last));
        },
        SyncStage::Granting { role_id } => {
            let last = effect(
                cleared,
                pending_call(plan, SyncStage::Granting { role_id }),
                RoleReply::Applied,
            );
            assert(run(plan, SyncStage::Finished, last, rest.drop_first()) == (
                SyncStage::Finished,
                last,
            ));
        },
        _ => {},
    }
}

/// The identifier that the platform gave to the created role, as its
/// answers tell it: the answer that follows those to the revocations.
pub open spec fn created_id(plan: PlanModel, replies: Seq<RoleReply>) -> u64 {
    if plan.revoke.len() < replies.len() {
        match replies[plan.revoke.len() as int] {
            RoleReply::Created { role_id } => role_id,
            _ => 0,
        }
    } else {
        0
    }
}

/// A run that stands after `done` revocations and then finishes under
/// `replies` leaves what the plan describes.
proof fn lemma_finished_from(
    plan: PlanModel,
    roles: Seq<RoleModel>,
    held: Set<u64>,
    done: int,
    replies: Seq<RoleReply>,
    created: u64,
)
    requires
        0 <= done <= plan.revoke.len(),
        plan.revoke.len() <= usize::MAX,
        created == if plan.revoke.len() - done < replies.len() {
            match replies[plan.revoke.len() - done] {
                RoleReply::Created { role_id } => role_id,
                _ => 0,
            }
        } else {
            0
        },
        run(
            plan,
            if done < plan.revoke.len() {
                SyncStage::Revoking { next: done as usize }
            } else {
                stage_after_revokes(plan)
            },
            GuildModel { roles, held: held.difference(plan.revoke.take(done).to_set()) },
            replies,
        ).0 == SyncStage::Finished,
    ensures
        run(
            plan,
            if done < plan.revoke.len() {
                SyncStage::Revoking { next: done as usize }
            } else {
                stage_after_revokes(plan)
            },
            GuildModel { roles, held: held.difference(plan.revoke.take(done).to_set()) },
            replies,
        ).1 == applied(roles, held, plan, created),
    decreases plan.revoke.len() - done,
{
    let n = plan.revoke.len() as int;
    let guild = GuildModel { roles, held: held.difference(plan.revoke.take(done).to_set()) };
    let stage = if done < n {
        SyncStage::Revoking { next: done as usize }
    } else {
        stage_after_revokes(plan)
    };
    if replies.len() == 0 {
        assert(plan.revoke.take(n) == plan.revoke);
    } else {
        let rest = replies.drop_first();
        let after = effect(guild, pending_call(plan, stage), replies[0]);
        let next = next_stage(plan, stage, replies[0]);
        assert(run(plan, stage, guild, replies) == run(plan, next, after, rest));
        if next == SyncStage::Failed {
            lemma_failure_is_final(plan, stage, guild, rest);
        } else if done < n {
            assert(after.held =~= held.difference(plan.revoke.take(done + 1).to_set())) by {
                assert(plan.revoke.take(done + 1) =~= plan.revoke.take(done).push(
                    plan.revoke[done],
                ));
                lemma_to_set_push(plan.revoke.take(done), plan.revoke[done]);
            }
            lemma_finished_from(plan, roles, held, done + 1, rest, created);
        } else {
            assert(plan.revoke.take(n) == plan.revoke);
            match stage {
                SyncStage::Creating => {
                    if rest.len() > 0 {
                        let last = effect(after, pending_call(plan, next), rest[0]);
                        let end = next_stage(plan, next, rest[0]);
                        if end == SyncStage::Failed {
                            lemma_failure_is_final(plan, next, after, rest.drop_first());
                        } else {
                            lemma_finished_is_final(plan, last, rest.drop_first());
                        }
                    }
                },
                _ => {
                    lemma_finished_is_final(plan, after, rest);
                },
            }
        }
    }
}

/// A run that finishes has left what its plan describes, whatever the
/// platform answered on the way: no run finishes with a change missing.
pub proof fn lemma_finished_run_matches_plan(
    plan: PlanModel,
    roles: Seq<RoleModel>,
    held: Set<u64>,
    replies: Seq<RoleReply>,
)
    requires
        plan.revoke.len() <= usize::MAX,
        run(plan, first_stage(plan), GuildModel { roles, held }, replies).0 == SyncStage::Finished,
    ensures
        run(plan, first_stage(plan), GuildModel { roles, held }, replies).1 == applied(
            roles,
            held,
            plan,
            created_id(plan, replies),
        ),
{
    assert(held.difference(plan.revoke.take(0).to_set()) =~= held);
    lemma_finished_from(plan, roles, held, 0, replies, created_id(plan, replies));
}

/// After any reconciliation that finishes the member holds at most one tier
/// role: none where `desired` is `Untracked`, else exactly one.
pub proof fn lemma_finished_run_is_exclusive(
    roles: Seq<RoleModel>,
    held: Set<u64>,
    desired: TierMarker,
    replies: Seq<RoleReply>,
)
    requires
        held.finite(),
        plan_for(roles, held, desired).revoke.len() <= usize::MAX,
        run(
            plan_for(roles, held, desired),
            first_stage(plan_for(roles, held, desired)),
            GuildModel { roles, held },
            replies,
        ).0 == SyncStage::Finished,
    ensures
        ({
            let plan = plan_for(roles, held, desired);
            let end = run(plan, first_stage(plan), GuildModel { roles, held }, replies).1;
            let tier_held = held_tier_roles(end.roles, end.held);
            &&& end == reconciled(roles, held, desired, created_id(plan, replies))
            &&& tier_held.finite()
            &&& tier_held.len() == if desired == TierMarker::Untracked {
                0nat
            } else {
                1nat
            }
        }),
{
    let plan = plan_for(roles, held, desired);
    lemma_finished_run_matches_plan(plan, roles, held, replies);
    lemma_reconcile_exclusive(roles, held, desired, created_id(plan, replies));
}

} // verus!
