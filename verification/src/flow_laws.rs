//! What holds of every flow, whatever the events.

use crate::error::TrackerError;
use crate::flow::{
    calls_resolver, calls_roles, requests, spec_step, trace, writes_store, EventModel, FlowModel,
    RequestModel, TriggerModel,
};
use crate::store::{PlayerKey, PlayerModel};
use crate::tier::TierMarker;
use vstd::prelude::*;

verus! {

/// Whether a flow handles a command, whose failures are shown, and not a
/// presence change, whose failures are only recorded.
pub open spec fn answers_command(flow: FlowModel) -> bool {
    match flow {
        FlowModel::TrackIdentity { .. } => true,
        FlowModel::TrackTier { .. } => true,
        FlowModel::TrackStore { .. } => true,
        FlowModel::UntrackStore { .. } => true,
        FlowModel::Reconciling { visible } => visible,
        _ => false,
    }
}

/// Whether a flow has written to the store already, or had nothing to
/// write.
pub open spec fn has_written(flow: FlowModel) -> bool {
    flow is TrackStore || flow is UntrackStore || flow is PresenceStore || flow is Reconciling
        || flow is Ended
}

/// The records of a store once a request to write has been carried out;
/// any other request leaves them as they are.
pub open spec fn written(records: Map<PlayerKey, PlayerModel>, request: RequestModel) -> Map<
    PlayerKey,
    PlayerModel,
> {
    match request {
        RequestModel::Save { player } => records.insert(player.key, player),
        RequestModel::Delete { key } => records.remove(key),
        _ => records,
    }
}

/// The tier under which a member is tracked, or `None` for a member who is
/// not tracked.
pub open spec fn tracked_tier(records: Map<PlayerKey, PlayerModel>, key: PlayerKey) -> Option<
    TierMarker,
> {
    if records.contains_key(key) {
        Some(records[key].tier)
    } else {
        None
    }
}

/// A flow makes one request for each event.
pub proof fn lemma_one_request_per_event(flow: FlowModel, events: Seq<EventModel>)
    ensures
        requests(flow, events).len() == events.len(),
    decreases events.len(),
{
    if events.len() > 0 {
        lemma_one_request_per_event(spec_step(flow, events[0]).0, events.drop_first());
    }
}

/// The request at a position is the step that the flow takes there.
proof fn lemma_request_at(flow: FlowModel, events: Seq<EventModel>, i: int)
    requires
        0 <= i < events.len(),
    ensures
        requests(flow, events).len() == events.len(),
        i == 0 ==> requests(flow, events)[i] == spec_step(flow, events[0]).1,
        i > 0 ==> requests(flow, events)[i] == requests(
            spec_step(flow, events[0]).0,
            events.drop_first(),
        )[i - 1],
{
    lemma_one_request_per_event(flow, events);
}

/// A flow that has ended asks for nothing more.
pub proof fn lemma_ended_stays_idle(events: Seq<EventModel>)
    ensures
        requests(FlowModel::Ended, events).len() == events.len(),
        forall|i: int|
            0 <= i < events.len() ==> #[trigger] requests(FlowModel::Ended, events)[i]
                == RequestModel::Idle,
    decreases events.len(),
{
    if events.len() > 0 {
        lemma_ended_stays_idle(events.drop_first());
    }
}

/// Once a flow is past its write to the store it neither writes again nor
/// turns to the ranking service, and it reconciles at most once: right
/// after the write, and only if the write succeeded. A reconciliation that
/// fails is followed by no request that would undo the write.
pub proof fn lemma_nothing_after_write(flow: FlowModel, events: Seq<EventModel>)
    requires
        has_written(flow),
    ensures
        requests(flow, events).len() == events.len(),
        forall|i: int|
            0 <= i < events.len() ==> {
                let request = #[trigger] requests(flow, events)[i];
                &&& !writes_store(request)
                &&& !calls_resolver(request)
                &&& calls_roles(request) ==> i == 0 && events[0] is Stored && !(flow is Reconciling)
            },
    decreases events.len(),
{
    if events.len() > 0 {
        let after = spec_step(flow, events[0]).0;
        lemma_nothing_after_write(after, events.drop_first());
    }
}

/// A presence change for a member whose freshly resolved tier is the tier
/// on record changes nothing: no request of the flow writes to the store
/// and none touches roles, whatever events follow.
pub proof fn lemma_unchanged_tier_is_noop(
    key: PlayerKey,
    player: PlayerModel,
    later: Seq<EventModel>,
)
    ensures
        ({
            let events = seq![
                EventModel::Loaded { player: Some(player) },
                EventModel::Tier { tier: player.tier },
            ] + later;
            let all = trace(TriggerModel::Presence { key }, events);
            &&& all.len() == events.len() + 1
            &&& all[0] == RequestModel::Load { key }
            &&& all[1] == RequestModel::ResolveTier { identifier: player.player_identifier }
            &&& forall|i: int|
                0 <= i < all.len() ==> !writes_store(#[trigger] all[i]) && !calls_roles(all[i])
        }),
{
    let events = seq![
        EventModel::Loaded { player: Some(player) },
        EventModel::Tier { tier: player.tier },
    ] + later;
    let all = trace(TriggerModel::Presence { key }, events);
    let begun = FlowModel::PresenceRecord { key };
    lemma_one_request_per_event(begun, events);
    assert(events.drop_first().drop_first() =~= later);
    lemma_ended_stays_idle(later);
    assert forall|i: int| 0 <= i < all.len() implies !writes_store(#[trigger] all[i])
        && !calls_roles(all[i]) by {
        if i >= 1 {
            lemma_request_at(begun, events, i - 1);
        }
    }
}

/// A presence change for a member who is not tracked does nothing at all:
/// after the record was looked for, no request goes to the ranking service,
/// to the store or to the roles.
pub proof fn lemma_untracked_presence_is_noop(key: PlayerKey, later: Seq<EventModel>)
    ensures
        ({
            let events = seq![EventModel::Loaded { player: None }] + later;
            let all = trace(TriggerModel::Presence { key }, events);
            &&& all.len() == events.len() + 1
            &&& all[0] == RequestModel::Load { key }
            &&& all[1] == RequestModel::Done
            &&& forall|i: int|
                0 <= i < all.len() ==> !writes_store(#[trigger] all[i]) && !calls_roles(all[i])
                    && !calls_resolver(all[i])
        }),
{
    let events = seq![EventModel::Loaded { player: None }] + later;
    assert(events.drop_first() =~= later);
    lemma_ended_stays_idle(later);
}

/// A presence change for a member whose tier has changed writes the new
/// tier under the identifier on record and then reconciles with it.
pub proof fn lemma_changed_tier_is_applied(
    key: PlayerKey,
    player: PlayerModel,
    fresh: TierMarker,
    later: Seq<EventModel>,
)
    requires
        fresh != player.tier,
        fresh != TierMarker::Untracked,
    ensures
        ({
            let events = seq![
                EventModel::Loaded { player: Some(player) },
                EventModel::Tier { tier: fresh },
                EventModel::Stored,
                EventModel::Reconciled,
            ] + later;
            let all = trace(TriggerModel::Presence { key }, events);
            &&& all[2] == RequestModel::Save {
                player: PlayerModel {
                    key,
                    player_identifier: player.player_identifier,
                    tier: fresh,
                },
            }
            &&& all[3] == RequestModel::Reconcile { key, desired: fresh }
            &&& all[4] == RequestModel::Done
            &&& forall|records: Map<PlayerKey, PlayerModel>|
                tracked_tier(#[trigger] written(records, all[2]), key) == Some(fresh)
        }),
{
    let events = seq![
        EventModel::Loaded { player: Some(player) },
        EventModel::Tier { tier: fresh },
        EventModel::Stored,
        EventModel::Reconciled,
    ] + later;
    let begun = FlowModel::PresenceRecord { key };
    let e1 = events.drop_first();
    let e2 = e1.drop_first();
    let f1 = spec_step(begun, events[0]).0;
    let f2 = spec_step(f1, e1[0]).0;
    lemma_request_at(begun, events, 1);
    lemma_request_at(f2, e2, 1);
}

/// A track command writes to the store only once both resolutions have
/// succeeded, and then it writes what they gave: a record is never kept
/// for a player whose tier was not resolved. The roles are reconciled only
/// after that write has succeeded, and with the tier that was written.
pub proof fn lemma_track_writes_what_was_resolved(
    key: PlayerKey,
    handle: Seq<char>,
    events: Seq<EventModel>,
)
    ensures
        ({
            let all = trace(TriggerModel::Track { key, handle }, events);
            &&& all.len() == events.len() + 1
            &&& all[0] == RequestModel::ResolveIdentity { handle }
            &&& forall|i: int|
                0 <= i < all.len() && writes_store(#[trigger] all[i]) ==> {
                    &&& i == 2
                    &&& events[0] is Identity
                    &&& events[1] is Tier
                    &&& events[1]->tier != TierMarker::Untracked
                    &&& all[i] == RequestModel::Save {
                        player: PlayerModel {
                            key,
                            player_identifier: events[0]->identifier,
                            tier: events[1]->tier,
                        },
                    }
                }
            &&& forall|i: int|
                0 <= i < all.len() && calls_roles(#[trigger] all[i]) ==> {
                    &&& i == 3
                    &&& all[2] is Save
                    &&& events[2] is Stored
                    &&& all[i] == RequestModel::Reconcile { key, desired: events[1]->tier }
                }
        }),
{
    let all = trace(TriggerModel::Track { key, handle }, events);
    let begun = FlowModel::TrackIdentity { key };
    lemma_one_request_per_event(begun, events);
    assert forall|i: int| 0 <= i < all.len() implies {
        &&& writes_store(#[trigger] all[i]) ==> {
            &&& i == 2
            &&& events[0] is Identity
            &&& events[1] is Tier
            &&& events[1]->tier != TierMarker::Untracked
            &&& all[i] == RequestModel::Save {
                player: PlayerModel {
                    key,
                    player_identifier: events[0]->identifier,
                    tier: events[1]->tier,
                },
            }
        }
        &&& calls_roles(all[i]) ==> {
            &&& i == 3
            &&& all[2] is Save
            &&& events[2] is Stored
            &&& all[i] == RequestModel::Reconcile { key, desired: events[1]->tier }
        }
    } by {
        if i >= 1 {
            let e1 = events.drop_first();
            let f1 = spec_step(begun, events[0]).0;
            lemma_request_at(begun, events, i - 1);
            if f1 is Ended {
                lemma_ended_stays_idle(e1);
            } else if i >= 2 {
                let e2 = e1.drop_first();
                let f2 = spec_step(f1, e1[0]).0;
                if f2 is Ended {
                    lemma_ended_stays_idle(e2);
                } else if i >= 3 {
                    lemma_nothing_after_write(f2, e2);
                }
            }
        }
    }
}

/// A track command whose resolutions succeed leaves the member tracked
/// with the resolved tier, whether or not the member was tracked before,
/// and leaves every other member as it was.
pub proof fn lemma_track_makes_tracked(
    records: Map<PlayerKey, PlayerModel>,
    key: PlayerKey,
    handle: Seq<char>,
    identifier: Seq<char>,
    tier: TierMarker,
    later: Seq<EventModel>,
)
    requires
        tier != TierMarker::Untracked,
    ensures
        ({
            let events = seq![EventModel::Identity { identifier }, EventModel::Tier { tier }]
                + later;
            let all = trace(TriggerModel::Track { key, handle }, events);
            let after = written(records, all[2]);
            &&& all[1] == RequestModel::ResolveTier { identifier }
            &&& tracked_tier(after, key) == Some(tier)
            &&& after[key].player_identifier == identifier
            &&& forall|other: PlayerKey|
                other != key ==> tracked_tier(after, other) == tracked_tier(records, other)
        }),
{
    let events = seq![EventModel::Identity { identifier }, EventModel::Tier { tier }] + later;
    let begun = FlowModel::TrackIdentity { key };
    lemma_request_at(begun, events, 1);
}

/// An untrack command leaves the member untracked as soon as its first
/// request is carried out, and leaves every other member as it was.
pub proof fn lemma_untrack_makes_untracked(
    records: Map<PlayerKey, PlayerModel>,
    key: PlayerKey,
    events: Seq<EventModel>,
)
    ensures
        ({
            let all = trace(TriggerModel::Untrack { key }, events);
            let after = written(records, all[0]);
            &&& tracked_tier(after, key) is None
            &&& forall|other: PlayerKey|
                other != key ==> tracked_tier(after, other) == tracked_tier(records, other)
        }),
{
}

/// An untrack command removes the record first and clears the member's
/// tier roles only once the record is gone; it never writes a record and
/// never turns to the ranking service.
pub proof fn lemma_untrack_deletes_then_clears(key: PlayerKey, events: Seq<EventModel>)
    ensures
        ({
            let all = trace(TriggerModel::Untrack { key }, events);
            &&& all.len() == events.len() + 1
            &&& all[0] == RequestModel::Delete { key }
            &&& forall|i: int|
                1 <= i < all.len() ==> !writes_store(#[trigger] all[i]) && !calls_resolver(all[i])
            &&& forall|i: int|
                0 <= i < all.len() && calls_roles(#[trigger] all[i]) ==> {
                    &&& i == 1
                    &&& events[0] is Stored
                    &&& all[i] == RequestModel::Reconcile { key, desired: TierMarker::Untracked }
                }
        }),
{
    let begun = FlowModel::UntrackStore { key };
    lemma_nothing_after_write(begun, events);
}

/// A failure is shown to the member exactly where a command is handled: a
/// flow of a track or untrack command shows every failure, a flow of a
/// presence change shows none.
pub proof fn lemma_failures_shown_for_commands(flow: FlowModel, events: Seq<EventModel>)
    requires
        !(flow is Ended),
    ensures
        requests(flow, events).len() == events.len(),
        forall|i: int|
            0 <= i < events.len() ==> (#[trigger] requests(flow, events)[i] matches RequestModel::Fail {
                visible,
                ..
            } ==> visible == answers_command(flow)),
    decreases events.len(),
{
    if events.len() > 0 {
        let after = spec_step(flow, events[0]).0;
        if after is Ended {
            lemma_ended_stays_idle(events.drop_first());
        } else {
            lemma_failures_shown_for_commands(after, events.drop_first());
        }
    }
}

/// A resolution that fails ends the flow with a failure of the ranking
/// service, and a flow that fails at the store or at the roles says so.
pub proof fn lemma_failure_names_its_source(flow: FlowModel, event: EventModel)
    ensures
        spec_step(flow, event).1 matches RequestModel::Fail { error, .. } ==> {
            &&& spec_step(flow, event).0 is Ended
            &&& (flow is TrackIdentity || flow is TrackTier || flow is PresenceTier) ==> (error
                == TrackerError::NotFound || error == TrackerError::AuthError || error
                == TrackerError::UpstreamError)
            &&& (flow is TrackStore || flow is UntrackStore || flow is PresenceRecord
                || flow is PresenceStore) ==> error == TrackerError::StoreError
            &&& flow is Reconciling ==> error == TrackerError::RoleMutationError
        },
{
}

} // verus!
