//! The handling of a trigger: which request goes out next, given what came
//! back for the last one.
//!
//! A flow asks for one thing at a time. Whoever runs it performs the
//! request, hands the answer back as an event, and gets the next request,
//! until the flow ends.

use crate::command::{Command, CommandModel};
use crate::error::TrackerError;
use crate::store::{PlayerKey, PlayerModel, TrackedPlayer};
use crate::tier::TierMarker;
use vstd::prelude::*;

verus! {

/// What sets a flow off.
#[derive(Clone, Debug, PartialEq, Eq)]
pub enum Trigger {
    /// A member asked to be followed as the player of `handle`.
    Track { key: PlayerKey, handle: String },
    /// A member asked not to be followed any more.
    Untrack { key: PlayerKey },
    /// The platform reported a change in a member's presence.
    Presence { key: PlayerKey },
}

/// A trigger as contracts see it.
pub enum TriggerModel {
    Track { key: PlayerKey, handle: Seq<char> },
    Untrack { key: PlayerKey },
    Presence { key: PlayerKey },
}

impl View for Trigger {
    type V = TriggerModel;

    open spec fn view(&self) -> TriggerModel {
        match self {
            Trigger::Track { key, handle } => TriggerModel::Track { key: *key, handle: handle@ },
            Trigger::Untrack { key } => TriggerModel::Untrack { key: *key },
            Trigger::Presence { key } => TriggerModel::Presence { key: *key },
        }
    }
}

/// What a flow asks for.
#[derive(Clone, Debug, PartialEq, Eq)]
pub enum Request {
    /// Ask the ranking service for the player of a handle.
    ResolveIdentity { handle: String },
    /// Ask the ranking service for the tier of a player.
    ResolveTier { identifier: String },
    /// Read the record kept under a key.
    Load { key: PlayerKey },
    /// Write a record: create it, or overwrite identifier and tier.
    Save { player: TrackedPlayer },
    /// Remove the record kept under a key.
    Delete { key: PlayerKey },
    /// Reconcile the member's roles with a tier.
    Reconcile { key: PlayerKey, desired: TierMarker },
    /// The flow has ended and all is well.
    Done,
    /// The flow has ended in a failure. A failure of a command is shown to
    /// the member who gave it; any other is only recorded.
    Fail { error: TrackerError, visible: bool },
    /// The flow had ended before: there is nothing to do.
    Idle,
}

/// A request as contracts see it.
pub enum RequestModel {
    ResolveIdentity { handle: Seq<char> },
    ResolveTier { identifier: Seq<char> },
    Load { key: PlayerKey },
    Save { player: PlayerModel },
    Delete { key: PlayerKey },
    Reconcile { key: PlayerKey, desired: TierMarker },
    Done,
    Fail { error: TrackerError, visible: bool },
    Idle,
}

impl View for Request {
    type V = RequestModel;

    open spec fn view(&self) -> RequestModel {
        match self {
            Request::ResolveIdentity { handle } => RequestModel::ResolveIdentity { handle: handle@ },
            Request::ResolveTier { identifier } => RequestModel::ResolveTier {
                identifier: identifier@,
            },
            Request::Load { key } => RequestModel::Load { key: *key },
            Request::Save { player } => RequestModel::Save { player: player@ },
            Request::Delete { key } => RequestModel::Delete { key: *key },
            Request::Reconcile { key, desired } => RequestModel::Reconcile {
                key: *key,
                desired: *desired,
            },
            Request::Done => RequestModel::Done,
            Request::Fail { error, visible } => RequestModel::Fail {
                error: *error,
                visible: *visible,
            },
            Request::Idle => RequestModel::Idle,
        }
    }
}

/// What came back for a request.
#[derive(Clone, Debug, PartialEq, Eq)]
pub enum Event {
    /// The ranking service named the player.
    Identity { identifier: String },
    /// The ranking service named the tier.
    Tier { tier: TierMarker },
    /// The ranking service gave no answer, for this reason.
    ResolveFailed { error: TrackerError },
    /// The store was read: the record, or `None` where the key has none.
    Loaded { player: Option<TrackedPlayer> },
    /// The store was written.
    Stored,
    /// The store could not be read or written.
    StoreFailed,
    /// The roles were reconciled.
    Reconciled,
    /// A change of roles failed.
    ReconcileFailed,
}

/// An event as contracts see it.
pub enum EventModel {
    Identity { identifier: Seq<char> },
    Tier { tier: TierMarker },
    ResolveFailed { error: TrackerError },
    Loaded { player: Option<PlayerModel> },
    Stored,
    StoreFailed,
    Reconciled,
    ReconcileFailed,
}

impl View for Event {
    type V = EventModel;

    open spec fn view(&self) -> EventModel {
        match self {
            Event::Identity { identifier } => EventModel::Identity { identifier: identifier@ },
            Event::Tier { tier } => EventModel::Tier { tier: *tier },
            Event::ResolveFailed { error } => EventModel::ResolveFailed { error: *error },
            Event::Loaded { player } => EventModel::Loaded {
                player: match player {
                    Some(p) => Some(p@),
                    None => None,
                },
            },
            Event::Stored => EventModel::Stored,
            Event::StoreFailed => EventModel::StoreFailed,
            Event::Reconciled => EventModel::Reconciled,
            Event::ReconcileFailed => EventModel::ReconcileFailed,
        }
    }
}

/// Where a flow stands: what it waits for and what it has learnt so far.
#[derive(Clone, Debug, PartialEq, Eq)]
pub enum Flow {
    /// A track command waits for the player of the handle.
    TrackIdentity { key: PlayerKey },
    /// A track command waits for the player's tier.
    TrackTier { key: PlayerKey, identifier: String },
    /// A track command waits for the record to be written.
    TrackStore { key: PlayerKey, tier: TierMarker },
    /// An untrack command waits for the record to be removed.
    UntrackStore { key: PlayerKey },
    /// A presence change waits for the member's record.
    PresenceRecord { key: PlayerKey },
    /// A presence change waits for the tier of the member's player; `tier`
    /// is the tier on record.
    PresenceTier { key: PlayerKey, identifier: String, tier: TierMarker },
    /// A presence change waits for the new tier to be written.
    PresenceStore { key: PlayerKey, tier: TierMarker },
    /// The flow waits for the roles to be reconciled.
    Reconciling { visible: bool },
    /// The flow has ended.
    Ended,
}

/// A flow as contracts see it.
pub enum FlowModel {
    TrackIdentity { key: PlayerKey },
    TrackTier { key: PlayerKey, identifier: Seq<char> },
    TrackStore { key: PlayerKey, tier: TierMarker },
    UntrackStore { key: PlayerKey },
    PresenceRecord { key: PlayerKey },
    PresenceTier { key: PlayerKey, identifier: Seq<char>, tier: TierMarker },
    PresenceStore { key: PlayerKey, tier: TierMarker },
    Reconciling { visible: bool },
    Ended,
}

impl View for Flow {
    type V = FlowModel;

    open spec fn view(&self) -> FlowModel {
        match self {
            Flow::TrackIdentity { key } => FlowModel::TrackIdentity { key: *key },
            Flow::TrackTier { key, identifier } => FlowModel::TrackTier {
                key: *key,
                identifier: identifier@,
            },
            Flow::TrackStore { key, tier } => FlowModel::TrackStore { key: *key, tier: *tier },
            Flow::UntrackStore { key } => FlowModel::UntrackStore { key: *key },
            Flow::PresenceRecord { key } => FlowModel::PresenceRecord { key: *key },
            Flow::PresenceTier { key, identifier, tier } => FlowModel::PresenceTier {
                key: *key,
                identifier: identifier@,
                tier: *tier,
            },
            Flow::PresenceStore { key, tier } => FlowModel::PresenceStore { key: *key, tier: *tier },
            Flow::Reconciling { visible } => FlowModel::Reconciling { visible: *visible },
            Flow::Ended => FlowModel::Ended,
        }
    }
}

/// The failure of a resolution as a flow reports it: not found, rejected,
/// or, for anything else, the service at fault.
pub open spec fn resolver_failure(error: TrackerError) -> TrackerError {
    match error {
        TrackerError::NotFound => TrackerError::NotFound,
        TrackerError::AuthError => TrackerError::AuthError,
        _ => TrackerError::UpstreamError,
    }
}

/// A flow that ends in a failure.
pub open spec fn failed(error: TrackerError, visible: bool) -> (FlowModel, RequestModel) {
    (FlowModel::Ended, RequestModel::Fail { error, visible })
}

/// The trigger that a command of a member sets off. `!ping` is answered on
/// the spot and sets off none; neither does a message that is no command.
pub open spec fn trigger_of(command: CommandModel, key: PlayerKey) -> Option<TriggerModel> {
    match command {
        CommandModel::Track { handle } => Some(TriggerModel::Track { key, handle }),
        CommandModel::Untrack => Some(TriggerModel::Untrack { key }),
        CommandModel::Ping => None,
        CommandModel::Other => None,
    }
}

/// How a trigger begins: the flow and its first request.
pub open spec fn spec_start(trigger: TriggerModel) -> (FlowModel, RequestModel) {
    match trigger {
        TriggerModel::Track { key, handle } => (
            FlowModel::TrackIdentity { key },
            RequestModel::ResolveIdentity { handle },
        ),
        TriggerModel::Untrack { key } => (
            FlowModel::UntrackStore { key },
            RequestModel::Delete { key },
        ),
        TriggerModel::Presence { key } => (
            FlowModel::PresenceRecord { key },
            RequestModel::Load { key },
        ),
    }
}

/// How a flow goes on once the answer to its request is known. An event
/// that is no answer to the request counts as the failure of that request;
/// so does a resolved tier of `Untracked`, which no player has.
pub open spec fn spec_step(flow: FlowModel, event: EventModel) -> (FlowModel, RequestModel) {
    match flow {
        FlowModel::TrackIdentity { key } => match event {
            EventModel::Identity { identifier } => (
                FlowModel::TrackTier { key, identifier },
                RequestModel::ResolveTier { identifier },
            ),
            EventModel::ResolveFailed { error } => failed(resolver_failure(error), true),
            _ => failed(TrackerError::UpstreamError, true),
        },
        FlowModel::TrackTier { key, identifier } => match event {
            EventModel::Tier { tier } => if tier == TierMarker::Untracked {
                failed(TrackerError::UpstreamError, true)
            } else {
                (
                    FlowModel::TrackStore { key, tier },
                    RequestModel::Save {
                        player: PlayerModel { key, player_identifier: identifier, tier },
                    },
                )
            },
            EventModel::ResolveFailed { error } => failed(resolver_failure(error), true),
            _ => failed(TrackerError::UpstreamError, true),
        },
        FlowModel::TrackStore { key, tier } => match event {
            EventModel::Stored => (
                FlowModel::Reconciling { visible: true },
                RequestModel::Reconcile { key, desired: tier },
            ),
            _ => failed(TrackerError::StoreError, true),
        },
        FlowModel::UntrackStore { key } => match event {
            EventModel::Stored => (
                FlowModel::Reconciling { visible: true },
                RequestModel::Reconcile { key, desired: TierMarker::Untracked },
            ),
            _ => failed(TrackerError::StoreError, true),
        },
        FlowModel::PresenceRecord { key } => match event {
            EventModel::Loaded { player } => match player {
                None => (FlowModel::Ended, RequestModel::Done),
                Some(p) => (
                    FlowModel::PresenceTier {
                        key,
                        identifier: p.player_identifier,
                        tier: p.tier,
                    },
                    RequestModel::ResolveTier { identifier: p.player_identifier },
                ),
            },
            _ => failed(TrackerError::StoreError, false),
        },
        FlowModel::PresenceTier { key, identifier, tier } => match event {
            EventModel::Tier { tier: fresh } => if fresh == TierMarker::Untracked {
                failed(TrackerError::UpstreamError, false)
            } else if fresh == tier {
                (FlowModel::Ended, RequestModel::Done)
            } else {
                (
                    FlowModel::PresenceStore { key, tier: fresh },
                    RequestModel::Save {
                        player: PlayerModel { key, player_identifier: identifier, tier: fresh },
                    },
                )
            },
            EventModel::ResolveFailed { error } => failed(resolver_failure(error), false),
            _ => failed(TrackerError::UpstreamError, false),
        },
        FlowModel::PresenceStore { key, tier } => match event {
            EventModel::Stored => (
                FlowModel::Reconciling { visible: false },
                RequestModel::Reconcile { key, desired: tier },
            ),
            _ => failed(TrackerError::StoreError, false),
        },
        FlowModel::Reconciling { visible } => match event {
            EventModel::Reconciled => (FlowModel::Ended, RequestModel::Done),
            _ => failed(TrackerError::RoleMutationError, visible),
        },
        FlowModel::Ended => (FlowModel::Ended, RequestModel::Idle),
    }
}

/// The requests that a flow makes in answer to a run of events, one for
/// each event.
pub open spec fn requests(flow: FlowModel, events: Seq<EventModel>) -> Seq<RequestModel>
    decreases events.len(),
{
    if events.len() == 0 {
        Seq::empty()
    } else {
        let (after, request) = spec_step(flow, events[0]);
        seq![request] + requests(after, events.drop_first())
    }
}

/// Every request of a trigger: the first, and one for each event.
pub open spec fn trace(trigger: TriggerModel, events: Seq<EventModel>) -> Seq<RequestModel> {
    let (flow, first) = spec_start(trigger);
    seq![first] + requests(flow, events)
}

/// Whether a request writes to the store.
pub open spec fn writes_store(request: RequestModel) -> bool {
    request is Save || request is Delete
}

/// Whether a request leads to calls that change roles.
pub open spec fn calls_roles(request: RequestModel) -> bool {
    request is Reconcile
}

/// Whether a request goes to the ranking service.
pub open spec fn calls_resolver(request: RequestModel) -> bool {
    request is ResolveIdentity || request is ResolveTier
}

fn normalize(error: TrackerError) -> (r: TrackerError)
    ensures
        r == resolver_failure(error),
{
    match error {
        TrackerError::NotFound => TrackerError::NotFound,
        TrackerError::AuthError => TrackerError::AuthError,
        _ => TrackerError::UpstreamError,
    }
}

fn fail(error: TrackerError, visible: bool) -> (r: (Flow, Request))
    ensures
        (r.0@, r.1@) == failed(error, visible),
{
    (Flow::Ended, Request::Fail { error, visible })
}

/// Turns the command of the member `key` into the trigger it sets off.
pub fn dispatch(command: Command, key: PlayerKey) -> (trigger: Option<Trigger>)
    ensures
        trigger is Some <==> trigger_of(command@, key) is Some,
        trigger matches Some(t) ==> trigger_of(command@, key) == Some(t@),
{
    match command {
        Command::Track { handle } => Some(Trigger::Track { key, handle }),
        Command::Untrack => Some(Trigger::Untrack { key }),
        Command::Ping => None,
        Command::Other => None,
    }
}

/// Begins the handling of a trigger.
pub fn start(trigger: Trigger) -> (r: (Flow, Request))
    ensures
        (r.0@, r.1@) == spec_start(trigger@),
{
    match trigger {
        Trigger::Track { key, handle } => (
            Flow::TrackIdentity { key },
            Request::ResolveIdentity { handle },
        ),
        Trigger::Untrack { key } => (Flow::UntrackStore { key }, Request::Delete { key }),
        Trigger::Presence { key } => (Flow::PresenceRecord { key }, Request::Load { key }),
    }
}

/// Takes the answer to the flow's request and gives the flow as it stands
/// then, with its next request.
pub fn step(flow: Flow, event: Event) -> (r: (Flow, Request))
    ensures
        (r.0@, r.1@) == spec_step(flow@, event@),
{
    match flow {
        Flow::TrackIdentity { key } => match event {
            Event::Identity { identifier } => {
                let asked = identifier.clone();
                (Flow::TrackTier { key, identifier }, Request::ResolveTier { identifier: asked })
            },
            Event::ResolveFailed { error } => fail(normalize(error), true),
            _ => fail(TrackerError::UpstreamError, true),
        },
        Flow::TrackTier { key, identifier } => match event {
            Event::Tier { tier } => if tier == TierMarker::Untracked {
                fail(TrackerError::UpstreamError, true)
            } else {
                (
                    Flow::TrackStore { key, tier },
                    Request::Save {
                        player: TrackedPlayer { key, player_identifier: identifier, tier },
                    },
                )
            },
            Event::ResolveFailed { error } => fail(normalize(error), true),
            _ => fail(TrackerError::UpstreamError, true),
        },
        Flow::TrackStore { key, tier } => match event {
            Event::Stored => (
                Flow::Reconciling { visible: true },
                Request::Reconcile { key, desired: tier },
            ),
            _ => fail(TrackerError::StoreError, true),
        },
        Flow::UntrackStore { key } => match event {
            Event::Stored => (
                Flow::Reconciling { visible: true },
                Request::Reconcile { key, desired: TierMarker::Untracked },
            ),
            _ => fail(TrackerError::StoreError, true),
        },
        Flow::PresenceRecord { key } => match event {
            Event::Loaded { player } => match player {
                None => (Flow::Ended, Request::Done),
                Some(p) => {
                    let asked = p.player_identifier.clone();
                    (
                        Flow::PresenceTier { key, identifier: p.player_identifier, tier: p.tier },
                        Request::ResolveTier { identifier: asked },
                    )
                },
            },
            _ => fail(TrackerError::StoreError, false),
        },
        Flow::PresenceTier { key, identifier, tier } => match event {
            Event::Tier { tier: fresh } => if fresh == TierMarker::Untracked {
                fail(TrackerError::UpstreamError, false)
            } else if fresh == tier {
                (Flow::Ended, Request::Done)
            } else {
                (
                    Flow::PresenceStore { key, tier: fresh },
                    Request::Save {
                        player: TrackedPlayer { key, player_identifier: identifier, tier: fresh },
                    },
                )
            },
            Event::ResolveFailed { error } => fail(normalize(error), false),
            _ => fail(TrackerError::UpstreamError, false),
        },
        Flow::PresenceStore { key, tier } => match event {
            Event::Stored => (
                Flow::Reconciling { visible: false },
                Request::Reconcile { key, desired: tier },
            ),
            _ => fail(TrackerError::StoreError, false),
        },
        Flow::Reconciling { visible } => match event {
            Event::Reconciled => (Flow::Ended, Request::Done),
            _ => fail(TrackerError::RoleMutationError, visible),
        },
        Flow::Ended => (Flow::Ended, Request::Idle),
    }
}

impl Flow {
    /// Whether the flow has ended.
    pub fn has_ended(&self) -> (r: bool)
        ensures
            r == (self@ is Ended),
    {
        match self {
            Flow::Ended => true,
            _ => false,
        }
    }
}

} // verus!
