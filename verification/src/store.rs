//! The tracked players: who is followed, under which identifier, and the
//! tier last seen.

use crate::tier::TierMarker;
use vstd::prelude::*;

verus! {

/// What a tracked player is kept under: the community and the member.
#[derive(Clone, Copy, Debug, PartialEq, Eq, Structural)]
pub struct PlayerKey {
    pub community_id: u64,
    pub member_id: u64,
}

/// A member who is followed: the identifier of the player at the ranking
/// service and the tier last seen.
#[derive(Clone, Debug, PartialEq, Eq)]
pub struct TrackedPlayer {
    pub key: PlayerKey,
    pub player_identifier: String,
    pub tier: TierMarker,
}

/// A tracked player as contracts see it.
pub struct PlayerModel {
    pub key: PlayerKey,
    pub player_identifier: Seq<char>,
    pub tier: TierMarker,
}

impl View for TrackedPlayer {
    type V = PlayerModel;

    open spec fn view(&self) -> PlayerModel {
        PlayerModel { key: self.key, player_identifier: self.player_identifier@, tier: self.tier }
    }
}

impl TrackedPlayer {
    /// A copy of the record.
    pub fn duplicate(&self) -> (copy: TrackedPlayer)
        ensures
            copy@ == self@,
    {
        TrackedPlayer {
            key: self.key,
            player_identifier: self.player_identifier.clone(),
            tier: self.tier,
        }
    }
}

/// The records of a list, each as contracts see it.
spec fn player_models(records: Seq<TrackedPlayer>) -> Seq<PlayerModel> {
    records.map_values(|p: TrackedPlayer| p@)
}

/// No two records are kept under one key.
spec fn distinct_keys(records: Seq<PlayerModel>) -> bool {
    forall|i: int, j: int|
        0 <= i < j < records.len() ==> (#[trigger] records[i]).key != (#[trigger] records[j]).key
}

/// The records of a list by their keys.
spec fn by_key(records: Seq<PlayerModel>) -> Map<PlayerKey, PlayerModel>
    decreases records.len(),
{
    if records.len() == 0 {
        Map::empty()
    } else {
        by_key(records.drop_last()).insert(records.last().key, records.last())
    }
}

/// Where keys are distinct, `by_key` holds each record under its key and
/// nothing else.
proof fn lemma_by_key(records: Seq<PlayerModel>)
    requires
        distinct_keys(records),
    ensures
        forall|key: PlayerKey| #[trigger]
            by_key(records).contains_key(key) <==> exists|i: int|
                0 <= i < records.len() && (#[trigger] records[i]).key == key,
        forall|i: int|
            0 <= i < records.len() ==> by_key(records).contains_key((#[trigger] records[i]).key)
                && by_key(records)[records[i].key] == records[i],
    decreases records.len(),
{
    if records.len() > 0 {
        let front = records.drop_last();
        let last = records.last();
        lemma_by_key(front);
        assert forall|key: PlayerKey| #[trigger] by_key(records).contains_key(key) implies exists|
            i: int,
        |
            0 <= i < records.len() && (#[trigger] records[i]).key == key by {
            if key != last.key {
                assert(by_key(front).contains_key(key));
            }
        }
        assert forall|i: int| 0 <= i < records.len() implies by_key(records).contains_key(
            (#[trigger] records[i]).key,
        ) && by_key(records)[records[i].key] == records[i] by {
            if i < front.len() {
                assert(front[i] == records[i]);
            }
        }
    }
}

/// A store of tracked players held in memory: one record for each key.
pub struct TrackedPlayerStore {
    records: Vec<TrackedPlayer>,
}

impl View for TrackedPlayerStore {
    type V = Map<PlayerKey, PlayerModel>;

    closed spec fn view(&self) -> Map<PlayerKey, PlayerModel> {
        by_key(player_models(self.records@))
    }
}

impl TrackedPlayerStore {
    #[verifier::type_invariant]
    spec fn keys_are_distinct(&self) -> bool {
        distinct_keys(player_models(self.records@))
    }

    /// A store without records.
    pub fn new() -> (store: TrackedPlayerStore)
        ensures
            store@ == Map::<PlayerKey, PlayerModel>::empty(),
    {
        TrackedPlayerStore { records: Vec::new() }
    }

    /// The number of tracked players.
    pub fn len(&self) -> (n: usize)
        ensures
            n == self@.dom().len(),
            self@.dom().finite(),
    {
        proof {
            use_type_invariant(self);
            lemma_by_key_len(player_models(self.records@));
        }
        self.records.len()
    }

    /// Moves the records out and leaves the store without any.
    fn take_records(&mut self) -> (records: Vec<TrackedPlayer>)
        ensures
            records == old(self).records,
            final(self).records@.len() == 0,
    {
        let mut taken = TrackedPlayerStore { records: Vec::new() };
        core::mem::swap(self, &mut taken);
        taken.records
    }

    fn position(&self, key: PlayerKey) -> (at: Option<usize>)
        ensures
            at matches Some(i) ==> i < self.records@.len() && self.records@[i as int].key == key,
            at is None ==> forall|i: int|
                0 <= i < self.records@.len() ==> (#[trigger] self.records@[i]).key != key,
    {
        let n: usize = self.records.len();
        let mut i: usize = 0;
        while i < n
            invariant
                n == self.records.len(),
                i <= n,
                forall|j: int| 0 <= j < i ==> (#[trigger] self.records@[j]).key != key,
            decreases n - i,
        {
            if self.records[i].key == key {
                return Some(i);
            }
            i += 1;
        }
        None
    }

    /// The record kept under `key`, or `None` where the member is not
    /// tracked.
    pub fn get(&self, key: PlayerKey) -> (found: Option<TrackedPlayer>)
        ensures
            found is Some <==> self@.contains_key(key),
            found matches Some(player) ==> player@ == self@[key],
    {
        let ghost models = player_models(self.records@);
        proof {
            use_type_invariant(self);
            lemma_by_key(models);
        }
        match self.position(key) {
            Some(i) => {
                assert(models[i as int].key == key);
                Some(self.records[i].duplicate())
            },
            None => None,
        }
    }

    /// Keeps `player` under its key: a new record where the key had none,
    /// else the record's identifier and tier are overwritten.
    pub fn upsert(&mut self, player: TrackedPlayer)
        ensures
            final(self)@ == old(self)@.insert(player.key, player@),
    {
        let ghost before = player_models(self.records@);
        let ghost key = player.key;
        let ghost model = player@;
        proof {
            use_type_invariant(&*self);
            lemma_by_key(before);
        }
        let at = self.position(player.key);
        let mut records = self.take_records();
        match at {
            Some(i) => {
                records.set(i, player);
                let ghost after = player_models(records@);
                assert(after =~= before.update(i as int, model));
                assert(distinct_keys(after)) by {
                    assert forall|a: int, b: int| 0 <= a < b < after.len() implies (
                    #[trigger] after[a]).key != (#[trigger] after[b]).key by {
                        assert(after[a].key == before[a].key);
                        assert(after[b].key == before[b].key);
                    }
                }
                proof {
                    lemma_by_key(after);
                }
                assert(by_key(after) =~= by_key(before).insert(key, model)) by {
                    assert forall|k: PlayerKey| #[trigger]
                        by_key(after).contains_key(k) == by_key(before).insert(
                            key,
                            model,
                        ).contains_key(k) by {
                        if by_key(after).contains_key(k) {
                            let j = choose|j: int| 0 <= j < after.len() && (#[trigger] after[j]).key == k;
                            assert(before[j].key == k);
                        }
                        if by_key(before).contains_key(k) {
                            let j = choose|j: int| 0 <= j < before.len() && (#[trigger] before[j]).key == k;
                            assert(after[j].key == k);
                        }
                    }
                }
            },
            None => {
                records.push(player);
                let ghost after = player_models(records@);
                assert(after =~= before.push(model));
                assert(after.drop_last() =~= before);
            },
        }
        *self = TrackedPlayerStore { records };
    }

    /// Removes the record kept under `key`; nothing changes where there is
    /// none.
    pub fn delete(&mut self, key: PlayerKey)
        ensures
            final(self)@ == old(self)@.remove(key),
    {
        let ghost before = player_models(self.records@);
        proof {
            use_type_invariant(&*self);
            lemma_by_key(before);
        }
        let at = self.position(key);
        let mut records = self.take_records();
        match at {
            Some(i) => {
                records.remove(i);
                let ghost after = player_models(records@);
                assert(after =~= before.remove(i as int));
                proof {
                    lemma_by_key(after);
                }
                assert(by_key(after) =~= by_key(before).remove(key)) by {
                    assert forall|k: PlayerKey| #[trigger]
                        by_key(after).contains_key(k) == by_key(before).remove(key).contains_key(
                            k,
                        ) by {
                        if by_key(after).contains_key(k) {
                            let j = choose|j: int| 0 <= j < after.len() && (#[trigger] after[j]).key == k;
                            let j0 = if j < i { j } else { j + 1 };
                            if j0 < i {
                                assert(before[j0].key != before[i as int].key);
                            }
                        }
                        if by_key(before).remove(key).contains_key(k) {
                            let j = choose|j: int| 0 <= j < before.len() && (#[trigger] before[j]).key == k;
                            let j1 = if j < i { j } else { j - 1 };
                            assert(after[j1].key == k);
                        }
                    }
                }
            },
            None => {},
        }
        *self = TrackedPlayerStore { records };
    }
}

/// Where keys are distinct there are as many keys as records.
proof fn lemma_by_key_len(records: Seq<PlayerModel>)
    requires
        distinct_keys(records),
    ensures
        by_key(records).dom().finite(),
        by_key(records).dom().len() == records.len(),
    decreases records.len(),
{
    if records.len() > 0 {
        let front = records.drop_last();
        lemma_by_key_len(front);
        lemma_by_key(front);
    }
}

/// A record that was written is the record that is read: under the key of
/// `player` the store holds `player`, and every other key holds what it held.
pub proof fn lemma_upsert_then_get(records: Map<PlayerKey, PlayerModel>, player: PlayerModel)
    ensures
        records.insert(player.key, player).contains_key(player.key),
        records.insert(player.key, player)[player.key] == player,
        forall|other: PlayerKey|
            other != player.key ==> (records.insert(player.key, player).contains_key(other)
                <==> records.contains_key(other)),
        forall|other: PlayerKey|
            other != player.key && records.contains_key(other) ==> records.insert(
                player.key,
                player,
            )[other] == records[other],
{
}

/// A record that was deleted is read as absent, and deleting under a key
/// without a record changes nothing.
pub proof fn lemma_delete_then_get(records: Map<PlayerKey, PlayerModel>, key: PlayerKey)
    ensures
        !records.remove(key).contains_key(key),
        !records.contains_key(key) ==> records.remove(key) == records,
{
}

} // verus!
