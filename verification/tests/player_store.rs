use tier_tracker::store::{PlayerKey, TrackedPlayer, TrackedPlayerStore};
use tier_tracker::tier::{vocabulary, TierMarker};

fn key(community_id: u64, member_id: u64) -> PlayerKey {
    PlayerKey { community_id, member_id }
}

fn player(k: PlayerKey, id: &str, tier: TierMarker) -> TrackedPlayer {
    TrackedPlayer { key: k, player_identifier: id.to_string(), tier }
}

#[test]
fn a_new_store_is_empty() {
    let store = TrackedPlayerStore::new();
    assert_eq!(store.len(), 0);
    assert_eq!(store.get(key(1, 2)), None);
}

#[test]
fn what_is_written_is_read() {
    let mut store = TrackedPlayerStore::new();
    let mut n: u64 = 0;
    for tier in vocabulary() {
        n += 1;
        let p = player(key(7, n), "abc123", tier);
        store.upsert(p.clone());
        assert_eq!(store.get(p.key), Some(p));
    }
    assert_eq!(store.len(), 10);
}

#[test]
fn writing_again_overwrites_identifier_and_tier() {
    let mut store = TrackedPlayerStore::new();
    store.upsert(player(key(1, 2), "abc123", TierMarker::Silver));
    store.upsert(player(key(1, 3), "other", TierMarker::Iron));
    store.upsert(player(key(1, 2), "xyz", TierMarker::Gold));
    assert_eq!(store.len(), 2);
    assert_eq!(store.get(key(1, 2)), Some(player(key(1, 2), "xyz", TierMarker::Gold)));
    assert_eq!(store.get(key(1, 3)), Some(player(key(1, 3), "other", TierMarker::Iron)));
}

#[test]
fn keys_are_community_and_member_together() {
    let mut store = TrackedPlayerStore::new();
    store.upsert(player(key(1, 2), "a", TierMarker::Silver));
    store.upsert(player(key(2, 1), "b", TierMarker::Gold));
    store.upsert(player(key(2, 2), "c", TierMarker::Iron));
    assert_eq!(store.get(key(1, 2)).unwrap().player_identifier, "a");
    assert_eq!(store.get(key(2, 1)).unwrap().player_identifier, "b");
    assert_eq!(store.get(key(2, 2)).unwrap().player_identifier, "c");
    assert_eq!(store.get(key(1, 1)), None);
}

#[test]
fn deleting_removes_the_record_and_no_other() {
    let mut store = TrackedPlayerStore::new();
    store.upsert(player(key(1, 2), "a", TierMarker::Silver));
    store.upsert(player(key(1, 3), "b", TierMarker::Gold));
    store.upsert(player(key(1, 4), "c", TierMarker::Iron));
    store.delete(key(1, 3));
    assert_eq!(store.len(), 2);
    assert_eq!(store.get(key(1, 3)), None);
    assert_eq!(store.get(key(1, 2)), Some(player(key(1, 2), "a", TierMarker::Silver)));
    assert_eq!(store.get(key(1, 4)), Some(player(key(1, 4), "c", TierMarker::Iron)));
}

#[test]
fn deleting_what_is_absent_changes_nothing() {
    let mut store = TrackedPlayerStore::new();
    store.delete(key(1, 2));
    assert_eq!(store.len(), 0);
    store.upsert(player(key(1, 2), "a", TierMarker::Silver));
    store.delete(key(9, 9));
    assert_eq!(store.len(), 1);
    assert_eq!(store.get(key(1, 2)), Some(player(key(1, 2), "a", TierMarker::Silver)));
}

#[test]
fn duplicate_copies_every_field() {
    let p = player(key(5, 6), "abc123", TierMarker::Master);
    assert_eq!(p.duplicate(), p);
}
