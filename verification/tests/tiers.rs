use tier_tracker::tier::{vocabulary, TierMarker};

#[test]
fn every_tier_has_its_label() {
    assert_eq!(TierMarker::Unranked.label(), Some("UNRANKED"));
    assert_eq!(TierMarker::Iron.label(), Some("IRON"));
    assert_eq!(TierMarker::Bronze.label(), Some("BRONZE"));
    assert_eq!(TierMarker::Silver.label(), Some("SILVER"));
    assert_eq!(TierMarker::Gold.label(), Some("GOLD"));
    assert_eq!(TierMarker::Platinum.label(), Some("PLATINUM"));
    assert_eq!(TierMarker::Diamond.label(), Some("DIAMOND"));
    assert_eq!(TierMarker::Master.label(), Some("MASTER"));
    assert_eq!(TierMarker::Grandmaster.label(), Some("GRANDMASTER"));
    assert_eq!(TierMarker::Challenger.label(), Some("CHALLENGER"));
}

#[test]
fn untracked_has_no_label() {
    assert_eq!(TierMarker::Untracked.label(), None);
}

#[test]
fn labels_read_back_to_their_tier() {
    for tier in vocabulary() {
        let label = tier.label().unwrap();
        assert_eq!(TierMarker::from_label(label), Some(tier));
    }
}

#[test]
fn labels_are_compared_exactly() {
    assert_eq!(TierMarker::from_label("gold"), None);
    assert_eq!(TierMarker::from_label("Unranked"), None);
    assert_eq!(TierMarker::from_label("GOLD "), None);
    assert_eq!(TierMarker::from_label(""), None);
    assert_eq!(TierMarker::from_label("UNTRACKED"), None);
    assert_eq!(TierMarker::from_label("EMERALD"), None);
}

#[test]
fn vocabulary_is_in_display_order() {
    let all = vocabulary();
    assert_eq!(
        all,
        vec![
            TierMarker::Unranked,
            TierMarker::Iron,
            TierMarker::Bronze,
            TierMarker::Silver,
            TierMarker::Gold,
            TierMarker::Platinum,
            TierMarker::Diamond,
            TierMarker::Master,
            TierMarker::Grandmaster,
            TierMarker::Challenger,
        ]
    );
    for pair in all.windows(2) {
        assert!(pair[0].ordinal() < pair[1].ordinal());
    }
    assert_eq!(TierMarker::Untracked.ordinal(), 0);
    assert_eq!(TierMarker::Unranked.ordinal(), 1);
    assert_eq!(TierMarker::Challenger.ordinal(), 10);
}
