//! The competitive tiers and the labels of the roles that mark them.

use crate::text::same_text;
use vstd::prelude::*;

verus! {

/// A competitive tier, or one of the two markers that stand beside the
/// tiers: `Unranked` for a player without an entry in the tracked queue and
/// `Untracked` for a member who is no longer followed.
#[derive(Clone, Copy, Debug, PartialEq, Eq, Structural)]
pub enum TierMarker {
    Untracked,
    Unranked,
    Iron,
    Bronze,
    Silver,
    Gold,
    Platinum,
    Diamond,
    Master,
    Grandmaster,
    Challenger,
}

impl TierMarker {
    /// The label of the role that marks this tier. `Untracked` has none: a
    /// member who is not followed holds no tier role.
    pub open spec fn spec_label(self) -> Option<Seq<char>> {
        match self {
            TierMarker::Untracked => None,
            TierMarker::Unranked => Some("UNRANKED"@),
            TierMarker::Iron => Some("IRON"@),
            TierMarker::Bronze => Some("BRONZE"@),
            TierMarker::Silver => Some("SILVER"@),
            TierMarker::Gold => Some("GOLD"@),
            TierMarker::Platinum => Some("PLATINUM"@),
            TierMarker::Diamond => Some("DIAMOND"@),
            TierMarker::Master => Some("MASTER"@),
            TierMarker::Grandmaster => Some("GRANDMASTER"@),
            TierMarker::Challenger => Some("CHALLENGER"@),
        }
    }

    /// The position of this marker in the order in which tiers are shown,
    /// lowest first.
    pub open spec fn spec_ordinal(self) -> nat {
        match self {
            TierMarker::Untracked => 0,
            TierMarker::Unranked => 1,
            TierMarker::Iron => 2,
            TierMarker::Bronze => 3,
            TierMarker::Silver => 4,
            TierMarker::Gold => 5,
            TierMarker::Platinum => 6,
            TierMarker::Diamond => 7,
            TierMarker::Master => 8,
            TierMarker::Grandmaster => 9,
            TierMarker::Challenger => 10,
        }
    }

    /// The label of the role that marks this tier; `None` for `Untracked`.
    pub fn label(&self) -> (r: Option<&'static str>)
        ensures
            r is Some <==> self.spec_label() is Some,
            r matches Some(s) ==> self.spec_label() == Some(s@),
    {
        match self {
            TierMarker::Untracked => None,
            TierMarker::Unranked => Some("UNRANKED"),
            TierMarker::Iron => Some("IRON"),
            TierMarker::Bronze => Some("BRONZE"),
            TierMarker::Silver => Some("SILVER"),
            TierMarker::Gold => Some("GOLD"),
            TierMarker::Platinum => Some("PLATINUM"),
            TierMarker::Diamond => Some("DIAMOND"),
            TierMarker::Master => Some("MASTER"),
            TierMarker::Grandmaster => Some("GRANDMASTER"),
            TierMarker::Challenger => Some("CHALLENGER"),
        }
    }

    /// The position of this marker in the order of display.
    pub fn ordinal(&self) -> (r: u8)
        ensures
            r == self.spec_ordinal(),
    {
        match self {
            TierMarker::Untracked => 0,
            TierMarker::Unranked => 1,
            TierMarker::Iron => 2,
            TierMarker::Bronze => 3,
            TierMarker::Silver => 4,
            TierMarker::Gold => 5,
            TierMarker::Platinum => 6,
            TierMarker::Diamond => 7,
            TierMarker::Master => 8,
            TierMarker::Grandmaster => 9,
            TierMarker::Challenger => 10,
        }
    }

    /// The tier whose role carries this label, if the label belongs to the
    /// vocabulary. Labels are compared character for character.
    pub fn from_label(label: &str) -> (r: Option<TierMarker>)
        ensures
            r == tier_of_label(label@),
    {
        if same_text(label, "UNRANKED") {
            Some(TierMarker::Unranked)
        } else if same_text(label, "IRON") {
            Some(TierMarker::Iron)
        } else if same_text(label, "BRONZE") {
            Some(TierMarker::Bronze)
        } else if same_text(label, "SILVER") {
            Some(TierMarker::Silver)
        } else if same_text(label, "GOLD") {
            Some(TierMarker::Gold)
        } else if same_text(label, "PLATINUM") {
            Some(TierMarker::Platinum)
        } else if same_text(label, "DIAMOND") {
            Some(TierMarker::Diamond)
        } else if same_text(label, "MASTER") {
            Some(TierMarker::Master)
        } else if same_text(label, "GRANDMASTER") {
            Some(TierMarker::Grandmaster)
        } else if same_text(label, "CHALLENGER") {
            Some(TierMarker::Challenger)
        } else {
            None
        }
    }
}

/// The tier that a role label marks: the one tier whose label it is.
pub open spec fn tier_of_label(label: Seq<char>) -> Option<TierMarker> {
    if label == "UNRANKED"@ {
        Some(TierMarker::Unranked)
    } else if label == "IRON"@ {
        Some(TierMarker::Iron)
    } else if label == "BRONZE"@ {
        Some(TierMarker::Bronze)
    } else if label == "SILVER"@ {
        Some(TierMarker::Silver)
    } else if label == "GOLD"@ {
        Some(TierMarker::Gold)
    } else if label == "PLATINUM"@ {
        Some(TierMarker::Platinum)
    } else if label == "DIAMOND"@ {
        Some(TierMarker::Diamond)
    } else if label == "MASTER"@ {
        Some(TierMarker::Master)
    } else if label == "GRANDMASTER"@ {
        Some(TierMarker::Grandmaster)
    } else if label == "CHALLENGER"@ {
        Some(TierMarker::Challenger)
    } else {
        None
    }
}

/// Whether a role label belongs to the tier vocabulary.
pub open spec fn is_tier_label(label: Seq<char>) -> bool {
    tier_of_label(label) is Some
}

/// The tiers in the order in which they are shown, lowest first.
pub open spec fn spec_vocabulary() -> Seq<TierMarker> {
    seq![
        TierMarker::Unranked,
        TierMarker::Iron,
        TierMarker::Bronze,
        TierMarker::Silver,
        TierMarker::Gold,
        TierMarker::Platinum,
        TierMarker::Diamond,
        TierMarker::Master,
        TierMarker::Grandmaster,
        TierMarker::Challenger,
    ]
}

/// The tiers in the order of display, lowest first.
pub fn vocabulary() -> (r: Vec<TierMarker>)
    ensures
        r@ == spec_vocabulary(),
{
    let mut all: Vec<TierMarker> = Vec::new();
    all.push(TierMarker::Unranked);
    all.push(TierMarker::Iron);
    all.push(TierMarker::Bronze);
    all.push(TierMarker::Silver);
    all.push(TierMarker::Gold);
    all.push(TierMarker::Platinum);
    all.push(TierMarker::Diamond);
    all.push(TierMarker::Master);
    all.push(TierMarker::Grandmaster);
    all.push(TierMarker::Challenger);
    all
}

/// The length and the first character of each label: between them they tell
/// the ten labels apart.
proof fn lemma_labels_differ()
    ensures
        "UNRANKED"@.len() == 8 && "UNRANKED"@[0] == 'U',
        "IRON"@.len() == 4 && "IRON"@[0] == 'I',
        "BRONZE"@.len() == 6 && "BRONZE"@[0] == 'B',
        "SILVER"@.len() == 6 && "SILVER"@[0] == 'S',
        "GOLD"@.len() == 4 && "GOLD"@[0] == 'G',
        "PLATINUM"@.len() == 8 && "PLATINUM"@[0] == 'P',
        "DIAMOND"@.len() == 7 && "DIAMOND"@[0] == 'D',
        "MASTER"@.len() == 6 && "MASTER"@[0] == 'M',
        "GRANDMASTER"@.len() == 11 && "GRANDMASTER"@[0] == 'G',
        "CHALLENGER"@.len() == 10 && "CHALLENGER"@[0] == 'C',
{
    reveal_strlit("UNRANKED");
    reveal_strlit("IRON");
    reveal_strlit("BRONZE");
    reveal_strlit("SILVER");
    reveal_strlit("GOLD");
    reveal_strlit("PLATINUM");
    reveal_strlit("DIAMOND");
    reveal_strlit("MASTER");
    reveal_strlit("GRANDMASTER");
    reveal_strlit("CHALLENGER");
}

/// Reading a tier's label gives the tier back: no two tiers share a label.
pub proof fn lemma_label_round_trip(tier: TierMarker)
    requires
        tier != TierMarker::Untracked,
    ensures
        tier.spec_label() is Some,
        tier_of_label(tier.spec_label().unwrap()) == Some(tier),
{
    lemma_labels_differ();
}

/// A label that marks a tier is that tier's own label, and the tier is
/// never `Untracked`.
pub proof fn lemma_tier_of_label_sound(label: Seq<char>)
    ensures
        tier_of_label(label) matches Some(tier) ==> tier != TierMarker::Untracked
            && tier.spec_label() == Some(label),
{
}

/// Every tier of the vocabulary has a label, and `Untracked` is not among
/// them.
pub proof fn lemma_vocabulary_labelled()
    ensures
        forall|i: int|
            0 <= i < spec_vocabulary().len() ==> (#[trigger] spec_vocabulary()[i]).spec_label()
                is Some,
        forall|tier: TierMarker|
            tier != TierMarker::Untracked ==> spec_vocabulary().contains(tier),
{
}

} // verus!
