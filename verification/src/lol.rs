//! The ranking service of League of Legends: the requests put to it and the
//! reading of its answers.

use crate::error::TrackerError;
use crate::json::{
    elements_of, json_models, json_parsed, parse_document, read_text_member, text_member,
    JsonModel,
};
use crate::text::same_text;
use crate::tier::{tier_of_label, TierMarker};
use serde_json::Value;
use vstd::prelude::*;
use vstd::string::*;

verus! {

/// One standing of a player: the queue it was earned in and the tier, where
/// the service names one.
#[derive(Clone, Debug, PartialEq, Eq)]
pub struct LeagueEntry {
    pub queue_type: String,
    pub tier: Option<String>,
}

/// A standing as contracts see it.
pub struct EntryModel {
    pub queue_type: Seq<char>,
    pub tier: Option<Seq<char>>,
}

impl View for LeagueEntry {
    type V = EntryModel;

    open spec fn view(&self) -> EntryModel {
        EntryModel {
            queue_type: self.queue_type@,
            tier: match self.tier {
                Some(t) => Some(t@),
                None => None,
            },
        }
    }
}

/// The standings of a list, each as contracts see it.
pub open spec fn entry_models(entries: Seq<LeagueEntry>) -> Seq<EntryModel> {
    entries.map_values(|e: LeagueEntry| e@)
}

/// The queue whose standing decides a player's tier.
pub open spec fn tracked_queue() -> Seq<char> {
    "RANKED_SOLO_5x5"@
}

/// The address under which the service looks a player up by handle.
pub open spec fn summoner_endpoint() -> Seq<char> {
    "https://br1.api.riotgames.com/lol/summoner/v4/summoners/by-name/"@
}

/// The address under which the service lists a player's standings.
pub open spec fn league_endpoint() -> Seq<char> {
    "https://br1.api.riotgames.com/lol/league/v4/entries/by-summoner/"@
}

/// A text with each space written as `%20`.
pub open spec fn escape_spaces(s: Seq<char>) -> Seq<char>
    decreases s.len(),
{
    if s.len() == 0 {
        Seq::empty()
    } else if s.last() == ' ' {
        escape_spaces(s.drop_last()) + "%20"@
    } else {
        escape_spaces(s.drop_last()).push(s.last())
    }
}

/// The failure that a status of the service stands for; none for a status
/// of success.
pub open spec fn status_failure(status: u16) -> Option<TrackerError> {
    if 200 <= status <= 299 {
        None
    } else if status == 404 {
        Some(TrackerError::NotFound)
    } else if status == 401 || status == 403 {
        Some(TrackerError::AuthError)
    } else {
        Some(TrackerError::UpstreamError)
    }
}

/// The first standing earned in the tracked queue.
pub open spec fn tracked_entry(entries: Seq<EntryModel>) -> Option<EntryModel>
    decreases entries.len(),
{
    if entries.len() == 0 {
        None
    } else if entries[0].queue_type == tracked_queue() {
        Some(entries[0])
    } else {
        tracked_entry(entries.drop_first())
    }
}

/// The tier that a list of standings gives: that of the first standing in
/// the tracked queue, `Unranked` where there is none. A standing in the
/// tracked queue without a tier of the vocabulary is no answer.
pub open spec fn tier_of_entries(entries: Seq<EntryModel>) -> Result<TierMarker, TrackerError> {
    match tracked_entry(entries) {
        None => Ok(TierMarker::Unranked),
        Some(entry) => match entry.tier {
            None => Err(TrackerError::UpstreamError),
            Some(label) => match tier_of_label(label) {
                Some(tier) => Ok(tier),
                None => Err(TrackerError::UpstreamError),
            },
        },
    }
}

/// The standing that an element of the service's list describes. An element
/// without a queue is no standing.
pub open spec fn entry_of(item: JsonModel) -> Option<EntryModel> {
    match text_member(item, "queueType"@) {
        Some(queue_type) => Some(EntryModel { queue_type, tier: text_member(item, "tier"@) }),
        None => None,
    }
}

/// The standings that the elements of the service's list describe, in the
/// order of the list.
pub open spec fn entries_of(items: Seq<JsonModel>) -> Seq<EntryModel>
    decreases items.len(),
{
    if items.len() == 0 {
        Seq::empty()
    } else {
        let before = entries_of(items.drop_last());
        match entry_of(items.last()) {
            Some(entry) => before.push(entry),
            None => before,
        }
    }
}

/// The player identifier that an answer to a lookup gives.
pub open spec fn id_of_response(status: u16, document: Option<JsonModel>) -> Result<
    Seq<char>,
    TrackerError,
> {
    match status_failure(status) {
        Some(failure) => Err(failure),
        None => match document {
            None => Err(TrackerError::UpstreamError),
            Some(doc) => match text_member(doc, "id"@) {
                Some(id) => Ok(id),
                None => Err(TrackerError::UpstreamError),
            },
        },
    }
}

/// The tier that an answer to a request for standings gives.
pub open spec fn rank_of_response(status: u16, document: Option<JsonModel>) -> Result<
    TierMarker,
    TrackerError,
> {
    match status_failure(status) {
        Some(failure) => Err(failure),
        None => match document {
            None => Err(TrackerError::UpstreamError),
            Some(JsonModel::List(items)) => tier_of_entries(entries_of(items)),
            Some(_) => Err(TrackerError::UpstreamError),
        },
    }
}

/// Appends `name` to `url`, each space written as `%20`.
fn append_escaped(url: &mut String, name: &str)
    ensures
        final(url)@ == old(url)@ + escape_spaces(name@),
{
    let n: usize = name.unicode_len();
    let mut i: usize = 0;
    while i < n
        invariant
            n == name@.len(),
            i <= n,
            url@ == old(url)@ + escape_spaces(name@.take(i as int)),
        decreases n - i,
    {
        let ghost upto = name@.take(i as int + 1);
        assert(upto.drop_last() == name@.take(i as int));
        if name.get_char(i) == ' ' {
            url.append("%20");
        } else {
            let piece = name.substring_char(i, i + 1);
            url.append(piece);
        }
        i += 1;
    }
    assert(name@.take(n as int) == name@);
}

/// The address to ask for the player of a handle.
pub fn summoner_lookup_url(summoner_name: &str, api_key: &str) -> (url: String)
    ensures
        url@ == summoner_endpoint() + escape_spaces(summoner_name@) + "?api_key="@ + api_key@,
{
    let mut url: String = "https://br1.api.riotgames.com/lol/summoner/v4/summoners/by-name/".to_owned();
    append_escaped(&mut url, summoner_name);
    url.append("?api_key=");
    url.append(api_key);
    url
}

/// The address to ask for the standings of a player.
pub fn league_entries_url(summoner_id: &str, api_key: &str) -> (url: String)
    ensures
        url@ == league_endpoint() + summoner_id@ + "?api_key="@ + api_key@,
{
    let mut url: String = "https://br1.api.riotgames.com/lol/league/v4/entries/by-summoner/".to_owned();
    url.append(summoner_id);
    url.append("?api_key=");
    url.append(api_key);
    url
}

/// Tells a status of success from the failures.
pub fn check_status(status: u16) -> (r: Result<(), TrackerError>)
    ensures
        r is Ok <==> status_failure(status) is None,
        r matches Err(failure) ==> status_failure(status) == Some(failure),
{
    if 200 <= status && status <= 299 {
        Ok(())
    } else if status == 404 {
        Err(TrackerError::NotFound)
    } else if status == 401 || status == 403 {
        Err(TrackerError::AuthError)
    } else {
        Err(TrackerError::UpstreamError)
    }
}

/// Picks a player's tier from the standings: the tier of the first
/// standing in the tracked queue, `Unranked` where no standing is in it.
pub fn select_tier(entries: &Vec<LeagueEntry>) -> (r: Result<TierMarker, TrackerError>)
    ensures
        r == tier_of_entries(entry_models(entries@)),
{
    let ghost models = entry_models(entries@);
    let n: usize = entries.len();
    let mut i: usize = 0;
    assert(models.skip(0) == models);
    while i < n
        invariant
            n == entries.len(),
            models == entry_models(entries@),
            i <= n,
            tracked_entry(models) == tracked_entry(models.skip(i as int)),
        decreases n - i,
    {
        let entry = &entries[i];
        let ghost rest = models.skip(i as int);
        assert(rest.drop_first() == models.skip(i as int + 1));
        if same_text(entry.queue_type.as_str(), "RANKED_SOLO_5x5") {
            return match &entry.tier {
                None => Err(TrackerError::UpstreamError),
                Some(label) => match TierMarker::from_label(label.as_str()) {
                    Some(tier) => Ok(tier),
                    None => Err(TrackerError::UpstreamError),
                },
            };
        }
        i += 1;
    }
    Ok(TierMarker::Unranked)
}

/// Reads the standings out of the elements of the service's list.
fn read_entries(items: &Vec<Value>) -> (entries: Vec<LeagueEntry>)
    ensures
        entry_models(entries@) == entries_of(json_models(items@)),
{
    let ghost models = json_models(items@);
    let n: usize = items.len();
    let mut entries: Vec<LeagueEntry> = Vec::new();
    let mut i: usize = 0;
    while i < n
        invariant
            n == items.len(),
            models == json_models(items@),
            i <= n,
            entry_models(entries@) == entries_of(models.take(i as int)),
        decreases n - i,
    {
        let item = &items[i];
        let ghost upto = models.take(i as int + 1);
        assert(upto.drop_last() == models.take(i as int));
        match read_text_member(item, "queueType") {
            Some(queue_type) => {
                let tier = read_text_member(item, "tier");
                let entry = LeagueEntry { queue_type, tier };
                entries.push(entry);
            },
            None => {},
        }
        i += 1;
    }
    assert(models.take(n as int) == models);
    entries
}

/// Reads the player identifier out of the service's answer to a lookup by
/// handle: the text under `id` of the document, where the status is one of
/// success.
pub fn get_summoner_id(status: u16, body: &str) -> (r: Result<String, TrackerError>)
    ensures
        r matches Ok(id) ==> id_of_response(status, json_parsed(body@)) == Ok::<
            Seq<char>,
            TrackerError,
        >(id@),
        r matches Err(failure) ==> id_of_response(status, json_parsed(body@)) == Err::<
            Seq<char>,
            TrackerError,
        >(failure),
{
    match check_status(status) {
        Err(failure) => Err(failure),
        Ok(()) => match parse_document(body) {
            Err(_) => Err(TrackerError::UpstreamError),
            Ok(doc) => match read_text_member(&doc, "id") {
                Some(id) => Ok(id),
                None => Err(TrackerError::UpstreamError),
            },
        },
    }
}

/// Reads the player's tier out of the service's answer to a request for
/// standings, where the status is one of success.
pub fn get_summoner_rank(status: u16, body: &str) -> (r: Result<TierMarker, TrackerError>)
    ensures
        r == rank_of_response(status, json_parsed(body@)),
{
    match check_status(status) {
        Err(failure) => Err(failure),
        Ok(()) => match parse_document(body) {
            Err(_) => Err(TrackerError::UpstreamError),
            Ok(doc) => match elements_of(&doc) {
                None => Err(TrackerError::UpstreamError),
                Some(items) => {
                    let entries = read_entries(items);
                    select_tier(&entries)
                },
            },
        },
    }
}

/// Standings of which none is in the tracked queue give `Unranked`, however
/// many they are, and never a failure.
pub proof fn lemma_unranked_fallback(entries: Seq<EntryModel>)
    requires
        forall|i: int| 0 <= i < entries.len() ==> (#[trigger] entries[i]).queue_type != tracked_queue(),
    ensures
        tier_of_entries(entries) == Ok::<TierMarker, TrackerError>(TierMarker::Unranked),
    decreases entries.len(),
{
    if entries.len() > 0 {
        let rest = entries.drop_first();
        lemma_unranked_fallback(rest);
    }
}

/// No standing read from a list is in the tracked queue unless an element
/// of the list names that queue.
proof fn lemma_entries_without_tracked_queue(items: Seq<JsonModel>)
    requires
        forall|i: int|
            0 <= i < items.len() ==> text_member(#[trigger] items[i], "queueType"@) != Some(
                tracked_queue(),
            ),
    ensures
        forall|j: int|
            0 <= j < entries_of(items).len() ==> (#[trigger] entries_of(items)[j]).queue_type
                != tracked_queue(),
    decreases items.len(),
{
    if items.len() > 0 {
        let front = items.drop_last();
        lemma_entries_without_tracked_queue(front);
    }
}

/// An answer of success whose list names the tracked queue in no element
/// gives `Unranked`, however many elements it has and whatever they are.
pub proof fn lemma_answer_without_tracked_queue(status: u16, items: Seq<JsonModel>)
    requires
        status_failure(status) is None,
        forall|i: int|
            0 <= i < items.len() ==> text_member(#[trigger] items[i], "queueType"@) != Some(
                tracked_queue(),
            ),
    ensures
        rank_of_response(status, Some(JsonModel::List(items))) == Ok::<TierMarker, TrackerError>(
            TierMarker::Unranked,
        ),
{
    lemma_entries_without_tracked_queue(items);
    lemma_unranked_fallback(entries_of(items));
}

/// The standing that decides is the first in the tracked queue: no standing
/// before it is in that queue.
pub proof fn lemma_tracked_entry_is_first(entries: Seq<EntryModel>)
    ensures
        tracked_entry(entries) matches Some(entry) ==> exists|i: int|
            0 <= i < entries.len() && #[trigger] entries[i] == entry && entry.queue_type
                == tracked_queue() && forall|j: int|
                0 <= j < i ==> (#[trigger] entries[j]).queue_type != tracked_queue(),
        tracked_entry(entries) is None ==> forall|i: int|
            0 <= i < entries.len() ==> (#[trigger] entries[i]).queue_type != tracked_queue(),
    decreases entries.len(),
{
    if entries.len() > 0 && entries[0].queue_type != tracked_queue() {
        let rest = entries.drop_first();
        lemma_tracked_entry_is_first(rest);
        match tracked_entry(rest) {
            Some(entry) => {
                let k = choose|i: int|
                    0 <= i < rest.len() && #[trigger] rest[i] == entry && entry.queue_type
                        == tracked_queue() && forall|j: int|
                        0 <= j < i ==> (#[trigger] rest[j]).queue_type != tracked_queue();
                assert forall|j: int| 0 <= j < k + 1 implies (#[trigger] entries[j]).queue_type
                    != tracked_queue() by {
                    if j > 0 {
                        assert(rest[j - 1].queue_type != tracked_queue());
                    }
                }
            },
            None => {
                assert forall|i: int| 0 <= i < entries.len() implies (#[trigger] entries[i]).queue_type
                    != tracked_queue() by {
                    if i > 0 {
                        assert(rest[i - 1].queue_type != tracked_queue());
                    }
                }
            },
        }
    }
}

} // verus!
