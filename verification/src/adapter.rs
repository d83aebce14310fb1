//! Read-side logic over store hashes: the live match list and the full
//! match state a fresh subscriber is sent.
//!
//! The unverified adapter only fetches hashes and hands them here; every
//! decision about what the hashes mean is made by these functions.
use vstd::prelude::*;

verus! {

use vstd::string::StringExecFns;
use crate::models::{
    MatchInfo, LiveScore, Scorecard, MatchSummary, FullMatchState, ServerMessage, opt_view,
    info_matches, score_matches, scorecard_matches,
};
use crate::store::{lookup, str_field, get_str_field, get_opt_field};
use crate::text::{split_on, split_str, str_eq};

/// The status strings that denote a live match.
pub open spec fn is_live_status(s: Seq<char>) -> bool {
    s == "Live"@ || s == "in_progress"@ || s == "active"@
}

/// A score hash belongs to a live match when its status field holds one of
/// the live statuses.
pub open spec fn hash_is_live(score_hash: Seq<(String, String)>) -> bool {
    match lookup(score_hash, "match_status"@) {
        Some(v) => is_live_status(v),
        None => false,
    }
}

/// Decide whether a score hash belongs to a live match.
pub fn score_is_live(score_hash: &Vec<(String, String)>) -> (r: bool)
    ensures
        r == hash_is_live(score_hash@),
{
    match get_opt_field(score_hash, "match_status") {
        Some(v) => str_eq(v.as_str(), "Live") || str_eq(v.as_str(), "in_progress") || str_eq(
            v.as_str(),
            "active",
        ),
        None => false,
    }
}

/// The match id encoded in a score key of the shape `match:{id}:score`:
/// the middle part of a three-part key.
pub fn key_match_id(key: &str) -> (r: Option<String>)
    ensures
        r is Some <==> split_on(key@, ':').len() == 3,
        r matches Some(v) ==> v@ == split_on(key@, ':')[1],
{
    let parts = split_str(key, ':');
    if parts.len() == 3 {
        Some(parts[1].clone())
    } else {
        None
    }
}

/// One candidate entry of the live list: the match id together with the
/// score and info hashes read for it.
pub struct LiveListItem {
    pub match_id: String,
    pub score_hash: Vec<(String, String)>,
    pub info_hash: Vec<(String, String)>,
}

/// The ghost shape of a live list entry.
pub struct SummaryView {
    pub match_id: Seq<char>,
    pub team_a: Seq<char>,
    pub team_b: Seq<char>,
    pub team_a_score: Seq<char>,
    pub team_b_score: Seq<char>,
    pub overs: Seq<char>,
    pub status: Seq<char>,
    pub stage: Option<Seq<char>>,
}

/// The view of a built summary.
pub open spec fn summary_view(m: MatchSummary) -> SummaryView {
    SummaryView {
        match_id: m.match_id@,
        team_a: m.team_a@,
        team_b: m.team_b@,
        team_a_score: m.team_a_score@,
        team_b_score: m.team_b_score@,
        overs: m.overs@,
        status: m.status@,
        stage: opt_view(m.stage),
    }
}

/// The score string of the side currently batting: `{runs}/{wickets}`, both
/// taken verbatim from the hash.
pub open spec fn batting_score_str(score_hash: Seq<(String, String)>) -> Seq<char> {
    str_field(score_hash, "runs"@) + "/"@ + str_field(score_hash, "wickets"@)
}

/// The summary derived from one item: short team names from the info hash,
/// the batting side (matched by full team name) gets the running score, the
/// other side a dash.
pub open spec fn item_summary(it: LiveListItem) -> SummaryView {
    SummaryView {
        match_id: it.match_id@,
        team_a: str_field(it.info_hash@, "team_a_short"@),
        team_b: str_field(it.info_hash@, "team_b_short"@),
        team_a_score: if str_field(it.score_hash@, "batting_team"@) == str_field(
            it.info_hash@,
            "team_a_name"@,
        ) {
            batting_score_str(it.score_hash@)
        } else {
            "-"@
        },
        team_b_score: if str_field(it.score_hash@, "batting_team"@) == str_field(
            it.info_hash@,
            "team_a_name"@,
        ) {
            "-"@
        } else {
            batting_score_str(it.score_hash@)
        },
        overs: str_field(it.score_hash@, "overs"@),
        status: str_field(it.score_hash@, "match_status"@),
        stage: lookup(it.info_hash@, "stage"@),
    }
}

/// Build the list entry for one item.
pub fn build_summary(it: &LiveListItem) -> (r: MatchSummary)
    ensures
        summary_view(r) == item_summary(*it),
{
    let batting = get_str_field(&it.score_hash, "batting_team");
    let team_a_name = get_str_field(&it.info_hash, "team_a_name");
    let mut batting_score = get_str_field(&it.score_hash, "runs");
    batting_score.append("/");
    let wickets = get_str_field(&it.score_hash, "wickets");
    batting_score.append(wickets.as_str());
    let batting_is_a = str_eq(batting.as_str(), team_a_name.as_str());
    let (team_a_score, team_b_score) = if batting_is_a {
        (batting_score, String::from_str("-"))
    } else {
        (String::from_str("-"), batting_score)
    };
    let r = MatchSummary {
        match_id: it.match_id.clone(),
        team_a: get_str_field(&it.info_hash, "team_a_short"),
        team_b: get_str_field(&it.info_hash, "team_b_short"),
        team_a_score,
        team_b_score,
        overs: get_str_field(&it.score_hash, "overs"),
        status: get_str_field(&it.score_hash, "match_status"),
        stage: get_opt_field(&it.info_hash, "stage"),
    };
    r
}

/// Whether one item makes it into the live list.
pub open spec fn item_live(it: LiveListItem) -> bool {
    hash_is_live(it.score_hash@)
}

/// The live list derived from a sequence of items: the summaries of the live
/// ones, in order.
pub open spec fn live_summaries(items: Seq<LiveListItem>) -> Seq<SummaryView>
    decreases items.len(),
{
    if items.len() == 0 {
        Seq::empty()
    } else {
        live_summaries(items.drop_last()) + (if item_live(items.last()) {
            seq![item_summary(items.last())]
        } else {
            Seq::empty()
        })
    }
}

/// Build the live match list: keep the items whose score hash is live, in
/// order, as summaries.
pub fn build_live_list(items: &Vec<LiveListItem>) -> (r: Vec<MatchSummary>)
    ensures
        r@.map_values(|m: MatchSummary| summary_view(m)) == live_summaries(items@),
{
    let mut out: Vec<MatchSummary> = Vec::new();
    let mut i: usize = 0;
    while i < items.len()
        invariant
            i <= items@.len(),
            out@.map_values(|m: MatchSummary| summary_view(m)) == live_summaries(
                items@.subrange(0, i as int),
            ),
        decreases items@.len() - i,
    {
        let ghost pre1 = items@.subrange(0, i + 1 as int);
        proof {
            assert(pre1.drop_last() =~= items@.subrange(0, i as int));
            assert(pre1.last() == items@[i as int]);
        }
        if score_is_live(&items[i].score_hash) {
            let s = build_summary(&items[i]);
            out.push(s);
        }
        proof {
            assert(out@.map_values(|m: MatchSummary| summary_view(m)) =~= live_summaries(
                items@.subrange(0, i + 1 as int),
            ));
        }
        i += 1;
    }
    proof {
        assert(items@.subrange(0, items@.len() as int) =~= items@);
    }
    out
}

/// Every entry of the live list carries a live status.
pub proof fn lemma_live_list_only_live(items: Seq<LiveListItem>)
    ensures
        forall|j: int|
            0 <= j < live_summaries(items).len() ==> is_live_status(
                #[trigger] live_summaries(items)[j].status,
            ),
    decreases items.len(),
{
    if items.len() > 0 {
        lemma_live_list_only_live(items.drop_last());
    }
}

/// Why a read of a match's state failed.
#[derive(Debug, Clone)]
pub enum StoreError {
    MatchNotFound { match_id: String },
}

/// What an optional scorecard read yields: nothing for an empty hash, the
/// parsed scorecard otherwise.
pub open spec fn opt_scorecard_matches(o: Option<Scorecard>, hash: Seq<(String, String)>) -> bool {
    match o {
        Some(c) => hash.len() > 0 && scorecard_matches(c, hash),
        None => hash.len() == 0,
    }
}

/// Read one inning's scorecard out of its hash; an empty hash means the
/// scorecard does not exist yet.
pub fn scorecard_from_hash(hash: &Vec<(String, String)>) -> (r: Option<Scorecard>)
    ensures
        opt_scorecard_matches(r, hash@),
{
    if hash.len() == 0 {
        None
    } else {
        Some(Scorecard::from_redis_hash(hash))
    }
}

/// What a full state assembled from the four hashes looks like.
pub open spec fn full_state_matches(
    f: FullMatchState,
    match_id: Seq<char>,
    info_hash: Seq<(String, String)>,
    score_hash: Seq<(String, String)>,
    sc1_hash: Seq<(String, String)>,
    sc2_hash: Seq<(String, String)>,
) -> bool {
    &&& f.match_id@ == match_id
    &&& info_matches(f.info, info_hash)
    &&& score_matches(f.score, score_hash)
    &&& opt_scorecard_matches(f.scorecard_inn_1, sc1_hash)
    &&& opt_scorecard_matches(f.scorecard_inn_2, sc2_hash)
}

/// Assemble the full state of a match from its four hashes.  An empty info
/// hash means the match does not exist; empty scorecard hashes are normal.
pub fn full_match_state_from_hashes(
    match_id: &str,
    info_hash: &Vec<(String, String)>,
    score_hash: &Vec<(String, String)>,
    sc1_hash: &Vec<(String, String)>,
    sc2_hash: &Vec<(String, String)>,
) -> (r: Result<FullMatchState, StoreError>)
    ensures
        match r {
            Ok(f) => info_hash@.len() > 0 && full_state_matches(
                f,
                match_id@,
                info_hash@,
                score_hash@,
                sc1_hash@,
                sc2_hash@,
            ),
            Err(e) => info_hash@.len() == 0 && (match e {
                StoreError::MatchNotFound { match_id: m } => m@ == match_id@,
            }),
        },
{
    if info_hash.len() == 0 {
        return Err(StoreError::MatchNotFound { match_id: String::from_str(match_id) });
    }
    let info = MatchInfo::from_redis_hash(info_hash);
    let score = LiveScore::from_redis_hash(score_hash);
    let scorecard_inn_1 = scorecard_from_hash(sc1_hash);
    let scorecard_inn_2 = scorecard_from_hash(sc2_hash);
    Ok(
        FullMatchState {
            match_id: String::from_str(match_id),
            info,
            score,
            scorecard_inn_1,
            scorecard_inn_2,
        },
    )
}

/// The message answering a subscribe once the hashes are read: the full
/// state when the match exists, otherwise an error naming the match.
pub fn hydration_message(
    match_id: &str,
    info_hash: &Vec<(String, String)>,
    score_hash: &Vec<(String, String)>,
    sc1_hash: &Vec<(String, String)>,
    sc2_hash: &Vec<(String, String)>,
) -> (m: ServerMessage)
    ensures
        match m {
            ServerMessage::FullState { data } => info_hash@.len() > 0 && full_state_matches(
                *data,
                match_id@,
                info_hash@,
                score_hash@,
                sc1_hash@,
                sc2_hash@,
            ),
            ServerMessage::Error { message } => info_hash@.len() == 0 && message@
                == "Failed to get match state: Match not found: "@ + match_id@,
            _ => false,
        },
{
    match full_match_state_from_hashes(match_id, info_hash, score_hash, sc1_hash, sc2_hash) {
        Ok(f) => ServerMessage::FullState { data: Box::new(f) },
        Err(StoreError::MatchNotFound { match_id: m }) => {
            let mut message = String::from_str("Failed to get match state: Match not found: ");
            message.append(m.as_str());
            ServerMessage::Error { message }
        },
    }
}

} // verus!
