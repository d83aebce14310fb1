//! Typed match state parsed out of store hashes.
use vstd::prelude::*;

verus! {

use crate::store::{
    lookup, str_field, str_field_or, u32_field, u8_field, opt_u32_field, get_str_field,
    get_str_field_or, get_opt_field, get_u32_field, get_u8_field, get_opt_u32_field, get_field,
};
use vstd::string::StringExecFns;

/// Static, per-match descriptor.
#[derive(Debug, Clone)]
pub struct MatchInfo {
    pub team_a_name: String,
    pub team_a_short: String,
    pub team_b_name: String,
    pub team_b_short: String,
    pub venue: String,
    pub match_type: String,
    pub date: String,
    pub toss_winner: Option<String>,
    pub toss_decision: Option<String>,
    pub stage: Option<String>,
    pub group_id: Option<String>,
}

/// Per-ball snapshot of a running match.
#[derive(Debug, Clone)]
pub struct LiveScore {
    pub current_inning: String,
    pub batting_team: String,
    pub bowling_team: String,
    pub runs: u32,
    pub wickets: u8,
    pub overs: String,
    pub target: Option<u32>,
    pub striker_id: String,
    pub striker_name: String,
    pub non_striker_id: String,
    pub non_striker_name: String,
    pub bowler_id: String,
    pub bowler_name: String,
    pub striker_runs: u32,
    pub striker_balls: u32,
    pub striker_fours: u8,
    pub striker_sixes: u8,
    pub non_striker_runs: u32,
    pub non_striker_balls: u32,
    pub non_striker_fours: u8,
    pub non_striker_sixes: u8,
    pub bowler_overs: String,
    pub bowler_runs: u32,
    pub bowler_wickets: u8,
    pub bowler_maidens: u8,
    pub last_ball: String,
    pub last_commentary: String,
    pub commentary: String,
    pub run_rate: String,
    pub req_run_rate: Option<String>,
    pub match_status: String,
}

/// Per-inning scorecard.  The gateway does not interpret the player
/// statistics; it carries each section as the JSON text stored upstream,
/// kept only when it decodes as a map from player id to a JSON object, and
/// normalized to `{}` otherwise.
#[derive(Debug, Clone)]
pub struct Scorecard {
    pub batsmen_json: String,
    pub bowlers_json: String,
}

/// Compact entry of the live match list.
#[derive(Debug, Clone)]
pub struct MatchSummary {
    pub match_id: String,
    pub team_a: String,
    pub team_b: String,
    pub team_a_score: String,
    pub team_b_score: String,
    pub overs: String,
    pub status: String,
    pub stage: Option<String>,
}

/// Everything a fresh subscriber is sent about a match.
#[derive(Debug, Clone)]
pub struct FullMatchState {
    pub match_id: String,
    pub info: MatchInfo,
    pub score: LiveScore,
    pub scorecard_inn_1: Option<Scorecard>,
    pub scorecard_inn_2: Option<Scorecard>,
}

/// A command a client sends over its connection.
#[derive(Debug, Clone)]
pub enum ClientMessage {
    Subscribe { match_id: String },
    Unsubscribe { match_id: String },
}

/// A message the gateway sends to a client.
#[derive(Debug, Clone)]
pub enum ServerMessage {
    FullState { data: Box<FullMatchState> },
    ScoreUpdate { data: Box<LiveScore> },
    ScorecardUpdate { data: Scorecard, inning: u8 },
    Error { message: String },
}

/// Whether some text decodes as a JSON map from player id to a JSON
/// object; decided by the JSON parser.
pub uninterp spec fn is_section_map(s: Seq<char>) -> bool;

/// Relies on `serde_json::from_str::<HashMap<String, serde_json::Map<String,
/// Value>>>`: whether the text decodes as a map of JSON objects is a
/// function of the text alone.
#[verifier::external_body]
fn section_map_check(s: &str) -> (r: bool)
    ensures
        r == is_section_map(s@),
{
    serde_json::from_str::<
        std::collections::HashMap<String, serde_json::Map<String, serde_json::Value>>,
    >(s).is_ok()
}

/// A scorecard section as the gateway keeps it: the stored JSON text when it
/// decodes as a map of per-player objects, and `{}` when the field is
/// absent or holds anything else.
pub open spec fn normalized_section(fields: Seq<(String, String)>, name: Seq<char>) -> Seq<char> {
    match lookup(fields, name) {
        Some(v) => if is_section_map(v) {
            v
        } else {
            "{}"@
        },
        None => "{}"@,
    }
}

/// What parsing the `info` hash yields: absent string fields default to
/// empty, absent optional fields to nothing.
pub open spec fn info_matches(r: MatchInfo, hash: Seq<(String, String)>) -> bool {
    &&& r.team_a_name@ == str_field(hash, "team_a_name"@)
    &&& r.team_a_short@ == str_field(hash, "team_a_short"@)
    &&& r.team_b_name@ == str_field(hash, "team_b_name"@)
    &&& r.team_b_short@ == str_field(hash, "team_b_short"@)
    &&& r.venue@ == str_field(hash, "venue"@)
    &&& r.match_type@ == str_field(hash, "match_type"@)
    &&& r.date@ == str_field(hash, "date"@)
    &&& opt_view(r.toss_winner) == lookup(hash, "toss_winner"@)
    &&& opt_view(r.toss_decision) == lookup(hash, "toss_decision"@)
    &&& opt_view(r.stage) == lookup(hash, "stage"@)
    &&& opt_view(r.group_id) == lookup(hash, "group_id"@)
}

impl MatchInfo {
    /// Parse the `info` hash.
    pub fn from_redis_hash(hash: &Vec<(String, String)>) -> (r: Self)
        ensures
            info_matches(r, hash@),
    {
        MatchInfo {
            team_a_name: get_str_field(hash, "team_a_name"),
            team_a_short: get_str_field(hash, "team_a_short"),
            team_b_name: get_str_field(hash, "team_b_name"),
            team_b_short: get_str_field(hash, "team_b_short"),
            venue: get_str_field(hash, "venue"),
            match_type: get_str_field(hash, "match_type"),
            date: get_str_field(hash, "date"),
            toss_winner: get_opt_field(hash, "toss_winner"),
            toss_decision: get_opt_field(hash, "toss_decision"),
            stage: get_opt_field(hash, "stage"),
            group_id: get_opt_field(hash, "group_id"),
        }
    }
}

/// The view of an optional string.
pub open spec fn opt_view(o: Option<String>) -> Option<Seq<char>> {
    match o {
        Some(v) => Some(v@),
        None => None,
    }
}

/// What parsing the `score` hash yields: absent numeric fields read zero,
/// absent string fields empty, and the commentary blob defaults to `[]`.
pub open spec fn score_matches(r: LiveScore, hash: Seq<(String, String)>) -> bool {
    &&& r.current_inning@ == str_field(hash, "current_inning"@)
    &&& r.batting_team@ == str_field(hash, "batting_team"@)
    &&& r.bowling_team@ == str_field(hash, "bowling_team"@)
    &&& r.runs == u32_field(hash, "runs"@)
    &&& r.wickets == u8_field(hash, "wickets"@)
    &&& r.overs@ == str_field(hash, "overs"@)
    &&& r.target == opt_u32_field(hash, "target"@)
    &&& r.striker_id@ == str_field(hash, "striker_id"@)
    &&& r.striker_name@ == str_field(hash, "striker_name"@)
    &&& r.non_striker_id@ == str_field(hash, "non_striker_id"@)
    &&& r.non_striker_name@ == str_field(hash, "non_striker_name"@)
    &&& r.bowler_id@ == str_field(hash, "bowler_id"@)
    &&& r.bowler_name@ == str_field(hash, "bowler_name"@)
    &&& r.striker_runs == u32_field(hash, "striker_runs"@)
    &&& r.striker_balls == u32_field(hash, "striker_balls"@)
    &&& r.striker_fours == u8_field(hash, "striker_fours"@)
    &&& r.striker_sixes == u8_field(hash, "striker_sixes"@)
    &&& r.non_striker_runs == u32_field(hash, "non_striker_runs"@)
    &&& r.non_striker_balls == u32_field(hash, "non_striker_balls"@)
    &&& r.non_striker_fours == u8_field(hash, "non_striker_fours"@)
    &&& r.non_striker_sixes == u8_field(hash, "non_striker_sixes"@)
    &&& r.bowler_overs@ == str_field(hash, "bowler_overs"@)
    &&& r.bowler_runs == u32_field(hash, "bowler_runs"@)
    &&& r.bowler_wickets == u8_field(hash, "bowler_wickets"@)
    &&& r.bowler_maidens == u8_field(hash, "bowler_maidens"@)
    &&& r.last_ball@ == str_field(hash, "last_ball"@)
    &&& r.last_commentary@ == str_field(hash, "last_commentary"@)
    &&& r.commentary@ == str_field_or(hash, "commentary"@, "[]"@)
    &&& r.run_rate@ == str_field(hash, "run_rate"@)
    &&& opt_view(r.req_run_rate) == lookup(hash, "req_run_rate"@)
    &&& r.match_status@ == str_field(hash, "match_status"@)
}

impl LiveScore {
    /// Parse the `score` hash.
    pub fn from_redis_hash(hash: &Vec<(String, String)>) -> (r: Self)
        ensures
            score_matches(r, hash@),
    {
        LiveScore {
            current_inning: get_str_field(hash, "current_inning"),
            batting_team: get_str_field(hash, "batting_team"),
            bowling_team: get_str_field(hash, "bowling_team"),
            runs: get_u32_field(hash, "runs"),
            wickets: get_u8_field(hash, "wickets"),
            overs: get_str_field(hash, "overs"),
            target: get_opt_u32_field(hash, "target"),
            striker_id: get_str_field(hash, "striker_id"),
            striker_name: get_str_field(hash, "striker_name"),
            non_striker_id: get_str_field(hash, "non_striker_id"),
            non_striker_name: get_str_field(hash, "non_striker_name"),
            bowler_id: get_str_field(hash, "bowler_id"),
            bowler_name: get_str_field(hash, "bowler_name"),
            striker_runs: get_u32_field(hash, "striker_runs"),
            striker_balls: get_u32_field(hash, "striker_balls"),
            striker_fours: get_u8_field(hash, "striker_fours"),
            striker_sixes: get_u8_field(hash, "striker_sixes"),
            non_striker_runs: get_u32_field(hash, "non_striker_runs"),
            non_striker_balls: get_u32_field(hash, "non_striker_balls"),
            non_striker_fours: get_u8_field(hash, "non_striker_fours"),
            non_striker_sixes: get_u8_field(hash, "non_striker_sixes"),
            bowler_overs: get_str_field(hash, "bowler_overs"),
            bowler_runs: get_u32_field(hash, "bowler_runs"),
            bowler_wickets: get_u8_field(hash, "bowler_wickets"),
            bowler_maidens: get_u8_field(hash, "bowler_maidens"),
            last_ball: get_str_field(hash, "last_ball"),
            last_commentary: get_str_field(hash, "last_commentary"),
            commentary: get_str_field_or(hash, "commentary", "[]"),
            run_rate: get_str_field(hash, "run_rate"),
            req_run_rate: get_opt_field(hash, "req_run_rate"),
            match_status: get_str_field(hash, "match_status"),
        }
    }
}

/// What parsing a `scorecard` hash yields.
pub open spec fn scorecard_matches(r: Scorecard, hash: Seq<(String, String)>) -> bool {
    &&& r.batsmen_json@ == normalized_section(hash, "batsmen"@)
    &&& r.bowlers_json@ == normalized_section(hash, "bowlers"@)
}

impl Scorecard {
    /// Parse a `scorecard` hash: each section keeps the stored JSON object
    /// text, falling back to an empty object.
    pub fn from_redis_hash(hash: &Vec<(String, String)>) -> (r: Self)
        ensures
            scorecard_matches(r, hash@),
    {
        Scorecard {
            batsmen_json: normalize_section(hash, "batsmen"),
            bowlers_json: normalize_section(hash, "bowlers"),
        }
    }
}

fn normalize_section(hash: &Vec<(String, String)>, name: &str) -> (r: String)
    ensures
        r@ == normalized_section(hash@, name@),
{
    match get_field(hash, name) {
        Some(v) => {
            if section_map_check(v.as_str()) {
                v.clone()
            } else {
                String::from_str("{}")
            }
        },
        None => String::from_str("{}"),
    }
}

} // verus!
