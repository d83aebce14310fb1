//! Notification pump logic: turning one upstream notification into the
//! messages published for its match.
//!
//! The pump consumes a stream of channel names of the shape
//! `match_updates:{id}`, re-reads the match's score and scorecards, and
//! publishes a score update followed by the scorecard updates that exist.
//! The unverified loop around it only subscribes, fetches hashes, sleeps and
//! reconnects; which messages are derived, and in what order, is decided
//! here.
use vstd::prelude::*;

verus! {

use crate::adapter::scorecard_from_hash;
use crate::hub::Hub;
use crate::models::{LiveScore, ServerMessage, score_matches, scorecard_matches};
use crate::text::{split_on, split_str};

/// Delay before the pump reopens the upstream subscription after losing it.
pub const RECONNECT_DELAY_MS: u64 = 5000;

/// How many times a failed store read is attempted in all.
pub const READ_RETRY_ATTEMPTS: u32 = 3;

/// Delay between read attempts.
pub const READ_RETRY_DELAY_MS: u64 = 100;

/// How many times the initial store connection is attempted in all.
pub const CONNECT_RETRY_ATTEMPTS: u32 = 10;

/// Delay between connection attempts.
pub const CONNECT_RETRY_DELAY_MS: u64 = 5000;

/// What to do after a failed attempt.
pub enum RetryDecision {
    /// Sleep this many milliseconds, then try again.
    RetryAfterMs(u64),
    /// Surface the last error.
    GiveUp,
}

/// After attempt number `attempt` (counted from one) of a store read
/// failed: retry after a fixed delay until the attempts are used up.
pub fn read_retry_decision(attempt: u32) -> (r: RetryDecision)
    ensures
        attempt < READ_RETRY_ATTEMPTS <==> r == RetryDecision::RetryAfterMs(READ_RETRY_DELAY_MS),
        attempt >= READ_RETRY_ATTEMPTS <==> r == RetryDecision::GiveUp,
{
    if attempt < READ_RETRY_ATTEMPTS {
        RetryDecision::RetryAfterMs(READ_RETRY_DELAY_MS)
    } else {
        RetryDecision::GiveUp
    }
}

/// After attempt number `attempt` (counted from one) of the initial store
/// connection failed.
pub fn connect_retry_decision(attempt: u32) -> (r: RetryDecision)
    ensures
        attempt < CONNECT_RETRY_ATTEMPTS <==> r == RetryDecision::RetryAfterMs(
            CONNECT_RETRY_DELAY_MS,
        ),
        attempt >= CONNECT_RETRY_ATTEMPTS <==> r == RetryDecision::GiveUp,
{
    if attempt < CONNECT_RETRY_ATTEMPTS {
        RetryDecision::RetryAfterMs(CONNECT_RETRY_DELAY_MS)
    } else {
        RetryDecision::GiveUp
    }
}

/// The match id named by a notification channel `match_updates:{id}`: the
/// second part of a two-part name.  Anything else is malformed and skipped.
pub fn match_id_of_channel(channel: &str) -> (r: Option<String>)
    ensures
        r is Some <==> split_on(channel@, ':').len() == 2,
        r matches Some(v) ==> v@ == split_on(channel@, ':')[1],
{
    let parts = split_str(channel, ':');
    if parts.len() == 2 {
        Some(parts[1].clone())
    } else {
        None
    }
}

/// Whether a fetched scorecard hash yields an update.
pub open spec fn sc_present(h: Option<&Vec<(String, String)>>) -> bool {
    match h {
        Some(v) => v@.len() > 0,
        None => false,
    }
}

/// The fields of a fetched hash, empty when the fetch failed.
pub open spec fn sc_view(h: Option<&Vec<(String, String)>>) -> Seq<(String, String)> {
    match h {
        Some(v) => v@,
        None => Seq::empty(),
    }
}

/// The messages one notification gives rise to, in publication order: the
/// score update first (when the score could be read; a missing score hash
/// still reads as all defaults), then the scorecard updates of the innings
/// whose hashes are non-empty.  A failed read contributes nothing.
pub fn pump_messages(
    score_hash: Option<&Vec<(String, String)>>,
    sc1_hash: Option<&Vec<(String, String)>>,
    sc2_hash: Option<&Vec<(String, String)>>,
) -> (r: Vec<ServerMessage>)
    ensures
        r@.len() == (if score_hash is Some { 1int } else { 0int }) + (if sc_present(sc1_hash) {
            1int
        } else {
            0int
        }) + (if sc_present(sc2_hash) { 1int } else { 0int }),
        score_hash matches Some(h) ==> (match r@[0] {
            ServerMessage::ScoreUpdate { data } => score_matches(*data, h@),
            _ => false,
        }),
        sc_present(sc1_hash) ==> (match r@[if score_hash is Some { 1int } else { 0int }] {
            ServerMessage::ScorecardUpdate { data, inning } => inning == 1 && scorecard_matches(
                data,
                sc_view(sc1_hash),
            ),
            _ => false,
        }),
        sc_present(sc2_hash) ==> (match r@[r@.len() - 1] {
            ServerMessage::ScorecardUpdate { data, inning } => inning == 2 && scorecard_matches(
                data,
                sc_view(sc2_hash),
            ),
            _ => false,
        }),
{
    let mut out: Vec<ServerMessage> = Vec::new();
    match score_hash {
        Some(h) => {
            let score = LiveScore::from_redis_hash(h);
            out.push(ServerMessage::ScoreUpdate { data: Box::new(score) });
        },
        None => {},
    }
    match sc1_hash {
        Some(h) => match scorecard_from_hash(h) {
            Some(sc) => {
                out.push(ServerMessage::ScorecardUpdate { data: sc, inning: 1 });
            },
            None => {},
        },
        None => {},
    }
    match sc2_hash {
        Some(h) => match scorecard_from_hash(h) {
            Some(sc) => {
                out.push(ServerMessage::ScorecardUpdate { data: sc, inning: 2 });
            },
            None => {},
        },
        None => {},
    }
    out
}

/// Render and publish the derived messages on the match's channel.  Frames
/// for a match without a channel — nobody subscribed — are dropped; nothing
/// blocks, and a slow consumer loses old frames rather than stalling the
/// pump.
pub fn publish_messages(hub: &Hub, match_id: &str, msgs: &Vec<ServerMessage>) -> (delivered: usize)
    ensures
        delivered <= msgs@.len(),
        !hub.has_channel(match_id@) ==> delivered == 0,
{
    let mut delivered: usize = 0;
    let mut i: usize = 0;
    while i < msgs.len()
        invariant
            i <= msgs@.len(),
            delivered <= i,
            !hub.has_channel(match_id@) ==> delivered == 0,
        decreases msgs@.len() - i,
    {
        let frame = msgs[i].to_json();
        if hub.broadcast(match_id, frame) {
            delivered += 1;
        }
        i += 1;
    }
    delivered
}

} // verus!
