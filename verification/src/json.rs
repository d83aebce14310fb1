//! The outbound JSON wire format, rendered by verified code.
//!
//! Every frame the gateway sends — full states, score updates, scorecard
//! updates, errors and the live match list — is laid out here, character by
//! character, against spec functions that pin the exact text.  String values
//! are escaped the way the common JSON serializers do: quote, backslash and
//! control characters are escaped, everything else passes through.
use vstd::prelude::*;

verus! {

use vstd::string::StrSliceExecFns;
use crate::models::{
    MatchInfo, LiveScore, Scorecard, MatchSummary, FullMatchState, ServerMessage, opt_view,
};
use crate::text::string_of;

/// A hexadecimal digit, lower case.
pub open spec fn hex_digit(d: int) -> char {
    if d == 0 { '0' } else if d == 1 { '1' } else if d == 2 { '2' } else if d == 3 { '3' }
    else if d == 4 { '4' } else if d == 5 { '5' } else if d == 6 { '6' } else if d == 7 { '7' }
    else if d == 8 { '8' } else if d == 9 { '9' } else if d == 10 { 'a' } else if d == 11 { 'b' }
    else if d == 12 { 'c' } else if d == 13 { 'd' } else if d == 14 { 'e' } else { 'f' }
}

/// How one character is written inside a JSON string literal.
pub open spec fn esc_char(c: char) -> Seq<char> {
    if c == '"' {
        seq!['\\', '"']
    } else if c == '\\' {
        seq!['\\', '\\']
    } else if c == '\u{8}' {
        seq!['\\', 'b']
    } else if c == '\t' {
        seq!['\\', 't']
    } else if c == '\n' {
        seq!['\\', 'n']
    } else if c == '\u{c}' {
        seq!['\\', 'f']
    } else if c == '\r' {
        seq!['\\', 'r']
    } else if (c as int) < 32 {
        seq!['\\', 'u', '0', '0', hex_digit((c as int) / 16), hex_digit((c as int) % 16)]
    } else {
        seq![c]
    }
}

/// A whole character sequence escaped for a JSON string literal.
pub open spec fn json_escaped(s: Seq<char>) -> Seq<char>
    decreases s.len(),
{
    if s.len() == 0 {
        Seq::empty()
    } else {
        json_escaped(s.drop_last()) + esc_char(s.last())
    }
}

/// A JSON string literal: quoted, escaped text.
pub open spec fn json_str(s: Seq<char>) -> Seq<char> {
    seq!['"'] + json_escaped(s) + seq!['"']
}

/// An optional string: a JSON string literal or `null`.
pub open spec fn opt_str_json(o: Option<Seq<char>>) -> Seq<char> {
    match o {
        Some(v) => json_str(v),
        None => "null"@,
    }
}

/// A decimal digit.
pub open spec fn dec_digit(d: int) -> char {
    if d == 0 { '0' } else if d == 1 { '1' } else if d == 2 { '2' } else if d == 3 { '3' }
    else if d == 4 { '4' } else if d == 5 { '5' } else if d == 6 { '6' } else if d == 7 { '7' }
    else if d == 8 { '8' } else { '9' }
}

/// A non-negative number in decimal.
pub open spec fn dec_str(n: int) -> Seq<char>
    decreases n,
{
    if n < 10 {
        seq![dec_digit(n)]
    } else {
        dec_str(n / 10) + seq![dec_digit(n % 10)]
    }
}

/// An optional number: decimal or `null`.
pub open spec fn opt_u32_json(o: Option<u32>) -> Seq<char> {
    match o {
        Some(n) => dec_str(n as int),
        None => "null"@,
    }
}

fn hex_digit_exec(d: u32) -> (r: char)
    requires
        d < 16,
    ensures
        r == hex_digit(d as int),
{
    if d == 0 { '0' } else if d == 1 { '1' } else if d == 2 { '2' } else if d == 3 { '3' }
    else if d == 4 { '4' } else if d == 5 { '5' } else if d == 6 { '6' } else if d == 7 { '7' }
    else if d == 8 { '8' } else if d == 9 { '9' } else if d == 10 { 'a' } else if d == 11 { 'b' }
    else if d == 12 { 'c' } else if d == 13 { 'd' } else if d == 14 { 'e' } else { 'f' }
}

fn dec_digit_exec(d: u32) -> (r: char)
    requires
        d < 10,
    ensures
        r == dec_digit(d as int),
{
    if d == 0 { '0' } else if d == 1 { '1' } else if d == 2 { '2' } else if d == 3 { '3' }
    else if d == 4 { '4' } else if d == 5 { '5' } else if d == 6 { '6' } else if d == 7 { '7' }
    else if d == 8 { '8' } else { '9' }
}

/// Append the characters of a string slice unchanged.
fn push_raw(out: &mut Vec<char>, s: &str)
    ensures
        final(out)@ == old(out)@ + s@,
{
    let len = s.unicode_len();
    let mut i: usize = 0;
    while i < len
        invariant
            len == s@.len(),
            i <= len,
            out@ == old(out)@ + s@.subrange(0, i as int),
        decreases len - i,
    {
        out.push(s.get_char(i));
        proof {
            assert(old(out)@ + s@.subrange(0, i + 1 as int) =~= (old(out)@ + s@.subrange(
                0,
                i as int,
            )).push(s@[i as int]));
        }
        i += 1;
    }
    proof {
        assert(s@.subrange(0, len as int) =~= s@);
    }
}

/// Append one character, escaped for a JSON string literal.
fn push_esc_char(out: &mut Vec<char>, c: char)
    ensures
        final(out)@ == old(out)@ + esc_char(c),
{
    if c == '"' {
        out.push('\\');
        out.push('"');
    } else if c == '\\' {
        out.push('\\');
        out.push('\\');
    } else if c == '\u{8}' {
        out.push('\\');
        out.push('b');
    } else if c == '\t' {
        out.push('\\');
        out.push('t');
    } else if c == '\n' {
        out.push('\\');
        out.push('n');
    } else if c == '\u{c}' {
        out.push('\\');
        out.push('f');
    } else if c == '\r' {
        out.push('\\');
        out.push('r');
    } else if (c as u32) < 32 {
        out.push('\\');
        out.push('u');
        out.push('0');
        out.push('0');
        out.push(hex_digit_exec((c as u32) / 16));
        out.push(hex_digit_exec((c as u32) % 16));
    } else {
        out.push(c);
    }
    proof {
        assert(out@ =~= old(out)@ + esc_char(c));
    }
}

/// Append a quoted, escaped JSON string literal.
fn push_json_string(out: &mut Vec<char>, s: &str)
    ensures
        final(out)@ == old(out)@ + json_str(s@),
{
    out.push('"');
    let len = s.unicode_len();
    let mut i: usize = 0;
    while i < len
        invariant
            len == s@.len(),
            i <= len,
            out@ == old(out)@ + seq!['"'] + json_escaped(s@.subrange(0, i as int)),
        decreases len - i,
    {
        let ghost pre = s@.subrange(0, i as int);
        let ghost pre1 = s@.subrange(0, i + 1 as int);
        proof {
            assert(pre1.drop_last() =~= pre);
            assert(pre1.last() == s@[i as int]);
        }
        push_esc_char(out, s.get_char(i));
        i += 1;
    }
    out.push('"');
    proof {
        assert(s@.subrange(0, len as int) =~= s@);
        assert(out@ =~= old(out)@ + json_str(s@));
    }
}

/// Append an optional string as JSON.
fn push_opt_json_string(out: &mut Vec<char>, o: &Option<String>)
    ensures
        final(out)@ == old(out)@ + opt_str_json(opt_view(*o)),
{
    match o {
        Some(v) => push_json_string(out, v.as_str()),
        None => push_raw(out, "null"),
    }
}

/// Append a number in decimal.
fn push_u32(out: &mut Vec<char>, n: u32)
    ensures
        final(out)@ == old(out)@ + dec_str(n as int),
    decreases n,
{
    if n >= 10 {
        push_u32(out, n / 10);
    }
    out.push(dec_digit_exec(n % 10));
    proof {
        assert(out@ =~= old(out)@ + dec_str(n as int));
    }
}

/// Append an optional number as JSON.
fn push_opt_u32(out: &mut Vec<char>, o: &Option<u32>)
    ensures
        final(out)@ == old(out)@ + opt_u32_json(*o),
{
    match o {
        Some(n) => push_u32(out, *n),
        None => push_raw(out, "null"),
    }
}

/// The JSON object for a match's static info.
pub open spec fn info_json(i: MatchInfo) -> Seq<char> {
    "{\"team_a_name\":"@ + json_str(i.team_a_name@) + ",\"team_a_short\":"@ + json_str(
        i.team_a_short@,
    ) + ",\"team_b_name\":"@ + json_str(i.team_b_name@) + ",\"team_b_short\":"@ + json_str(
        i.team_b_short@,
    ) + ",\"venue\":"@ + json_str(i.venue@) + ",\"match_type\":"@ + json_str(i.match_type@)
        + ",\"date\":"@ + json_str(i.date@) + ",\"toss_winner\":"@ + opt_str_json(
        opt_view(i.toss_winner),
    ) + ",\"toss_decision\":"@ + opt_str_json(opt_view(i.toss_decision)) + ",\"stage\":"@
        + opt_str_json(opt_view(i.stage)) + ",\"group_id\":"@ + opt_str_json(opt_view(i.group_id))
        + "}"@
}

fn push_info(out: &mut Vec<char>, i: &MatchInfo)
    ensures
        final(out)@ == old(out)@ + info_json(*i),
{
    let mut buf: Vec<char> = Vec::new();
    push_raw(&mut buf, "{\"team_a_name\":");
    proof {
        assert(Seq::<char>::empty() + "{\"team_a_name\":"@ =~= "{\"team_a_name\":"@);
    }
    push_json_string(&mut buf, i.team_a_name.as_str());
    push_raw(&mut buf, ",\"team_a_short\":");
    push_json_string(&mut buf, i.team_a_short.as_str());
    push_raw(&mut buf, ",\"team_b_name\":");
    push_json_string(&mut buf, i.team_b_name.as_str());
    push_raw(&mut buf, ",\"team_b_short\":");
    push_json_string(&mut buf, i.team_b_short.as_str());
    push_raw(&mut buf, ",\"venue\":");
    push_json_string(&mut buf, i.venue.as_str());
    push_raw(&mut buf, ",\"match_type\":");
    push_json_string(&mut buf, i.match_type.as_str());
    push_raw(&mut buf, ",\"date\":");
    push_json_string(&mut buf, i.date.as_str());
    push_raw(&mut buf, ",\"toss_winner\":");
    push_opt_json_string(&mut buf, &i.toss_winner);
    push_raw(&mut buf, ",\"toss_decision\":");
    push_opt_json_string(&mut buf, &i.toss_decision);
    push_raw(&mut buf, ",\"stage\":");
    push_opt_json_string(&mut buf, &i.stage);
    push_raw(&mut buf, ",\"group_id\":");
    push_opt_json_string(&mut buf, &i.group_id);
    push_raw(&mut buf, "}");
    proof {
        assert(buf@ == info_json(*i));
    }
    out.append(&mut buf);
}

/// The JSON object for a live score.
pub open spec fn score_json(s: LiveScore) -> Seq<char> {
    "{\"current_inning\":"@ + json_str(s.current_inning@) + ",\"batting_team\":"@ + json_str(
        s.batting_team@,
    ) + ",\"bowling_team\":"@ + json_str(s.bowling_team@) + ",\"runs\":"@ + dec_str(s.runs as int)
        + ",\"wickets\":"@ + dec_str(s.wickets as int) + ",\"overs\":"@ + json_str(s.overs@)
        + ",\"target\":"@ + opt_u32_json(s.target) + ",\"striker_id\":"@ + json_str(s.striker_id@)
        + ",\"striker_name\":"@ + json_str(s.striker_name@) + ",\"non_striker_id\":"@ + json_str(
        s.non_striker_id@,
    ) + ",\"non_striker_name\":"@ + json_str(s.non_striker_name@) + ",\"bowler_id\":"@ + json_str(
        s.bowler_id@,
    ) + ",\"bowler_name\":"@ + json_str(s.bowler_name@) + ",\"striker_runs\":"@ + dec_str(
        s.striker_runs as int,
    ) + ",\"striker_balls\":"@ + dec_str(s.striker_balls as int) + ",\"striker_fours\":"@
        + dec_str(s.striker_fours as int) + ",\"striker_sixes\":"@ + dec_str(s.striker_sixes as int)
        + ",\"non_striker_runs\":"@ + dec_str(s.non_striker_runs as int)
        + ",\"non_striker_balls\":"@ + dec_str(s.non_striker_balls as int)
        + ",\"non_striker_fours\":"@ + dec_str(s.non_striker_fours as int)
        + ",\"non_striker_sixes\":"@ + dec_str(s.non_striker_sixes as int) + ",\"bowler_overs\":"@
        + json_str(s.bowler_overs@) + ",\"bowler_runs\":"@ + dec_str(s.bowler_runs as int)
        + ",\"bowler_wickets\":"@ + dec_str(s.bowler_wickets as int) + ",\"bowler_maidens\":"@
        + dec_str(s.bowler_maidens as int) + ",\"last_ball\":"@ + json_str(s.last_ball@)
        + ",\"last_commentary\":"@ + json_str(s.last_commentary@) + ",\"commentary\":"@ + json_str(
        s.commentary@,
    ) + ",\"run_rate\":"@ + json_str(s.run_rate@) + ",\"req_run_rate\":"@ + opt_str_json(
        opt_view(s.req_run_rate),
    ) + ",\"match_status\":"@ + json_str(s.match_status@) + "}"@
}

#[verifier::rlimit(40)]
fn push_score(out: &mut Vec<char>, s: &LiveScore)
    ensures
        final(out)@ == old(out)@ + score_json(*s),
{
    let mut buf: Vec<char> = Vec::new();
    push_raw(&mut buf, "{\"current_inning\":");
    proof {
        assert(Seq::<char>::empty() + "{\"current_inning\":"@ =~= "{\"current_inning\":"@);
    }
    push_json_string(&mut buf, s.current_inning.as_str());
    push_raw(&mut buf, ",\"batting_team\":");
    push_json_string(&mut buf, s.batting_team.as_str());
    push_raw(&mut buf, ",\"bowling_team\":");
    push_json_string(&mut buf, s.bowling_team.as_str());
    push_raw(&mut buf, ",\"runs\":");
    push_u32(&mut buf, s.runs);
    push_raw(&mut buf, ",\"wickets\":");
    push_u32(&mut buf, s.wickets as u32);
    push_raw(&mut buf, ",\"overs\":");
    push_json_string(&mut buf, s.overs.as_str());
    push_raw(&mut buf, ",\"target\":");
    push_opt_u32(&mut buf, &s.target);
    push_raw(&mut buf, ",\"striker_id\":");
    push_json_string(&mut buf, s.striker_id.as_str());
    push_raw(&mut buf, ",\"striker_name\":");
    push_json_string(&mut buf, s.striker_name.as_str());
    push_raw(&mut buf, ",\"non_striker_id\":");
    push_json_string(&mut buf, s.non_striker_id.as_str());
    push_raw(&mut buf, ",\"non_striker_name\":");
    push_json_string(&mut buf, s.non_striker_name.as_str());
    push_raw(&mut buf, ",\"bowler_id\":");
    push_json_string(&mut buf, s.bowler_id.as_str());
    push_raw(&mut buf, ",\"bowler_name\":");
    push_json_string(&mut buf, s.bowler_name.as_str());
    push_raw(&mut buf, ",\"striker_runs\":");
    push_u32(&mut buf, s.striker_runs);
    push_raw(&mut buf, ",\"striker_balls\":");
    push_u32(&mut buf, s.striker_balls);
    push_raw(&mut buf, ",\"striker_fours\":");
    push_u32(&mut buf, s.striker_fours as u32);
    push_raw(&mut buf, ",\"striker_sixes\":");
    push_u32(&mut buf, s.striker_sixes as u32);
    push_raw(&mut buf, ",\"non_striker_runs\":");
    push_u32(&mut buf, s.non_striker_runs);
    push_raw(&mut buf, ",\"non_striker_balls\":");
    push_u32(&mut buf, s.non_striker_balls);
    push_raw(&mut buf, ",\"non_striker_fours\":");
    push_u32(&mut buf, s.non_striker_fours as u32);
    push_raw(&mut buf, ",\"non_striker_sixes\":");
    push_u32(&mut buf, s.non_striker_sixes as u32);
    push_raw(&mut buf, ",\"bowler_overs\":");
    push_json_string(&mut buf, s.bowler_overs.as_str());
    push_raw(&mut buf, ",\"bowler_runs\":");
    push_u32(&mut buf, s.bowler_runs);
    push_raw(&mut buf, ",\"bowler_wickets\":");
    push_u32(&mut buf, s.bowler_wickets as u32);
    push_raw(&mut buf, ",\"bowler_maidens\":");
    push_u32(&mut buf, s.bowler_maidens as u32);
    push_raw(&mut buf, ",\"last_ball\":");
    push_json_string(&mut buf, s.last_ball.as_str());
    push_raw(&mut buf, ",\"last_commentary\":");
    push_json_string(&mut buf, s.last_commentary.as_str());
    push_raw(&mut buf, ",\"commentary\":");
    push_json_string(&mut buf, s.commentary.as_str());
    push_raw(&mut buf, ",\"run_rate\":");
    push_json_string(&mut buf, s.run_rate.as_str());
    push_raw(&mut buf, ",\"req_run_rate\":");
    push_opt_json_string(&mut buf, &s.req_run_rate);
    push_raw(&mut buf, ",\"match_status\":");
    push_json_string(&mut buf, s.match_status.as_str());
    push_raw(&mut buf, "}");
    proof {
        assert(buf@ == score_json(*s));
    }
    out.append(&mut buf);
}

/// The JSON object for a scorecard: the two stored section objects, spliced.
pub open spec fn scorecard_json(c: Scorecard) -> Seq<char> {
    "{\"batsmen\":"@ + c.batsmen_json@ + ",\"bowlers\":"@ + c.bowlers_json@ + "}"@
}

fn push_scorecard(out: &mut Vec<char>, c: &Scorecard)
    ensures
        final(out)@ == old(out)@ + scorecard_json(*c),
{
    push_raw(out, "{\"batsmen\":");
    push_raw(out, c.batsmen_json.as_str());
    push_raw(out, ",\"bowlers\":");
    push_raw(out, c.bowlers_json.as_str());
    push_raw(out, "}");
    proof {
        assert(out@ =~= old(out)@ + scorecard_json(*c));
    }
}

/// An optional scorecard: an object or `null`.
pub open spec fn opt_scorecard_json(o: Option<Scorecard>) -> Seq<char> {
    match o {
        Some(c) => scorecard_json(c),
        None => "null"@,
    }
}

fn push_opt_scorecard(out: &mut Vec<char>, o: &Option<Scorecard>)
    ensures
        final(out)@ == old(out)@ + opt_scorecard_json(*o),
{
    match o {
        Some(c) => push_scorecard(out, c),
        None => push_raw(out, "null"),
    }
}

/// The JSON object for a full match state.
pub open spec fn full_state_json(f: FullMatchState) -> Seq<char> {
    "{\"match_id\":"@ + json_str(f.match_id@) + ",\"info\":"@ + info_json(f.info) + ",\"score\":"@
        + score_json(f.score) + ",\"scorecard_inn_1\":"@ + opt_scorecard_json(f.scorecard_inn_1)
        + ",\"scorecard_inn_2\":"@ + opt_scorecard_json(f.scorecard_inn_2) + "}"@
}

fn push_full_state(out: &mut Vec<char>, f: &FullMatchState)
    ensures
        final(out)@ == old(out)@ + full_state_json(*f),
{
    let mut buf: Vec<char> = Vec::new();
    push_raw(&mut buf, "{\"match_id\":");
    proof {
        assert(Seq::<char>::empty() + "{\"match_id\":"@ =~= "{\"match_id\":"@);
    }
    push_json_string(&mut buf, f.match_id.as_str());
    push_raw(&mut buf, ",\"info\":");
    push_info(&mut buf, &f.info);
    push_raw(&mut buf, ",\"score\":");
    push_score(&mut buf, &f.score);
    push_raw(&mut buf, ",\"scorecard_inn_1\":");
    push_opt_scorecard(&mut buf, &f.scorecard_inn_1);
    push_raw(&mut buf, ",\"scorecard_inn_2\":");
    push_opt_scorecard(&mut buf, &f.scorecard_inn_2);
    push_raw(&mut buf, "}");
    proof {
        assert(buf@ == full_state_json(*f));
    }
    out.append(&mut buf);
}

/// The JSON frame for a server-to-client message, tagged by `type`.
pub open spec fn server_message_json(m: ServerMessage) -> Seq<char> {
    match m {
        ServerMessage::FullState { data } => "{\"type\":\"full_state\",\"data\":"@
            + full_state_json(*data) + "}"@,
        ServerMessage::ScoreUpdate { data } => "{\"type\":\"score_update\",\"data\":"@
            + score_json(*data) + "}"@,
        ServerMessage::ScorecardUpdate { data, inning } => (
        "{\"type\":\"scorecard_update\",\"data\":"@ + scorecard_json(data) + ",\"inning\":"@
            + dec_str(inning as int) + "}"@),
        ServerMessage::Error { message } => "{\"type\":\"error\",\"message\":"@ + json_str(
            message@,
        ) + "}"@,
    }
}

impl ServerMessage {
    /// Render the frame text sent over the wire for this message.
    pub fn to_json(&self) -> (r: String)
        ensures
            r@ == server_message_json(*self),
    {
        let mut out: Vec<char> = Vec::new();
        match self {
            ServerMessage::FullState { data } => {
                push_raw(&mut out, "{\"type\":\"full_state\",\"data\":");
                push_full_state(&mut out, data);
                push_raw(&mut out, "}");
            },
            ServerMessage::ScoreUpdate { data } => {
                push_raw(&mut out, "{\"type\":\"score_update\",\"data\":");
                push_score(&mut out, data);
                push_raw(&mut out, "}");
            },
            ServerMessage::ScorecardUpdate { data, inning } => {
                push_raw(&mut out, "{\"type\":\"scorecard_update\",\"data\":");
                push_scorecard(&mut out, data);
                push_raw(&mut out, ",\"inning\":");
                push_u32(&mut out, *inning as u32);
                push_raw(&mut out, "}");
            },
            ServerMessage::Error { message } => {
                push_raw(&mut out, "{\"type\":\"error\",\"message\":");
                push_json_string(&mut out, message.as_str());
                push_raw(&mut out, "}");
            },
        }
        proof {
            assert(out@ =~= server_message_json(*self));
        }
        string_of(out)
    }
}

/// The JSON object for one live list entry.
pub open spec fn summary_json(m: MatchSummary) -> Seq<char> {
    "{\"match_id\":"@ + json_str(m.match_id@) + ",\"team_a\":"@ + json_str(m.team_a@)
        + ",\"team_b\":"@ + json_str(m.team_b@) + ",\"team_a_score\":"@ + json_str(m.team_a_score@)
        + ",\"team_b_score\":"@ + json_str(m.team_b_score@) + ",\"overs\":"@ + json_str(m.overs@)
        + ",\"status\":"@ + json_str(m.status@) + ",\"stage\":"@ + opt_str_json(opt_view(m.stage))
        + "}"@
}

fn push_summary(out: &mut Vec<char>, m: &MatchSummary)
    ensures
        final(out)@ == old(out)@ + summary_json(*m),
{
    push_raw(out, "{\"match_id\":");
    push_json_string(out, m.match_id.as_str());
    push_raw(out, ",\"team_a\":");
    push_json_string(out, m.team_a.as_str());
    push_raw(out, ",\"team_b\":");
    push_json_string(out, m.team_b.as_str());
    push_raw(out, ",\"team_a_score\":");
    push_json_string(out, m.team_a_score.as_str());
    push_raw(out, ",\"team_b_score\":");
    push_json_string(out, m.team_b_score.as_str());
    push_raw(out, ",\"overs\":");
    push_json_string(out, m.overs.as_str());
    push_raw(out, ",\"status\":");
    push_json_string(out, m.status.as_str());
    push_raw(out, ",\"stage\":");
    push_opt_json_string(out, &m.stage);
    push_raw(out, "}");
    proof {
        assert(out@ =~= old(out)@ + summary_json(*m));
    }
}

/// The inner, comma-separated part of the live list array.
pub open spec fn summaries_inner_json(ms: Seq<MatchSummary>) -> Seq<char>
    decreases ms.len(),
{
    if ms.len() == 0 {
        Seq::empty()
    } else if ms.len() == 1 {
        summary_json(ms[0])
    } else {
        summaries_inner_json(ms.drop_last()) + seq![','] + summary_json(ms.last())
    }
}

/// The JSON array of live list entries.
pub open spec fn summaries_json(ms: Seq<MatchSummary>) -> Seq<char> {
    seq!['['] + summaries_inner_json(ms) + seq![']']
}

/// Render the live match list as the response body of the listing endpoint.
pub fn render_live_list(ms: &Vec<MatchSummary>) -> (r: String)
    ensures
        r@ == summaries_json(ms@),
{
    let mut out: Vec<char> = Vec::new();
    out.push('[');
    let mut i: usize = 0;
    while i < ms.len()
        invariant
            i <= ms@.len(),
            out@ == seq!['['] + summaries_inner_json(ms@.subrange(0, i as int)),
        decreases ms@.len() - i,
    {
        if i > 0 {
            out.push(',');
        }
        let ghost pre1 = ms@.subrange(0, i + 1 as int);
        proof {
            assert(pre1.drop_last() =~= ms@.subrange(0, i as int));
            assert(pre1.last() == ms@[i as int]);
        }
        push_summary(&mut out, &ms[i]);
        proof {
            assert(out@ =~= seq!['['] + summaries_inner_json(ms@.subrange(0, i + 1 as int)));
        }
        i += 1;
    }
    out.push(']');
    proof {
        assert(ms@.subrange(0, ms@.len() as int) =~= ms@);
        assert(out@ =~= summaries_json(ms@));
    }
    string_of(out)
}

/// The health endpoint's response body.
pub fn health_body() -> (r: String)
    ensures
        r@ == "{\"status\":\"ok\",\"service\":\"cricket-live-score-backend\"}"@,
{
    let mut out: Vec<char> = Vec::new();
    push_raw(&mut out, "{\"status\":\"ok\",\"service\":\"cricket-live-score-backend\"}");
    proof {
        assert(out@ =~= "{\"status\":\"ok\",\"service\":\"cricket-live-score-backend\"}"@);
    }
    string_of(out)
}

} // verus!
