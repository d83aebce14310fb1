use cricket_live_gateway::adapter::{build_live_list, key_match_id, score_is_live, LiveListItem};
use cricket_live_gateway::adapter::hydration_message;
use cricket_live_gateway::json::render_live_list;
use cricket_live_gateway::models::{LiveScore, MatchInfo, Scorecard, ServerMessage};
use cricket_live_gateway::text::{parse_u32, parse_u8, split_str};

fn hash(pairs: &[(&str, &str)]) -> Vec<(String, String)> {
    pairs.iter().map(|(k, v)| (k.to_string(), v.to_string())).collect()
}

#[test]
fn parse_u32_accepts_plain_and_signed_decimals() {
    assert_eq!(parse_u32("0"), Some(0));
    assert_eq!(parse_u32("45"), Some(45));
    assert_eq!(parse_u32("+5"), Some(5));
    assert_eq!(parse_u32("0007"), Some(7));
    assert_eq!(parse_u32("4294967295"), Some(u32::MAX));
}

#[test]
fn parse_u32_rejects_junk_and_overflow() {
    assert_eq!(parse_u32(""), None);
    assert_eq!(parse_u32("+"), None);
    assert_eq!(parse_u32("abc"), None);
    assert_eq!(parse_u32("12a"), None);
    assert_eq!(parse_u32(" 12"), None);
    assert_eq!(parse_u32("-1"), None);
    assert_eq!(parse_u32("4294967296"), None);
    assert_eq!(parse_u32("99999999999999999999"), None);
}

#[test]
fn parse_u8_matches_std() {
    for s in ["0", "255", "256", "+10", "", "x", "300"] {
        assert_eq!(parse_u8(s), s.parse::<u8>().ok(), "case {s:?}");
    }
}

#[test]
fn split_str_matches_std_split() {
    for s in ["", "a", "a:b", "a:b:c", ":", "::", "match:X:score", "x:"] {
        let got = split_str(s, ':');
        let want: Vec<&str> = s.split(':').collect();
        assert_eq!(got, want, "case {s:?}");
    }
}

#[test]
fn live_score_defaults_to_zero_and_empty() {
    let s = LiveScore::from_redis_hash(&hash(&[]));
    assert_eq!(s.runs, 0);
    assert_eq!(s.wickets, 0);
    assert_eq!(s.target, None);
    assert_eq!(s.striker_runs, 0);
    assert_eq!(s.striker_balls, 0);
    assert_eq!(s.striker_fours, 0);
    assert_eq!(s.striker_sixes, 0);
    assert_eq!(s.non_striker_runs, 0);
    assert_eq!(s.non_striker_balls, 0);
    assert_eq!(s.non_striker_fours, 0);
    assert_eq!(s.non_striker_sixes, 0);
    assert_eq!(s.bowler_runs, 0);
    assert_eq!(s.bowler_wickets, 0);
    assert_eq!(s.bowler_maidens, 0);
    assert_eq!(s.batting_team, "");
    assert_eq!(s.bowling_team, "");
    assert_eq!(s.overs, "");
    assert_eq!(s.match_status, "");
    assert_eq!(s.current_inning, "");
    assert_eq!(s.commentary, "[]");
    assert_eq!(s.req_run_rate, None);
}

#[test]
fn live_score_parses_numeric_fields() {
    let s = LiveScore::from_redis_hash(&hash(&[
        ("runs", "145"),
        ("wickets", "3"),
        ("target", "220"),
        ("striker_runs", "+41"),
        ("bowler_wickets", "oops"),
        ("batting_team", "India"),
        ("current_inning", "2"),
        ("commentary", "[{\"over\":1}]"),
    ]));
    assert_eq!(s.runs, 145);
    assert_eq!(s.wickets, 3);
    assert_eq!(s.target, Some(220));
    assert_eq!(s.striker_runs, 41);
    assert_eq!(s.bowler_wickets, 0, "an unparseable numeric field reads zero");
    assert_eq!(s.batting_team, "India");
    assert_eq!(s.current_inning, "2");
    assert_eq!(s.commentary, "[{\"over\":1}]");
}

#[test]
fn match_info_parses_options() {
    let i = MatchInfo::from_redis_hash(&hash(&[
        ("team_a_name", "India"),
        ("team_a_short", "IND"),
        ("stage", "Final"),
    ]));
    assert_eq!(i.team_a_name, "India");
    assert_eq!(i.team_a_short, "IND");
    assert_eq!(i.team_b_name, "");
    assert_eq!(i.stage, Some("Final".to_string()));
    assert_eq!(i.toss_winner, None);
    assert_eq!(i.group_id, None);
}

#[test]
fn scorecard_keeps_object_sections_and_drops_junk() {
    let sc = Scorecard::from_redis_hash(&hash(&[
        ("batsmen", "{\"p1\":{\"name\":\"A\",\"runs\":10,\"balls\":8,\"fours\":1,\"sixes\":0,\"strike_rate\":125.0,\"status\":\"batting\"}}"),
        ("bowlers", "not json"),
    ]));
    assert!(sc.batsmen_json.starts_with("{\"p1\""));
    assert_eq!(sc.bowlers_json, "{}");

    let sc2 = Scorecard::from_redis_hash(&hash(&[]));
    assert_eq!(sc2.batsmen_json, "{}");
    assert_eq!(sc2.bowlers_json, "{}");

    let sc3 = Scorecard::from_redis_hash(&hash(&[("batsmen", "[1,2]")]));
    assert_eq!(sc3.batsmen_json, "{}", "a non-object JSON value is not a section");

    let sc4 = Scorecard::from_redis_hash(&hash(&[("batsmen", "{\"p1\":5}")]));
    assert_eq!(sc4.batsmen_json, "{}", "a player entry must itself be an object");
}

#[test]
fn key_match_id_takes_middle_part() {
    assert_eq!(key_match_id("match:X:score"), Some("X".to_string()));
    assert_eq!(key_match_id("match::score"), Some("".to_string()));
    assert_eq!(key_match_id("bad"), None);
    assert_eq!(key_match_id("match:a:b:c"), None);
}

#[test]
fn live_list_has_exact_shape() {
    let items = vec![LiveListItem {
        match_id: "X".to_string(),
        score_hash: hash(&[
            ("match_status", "Live"),
            ("runs", "45"),
            ("wickets", "2"),
            ("overs", "6.3"),
            ("batting_team", "India"),
            ("current_inning", "1"),
        ]),
        info_hash: hash(&[
            ("team_a_name", "India"),
            ("team_a_short", "IND"),
            ("team_b_name", "Australia"),
            ("team_b_short", "AUS"),
        ]),
    }];
    let list = build_live_list(&items);
    let body = render_live_list(&list);
    assert_eq!(
        body,
        "[{\"match_id\":\"X\",\"team_a\":\"IND\",\"team_b\":\"AUS\",\"team_a_score\":\"45/2\",\
         \"team_b_score\":\"-\",\"overs\":\"6.3\",\"status\":\"Live\",\"stage\":null}]"
    );
}

#[test]
fn live_list_omits_completed_matches() {
    let items = vec![LiveListItem {
        match_id: "X".to_string(),
        score_hash: hash(&[("match_status", "completed"), ("runs", "45")]),
        info_hash: hash(&[("team_a_short", "IND")]),
    }];
    let list = build_live_list(&items);
    assert!(list.is_empty());
    assert_eq!(render_live_list(&list), "[]");
}

#[test]
fn live_list_keeps_only_live_statuses() {
    let statuses = ["Live", "in_progress", "active", "completed", "scheduled", "live", ""];
    let items: Vec<LiveListItem> = statuses
        .iter()
        .enumerate()
        .map(|(n, st)| LiveListItem {
            match_id: format!("m{n}"),
            score_hash: hash(&[("match_status", st), ("batting_team", "A")]),
            info_hash: hash(&[("team_a_name", "A")]),
        })
        .collect();
    let list = build_live_list(&items);
    let got: Vec<&str> = list.iter().map(|m| m.status.as_str()).collect();
    assert_eq!(got, vec!["Live", "in_progress", "active"]);
    assert!(list.iter().all(|m| {
        let sh = hash(&[("match_status", m.status.as_str())]);
        score_is_live(&sh)
    }));
}

#[test]
fn live_list_without_status_field_is_skipped() {
    assert!(!score_is_live(&hash(&[("runs", "3")])));
}

#[test]
fn batting_side_is_matched_by_full_team_name() {
    let item = LiveListItem {
        match_id: "X".to_string(),
        score_hash: hash(&[
            ("match_status", "Live"),
            ("runs", "99"),
            ("wickets", "5"),
            ("batting_team", "Australia"),
        ]),
        info_hash: hash(&[
            ("team_a_name", "India"),
            ("team_a_short", "IND"),
            ("team_b_name", "Australia"),
            ("team_b_short", "AUS"),
        ]),
    };
    let list = build_live_list(&vec![item]);
    assert_eq!(list[0].team_a_score, "-");
    assert_eq!(list[0].team_b_score, "99/5");
}

#[test]
fn hydration_carries_full_state_for_known_match() {
    let info = hash(&[("team_a_name", "India"), ("team_a_short", "IND")]);
    let score = hash(&[("runs", "45"), ("wickets", "2"), ("match_status", "Live")]);
    let empty = hash(&[]);
    let m = hydration_message("X", &info, &score, &empty, &empty);
    match &m {
        ServerMessage::FullState { data } => {
            assert_eq!(data.match_id, "X");
            assert_eq!(data.info.team_a_short, "IND");
            assert_eq!(data.score.runs, 45);
            assert!(data.scorecard_inn_1.is_none());
            assert!(data.scorecard_inn_2.is_none());
        }
        _ => panic!("expected a full state"),
    }
    let frame = m.to_json();
    assert!(frame.starts_with("{\"type\":\"full_state\",\"data\":{\"match_id\":\"X\","));
    assert!(frame.contains("\"scorecard_inn_1\":null"));
    assert!(frame.ends_with("}"));
}

#[test]
fn hydration_answers_unknown_match_with_error() {
    let empty = hash(&[]);
    let m = hydration_message("nope", &empty, &empty, &empty, &empty);
    match &m {
        ServerMessage::Error { message } => {
            assert_eq!(message, "Failed to get match state: Match not found: nope");
        }
        _ => panic!("expected an error"),
    }
    assert_eq!(
        m.to_json(),
        "{\"type\":\"error\",\"message\":\"Failed to get match state: Match not found: nope\"}"
    );
}

#[test]
fn health_body_is_fixed() {
    assert_eq!(
        cricket_live_gateway::json::health_body(),
        "{\"status\":\"ok\",\"service\":\"cricket-live-score-backend\"}"
    );
}

#[test]
fn hydration_splices_existing_scorecards() {
    let info = hash(&[("team_a_name", "India")]);
    let score = hash(&[("runs", "45")]);
    let sc1 = hash(&[("batsmen", "{\"p\":{}}"), ("bowlers", "{\"q\":{}}")]);
    let empty = hash(&[]);
    let m = hydration_message("X", &info, &score, &sc1, &empty);
    let frame = m.to_json();
    assert!(frame.contains("\"scorecard_inn_1\":{\"batsmen\":{\"p\":{}},\"bowlers\":{\"q\":{}}}"));
    assert!(frame.contains("\"scorecard_inn_2\":null"));
}

#[test]
fn error_frames_escape_message_text() {
    let m = ServerMessage::Error { message: "a \"quoted\"\nline\\\u{1f}".to_string() };
    assert_eq!(
        m.to_json(),
        "{\"type\":\"error\",\"message\":\"a \\\"quoted\\\"\\nline\\\\\\u001f\"}"
    );
}

#[test]
fn score_update_frame_lists_every_field_in_order() {
    let s = LiveScore::from_redis_hash(&hash(&[("runs", "45"), ("wickets", "2")]));
    let frame = ServerMessage::ScoreUpdate { data: Box::new(s) }.to_json();
    assert_eq!(
        frame,
        "{\"type\":\"score_update\",\"data\":{\"current_inning\":\"\",\"batting_team\":\"\",\
         \"bowling_team\":\"\",\"runs\":45,\"wickets\":2,\"overs\":\"\",\"target\":null,\
         \"striker_id\":\"\",\"striker_name\":\"\",\"non_striker_id\":\"\",\
         \"non_striker_name\":\"\",\"bowler_id\":\"\",\"bowler_name\":\"\",\"striker_runs\":0,\
         \"striker_balls\":0,\"striker_fours\":0,\"striker_sixes\":0,\"non_striker_runs\":0,\
         \"non_striker_balls\":0,\"non_striker_fours\":0,\"non_striker_sixes\":0,\
         \"bowler_overs\":\"\",\"bowler_runs\":0,\"bowler_wickets\":0,\"bowler_maidens\":0,\
         \"last_ball\":\"\",\"last_commentary\":\"\",\"commentary\":\"[]\",\"run_rate\":\"\",\
         \"req_run_rate\":null,\"match_status\":\"\"}}"
    );
}

#[test]
fn scorecard_update_frame_splices_sections() {
    let sc = Scorecard::from_redis_hash(&hash(&[("batsmen", "{\"a\":{\"runs\":1}}")]));
    let frame = ServerMessage::ScorecardUpdate { data: sc, inning: 2 }.to_json();
    assert_eq!(
        frame,
        "{\"type\":\"scorecard_update\",\"data\":{\"batsmen\":{\"a\":{\"runs\":1}},\
         \"bowlers\":{}},\"inning\":2}"
    );
}
