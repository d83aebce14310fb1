use cricket_live_gateway::hub::Hub;
use cricket_live_gateway::models::{LiveScore, ServerMessage};
use cricket_live_gateway::pump::{
    connect_retry_decision, match_id_of_channel, pump_messages, publish_messages,
    read_retry_decision, RetryDecision, CONNECT_RETRY_DELAY_MS, READ_RETRY_DELAY_MS,
};
use cricket_live_gateway::session::{parse_client_message, FrameAction, Session};
use cricket_live_gateway::models::ClientMessage;

fn hash(pairs: &[(&str, &str)]) -> Vec<(String, String)> {
    pairs.iter().map(|(k, v)| (k.to_string(), v.to_string())).collect()
}

fn drain(session: &mut Session) -> Vec<String> {
    let mut all = Vec::new();
    loop {
        let batch = session.poll_frames();
        if batch.is_empty() {
            break;
        }
        all.extend(batch);
    }
    all
}

#[test]
fn channel_names_parse_into_match_ids() {
    assert_eq!(match_id_of_channel("match_updates:X"), Some("X".to_string()));
    assert_eq!(match_id_of_channel("match_updates:"), Some("".to_string()));
    assert_eq!(match_id_of_channel("nocolon"), None);
    assert_eq!(match_id_of_channel("a:b:c"), None);
}

#[test]
fn client_messages_parse_and_reject() {
    match parse_client_message("{\"action\":\"subscribe\",\"match_id\":\"X\"}") {
        Ok(ClientMessage::Subscribe { match_id }) => assert_eq!(match_id, "X"),
        _ => panic!("expected a subscribe"),
    }
    match parse_client_message("{\"action\":\"unsubscribe\",\"match_id\":\"X\"}") {
        Ok(ClientMessage::Unsubscribe { match_id }) => assert_eq!(match_id, "X"),
        _ => panic!("expected an unsubscribe"),
    }
    let cases = [
        ("{\"action\":\"foo\"}", "Failed to process message: unknown action"),
        ("not json", "Failed to process message: invalid JSON"),
        ("{\"action\":\"subscribe\"}", "Failed to process message: missing match_id"),
        ("{\"match_id\":\"X\"}", "Failed to process message: missing action"),
        ("{\"action\":7}", "Failed to process message: missing action"),
        ("[1,2]", "Failed to process message: missing action"),
    ];
    for (text, want) in cases {
        match parse_client_message(text) {
            Err(msg) => assert_eq!(msg, want, "case {text:?}"),
            Ok(_) => panic!("case {text:?} should be rejected"),
        }
    }
}

#[test]
fn subscribe_frame_asks_for_hydration() {
    let mut hub = Hub::new();
    let mut session = Session::new();
    let action = session.handle_text_frame(&mut hub, "{\"action\":\"subscribe\",\"match_id\":\"X\"}");
    match action {
        FrameAction::Hydrate { match_id } => assert_eq!(match_id, "X"),
        _ => panic!("expected a hydration request"),
    }
    // The session now holds a receiver, so a broadcast for X is delivered.
    assert!(hub.broadcast("X", "frame".to_string()));
    assert!(!hub.broadcast("Y", "frame".to_string()));
}

#[test]
fn malformed_frame_gets_error_and_connection_survives() {
    let mut hub = Hub::new();
    let mut session = Session::new();
    let action = session.handle_text_frame(&mut hub, "{\"action\":\"foo\"}");
    match action {
        FrameAction::Reply { frame } => assert_eq!(
            frame,
            "{\"type\":\"error\",\"message\":\"Failed to process message: unknown action\"}"
        ),
        _ => panic!("expected an error reply"),
    }
    // The same session still accepts a subscribe afterwards.
    let action = session.handle_text_frame(&mut hub, "{\"action\":\"subscribe\",\"match_id\":\"X\"}");
    assert!(matches!(action, FrameAction::Hydrate { .. }));
    assert!(hub.broadcast("X", "later".to_string()));
}

#[test]
fn publish_fans_out_to_every_subscriber() {
    let mut hub = Hub::new();
    let mut a = Session::new();
    let mut b = Session::new();
    a.subscribe(&mut hub, "X");
    b.subscribe(&mut hub, "X");

    let score = hash(&[("runs", "45"), ("match_status", "Live")]);
    let sc1 = hash(&[("batsmen", "{\"p\":1}")]);
    let msgs = pump_messages(Some(&score), Some(&sc1), None);
    assert_eq!(msgs.len(), 2);
    let delivered = publish_messages(&hub, "X", &msgs);
    assert_eq!(delivered, 2);

    for session in [&mut a, &mut b] {
        let frames = drain(session);
        assert_eq!(frames.len(), 2);
        assert!(frames[0].starts_with("{\"type\":\"score_update\""));
        assert!(frames[0].contains("\"runs\":45"));
        assert!(frames[1].starts_with("{\"type\":\"scorecard_update\""));
        assert!(frames[1].contains("\"inning\":1"));
    }
}

#[test]
fn score_update_precedes_scorecards() {
    let score = hash(&[("runs", "1")]);
    let sc1 = hash(&[("batsmen", "{}")]);
    let sc2 = hash(&[("bowlers", "{}")]);
    let msgs = pump_messages(Some(&score), Some(&sc1), Some(&sc2));
    assert_eq!(msgs.len(), 3);
    assert!(matches!(msgs[0], ServerMessage::ScoreUpdate { .. }));
    assert!(matches!(msgs[1], ServerMessage::ScorecardUpdate { inning: 1, .. }));
    assert!(matches!(msgs[2], ServerMessage::ScorecardUpdate { inning: 2, .. }));
}

#[test]
fn failed_reads_and_empty_scorecards_produce_nothing() {
    assert!(pump_messages(None, None, None).is_empty());
    let empty = hash(&[]);
    let msgs = pump_messages(None, Some(&empty), Some(&empty));
    assert!(msgs.is_empty(), "empty scorecard hashes mean no scorecard yet");
    // A missing score hash still yields a default score update.
    let msgs = pump_messages(Some(&empty), None, None);
    assert_eq!(msgs.len(), 1);
}

#[test]
fn notification_for_unknown_match_reaches_nobody() {
    let mut hub = Hub::new();
    let mut session = Session::new();
    session.subscribe(&mut hub, "X");

    let score = hash(&[("runs", "45")]);
    let msgs = pump_messages(Some(&score), None, None);
    let delivered = publish_messages(&hub, "ghost", &msgs);
    assert_eq!(delivered, 0);
    assert!(drain(&mut session).is_empty());
}

#[test]
fn unsubscribed_session_receives_nothing_while_others_do() {
    let mut hub = Hub::new();
    let mut a = Session::new();
    let mut b = Session::new();
    a.subscribe(&mut hub, "X");
    b.subscribe(&mut hub, "X");
    a.unsubscribe("X");

    let score = hash(&[("runs", "45")]);
    let msgs = pump_messages(Some(&score), None, None);
    publish_messages(&hub, "X", &msgs);

    assert!(drain(&mut a).is_empty());
    let frames = drain(&mut b);
    assert_eq!(frames.len(), 1);
    assert!(frames[0].contains("\"runs\":45"));
}

#[test]
fn unsubscribe_is_idempotent_and_scoped() {
    let mut hub = Hub::new();
    let mut s = Session::new();
    s.subscribe(&mut hub, "X");
    s.subscribe(&mut hub, "Y");
    s.unsubscribe("X");
    s.unsubscribe("X");
    s.unsubscribe("never-subscribed");

    publish_messages(&hub, "X", &pump_messages(Some(&hash(&[("runs", "1")])), None, None));
    publish_messages(&hub, "Y", &pump_messages(Some(&hash(&[("runs", "2")])), None, None));
    let frames = drain(&mut s);
    assert_eq!(frames.len(), 1);
    assert!(frames[0].contains("\"runs\":2"));
}

#[test]
fn resubscribe_does_not_duplicate_delivery() {
    let mut hub = Hub::new();
    let mut s = Session::new();
    s.subscribe(&mut hub, "X");
    s.subscribe(&mut hub, "X");

    publish_messages(&hub, "X", &pump_messages(Some(&hash(&[("runs", "7")])), None, None));
    let frames = drain(&mut s);
    assert_eq!(frames.len(), 1);
}

#[test]
fn blocked_consumer_never_blocks_the_pump_and_recovers() {
    let mut hub = Hub::new();
    let mut s = Session::new();
    s.subscribe(&mut hub, "X");

    // 150 publications against a channel buffering 100: every send returns
    // at once even though the session never polls in between.
    for n in 0..150u32 {
        let score = hash(&[("runs", &n.to_string())]);
        let msgs = pump_messages(Some(&score), None, None);
        let delivered = publish_messages(&hub, "X", &msgs);
        assert_eq!(delivered, 1);
    }

    // The first poll observes the lag and skips it; the session then
    // recovers what the channel kept.
    let first = s.poll_frames();
    let mut frames = first;
    frames.extend(drain(&mut s));
    assert!(!frames.is_empty());
    assert!(frames.len() < 150, "the oldest frames were dropped, not queued");
    assert!(frames.last().unwrap().contains("\"runs\":149"));

    // The next notification arrives normally.
    publish_messages(&hub, "X", &pump_messages(Some(&hash(&[("runs", "150")])), None, None));
    let frames = drain(&mut s);
    assert_eq!(frames.len(), 1);
    assert!(frames[0].contains("\"runs\":150"));
}

#[test]
fn retry_policies_match_the_adapter_contract() {
    assert!(matches!(read_retry_decision(1), RetryDecision::RetryAfterMs(READ_RETRY_DELAY_MS)));
    assert!(matches!(read_retry_decision(2), RetryDecision::RetryAfterMs(100)));
    assert!(matches!(read_retry_decision(3), RetryDecision::GiveUp));
    assert!(matches!(
        connect_retry_decision(9),
        RetryDecision::RetryAfterMs(CONNECT_RETRY_DELAY_MS)
    ));
    assert!(matches!(connect_retry_decision(10), RetryDecision::GiveUp));
}
