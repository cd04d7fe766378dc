use std::collections::HashSet;

use scoreboard::entity::{CommentaryRecord, MatchRecord, MatchStatus};
use scoreboard::time::Timestamp;
use scoreboard::ws::connection::ConnectionManager;
use scoreboard::ws::handler::{handle_client_frame, handle_text_message, release_subscriptions, ClientFrame, FrameOutcome};
use scoreboard::ws::message::{IncomingMessage, OutgoingMessage, ScoreData};

fn recipients(m: &ConnectionManager, match_id: i32) -> Option<Vec<u64>> {
    m.broadcast_score_update(match_id, 0, 0).map(|d| d.recipients)
}

fn commentary(match_id: i32) -> CommentaryRecord {
    CommentaryRecord {
        id: 3,
        match_id,
        minute: Some(9),
        sequence: Some(1),
        period: None,
        event_type: Some("card".to_string()),
        actor: Some("Player".to_string()),
        team: None,
        message: "Yellow card".to_string(),
        metadata: None,
        tags: Some(vec!["card".to_string()]),
        created_at: Timestamp { secs: 5, nanos: 0 },
    }
}

#[test]
fn new_registry_has_no_subscribers() {
    let m = ConnectionManager::new();
    assert_eq!(recipients(&m, 1), None);
}

#[test]
fn subscribers_are_kept_in_order() {
    let mut m = ConnectionManager::new();
    m.subscribe(1, 10);
    m.subscribe(1, 11);
    m.subscribe(2, 10);
    assert_eq!(recipients(&m, 1), Some(vec![10, 11]));
    assert_eq!(recipients(&m, 2), Some(vec![10]));
    assert_eq!(recipients(&m, 3), None);
}

#[test]
fn unsubscribe_removes_every_entry_of_the_client_only() {
    let mut m = ConnectionManager::new();
    m.subscribe(1, 10);
    m.subscribe(1, 11);
    m.subscribe(1, 10);
    m.subscribe(1, 12);
    m.unsubscribe(1, 10);
    assert_eq!(recipients(&m, 1), Some(vec![11, 12]));
}

#[test]
fn last_unsubscribe_forgets_the_match() {
    let mut m = ConnectionManager::new();
    m.subscribe(4, 10);
    m.unsubscribe(4, 10);
    assert_eq!(recipients(&m, 4), None);
    // unsubscribing from a match nobody follows changes nothing
    m.unsubscribe(4, 10);
    assert_eq!(recipients(&m, 4), None);
}

#[test]
fn unsubscribe_undoes_subscribe() {
    let mut m = ConnectionManager::new();
    m.subscribe(1, 11);
    m.subscribe(2, 12);
    m.subscribe(1, 10);
    m.unsubscribe(1, 10);
    assert_eq!(recipients(&m, 1), Some(vec![11]));
    assert_eq!(recipients(&m, 2), Some(vec![12]));
}

#[test]
fn score_update_goes_to_the_match_subscribers() {
    let mut m = ConnectionManager::new();
    m.subscribe(5, 1);
    m.subscribe(5, 2);
    m.subscribe(6, 3);
    let d = m.broadcast_score_update(5, 2, 1).unwrap();
    assert_eq!(d.recipients, vec![1, 2]);
    match d.message {
        OutgoingMessage::ScoreUpdate { data } => assert_eq!(data, ScoreData { home_score: 2, away_score: 1 }),
        other => panic!("unexpected message {:?}", other),
    }
    assert!(m.broadcast_score_update(7, 0, 0).is_none());
}

#[test]
fn commentary_goes_to_the_match_subscribers() {
    let mut m = ConnectionManager::new();
    m.subscribe(8, 4);
    let d = m.broadcast_commentary(8, commentary(8)).unwrap();
    assert_eq!(d.recipients, vec![4]);
    match d.message {
        OutgoingMessage::Commentary { data } => {
            assert_eq!(data.id, 3);
            assert_eq!(data.message, "Yellow card");
        }
        other => panic!("unexpected message {:?}", other),
    }
    assert!(m.broadcast_commentary(9, commentary(9)).is_none());
}

#[test]
fn match_created_announcement_carries_the_match() {
    let m = ConnectionManager::new();
    let record = MatchRecord {
        id: 1,
        sport: "tennis".to_string(),
        home_team: "X".to_string(),
        away_team: "Y".to_string(),
        home_score: 0,
        away_score: 0,
        status: MatchStatus::Scheduled,
        start_time: Timestamp { secs: 1, nanos: 0 },
        end_time: Timestamp { secs: 2, nanos: 0 },
        created_at: Timestamp { secs: 0, nanos: 0 },
    };
    match m.broadcast_match_created(record) {
        OutgoingMessage::MatchCreated { data } => assert_eq!(data.sport, "tennis"),
        other => panic!("unexpected message {:?}", other),
    }
}

#[test]
fn subscribe_message_subscribes_once() {
    let mut m = ConnectionManager::new();
    let mut local = HashSet::new();
    let r1 = handle_text_message(Some(IncomingMessage::Subscribe { match_id: 3 }), 20, &mut local, &mut m);
    let r2 = handle_text_message(Some(IncomingMessage::Subscribe { match_id: 3 }), 20, &mut local, &mut m);
    assert!(matches!(r1, OutgoingMessage::Subscribed { match_id: 3 }));
    assert!(matches!(r2, OutgoingMessage::Subscribed { match_id: 3 }));
    assert_eq!(recipients(&m, 3), Some(vec![20]));
    assert!(local.contains(&3));
}

#[test]
fn unsubscribe_message_is_acknowledged_even_when_not_subscribed() {
    let mut m = ConnectionManager::new();
    m.subscribe(3, 21);
    let mut local = HashSet::new();
    let r = handle_text_message(Some(IncomingMessage::Unsubscribe { match_id: 3 }), 20, &mut local, &mut m);
    assert!(matches!(r, OutgoingMessage::Unsubscribed { match_id: 3 }));
    assert_eq!(recipients(&m, 3), Some(vec![21]));
}

#[test]
fn unsubscribe_message_takes_the_client_off() {
    let mut m = ConnectionManager::new();
    let mut local = HashSet::new();
    handle_text_message(Some(IncomingMessage::Subscribe { match_id: 3 }), 20, &mut local, &mut m);
    handle_text_message(Some(IncomingMessage::Subscribe { match_id: 3 }), 21, &mut HashSet::new(), &mut m);
    let r = handle_text_message(Some(IncomingMessage::Unsubscribe { match_id: 3 }), 20, &mut local, &mut m);
    assert!(matches!(r, OutgoingMessage::Unsubscribed { match_id: 3 }));
    assert_eq!(recipients(&m, 3), Some(vec![21]));
    assert!(local.is_empty());
}

#[test]
fn invalid_message_is_answered_with_an_error() {
    let mut m = ConnectionManager::new();
    let mut local = HashSet::new();
    match handle_text_message(None, 20, &mut local, &mut m) {
        OutgoingMessage::Error { message } => assert_eq!(message, "Invalid JSON"),
        other => panic!("unexpected message {:?}", other),
    }
    assert!(local.is_empty());
    assert_eq!(recipients(&m, 0), None);
}

#[test]
fn frames_other_than_text_change_nothing() {
    let mut m = ConnectionManager::new();
    let mut local = HashSet::new();
    assert!(matches!(handle_client_frame(ClientFrame::Binary, 1, &mut local, &mut m), FrameOutcome::Ignored));
    assert!(matches!(handle_client_frame(ClientFrame::Ping, 1, &mut local, &mut m), FrameOutcome::Ignored));
    assert!(matches!(handle_client_frame(ClientFrame::Pong, 1, &mut local, &mut m), FrameOutcome::Ignored));
    assert!(matches!(handle_client_frame(ClientFrame::Close, 1, &mut local, &mut m), FrameOutcome::Closed));
    let out = handle_client_frame(
        ClientFrame::Text(Some(IncomingMessage::Subscribe { match_id: 2 })),
        1,
        &mut local,
        &mut m,
    );
    assert!(matches!(out, FrameOutcome::Reply(OutgoingMessage::Subscribed { match_id: 2 })));
    assert_eq!(recipients(&m, 2), Some(vec![1]));
}

#[test]
fn closing_a_connection_leaves_no_trace_of_its_client() {
    let mut m = ConnectionManager::new();
    let mut local = HashSet::new();
    let mut other = HashSet::new();
    for id in [1, 2, 3] {
        handle_text_message(Some(IncomingMessage::Subscribe { match_id: id }), 50, &mut local, &mut m);
    }
    handle_text_message(Some(IncomingMessage::Subscribe { match_id: 2 }), 51, &mut other, &mut m);
    release_subscriptions(&mut m, &local, 50);
    assert_eq!(recipients(&m, 1), None);
    assert_eq!(recipients(&m, 2), Some(vec![51]));
    assert_eq!(recipients(&m, 3), None);
}
