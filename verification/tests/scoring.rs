use scoreboard::entity::{MatchRecord, MatchStatus};
use scoreboard::scoring::{ScoreUpdate, ScoreUpdateAction, ScoreUpdateEvent, ScoreUpdateStage};
use scoreboard::time::Timestamp;
use scoreboard::validation::UpdateScorePayload;

fn ts(secs: i64) -> Timestamp {
    Timestamp { secs, nanos: 0 }
}

fn stored(status: MatchStatus, start: i64, end: i64) -> MatchRecord {
    MatchRecord {
        id: 4,
        sport: "hockey".to_string(),
        home_team: "H".to_string(),
        away_team: "A".to_string(),
        home_score: 0,
        away_score: 0,
        status,
        start_time: ts(start),
        end_time: ts(end),
        created_at: ts(0),
    }
}

fn update() -> ScoreUpdate {
    ScoreUpdate::new(4, UpdateScorePayload { home_score: 3, away_score: 2 }).unwrap()
}

fn error_of(action: ScoreUpdateAction) -> (u16, String, Option<String>) {
    match action {
        ScoreUpdateAction::Respond { reply } => {
            let e = reply.body.unwrap_err();
            (reply.status, e.error, e.details)
        }
        other => panic!("unexpected action {:?}", other),
    }
}

#[test]
fn new_update_waits_for_the_lookup() {
    let u = update();
    assert_eq!((u.match_id(), u.home_score(), u.away_score()), (4, 3, 2));
    assert_eq!(u.stage(), ScoreUpdateStage::AwaitingLookup);
}

fn refusal(home_score: i32, away_score: i32) -> (u16, String, Option<String>) {
    match ScoreUpdate::new(4, UpdateScorePayload { home_score, away_score }) {
        Err(reply) => {
            let e = reply.body.unwrap_err();
            (reply.status, e.error, e.details)
        }
        Ok(u) => panic!("unexpected update {:?}", u),
    }
}

#[test]
fn negative_home_score_is_refused_with_422() {
    assert_eq!(refusal(-1, 0), (422, "Invalid score".to_string(), Some("home_score".to_string())));
}

#[test]
fn negative_away_score_is_refused_with_422() {
    assert_eq!(refusal(5, -3), (422, "Invalid score".to_string(), Some("away_score".to_string())));
}

#[test]
fn both_scores_negative_are_both_named() {
    assert_eq!(
        refusal(i32::MIN, -1),
        (422, "Invalid score".to_string(), Some("home_score, away_score".to_string()))
    );
}

#[test]
fn zero_scores_are_accepted() {
    assert!(ScoreUpdate::new(4, UpdateScorePayload { home_score: 0, away_score: 0 }).is_ok());
}

#[test]
fn missing_match_is_404() {
    let mut u = update();
    let a = u.advance_at(ScoreUpdateEvent::Looked(Ok(None)), ts(50));
    assert_eq!(error_of(a), (404, "Match not found".to_string(), None));
    assert_eq!(u.stage(), ScoreUpdateStage::Finished);
}

#[test]
fn failed_lookup_is_500() {
    let mut u = update();
    let a = u.advance_at(ScoreUpdateEvent::Looked(Err("db".to_string())), ts(50));
    assert_eq!(error_of(a), (500, "Failed to update score".to_string(), None));
}

#[test]
fn live_match_gets_its_scores_saved() {
    let mut u = update();
    let a = u.advance_at(ScoreUpdateEvent::Looked(Ok(Some(stored(MatchStatus::Live, 10, 100)))), ts(50));
    assert!(matches!(a, ScoreUpdateAction::SaveScores { match_id: 4, home_score: 3, away_score: 2 }));
    assert_eq!(u.stage(), ScoreUpdateStage::AwaitingScoreSave);
}

#[test]
fn saved_scores_are_broadcast_and_returned() {
    let mut u = update();
    u.advance_at(ScoreUpdateEvent::Looked(Ok(Some(stored(MatchStatus::Live, 10, 100)))), ts(50));
    let mut saved = stored(MatchStatus::Live, 10, 100);
    saved.home_score = 3;
    saved.away_score = 2;
    match u.advance_at(ScoreUpdateEvent::ScoresSaved(Ok(saved)), ts(51)) {
        ScoreUpdateAction::BroadcastAndRespond { match_id, home_score, away_score, reply } => {
            assert_eq!((match_id, home_score, away_score), (4, 3, 2));
            assert_eq!(reply.status, 200);
            let data = reply.body.unwrap().data;
            assert_eq!((data.home_score, data.away_score), (3, 2));
        }
        other => panic!("unexpected action {:?}", other),
    }
    assert_eq!(u.stage(), ScoreUpdateStage::Finished);
}

#[test]
fn failed_score_save_is_500() {
    let mut u = update();
    u.advance_at(ScoreUpdateEvent::Looked(Ok(Some(stored(MatchStatus::Live, 10, 100)))), ts(50));
    let a = u.advance_at(ScoreUpdateEvent::ScoresSaved(Err("lost".to_string())), ts(51));
    assert_eq!(error_of(a), (500, "Failed to update score".to_string(), None));
}

#[test]
fn stale_status_is_saved_before_the_scores() {
    // stored as scheduled, but the clock says live
    let mut u = update();
    let a = u.advance_at(ScoreUpdateEvent::Looked(Ok(Some(stored(MatchStatus::Scheduled, 10, 100)))), ts(50));
    assert!(matches!(a, ScoreUpdateAction::SaveStatus { match_id: 4, status: MatchStatus::Live }));
    assert_eq!(u.stage(), ScoreUpdateStage::AwaitingStatusSave { fresh_status: MatchStatus::Live });
    // the status save failing does not stop the score update
    let b = u.advance_at(ScoreUpdateEvent::StatusSaved(Err("x".to_string())), ts(51));
    assert!(matches!(b, ScoreUpdateAction::SaveScores { match_id: 4, home_score: 3, away_score: 2 }));
}

#[test]
fn finished_match_is_refused_with_409_after_saving_its_status() {
    // stored as live, but the clock says it is over
    let mut u = update();
    let a = u.advance_at(ScoreUpdateEvent::Looked(Ok(Some(stored(MatchStatus::Live, 10, 20)))), ts(50));
    assert!(matches!(a, ScoreUpdateAction::SaveStatus { match_id: 4, status: MatchStatus::Finished }));
    let b = u.advance_at(ScoreUpdateEvent::StatusSaved(Ok(stored(MatchStatus::Finished, 10, 20))), ts(51));
    assert_eq!(error_of(b), (409, "Match is not live".to_string(), None));
    assert_eq!(u.stage(), ScoreUpdateStage::Finished);
}

#[test]
fn scheduled_match_is_refused_with_409() {
    let mut u = update();
    let a = u.advance_at(ScoreUpdateEvent::Looked(Ok(Some(stored(MatchStatus::Scheduled, 100, 200)))), ts(50));
    assert_eq!(error_of(a), (409, "Match is not live".to_string(), None));
}

#[test]
fn expects_only_the_awaited_answer() {
    let mut u = update();
    assert!(u.expects(&ScoreUpdateEvent::Looked(Ok(None))));
    assert!(!u.expects(&ScoreUpdateEvent::ScoresSaved(Err(String::new()))));
    u.advance_at(ScoreUpdateEvent::Looked(Ok(Some(stored(MatchStatus::Live, 10, 100)))), ts(50));
    assert!(u.expects(&ScoreUpdateEvent::ScoresSaved(Err(String::new()))));
    assert!(!u.expects(&ScoreUpdateEvent::StatusSaved(Err(String::new()))));
}

#[test]
fn advance_reads_the_clock() {
    // a match running from 2000 to 2200 is live now
    let mut u = update();
    let a = u.advance(ScoreUpdateEvent::Looked(Ok(Some(stored(MatchStatus::Live, 946_684_800, 7_258_118_400)))));
    assert!(matches!(a, ScoreUpdateAction::SaveScores { .. }));
    // one that ended in 2000 is not
    let mut v = update();
    let b = v.advance(ScoreUpdateEvent::Looked(Ok(Some(stored(MatchStatus::Live, 946_684_800, 946_692_000)))));
    assert!(matches!(b, ScoreUpdateAction::SaveStatus { status: MatchStatus::Finished, .. }));
}
