use scoreboard::entity::{MatchRecord, MatchStatus};
use scoreboard::match_status::{get_match_status, match_status_at, sync_match_status, sync_match_status_at};
use scoreboard::time::Timestamp;

fn ts(secs: i64, nanos: u32) -> Timestamp {
    Timestamp { secs, nanos }
}

fn record(status: MatchStatus, start: Timestamp, end: Timestamp) -> MatchRecord {
    MatchRecord {
        id: 7,
        sport: "football".to_string(),
        home_team: "Home".to_string(),
        away_team: "Away".to_string(),
        home_score: 1,
        away_score: 2,
        status,
        start_time: start,
        end_time: end,
        created_at: ts(100, 0),
    }
}

#[test]
fn is_before_orders_by_seconds_then_nanos() {
    assert!(ts(1, 999).is_before(&ts(2, 0)));
    assert!(ts(5, 1).is_before(&ts(5, 2)));
    assert!(!ts(5, 2).is_before(&ts(5, 2)));
    assert!(!ts(6, 0).is_before(&ts(5, 999_999_999)));
    // a leap-second instant sorts after the same second's ordinary instants
    assert!(ts(5, 999_999_999).is_before(&ts(5, 1_500_000_000)));
}

#[test]
fn status_before_start_is_scheduled() {
    assert_eq!(match_status_at(ts(99, 0), ts(100, 0), ts(200, 0)), MatchStatus::Scheduled);
    assert_eq!(match_status_at(ts(100, 0), ts(100, 1), ts(200, 0)), MatchStatus::Scheduled);
}

#[test]
fn status_on_the_boundaries_is_live() {
    assert_eq!(match_status_at(ts(100, 0), ts(100, 0), ts(200, 0)), MatchStatus::Live);
    assert_eq!(match_status_at(ts(200, 0), ts(100, 0), ts(200, 0)), MatchStatus::Live);
    assert_eq!(match_status_at(ts(150, 5), ts(100, 0), ts(200, 0)), MatchStatus::Live);
}

#[test]
fn status_after_end_is_finished() {
    assert_eq!(match_status_at(ts(200, 1), ts(100, 0), ts(200, 0)), MatchStatus::Finished);
    assert_eq!(match_status_at(ts(1_000, 0), ts(100, 0), ts(200, 0)), MatchStatus::Finished);
}

#[test]
fn status_with_end_before_start_is_never_live() {
    // start 200, end 100: before 200 scheduled, from 200 on finished
    assert_eq!(match_status_at(ts(150, 0), ts(200, 0), ts(100, 0)), MatchStatus::Scheduled);
    assert_eq!(match_status_at(ts(200, 0), ts(200, 0), ts(100, 0)), MatchStatus::Finished);
}

#[test]
fn status_never_regresses_over_a_timeline() {
    let start = ts(100, 0);
    let end = ts(200, 0);
    let rank = |s: MatchStatus| match s {
        MatchStatus::Scheduled => 0,
        MatchStatus::Live => 1,
        MatchStatus::Finished => 2,
    };
    let mut last = 0;
    for t in [0i64, 50, 99, 100, 101, 150, 199, 200, 201, 1_000] {
        let r = rank(match_status_at(ts(t, 0), start, end));
        assert!(r >= last);
        last = r;
    }
}

#[test]
fn current_status_of_a_long_running_match_is_live() {
    // 2000-01-01 .. 2200-01-01: the clock is read and lies inside
    assert_eq!(get_match_status(ts(946_684_800, 0), ts(7_258_118_400, 0)), MatchStatus::Live);
}

#[test]
fn current_status_of_a_far_future_match_is_scheduled() {
    assert_eq!(get_match_status(ts(7_258_118_400, 0), ts(7_258_122_000, 0)), MatchStatus::Scheduled);
}

#[test]
fn current_status_of_an_old_match_is_finished() {
    assert_eq!(get_match_status(ts(946_684_800, 0), ts(946_692_000, 0)), MatchStatus::Finished);
}

#[test]
fn sync_at_reports_only_a_change() {
    let m = record(MatchStatus::Scheduled, ts(100, 0), ts(200, 0));
    assert_eq!(sync_match_status_at(&m, ts(50, 0)), None);
    assert_eq!(sync_match_status_at(&m, ts(150, 0)), Some(MatchStatus::Live));
    assert_eq!(sync_match_status_at(&m, ts(250, 0)), Some(MatchStatus::Finished));
}

#[test]
fn sync_twice_at_the_same_instant_asks_nothing_more() {
    let mut m = record(MatchStatus::Scheduled, ts(100, 0), ts(200, 0));
    let now = ts(150, 0);
    if let Some(s) = sync_match_status_at(&m, now) {
        m.status = s;
    }
    assert_eq!(m.status, MatchStatus::Live);
    assert_eq!(sync_match_status_at(&m, now), None);
}

#[test]
fn sync_calls_back_with_the_new_status() {
    // an old match still marked live becomes finished
    let m = record(MatchStatus::Live, ts(946_684_800, 0), ts(946_692_000, 0));
    let mut seen = None;
    let change = sync_match_status(&m, |s| {
        seen = Some(s);
    });
    assert_eq!(change, Some(MatchStatus::Finished));
    assert_eq!(seen, Some(MatchStatus::Finished));
}

#[test]
fn sync_does_not_call_back_without_a_change() {
    let m = record(MatchStatus::Finished, ts(946_684_800, 0), ts(946_692_000, 0));
    let mut called = false;
    let change = sync_match_status(&m, |_| {
        called = true;
    });
    assert_eq!(change, None);
    assert!(!called);
}

#[test]
fn duplicate_copies_every_field() {
    let m = record(MatchStatus::Live, ts(1, 2), ts(3, 4));
    let d = m.duplicate();
    assert_eq!(d.id, 7);
    assert_eq!(d.sport, "football");
    assert_eq!(d.home_team, "Home");
    assert_eq!(d.away_team, "Away");
    assert_eq!((d.home_score, d.away_score), (1, 2));
    assert_eq!(d.status, MatchStatus::Live);
    assert_eq!(d.start_time, ts(1, 2));
    assert_eq!(d.end_time, ts(3, 4));
    assert_eq!(d.created_at, ts(100, 0));
}
