use vstd::prelude::*;

use crate::entity::{MatchRecord, MatchStatus};
use crate::time::{current_time, Timestamp};

verus! {

/// The status a match with the given start and end has at instant `now`:
/// scheduled strictly before the start, finished strictly after the end,
/// live otherwise (both ends included).
pub open spec fn status_at(now: Timestamp, start: Timestamp, end: Timestamp) -> MatchStatus {
    if now.precedes(start) {
        MatchStatus::Scheduled
    } else if end.precedes(now) {
        MatchStatus::Finished
    } else {
        MatchStatus::Live
    }
}

/// `s` is the status the order of instants calls for at `now`: scheduled
/// exactly when `now` is before the start, finished exactly when it is past
/// the end and not before the start, live exactly otherwise.
pub open spec fn fits_instant(s: MatchStatus, now: Timestamp, start: Timestamp, end: Timestamp) -> bool {
    &&& (s == MatchStatus::Scheduled <==> now.precedes(start))
    &&& (s == MatchStatus::Finished <==> (!now.precedes(start) && end.precedes(now)))
    &&& (s == MatchStatus::Live <==> (!now.precedes(start) && !end.precedes(now)))
}

/// Position of a status in the life cycle.
pub open spec fn status_rank(s: MatchStatus) -> int {
    match s {
        MatchStatus::Scheduled => 0,
        MatchStatus::Live => 1,
        MatchStatus::Finished => 2,
    }
}

/// The status change that syncing `existing` at instant `now` calls for:
/// the status at `now`, when it differs from the stored one.
pub open spec fn status_change(existing: MatchRecord, now: Timestamp) -> Option<MatchStatus> {
    let next = status_at(now, existing.start_time, existing.end_time);
    if next != existing.status {
        Some(next)
    } else {
        None
    }
}

/// The status of a match with the given start and end at instant `now`.
pub fn match_status_at(now: Timestamp, start: Timestamp, end: Timestamp) -> (s: MatchStatus)
    ensures
        s == status_at(now, start, end),
        s == MatchStatus::Scheduled <==> now.precedes(start),
        s == MatchStatus::Finished <==> (!now.precedes(start) && end.precedes(now)),
        s == MatchStatus::Live <==> (!now.precedes(start) && !end.precedes(now)),
{
    if now.is_before(&start) {
        MatchStatus::Scheduled
    } else if end.is_before(&now) {
        MatchStatus::Finished
    } else {
        MatchStatus::Live
    }
}

/// The status of a match with the given start and end, now.
pub fn get_match_status(start: Timestamp, end: Timestamp) -> (s: MatchStatus)
    ensures
        exists|now: Timestamp| now.nanos < 1_000_000_000 && s == status_at(now, start, end),
        s == MatchStatus::Live ==> !end.precedes(start),
{
    let now = current_time();
    match_status_at(now, start, end)
}

/// The status change that a match needs at instant `now`, if any.
pub fn sync_match_status_at(existing: &MatchRecord, now: Timestamp) -> (change: Option<MatchStatus>)
    ensures
        change == status_change(*existing, now),
        change is None ==> fits_instant(existing.status, now, existing.start_time, existing.end_time),
        change matches Some(s) ==> s != existing.status && fits_instant(
            s,
            now,
            existing.start_time,
            existing.end_time,
        ),
{
    let next = match_status_at(now, existing.start_time, existing.end_time);
    if next != existing.status {
        Some(next)
    } else {
        None
    }
}

/// Brings the status of `existing` up to date with the clock: when the status
/// that the current time calls for differs from the stored one, `update_fn` is
/// called with it. Returns the status handed to `update_fn`, or `None` when it
/// was not called.
pub fn sync_match_status<F: FnOnce(MatchStatus)>(existing: &MatchRecord, update_fn: F) -> (change:
    Option<MatchStatus>)
    requires
        forall|s: MatchStatus| call_requires(update_fn, (s,)),
    ensures
        exists|now: Timestamp| now.nanos < 1_000_000_000 && change == status_change(*existing, now),
        change matches Some(s) ==> s != existing.status && call_ensures(update_fn, (s,), ()),
{
    let now = current_time();
    let change = sync_match_status_at(existing, now);
    match change {
        Some(next) => {
            update_fn(next);
        },
        None => {},
    }
    change
}

/// As time moves forward a match's status never moves back: at a later
/// instant the status is at least as far along as at an earlier one.
pub proof fn lemma_status_never_regresses(t1: Timestamp, t2: Timestamp, start: Timestamp, end: Timestamp)
    requires
        !t2.precedes(t1),
    ensures
        status_rank(status_at(t1, start, end)) <= status_rank(status_at(t2, start, end)),
{
}

/// The status at an instant is fixed by where the instant falls: before the
/// start it is scheduled, past the end (and not before the start) finished,
/// and otherwise live; exactly one of these holds.
pub proof fn lemma_status_at_by_instant_order(now: Timestamp, start: Timestamp, end: Timestamp)
    ensures
        status_at(now, start, end) == MatchStatus::Scheduled <==> now.precedes(start),
        status_at(now, start, end) == MatchStatus::Finished <==> (!now.precedes(start) && end.precedes(
            now,
        )),
        status_at(now, start, end) == MatchStatus::Live <==> (!now.precedes(start) && !end.precedes(
            now,
        )),
        forall|s: MatchStatus| #[trigger] fits_instant(s, now, start, end) ==> s == status_at(now, start, end),
{
}

/// Syncing a match that is stored as scheduled (or finished) at an instant
/// inside its window promotes it to live; syncing at an instant past its end
/// a match not yet stored as finished finishes it.
pub proof fn lemma_sync_promotes_match_in_progress(existing: MatchRecord, now: Timestamp)
    ensures
        existing.status != MatchStatus::Live && !now.precedes(existing.start_time)
            && !existing.end_time.precedes(now) ==> status_change(existing, now) == Some(
            MatchStatus::Live,
        ),
        existing.status != MatchStatus::Finished && !now.precedes(existing.start_time)
            && existing.end_time.precedes(now) ==> status_change(existing, now) == Some(
            MatchStatus::Finished,
        ),
        existing.status != MatchStatus::Scheduled && now.precedes(existing.start_time)
            ==> status_change(existing, now) == Some(MatchStatus::Scheduled),
{
}

/// A match is live exactly between its start and its end, both included.
pub proof fn lemma_live_within_window(now: Timestamp, start: Timestamp, end: Timestamp)
    ensures
        status_at(now, start, end) == MatchStatus::Live <==> (!now.precedes(start) && !end.precedes(now)),
{
}

/// Syncing a match and then syncing the updated record at the same instant
/// asks for no further change.
pub proof fn lemma_sync_is_idempotent(existing: MatchRecord, now: Timestamp)
    ensures
        ({
            let synced = match status_change(existing, now) {
                Some(s) => MatchRecord { status: s, ..existing },
                None => existing,
            };
            status_change(synced, now) is None
        }),
{
}

} // verus!
