use vstd::prelude::*;

use crate::entity::{MatchRecord, MatchStatus};
use crate::match_status::{status_at, sync_match_status_at};
use crate::response::{
    data_reply, error_reply, is_data_reply, is_error_reply, ApiResponse, STATUS_CONFLICT,
    STATUS_INTERNAL_SERVER_ERROR, STATUS_NOT_FOUND, STATUS_OK, STATUS_UNPROCESSABLE_ENTITY,
};
use crate::time::{current_time, Timestamp};
use crate::validation::UpdateScorePayload;

verus! {

/// Where a score update stands.
#[derive(Clone, Copy, Debug, PartialEq, Eq, Structural)]
pub enum ScoreUpdateStage {
    /// Waiting for the lookup of the match.
    AwaitingLookup,
    /// Waiting for the store to save the status the clock calls for.
    AwaitingStatusSave { fresh_status: MatchStatus },
    /// Waiting for the store to save the new scores.
    AwaitingScoreSave,
    /// The reply has been decided.
    Finished,
}

/// A request to set the score of a match, driven one store round-trip at a
/// time: the store's answers come in as [`ScoreUpdateEvent`]s and each step
/// says what to do next as a [`ScoreUpdateAction`]. Only a request whose
/// scores pass the payload's range rule becomes one, so the scores it carries
/// are never below 0.
#[derive(Debug)]
pub struct ScoreUpdate {
    pub(crate) match_id: i32,
    pub(crate) home_score: i32,
    pub(crate) away_score: i32,
    pub(crate) stage: ScoreUpdateStage,
}

/// What the store answered (errors as text).
#[derive(Debug)]
pub enum ScoreUpdateEvent {
    /// The lookup of the match by id.
    Looked(Result<Option<MatchRecord>, String>),
    /// The save of the refreshed status.
    StatusSaved(Result<MatchRecord, String>),
    /// The save of the new scores.
    ScoresSaved(Result<MatchRecord, String>),
}

/// What to do next.
#[derive(Debug)]
pub enum ScoreUpdateAction {
    /// Store `status` as the status of the match.
    SaveStatus { match_id: i32, status: MatchStatus },
    /// Store the two scores on the match.
    SaveScores { match_id: i32, home_score: i32, away_score: i32 },
    /// Send the new score to the match's subscribers, then reply.
    BroadcastAndRespond {
        match_id: i32,
        home_score: i32,
        away_score: i32,
        reply: ApiResponse<MatchRecord>,
    },
    /// Reply and stop.
    Respond { reply: ApiResponse<MatchRecord> },
}

/// `action` is a reply and nothing else: an error reply with this status and
/// message and no details.
pub open spec fn responds_with_error(action: ScoreUpdateAction, status: u16, message: Seq<char>) -> bool {
    action matches ScoreUpdateAction::Respond { reply } && is_error_reply(reply, status, message, None)
}

/// What follows once the status the clock calls for is known: a match that
/// is not live refuses the update with 409; a live match has its scores saved.
pub open spec fn after_status_known(
    before: ScoreUpdate,
    fresh: MatchStatus,
    after: ScoreUpdate,
    action: ScoreUpdateAction,
) -> bool {
    if fresh != MatchStatus::Live {
        &&& after@.stage == ScoreUpdateStage::Finished
        &&& responds_with_error(action, STATUS_CONFLICT, "Match is not live"@)
    } else {
        &&& after@.stage == ScoreUpdateStage::AwaitingScoreSave
        &&& action == (ScoreUpdateAction::SaveScores {
            match_id: before@.match_id,
            home_score: before@.home_score,
            away_score: before@.away_score,
        })
    }
}

/// The offending fields of a score update, as its error details list them.
pub open spec fn violation_details(home_score: i32, away_score: i32) -> Seq<char> {
    if home_score < 0 && away_score < 0 {
        "home_score, away_score"@
    } else if home_score < 0 {
        "home_score"@
    } else {
        "away_score"@
    }
}

fn describe_violations(home_score: i32, away_score: i32) -> (s: String)
    ensures
        s@ == violation_details(home_score, away_score),
{
    if home_score < 0 && away_score < 0 {
        "home_score, away_score".to_string()
    } else if home_score < 0 {
        "home_score".to_string()
    } else {
        "away_score".to_string()
    }
}

/// The contents of a [`ScoreUpdate`].
pub struct ScoreUpdateView {
    pub match_id: i32,
    pub home_score: i32,
    pub away_score: i32,
    pub stage: ScoreUpdateStage,
}

impl View for ScoreUpdate {
    type V = ScoreUpdateView;

    closed spec fn view(&self) -> ScoreUpdateView {
        ScoreUpdateView {
            match_id: self.match_id,
            home_score: self.home_score,
            away_score: self.away_score,
            stage: self.stage,
        }
    }
}

impl ScoreUpdate {
    /// The scores never go below 0.
    #[verifier::type_invariant]
    closed spec fn scores_in_range(self) -> bool {
        self.home_score >= 0 && self.away_score >= 0
    }

    /// The step that consumes `event` is the one the update waits for.
    pub open spec fn awaits(self, event: ScoreUpdateEvent) -> bool {
        match (self@.stage, event) {
            (ScoreUpdateStage::AwaitingLookup, ScoreUpdateEvent::Looked(_)) => true,
            (ScoreUpdateStage::AwaitingStatusSave { .. }, ScoreUpdateEvent::StatusSaved(_)) => true,
            (ScoreUpdateStage::AwaitingScoreSave, ScoreUpdateEvent::ScoresSaved(_)) => true,
            _ => false,
        }
    }

    /// One step of a score update at instant `now`, from `self` to `after`
    /// with `action`:
    /// - lookup failed: 500 "Failed to update score"; no match: 404 "Match not found";
    /// - match found: the status at `now` is computed; when it differs from the
    ///   stored one it is saved first, else the update goes on as below;
    /// - status known (saved or not, the save's outcome aside): not live gives
    ///   409 "Match is not live", live saves the request's scores;
    /// - scores saved: the new scores go to the subscribers and the stored match
    ///   is the reply, with 200; save failed: 500 "Failed to update score".
    pub open spec fn step(
        self,
        event: ScoreUpdateEvent,
        now: Timestamp,
        after: ScoreUpdate,
        action: ScoreUpdateAction,
    ) -> bool {
        &&& after@.match_id == self@.match_id
        &&& after@.home_score == self@.home_score
        &&& after@.away_score == self@.away_score
        &&& match event {
            ScoreUpdateEvent::Looked(Err(_)) => {
                &&& after@.stage == ScoreUpdateStage::Finished
                &&& responds_with_error(
                    action,
                    STATUS_INTERNAL_SERVER_ERROR,
                    "Failed to update score"@,
                )
            },
            ScoreUpdateEvent::Looked(Ok(None)) => {
                &&& after@.stage == ScoreUpdateStage::Finished
                &&& responds_with_error(action, STATUS_NOT_FOUND, "Match not found"@)
            },
            ScoreUpdateEvent::Looked(Ok(Some(m))) => {
                let fresh = status_at(now, m.start_time, m.end_time);
                if fresh != m.status {
                    &&& after@.stage == (ScoreUpdateStage::AwaitingStatusSave { fresh_status: fresh })
                    &&& action == (ScoreUpdateAction::SaveStatus {
                        match_id: self@.match_id,
                        status: fresh,
                    })
                } else {
                    after_status_known(self, fresh, after, action)
                }
            },
            ScoreUpdateEvent::StatusSaved(_) => match self@.stage {
                ScoreUpdateStage::AwaitingStatusSave { fresh_status } => after_status_known(
                    self,
                    fresh_status,
                    after,
                    action,
                ),
                _ => false,
            },
            ScoreUpdateEvent::ScoresSaved(Ok(m)) => {
                &&& after@.stage == ScoreUpdateStage::Finished
                &&& action matches ScoreUpdateAction::BroadcastAndRespond {
                    match_id,
                    home_score,
                    away_score,
                    reply,
                } && match_id == self@.match_id && home_score == m.home_score && away_score
                    == m.away_score && is_data_reply(reply, STATUS_OK, m)
            },
            ScoreUpdateEvent::ScoresSaved(Err(_)) => {
                &&& after@.stage == ScoreUpdateStage::Finished
                &&& responds_with_error(
                    action,
                    STATUS_INTERNAL_SERVER_ERROR,
                    "Failed to update score"@,
                )
            },
        }
    }

    /// A score update of match `match_id` with the payload's scores, waiting
    /// for the lookup of the match; or, when the payload breaks its range rule
    /// (a score below 0), the reply that refuses it: 422 "Invalid score" with
    /// the offending fields as details, before anything is looked up or written.
    pub fn new(match_id: i32, payload: UpdateScorePayload) -> (r: Result<ScoreUpdate, ApiResponse<
        MatchRecord,
    >>)
        ensures
            r is Ok <==> (payload.home_score >= 0 && payload.away_score >= 0),
            r matches Ok(u) ==> {
                &&& u@.match_id == match_id
                &&& u@.home_score == payload.home_score
                &&& u@.away_score == payload.away_score
                &&& u@.stage == ScoreUpdateStage::AwaitingLookup
            },
            r matches Err(reply) ==> is_error_reply(
                reply,
                STATUS_UNPROCESSABLE_ENTITY,
                "Invalid score"@,
                Some(violation_details(payload.home_score, payload.away_score)),
            ),
    {
        match payload.validate() {
            Ok(()) => Ok(
                ScoreUpdate {
                    match_id,
                    home_score: payload.home_score,
                    away_score: payload.away_score,
                    stage: ScoreUpdateStage::AwaitingLookup,
                },
            ),
            Err(_) => Err(
                error_reply(
                    STATUS_UNPROCESSABLE_ENTITY,
                    "Invalid score",
                    Some(describe_violations(payload.home_score, payload.away_score)),
                ),
            ),
        }
    }

    /// The match this update is for.
    pub fn match_id(&self) -> (r: i32)
        ensures
            r == self@.match_id,
    {
        self.match_id
    }

    /// The home score this update sets.
    pub fn home_score(&self) -> (r: i32)
        ensures
            r == self@.home_score,
            r >= 0,
    {
        proof {
            use_type_invariant(self);
        }
        self.home_score
    }

    /// The away score this update sets.
    pub fn away_score(&self) -> (r: i32)
        ensures
            r == self@.away_score,
            r >= 0,
    {
        proof {
            use_type_invariant(self);
        }
        self.away_score
    }

    /// Where the update stands.
    pub fn stage(&self) -> (r: ScoreUpdateStage)
        ensures
            r == self@.stage,
    {
        self.stage
    }

    /// Whether `event` is the answer the update waits for.
    pub fn expects(&self, event: &ScoreUpdateEvent) -> (b: bool)
        ensures
            b == self.awaits(*event),
    {
        match (self.stage, event) {
            (ScoreUpdateStage::AwaitingLookup, ScoreUpdateEvent::Looked(_)) => true,
            (ScoreUpdateStage::AwaitingStatusSave { .. }, ScoreUpdateEvent::StatusSaved(_)) => true,
            (ScoreUpdateStage::AwaitingScoreSave, ScoreUpdateEvent::ScoresSaved(_)) => true,
            _ => false,
        }
    }

    fn finish_with_status(&mut self, fresh: MatchStatus) -> (action: ScoreUpdateAction)
        ensures
            final(self)@.match_id == old(self)@.match_id,
            final(self)@.home_score == old(self)@.home_score,
            final(self)@.away_score == old(self)@.away_score,
            after_status_known(*old(self), fresh, *final(self), action),
    {
        proof {
            use_type_invariant(&*self);
        }
        if fresh != MatchStatus::Live {
            self.stage = ScoreUpdateStage::Finished;
            ScoreUpdateAction::Respond {
                reply: error_reply(STATUS_CONFLICT, "Match is not live", None),
            }
        } else {
            self.stage = ScoreUpdateStage::AwaitingScoreSave;
            ScoreUpdateAction::SaveScores {
                match_id: self.match_id,
                home_score: self.home_score,
                away_score: self.away_score,
            }
        }
    }

    /// Takes the store's answer `event` at instant `now` and says what to do next.
    pub fn advance_at(&mut self, event: ScoreUpdateEvent, now: Timestamp) -> (action: ScoreUpdateAction)
        requires
            old(self).awaits(event),
        ensures
            old(self).step(event, now, *final(self), action),
            action matches ScoreUpdateAction::SaveScores { home_score, away_score, .. } ==> home_score
                >= 0 && away_score >= 0,
    {
        proof {
            use_type_invariant(&*self);
        }
        match event {
            ScoreUpdateEvent::Looked(Err(_)) => {
                self.stage = ScoreUpdateStage::Finished;
                ScoreUpdateAction::Respond {
                    reply: error_reply(STATUS_INTERNAL_SERVER_ERROR, "Failed to update score", None),
                }
            },
            ScoreUpdateEvent::Looked(Ok(None)) => {
                self.stage = ScoreUpdateStage::Finished;
                ScoreUpdateAction::Respond {
                    reply: error_reply(STATUS_NOT_FOUND, "Match not found", None),
                }
            },
            ScoreUpdateEvent::Looked(Ok(Some(existing))) => {
                match sync_match_status_at(&existing, now) {
                    Some(fresh) => {
                        self.stage = ScoreUpdateStage::AwaitingStatusSave { fresh_status: fresh };
                        ScoreUpdateAction::SaveStatus { match_id: self.match_id, status: fresh }
                    },
                    None => self.finish_with_status(existing.status),
                }
            },
            ScoreUpdateEvent::StatusSaved(_) => {
                let fresh = match self.stage {
                    ScoreUpdateStage::AwaitingStatusSave { fresh_status } => fresh_status,
                    _ => MatchStatus::Finished,
                };
                self.finish_with_status(fresh)
            },
            ScoreUpdateEvent::ScoresSaved(Ok(updated)) => {
                self.stage = ScoreUpdateStage::Finished;
                let home_score = updated.home_score;
                let away_score = updated.away_score;
                ScoreUpdateAction::BroadcastAndRespond {
                    match_id: self.match_id,
                    home_score,
                    away_score,
                    reply: data_reply(STATUS_OK, updated),
                }
            },
            ScoreUpdateEvent::ScoresSaved(Err(_)) => {
                self.stage = ScoreUpdateStage::Finished;
                ScoreUpdateAction::Respond {
                    reply: error_reply(STATUS_INTERNAL_SERVER_ERROR, "Failed to update score", None),
                }
            },
        }
    }

    /// Takes the store's answer `event` and says what to do next, reading the
    /// clock for the status check.
    pub fn advance(&mut self, event: ScoreUpdateEvent) -> (action: ScoreUpdateAction)
        requires
            old(self).awaits(event),
        ensures
            exists|now: Timestamp| now.nanos < 1_000_000_000 && old(self).step(event, now, *final(self), action),
            action matches ScoreUpdateAction::SaveScores { home_score, away_score, .. } ==> home_score
                >= 0 && away_score >= 0,
    {
        let now = current_time();
        self.advance_at(event, now)
    }
}

/// A score update stores scores exactly when the match it looked up was live
/// at the instant of the lookup, whether or not a status save came first, and
/// then it stores the request's scores on the requested match. Otherwise it
/// answers 409 without touching the scores.
pub proof fn lemma_scores_saved_only_when_live(
    start: ScoreUpdate,
    found: MatchRecord,
    now: Timestamp,
    middle: ScoreUpdate,
    first: ScoreUpdateAction,
    saved: Result<MatchRecord, String>,
    later: Timestamp,
    end: ScoreUpdate,
    second: ScoreUpdateAction,
)
    requires
        start@.stage == ScoreUpdateStage::AwaitingLookup,
        start.step(ScoreUpdateEvent::Looked(Ok(Some(found))), now, middle, first),
        first is SaveStatus ==> middle.step(ScoreUpdateEvent::StatusSaved(saved), later, end, second),
    ensures
        (first is SaveScores || (first is SaveStatus && second is SaveScores)) <==> status_at(
            now,
            found.start_time,
            found.end_time,
        ) == MatchStatus::Live,
        first is SaveScores ==> first == (ScoreUpdateAction::SaveScores {
            match_id: start@.match_id,
            home_score: start@.home_score,
            away_score: start@.away_score,
        }),
        first is SaveStatus && second is SaveScores ==> second == (ScoreUpdateAction::SaveScores {
            match_id: start@.match_id,
            home_score: start@.home_score,
            away_score: start@.away_score,
        }),
        status_at(now, found.start_time, found.end_time) != MatchStatus::Live ==> (responds_with_error(
            first,
            STATUS_CONFLICT,
            "Match is not live"@,
        ) || (first is SaveStatus && responds_with_error(second, STATUS_CONFLICT, "Match is not live"@))),
{
}

/// The first score update of a match in progress whose stored status was
/// never synced: when the lookup instant lies within the match's window
/// (ends included) and the match is not stored as live, the update saves
/// `Live` as its status and then, whatever the status save answered, saves the
/// request's scores.
pub proof fn lemma_match_in_progress_is_promoted_then_scored(
    start: ScoreUpdate,
    found: MatchRecord,
    now: Timestamp,
    middle: ScoreUpdate,
    first: ScoreUpdateAction,
    saved: Result<MatchRecord, String>,
    later: Timestamp,
    end: ScoreUpdate,
    second: ScoreUpdateAction,
)
    requires
        start@.stage == ScoreUpdateStage::AwaitingLookup,
        found.status != MatchStatus::Live,
        !now.precedes(found.start_time),
        !found.end_time.precedes(now),
        start.step(ScoreUpdateEvent::Looked(Ok(Some(found))), now, middle, first),
        middle.step(ScoreUpdateEvent::StatusSaved(saved), later, end, second),
    ensures
        first == (ScoreUpdateAction::SaveStatus { match_id: start@.match_id, status: MatchStatus::Live }),
        middle@.stage == (ScoreUpdateStage::AwaitingStatusSave { fresh_status: MatchStatus::Live }),
        second == (ScoreUpdateAction::SaveScores {
            match_id: start@.match_id,
            home_score: start@.home_score,
            away_score: start@.away_score,
        }),
{
}

/// A match found live and up to date at the lookup instant has its scores
/// saved straight away; one found before its start or past its end is
/// refused with 409 once its status is up to date.
pub proof fn lemma_update_follows_lookup_instant(
    start: ScoreUpdate,
    found: MatchRecord,
    now: Timestamp,
    middle: ScoreUpdate,
    first: ScoreUpdateAction,
)
    requires
        start@.stage == ScoreUpdateStage::AwaitingLookup,
        start.step(ScoreUpdateEvent::Looked(Ok(Some(found))), now, middle, first),
    ensures
        found.status == MatchStatus::Live && !now.precedes(found.start_time)
            && !found.end_time.precedes(now) ==> first == (ScoreUpdateAction::SaveScores {
            match_id: start@.match_id,
            home_score: start@.home_score,
            away_score: start@.away_score,
        }),
        found.status == MatchStatus::Scheduled && now.precedes(found.start_time) ==> responds_with_error(
            first,
            STATUS_CONFLICT,
            "Match is not live"@,
        ),
        found.status == MatchStatus::Finished && !now.precedes(found.start_time)
            && found.end_time.precedes(now) ==> responds_with_error(
            first,
            STATUS_CONFLICT,
            "Match is not live"@,
        ),
        (now.precedes(found.start_time) || found.end_time.precedes(now)) ==> !(first is SaveScores),
{
}

} // verus!
