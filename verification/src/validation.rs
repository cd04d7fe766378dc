use vstd::prelude::*;

use crate::constants::{DEFAULT_COMMENTARY_LIMIT, DEFAULT_MATCH_LIMIT, MAX_LIMIT};
use crate::entity::{MatchStatus, NewCommentary, NewMatch};
use crate::match_status::{match_status_at, status_at};
use crate::time::{current_time, Timestamp};

verus! {

/// The row limit a listing uses: the requested one, or the default when none
/// was requested, capped at `MAX_LIMIT`.
pub open spec fn capped_limit(requested: Option<u64>, default: u64) -> u64 {
    let wanted = match requested {
        Some(l) => l,
        None => default,
    };
    if wanted <= MAX_LIMIT {
        wanted
    } else {
        MAX_LIMIT
    }
}

fn cap_limit(requested: Option<u64>, default: u64) -> (l: u64)
    ensures
        l == capped_limit(requested, default),
{
    let wanted = match requested {
        Some(l) => l,
        None => default,
    };
    if wanted <= MAX_LIMIT {
        wanted
    } else {
        MAX_LIMIT
    }
}

/// Query string of the match listing: `?limit=N`.
#[derive(Debug)]
pub struct ListMatchQuery {
    pub limit: Option<u64>,
}

/// The limit a listing asks for: the requested one, or `default` when none was requested.
pub open spec fn requested_or(requested: Option<u64>, default: u64) -> u64 {
    match requested {
        Some(l) => l,
        None => default,
    }
}

impl ListMatchQuery {
    /// How many matches the listing returns at most: the smaller of the
    /// requested limit (50 when none) and `MAX_LIMIT`.
    pub fn effective_limit(&self) -> (l: u64)
        ensures
            l == capped_limit(self.limit, DEFAULT_MATCH_LIMIT),
            l <= MAX_LIMIT,
            l <= requested_or(self.limit, DEFAULT_MATCH_LIMIT),
            l == MAX_LIMIT || l == requested_or(self.limit, DEFAULT_MATCH_LIMIT),
    {
        cap_limit(self.limit, DEFAULT_MATCH_LIMIT)
    }
}

/// Query string of the commentary listing: `?limit=N`.
#[derive(Debug)]
pub struct ListCommentaryQuery {
    pub limit: Option<u64>,
}

impl ListCommentaryQuery {
    /// How many commentary entries the listing returns at most: the smaller
    /// of the requested limit (10 when none) and `MAX_LIMIT`.
    pub fn effective_limit(&self) -> (l: u64)
        ensures
            l == capped_limit(self.limit, DEFAULT_COMMENTARY_LIMIT),
            l <= MAX_LIMIT,
            l <= requested_or(self.limit, DEFAULT_COMMENTARY_LIMIT),
            l == MAX_LIMIT || l == requested_or(self.limit, DEFAULT_COMMENTARY_LIMIT),
    {
        cap_limit(self.limit, DEFAULT_COMMENTARY_LIMIT)
    }
}

/// No listing ever returns more than `MAX_LIMIT` rows, and a requested limit
/// within that bound is honoured as it is.
pub proof fn lemma_limit_is_capped(requested: Option<u64>, default: u64)
    ensures
        capped_limit(requested, default) <= MAX_LIMIT,
        requested is Some && requested->0 <= MAX_LIMIT ==> capped_limit(requested, default) == requested->0,
        requested is None && default <= MAX_LIMIT ==> capped_limit(requested, default) == default,
{
}

/// The limit a listing uses is the minimum of what it asks for and
/// `MAX_LIMIT`: never above either, and equal to one of them. In particular
/// any request above `MAX_LIMIT` gets exactly `MAX_LIMIT`.
pub proof fn lemma_limit_is_minimum(requested: Option<u64>, default: u64)
    ensures
        capped_limit(requested, default) <= MAX_LIMIT,
        capped_limit(requested, default) <= requested_or(requested, default),
        capped_limit(requested, default) == MAX_LIMIT || capped_limit(requested, default)
            == requested_or(requested, default),
        requested_or(requested, default) >= MAX_LIMIT ==> capped_limit(requested, default) == MAX_LIMIT,
{
}

/// Body of a request that creates a match.
#[derive(Debug)]
pub struct CreateMatchPayload {
    pub sport: String,
    pub home_team: String,
    pub away_team: String,
    pub start_time: Timestamp,
    pub end_time: Timestamp,
    pub home_score: Option<i32>,
    pub away_score: Option<i32>,
}

impl CreateMatchPayload {
    /// The match to insert, given its status and its creation instant: the
    /// payload's fields, with scores that were left out set to 0.
    pub fn into_new_match(self, status: MatchStatus, created_at: Timestamp) -> (m: NewMatch)
        ensures
            m.sport == self.sport,
            m.home_team == self.home_team,
            m.away_team == self.away_team,
            m.home_score == (match self.home_score {
                Some(s) => s,
                None => 0i32,
            }),
            m.away_score == (match self.away_score {
                Some(s) => s,
                None => 0i32,
            }),
            m.status == status,
            m.start_time == self.start_time,
            m.end_time == self.end_time,
            m.created_at == created_at,
    {
        let home_score = match self.home_score {
            Some(s) => s,
            None => 0,
        };
        let away_score = match self.away_score {
            Some(s) => s,
            None => 0,
        };
        NewMatch {
            sport: self.sport,
            home_team: self.home_team,
            away_team: self.away_team,
            home_score,
            away_score,
            status,
            start_time: self.start_time,
            end_time: self.end_time,
            created_at,
        }
    }
}

/// The match to insert for a creation request, stamped with the current time
/// and given the status that instant calls for.
pub fn prepare_new_match(payload: CreateMatchPayload) -> (m: NewMatch)
    ensures
        m.sport == payload.sport,
        m.home_team == payload.home_team,
        m.away_team == payload.away_team,
        m.home_score == (match payload.home_score {
            Some(s) => s,
            None => 0i32,
        }),
        m.away_score == (match payload.away_score {
            Some(s) => s,
            None => 0i32,
        }),
        m.start_time == payload.start_time,
        m.end_time == payload.end_time,
        exists|now: Timestamp| now.nanos < 1_000_000_000 && m.status == status_at(now, payload.start_time, payload.end_time),
        m.created_at.nanos < 1_000_000_000,
        m.status == status_at(m.created_at, payload.start_time, payload.end_time),
        m.status == MatchStatus::Scheduled <==> m.created_at.precedes(payload.start_time),
        m.status == MatchStatus::Finished <==> (!m.created_at.precedes(payload.start_time)
            && payload.end_time.precedes(m.created_at)),
        m.status == MatchStatus::Live <==> (!m.created_at.precedes(payload.start_time)
            && !payload.end_time.precedes(m.created_at)),
{
    let created_at = current_time();
    let status = match_status_at(created_at, payload.start_time, payload.end_time);
    payload.into_new_match(status, created_at)
}

/// A new match takes the status of its creation instant: created before its
/// start it is scheduled, created after its end it is finished, created
/// within its window (ends included) it is live.
pub proof fn lemma_new_match_status_follows_creation_instant(
    payload_start: Timestamp,
    payload_end: Timestamp,
    created_at: Timestamp,
    status: MatchStatus,
)
    requires
        status == status_at(created_at, payload_start, payload_end),
    ensures
        created_at.precedes(payload_start) ==> status == MatchStatus::Scheduled,
        payload_end.precedes(created_at) && !created_at.precedes(payload_start) ==> status
            == MatchStatus::Finished,
        !created_at.precedes(payload_start) && !payload_end.precedes(created_at) ==> status
            == MatchStatus::Live,
{
}

/// A field of a score update that breaks its rule.
#[derive(Clone, Copy, Debug, PartialEq, Eq, Structural)]
pub enum ScoreField {
    HomeScore,
    AwayScore,
}

/// Body of a request that sets a match's score. Both scores must be at least 0.
#[derive(Debug)]
pub struct UpdateScorePayload {
    pub home_score: i32,
    pub away_score: i32,
}

/// The fields of a score update that are below 0, home before away.
pub open spec fn score_violations(home_score: i32, away_score: i32) -> Seq<ScoreField> {
    let home: Seq<ScoreField> = if home_score < 0 { seq![ScoreField::HomeScore] } else { seq![] };
    let away: Seq<ScoreField> = if away_score < 0 { seq![ScoreField::AwayScore] } else { seq![] };
    home + away
}

impl UpdateScorePayload {
    /// Checks the range rule (`min = 0`) on both scores. `Ok` exactly when both
    /// are at least 0; otherwise the offending fields, home before away.
    pub fn validate(&self) -> (r: Result<(), Vec<ScoreField>>)
        ensures
            r is Ok <==> (self.home_score >= 0 && self.away_score >= 0),
            r matches Err(fields) ==> fields@ == score_violations(self.home_score, self.away_score),
    {
        let mut fields: Vec<ScoreField> = Vec::new();
        if self.home_score < 0 {
            fields.push(ScoreField::HomeScore);
        }
        if self.away_score < 0 {
            fields.push(ScoreField::AwayScore);
        }
        if fields.len() == 0 {
            Ok(())
        } else {
            assert(fields@ =~= score_violations(self.home_score, self.away_score));
            Err(fields)
        }
    }
}

/// Body of a request that adds a commentary entry. `metadata` is JSON text.
#[derive(Debug)]
pub struct CreateCommentaryPayload {
    pub minute: Option<i32>,
    pub sequence: Option<i32>,
    pub period: Option<String>,
    pub event_type: Option<String>,
    pub actor: Option<String>,
    pub team: Option<String>,
    pub message: String,
    pub metadata: Option<String>,
    pub tags: Option<Vec<String>>,
}

impl CreateCommentaryPayload {
    /// The entry to insert for the match `match_id`: the payload's fields as
    /// they are, attached to that match.
    pub fn into_new_commentary(self, match_id: i32) -> (c: NewCommentary)
        ensures
            c.match_id == match_id,
            c.minute == self.minute,
            c.sequence == self.sequence,
            c.period == self.period,
            c.event_type == self.event_type,
            c.actor == self.actor,
            c.team == self.team,
            c.message == self.message,
            c.metadata == self.metadata,
            c.tags == self.tags,
    {
        NewCommentary {
            match_id,
            minute: self.minute,
            sequence: self.sequence,
            period: self.period,
            event_type: self.event_type,
            actor: self.actor,
            team: self.team,
            message: self.message,
            metadata: self.metadata,
            tags: self.tags,
        }
    }
}

} // verus!
