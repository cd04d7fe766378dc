use vstd::prelude::*;

use crate::time::Timestamp;

verus! {

/// Where a match stands in its life cycle. Ranked `Scheduled < Live < Finished`.
#[derive(Clone, Copy, Debug, PartialEq, Eq, Structural)]
pub enum MatchStatus {
    Scheduled,
    Live,
    Finished,
}

/// A stored match, as the database hands it back.
#[derive(Debug)]
pub struct MatchRecord {
    pub id: i32,
    pub sport: String,
    pub home_team: String,
    pub away_team: String,
    pub home_score: i32,
    pub away_score: i32,
    pub status: MatchStatus,
    pub start_time: Timestamp,
    pub end_time: Timestamp,
    pub created_at: Timestamp,
}

/// The columns of a match about to be inserted (the id and nothing else is
/// left for the database to assign).
#[derive(Debug)]
pub struct NewMatch {
    pub sport: String,
    pub home_team: String,
    pub away_team: String,
    pub home_score: i32,
    pub away_score: i32,
    pub status: MatchStatus,
    pub start_time: Timestamp,
    pub end_time: Timestamp,
    pub created_at: Timestamp,
}

/// A stored commentary entry. `metadata` holds JSON text.
#[derive(Debug)]
pub struct CommentaryRecord {
    pub id: i32,
    pub match_id: i32,
    pub minute: Option<i32>,
    pub sequence: Option<i32>,
    pub period: Option<String>,
    pub event_type: Option<String>,
    pub actor: Option<String>,
    pub team: Option<String>,
    pub message: String,
    pub metadata: Option<String>,
    pub tags: Option<Vec<String>>,
    pub created_at: Timestamp,
}

/// The columns of a commentary entry about to be inserted; the id and the
/// creation time are left for the database.
#[derive(Debug)]
pub struct NewCommentary {
    pub match_id: i32,
    pub minute: Option<i32>,
    pub sequence: Option<i32>,
    pub period: Option<String>,
    pub event_type: Option<String>,
    pub actor: Option<String>,
    pub team: Option<String>,
    pub message: String,
    pub metadata: Option<String>,
    pub tags: Option<Vec<String>>,
}

fn copy_text(s: &String) -> (r: String)
    ensures
        r == *s,
{
    s.clone()
}

fn copy_optional_text(s: &Option<String>) -> (r: Option<String>)
    ensures
        r == *s,
{
    match s {
        Some(t) => Some(t.clone()),
        None => None,
    }
}

fn copy_tags(tags: &Option<Vec<String>>) -> (r: Option<Vec<String>>)
    ensures
        r is Some <==> tags is Some,
        r matches Some(v) ==> v@ == tags->0@,
{
    match tags {
        Some(v) => {
            let mut out: Vec<String> = Vec::new();
            let mut i: usize = 0;
            while i < v.len()
                invariant
                    i <= v.len(),
                    out@ == v@.take(i as int),
                decreases v.len() - i,
            {
                out.push(v[i].clone());
                assert(v@.take(i as int).push(v@[i as int]) == v@.take((i + 1) as int));
                i = i + 1;
            }
            assert(v@.take(v.len() as int) == v@);
            Some(out)
        },
        None => None,
    }
}

impl MatchRecord {
    /// A field-by-field copy of the record.
    pub fn duplicate(&self) -> (r: MatchRecord)
        ensures
            r == *self,
    {
        MatchRecord {
            id: self.id,
            sport: copy_text(&self.sport),
            home_team: copy_text(&self.home_team),
            away_team: copy_text(&self.away_team),
            home_score: self.home_score,
            away_score: self.away_score,
            status: self.status,
            start_time: self.start_time,
            end_time: self.end_time,
            created_at: self.created_at,
        }
    }
}

impl CommentaryRecord {
    /// A field-by-field copy of the record; the tags keep their contents.
    pub fn duplicate(&self) -> (r: CommentaryRecord)
        ensures
            r.id == self.id,
            r.match_id == self.match_id,
            r.minute == self.minute,
            r.sequence == self.sequence,
            r.period == self.period,
            r.event_type == self.event_type,
            r.actor == self.actor,
            r.team == self.team,
            r.message == self.message,
            r.metadata == self.metadata,
            r.tags is Some <==> self.tags is Some,
            r.tags matches Some(v) ==> v@ == self.tags->0@,
            r.created_at == self.created_at,
    {
        CommentaryRecord {
            id: self.id,
            match_id: self.match_id,
            minute: self.minute,
            sequence: self.sequence,
            period: copy_optional_text(&self.period),
            event_type: copy_optional_text(&self.event_type),
            actor: copy_optional_text(&self.actor),
            team: copy_optional_text(&self.team),
            message: copy_text(&self.message),
            metadata: copy_optional_text(&self.metadata),
            tags: copy_tags(&self.tags),
            created_at: self.created_at,
        }
    }
}

} // verus!
