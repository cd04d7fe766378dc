use vstd::prelude::*;

use crate::entity::{CommentaryRecord, MatchRecord};

verus! {

/// What a client may send: `{"type": "subscribe", "match_id": N}` or
/// `{"type": "unsubscribe", "match_id": N}`.
#[derive(Clone, Copy, Debug, PartialEq, Eq, Structural)]
pub enum IncomingMessage {
    Subscribe { match_id: i32 },
    Unsubscribe { match_id: i32 },
}

/// The score carried by a score update: `{"home_score": H, "away_score": A}`.
#[derive(Clone, Copy, Debug, PartialEq, Eq, Structural)]
pub struct ScoreData {
    pub home_score: i32,
    pub away_score: i32,
}

/// What the server sends to a client, tagged by `type` in snake case.
#[derive(Debug)]
#[allow(inconsistent_fields)]
pub enum OutgoingMessage {
    Welcome,
    Subscribed { match_id: i32 },
    Unsubscribed { match_id: i32 },
    MatchCreated { data: MatchRecord },
    ScoreUpdate { data: ScoreData },
    Commentary { data: CommentaryRecord },
    Error { message: String },
}

} // verus!
