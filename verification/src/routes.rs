use vstd::prelude::*;

use crate::entity::{CommentaryRecord, MatchRecord};
use crate::response::{
    data_reply, error_reply, is_data_reply, is_error_reply, ApiResponse, STATUS_CREATED,
    STATUS_INTERNAL_SERVER_ERROR, STATUS_OK,
};
use crate::ws::connection::{ConnectionManager, Dispatch};
use crate::ws::message::OutgoingMessage;

verus! {

/// The reply to a match listing, given what the database returned
/// (its error as text): the matches with 200, or 500 on failure.
pub fn list_matches_reply(result: Result<Vec<MatchRecord>, String>) -> (r: ApiResponse<
    Vec<MatchRecord>,
>)
    ensures
        match result {
            Ok(matches) => is_data_reply(r, STATUS_OK, matches),
            Err(_) => is_error_reply(
                r,
                STATUS_INTERNAL_SERVER_ERROR,
                "Failed to list matches."@,
                None,
            ),
        },
{
    match result {
        Ok(matches) => data_reply(STATUS_OK, matches),
        Err(_) => error_reply(STATUS_INTERNAL_SERVER_ERROR, "Failed to list matches.", None),
    }
}

/// What creating a match produces: the reply, and the announcement for every
/// connected client when the match was stored.
#[derive(Debug)]
pub struct CreatedMatch {
    pub reply: ApiResponse<MatchRecord>,
    pub announcement: Option<OutgoingMessage>,
}

/// The outcome of a match creation, given what the insert returned: the
/// stored match with 201 and an announcement of it, or 500 with the error
/// as details and no announcement.
pub fn create_match_reply(result: Result<MatchRecord, String>, connection: &ConnectionManager) -> (out:
    CreatedMatch)
    ensures
        match result {
            Ok(m) => {
                &&& is_data_reply(out.reply, STATUS_CREATED, m)
                &&& out.announcement == Some(OutgoingMessage::MatchCreated { data: m })
            },
            Err(e) => {
                &&& is_error_reply(
                    out.reply,
                    STATUS_INTERNAL_SERVER_ERROR,
                    "Failed to create match."@,
                    Some(e@),
                )
                &&& out.announcement is None
            },
        },
{
    match result {
        Ok(inserted) => {
            let announcement = connection.broadcast_match_created(inserted.duplicate());
            CreatedMatch { reply: data_reply(STATUS_CREATED, inserted), announcement: Some(announcement) }
        },
        Err(e) => CreatedMatch {
            reply: error_reply(STATUS_INTERNAL_SERVER_ERROR, "Failed to create match.", Some(e)),
            announcement: None,
        },
    }
}

/// The reply to a commentary listing, given what the database returned:
/// the entries with 200, or 500 on failure.
pub fn list_commentaries_reply(result: Result<Vec<CommentaryRecord>, String>) -> (r: ApiResponse<
    Vec<CommentaryRecord>,
>)
    ensures
        match result {
            Ok(entries) => is_data_reply(r, STATUS_OK, entries),
            Err(_) => is_error_reply(
                r,
                STATUS_INTERNAL_SERVER_ERROR,
                "Failed to fetch commentary"@,
                None,
            ),
        },
{
    match result {
        Ok(entries) => data_reply(STATUS_OK, entries),
        Err(_) => error_reply(STATUS_INTERNAL_SERVER_ERROR, "Failed to fetch commentary", None),
    }
}

/// What adding a commentary entry produces: the reply, and the delivery of
/// the entry to the match's subscribers when it was stored and someone follows
/// the match.
#[derive(Debug)]
pub struct CreatedCommentary {
    pub reply: ApiResponse<CommentaryRecord>,
    pub delivery: Option<Dispatch>,
}

/// The outcome of adding a commentary entry to match `match_id`, given what
/// the insert returned: the stored entry with 200, sent to the subscribers of
/// `match_id`; or 500 with the error as details and nothing sent.
pub fn create_commentary_reply(
    match_id: i32,
    result: Result<CommentaryRecord, String>,
    connection: &ConnectionManager,
) -> (out: CreatedCommentary)
    ensures
        match result {
            Ok(c) => {
                &&& out.reply.status == STATUS_OK
                &&& out.reply.body matches Ok(b) && b.data == c
                &&& out.delivery is None <==> !connection@.contains_key(match_id)
                &&& out.delivery matches Some(d) ==> {
                    &&& d.recipients@ == connection@[match_id]
                    &&& d.message matches OutgoingMessage::Commentary { data } && data.id == c.id
                        && data.match_id == c.match_id && data.message == c.message
                        && data.minute == c.minute && data.sequence == c.sequence
                        && data.period == c.period && data.event_type == c.event_type
                        && data.actor == c.actor && data.team == c.team
                        && data.metadata == c.metadata && data.created_at == c.created_at
                        && (data.tags is Some <==> c.tags is Some) && (data.tags matches Some(t)
                        ==> t@ == c.tags->0@)
                }
            },
            Err(e) => {
                &&& is_error_reply(
                    out.reply,
                    STATUS_INTERNAL_SERVER_ERROR,
                    "Failed to create commentary"@,
                    Some(e@),
                )
                &&& out.delivery is None
            },
        },
{
    match result {
        Ok(inserted) => {
            let delivery = connection.broadcast_commentary(match_id, inserted.duplicate());
            CreatedCommentary { reply: data_reply(STATUS_OK, inserted), delivery }
        },
        Err(e) => CreatedCommentary {
            reply: error_reply(STATUS_INTERNAL_SERVER_ERROR, "Failed to create commentary", Some(e)),
            delivery: None,
        },
    }
}

} // verus!
