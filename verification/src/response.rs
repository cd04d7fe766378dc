use vstd::prelude::*;

verus! {

/// HTTP 200 OK.
pub const STATUS_OK: u16 = 200;

/// HTTP 201 Created.
pub const STATUS_CREATED: u16 = 201;

/// HTTP 404 Not Found.
pub const STATUS_NOT_FOUND: u16 = 404;

/// HTTP 409 Conflict.
pub const STATUS_CONFLICT: u16 = 409;

/// HTTP 422 Unprocessable Entity.
pub const STATUS_UNPROCESSABLE_ENTITY: u16 = 422;

/// HTTP 500 Internal Server Error.
pub const STATUS_INTERNAL_SERVER_ERROR: u16 = 500;

/// The body of a successful reply: `{"data": ...}`.
#[derive(Debug)]
pub struct GenericResponse<T> {
    pub data: T,
}

/// The body of a failed reply: `{"error": ..., "details": ...}`, where
/// `details` is left out when absent.
#[derive(Debug)]
pub struct ErrorResponse {
    pub error: String,
    pub details: Option<String>,
}

/// An HTTP reply: a status code and either a data body or an error body.
#[derive(Debug)]
pub struct ApiResponse<T> {
    pub status: u16,
    pub body: Result<GenericResponse<T>, ErrorResponse>,
}

/// `r` is a success reply with the given status that carries `data`.
pub open spec fn is_data_reply<T>(r: ApiResponse<T>, status: u16, data: T) -> bool {
    &&& r.status == status
    &&& r.body matches Ok(b) && b.data == data
}

/// `r` is an error reply with the given status, message and details.
pub open spec fn is_error_reply<T>(
    r: ApiResponse<T>,
    status: u16,
    message: Seq<char>,
    details: Option<Seq<char>>,
) -> bool {
    &&& r.status == status
    &&& r.body matches Err(e) && e.error@ == message && match (e.details, details) {
        (Some(d), Some(expected)) => d@ == expected,
        (None, None) => true,
        _ => false,
    }
}

/// A success reply carrying `data`.
pub fn data_reply<T>(status: u16, data: T) -> (r: ApiResponse<T>)
    ensures
        is_data_reply(r, status, data),
{
    ApiResponse { status, body: Ok(GenericResponse { data }) }
}

/// An error reply with a fixed message and the given details.
pub fn error_reply<T>(status: u16, message: &str, details: Option<String>) -> (r: ApiResponse<T>)
    ensures
        is_error_reply(
            r,
            status,
            message@,
            match details {
                Some(d) => Some(d@),
                None => None,
            },
        ),
{
    let error = message.to_string();
    ApiResponse { status, body: Err(ErrorResponse { error, details }) }
}

} // verus!
