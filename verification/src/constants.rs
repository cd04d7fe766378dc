use vstd::prelude::*;

verus! {

/// The most rows a listing request may return.
pub const MAX_LIMIT: u64 = 100;

/// Rows a match listing returns when the request names no limit.
pub const DEFAULT_MATCH_LIMIT: u64 = 50;

/// Rows a commentary listing returns when the request names no limit.
pub const DEFAULT_COMMENTARY_LIMIT: u64 = 10;

} // verus!
