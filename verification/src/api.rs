//! Small rules of the HTTP-facing query handlers: paging parameters are
//! defaulted and clamped here; the handlers around the library do the
//! transport and storage work.

use vstd::prelude::*;

verus! {

/// Application configuration shared by the handlers.
pub struct AppConfig {
    /// The domain new mailbox addresses are created under.
    pub domain: String,
}

/// Paging parameters of a mailbox listing request.
pub struct ListQuery {
    /// Page size wished for, if any.
    pub limit: Option<i64>,
    /// Offset wished for, if any.
    pub offset: Option<i64>,
}

/// Reported after deleting all of a mailbox's stored messages.
pub struct DeleteAllResponse {
    /// How many messages were deleted.
    pub deleted_count: u64,
}

/// The page size used: the request's, defaulted to 50 and clamped to
/// 1..=200.
pub open spec fn clamp_limit_spec(limit: Option<i64>) -> i64 {
    let v = match limit {
        Some(v) => v,
        None => 50,
    };
    if v < 1 {
        1
    } else if v > 200 {
        200
    } else {
        v
    }
}

/// The offset used: the request's, defaulted to 0 and floored at 0.
pub open spec fn clamp_offset_spec(offset: Option<i64>) -> i64 {
    let v = match offset {
        Some(v) => v,
        None => 0,
    };
    if v < 0 {
        0
    } else {
        v
    }
}

/// Default and clamp a listing request's paging parameters; the returned
/// pair is (limit, offset).
pub fn clamp_list_query(q: &ListQuery) -> (r: (i64, i64))
    ensures
        r.0 == clamp_limit_spec(q.limit),
        r.1 == clamp_offset_spec(q.offset),
        1 <= r.0 <= 200,
        r.1 >= 0,
{
    let limit = match q.limit {
        Some(v) => v,
        None => 50,
    };
    let limit = if limit < 1 {
        1
    } else if limit > 200 {
        200
    } else {
        limit
    };
    let offset = match q.offset {
        Some(v) => v,
        None => 0,
    };
    let offset = if offset < 0 {
        0
    } else {
        offset
    };
    (limit, offset)
}

} // verus!
