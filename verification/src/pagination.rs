//! Pagination clamping.
//!
//! `effective_limit = min(requested_limit ?? DEFAULT_LIMIT, MAX_LIMIT)`, with
//! non-positive requests treated as invalid input and clamped to the nearest
//! valid bound (1 for the limit, 0 for the offset) rather than rejected, to
//! keep the operation total.

use vstd::prelude::*;

verus! {

/// Page size used when no limit is requested.
pub const DEFAULT_LIMIT: i64 = 100;

/// Largest page size any request can obtain.
pub const MAX_LIMIT: i64 = 10000;

/// The page size actually used after applying the default and both clamps.
pub open spec fn effective_limit_spec(requested: Option<i64>) -> int {
    match requested {
        Option::None => DEFAULT_LIMIT as int,
        Option::Some(l) => if l < 1 {
            1
        } else if l > MAX_LIMIT {
            MAX_LIMIT as int
        } else {
            l as int
        },
    }
}

/// The row offset actually used: absent means 0, negative clamps to 0.
pub open spec fn effective_offset_spec(requested: Option<i64>) -> int {
    match requested {
        Option::None => 0,
        Option::Some(o) => if o < 0 {
            0
        } else {
            o as int
        },
    }
}

pub fn effective_limit(requested: &Option<i64>) -> (l: i64)
    ensures
        l == effective_limit_spec(*requested),
        1 <= l <= MAX_LIMIT,
{
    match requested {
        None => DEFAULT_LIMIT,
        Some(l) => {
            if *l < 1 {
                1
            } else if *l > MAX_LIMIT {
                MAX_LIMIT
            } else {
                *l
            }
        },
    }
}

pub fn effective_offset(requested: &Option<i64>) -> (o: i64)
    ensures
        o == effective_offset_spec(*requested),
        0 <= o,
{
    match requested {
        None => 0,
        Some(o) => {
            if *o < 0 {
                0
            } else {
                *o
            }
        },
    }
}

/// The effective limit never exceeds `MAX_LIMIT`, whatever is requested, and
/// is always at least 1; the effective offset is never negative.
pub proof fn lemma_effective_bounds(limit: Option<i64>, offset: Option<i64>)
    ensures
        1 <= effective_limit_spec(limit) <= MAX_LIMIT,
        0 <= effective_offset_spec(offset),
{
}

} // verus!
