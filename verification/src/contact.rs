//! The persisted entity and the two transient inputs of the core.
//!
//! Timestamps are carried as microseconds since the Unix epoch in a signed
//! 64-bit value; the boundary layer renders them in a timezone-aware textual
//! format. The identifier is the 128-bit value of a version-4 UUID, rendered
//! as a string by the boundary layer.

use vstd::prelude::*;

verus! {

/// A contact row as the store holds it.
///
/// Invariants of the data model (kept by the repository): `id` is unique
/// across all rows, and `date_created <= date_updated` always. No update
/// operation exists in this core, so the two timestamps are equal on every
/// row it creates; the second field stays to support future mutation.
#[derive(Debug)]
pub struct Contact {
    pub id: u128,
    pub external_id: i32,
    pub phone_number: String,
    pub date_created: i64,
    pub date_updated: i64,
}

impl Contact {
    /// `date_created <= date_updated`, the per-row half of the data-model
    /// invariant.
    pub open spec fn dates_consistent(self) -> bool {
        self.date_created <= self.date_updated
    }
}

impl Clone for Contact {
    fn clone(&self) -> (res: Self)
        ensures
            res == *self,
    {
        Contact {
            id: self.id,
            external_id: self.external_id,
            phone_number: self.phone_number.clone(),
            date_created: self.date_created,
            date_updated: self.date_updated,
        }
    }
}

/// The payload of a creation request. Owned solely by the call that
/// constructs it; the caller-supplied `external_id` is opaque to the system
/// and not validated for uniqueness, and `phone_number` is stored verbatim.
#[derive(Debug)]
pub struct ContactCreateRequest {
    pub external_id: i32,
    pub phone_number: String,
}

impl Clone for ContactCreateRequest {
    fn clone(&self) -> (res: Self)
        ensures
            res == *self,
    {
        ContactCreateRequest {
            external_id: self.external_id,
            phone_number: self.phone_number.clone(),
        }
    }
}

/// The optional filter parameters of one `list` call, purely descriptive of
/// that query. An absent field means "no filter" for `external_id` and
/// `phone_number`, and "use the default" for `limit` and `offset`.
#[derive(Debug)]
pub struct ContactFilter {
    pub external_id: Option<i32>,
    pub phone_number: Option<String>,
    pub limit: Option<i64>,
    pub offset: Option<i64>,
}

impl Clone for ContactFilter {
    fn clone(&self) -> (res: Self)
        ensures
            res == *self,
    {
        ContactFilter {
            external_id: self.external_id,
            phone_number: match &self.phone_number {
                Some(p) => Some(p.clone()),
                None => None,
            },
            limit: self.limit,
            offset: self.offset,
        }
    }
}

impl Default for ContactFilter {
    /// The filter of a `list` call with every query parameter absent.
    fn default() -> (res: Self)
        ensures
            res.external_id is None,
            res.phone_number is None,
            res.limit is None,
            res.offset is None,
    {
        ContactFilter { external_id: None, phone_number: None, limit: None, offset: None }
    }
}

} // verus!
