//! The contact repository: the one unit that sequences a pool acquisition
//! with a statement execution and produces domain results or domain errors.
//!
//! The repository here runs against an in-memory row store that is the
//! verified meaning of the composed statements: `list` returns exactly the
//! page [`select_spec`] describes, and `create` appends exactly the row its
//! contract states. A deployment that points the same composed statements at
//! a relational store gets the semantics proved here from any store that
//! conforms to them.
//!
//! Rows are kept in insertion order. Under a clock whose readings do not
//! decrease across `create` calls this is also `date_created` order, the
//! explicit sort key of the composed select.

use crate::contact::{Contact, ContactCreateRequest, ContactFilter};
use crate::error::RepoError;
use crate::matching::{contains_ci, contains_substring_ci};
use crate::pagination::{
    effective_limit, effective_limit_spec, effective_offset, effective_offset_spec, MAX_LIMIT,
};
use crate::pool::Pool;
use vstd::prelude::*;

verus! {

/// Whether a row satisfies every predicate of a filter: equality on
/// `external_id` where that filter is present, and case-insensitive
/// substring containment on `phone_number` where that one is. An absent
/// predicate admits every row.
pub open spec fn row_matches(c: Contact, filter: ContactFilter) -> bool {
    &&& (filter.external_id matches Some(x) ==> c.external_id == x)
    &&& (filter.phone_number matches Some(ph) ==> contains_ci(c.phone_number@, ph@))
}

/// The rows that satisfy `filter`, in stored order.
pub open spec fn filtered(rows: Seq<Contact>, filter: ContactFilter) -> Seq<Contact>
    decreases rows.len(),
{
    if rows.len() == 0 {
        Seq::<Contact>::empty()
    } else {
        filtered(rows.drop_last(), filter) + (if row_matches(rows.last(), filter) {
            seq![rows.last()]
        } else {
            Seq::<Contact>::empty()
        })
    }
}

/// One page of a sequence: at most `limit` rows starting `offset` rows in,
/// truncated where the sequence ends.
pub open spec fn page(s: Seq<Contact>, offset: int, limit: int) -> Seq<Contact>
    recommends
        0 <= offset,
        0 <= limit,
{
    let start = if offset <= s.len() {
        offset
    } else {
        s.len() as int
    };
    let end = if offset + limit <= s.len() {
        offset + limit
    } else {
        s.len() as int
    };
    s.subrange(start, end)
}

/// What `list` returns over a table holding `rows`: the matching rows, paged
/// by the effective offset and the effective limit.
pub open spec fn select_spec(rows: Seq<Contact>, filter: ContactFilter) -> Seq<Contact> {
    page(
        filtered(rows, filter),
        effective_offset_spec(filter.offset),
        effective_limit_spec(filter.limit),
    )
}

/// No two rows share an identifier.
pub open spec fn ids_unique(rows: Seq<Contact>) -> bool {
    forall|i: int, j: int| 0 <= i < j < rows.len() ==> rows[i].id != rows[j].id
}

/// Some row already carries `id`.
pub open spec fn has_id(rows: Seq<Contact>, id: u128) -> bool {
    exists|i: int| 0 <= i < rows.len() && rows[i].id == id
}

/// No update operation exists in this core, so every stored row still
/// carries its creation stamp in both timestamp fields. A future update
/// path would drop this clause and keep only `dates_consistent`.
pub open spec fn rows_never_updated(rows: Seq<Contact>) -> bool {
    forall|i: int| 0 <= i < rows.len() ==> rows[i].date_created == rows[i].date_updated
}

/// Relies on `uuid::Uuid::new_v4` (read back through `as_u128`) for the
/// server-generated random 128-bit identifier. Nothing is promised of the
/// value: a draw may collide with a stored identifier, and the repository
/// then reports the store's uniqueness rejection as `QueryFailure`.
#[verifier::external_body]
fn fresh_id() -> (id: u128) {
    uuid::Uuid::new_v4().as_u128()
}

fn id_in_use(rows: &Vec<Contact>, id: u128) -> (r: bool)
    ensures
        r == has_id(rows@, id),
{
    let n = rows.len();
    let mut i: usize = 0;
    while i < n
        invariant
            n == rows@.len(),
            i <= n,
            forall|k: int| 0 <= k < i ==> rows@[k].id != id,
        decreases n - i,
    {
        if rows[i].id == id {
            return true;
        }
        i = i + 1;
    }
    false
}

fn matches_filter(c: &Contact, filter: &ContactFilter) -> (r: bool)
    ensures
        r == row_matches(*c, *filter),
{
    if let Some(x) = &filter.external_id {
        if c.external_id != *x {
            return false;
        }
    }
    if let Some(ph) = &filter.phone_number {
        if !contains_substring_ci(c.phone_number.as_str(), ph.as_str()) {
            return false;
        }
    }
    true
}

fn select_rows(rows: &Vec<Contact>, filter: &ContactFilter) -> (v: Vec<Contact>)
    ensures
        v@ == select_spec(rows@, *filter),
{
    let mut all: Vec<Contact> = Vec::new();
    let n = rows.len();
    let mut i: usize = 0;
    while i < n
        invariant
            n == rows@.len(),
            i <= n,
            all@ == filtered(rows@.subrange(0, i as int), *filter),
        decreases n - i,
    {
        let c = &rows[i];
        if matches_filter(c, filter) {
            all.push(c.clone());
        }
        i = i + 1;
        proof {
            let s = rows@.subrange(0, i as int);
            assert(s.drop_last() =~= rows@.subrange(0, i - 1));
            assert(all@ =~= filtered(s, *filter));
        }
    }
    proof {
        assert(rows@.subrange(0, n as int) =~= rows@);
    }
    let limit = effective_limit(&filter.limit);
    let offset = effective_offset(&filter.offset);
    let len = all.len();
    let len_u: u64 = len as u64;
    let off_u: u64 = offset as u64;
    let lim_u: u64 = limit as u64;
    let start_u: u64 = if off_u <= len_u {
        off_u
    } else {
        len_u
    };
    let remaining: u64 = len_u - start_u;
    let take_u: u64 = if lim_u <= remaining {
        lim_u
    } else {
        remaining
    };
    let start: usize = start_u as usize;
    let end: usize = (start_u + take_u) as usize;
    let mut out: Vec<Contact> = Vec::new();
    let mut k: usize = start;
    while k < end
        invariant
            start <= k <= end,
            end <= all@.len(),
            out@ == all@.subrange(start as int, k as int),
        decreases end - k,
    {
        let c = &all[k];
        out.push(c.clone());
        k = k + 1;
        proof {
            assert(out@ =~= all@.subrange(start as int, k as int));
        }
    }
    proof {
        assert(out@ =~= page(all@, offset as int, limit as int));
    }
    out
}

/// The repository: a bounded pool plus the rows of the store it serves. Both
/// operations check exactly one session out for their own duration and hand
/// it back on every exit path.
#[derive(Debug)]
pub struct Repository {
    pub pool: Pool,
    pub rows: Vec<Contact>,
}

impl Repository {
    /// The repository invariant: the pool's bound holds, identifiers are
    /// unique across all rows, every row's timestamps are consistent, and —
    /// since this core has no update path — both timestamps of every row
    /// are still the one creation stamp.
    pub open spec fn wf(self) -> bool {
        &&& self.pool.wf()
        &&& ids_unique(self.rows@)
        &&& forall|i: int| 0 <= i < self.rows@.len() ==> self.rows@[i].dates_consistent()
        &&& rows_never_updated(self.rows@)
    }

    /// An empty repository over a pool of the configured size.
    pub fn new(pool_capacity: usize) -> (r: Repository)
        ensures
            r.wf(),
            r.pool.capacity == pool_capacity,
            r.pool.checked_out == 0,
            r.rows@.len() == 0,
    {
        Repository { pool: Pool::new(pool_capacity), rows: Vec::new() }
    }

    /// The step of `create` after the identifier draw: inserts the row under
    /// the given identifier, stamping both timestamps with the clock reading
    /// `now`. Succeeds exactly when a session is free and the identifier is
    /// fresh; an identifier already in use is the store's uniqueness
    /// rejection, `QueryFailure`.
    pub fn create_with_id(
        &mut self,
        request: &ContactCreateRequest,
        id: u128,
        now: i64,
    ) -> (result: Result<Contact, RepoError>)
        requires
            old(self).wf(),
        ensures
            final(self).wf(),
            final(self).pool == old(self).pool,
            result is Ok <==> (old(self).pool.checked_out < old(self).pool.capacity && !has_id(
                old(self).rows@,
                id,
            )),
            result matches Ok(c) ==> c.id == id,
            result matches Ok(c) ==> c.external_id == request.external_id,
            result matches Ok(c) ==> c.phone_number == request.phone_number,
            result matches Ok(c) ==> c.date_created == now && c.date_updated == now,
            result matches Ok(c) ==> final(self).rows@ == old(self).rows@.push(c),
            result is Err ==> final(self).rows@ == old(self).rows@,
            old(self).pool.checked_out == old(self).pool.capacity ==> result == Err::<
                Contact,
                RepoError,
            >(RepoError::PoolExhausted),
            (old(self).pool.checked_out < old(self).pool.capacity && has_id(old(self).rows@, id))
                ==> result == Err::<Contact, RepoError>(RepoError::QueryFailure),
    {
        let conn = match self.pool.acquire() {
            Ok(c) => c,
            Err(e) => {
                return Err(e);
            },
        };
        if id_in_use(&self.rows, id) {
            self.pool.release(conn);
            return Err(RepoError::QueryFailure);
        }
        let row = Contact {
            id,
            external_id: request.external_id,
            phone_number: request.phone_number.clone(),
            date_created: now,
            date_updated: now,
        };
        let created = row.clone();
        self.rows.push(row);
        self.pool.release(conn);
        Ok(created)
    }

    /// Creates a contact: draws the random server-side identifier, stamps
    /// `date_created == date_updated` from the clock reading `now`, and
    /// inserts the row. The boundary injects the clock reading as a plain
    /// value, applied to both fields at once, so the core stays
    /// deterministic. On success the returned contact's identifier is
    /// fresh among all previously stored identifiers; a full pool answers
    /// `PoolExhausted`, and a colliding draw answers the store's uniqueness
    /// rejection `QueryFailure`, in both cases leaving the rows unchanged.
    /// With a free session and an empty store no draw can collide, so there
    /// success is owed outright; with rows present, only `create_with_id`
    /// fixes the outcome for each possible draw.
    pub fn create(&mut self, request: &ContactCreateRequest, now: i64) -> (result: Result<
        Contact,
        RepoError,
    >)
        requires
            old(self).wf(),
        ensures
            final(self).wf(),
            final(self).pool == old(self).pool,
            (old(self).pool.checked_out < old(self).pool.capacity && old(self).rows@.len() == 0)
                ==> result is Ok,
            result matches Ok(c) ==> !has_id(old(self).rows@, c.id),
            result matches Ok(c) ==> c.external_id == request.external_id,
            result matches Ok(c) ==> c.phone_number == request.phone_number,
            result matches Ok(c) ==> c.date_created == now && c.date_updated == now,
            result matches Ok(c) ==> final(self).rows@ == old(self).rows@.push(c),
            result is Err ==> final(self).rows@ == old(self).rows@,
            old(self).pool.checked_out == old(self).pool.capacity ==> result == Err::<
                Contact,
                RepoError,
            >(RepoError::PoolExhausted),
            result matches Err(e) ==> (e == RepoError::PoolExhausted || e
                == RepoError::QueryFailure),
            (result is Err && old(self).pool.checked_out < old(self).pool.capacity) ==> result
                == Err::<Contact, RepoError>(RepoError::QueryFailure),
    {
        let id = fresh_id();
        self.create_with_id(request, id, now)
    }

    /// Lists one page of contacts: acquires a session, evaluates the bounded
    /// select, releases the session, and leaves the repository exactly as it
    /// found it. The page is `select_spec` of the stored rows, so it never
    /// holds more than the effective limit of rows and every returned row
    /// satisfies the filter.
    pub fn list(&mut self, filter: &ContactFilter) -> (result: Result<Vec<Contact>, RepoError>)
        requires
            old(self).wf(),
        ensures
            *final(self) == *old(self),
            final(self).wf(),
            result is Ok <==> old(self).pool.checked_out < old(self).pool.capacity,
            result matches Ok(v) ==> v@ == select_spec(old(self).rows@, *filter),
            result matches Err(e) ==> e == RepoError::PoolExhausted,
    {
        let conn = match self.pool.acquire() {
            Ok(c) => c,
            Err(e) => {
                return Err(e);
            },
        };
        let v = select_rows(&self.rows, filter);
        self.pool.release(conn);
        Ok(v)
    }
}

proof fn lemma_filtered_matches(rows: Seq<Contact>, filter: ContactFilter)
    ensures
        forall|i: int|
            0 <= i < filtered(rows, filter).len() ==> row_matches(
                #[trigger] filtered(rows, filter)[i],
                filter,
            ),
    decreases rows.len(),
{
    if rows.len() > 0 {
        lemma_filtered_matches(rows.drop_last(), filter);
        let pre = filtered(rows.drop_last(), filter);
        assert forall|i: int| 0 <= i < filtered(rows, filter).len() implies row_matches(
            filtered(rows, filter)[i],
            filter,
        ) by {
            if i < pre.len() {
                assert(filtered(rows, filter)[i] == pre[i]);
            } else {
                assert(row_matches(rows.last(), filter));
                assert(filtered(rows, filter)[i] == rows.last());
            }
        };
    }
}

/// A `list` page never holds more rows than the effective limit, and the
/// effective limit never exceeds `MAX_LIMIT`, whatever limit the filter
/// requests.
pub proof fn lemma_page_bounded(rows: Seq<Contact>, filter: ContactFilter)
    ensures
        select_spec(rows, filter).len() <= effective_limit_spec(filter.limit),
        effective_limit_spec(filter.limit) <= MAX_LIMIT,
{
}

/// Every row of a `list` page satisfies every predicate of the filter: an
/// `external_id` filter admits only rows with that exact value, and a
/// `phone_number` filter admits only rows whose phone number contains the
/// filter text as a substring under ASCII case folding.
pub proof fn lemma_page_rows_match(rows: Seq<Contact>, filter: ContactFilter)
    ensures
        forall|i: int|
            0 <= i < select_spec(rows, filter).len() ==> row_matches(
                #[trigger] select_spec(rows, filter)[i],
                filter,
            ),
{
    lemma_filtered_matches(rows, filter);
}

proof fn lemma_filtered_from_rows(rows: Seq<Contact>, filter: ContactFilter)
    ensures
        forall|i: int|
            0 <= i < filtered(rows, filter).len() ==> rows.contains(
                #[trigger] filtered(rows, filter)[i],
            ),
    decreases rows.len(),
{
    if rows.len() > 0 {
        lemma_filtered_from_rows(rows.drop_last(), filter);
        let pre = filtered(rows.drop_last(), filter);
        assert forall|i: int| 0 <= i < filtered(rows, filter).len() implies rows.contains(
            filtered(rows, filter)[i],
        ) by {
            if i < pre.len() {
                assert(filtered(rows, filter)[i] == pre[i]);
                let k = choose|k: int|
                    0 <= k < rows.drop_last().len() && rows.drop_last()[k] == pre[i];
                assert(rows[k] == pre[i]);
            } else {
                assert(filtered(rows, filter)[i] == rows[rows.len() - 1]);
            }
        };
    }
}

/// Every row of a `list` page is one of the stored rows: filtering and
/// paging select rows, they never invent or alter one. Every invariant of a
/// well-formed repository's rows — consistent timestamps, and, with no
/// update path in this core, `date_created == date_updated` — therefore
/// holds of every listed row.
pub proof fn lemma_page_from_rows(rows: Seq<Contact>, filter: ContactFilter, i: int)
    requires
        0 <= i < select_spec(rows, filter).len(),
    ensures
        rows.contains(select_spec(rows, filter)[i]),
{
    lemma_filtered_from_rows(rows, filter);
}

/// Conversely, filtering drops no matching row: every stored row that
/// satisfies the filter appears in the filtered sequence. Paging alone
/// decides which part of that sequence one `list` page shows.
pub proof fn lemma_filtered_complete(rows: Seq<Contact>, filter: ContactFilter, i: int)
    requires
        0 <= i < rows.len(),
        row_matches(rows[i], filter),
    ensures
        filtered(rows, filter).contains(rows[i]),
    decreases rows.len(),
{
    let pre = filtered(rows.drop_last(), filter);
    if i == rows.len() - 1 {
        assert(filtered(rows, filter)[pre.len() as int] == rows[i]);
    } else {
        lemma_filtered_complete(rows.drop_last(), filter, i);
        let k = choose|k: int|
            0 <= k < pre.len() && pre[k] == rows.drop_last()[i];
        assert(filtered(rows, filter)[k] == rows[i]);
    }
}

/// Reading is idempotent: two `list` calls with the same filter against an
/// unchanged row set return the same rows in the same order, since each
/// result is pinned to `select_spec` of that one row set and `list` leaves
/// the repository exactly as it found it.
pub proof fn lemma_list_idempotent(
    rows: Seq<Contact>,
    filter: ContactFilter,
    first: Seq<Contact>,
    second: Seq<Contact>,
)
    requires
        first == select_spec(rows, filter),
        second == select_spec(rows, filter),
    ensures
        first == second,
{
}

} // verus!
