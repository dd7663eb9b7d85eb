//! Deterministic composition of parameterized statements.
//!
//! A statement is composed from a base plus zero or more optional predicates
//! appended in a fixed order (equality on `external_id` first, then the
//! substring predicate on `phone_number`), with pagination appended last.
//! Caller-supplied values never enter the statement text: they are carried
//! beside it as bound values, one per `$n` placeholder, in placeholder order.
//!
//! A conforming store executing the select statement over rows `R` returns
//! exactly the page that [`crate::repo::select_spec`] describes, up to the
//! case-folding policy: the model folds ASCII letters (see
//! [`crate::matching`]) where a store's `ILIKE` folds per its locale, so the
//! two agree on ASCII filter text. The `LIKE` metacharacters of the filter
//! text are escaped in the bound pattern, so the store matches them
//! literally, as the model does. The in-memory store of [`crate::repo`] is
//! the verified implementation of that meaning.

use crate::contact::{ContactCreateRequest, ContactFilter};
use crate::pagination::{
    effective_limit, effective_limit_spec, effective_offset, effective_offset_spec,
};
use vstd::prelude::*;

verus! {

/// One value bound to a placeholder. `Id` carries the 128-bit identifier
/// (bound as a UUID by the driver), `Int` a 32-bit `external_id`, `Text` a
/// textual value such as a match pattern, `BigInt` a pagination value.
#[derive(Debug)]
pub enum BindValue {
    Id(u128),
    Int(i32),
    Text(String),
    BigInt(i64),
}

impl Clone for BindValue {
    fn clone(&self) -> (res: Self)
        ensures
            res == *self,
    {
        match self {
            BindValue::Id(v) => BindValue::Id(*v),
            BindValue::Int(v) => BindValue::Int(*v),
            BindValue::Text(s) => BindValue::Text(s.clone()),
            BindValue::BigInt(v) => BindValue::BigInt(*v),
        }
    }
}

/// A parameterized statement: text holding only fixed fragments and `$n`
/// placeholders, and the values bound to those placeholders, in order.
#[derive(Debug)]
pub struct SqlQuery {
    pub text: String,
    pub params: Vec<BindValue>,
}

/// The one insert statement: binds exactly the three server/caller values
/// and returns the fully populated row, timestamps stamped by the store's
/// own clock in a single statement, with no follow-up read.
pub open spec fn insert_text() -> Seq<char> {
    "INSERT INTO contacts (id, external_id, phone_number, date_created, date_updated) VALUES ($1, $2, $3, now(), now()) RETURNING id, external_id, phone_number, date_created, date_updated"@
}

/// The select statement for a given shape of filter: the base with its
/// unconditional `TRUE` predicate, the optional predicates in their fixed
/// order, an explicit sort key so that pagination is deterministic, and the
/// pagination placeholders last.
pub open spec fn select_text(has_external_id: bool, has_phone_number: bool) -> Seq<char> {
    select_base() + external_id_fragment(has_external_id) + phone_number_fragment(
        has_external_id,
        has_phone_number,
    ) + pagination_fragment(has_external_id, has_phone_number)
}

pub open spec fn select_base() -> Seq<char> {
    "SELECT id, external_id, phone_number, date_created, date_updated FROM contacts WHERE TRUE"@
}

pub open spec fn external_id_fragment(has_external_id: bool) -> Seq<char> {
    if has_external_id {
        " AND external_id = $1"@
    } else {
        Seq::<char>::empty()
    }
}

pub open spec fn phone_number_fragment(has_external_id: bool, has_phone_number: bool) -> Seq<
    char,
> {
    if has_phone_number {
        if has_external_id {
            " AND phone_number ILIKE $2"@
        } else {
            " AND phone_number ILIKE $1"@
        }
    } else {
        Seq::<char>::empty()
    }
}

pub open spec fn pagination_fragment(has_external_id: bool, has_phone_number: bool) -> Seq<char> {
    if has_external_id && has_phone_number {
        " ORDER BY date_created LIMIT $3 OFFSET $4"@
    } else if has_external_id || has_phone_number {
        " ORDER BY date_created LIMIT $2 OFFSET $3"@
    } else {
        " ORDER BY date_created LIMIT $1 OFFSET $2"@
    }
}

/// How one character of the filter text enters the pattern: the three
/// characters that `LIKE`/`ILIKE` treat as syntax (`%`, `_` and the escape
/// character `\` itself) are prefixed with the store's default escape `\`,
/// so the store matches them literally, as the substring semantics require;
/// every other character enters unchanged.
pub open spec fn escape_like_char(c: char) -> Seq<char> {
    if c == '%' || c == '_' || c == '\\' {
        seq!['\\', c]
    } else {
        seq![c]
    }
}

/// The filter text with every `LIKE` metacharacter escaped.
pub open spec fn escape_like(s: Seq<char>) -> Seq<char>
    decreases s.len(),
{
    if s.len() == 0 {
        Seq::<char>::empty()
    } else {
        escape_like(s.drop_last()) + escape_like_char(s.last())
    }
}

/// The pattern bound for a substring match on `phone_number`: the escaped
/// filter text between two wildcards, passed whole as one bound value.
pub open spec fn like_pattern(phone: Seq<char>) -> Seq<char> {
    "%"@ + escape_like(phone) + "%"@
}

/// How many values the select statement binds for a given filter shape.
pub open spec fn select_bind_count(has_external_id: bool, has_phone_number: bool) -> int {
    2 + (if has_external_id {
        1int
    } else {
        0
    }) + (if has_phone_number {
        1int
    } else {
        0
    })
}

/// The bound values of a select composed from `filter`: the `external_id`
/// equality value first if present, then the substring pattern if present,
/// then the effective limit and the effective offset.
pub open spec fn select_params_ok(filter: ContactFilter, params: Seq<BindValue>) -> bool {
    let has_e = filter.external_id is Some;
    let has_p = filter.phone_number is Some;
    let n = select_bind_count(has_e, has_p);
    &&& params.len() == n
    &&& (filter.external_id matches Some(x) ==> params[0] == BindValue::Int(x))
    &&& (filter.phone_number matches Some(ph) ==> (params[if has_e {
        1int
    } else {
        0
    }] matches BindValue::Text(s) && s@ == like_pattern(ph@)))
    &&& (params[n - 2] matches BindValue::BigInt(l) && l == effective_limit_spec(filter.limit))
    &&& (params[n - 1] matches BindValue::BigInt(o) && o == effective_offset_spec(filter.offset))
}

fn build_like_pattern(phone: &str) -> (s: String)
    ensures
        s@ == like_pattern(phone@),
{
    let mut s = String::from_str("%");
    let n = phone.unicode_len();
    let mut i: usize = 0;
    while i < n
        invariant
            n == phone@.len(),
            i <= n,
            s@ == "%"@ + escape_like(phone@.subrange(0, i as int)),
        decreases n - i,
    {
        let c = phone.get_char(i);
        if c == '%' || c == '_' || c == '\\' {
            s.append("\\");
        }
        let piece = phone.substring_char(i, i + 1);
        s.append(piece);
        i = i + 1;
        proof {
            reveal_strlit("\\");
            let done = phone@.subrange(0, i as int);
            assert(done.drop_last() =~= phone@.subrange(0, i - 1));
            assert(s@ =~= "%"@ + escape_like(done));
        }
    }
    proof {
        assert(phone@.subrange(0, n as int) =~= phone@);
    }
    s.append("%");
    s
}

/// Composes the insert statement for one creation: the server-generated
/// identifier and the two caller values, bound in placeholder order.
pub fn build_insert(request: &ContactCreateRequest, id: u128) -> (q: SqlQuery)
    ensures
        q.text@ == insert_text(),
        q.params@.len() == 3,
        q.params@[0] == BindValue::Id(id),
        q.params@[1] == BindValue::Int(request.external_id),
        (q.params@[2] matches BindValue::Text(s) && s@ == request.phone_number@),
{
    let text = String::from_str(
        "INSERT INTO contacts (id, external_id, phone_number, date_created, date_updated) VALUES ($1, $2, $3, now(), now()) RETURNING id, external_id, phone_number, date_created, date_updated",
    );
    let mut params: Vec<BindValue> = Vec::new();
    params.push(BindValue::Id(id));
    params.push(BindValue::Int(request.external_id));
    params.push(BindValue::Text(request.phone_number.clone()));
    SqlQuery { text, params }
}

/// Composes the bounded select for one `list` call: base, optional
/// predicates in fixed order, explicit sort key, pagination last. The text
/// depends only on which filters are present; the values travel as bound
/// parameters.
pub fn build_select(filter: &ContactFilter) -> (q: SqlQuery)
    ensures
        q.text@ == select_text(filter.external_id is Some, filter.phone_number is Some),
        select_params_ok(*filter, q.params@),
{
    let mut text = String::from_str(
        "SELECT id, external_id, phone_number, date_created, date_updated FROM contacts WHERE TRUE",
    );
    let mut params: Vec<BindValue> = Vec::new();
    if let Some(x) = &filter.external_id {
        text.append(" AND external_id = $1");
        params.push(BindValue::Int(*x));
    }
    if let Some(ph) = &filter.phone_number {
        if filter.external_id.is_some() {
            text.append(" AND phone_number ILIKE $2");
        } else {
            text.append(" AND phone_number ILIKE $1");
        }
        params.push(BindValue::Text(build_like_pattern(ph.as_str())));
    }
    if filter.external_id.is_some() && filter.phone_number.is_some() {
        text.append(" ORDER BY date_created LIMIT $3 OFFSET $4");
    } else if filter.external_id.is_some() || filter.phone_number.is_some() {
        text.append(" ORDER BY date_created LIMIT $2 OFFSET $3");
    } else {
        text.append(" ORDER BY date_created LIMIT $1 OFFSET $2");
    }
    let limit = effective_limit(&filter.limit);
    let offset = effective_offset(&filter.offset);
    params.push(BindValue::BigInt(limit));
    params.push(BindValue::BigInt(offset));
    SqlQuery { text, params }
}

/// The statement text is a function of which filters are present alone:
/// two filters of the same shape compose to the same text, however their
/// values differ. Caller-supplied text therefore never becomes statement
/// syntax; it reaches the store only as bound parameters.
pub proof fn lemma_text_independent_of_values(f1: ContactFilter, f2: ContactFilter)
    requires
        (f1.external_id is Some) == (f2.external_id is Some),
        (f1.phone_number is Some) == (f2.phone_number is Some),
    ensures
        select_text(f1.external_id is Some, f1.phone_number is Some) == select_text(
            f2.external_id is Some,
            f2.phone_number is Some,
        ),
{
}

} // verus!
