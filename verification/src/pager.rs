//! Windowed pager: offset/limit pagination that also reports the total
//! number of rows the unlimited query would have produced.
//!
//! Rather than running a `SELECT ... LIMIT n OFFSET m` and a separate
//! `SELECT COUNT(*)`, the wrapped statement annotates every surviving row
//! with `COUNT(*) OVER ()` — the size of the whole filtered set — and
//! applies the limit and offset on top. One round trip then yields both
//! the page and the total. The storage collaborator executes the
//! statement; everything on this side works on the plain rows it hands
//! back.
//!
//! One deliberate asymmetry: when the window lies entirely beyond the
//! filtered set, the statement returns no rows, and the annotation — and
//! with it the true total — is lost, so [`OffsetLimited::load_and_count`]
//! reports 0 there ([`lemma_windowed_faithful`] pins this down). Callers
//! that need an exact total on an empty page go through [`paginate`],
//! whose total never degrades.

use vstd::prelude::*;
use vstd::string::StringExecFns;

verus! {

/// A pagination parameter a caller misused; rejected before any statement
/// is composed, so that count semantics stay well-defined.
#[derive(Debug)]
pub enum PageError {
    /// The offset was negative.
    NegativeOffset,
    /// The limit was zero or negative.
    NonPositiveLimit,
}

/// A base query `T`, wrapped with an offset and a limit.
///
/// The wrapped query is executed at most once by the storage collaborator,
/// which hands the annotated result rows back to [`OffsetLimited::load_and_count`].
pub struct OffsetLimited<T> {
    pub query: T,
    pub offset: i64,
    pub limit: i64,
}

/// Wrapping any query value with offset/limit window semantics.
pub trait OffsetLimit: Sized {
    fn offset_and_limit(self, offset: i64, limit: i64) -> (r: OffsetLimited<Self>)
        requires
            0 <= offset,
            0 < limit,
        ensures
            r.query == self,
            r.offset == offset,
            r.limit == limit,
    ;
}

impl<T> OffsetLimit for T {
    fn offset_and_limit(self, offset: i64, limit: i64) -> (r: OffsetLimited<T>) {
        OffsetLimited { query: self, offset, limit }
    }
}

/// The record part of a sequence of count-annotated rows.
pub open spec fn spec_records<U>(w: Seq<(U, i64)>) -> Seq<U> {
    w.map_values(|p: (U, i64)| p.0)
}

/// The total that a sequence of count-annotated rows reports: the
/// annotation of the first row, or 0 when no row came back (the
/// annotation is lost together with the rows).
pub open spec fn spec_total<U>(w: Seq<(U, i64)>) -> i64 {
    if w.len() == 0 {
        0
    } else {
        w[0].1
    }
}

/// The page a window with the given offset and limit cuts out of the
/// filtered row sequence (for `offset >= 0` and `limit > 0`).
pub open spec fn spec_page<U>(rows: Seq<U>, offset: int, limit: int) -> Seq<U> {
    let lo = if offset <= rows.len() { offset } else { rows.len() as int };
    let hi = if offset + limit <= rows.len() { offset + limit } else { rows.len() as int };
    rows.subrange(lo, hi)
}

/// The annotated rows the windowed statement returns when the unlimited
/// query would produce `rows`: the page, each row paired with the size of
/// the whole filtered set.
pub open spec fn spec_windowed<U>(rows: Seq<U>, offset: int, limit: int) -> Seq<(U, i64)> {
    spec_page(rows, offset, limit).map_values(|u: U| (u, rows.len() as i64))
}

impl<T> OffsetLimited<T> {
    /// Splits the annotated rows the storage collaborator returned for
    /// this wrapped query into the page of records and the single total
    /// taken from the first row — or 0 when the page is empty and the
    /// annotation is unrecoverable.
    pub fn load_and_count<U>(self, rows: Vec<(U, i64)>) -> (r: (Vec<U>, i64))
        ensures
            r.0@ == spec_records(rows@),
            r.1 == spec_total(rows@),
    {
        let total: i64 = if rows.len() == 0 {
            0
        } else {
            rows[0].1
        };
        let ghost all = rows@;
        let mut rest = rows;
        let mut records: Vec<U> = Vec::new();
        while rest.len() > 0
            invariant
                records@ + spec_records(rest@) =~= spec_records(all),
            decreases rest.len(),
        {
            let row = rest.remove(0);
            records.push(row.0);
        }
        (records, total)
    }
}

/// Page a fully materialized filtered row set: up to `limit` rows starting
/// at `offset`, together with the total size of the set — the total is
/// the size of the whole set even when the page itself is empty because
/// the offset lies beyond it. Misused parameters are rejected, never
/// clamped.
pub fn paginate<U>(rows: Vec<U>, offset: i64, limit: i64) -> (r: Result<(Vec<U>, i64), PageError>)
    requires
        rows@.len() <= i64::MAX,
    ensures
        offset < 0 ==> r == Result::<(Vec<U>, i64), PageError>::Err(PageError::NegativeOffset),
        offset >= 0 && limit <= 0 ==> r == Result::<(Vec<U>, i64), PageError>::Err(
            PageError::NonPositiveLimit,
        ),
        offset >= 0 && limit > 0 ==> (r matches Ok(p) && p.0@ == spec_page(
            rows@,
            offset as int,
            limit as int,
        ) && p.1 == rows@.len() as i64),
{
    if offset < 0 {
        return Err(PageError::NegativeOffset);
    }
    if limit <= 0 {
        return Err(PageError::NonPositiveLimit);
    }
    let total: i64 = rows.len() as i64;
    let ghost all = rows@;
    let mut rows = rows;
    let start: usize = if offset >= rows.len() as i64 {
        rows.len()
    } else {
        offset as usize
    };
    let mut page = rows.split_off(start);
    let keep: usize = if limit >= page.len() as i64 {
        page.len()
    } else {
        limit as usize
    };
    page.truncate(keep);
    proof {
        assert(page@ =~= spec_page(all, offset as int, limit as int));
    }
    Ok((page, total))
}

/// The single statement the pager composes around a base query: the base
/// result set, each row annotated with the size of the whole set, cut down
/// by a limit and an offset (the two bind placeholders, in that order).
pub fn windowed_sql(base: &str) -> (r: String)
    ensures
        r@ == "SELECT *, COUNT(*) OVER () FROM ("@ + base@ + ") t LIMIT $1 OFFSET $2"@,
{
    let mut sql = String::from_str("SELECT *, COUNT(*) OVER () FROM (");
    sql.append(base);
    sql.append(") t LIMIT $1 OFFSET $2");
    sql
}

/// The window trick is faithful to its two-query specification: for any
/// filtered row set and any window, the records of the annotated result
/// are exactly the page, at most `limit` of them, and the total taken from
/// the first annotated row is the size of the whole set — except that a
/// window lying entirely beyond the set returns no rows, and with them
/// loses the annotation, so the reported total degrades to 0 there.
pub proof fn lemma_windowed_faithful<U>(rows: Seq<U>, offset: int, limit: int)
    requires
        0 <= offset,
        0 < limit,
        rows.len() <= i64::MAX,
    ensures
        spec_records(spec_windowed(rows, offset, limit)) == spec_page(rows, offset, limit),
        spec_windowed(rows, offset, limit).len() <= limit,
        offset < rows.len() ==> spec_total(spec_windowed(rows, offset, limit)) == rows.len() as i64,
        offset >= rows.len() ==> spec_total(spec_windowed(rows, offset, limit)) == 0,
{
    let w = spec_windowed(rows, offset, limit);
    let p = spec_page(rows, offset, limit);
    assert(spec_records(w) =~= p);
    if offset < rows.len() {
        assert(p.len() > 0);
        assert(w[0] == (p[0], rows.len() as i64));
    }
}

} // verus!
