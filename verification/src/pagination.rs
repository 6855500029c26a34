//! Offset pagination: from a requested page and limit to the effective window,
//! and from a row count to the number of pages.

use vstd::prelude::*;

verus! {

/// Page served when the request names none.
pub const DEFAULT_PAGE: i64 = 1;

/// Limit served when the request names none.
pub const DEFAULT_LIMIT: i64 = 10;

/// Smallest limit that is served.
pub const MIN_LIMIT: i64 = 1;

/// Largest limit that is served.
pub const MAX_LIMIT: i64 = 100;

/// The page that is served for a requested page: the default when absent, and
/// never below the first page.
pub open spec fn page_of(requested: Option<i64>) -> int {
    let page: int = match requested {
        Some(p) => p as int,
        None => DEFAULT_PAGE as int,
    };
    if page < 1 {
        1
    } else {
        page
    }
}

/// The limit that is served for a requested limit: the default when absent,
/// brought into the range from `MIN_LIMIT` to `MAX_LIMIT`.
pub open spec fn limit_of(requested: Option<i64>) -> int {
    let limit: int = match requested {
        Some(l) => l as int,
        None => DEFAULT_LIMIT as int,
    };
    if limit < MIN_LIMIT {
        MIN_LIMIT as int
    } else if limit > MAX_LIMIT {
        MAX_LIMIT as int
    } else {
        limit
    }
}

/// Index of the first row of a page, counting rows from zero.
pub open spec fn offset_of(page: int, limit: int) -> int {
    (page - 1) * limit
}

/// The offset with which storage can be asked for a page: `offset_of` where
/// it fits the type that storage takes, none where it is beyond it. A page
/// without such an offset lies behind every row that a table can hold.
pub open spec fn storage_offset_of(page: int, limit: int) -> Option<i64> {
    if offset_of(page, limit) <= i64::MAX {
        Some(offset_of(page, limit) as i64)
    } else {
        None
    }
}

/// Number of pages of `limit` rows that `total` rows fill: the quotient,
/// rounded up.
pub open spec fn pages_of(total: int, limit: int) -> int
    recommends
        limit >= 1,
{
    if total % limit == 0 {
        total / limit
    } else {
        total / limit + 1
    }
}

/// The page to serve for a requested one.
pub fn effective_page(requested: Option<i64>) -> (page: i64)
    ensures
        page == page_of(requested),
        page >= 1,
{
    let page: i64 = match requested {
        Some(p) => p,
        None => DEFAULT_PAGE,
    };
    if page < 1 {
        1
    } else {
        page
    }
}

/// The limit to serve for a requested one.
pub fn effective_limit(requested: Option<i64>) -> (limit: i64)
    ensures
        limit == limit_of(requested),
        MIN_LIMIT <= limit <= MAX_LIMIT,
{
    let limit: i64 = match requested {
        Some(l) => l,
        None => DEFAULT_LIMIT,
    };
    if limit < MIN_LIMIT {
        MIN_LIMIT
    } else if limit > MAX_LIMIT {
        MAX_LIMIT
    } else {
        limit
    }
}

/// The offset of the first row of `page`, with which storage is asked for
/// the page: exactly `(page - 1) * limit`. There is none where that product
/// is beyond `i64::MAX`; such a page is empty and storage is not asked.
pub fn page_offset(page: i64, limit: i64) -> (offset: Option<i64>)
    requires
        page >= 1,
        MIN_LIMIT <= limit <= MAX_LIMIT,
    ensures
        offset == storage_offset_of(page as int, limit as int),
        offset is Some ==> offset.unwrap() >= 0,
{
    let before: i64 = page - 1;
    assert(0 <= before * limit) by (nonlinear_arith)
        requires
            0 <= before,
            1 <= limit,
    ;
    before.checked_mul(limit)
}

/// The number of pages that `total` rows fill at `limit` rows a page.
pub fn total_pages(total: i64, limit: i64) -> (pages: i64)
    requires
        limit >= 1,
    ensures
        pages == pages_of(total as int, limit as int),
{
    if total >= 0 {
        let full: i64 = total / limit;
        let rest: i64 = total % limit;
        proof {
            lemma_quotient_parts(total as int, limit as int);
            assert(full * limit >= full) by (nonlinear_arith)
                requires
                    full >= 0,
                    limit >= 1,
            ;
        }
        if rest == 0 {
            full
        } else {
            full + 1
        }
    } else {
        // Below zero: divide the magnitude, taken one short so that it fits,
        // and turn the sign back.
        let magnitude: i64 = -(total + 1);
        let full: i64 = magnitude / limit;
        let rest: i64 = magnitude % limit;
        proof {
            lemma_quotient_parts(magnitude as int, limit as int);
            lemma_negative_quotient(total as int, limit as int);
            assert(full * limit >= full) by (nonlinear_arith)
                requires
                    full >= 0,
                    limit >= 1,
            ;
        }
        if rest == limit - 1 {
            -full - 1
        } else {
            -full
        }
    }
}

/// A count from zero up is its quotient times the limit, plus its remainder.
proof fn lemma_quotient_parts(total: int, limit: int)
    requires
        total >= 0,
        limit >= 1,
    ensures
        total == (total / limit) * limit + total % limit,
        0 <= total % limit < limit,
        0 <= total / limit,
{
    vstd::arithmetic::div_mod::lemma_fundamental_div_mod(total, limit);
    vstd::arithmetic::div_mod::lemma_mod_bound(total, limit);
    vstd::arithmetic::div_mod::lemma_div_pos_is_pos(total, limit);
    assert(limit * (total / limit) == (total / limit) * limit) by (nonlinear_arith);
}

/// For a count below zero, the rounded-up quotient in terms of the quotient
/// and remainder of `-(total + 1)`.
proof fn lemma_negative_quotient(total: int, limit: int)
    requires
        total < 0,
        limit >= 1,
    ensures
        pages_of(total, limit) == if (-(total + 1)) % limit == limit - 1 {
            -((-(total + 1)) / limit) - 1
        } else {
            -((-(total + 1)) / limit)
        },
{
    let m: int = -(total + 1);
    let q: int = m / limit;
    let r: int = m % limit;
    lemma_quotient_parts(m, limit);
    let tq: int = -q - 1;
    let tr: int = limit - 1 - r;
    assert(total == tq * limit + tr) by (nonlinear_arith)
        requires
            m == q * limit + r,
            m == -(total + 1),
            tq == -q - 1,
            tr == limit - 1 - r,
    ;
    vstd::arithmetic::div_mod::lemma_fundamental_div_mod_converse(total, limit, tq, tr);
}

} // verus!
