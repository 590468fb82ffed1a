//! Page-window arithmetic shared by every listing endpoint: window
//! normalization, the total-page count, and the slice of an ordered
//! result set that one page holds.

use vstd::prelude::*;

verus! {

/// The number of pages needed to show `total` items at `per_page` items a
/// page: the ceiling of `total / per_page`.
pub open spec fn spec_total_pages(total: int, per_page: int) -> int
    recommends
        per_page >= 1,
{
    (total + per_page - 1) / per_page
}

/// Ceiling division, free of the overflow that the textbook
/// `(total + per_page - 1) / per_page` form risks near `u64::MAX`.
pub fn total_pages(total: u64, per_page: u64) -> (r: u64)
    requires
        per_page >= 1,
    ensures
        r == spec_total_pages(total as int, per_page as int),
{
    if total == 0 {
        assert(spec_total_pages(0, per_page as int) == 0) by (nonlinear_arith)
            requires
                per_page >= 1,
        ;
        0
    } else {
        let r: u64 = 1 + (total - 1) / per_page;
        assert(r == spec_total_pages(total as int, per_page as int)) by (nonlinear_arith)
            requires
                total >= 1,
                per_page >= 1,
                r == 1 + (total as int - 1) / (per_page as int),
        ;
        r
    }
}

/// The page window of a listing request as it arrives from the query
/// string, before normalization.
#[derive(Clone, Copy, Debug, PartialEq, Eq, Structural)]
pub struct PaginationParams {
    pub page: u64,
    pub per_page: u64,
}

/// The page requested when the query string names none.
pub fn default_page() -> (r: u64)
    ensures
        r == 1,
{
    1
}

/// The page size used when the query string names none.
pub fn default_per_page() -> (r: u64)
    ensures
        r == 20,
{
    20
}

impl PaginationParams {
    /// The window with both fields floored to 1, as every listing query
    /// applies it before touching the store.
    pub fn normalized(&self) -> (r: (u64, u64))
        ensures
            r.0 == if self.page >= 1 { self.page } else { 1u64 },
            r.1 == if self.per_page >= 1 { self.per_page } else { 1u64 },
            r.0 >= 1 && r.1 >= 1,
    {
        let page: u64 = if self.page >= 1 {
            self.page
        } else {
            1
        };
        let per_page: u64 = if self.per_page >= 1 {
            self.per_page
        } else {
            1
        };
        (page, per_page)
    }
}

/// Floors a possibly zero or negative page window to 1 in both fields, so
/// no page arithmetic ever divides by zero or computes a negative offset.
pub fn normalize_page_window(page: i64, per_page: i64) -> (r: (u64, u64))
    ensures
        r.0 == if page >= 1 { page as u64 } else { 1u64 },
        r.1 == if per_page >= 1 { per_page as u64 } else { 1u64 },
        r.0 >= 1 && r.1 >= 1,
{
    let p: u64 = if page >= 1 {
        page as u64
    } else {
        1
    };
    let pp: u64 = if per_page >= 1 {
        per_page as u64
    } else {
        1
    };
    (p, pp)
}

/// `spec_total_pages` is the least page count that covers all items: every
/// item falls on some page, and every page but possibly the last is needed.
pub proof fn lemma_total_pages_is_ceil(total: int, per_page: int)
    requires
        total >= 0,
        per_page >= 1,
    ensures
        spec_total_pages(total, per_page) * per_page >= total,
        total > 0 ==> (spec_total_pages(total, per_page) - 1) * per_page < total,
        total == 0 ==> spec_total_pages(total, per_page) == 0,
{
    let q = spec_total_pages(total, per_page);
    assert(q * per_page >= total && (total > 0 ==> (q - 1) * per_page < total) && (total == 0
        ==> q == 0)) by (nonlinear_arith)
        requires
            total >= 0,
            per_page >= 1,
            q == (total + per_page - 1) / per_page,
    ;
}

/// Where page `page` of a `len`-item ordered result set starts, clamped to
/// the end of the set when the page lies past it.
pub open spec fn spec_page_start(len: int, page: int, per_page: int) -> int {
    if (page - 1) * per_page <= len {
        (page - 1) * per_page
    } else {
        len
    }
}

/// Where page `page` ends: a full page past its start unless the set runs
/// out first.
pub open spec fn spec_page_end(len: int, page: int, per_page: int) -> int {
    if spec_page_start(len, page, per_page) + per_page <= len {
        spec_page_start(len, page, per_page) + per_page
    } else {
        len
    }
}

/// The slice of an ordered result set that one page window holds. Pages
/// count from 1; a page past the end is empty.
pub fn page_of<T>(items: Vec<T>, page: u64, per_page: u64) -> (r: Vec<T>)
    requires
        page >= 1,
        per_page >= 1,
    ensures
        r@ == items@.subrange(
            spec_page_start(items@.len() as int, page as int, per_page as int),
            spec_page_end(items@.len() as int, page as int, per_page as int),
        ),
{
    let ghost orig = items@;
    let mut items = items;
    let len: usize = items.len();
    let skip: u64 = page - 1;
    let start: usize = if skip > len as u64 / per_page {
        proof {
            assert((page - 1) * per_page > len) by (nonlinear_arith)
                requires
                    per_page >= 1,
                    len >= 0,
                    page - 1 > (len as int) / (per_page as int),
            ;
        }
        len
    } else {
        proof {
            assert((page - 1) * per_page <= len) by (nonlinear_arith)
                requires
                    per_page >= 1,
                    len >= 0,
                    0 <= page - 1 <= (len as int) / (per_page as int),
            ;
        }
        ((skip * per_page) as usize)
    };
    let mut tail = items.split_off(start);
    let count: usize = if per_page <= tail.len() as u64 {
        per_page as usize
    } else {
        tail.len()
    };
    tail.truncate(count);
    proof {
        let s = spec_page_start(orig.len() as int, page as int, per_page as int);
        let e = spec_page_end(orig.len() as int, page as int, per_page as int);
        assert(tail@ =~= orig.subrange(s, e));
    }
    tail
}

} // verus!
