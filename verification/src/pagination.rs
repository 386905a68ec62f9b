//! Pages of query results: which rows a page covers, and how many pages a
//! count of rows fills.

use vstd::prelude::*;

verus! {

/// The rows that a page covers, in the database's signed integers.
pub struct PageWindow {
    /// How many rows come before the page.
    pub offset: i64,
    /// How many rows the page holds at most.
    pub limit: i64,
}

/// The rows of page `page` (counted from 1) of pages of `per_page` rows:
/// none for page 0, or when the offset or the page size exceeds `i64::MAX`.
pub fn page_window(page: u64, per_page: u64) -> (window: Option<PageWindow>)
    ensures
        match window {
            Some(w) => {
                &&& page >= 1
                &&& w.offset == (page - 1) * per_page
                &&& w.limit == per_page
            },
            None => page == 0 || (page - 1) * per_page > i64::MAX || per_page > i64::MAX,
        },
{
    if page == 0 || per_page > i64::MAX as u64 {
        return None;
    }
    match (page - 1).checked_mul(per_page) {
        Some(offset) => {
            if offset > i64::MAX as u64 {
                None
            } else {
                Some(PageWindow { offset: offset as i64, limit: per_page as i64 })
            }
        },
        None => {
            assert((page - 1) * per_page > i64::MAX);
            None
        },
    }
}

/// How many pages of `per_page` rows `total_items` rows fill: the quotient,
/// rounded up.
pub fn total_pages(total_items: u64, per_page: u64) -> (pages: u64)
    requires
        per_page > 0,
    ensures
        pages == total_items / per_page + if total_items % per_page == 0 {
            0int
        } else {
            1int
        },
        pages * per_page >= total_items,
        pages == 0 || (pages - 1) * per_page < total_items,
{
    proof {
        lemma_ceiling(total_items as int, per_page as int);
    }
    let whole = total_items / per_page;
    if total_items % per_page == 0 {
        whole
    } else {
        assert(whole < u64::MAX) by (nonlinear_arith)
            requires
                per_page > 0,
                whole == total_items / per_page,
                total_items % per_page != 0,
        {
            if per_page == 1 {
                assert(total_items % 1 == 0);
            }
        }
        whole + 1
    }
}

/// The rounded-up quotient is the fewest pages that hold every row: they
/// hold them all, and one page fewer does not.
proof fn lemma_ceiling(n: int, d: int)
    requires
        n >= 0,
        d > 0,
    ensures
        ({
            let p = n / d + if n % d == 0 {
                0int
            } else {
                1int
            };
            &&& p * d >= n
            &&& (p == 0 || (p - 1) * d < n)
        }),
{
    assert(n == d * (n / d) + n % d && 0 <= n % d < d) by (nonlinear_arith)
        requires
            d > 0,
    ;
    let q = n / d;
    let r = n % d;
    if r == 0 {
        assert(q * d == n) by (nonlinear_arith)
            requires
                n == d * q + r,
                r == 0,
        ;
        if q != 0 {
            assert((q - 1) * d < n) by (nonlinear_arith)
                requires
                    q * d == n,
                    d > 0,
            ;
        }
    } else {
        assert((q + 1) * d >= n && q * d < n) by (nonlinear_arith)
            requires
                n == d * q + r,
                0 < r < d,
        ;
    }
}

/// The rows of a page that lie within the first `cap` rows: the same offset,
/// and the page's limit cut to the rows left before `cap`, never below 0.
/// Without a cap the window is unchanged.
pub fn window_within(window: PageWindow, cap: Option<i64>) -> (within: PageWindow)
    ensures
        within.offset == window.offset,
        within.limit == match cap {
            None => window.limit as int,
            Some(c) => {
                let room = c - window.offset;
                let cut = if window.limit <= room {
                    window.limit as int
                } else {
                    room
                };
                if cut < 0 {
                    0
                } else {
                    cut
                }
            },
        },
{
    match cap {
        None => window,
        Some(c) => {
            let room: i128 = (c as i128) - (window.offset as i128);
            let cut: i128 = if (window.limit as i128) <= room {
                window.limit as i128
            } else {
                room
            };
            let limit: i64 = if cut < 0 {
                0
            } else {
                cut as i64
            };
            PageWindow { offset: window.offset, limit }
        },
    }
}

/// How many of `total_items` rows lie within the first `cap` rows.
pub fn count_within(total_items: u64, cap: Option<i64>) -> (count: u64)
    ensures
        count == match cap {
            None => total_items as int,
            Some(c) => if c <= 0 {
                0
            } else if total_items <= c {
                total_items as int
            } else {
                c as int
            },
        },
{
    match cap {
        None => total_items,
        Some(c) => if c <= 0 {
            0
        } else if total_items <= c as u64 {
            total_items
        } else {
            c as u64
        },
    }
}

} // verus!
