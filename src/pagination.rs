//! Result sets wrapped with page and total metadata.
use vstd::prelude::*;
use crate::page::NewPageModel;

verus! {

/// Where a page of results stands among all results.
#[derive(Clone, Copy, Debug, PartialEq, Eq, Structural)]
pub struct Pagination {
    pub current_page: u64,
    pub total_pages: u64,
    pub total_records: u64,
    pub per_page: u64,
}

/// One page of stored pages, with its pagination.
#[derive(Clone, Debug, PartialEq)]
pub struct PagePagination {
    pub data: Vec<NewPageModel>,
    pub pagination: Pagination,
}

/// `n / d` rounded up.
pub open spec fn ceil_div(n: int, d: int) -> int {
    (n + d - 1) / d
}

/// The number of pages that `total_records` records fill, `per_page` to a
/// page; no records fill no pages.
pub fn total_pages(total_records: u64, per_page: u64) -> (r: u64)
    requires
        per_page > 0,
    ensures
        r as int == ceil_div(total_records as int, per_page as int),
{
    let q = total_records / per_page;
    let rem = total_records % per_page;
    proof {
        let n = total_records as int;
        let d = per_page as int;
        assert(n == q * d + rem) by (nonlinear_arith)
            requires
                q == n / d,
                rem == n % d,
                d > 0,
        ;
        if rem == 0 {
            assert((n + d - 1) / d == q) by (nonlinear_arith)
                requires
                    n == q * d,
                    d > 0,
            ;
        } else {
            assert((n + d - 1) / d == q + 1) by (nonlinear_arith)
                requires
                    n == q * d + rem,
                    0 < rem < d,
            ;
            assert(q < 0xFFFF_FFFF_FFFF_FFFFint) by (nonlinear_arith)
                requires
                    n == q * d + rem,
                    0 < rem < d,
                    0 <= q,
                    n <= 0xFFFF_FFFF_FFFF_FFFFint,
            ;
        }
    }
    if rem == 0 {
        q
    } else {
        q + 1
    }
}

impl Pagination {
    /// The pagination of page `current_page` of `total_records` records.
    pub fn new(current_page: u64, per_page: u64, total_records: u64) -> (r: Pagination)
        requires
            per_page > 0,
        ensures
            r.current_page == current_page,
            r.per_page == per_page,
            r.total_records == total_records,
            r.total_pages as int == ceil_div(total_records as int, per_page as int),
    {
        Pagination {
            current_page,
            total_pages: total_pages(total_records, per_page),
            total_records,
            per_page,
        }
    }
}

impl PagePagination {
    /// Wraps `data` with its pagination, keeping its order.
    pub fn new(data: Vec<NewPageModel>, current_page: u64, per_page: u64, total_records: u64) -> (r:
        PagePagination)
        requires
            per_page > 0,
        ensures
            r.data@ == data@,
            r.pagination.current_page == current_page,
            r.pagination.per_page == per_page,
            r.pagination.total_records == total_records,
            r.pagination.total_pages as int == ceil_div(total_records as int, per_page as int),
    {
        PagePagination { data, pagination: Pagination::new(current_page, per_page, total_records) }
    }
}

} // verus!
