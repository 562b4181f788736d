//! Pagination over the append-only stores: `total_pages` is the ceiling of
//! `total / page_size`, and page `k` starts at offset `(k - 1) * page_size`.
use vstd::prelude::*;

verus! {

#[derive(Clone, Copy, Debug)]
pub struct PaginationInfo {
    pub total: i64,
    pub page: i64,
    pub page_size: i64,
    pub total_pages: i64,
}

/// Number of pages needed to hold `total` rows at `page_size` rows per page:
/// the ceiling of `total / page_size`.
pub open spec fn spec_total_pages(total: int, page_size: int) -> int
    recommends
        page_size >= 1,
{
    if total % page_size == 0 {
        total / page_size
    } else {
        total / page_size + 1
    }
}

/// The offset at which page `page` begins.
pub open spec fn spec_offset(page: int, page_size: int) -> int {
    (page - 1) * page_size
}

/// The rows of page `page`: the window of `page_size` rows starting at the
/// page's offset, clipped to the row sequence.
pub open spec fn spec_page<A>(rows: Seq<A>, page: int, page_size: int) -> Seq<A>
    recommends
        page >= 1,
        page_size >= 1,
{
    let lo = if spec_offset(page, page_size) <= rows.len() {
        spec_offset(page, page_size)
    } else {
        rows.len() as int
    };
    let hi = if spec_offset(page, page_size) + page_size <= rows.len() {
        spec_offset(page, page_size) + page_size
    } else {
        rows.len() as int
    };
    rows.subrange(lo, hi)
}

pub fn total_pages(total: i64, page_size: i64) -> (r: i64)
    requires
        0 <= total,
        1 <= page_size,
    ensures
        r == spec_total_pages(total as int, page_size as int),
{
    let q = total / page_size;
    let rem = total % page_size;
    if rem == 0 {
        q
    } else {
        proof {
            assert(q < total) by (nonlinear_arith)
                requires
                    0 <= total,
                    1 <= page_size,
                    q == total as int / page_size as int,
                    rem == total as int % page_size as int,
                    rem != 0,
            ;
        }
        q + 1
    }
}

pub fn pagination_info(total: i64, page: i64, page_size: i64) -> (r: PaginationInfo)
    requires
        0 <= total,
        1 <= page,
        1 <= page_size,
    ensures
        r.total == total,
        r.page == page,
        r.page_size == page_size,
        r.total_pages == spec_total_pages(total as int, page_size as int),
{
    PaginationInfo { total, page, page_size, total_pages: total_pages(total, page_size) }
}

/// `total_pages` is the ceiling of `total / page_size`: the last page is the
/// first one whose window covers `total`.
pub proof fn lemma_total_pages_is_ceiling(total: int, page_size: int)
    requires
        0 <= total,
        1 <= page_size,
    ensures
        total == 0 ==> spec_total_pages(total, page_size) == 0,
        total > 0 ==> page_size * (spec_total_pages(total, page_size) - 1) < total,
        total <= page_size * spec_total_pages(total, page_size),
{
    let tp = spec_total_pages(total, page_size);
    assert((total == 0 ==> tp == 0) && (total > 0 ==> page_size * (tp - 1) < total) && total
        <= page_size * tp) by (nonlinear_arith)
        requires
            0 <= total,
            1 <= page_size,
            tp == spec_total_pages(total, page_size),
    ;
}

/// Page `k` holds exactly the rows from offset `(k - 1) * page_size`, at most
/// `page_size` of them, in the order of the row sequence.
pub proof fn lemma_page_window<A>(rows: Seq<A>, page: int, page_size: int)
    requires
        1 <= page,
        1 <= page_size,
    ensures
        spec_page(rows, page, page_size).len() <= page_size,
        forall|i: int| 0 <= i < spec_page(rows, page, page_size).len()
            ==> #[trigger] spec_page(rows, page, page_size)[i] == rows[spec_offset(page, page_size)
            + i],
{
    assert(spec_offset(page, page_size) >= 0) by (nonlinear_arith)
        requires
            1 <= page,
            1 <= page_size,
    ;
}

} // verus!
