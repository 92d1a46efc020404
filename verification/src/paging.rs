//! The page envelope and its arithmetic.

use vstd::prelude::*;

verus! {

/// Number of pages that `total` elements fill at `page_size` elements a page:
/// the ceiling of `total / page_size`, and zero when there is nothing to show.
pub open spec fn pages_needed(total: int, page_size: int) -> int
    recommends
        page_size >= 1,
{
    if total <= 0 {
        0
    } else {
        (total + page_size - 1) / page_size
    }
}

/// Position of the first element of page `page_number`.
pub open spec fn page_start(page_number: int, page_size: int) -> int {
    page_number * page_size
}

/// Number of elements on page `page_number` when `total` elements are cut
/// into pages of `page_size`: `min(page_size, max(0, total - page_number * page_size))`.
pub open spec fn page_len(total: int, page_number: int, page_size: int) -> int {
    let rest = total - page_start(page_number, page_size);
    if rest <= 0 {
        0
    } else if rest < page_size {
        rest
    } else {
        page_size
    }
}

/// The elements of `all` that fall on page `page_number`.
pub open spec fn page_slice<T>(all: Seq<T>, page_number: int, page_size: int) -> Seq<T>
    recommends
        page_number >= 0,
        page_size >= 1,
{
    let start = page_start(page_number, page_size);
    all.subrange(start_within(all.len() as int, start), end_within(all.len() as int, start, page_size))
}

/// `start`, or `len` where the page begins beyond the last element.
pub open spec fn start_within(len: int, start: int) -> int {
    if start < len {
        start
    } else {
        len
    }
}

/// One past the last position of a page that begins at `start`.
pub open spec fn end_within(len: int, start: int, page_size: int) -> int {
    if start + page_size < len {
        start + page_size
    } else {
        len
    }
}

/// `value`, or the largest `usize` where it does not fit.
pub open spec fn saturated(value: int) -> int {
    if value > usize::MAX {
        usize::MAX as int
    } else {
        value
    }
}

/// `pages_needed` is the ceiling of the quotient: the least number of pages
/// of `page_size` elements that hold `total` elements.
pub proof fn lemma_pages_needed_is_ceiling(total: int, page_size: int)
    requires
        total >= 0,
        page_size >= 1,
    ensures
        pages_needed(total, page_size) >= 0,
        pages_needed(total, page_size) * page_size >= total,
        (pages_needed(total, page_size) - 1) * page_size < total || total == 0,
        total == 0 <==> pages_needed(total, page_size) == 0,
{
    if total > 0 {
        let n = total + page_size - 1;
        let q = n / page_size;
        assert(n == page_size * q + n % page_size && 0 <= n % page_size < page_size) by {
            vstd::arithmetic::div_mod::lemma_fundamental_div_mod(n, page_size);
            vstd::arithmetic::div_mod::lemma_mod_bound(n, page_size);
        }
        assert(q * page_size == page_size * q) by (nonlinear_arith);
        assert((q - 1) * page_size == q * page_size - page_size) by (nonlinear_arith);
        assert(q >= 1) by (nonlinear_arith)
            requires
                page_size * q + n % page_size == n,
                n >= page_size,
                n % page_size < page_size,
                page_size >= 1,
        ;
    }
}

/// A page is never longer than the page size, and on the pages that
/// `pages_needed` counts it is never empty.
pub proof fn lemma_page_len_bounds(total: int, page_number: int, page_size: int)
    requires
        total >= 0,
        page_number >= 0,
        page_size >= 1,
    ensures
        0 <= page_len(total, page_number, page_size) <= page_size,
        page_len(total, page_number, page_size) <= total,
        page_number < pages_needed(total, page_size) <==> page_len(total, page_number, page_size) > 0,
{
    lemma_pages_needed_is_ceiling(total, page_size);
    let pages = pages_needed(total, page_size);
    assert(page_number * page_size >= 0) by (nonlinear_arith)
        requires
            page_number >= 0,
            page_size >= 1,
    ;
    if page_number < pages {
        assert(page_number * page_size <= (pages - 1) * page_size) by (nonlinear_arith)
            requires
                page_number <= pages - 1,
                page_size >= 1,
        ;
    } else {
        assert(page_number * page_size >= pages * page_size) by (nonlinear_arith)
            requires
                page_number >= pages,
                page_size >= 1,
        ;
    }
}

/// The slice of a page holds `page_len` elements, and they are the elements
/// of `all` from the page's first position on.
pub proof fn lemma_page_slice_len<T>(all: Seq<T>, page_number: int, page_size: int)
    requires
        page_number >= 0,
        page_size >= 1,
    ensures
        page_slice(all, page_number, page_size).len() == page_len(
            all.len() as int,
            page_number,
            page_size,
        ),
        forall|i: int|
            0 <= i < page_len(all.len() as int, page_number, page_size) ==> #[trigger] page_slice(
                all,
                page_number,
                page_size,
            )[i] == all[page_start(page_number, page_size) + i],
{
    assert(page_number * page_size >= 0) by (nonlinear_arith)
        requires
            page_number >= 0,
            page_size >= 1,
    ;
}

/// Computes the number of pages for a count that a store reported.
pub fn page_count(total: i64, page_size: usize) -> (pages: usize)
    requires
        page_size >= 1,
    ensures
        pages as int == saturated(pages_needed(total as int, page_size as int)),
{
    if total <= 0 {
        return 0;
    }
    let t: u64 = total as u64;
    let s: u64 = page_size as u64;
    let whole: u64 = t / s;
    let rest: u64 = t % s;
    proof {
        lemma_ceiling_by_parts(t as int, s as int);
    }
    let pages: u64 = if rest == 0 {
        whole
    } else {
        whole + 1
    };
    if pages > usize::MAX as u64 {
        usize::MAX
    } else {
        pages as usize
    }
}

/// The positions that page `page_number` covers among `len` elements: the
/// first, and one past the last. A page beyond the last element covers none.
pub fn page_bounds(len: usize, page_number: usize, page_size: usize) -> (bounds: (usize, usize))
    ensures
        bounds.0 as int == start_within(
            len as int,
            page_start(page_number as int, page_size as int),
        ),
        bounds.1 as int == end_within(
            len as int,
            page_start(page_number as int, page_size as int),
            page_size as int,
        ),
        bounds.0 <= bounds.1 <= len,
        bounds.1 - bounds.0 == page_len(len as int, page_number as int, page_size as int),
        bounds.1 - bounds.0 <= page_size,
{
    assert(page_number * page_size <= u64::MAX * u64::MAX) by (nonlinear_arith)
        requires
            0 <= page_number <= u64::MAX,
            0 <= page_size <= u64::MAX,
    ;
    assert(0 <= page_number * page_size) by (nonlinear_arith)
        requires
            0 <= page_number,
            0 <= page_size,
    ;
    let product: u128 = (page_number as u128) * (page_size as u128);
    let start: usize = if product < len as u128 {
        product as usize
    } else {
        len
    };
    let end: usize = if page_size < len - start {
        start + page_size
    } else {
        len
    };
    (start, end)
}

/// The ceiling of a quotient, from the whole quotient and the remainder.
proof fn lemma_ceiling_by_parts(total: int, page_size: int)
    requires
        total > 0,
        page_size >= 1,
    ensures
        total % page_size == 0 ==> pages_needed(total, page_size) == total / page_size,
        total % page_size != 0 ==> pages_needed(total, page_size) == total / page_size + 1,
        total / page_size <= total,
{
    let q = total / page_size;
    let r = total % page_size;
    vstd::arithmetic::div_mod::lemma_fundamental_div_mod(total, page_size);
    vstd::arithmetic::div_mod::lemma_mod_bound(total, page_size);
    assert(q >= 0) by (nonlinear_arith)
        requires
            total == page_size * q + r,
            0 <= r < page_size,
            total > 0,
    ;
    assert(q <= total) by (nonlinear_arith)
        requires
            total == page_size * q + r,
            0 <= r < page_size,
            q >= 0,
            page_size >= 1,
    ;
    let n = total + page_size - 1;
    if r == 0 {
        vstd::arithmetic::div_mod::lemma_fundamental_div_mod_converse(n, page_size, q, page_size - 1);
    } else {
        assert(page_size * (q + 1) == page_size * q + page_size) by (nonlinear_arith);
        vstd::arithmetic::div_mod::lemma_fundamental_div_mod_converse(n, page_size, q + 1, r - 1);
    }
}

} // verus!
