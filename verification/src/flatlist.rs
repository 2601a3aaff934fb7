//! The windowing function: mapping a scroll position to the half-open index
//! range of list items that intersect the viewport.
//!
//! The scroll position is an exact fraction `scroll_num / scroll_den` of the
//! total scrollable distance (`0/1` is the top, `1/1` the bottom), so the
//! arithmetic is exact integer arithmetic throughout: `rows_fit` is the number
//! of whole rows the viewport holds, the naive start index is
//! `floor(item_count * scroll_num / scroll_den)`, and the start is clamped so
//! a full page never runs past the end of the list.

use vstd::prelude::*;

verus! {

use vstd::arithmetic::div_mod::{
    lemma_div_by_multiple, lemma_div_is_ordered, lemma_div_pos_is_pos,
    lemma_fundamental_div_mod, lemma_mod_division_less_than_divisor,
};
use vstd::arithmetic::mul::{lemma_mul_nonnegative, lemma_mul_upper_bound};

/// Number of whole rows that fit in a viewport of height `view_h` when every
/// row is `row_h` pixels tall.  Truncation (floor) is deliberate: a row that
/// only partly fits is not counted.
pub open spec fn spec_rows_fit(row_h: int, view_h: int) -> int {
    view_h / row_h
}

/// The naive first visible index implied by the scroll fraction
/// `num / den`: `floor(item_count * num / den)`.
pub open spec fn spec_start_min(item_count: int, num: int, den: int) -> int {
    (item_count * num) / den
}

/// The largest index at which a full page of `rows` rows still fits without
/// running past the end of the list.
pub open spec fn spec_start_max(item_count: int, rows: int) -> int {
    if item_count - rows > 0 {
        item_count - rows
    } else {
        0
    }
}

/// First index of the visible range: the naive start clamped into
/// `[0, spec_start_max]`.
pub open spec fn spec_start(
    item_count: int,
    num: int,
    den: int,
    row_h: int,
    view_h: int,
) -> int {
    let lo = if spec_start_min(item_count, num, den) > 0 {
        spec_start_min(item_count, num, den)
    } else {
        0
    };
    let hi = spec_start_max(item_count, spec_rows_fit(row_h, view_h));
    if lo < hi {
        lo
    } else {
        hi
    }
}

/// One past the last visible index: a full page after the start, cut off at
/// the end of the list.
pub open spec fn spec_end(
    item_count: int,
    num: int,
    den: int,
    row_h: int,
    view_h: int,
) -> int {
    let s = spec_start(item_count, num, den, row_h, view_h);
    let rows = spec_rows_fit(row_h, view_h);
    if s + rows < item_count {
        s + rows
    } else {
        item_count
    }
}

/// Computes the half-open range `[start, end)` of item indices that must be
/// rendered for a list of `item_count` uniform rows of height `row_h`, seen
/// through a viewport of height `view_h`, scrolled to the fraction
/// `scroll_num / scroll_den` of the total distance.
///
/// The range always satisfies `0 <= start <= end <= item_count`; an empty
/// list gives `(0, 0)`, and a viewport that holds the whole list gives
/// `(0, item_count)` whatever the fraction says.  A fraction outside `[0, 1]`
/// is clamped by the same bounds, never trusted.
pub fn get_start_end_pos(
    item_count: usize,
    scroll_num: usize,
    scroll_den: usize,
    row_h: usize,
    view_h: usize,
) -> (r: (usize, usize))
    requires
        row_h > 0,
        scroll_den > 0,
    ensures
        r.0 == spec_start(
            item_count as int,
            scroll_num as int,
            scroll_den as int,
            row_h as int,
            view_h as int,
        ),
        r.1 == spec_end(
            item_count as int,
            scroll_num as int,
            scroll_den as int,
            row_h as int,
            view_h as int,
        ),
        0 <= r.0 <= r.1 <= item_count,
        item_count == 0 ==> r.0 == 0 && r.1 == 0,
        spec_rows_fit(row_h as int, view_h as int) >= item_count ==> r.0 == 0 && r.1
            == item_count,
{
    let rows_fit: usize = view_h / row_h;
    let start_max: usize = if item_count > rows_fit {
        item_count - rows_fit
    } else {
        0
    };
    proof {
        lemma_mul_upper_bound(item_count as int, u64::MAX as int, scroll_num as int, u64::MAX as int);
    }
    let prod: u128 = (item_count as u128) * (scroll_num as u128);
    let start_min: u128 = prod / (scroll_den as u128);
    let start: usize = if start_min > (start_max as u128) {
        start_max
    } else {
        start_min as usize
    };
    let end: usize = if rows_fit >= item_count - start {
        item_count
    } else {
        start + rows_fit
    };
    (start, end)
}

/// Law: the visible range is a function of its inputs alone.  Two range
/// computations made from identical inputs agree; there is no hidden state.
pub proof fn lemma_visible_range_deterministic(
    item_count: int,
    num: int,
    den: int,
    row_h: int,
    view_h: int,
    r1: (int, int),
    r2: (int, int),
)
    requires
        r1.0 == spec_start(item_count, num, den, row_h, view_h),
        r1.1 == spec_end(item_count, num, den, row_h, view_h),
        r2.0 == spec_start(item_count, num, den, row_h, view_h),
        r2.1 == spec_end(item_count, num, den, row_h, view_h),
    ensures
        r1 == r2,
{
}

/// Multiplying a common nonnegative factor into the smaller of two fractions
/// keeps the floored quotients ordered: if `n1 / d1 <= n2 / d2` as rationals,
/// then `floor(c * n1 / d1) <= floor(c * n2 / d2)`.
proof fn lemma_div_fraction_monotonic(c: int, n1: int, d1: int, n2: int, d2: int)
    requires
        c >= 0,
        n1 >= 0,
        n2 >= 0,
        d1 > 0,
        d2 > 0,
        n1 * d2 <= n2 * d1,
    ensures
        (c * n1) / d1 <= (c * n2) / d2,
{
    let q = (c * n1) / d1;
    lemma_mul_nonnegative(c, n1);
    lemma_mul_nonnegative(c, n2);
    lemma_div_pos_is_pos(c * n1, d1);
    lemma_fundamental_div_mod(c * n1, d1);
    lemma_mod_division_less_than_divisor(c * n1, d1);
    assert(d1 * q <= c * n1);
    assert(q * d2 <= c * n2) by (nonlinear_arith)
        requires
            d1 > 0,
            d2 > 0,
            c >= 0,
            q >= 0,
            d1 * q <= c * n1,
            n1 * d2 <= n2 * d1,
    ;
    lemma_div_by_multiple(q, d2);
    lemma_div_is_ordered(q * d2, c * n2, d2);
}

/// Law: raising the scroll fraction never moves the start of the visible
/// range towards the top.  For two fractions `n1 / d1 <= n2 / d2` (stated as
/// `n1 * d2 <= n2 * d1`) and otherwise identical inputs, the start index
/// computed for the first is at most the one computed for the second.
pub proof fn lemma_start_monotonic_in_fraction(
    item_count: int,
    n1: int,
    d1: int,
    n2: int,
    d2: int,
    row_h: int,
    view_h: int,
)
    requires
        item_count >= 0,
        n1 >= 0,
        n2 >= 0,
        d1 > 0,
        d2 > 0,
        n1 * d2 <= n2 * d1,
        row_h > 0,
        view_h >= 0,
    ensures
        spec_start(item_count, n1, d1, row_h, view_h) <= spec_start(
            item_count,
            n2,
            d2,
            row_h,
            view_h,
        ),
{
    lemma_div_fraction_monotonic(item_count, n1, d1, n2, d2);
}

/// Copies the items of the visible window out of the full list.  The result
/// is exactly the sub-sequence of `items` at the indices that
/// [`get_start_end_pos`] selects for the slider fraction
/// `slider_num / slider_den`.
pub fn get_subset_by_slider_position<T: Copy>(
    items: &Vec<T>,
    slider_num: usize,
    slider_den: usize,
    row_h: usize,
    view_h: usize,
) -> (r: Vec<T>)
    requires
        row_h > 0,
        slider_den > 0,
    ensures
        r@ == items@.subrange(
            spec_start(
                items@.len() as int,
                slider_num as int,
                slider_den as int,
                row_h as int,
                view_h as int,
            ),
            spec_end(
                items@.len() as int,
                slider_num as int,
                slider_den as int,
                row_h as int,
                view_h as int,
            ),
        ),
{
    let (start, end) = get_start_end_pos(items.len(), slider_num, slider_den, row_h, view_h);
    let mut r: Vec<T> = Vec::new();
    let mut i: usize = start;
    while i < end
        invariant
            start <= i <= end <= items@.len(),
            r@ == items@.subrange(start as int, i as int),
        decreases end - i,
    {
        r.push(items[i]);
        proof {
            assert(r@ =~= items@.subrange(start as int, i + 1));
        }
        i = i + 1;
    }
    r
}

/// The row sequence an optional header contributes before the visible window.
pub open spec fn spec_header_rows<T>(header: Option<T>) -> Seq<T> {
    match header {
        Option::Some(h) => seq![h],
        Option::None => Seq::empty(),
    }
}

/// Assembles the rows of one redraw: the optional header followed by the
/// visible window of `items`, together with the pixel height of the full
/// virtual content (`item_count * item_height`), which the enclosing
/// container reports so scrollbar proportions stay correct.  The height
/// product must fit the machine word, which any renderable list satisfies.
pub fn _filter_wrapper<T: Copy>(
    items: &Vec<T>,
    item_height: usize,
    view_height: usize,
    scroll_num: usize,
    scroll_den: usize,
    header: Option<T>,
) -> (r: (Vec<T>, usize))
    requires
        item_height > 0,
        scroll_den > 0,
        items@.len() * item_height <= usize::MAX,
    ensures
        r.0@ == spec_header_rows(header) + items@.subrange(
            spec_start(
                items@.len() as int,
                scroll_num as int,
                scroll_den as int,
                item_height as int,
                view_height as int,
            ),
            spec_end(
                items@.len() as int,
                scroll_num as int,
                scroll_den as int,
                item_height as int,
                view_height as int,
            ),
        ),
        r.1 == items@.len() * item_height,
{
    let total_height: usize = items.len() * item_height;
    let mut rows: Vec<T> = Vec::new();
    match header {
        Option::Some(h) => rows.push(h),
        Option::None => (),
    }
    let (start, end) = get_start_end_pos(
        items.len(),
        scroll_num,
        scroll_den,
        item_height,
        view_height,
    );
    let mut i: usize = start;
    while i < end
        invariant
            start <= i <= end <= items@.len(),
            rows@ == spec_header_rows(header) + items@.subrange(start as int, i as int),
        decreases end - i,
    {
        rows.push(items[i]);
        proof {
            assert(rows@ =~= spec_header_rows(header) + items@.subrange(start as int, i + 1));
        }
        i = i + 1;
    }
    (rows, total_height)
}

} // verus!

