//! How far content may be moved inside its viewport.
//!
//! Offsets are zero or negative: content hangs from the viewport's top edge
//! and is pulled upward to reveal what lies below. The lowest offset lets the
//! bottom edges meet; content that fits has no room to move at all.

use vstd::prelude::*;
use crate::fixed::{clamp, saturate, saturate_wide};

verus! {

/// The lowest offset of content of height `content_height` in a viewport of
/// height `viewport_height`: minus the overhang, or zero where the content
/// fits.
pub open spec fn max_scroll_of(viewport_height: int, content_height: int) -> int {
    -vstd::math::max(content_height - viewport_height, 0)
}

/// The lowest offset shared by all the children of one viewport: the lowest of
/// their own, and zero where there is no child.
pub open spec fn lowest_max_scroll(viewport_height: int, content_heights: Seq<i64>) -> int
    decreases content_heights.len(),
{
    if content_heights.len() == 0 {
        0
    } else {
        vstd::math::min(
            lowest_max_scroll(viewport_height, content_heights.drop_last()),
            saturate(max_scroll_of(viewport_height, content_heights.last() as int)),
        )
    }
}

/// Computes the lowest offset for one child. With heights that are not
/// negative the result is exact; it stops at the lower end of `i64` otherwise.
pub fn max_scroll(viewport_height: i64, content_height: i64) -> (bound: i64)
    ensures
        bound == saturate(max_scroll_of(viewport_height as int, content_height as int)),
        viewport_height >= 0 && content_height >= 0 ==> bound == max_scroll_of(
            viewport_height as int,
            content_height as int,
        ),
        bound <= 0,
{
    let overhang: i128 = content_height as i128 - viewport_height as i128;
    if overhang > 0 {
        saturate_wide(-overhang)
    } else {
        0
    }
}

/// Computes the lowest offset over all the children of one viewport.
pub fn view_max_scroll(viewport_height: i64, content_heights: &Vec<i64>) -> (bound: i64)
    ensures
        bound == lowest_max_scroll(viewport_height as int, content_heights@),
        bound <= 0,
{
    let mut bound: i64 = 0;
    let mut i: usize = 0;
    while i < content_heights.len()
        invariant
            i <= content_heights.len(),
            bound == lowest_max_scroll(viewport_height as int, content_heights@.take(i as int)),
            bound <= 0,
        decreases content_heights.len() - i,
    {
        let own: i64 = max_scroll(viewport_height, content_heights[i]);
        proof {
            let upto = content_heights@.take(i + 1);
            assert(upto.drop_last() =~= content_heights@.take(i as int));
            assert(upto.last() == content_heights@[i as int]);
        }
        if own < bound {
            bound = own;
        }
        i = i + 1;
    }
    proof {
        assert(content_heights@.take(i as int) =~= content_heights@);
    }
    bound
}

/// Moves an offset into `[max_scroll, 0]`.
pub fn clamp_offset(offset: i64, max_scroll: i64) -> (clamped: i64)
    requires
        max_scroll <= 0,
    ensures
        clamped == clamp(offset as int, max_scroll as int, 0),
        max_scroll <= clamped <= 0,
{
    if offset < max_scroll {
        max_scroll
    } else if offset > 0 {
        0
    } else {
        offset
    }
}

/// The lowest offset is never positive, and is exactly minus the overhang
/// when both heights are at least zero.
pub proof fn lemma_max_scroll_never_positive(viewport_height: int, content_height: int)
    ensures
        max_scroll_of(viewport_height, content_height) <= 0,
        content_height <= viewport_height ==> max_scroll_of(viewport_height, content_height) == 0,
        content_height > viewport_height ==> max_scroll_of(viewport_height, content_height)
            == viewport_height - content_height,
{
}

/// The shared lowest offset is at most zero, lies at or below every child's
/// own, and is reached by one of them unless it is zero.
pub proof fn lemma_lowest_max_scroll(viewport_height: int, content_heights: Seq<i64>)
    ensures
        lowest_max_scroll(viewport_height, content_heights) <= 0,
        i64::MIN <= lowest_max_scroll(viewport_height, content_heights),
        forall|i: int|
            0 <= i < content_heights.len() ==> lowest_max_scroll(viewport_height, content_heights)
                <= saturate(max_scroll_of(viewport_height, #[trigger] content_heights[i] as int)),
        lowest_max_scroll(viewport_height, content_heights) == 0 || exists|i: int|
            0 <= i < content_heights.len() && lowest_max_scroll(viewport_height, content_heights)
                == saturate(max_scroll_of(viewport_height, #[trigger] content_heights[i] as int)),
    decreases content_heights.len(),
{
    if content_heights.len() > 0 {
        let front = content_heights.drop_last();
        lemma_lowest_max_scroll(viewport_height, front);
        assert forall|i: int| 0 <= i < front.len() implies front[i] == content_heights[i] by {}
        let all = lowest_max_scroll(viewport_height, content_heights);
        let last = content_heights.len() - 1;
        if all != 0 {
            if all == saturate(max_scroll_of(viewport_height, content_heights[last] as int)) {
            } else {
                let i = choose|i: int|
                    0 <= i < front.len() && lowest_max_scroll(viewport_height, front) == saturate(
                        max_scroll_of(viewport_height, #[trigger] front[i] as int),
                    );
                assert(front[i] == content_heights[i]);
            }
        }
    }
}

} // verus!
