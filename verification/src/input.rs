//! Turning pointer and touch movement into a velocity estimate.
//!
//! While a viewport is pressed, each frame's movement is folded into the
//! velocity by averaging: the new estimate is the mean of the old one and of
//! the frame's own movement per second. A single noisy frame thus moves the
//! estimate only half way. The viewport's lowest offset is measured afresh
//! on every such frame, since the content may have changed height.

use vstd::prelude::*;
use vstd::arithmetic::power2::{lemma2_to64_rest, lemma_pow2_pos, lemma_pow2_strictly_increases, lemma_pow2_unfold, pow2};
use vstd::math::abs;
use crate::bounds::{lowest_max_scroll, view_max_scroll};
use crate::fixed::{
    div_toward_zero,
    lemma_product_bound,
    lemma_trunc_div_bounds,
    quotient,
    saturate,
    saturate_wide,
    trunc_div,
    SCALE,
};
use crate::view::{Interaction, ScrollView};

verus! {

/// The velocity estimate after a frame of length `dt` in which the pointer
/// moved by `delta`: the mean of the previous estimate and `delta / dt`.
pub open spec fn smoothed(velocity: int, delta: int, dt: int) -> int
    recommends
        dt > 0,
{
    saturate(trunc_div(velocity + quotient(delta, dt), 2))
}

/// The estimate after the movements `deltas` have been folded in one after
/// the other, each over a frame of length `dt`.
pub open spec fn smoothed_over(velocity: int, deltas: Seq<i64>, dt: int) -> int
    recommends
        dt > 0,
    decreases deltas.len(),
{
    if deltas.len() == 0 {
        velocity
    } else {
        smoothed(smoothed_over(velocity, deltas.drop_last(), dt), deltas.last() as int, dt)
    }
}

/// How far the pointer has moved since the previous frame of the drag; zero
/// on the first frame, when there is nothing to compare with.
pub open spec fn drag_delta(old_mouse_y: Option<i64>, cursor_y: i64) -> int {
    match old_mouse_y {
        Some(y) => cursor_y - y,
        None => 0,
    }
}

/// The viewport after one frame of pointer input.
///
/// Without a pointer position nothing changes. A viewport that is not
/// pressed only forgets where the pointer was, and keeps its velocity so that
/// a fling can follow. A pressed viewport remembers the position, folds the
/// movement into its velocity and takes the newly measured lowest offset.
pub open spec fn mouse_sampled(
    view: ScrollView,
    interaction: Interaction,
    cursor_y: Option<i64>,
    dt: i64,
    viewport_height: i64,
    content_heights: Seq<i64>,
) -> ScrollView {
    match cursor_y {
        None => view,
        Some(y) => match interaction {
            Interaction::Pressed => ScrollView {
                old_mouse_y: Some(y),
                velocity: smoothed(
                    view.velocity as int,
                    drag_delta(view.old_mouse_y, y),
                    dt as int,
                ) as i64,
                max_scroll: lowest_max_scroll(viewport_height as int, content_heights) as i64,
                ..view
            },
            _ => ScrollView { old_mouse_y: None, ..view },
        },
    }
}

/// The viewport after the frame's touches.
///
/// Only a pressed viewport reacts, and only if there is a touch at all: it
/// folds each touch's movement into its velocity, in the order given, and
/// takes the newly measured lowest offset.
pub open spec fn touch_sampled(
    view: ScrollView,
    interaction: Interaction,
    touch_deltas: Seq<i64>,
    dt: i64,
    viewport_height: i64,
    content_heights: Seq<i64>,
) -> ScrollView {
    if interaction is Pressed && touch_deltas.len() > 0 {
        ScrollView {
            velocity: smoothed_over(view.velocity as int, touch_deltas, dt as int) as i64,
            max_scroll: lowest_max_scroll(viewport_height as int, content_heights) as i64,
            ..view
        }
    } else {
        view
    }
}

/// Folds a movement that may be as large as the whole range of `i64` into a
/// velocity estimate.
fn smooth_wide(velocity: i64, delta: i128, dt: i64) -> (estimate: i64)
    requires
        dt > 0,
        -0x1_0000_0000_0000_0000 <= delta <= 0x1_0000_0000_0000_0000,
    ensures
        estimate == smoothed(velocity as int, delta as int, dt as int),
{
    proof {
        lemma_product_bound(delta as int, SCALE as int, 0x1_0000_0000_0000_0000, SCALE as int);
        lemma_trunc_div_bounds(delta * SCALE, dt as int);
    }
    let per_second: i128 = div_toward_zero(delta * (SCALE as i128), dt as i128);
    saturate_wide(div_toward_zero(velocity as i128 + per_second, 2))
}

/// Folds one frame's movement `delta`, made in time `dt`, into a velocity
/// estimate.
pub fn smooth_velocity(velocity: i64, delta: i64, dt: i64) -> (estimate: i64)
    requires
        dt > 0,
    ensures
        estimate == smoothed(velocity as int, delta as int, dt as int),
{
    smooth_wide(velocity, delta as i128, dt)
}

/// Samples the pointer for one viewport on one frame.
///
/// `cursor_y` is the pointer's position, if it is over the window at all;
/// `dt` the length of the frame; `content_heights` the heights of the
/// viewport's content children.
pub fn input_mouse_pressed_move(
    view: &mut ScrollView,
    interaction: Interaction,
    cursor_y: Option<i64>,
    dt: i64,
    viewport_height: i64,
    content_heights: &Vec<i64>,
)
    requires
        cursor_y is Some && interaction is Pressed ==> dt > 0,
    ensures
        *final(view) == mouse_sampled(
            *old(view),
            interaction,
            cursor_y,
            dt,
            viewport_height,
            content_heights@,
        ),
        final(view).friction == old(view).friction,
        final(view).scroll_speed == old(view).scroll_speed,
        old(view).wf() ==> final(view).wf(),
        final(view).dragging() <==> cursor_y is Some && interaction is Pressed || cursor_y is None
            && old(view).dragging(),
{
    let y: i64 = match cursor_y {
        Some(y) => y,
        None => {
            return ;
        },
    };
    match interaction {
        Interaction::Pressed => {
            let delta: i128 = match view.old_mouse_y {
                Some(old_y) => y as i128 - old_y as i128,
                None => 0,
            };
            view.old_mouse_y = Some(y);
            view.velocity = smooth_wide(view.velocity, delta, dt);
            view.max_scroll = view_max_scroll(viewport_height, content_heights);
        },
        _ => {
            view.old_mouse_y = None;
        },
    }
}

/// Samples the frame's touches for one viewport.
///
/// `touch_deltas` holds the vertical movement of each active touch since the
/// previous frame; `dt` is the length of the frame.
pub fn input_touch_pressed_move(
    view: &mut ScrollView,
    interaction: Interaction,
    touch_deltas: &Vec<i64>,
    dt: i64,
    viewport_height: i64,
    content_heights: &Vec<i64>,
)
    requires
        interaction is Pressed && touch_deltas@.len() > 0 ==> dt > 0,
    ensures
        *final(view) == touch_sampled(
            *old(view),
            interaction,
            touch_deltas@,
            dt,
            viewport_height,
            content_heights@,
        ),
        final(view).friction == old(view).friction,
        final(view).scroll_speed == old(view).scroll_speed,
        final(view).old_mouse_y == old(view).old_mouse_y,
        old(view).wf() ==> final(view).wf(),
{
    match interaction {
        Interaction::Pressed => {},
        _ => {
            return ;
        },
    }
    let mut i: usize = 0;
    while i < touch_deltas.len()
        invariant
            i <= touch_deltas.len(),
            touch_deltas.len() > 0 ==> dt > 0,
            view.velocity == smoothed_over(
                old(view).velocity as int,
                touch_deltas@.take(i as int),
                dt as int,
            ),
            view.friction == old(view).friction,
            view.scroll_speed == old(view).scroll_speed,
            view.old_mouse_y == old(view).old_mouse_y,
            i == 0 ==> view.max_scroll == old(view).max_scroll,
            i > 0 ==> view.max_scroll == lowest_max_scroll(
                viewport_height as int,
                content_heights@,
            ),
        decreases touch_deltas.len() - i,
    {
        proof {
            let upto = touch_deltas@.take(i + 1);
            assert(upto.drop_last() =~= touch_deltas@.take(i as int));
            assert(upto.last() == touch_deltas@[i as int]);
        }
        view.velocity = smooth_velocity(view.velocity, touch_deltas[i], dt);
        view.max_scroll = view_max_scroll(viewport_height, content_heights);
        i = i + 1;
    }
    proof {
        assert(touch_deltas@.take(i as int) =~= touch_deltas@);
    }
}

/// A frame without movement halves the estimate, rounding toward zero: the
/// sign stays and the magnitude never grows.
pub proof fn lemma_still_frame_halves(velocity: i64, dt: int)
    requires
        dt > 0,
    ensures
        smoothed(velocity as int, 0, dt) == trunc_div(velocity as int, 2),
        2 * abs(smoothed(velocity as int, 0, dt)) <= abs(velocity as int),
        velocity >= 0 ==> smoothed(velocity as int, 0, dt) >= 0,
        velocity <= 0 ==> smoothed(velocity as int, 0, dt) <= 0,
{
    lemma_trunc_div_bounds(0, dt);
}

/// With no movement frame after frame the estimate falls geometrically toward
/// zero: after `n` frames it is at most the `2^n`-th part of what it was, on
/// the same side of zero, and after sixty-four frames it is zero.
pub proof fn lemma_still_frames_converge(velocity: i64, deltas: Seq<i64>, dt: int)
    requires
        dt > 0,
        forall|i: int| 0 <= i < deltas.len() ==> deltas[i] == 0,
    ensures
        pow2(deltas.len()) * abs(smoothed_over(velocity as int, deltas, dt)) <= abs(velocity as int),
        velocity >= 0 ==> smoothed_over(velocity as int, deltas, dt) >= 0,
        velocity <= 0 ==> smoothed_over(velocity as int, deltas, dt) <= 0,
        deltas.len() >= 64 ==> smoothed_over(velocity as int, deltas, dt) == 0,
    decreases deltas.len(),
{
    let n = deltas.len();
    let after = smoothed_over(velocity as int, deltas, dt);
    lemma_pow2_pos(n);
    if n == 0 {
        assert(pow2(0) == 1) by {
            vstd::arithmetic::power2::lemma2_to64();
        }
    } else {
        let front = deltas.drop_last();
        let before = smoothed_over(velocity as int, front, dt);
        lemma_still_frames_converge(velocity, front, dt);
        lemma_pow2_pos(front.len());
        assert(abs(before) <= abs(velocity as int)) by (nonlinear_arith)
            requires
                pow2(front.len()) * abs(before) <= abs(velocity as int),
                pow2(front.len()) > 0,
        ;
        lemma_still_frame_halves(before as i64, dt);
        lemma_pow2_unfold(n);
        assert(pow2(n) * abs(after) <= pow2(front.len()) * abs(before)) by (nonlinear_arith)
            requires
                pow2(n) == 2 * pow2(front.len()),
                2 * abs(after) <= abs(before),
                pow2(front.len()) > 0,
        ;
    }
    if n >= 64 {
        lemma2_to64_rest();
        if n > 64 {
            lemma_pow2_strictly_increases(64, n);
        }
        assert(after == 0) by (nonlinear_arith)
            requires
                pow2(n) * abs(after) <= abs(velocity as int),
                abs(velocity as int) <= 0x8000_0000_0000_0000,
                pow2(n) >= 0x10000000000000000,
        ;
    }
}

} // verus!
