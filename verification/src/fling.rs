//! Momentum after a drag.
//!
//! Content that has been set in motion slows down under friction: over a
//! frame its velocity shrinks by the factor `e^(-friction * dt)`, and its
//! offset changes by what that velocity covers meanwhile. Both are given in
//! closed form, so the path does not depend on how time is cut into frames.
//! Below the stop speed the content comes to rest at once.
//!
//! The decay factor of the frame is an input here: a fixed-point number
//! between zero (an endless frame) and one (a frame of no length).

use vstd::prelude::*;
use crate::bounds::clamp_offset;
use crate::fixed::{
    clamp,
    div_toward_zero,
    lemma_product_bound,
    lemma_trunc_div_bounds,
    lemma_trunc_div_monotone,
    product,
    quotient,
    saturate,
    saturate_wide,
    wide_product,
    SCALE,
};
use crate::view::{ScrollView, ScrollableContent};

verus! {

/// The speed at or below which a fling ends: sixteen units per second.
pub const STOP_SPEED: i64 = 16_000_000;

/// Whether a velocity is still above the stop speed, in either direction.
pub open spec fn flinging(velocity: int) -> bool {
    velocity > STOP_SPEED || velocity < -STOP_SPEED
}

/// The offset after a frame with decay factor `decay`:
/// `value - velocity / friction + (velocity / friction) * decay`.
pub open spec fn integrated_offset(value: int, velocity: int, friction: int, decay: int) -> int
    recommends
        friction > 0,
{
    saturate(value - quotient(velocity, friction) + product(quotient(velocity, friction), decay))
}

/// The velocity after a frame with decay factor `decay`: `velocity * decay`.
pub open spec fn integrated_velocity(velocity: int, decay: int) -> int {
    product(velocity, decay)
}

/// The velocity of a viewport after one pass of its fling: decayed while
/// above the stop speed, zero otherwise.
pub open spec fn flung_velocity(velocity: int, decay: int) -> int {
    if flinging(velocity) {
        integrated_velocity(velocity, decay)
    } else {
        0
    }
}

/// The velocity of a viewport after its fling has been advanced `passes`
/// times in a row with the same decay factor.
pub open spec fn velocity_after(velocity: int, decay: int, passes: nat) -> int
    decreases passes,
{
    if passes == 0 {
        velocity
    } else {
        flung_velocity(velocity_after(velocity, decay, (passes - 1) as nat), decay)
    }
}

/// The offset of a content child after one pass of the fling, made while the
/// viewport has the given velocity.
pub open spec fn flung_offset(
    pos_y: int,
    velocity: int,
    friction: int,
    max_scroll: int,
    decay: int,
) -> int {
    if flinging(velocity) {
        clamp(integrated_offset(pos_y, velocity, friction, decay), max_scroll, 0)
    } else {
        pos_y
    }
}

/// Tells whether a velocity is still above the stop speed.
pub fn is_flinging(velocity: i64) -> (yes: bool)
    ensures
        yes == flinging(velocity as int),
{
    velocity > STOP_SPEED || velocity < -STOP_SPEED
}

/// Advances an offset and a velocity over one frame, along the closed-form
/// path of a body slowed by friction.
pub fn calc_velocity(value: i64, velocity: i64, friction: i64, decay: i64) -> (next: (i64, i64))
    requires
        friction > 0,
        0 <= decay <= SCALE,
    ensures
        next.0 == integrated_offset(value as int, velocity as int, friction as int, decay as int),
        next.1 == integrated_velocity(velocity as int, decay as int),
{
    let scaled: i128 = wide_product(velocity, SCALE);
    proof {
        lemma_product_bound(velocity as int, SCALE as int, 0x8000_0000_0000_0000, SCALE as int);
        lemma_trunc_div_bounds(scaled as int, friction as int);
    }
    let reach: i128 = div_toward_zero(scaled, friction as i128);
    proof {
        lemma_product_bound(
            reach as int,
            decay as int,
            0x8000_0000_0000_0000 * SCALE,
            SCALE as int,
        );
        lemma_trunc_div_bounds(reach * decay, SCALE as int);
    }
    let kept: i128 = div_toward_zero(reach * (decay as i128), SCALE as i128);
    let offset: i64 = saturate_wide(value as i128 - reach + kept);
    proof {
        lemma_decay_never_speeds_up(velocity as int, decay as int);
    }
    let slowed: i128 = div_toward_zero(wide_product(velocity, decay), SCALE as i128);
    (offset, slowed as i64)
}

/// Advances the fling of one content child by one frame.
///
/// Above the stop speed the viewport's velocity decays and the offset moves
/// along, held between the viewport's lowest offset and zero. Otherwise the
/// velocity becomes zero and the offset stays.
pub fn fling_step(view: &mut ScrollView, content: &mut ScrollableContent, decay: i64)
    requires
        flinging(old(view).velocity as int) ==> old(view).wf(),
        0 <= decay <= SCALE,
    ensures
        final(view).velocity == flung_velocity(old(view).velocity as int, decay as int),
        final(content).pos_y == flung_offset(
            old(content).pos_y as int,
            old(view).velocity as int,
            old(view).friction as int,
            old(view).max_scroll as int,
            decay as int,
        ),
        final(view).scroll_speed == old(view).scroll_speed,
        final(view).friction == old(view).friction,
        final(view).old_mouse_y == old(view).old_mouse_y,
        final(view).max_scroll == old(view).max_scroll,
        flinging(old(view).velocity as int) ==> old(view).max_scroll <= final(content).pos_y <= 0,
{
    if is_flinging(view.velocity) {
        let (value, velocity) = calc_velocity(content.pos_y, view.velocity, view.friction, decay);
        view.velocity = velocity;
        content.pos_y = clamp_offset(value, view.max_scroll);
    } else {
        view.velocity = 0;
    }
}

/// Advances the fling of a viewport by one frame, for each of its content
/// children in turn. Each child makes one pass, so the velocity decays once
/// per child, and a viewport without children keeps its velocity.
pub fn fling_update(view: &mut ScrollView, contents: &mut Vec<ScrollableContent>, decay: i64)
    requires
        flinging(old(view).velocity as int) ==> old(view).wf(),
        0 <= decay <= SCALE,
    ensures
        final(contents)@.len() == old(contents)@.len(),
        forall|i: int|
            0 <= i < old(contents)@.len() ==> (#[trigger] final(contents)@[i]).pos_y
                == flung_offset(
                old(contents)@[i].pos_y as int,
                velocity_after(old(view).velocity as int, decay as int, i as nat),
                old(view).friction as int,
                old(view).max_scroll as int,
                decay as int,
            ),
        final(view).velocity == velocity_after(
            old(view).velocity as int,
            decay as int,
            old(contents)@.len(),
        ),
        final(view).scroll_speed == old(view).scroll_speed,
        final(view).friction == old(view).friction,
        final(view).old_mouse_y == old(view).old_mouse_y,
        final(view).max_scroll == old(view).max_scroll,
{
    let mut i: usize = 0;
    while i < contents.len()
        invariant
            i <= contents.len(),
            contents@.len() == old(contents)@.len(),
            0 <= decay <= SCALE,
            flinging(view.velocity as int) ==> view.wf(),
            view.velocity == velocity_after(old(view).velocity as int, decay as int, i as nat),
            view.scroll_speed == old(view).scroll_speed,
            view.friction == old(view).friction,
            view.old_mouse_y == old(view).old_mouse_y,
            view.max_scroll == old(view).max_scroll,
            forall|j: int|
                0 <= j < i ==> (#[trigger] contents@[j]).pos_y == flung_offset(
                    old(contents)@[j].pos_y as int,
                    velocity_after(old(view).velocity as int, decay as int, j as nat),
                    old(view).friction as int,
                    old(view).max_scroll as int,
                    decay as int,
                ),
            forall|j: int| i <= j < contents@.len() ==> contents@[j] == old(contents)@[j],
        decreases contents.len() - i,
    {
        let mut content: ScrollableContent = contents[i];
        fling_step(view, &mut content, decay);
        contents.set(i, content);
        i = i + 1;
    }
}

/// A decay factor between zero and one keeps the direction of a velocity
/// and never makes it faster.
pub proof fn lemma_decay_never_speeds_up(velocity: int, decay: int)
    requires
        0 <= decay <= SCALE,
    ensures
        velocity >= 0 ==> 0 <= integrated_velocity(velocity, decay) <= velocity,
        velocity <= 0 ==> velocity <= integrated_velocity(velocity, decay) <= 0,
{
    assert(velocity >= 0 ==> 0 <= velocity * decay <= velocity * SCALE) by (nonlinear_arith)
        requires
            0 <= decay <= SCALE,
    ;
    assert(velocity <= 0 ==> velocity * SCALE <= velocity * decay <= 0) by (nonlinear_arith)
        requires
            0 <= decay <= SCALE,
    ;
}

/// The longer the frame, and so the smaller the decay factor, the less
/// velocity is left.
pub proof fn lemma_decay_is_monotone(velocity: int, shorter: int, longer: int)
    requires
        0 <= longer <= shorter <= SCALE,
    ensures
        velocity >= 0 ==> integrated_velocity(velocity, longer) <= integrated_velocity(
            velocity,
            shorter,
        ),
        velocity <= 0 ==> integrated_velocity(velocity, longer) >= integrated_velocity(
            velocity,
            shorter,
        ),
{
    if velocity >= 0 {
        assert(velocity * longer <= velocity * shorter) by (nonlinear_arith)
            requires
                velocity >= 0,
                longer <= shorter,
        ;
        lemma_trunc_div_monotone(velocity * longer, velocity * shorter, SCALE as int);
    } else {
        assert(velocity * shorter <= velocity * longer) by (nonlinear_arith)
            requires
                velocity <= 0,
                longer <= shorter,
        ;
        lemma_trunc_div_monotone(velocity * shorter, velocity * longer, SCALE as int);
    }
}

/// However long the frame, the offset ends between where it was and where
/// an endless frame would take it: the momentum can be spent, not exceeded.
pub proof fn lemma_fling_within_reach(value: i64, velocity: i64, friction: i64, decay: i64)
    requires
        friction > 0,
        0 <= decay <= SCALE,
    ensures
        ({
            let next = integrated_offset(
                value as int,
                velocity as int,
                friction as int,
                decay as int,
            );
            let last = integrated_offset(value as int, velocity as int, friction as int, 0);
            if velocity >= 0 {
                last <= next <= value
            } else {
                value <= next <= last
            }
        }),
{
    let reach = quotient(velocity as int, friction as int);
    lemma_trunc_div_bounds(velocity * SCALE, friction as int);
    lemma_decay_never_speeds_up(reach, decay as int);
    assert(velocity >= 0 ==> velocity * SCALE >= 0) by (nonlinear_arith);
    assert(velocity < 0 ==> velocity * SCALE <= 0) by (nonlinear_arith);
}

/// A frame of no length changes nothing: with a decay factor of one, offset
/// and velocity stay as they are.
pub proof fn lemma_fling_identity(value: i64, velocity: i64, friction: i64)
    requires
        friction > 0,
    ensures
        integrated_offset(value as int, velocity as int, friction as int, SCALE as int) == value,
        integrated_velocity(velocity as int, SCALE as int) == velocity,
{
}

/// An endless frame spends the whole momentum: with a decay factor of zero
/// the velocity is zero, and the offset has changed by `velocity / friction`,
/// the farthest it can.
pub proof fn lemma_fling_terminal(value: i64, velocity: i64, friction: i64)
    requires
        friction > 0,
    ensures
        integrated_offset(value as int, velocity as int, friction as int, 0) == saturate(
            value - quotient(velocity as int, friction as int),
        ),
        integrated_velocity(velocity as int, 0) == 0,
{
}

/// At or below the stop speed, the stop speed itself included, the next pass
/// brings the velocity to zero and leaves the offset alone; from then on
/// every pass keeps both.
pub proof fn lemma_fling_stops(
    pos_y: int,
    velocity: int,
    friction: int,
    max_scroll: int,
    decay: int,
    passes: nat,
)
    requires
        !flinging(velocity),
        passes >= 1,
    ensures
        velocity_after(velocity, decay, passes) == 0,
        flung_offset(pos_y, velocity, friction, max_scroll, decay) == pos_y,
        flung_offset(pos_y, velocity_after(velocity, decay, passes), friction, max_scroll, decay)
            == pos_y,
    decreases passes,
{
    if passes > 1 {
        lemma_fling_stops(pos_y, velocity, friction, max_scroll, decay, (passes - 1) as nat);
    } else {
        assert(velocity_after(velocity, decay, 0) == velocity);
    }
}

/// Content that fits its viewport and rests at the top is not moved by a
/// fling, whatever the velocity.
pub proof fn lemma_fitting_content_rests(velocity: int, friction: int, decay: int)
    ensures
        flung_offset(0, velocity, friction, 0, decay) == 0,
{
}

} // verus!
