//! Moving content with the wheel.
//!
//! A wheel event moves the content at once and leaves no velocity behind.
//! Its movement is multiplied by the frame time and by the viewport's wheel
//! factor; movement reported in lines is multiplied by both once more
//! beforehand. The new offset is then brought back between the content's
//! lowest offset, measured for this content alone, and zero.

use vstd::prelude::*;
use crate::bounds::{max_scroll, max_scroll_of};
use crate::fixed::{clamp, multiply, product, saturate};
use crate::view::{Interaction, MouseScrollUnit, MouseWheel, ScrollView, ScrollableContent};

verus! {

/// `y` multiplied by the frame time and then by the wheel factor.
pub open spec fn time_scaled(y: int, dt: int, scroll_speed: int) -> int {
    saturate(product(saturate(product(y, dt)), scroll_speed))
}

/// The distance by which one wheel event moves the content.
pub open spec fn wheel_delta(event: MouseWheel, scroll_speed: int, dt: int) -> int {
    let raw = match event.unit {
        MouseScrollUnit::Line => time_scaled(event.y as int, dt, scroll_speed),
        MouseScrollUnit::Pixel => event.y as int,
    };
    time_scaled(raw, dt, scroll_speed)
}

/// The offset after one wheel event.
pub open spec fn wheel_moved(
    pos_y: int,
    event: MouseWheel,
    scroll_speed: int,
    dt: int,
    viewport_height: int,
    content_height: int,
) -> int {
    clamp(
        pos_y + wheel_delta(event, scroll_speed, dt),
        saturate(max_scroll_of(viewport_height, content_height)),
        0,
    )
}

/// The offset after a run of wheel events, applied in order.
pub open spec fn wheel_scrolled(
    pos_y: int,
    events: Seq<MouseWheel>,
    scroll_speed: int,
    dt: int,
    viewport_height: int,
    content_height: int,
) -> int
    decreases events.len(),
{
    if events.len() == 0 {
        pos_y
    } else {
        wheel_moved(
            wheel_scrolled(
                pos_y,
                events.drop_last(),
                scroll_speed,
                dt,
                viewport_height,
                content_height,
            ),
            events.last(),
            scroll_speed,
            dt,
            viewport_height,
            content_height,
        )
    }
}

/// Multiplies `y` by the frame time and then by the wheel factor.
fn scale_by_time(y: i64, dt: i64, scroll_speed: i64) -> (scaled: i64)
    ensures
        scaled == time_scaled(y as int, dt as int, scroll_speed as int),
{
    multiply(multiply(y, dt), scroll_speed)
}

/// Applies one wheel event to an offset.
pub fn wheel_step(
    pos_y: i64,
    event: MouseWheel,
    scroll_speed: i64,
    dt: i64,
    viewport_height: i64,
    content_height: i64,
) -> (moved: i64)
    ensures
        moved == wheel_moved(
            pos_y as int,
            event,
            scroll_speed as int,
            dt as int,
            viewport_height as int,
            content_height as int,
        ),
        max_scroll_of(viewport_height as int, content_height as int) <= moved <= 0,
{
    let raw: i64 = match event.unit {
        MouseScrollUnit::Line => scale_by_time(event.y, dt, scroll_speed),
        MouseScrollUnit::Pixel => event.y,
    };
    let delta: i64 = scale_by_time(raw, dt, scroll_speed);
    let lowest: i64 = max_scroll(viewport_height, content_height);
    let target: i128 = pos_y as i128 + delta as i128;
    if target < lowest as i128 {
        lowest
    } else if target > 0 {
        0
    } else {
        target as i64
    }
}

/// Applies the frame's wheel events to one content child of a viewport.
///
/// Only a hovered viewport reacts to the wheel. `content_height` is the
/// height of this child, `viewport_height` that of the viewport.
pub fn scroll_events(
    content: &mut ScrollableContent,
    view: &ScrollView,
    interaction: Interaction,
    events: &Vec<MouseWheel>,
    dt: i64,
    viewport_height: i64,
    content_height: i64,
)
    ensures
        interaction is Hovered ==> final(content).pos_y == wheel_scrolled(
            old(content).pos_y as int,
            events@,
            view.scroll_speed as int,
            dt as int,
            viewport_height as int,
            content_height as int,
        ),
        !(interaction is Hovered) ==> *final(content) == *old(content),
        interaction is Hovered && events@.len() > 0 ==> max_scroll_of(
            viewport_height as int,
            content_height as int,
        ) <= final(content).pos_y <= 0,
{
    match interaction {
        Interaction::Hovered => {},
        _ => {
            return ;
        },
    }
    let mut i: usize = 0;
    while i < events.len()
        invariant
            i <= events.len(),
            content.pos_y == wheel_scrolled(
                old(content).pos_y as int,
                events@.take(i as int),
                view.scroll_speed as int,
                dt as int,
                viewport_height as int,
                content_height as int,
            ),
            i > 0 ==> max_scroll_of(viewport_height as int, content_height as int) <= content.pos_y
                <= 0,
        decreases events.len() - i,
    {
        proof {
            let upto = events@.take(i + 1);
            assert(upto.drop_last() =~= events@.take(i as int));
            assert(upto.last() == events@[i as int]);
        }
        content.pos_y = wheel_step(
            content.pos_y,
            events[i],
            view.scroll_speed,
            dt,
            viewport_height,
            content_height,
        );
        i = i + 1;
    }
    proof {
        assert(events@.take(i as int) =~= events@);
    }
}

/// After each event of a run, however long, the offset lies between the
/// content's lowest offset and zero.
pub proof fn lemma_wheel_stays_in_bounds(
    pos_y: int,
    events: Seq<MouseWheel>,
    scroll_speed: int,
    dt: int,
    viewport_height: int,
    content_height: int,
    n: int,
)
    requires
        1 <= n <= events.len(),
    ensures
        max_scroll_of(viewport_height, content_height) <= wheel_scrolled(
            pos_y,
            events.take(n),
            scroll_speed,
            dt,
            viewport_height,
            content_height,
        ) <= 0,
{
    let upto = events.take(n);
    assert(upto.len() == n);
}

/// Content that fits its viewport is put at the top by any wheel event, and
/// so stays there if that is where it was.
pub proof fn lemma_fitting_content_ignores_wheel(
    pos_y: int,
    event: MouseWheel,
    scroll_speed: int,
    dt: int,
    viewport_height: int,
    content_height: int,
)
    requires
        content_height <= viewport_height,
    ensures
        wheel_moved(pos_y, event, scroll_speed, dt, viewport_height, content_height) == 0,
{
}

} // verus!
