//! One frame of a viewport, from input to offsets.
//!
//! The stages run in a fixed order, each seeing what the one before has
//! written: the pointer is sampled, then the touches, then the wheel moves
//! the content, and last the fling advances. A velocity set by a drag on this
//! frame is thus the one the fling spends on it.

use vstd::prelude::*;
use crate::fixed::SCALE;
use crate::fling::{fling_update, flung_offset, lemma_fling_stops, velocity_after};
use crate::input::{
    input_mouse_pressed_move,
    input_touch_pressed_move,
    mouse_sampled,
    touch_sampled,
};
use crate::view::{Interaction, MouseWheel, ScrollView, ScrollableContent};
use crate::wheel::{scroll_events, wheel_scrolled};

verus! {

/// What one frame brings to a viewport.
#[derive(Debug)]
pub struct Frame {
    /// What the pointer is doing to the viewport.
    pub interaction: Interaction,
    /// The pointer's position, if it is over the window.
    pub cursor_y: Option<i64>,
    /// The movement of each active touch since the previous frame.
    pub touch_deltas: Vec<i64>,
    /// The wheel's movements, oldest first.
    pub wheel_events: Vec<MouseWheel>,
    /// The length of the frame.
    pub dt: i64,
    /// The factor by which a fling slows over the frame.
    pub decay: i64,
    /// The height of the viewport.
    pub viewport_height: i64,
}

impl Frame {
    /// Whether the frame moves a drag along, and so divides by its length.
    pub open spec fn drags(&self) -> bool {
        self.interaction is Pressed && (self.cursor_y is Some || self.touch_deltas@.len() > 0)
    }

    /// The viewport after the pointer and the touches have been sampled.
    pub open spec fn sampled(&self, view: ScrollView, content_heights: Seq<i64>) -> ScrollView {
        touch_sampled(
            mouse_sampled(
                view,
                self.interaction,
                self.cursor_y,
                self.dt,
                self.viewport_height,
                content_heights,
            ),
            self.interaction,
            self.touch_deltas@,
            self.dt,
            self.viewport_height,
            content_heights,
        )
    }

    /// The offset of a content child of height `content_height` after the
    /// wheel has moved it.
    pub open spec fn wheeled(&self, pos_y: int, scroll_speed: int, content_height: int) -> int {
        if self.interaction is Hovered {
            wheel_scrolled(
                pos_y,
                self.wheel_events@,
                scroll_speed,
                self.dt as int,
                self.viewport_height as int,
                content_height,
            )
        } else {
            pos_y
        }
    }
}

/// Runs one frame for a viewport and its content children.
///
/// `content_heights` holds the height of each child, in the order of
/// `contents`.
pub fn advance_frame(
    view: &mut ScrollView,
    contents: &mut Vec<ScrollableContent>,
    content_heights: &Vec<i64>,
    frame: &Frame,
)
    requires
        old(view).wf(),
        old(contents)@.len() == content_heights@.len(),
        frame.drags() ==> frame.dt > 0,
        0 <= frame.decay <= SCALE,
    ensures
        final(contents)@.len() == old(contents)@.len(),
        *final(view) == (ScrollView {
            velocity: velocity_after(
                frame.sampled(*old(view), content_heights@).velocity as int,
                frame.decay as int,
                old(contents)@.len(),
            ) as i64,
            ..frame.sampled(*old(view), content_heights@)
        }),
        final(view).wf(),
        forall|i: int|
            0 <= i < old(contents)@.len() ==> (#[trigger] final(contents)@[i]).pos_y
                == flung_offset(
                frame.wheeled(
                    old(contents)@[i].pos_y as int,
                    old(view).scroll_speed as int,
                    content_heights@[i] as int,
                ),
                velocity_after(
                    frame.sampled(*old(view), content_heights@).velocity as int,
                    frame.decay as int,
                    i as nat,
                ),
                old(view).friction as int,
                frame.sampled(*old(view), content_heights@).max_scroll as int,
                frame.decay as int,
            ),
{
    input_mouse_pressed_move(
        view,
        frame.interaction,
        frame.cursor_y,
        frame.dt,
        frame.viewport_height,
        content_heights,
    );
    input_touch_pressed_move(
        view,
        frame.interaction,
        &frame.touch_deltas,
        frame.dt,
        frame.viewport_height,
        content_heights,
    );
    let mut i: usize = 0;
    while i < contents.len()
        invariant
            i <= contents.len(),
            contents@.len() == old(contents)@.len(),
            contents@.len() == content_heights@.len(),
            forall|j: int|
                0 <= j < i ==> (#[trigger] contents@[j]).pos_y == frame.wheeled(
                    old(contents)@[j].pos_y as int,
                    view.scroll_speed as int,
                    content_heights@[j] as int,
                ),
            forall|j: int| i <= j < contents@.len() ==> contents@[j] == old(contents)@[j],
        decreases contents.len() - i,
    {
        let mut content: ScrollableContent = contents[i];
        scroll_events(
            &mut content,
            view,
            frame.interaction,
            &frame.wheel_events,
            frame.dt,
            frame.viewport_height,
            content_heights[i],
        );
        contents.set(i, content);
        i = i + 1;
    }
    fling_update(view, contents, frame.decay);
}

/// A viewport at rest stays at rest through every frame that does not drag
/// it: neither sampling nor any number of fling passes gives it a velocity.
pub proof fn lemma_rest_lasts_until_a_drag(
    view: ScrollView,
    frame: Frame,
    content_heights: Seq<i64>,
    passes: nat,
)
    requires
        view.velocity == 0,
        !frame.drags(),
    ensures
        frame.sampled(view, content_heights).velocity == 0,
        velocity_after(
            frame.sampled(view, content_heights).velocity as int,
            frame.decay as int,
            passes,
        ) == 0,
{
    if passes >= 1 {
        lemma_fling_stops(0, 0, view.friction as int, view.max_scroll as int, frame.decay as int, passes);
    }
}

} // verus!
