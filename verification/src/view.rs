//! The state kept for a scrolling viewport and for the content inside it.

use vstd::prelude::*;

verus! {

/// What the pointer is doing to a viewport.
#[derive(Debug, Clone, Copy, PartialEq, Eq)]
pub enum Interaction {
    /// The viewport is being pressed.
    Pressed,
    /// The pointer rests over the viewport.
    Hovered,
    /// Neither.
    Untouched,
}

/// The unit in which a wheel reports its movement.
#[derive(Debug, Clone, Copy, PartialEq, Eq)]
pub enum MouseScrollUnit {
    /// Lines of text.
    Line,
    /// Pixels.
    Pixel,
}

/// One movement of the wheel.
#[derive(Debug, Clone, Copy, PartialEq, Eq)]
pub struct MouseWheel {
    /// The unit of `y`.
    pub unit: MouseScrollUnit,
    /// The vertical movement, in fixed point.
    pub y: i64,
}

/// A scrolling viewport. All quantities are in fixed point.
#[derive(Debug, Clone, Copy, PartialEq, Eq)]
pub struct ScrollView {
    /// Factor applied to wheel movement; negative to invert the direction.
    pub scroll_speed: i64,
    /// Rate at which a fling loses velocity, per second. Must be positive.
    pub friction: i64,
    /// Where the pointer was on the previous frame of a drag; `None` while
    /// no drag is under way.
    pub old_mouse_y: Option<i64>,
    /// Current velocity of the content, per second.
    pub velocity: i64,
    /// The lowest offset the content may take. Never positive.
    pub max_scroll: i64,
}

/// The content inside a scrolling viewport.
#[derive(Debug, Clone, Copy, PartialEq, Eq)]
pub struct ScrollableContent {
    /// Offset of the content from the viewport's top edge, in fixed point.
    /// It may be set by hand to move the content to a chosen place.
    pub pos_y: i64,
}

impl ScrollView {
    /// A viewport is well formed when its friction is positive and its
    /// lowest offset is not.
    pub open spec fn wf(&self) -> bool {
        &&& self.friction > 0
        &&& self.max_scroll <= 0
    }

    /// Whether a drag is under way.
    pub open spec fn dragging(&self) -> bool {
        self.old_mouse_y is Some
    }

    /// Tells whether the viewport is well formed.
    pub fn is_well_formed(&self) -> (ok: bool)
        ensures
            ok == self.wf(),
    {
        self.friction > 0 && self.max_scroll <= 0
    }

    /// Tells whether a drag is under way.
    pub fn is_dragging(&self) -> (yes: bool)
        ensures
            yes == self.dragging(),
    {
        self.old_mouse_y.is_some()
    }
}

impl Default for ScrollView {
    /// A viewport at rest, with a wheel factor of 200 and a friction of 4.2.
    fn default() -> (view: Self)
        ensures
            view == (ScrollView {
                scroll_speed: 200_000_000,
                friction: 4_200_000,
                old_mouse_y: None,
                velocity: 0,
                max_scroll: 0,
            }),
            view.wf(),
    {
        ScrollView {
            scroll_speed: 200_000_000,
            friction: 4_200_000,
            old_mouse_y: None,
            velocity: 0,
            max_scroll: 0,
        }
    }
}

impl Default for ScrollableContent {
    /// Content at the top of its viewport.
    fn default() -> (content: Self)
        ensures
            content == (ScrollableContent { pos_y: 0 }),
    {
        ScrollableContent { pos_y: 0 }
    }
}

} // verus!
