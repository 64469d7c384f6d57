//! Scroll physics for a clipped viewport holding taller content.
//!
//! A viewport shows part of a content box that may be taller than itself.
//! Dragging with the pointer or a finger sets the content in motion, the
//! wheel moves it directly, and after a drag the content flings on until
//! friction has spent its velocity. The offset of the content is zero or
//! negative and never leaves the range in which the content covers the
//! viewport.
//!
//! All quantities are fixed-point numbers with six decimal places (see
//! [`fixed`]), so that every result is an exact function of the inputs and
//! the same on every machine.
//!
//! The stages of a frame are [`input`], [`wheel`] and [`fling`], in that
//! order; [`frame`] runs them together. [`bounds`] measures how far content
//! may move, and [`view`] holds the state.

pub mod bounds;
pub mod fixed;
pub mod fling;
pub mod frame;
pub mod input;
pub mod view;
pub mod wheel;

pub use view::{Interaction, MouseScrollUnit, MouseWheel, ScrollView, ScrollableContent};
