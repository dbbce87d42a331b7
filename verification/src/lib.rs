//! An immediate-mode widget toolkit for small, slow displays.
//!
//! Widgets are rebuilt every frame as short-lived values. Three pieces make
//! that cheap and are specified and proved here:
//!
//! * [`smartstate`]: a cached tag of what a widget slot last showed, and the
//!   gate that decides from it whether anything has to be drawn;
//! * [`interaction`]: the classification of one pointer sample against a
//!   widget's rectangle;
//! * [`placer`] and [`ui`]: the cursor that hands out rectangles in traversal
//!   order.
//!
//! [`iconbutton`] is a widget built on the three. Drawing itself is left to the
//! caller: a widget answers each frame with a [`iconbutton::Frame`] that says
//! what to paint, and is told afterwards whether painting succeeded.
pub mod geometry;
pub mod smartstate;
pub mod interaction;
pub mod error;
pub mod placer;
pub mod color;
pub mod font;
pub mod style;
pub mod ui;
pub mod iconbutton;
