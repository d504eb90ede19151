//! The platform layer of a GPU-accelerated UI framework on iOS and iPadOS.
//!
//! This crate holds the decisions of the layer: how hardware key presses and
//! touches become input events, how fonts are registered, selected and laid
//! out, what the window and the platform remember between calls, and how tasks
//! are timed and queued. It never talks to UIKit, CoreText or Metal itself: the
//! code around it performs those calls and passes plain values in and out.
//!
//! Single-precision lengths are carried as bit patterns (see
//! [`geometry::Pixels`]), handles to Objective-C objects as addresses.

pub mod dispatcher;
pub mod display;
pub mod events;
pub mod font;
pub mod font_ids;
pub mod font_names;
pub mod foundation;
pub mod geometry;
pub mod glyphs;
pub mod keyboard;
pub mod line_layout;
pub mod platform;
pub mod text;
pub mod text_system;
pub mod vec_map;
pub mod view;
pub mod window;
