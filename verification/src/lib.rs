//! Presentation state of a terminal media-player client.
//!
//! The crate tracks which page, window and popup are on screen, where the
//! cursor of each list or table stands, which part of a composite window has
//! the focus, and which items a live search query lets through.

pub mod cursor;
pub mod focus;
pub mod page;
pub mod popup;
pub mod records;
pub mod search;
pub mod state;
pub mod window;
