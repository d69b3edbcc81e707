//! Core logic of a key-press overlay: turning key identities into short
//! display glyphs, keeping the rolling text that the overlay shows, and
//! handing snapshots of it from the key listener to the render loop.

pub mod text;
pub mod buffer;
pub mod keys;
pub mod relay;
