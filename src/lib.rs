//! Display-list patching and sprite position engine for an 8-bit sprite demo.
//!
//! `motion` turns frame counts and phase accumulators into a sprite offset,
//! `dlist` keeps the frame description and rewrites its addresses for that
//! offset, `hw` models the machine's registers and the colour band written
//! to them, `text` converts the scrolling text to screen codes, and `frame`
//! ties them together into the per-frame step.
pub mod dlist;
pub mod frame;
pub mod hw;
pub mod motion;
pub mod text;
