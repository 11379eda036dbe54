//! A grapheme-aware string truncator and marquee scroller.
//!
//! Lines longer than a configured number of grapheme clusters are either cut
//! at a cluster boundary (with a tail marker appended) or animated by rotating
//! their cluster sequence one cluster per tick.

pub mod graphemes;
pub mod rotate;
pub mod session;
pub mod truncate;
