//! Logic of a small board demo: it greets, shows a mascot image centered on
//! the LCD, and, when an SD card with a raw-frame video file is present,
//! plays the video; otherwise it reports the missing card.  The drawing and
//! card access themselves are hardware work and live outside this crate;
//! here stand the screen layout, the color codes, the playback schedule and
//! the control flow that drives them, each with its contract.

pub mod demo;
pub mod display;
pub mod geometry;
pub mod video;
