//! A status-bar line for a media player.
//!
//! The library holds the logic of a small polling program: it renders the
//! currently playing track as a Polybar-formatted line, decides from the
//! playback status whether track metadata is needed at all, reduces the
//! player's dynamically typed metadata entries to artist and title, and
//! carries the last rendered line across ticks of a display loop together
//! with the sleep interval. The bus I/O, the timers and the printing live
//! outside the library; everything here is pure and verified.

pub mod display;
pub mod fetch;
pub mod render;
