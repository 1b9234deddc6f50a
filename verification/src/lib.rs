//! Lifecycle management of ephemeral voice channels.
//!
//! A user who joins the lobby channel gets a fresh voice channel of their
//! own. The library tracks who occupies each channel it had created and asks
//! for a channel's deletion once its last occupant has left. It performs no
//! I/O: it turns membership events and the outcomes of platform calls into
//! directory updates and a list of platform calls to make next.

pub mod commands;
pub mod directory;
pub mod driver;
pub mod laws;
pub mod names;
pub mod reconciler;
