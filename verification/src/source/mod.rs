//! Track sources: producers of timestamped playback observations. Sources
//! observe the player on the main thread and queue updates for the presence
//! worker.

pub mod applescript;
pub mod notification;
pub mod workspace;
