//! Verified core of a Discord rich-presence bridge for the Swinsian music
//! player: playback state, presence scheduling, IPC framing and artwork
//! lookup decisions.

pub mod albumart;
pub mod artwork;
pub mod direct;
pub mod ipc;
pub mod json;
pub mod latest;
pub mod logging;
pub mod playback;
pub mod source;
pub mod swinsian;
pub mod text;
pub mod track;
pub mod transport;
pub mod worker;
