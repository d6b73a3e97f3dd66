//! Pull source, polling Swinsian through a script (not yet wired in).

use vstd::prelude::*;

verus! {

/// The player state a poll reports.
#[derive(Debug, Clone, Copy, PartialEq, Eq, Structural)]
pub enum PlaybackState {
    Playing,
    Paused,
    Stopped,
    Unknown,
}

} // verus!
