//! Push source: macOS distributed notifications posted by Swinsian.

use vstd::prelude::*;
use crate::track::{SWINSIAN_TRACK_PAUSED, SWINSIAN_TRACK_PLAYING, SWINSIAN_TRACK_STOPPED};

verus! {

/// Observes Swinsian's distributed notifications and forwards each as a
/// track update.
pub struct NotificationSource;

/// The notification names observed, in registration order.
pub fn swinsian_notifications() -> (r: Vec<&'static str>)
    ensures
        r@.len() == 3,
        r@[0]@ == SWINSIAN_TRACK_PLAYING@,
        r@[1]@ == SWINSIAN_TRACK_STOPPED@,
        r@[2]@ == SWINSIAN_TRACK_PAUSED@,
{
    let mut names = Vec::new();
    names.push(SWINSIAN_TRACK_PLAYING);
    names.push(SWINSIAN_TRACK_STOPPED);
    names.push(SWINSIAN_TRACK_PAUSED);
    names
}

} // verus!
