//! Swinsian's notification vocabulary, for the menu-bar wrapper that reads
//! notifications itself.

use vstd::prelude::*;
use crate::track::{state_of_name, State as TrackState};

verus! {

/// Playback state named by a Swinsian notification.
#[derive(Debug, Clone, Copy, PartialEq, Eq, Structural)]
pub enum State {
    Playing,
    Stopped,
    Paused,
    Unknown,
}

/// The state a notification name stands for: the three Swinsian names, and
/// `Unknown` for anything else.
pub open spec fn swinsian_state_of(name: Seq<char>) -> State {
    match state_of_name(name) {
        TrackState::Playing => State::Playing,
        TrackState::Stopped => State::Stopped,
        TrackState::Paused => State::Paused,
        TrackState::Unknown => State::Unknown,
    }
}

impl State {
    pub fn from_name(name: &str) -> (r: State)
        ensures
            r == swinsian_state_of(name@),
    {
        match TrackState::from_name(name) {
            TrackState::Playing => State::Playing,
            TrackState::Stopped => State::Stopped,
            TrackState::Paused => State::Paused,
            TrackState::Unknown => State::Unknown,
        }
    }
}

impl<'a> From<&'a str> for State {
    fn from(name: &'a str) -> (r: State) {
        State::from_name(name)
    }
}

impl<'a> vstd::std_specs::convert::FromSpecImpl<&'a str> for State {
    open spec fn obeys_from_spec() -> bool {
        true
    }

    open spec fn from_spec(name: &'a str) -> State {
        swinsian_state_of(name@)
    }
}

} // verus!
