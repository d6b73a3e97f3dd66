//! Domain types shared between track sources and the presence worker.

use vstd::prelude::*;
use crate::text::str_eq;

verus! {

/// Distributed-notification name Swinsian posts when playback starts.
pub const SWINSIAN_TRACK_PLAYING: &'static str = "com.swinsian.Swinsian-Track-Playing";

/// Distributed-notification name Swinsian posts when playback stops.
pub const SWINSIAN_TRACK_STOPPED: &'static str = "com.swinsian.Swinsian-Track-Stopped";

/// Distributed-notification name Swinsian posts when playback pauses.
pub const SWINSIAN_TRACK_PAUSED: &'static str = "com.swinsian.Swinsian-Track-Paused";

/// Playback state derived from a Swinsian notification name.
#[derive(Debug, Clone, Copy, PartialEq, Eq, Structural)]
pub enum State {
    Playing,
    Stopped,
    Paused,
    Unknown,
}

/// The state a notification name stands for.
pub open spec fn state_of_name(name: Seq<char>) -> State {
    if name == SWINSIAN_TRACK_PLAYING@ {
        State::Playing
    } else if name == SWINSIAN_TRACK_STOPPED@ {
        State::Stopped
    } else if name == SWINSIAN_TRACK_PAUSED@ {
        State::Paused
    } else {
        State::Unknown
    }
}

impl State {
    /// The state named by a Swinsian notification; any other name is
    /// `Unknown`.
    pub fn from_name(name: &str) -> (r: State)
        ensures
            r == state_of_name(name@),
    {
        if str_eq(name, SWINSIAN_TRACK_PLAYING) {
            State::Playing
        } else if str_eq(name, SWINSIAN_TRACK_STOPPED) {
            State::Stopped
        } else if str_eq(name, SWINSIAN_TRACK_PAUSED) {
            State::Paused
        } else {
            State::Unknown
        }
    }
}

impl Default for State {
    fn default() -> (r: State)
        ensures
            r == State::Unknown,
    {
        State::Unknown
    }
}

impl<'a> From<&'a str> for State {
    fn from(name: &'a str) -> (r: State) {
        State::from_name(name)
    }
}

impl<'a> vstd::std_specs::convert::FromSpecImpl<&'a str> for State {
    open spec fn obeys_from_spec() -> bool {
        true
    }

    open spec fn from_spec(name: &'a str) -> State {
        state_of_name(name@)
    }
}

} // verus!

verus! {

/// Metadata for the current track.
///
/// `position` and `duration` are whole seconds (the fractional part of the
/// player's report truncated toward zero); they drive the progress bar when
/// present.
#[derive(Debug, Default, PartialEq)]
pub struct TrackInfo {
    pub artist: String,
    pub album: String,
    pub title: String,
    pub file_type: Option<String>,
    pub position: Option<i64>,
    pub duration: Option<i64>,
}

impl Clone for TrackInfo {
    fn clone(&self) -> (r: TrackInfo)
        ensures
            r == *self,
    {
        let file_type = match &self.file_type {
            Some(f) => Some(f.clone()),
            None => None,
        };
        TrackInfo {
            artist: self.artist.clone(),
            album: self.album.clone(),
            title: self.title.clone(),
            file_type,
            position: self.position,
            duration: self.duration,
        }
    }
}

/// A source observation, timestamped (Unix seconds) before it is queued.
#[derive(Debug, Clone)]
pub struct TrackUpdate {
    pub state: State,
    pub track: TrackInfo,
    pub observed_at: i64,
}

/// The wall clock as a `SystemTime` (`std::time::SystemTime::now`). Nothing is
/// promised of the value: it is read from the machine's clock.
#[verifier::external_body]
fn system_time_now() -> std::time::SystemTime {
    std::time::SystemTime::now()
}

/// The time from the Unix epoch to `t` (`SystemTime::duration_since` with
/// `UNIX_EPOCH`); `None` when `t` lies before the epoch. Both values are
/// opaque here, so nothing more is stated.
#[verifier::external_body]
fn duration_since_epoch(t: &std::time::SystemTime) -> Option<std::time::Duration> {
    match t.duration_since(std::time::UNIX_EPOCH) {
        Ok(elapsed) => Some(elapsed),
        Err(_) => None,
    }
}

/// The whole seconds of `d` (`Duration::as_secs`). `d` is opaque here, so
/// nothing is stated of the value.
#[verifier::external_body]
fn whole_seconds(d: &std::time::Duration) -> u64 {
    d.as_secs()
}

#[verifier::external_type_specification]
#[verifier::external_body]
pub struct ExSystemTime(std::time::SystemTime);

/// Unix seconds for an elapsed-time reading: the seconds reinterpreted as
/// `i64`, or 0 when the clock was before the epoch.
pub open spec fn unix_seconds_of(elapsed: Option<u64>) -> i64 {
    match elapsed {
        Some(s) => s as i64,
        None => 0,
    }
}

/// The timestamp for a reading of the clock (see [`unix_seconds_of`]).
pub fn unix_seconds(elapsed: Option<u64>) -> (r: i64)
    ensures
        r == unix_seconds_of(elapsed),
{
    match elapsed {
        Some(s) => s as i64,
        None => 0,
    }
}

/// The current Unix time in seconds, or 0 if the clock reads before 1970.
pub fn unix_now() -> i64 {
    let now = system_time_now();
    let elapsed = match duration_since_epoch(&now) {
        Some(d) => Some(whole_seconds(&d)),
        None => None,
    };
    unix_seconds(elapsed)
}

} // verus!
