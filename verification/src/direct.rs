//! A presence client that works on one thread: it looks artwork up inline
//! when the album changes and writes through a single Discord client,
//! throttled to one write per four whole seconds.

use vstd::prelude::*;
use crate::swinsian::State;
use crate::text::{opt_str, str_eq};
use crate::transport::FALLBACK_IMAGE;

verus! {

/// Longest text field, in characters.
pub const DIRECT_FIELD_MAX: usize = 128;

/// Whole seconds between two writes.
pub const DIRECT_THROTTLE_SECS: u64 = 4;

/// Nanoseconds in a second.
pub const NANOS_PER_SEC: u64 = 1_000_000_000;

/// Whether the presence was last set or cleared.
#[derive(Debug, Clone, Copy, PartialEq, Eq, Structural)]
pub enum PresenceState {
    Active,
    Cleared,
}

/// The first [`DIRECT_FIELD_MAX`] characters of `s`.
pub open spec fn cut(s: Seq<char>) -> Seq<char> {
    if s.len() > DIRECT_FIELD_MAX {
        s.take(DIRECT_FIELD_MAX as int)
    } else {
        s
    }
}

/// Whether the album changed between the last track and the current one:
/// a first track always counts as a change; no current track never does.
pub open spec fn album_changed_spec(last: Option<Seq<char>>, current: Option<Seq<char>>) -> bool {
    match (last, current) {
        (None, Some(_)) => true,
        (Some(l), Some(c)) => l != c,
        _ => false,
    }
}

/// Decides whether artwork must be looked up again (see
/// [`album_changed_spec`]); the arguments are the albums of the last and the
/// current track.
pub fn album_changed(last: Option<&str>, current: Option<&str>) -> (r: bool)
    ensures
        r == album_changed_spec(opt_str(last), opt_str(current)),
{
    match (last, current) {
        (None, Some(_)) => true,
        (Some(l), Some(c)) => !str_eq(l, c),
        _ => false,
    }
}

/// The text and image of an activity.
#[derive(Debug)]
pub struct DirectFields {
    /// The artist followed by a space, so that it never drops below the two
    /// characters Discord requires.
    pub state: String,
    pub details: String,
    pub large_text: String,
    pub large_image: String,
}

fn first_chars(s: &str) -> (r: String)
    ensures
        r@ == cut(s@),
{
    let n = s.unicode_len();
    let end = if n > DIRECT_FIELD_MAX {
        DIRECT_FIELD_MAX
    } else {
        n
    };
    let r = String::from_str(s.substring_char(0, end));
    assert(s@.subrange(0, end as int) =~= cut(s@));
    r
}

/// The fields for a track: the artist with a trailing space, title and album,
/// each cut to [`DIRECT_FIELD_MAX`] characters, and the cover or the fallback
/// image.
pub fn direct_fields(artist: &str, title: &str, album: &str, cover: Option<&str>) -> (r:
    DirectFields)
    ensures
        r.state@ == cut(artist@.push(' ')),
        r.details@ == cut(title@),
        r.large_text@ == cut(album@),
        r.large_image@ == match cover {
            Some(c) => c@,
            None => FALLBACK_IMAGE@,
        },
{
    let mut with_space = String::from_str(artist);
    with_space.append(" ");
    proof {
        reveal_strlit(" ");
        assert(with_space@ =~= artist@.push(' '));
    }
    DirectFields {
        state: first_chars(with_space.as_str()),
        details: first_chars(title),
        large_text: first_chars(album),
        large_image: match cover {
            Some(c) => String::from_str(c),
            None => String::from_str(FALLBACK_IMAGE),
        },
    }
}

/// What to do with the current track once an update has been taken in.
#[derive(Debug, Clone, Copy, PartialEq, Eq, Structural)]
pub enum DirectAction {
    /// Show the track.
    Update,
    /// Clear the presence.
    Clear,
}

/// A playing track is shown; every other state clears the presence.
pub fn direct_action(state: State) -> (r: DirectAction)
    ensures
        r == if state == State::Playing {
            DirectAction::Update
        } else {
            DirectAction::Clear
        },
{
    match state {
        State::Playing => DirectAction::Update,
        _ => DirectAction::Clear,
    }
}

/// The write schedule of the client (nanoseconds on a monotonic clock).
pub struct DirectSchedule {
    pub last_updated: u64,
    pub state: PresenceState,
}

/// Whether four whole seconds have passed since `last` at `now` (a clock
/// that reads earlier than `last` counts as no time passed).
pub open spec fn direct_due(last: u64, now: u64) -> bool {
    now >= last && (now - last) / (NANOS_PER_SEC as int) >= DIRECT_THROTTLE_SECS
}

impl DirectSchedule {
    /// A client that has just connected at `now` and shows nothing.
    pub fn new(now: u64) -> (r: DirectSchedule)
        ensures
            r.last_updated == now,
            r.state == PresenceState::Cleared,
    {
        DirectSchedule { last_updated: now, state: PresenceState::Cleared }
    }

    /// Whether an update may be written at `now`.
    pub fn update_due(&self, now: u64) -> (r: bool)
        ensures
            r == direct_due(self.last_updated, now),
    {
        now >= self.last_updated && (now - self.last_updated) / NANOS_PER_SEC >= DIRECT_THROTTLE_SECS
    }

    /// Records an update that was due at `now` (and written when `written`):
    /// a written update restarts the throttle; the presence counts as set
    /// either way.
    pub fn updated(&mut self, now: u64, written: bool)
        ensures
            final(self).last_updated == if written {
                now
            } else {
                old(self).last_updated
            },
            final(self).state == PresenceState::Active,
    {
        if written {
            self.last_updated = now;
        }
        self.state = PresenceState::Active;
    }

    /// Whether a clear must be written at `now`: the presence is set and the
    /// throttle allows a write.
    pub fn clear_due(&self, now: u64) -> (r: bool)
        ensures
            r == (self.state == PresenceState::Active && direct_due(self.last_updated, now)),
    {
        match self.state {
            PresenceState::Active => self.update_due(now),
            PresenceState::Cleared => false,
        }
    }

    /// Records a clear written at `now`: only a clear that succeeded
    /// restarts the throttle and leaves the presence cleared.
    pub fn cleared(&mut self, now: u64, written: bool)
        ensures
            written ==> final(self).last_updated == now && final(self).state
                == PresenceState::Cleared,
            !written ==> final(self).last_updated == old(self).last_updated && final(self).state
                == old(self).state,
    {
        if written {
            self.last_updated = now;
            self.state = PresenceState::Cleared;
        }
    }
}

/// Writes are at least four seconds apart: after a write at `last`, no
/// write is due before four seconds after `last`, and one is due from then
/// on.
pub proof fn law_writes_are_spaced(last: u64, now: u64)
    ensures
        direct_due(last, now) <==> now >= last + DIRECT_THROTTLE_SECS * NANOS_PER_SEC,
{
    if now >= last {
        let d: int = now - last;
        assert((d / 1_000_000_000 >= 4) <==> (d >= 4_000_000_000)) by (nonlinear_arith)
            requires
                d >= 0,
        ;
    }
}

} // verus!
