//! Playback state and the effects it schedules. No network access and no
//! reads of a clock: every time is handed in.
//!
//! Monotonic times and delays are nanoseconds; playback timestamps are Unix
//! seconds.

use vstd::prelude::*;
use crate::text::{opt_str, opt_string, str_eq};
use crate::track::{State, TrackInfo, TrackUpdate};

verus! {

/// First delay before artwork is looked up again after none was found.
pub const ART_RETRY_INITIAL_NS: u64 = 30_000_000_000;

/// Longest delay between artwork lookups.
pub const ART_RETRY_MAX_NS: u64 = 300_000_000_000;

/// Work for the artwork worker: find the cover for `track`'s album.
#[derive(Debug)]
pub struct ArtworkRequest {
    pub generation: u64,
    pub track: TrackInfo,
}

/// The artwork worker's answer for the request with the same generation.
#[derive(Debug)]
pub struct ArtworkResult {
    pub generation: u64,
    pub cover: Option<String>,
}

/// When the track started and, if its duration is known, when it ends
/// (Unix seconds).
#[derive(Clone, Copy, Debug, PartialEq, Eq, Structural)]
pub struct Anchor {
    pub start: i64,
    pub end: Option<i64>,
}

/// What the presence worker shows.
#[derive(Debug)]
pub struct Presence<'a> {
    pub track: &'a TrackInfo,
    pub cover: Option<&'a str>,
    pub anchor: Option<Anchor>,
}

/// The abstract value of a [`Presence`]: the track, the cover's text and
/// the anchor.
pub struct PresenceView {
    pub track: TrackInfo,
    pub cover: Option<Seq<char>>,
    pub anchor: Option<Anchor>,
}

/// The view of a presence.
pub open spec fn presence_view<'a>(p: Presence<'a>) -> PresenceView {
    PresenceView { track: *p.track, cover: opt_str(p.cover), anchor: p.anchor }
}

/// The view of an optional presence.
pub open spec fn opt_presence_view<'a>(p: Option<Presence<'a>>) -> Option<PresenceView> {
    match p {
        Some(p) => Some(presence_view(p)),
        None => None,
    }
}

/// The playback state machine.
pub struct Playback {
    current: Option<TrackInfo>,
    last_state: State,
    cover: Option<String>,
    anchor: Option<Anchor>,
    paused_at: Option<i64>,
    generation: u64,
    retry_at: Option<u64>,
    retry_delay: Option<u64>,
}

/// The abstract state of a [`Playback`].
pub struct PlaybackView {
    pub current: Option<TrackInfo>,
    pub last_state: State,
    pub cover: Option<Seq<char>>,
    pub anchor: Option<Anchor>,
    pub paused_at: Option<i64>,
    pub generation: u64,
    pub retry_at: Option<u64>,
    pub retry_delay: Option<u64>,
}

impl View for Playback {
    type V = PlaybackView;

    closed spec fn view(&self) -> PlaybackView {
        PlaybackView {
            current: self.current,
            last_state: self.last_state,
            cover: opt_string(self.cover),
            anchor: self.anchor,
            paused_at: self.paused_at,
            generation: self.generation,
            retry_at: self.retry_at,
            retry_delay: self.retry_delay,
        }
    }
}

/// A playback that has seen nothing: no track, state `Unknown`, generation
/// 0, nothing scheduled.
pub open spec fn initial_view() -> PlaybackView {
    PlaybackView {
        current: None,
        last_state: State::Unknown,
        cover: None,
        anchor: None,
        paused_at: None,
        generation: 0,
        retry_at: None,
        retry_delay: None,
    }
}

/// The generation after `g`, wrapping to 0 after `u64::MAX`.
pub open spec fn next_generation(g: u64) -> u64 {
    if g == u64::MAX {
        0
    } else {
        (g + 1) as u64
    }
}

/// Whether `incoming` is the track already current: same artist, album and
/// title.
pub open spec fn is_same_track(current: Option<TrackInfo>, incoming: TrackInfo) -> bool {
    match current {
        Some(c) => c.artist@ == incoming.artist@ && c.album@ == incoming.album@ && c.title@
            == incoming.title@,
        None => false,
    }
}

/// Whether `incoming` belongs to another album than the current track: no
/// current track, or a different album name or artist.
pub open spec fn is_other_album(current: Option<TrackInfo>, incoming: TrackInfo) -> bool {
    match current {
        Some(c) => c.album@ != incoming.album@ || c.artist@ != incoming.artist@,
        None => true,
    }
}

/// The anchor for a track observed at `observed_at` with `pos` seconds
/// played and `dur` seconds long.
pub open spec fn anchor_of(pos: i64, dur: Option<i64>, observed_at: i64) -> Anchor {
    let start = observed_at - pos;
    Anchor {
        start: start as i64,
        end: match dur {
            Some(d) => Some((start + d) as i64),
            None => None,
        },
    }
}

/// Whether [`anchor_of`] stays within `i64`.
pub open spec fn anchor_fits(pos: i64, dur: Option<i64>, observed_at: i64) -> bool {
    let start = observed_at - pos;
    &&& i64::MIN <= start <= i64::MAX
    &&& (dur matches Some(d) ==> i64::MIN <= start + d <= i64::MAX)
}

/// `a` moved later by `pause` seconds.
pub open spec fn shifted(a: Anchor, pause: int) -> Anchor {
    Anchor {
        start: (a.start + pause) as i64,
        end: match a.end {
            Some(e) => Some((e + pause) as i64),
            None => None,
        },
    }
}

/// The time spent paused, from `paused_at` to `resumed_at`, never negative.
pub open spec fn pause_length(paused_at: i64, resumed_at: i64) -> int {
    if resumed_at - paused_at > 0 {
        resumed_at - paused_at
    } else {
        0
    }
}

impl PlaybackView {
    /// Whether a new track for `u` starts a new artwork generation.
    pub open spec fn starts_album(self, u: TrackUpdate) -> bool {
        &&& (u.state == State::Playing || u.state == State::Paused)
        &&& !is_same_track(self.current, u.track)
        &&& is_other_album(self.current, u.track)
    }

    /// The state after the track bookkeeping of a playing or paused update,
    /// before its position is taken into account.
    pub open spec fn with_track(self, u: TrackUpdate) -> PlaybackView {
        if is_same_track(self.current, u.track) {
            PlaybackView { last_state: u.state, ..self }
        } else if is_other_album(self.current, u.track) {
            PlaybackView {
                current: Some(u.track),
                last_state: u.state,
                cover: None,
                anchor: None,
                paused_at: None,
                generation: next_generation(self.generation),
                retry_at: None,
                retry_delay: None,
            }
        } else {
            PlaybackView {
                current: Some(u.track),
                last_state: u.state,
                anchor: None,
                paused_at: None,
                ..self
            }
        }
    }

    /// Whether the arithmetic of `apply(u)` stays within `i64`.
    pub open spec fn apply_fits(self, u: TrackUpdate) -> bool {
        let t = self.with_track(u);
        match u.state {
            State::Playing | State::Paused => match u.track.position {
                Some(pos) => anchor_fits(pos, u.track.duration, u.observed_at),
                None => {
                    (u.state == State::Playing && self.last_state == State::Paused) ==> match (
                        t.paused_at,
                        t.anchor,
                    ) {
                        (Some(p), Some(a)) => {
                            let pause = pause_length(p, u.observed_at);
                            &&& i64::MIN <= u.observed_at - p <= i64::MAX
                            &&& a.start + pause <= i64::MAX
                            &&& (a.end matches Some(e) ==> e + pause <= i64::MAX)
                        },
                        _ => true,
                    }
                },
            },
            _ => true,
        }
    }

    /// The state after the observation `u`.
    pub open spec fn applied(self, u: TrackUpdate) -> PlaybackView {
        match u.state {
            State::Stopped | State::Unknown => PlaybackView {
                current: None,
                last_state: u.state,
                cover: None,
                anchor: None,
                paused_at: None,
                generation: next_generation(self.generation),
                retry_at: None,
                retry_delay: None,
            },
            _ => {
                let t = self.with_track(u);
                match u.track.position {
                    Some(pos) => PlaybackView {
                        anchor: Some(anchor_of(pos, u.track.duration, u.observed_at)),
                        paused_at: if u.state == State::Paused {
                            Some(u.observed_at)
                        } else {
                            None
                        },
                        ..t
                    },
                    None => if u.state == State::Paused {
                        PlaybackView {
                            paused_at: if t.paused_at is Some {
                                t.paused_at
                            } else {
                                Some(u.observed_at)
                            },
                            ..t
                        }
                    } else if self.last_state == State::Paused {
                        PlaybackView {
                            paused_at: None,
                            anchor: match (t.paused_at, t.anchor) {
                                (Some(p), Some(a)) => Some(
                                    shifted(a, pause_length(p, u.observed_at)),
                                ),
                                _ => t.anchor,
                            },
                            ..t
                        }
                    } else {
                        t
                    },
                }
            },
        }
    }

    /// Whether an artwork result is for the current album: there is a current
    /// track and the result carries the current generation.
    pub open spec fn accepts(self, result_generation: u64) -> bool {
        self.current is Some && result_generation == self.generation
    }

    /// The delay that a failed lookup would wait before its retry.
    pub open spec fn pending_delay(self) -> u64 {
        match self.retry_delay {
            Some(d) => d,
            None => ART_RETRY_INITIAL_NS,
        }
    }

    /// The state after an artwork result for `generation` with `cover`
    /// arrives at `now`.
    pub open spec fn with_artwork(
        self,
        generation: u64,
        cover: Option<Seq<char>>,
        now: u64,
    ) -> PlaybackView {
        if !self.accepts(generation) {
            self
        } else if cover is Some {
            PlaybackView { cover, retry_at: None, retry_delay: None, ..self }
        } else {
            let delay = self.pending_delay();
            PlaybackView {
                cover,
                retry_at: Some((now + delay) as u64),
                retry_delay: Some(
                    if 2 * delay <= ART_RETRY_MAX_NS {
                        (2 * delay) as u64
                    } else {
                        ART_RETRY_MAX_NS
                    },
                ),
                ..self
            }
        }
    }

    /// Whether a retry is due at `now`: playing, and a retry scheduled no
    /// later than `now`.
    pub open spec fn retry_due(self, now: u64) -> bool {
        self.last_state == State::Playing && (self.retry_at matches Some(at) && now >= at)
    }

    /// Whether a presence is shown: enabled, playing, and a current track.
    pub open spec fn shows(self, enabled: bool) -> bool {
        enabled && self.last_state == State::Playing && self.current is Some
    }

    /// What is shown: the current track with the cover and the anchor, when
    /// [`PlaybackView::shows`] holds.
    pub open spec fn shown_presence(self, enabled: bool) -> Option<PresenceView> {
        if self.shows(enabled) {
            Some(PresenceView { track: self.current->0, cover: self.cover, anchor: self.anchor })
        } else {
            None
        }
    }

    /// The delay bound that every reachable state keeps.
    pub open spec fn delay_bounded(self) -> bool {
        self.retry_delay matches Some(d) ==> d <= ART_RETRY_MAX_NS
    }
}

fn same_track(current: Option<&TrackInfo>, incoming: &TrackInfo) -> (r: bool)
    ensures
        r == is_same_track(
            match current {
                Some(c) => Some(*c),
                None => None,
            },
            *incoming,
        ),
{
    match current {
        Some(c) => str_eq(c.artist.as_str(), incoming.artist.as_str()) && str_eq(
            c.album.as_str(),
            incoming.album.as_str(),
        ) && str_eq(c.title.as_str(), incoming.title.as_str()),
        None => false,
    }
}

fn album_differs(current: Option<&TrackInfo>, incoming: &TrackInfo) -> (r: bool)
    ensures
        r == is_other_album(
            match current {
                Some(c) => Some(*c),
                None => None,
            },
            *incoming,
        ),
{
    match current {
        Some(c) => !str_eq(c.album.as_str(), incoming.album.as_str()) || !str_eq(
            c.artist.as_str(),
            incoming.artist.as_str(),
        ),
        None => true,
    }
}

/// The anchor for a track observed at `observed_at` (Unix seconds) with
/// `pos` seconds played and `dur` seconds long.
pub fn progress_anchor(pos: i64, dur: Option<i64>, observed_at: i64) -> (r: Anchor)
    requires
        anchor_fits(pos, dur, observed_at),
    ensures
        r == anchor_of(pos, dur, observed_at),
{
    let start = observed_at - pos;
    Anchor {
        start,
        end: match dur {
            Some(d) => Some(start + d),
            None => None,
        },
    }
}

impl Playback {
    #[verifier::type_invariant]
    spec fn inv(self) -> bool {
        self.retry_delay matches Some(d) ==> d <= ART_RETRY_MAX_NS
    }

    /// No track, state `Unknown`, generation 0, nothing scheduled.
    pub fn new() -> (r: Playback)
        ensures
            r@ == initial_view(),
    {
        Playback {
            current: None,
            last_state: State::Unknown,
            cover: None,
            anchor: None,
            paused_at: None,
            generation: 0,
            retry_at: None,
            retry_delay: None,
        }
    }

    /// Applies an observation at once. Returns a request for artwork only
    /// when the track belongs to another album than the current one.
    pub fn apply(&mut self, update: TrackUpdate) -> (r: Option<ArtworkRequest>)
        requires
            old(self)@.apply_fits(update),
        ensures
            final(self)@ == old(self)@.applied(update),
            final(self)@.delay_bounded(),
            r is Some <==> old(self)@.starts_album(update),
            r matches Some(req) ==> req.generation == final(self)@.generation && req.track
                == update.track,
    {
        proof {
            use_type_invariant(&*self);
        }
        let TrackUpdate { state, track, observed_at } = update;
        let previous_state = self.last_state;
        self.last_state = state;
        match state {
            State::Stopped | State::Unknown => {
                self.generation = if self.generation == u64::MAX {
                    0
                } else {
                    self.generation + 1
                };
                self.retry_at = None;
                self.retry_delay = None;
                self.current = None;
                self.cover = None;
                self.anchor = None;
                self.paused_at = None;
                None
            },
            State::Playing | State::Paused => {
                let position = track.position;
                let duration = track.duration;
                let mut request = None;
                if !same_track(self.current.as_ref(), &track) {
                    if album_differs(self.current.as_ref(), &track) {
                        self.retry_at = None;
                        self.retry_delay = None;
                        self.generation = if self.generation == u64::MAX {
                            0
                        } else {
                            self.generation + 1
                        };
                        self.cover = None;
                        request = Some(
                            ArtworkRequest { generation: self.generation, track: track.clone() },
                        );
                    }
                    self.anchor = None;
                    self.paused_at = None;
                    self.current = Some(track);
                }
                if let Some(pos) = position {
                    self.anchor = Some(progress_anchor(pos, duration, observed_at));
                    self.paused_at = if state == State::Paused {
                        Some(observed_at)
                    } else {
                        None
                    };
                } else if state == State::Paused {
                    if self.paused_at.is_none() {
                        self.paused_at = Some(observed_at);
                    }
                } else if previous_state == State::Paused {
                    let paused = self.paused_at;
                    self.paused_at = None;
                    if let (Some(paused_at), Some(anchor)) = (paused, self.anchor) {
                        let elapsed = observed_at - paused_at;
                        let pause = if elapsed > 0 {
                            elapsed
                        } else {
                            0
                        };
                        self.anchor = Some(
                            Anchor {
                                start: anchor.start + pause,
                                end: match anchor.end {
                                    Some(end) => Some(end + pause),
                                    None => None,
                                },
                            },
                        );
                    }
                }
                request
            },
        }
    }

    /// Whether [`Playback::apply`] can take `update` without leaving the
    /// range of `i64`.
    pub fn can_apply(&self, update: &TrackUpdate) -> (r: bool)
        ensures
            r == self@.apply_fits(*update),
    {
        let state = update.state;
        if state == State::Stopped || state == State::Unknown {
            return true;
        }
        let at = update.observed_at as i128;
        match update.track.position {
            Some(pos) => {
                let start = at - pos as i128;
                if start < i64::MIN as i128 || start > i64::MAX as i128 {
                    return false;
                }
                match update.track.duration {
                    Some(d) => {
                        let end = start + d as i128;
                        i64::MIN as i128 <= end && end <= i64::MAX as i128
                    },
                    None => true,
                }
            },
            None => {
                if !(state == State::Playing && self.last_state == State::Paused) {
                    return true;
                }
                let same = same_track(self.current.as_ref(), &update.track);
                if !same {
                    return true;
                }
                match (self.paused_at, self.anchor) {
                    (Some(p), Some(a)) => {
                        let elapsed = at - p as i128;
                        if elapsed < i64::MIN as i128 || elapsed > i64::MAX as i128 {
                            return false;
                        }
                        let pause = if elapsed > 0 {
                            elapsed
                        } else {
                            0
                        };
                        if a.start as i128 + pause > i64::MAX as i128 {
                            return false;
                        }
                        match a.end {
                            Some(e) => e as i128 + pause <= i64::MAX as i128,
                            None => true,
                        }
                    },
                    _ => true,
                }
            },
        }
    }

    /// Accepts artwork for the current album. Results stay valid across songs
    /// of one album but cannot replace a later album (a return to this album
    /// included) nor revive stopped playback. A missing cover schedules a
    /// retry, with a delay that doubles up to [`ART_RETRY_MAX_NS`].
    pub fn accept_artwork(&mut self, result: ArtworkResult, now: u64)
        requires
            old(self)@.accepts(result.generation) && result.cover is None ==> now
                + old(self)@.pending_delay() <= u64::MAX,
        ensures
            final(self)@ == old(self)@.with_artwork(result.generation, opt_string(result.cover), now),
            final(self)@.delay_bounded(),
    {
        proof {
            use_type_invariant(&*self);
        }
        if self.current.is_some() && result.generation == self.generation {
            self.cover = result.cover;
            if self.cover.is_none() {
                let delay = match self.retry_delay {
                    Some(d) => d,
                    None => ART_RETRY_INITIAL_NS,
                };
                self.retry_at = Some(now + delay);
                self.retry_delay = Some(
                    if delay * 2 <= ART_RETRY_MAX_NS {
                        delay * 2
                    } else {
                        ART_RETRY_MAX_NS
                    },
                );
            } else {
                self.retry_at = None;
                self.retry_delay = None;
            }
        }
    }

    /// Looks the artwork up again without a track change once the scheduled
    /// retry is due. The schedule is cleared so that a lookup in flight is not
    /// duplicated.
    pub fn retry_artwork(&mut self, now: u64) -> (r: Option<ArtworkRequest>)
        ensures
            !old(self)@.retry_due(now) ==> r is None && final(self)@ == old(self)@,
            old(self)@.retry_due(now) ==> final(self)@ == (PlaybackView {
                retry_at: None,
                ..old(self)@
            }),
            r is Some <==> old(self)@.retry_due(now) && old(self)@.current is Some,
            r matches Some(req) ==> req.generation == old(self)@.generation && Some(req.track)
                == old(self)@.current,
            final(self)@.delay_bounded(),
    {
        proof {
            use_type_invariant(&*self);
        }
        let due = match self.retry_at {
            Some(at) => now >= at,
            None => false,
        };
        if self.last_state != State::Playing || !due {
            return None;
        }
        self.retry_at = None;
        match &self.current {
            Some(track) => Some(ArtworkRequest { generation: self.generation, track: track.clone() }),
            None => None,
        }
    }

    /// The presence to show: `None` when disabled, not playing, or without a
    /// track.
    pub fn presence(&self, enabled: bool) -> (r: Option<Presence<'_>>)
        ensures
            opt_presence_view(r) == self@.shown_presence(enabled),
    {
        if !enabled || self.last_state != State::Playing {
            return None;
        }
        match &self.current {
            Some(track) => Some(Presence { track, cover: self.cover(), anchor: self.anchor }),
            None => None,
        }
    }

    /// The cover found for the current album, if any.
    pub fn cover(&self) -> (r: Option<&str>)
        ensures
            opt_str(r) == self@.cover,
    {
        match &self.cover {
            Some(c) => Some(c.as_str()),
            None => None,
        }
    }
}

impl Default for Playback {
    fn default() -> (r: Playback)
        ensures
            r@ == initial_view(),
    {
        Playback::new()
    }
}

} // verus!

verus! {

/// Stopping (or an unknown state) forgets the track: nothing is shown, no
/// retry is pending, and no artwork result, in flight or later, is taken.
pub proof fn law_stop_forgets_track(
    v: PlaybackView,
    u: TrackUpdate,
    enabled: bool,
    generation: u64,
    cover: Option<Seq<char>>,
    now: u64,
)
    requires
        u.state == State::Stopped || u.state == State::Unknown,
    ensures
        !v.applied(u).shows(enabled),
        !v.applied(u).retry_due(now),
        v.applied(u).with_artwork(generation, cover, now) == v.applied(u),
{
}

/// An artwork result for any other generation than the current one changes
/// nothing.
pub proof fn law_stale_artwork_is_ignored(
    v: PlaybackView,
    generation: u64,
    cover: Option<Seq<char>>,
    now: u64,
)
    requires
        generation != v.generation,
    ensures
        v.with_artwork(generation, cover, now) == v,
{
}

/// A track of another album starts a new generation: the cover is
/// dropped, and a result for the generation before is rejected, even if
/// playback later returns to that album.
pub proof fn law_new_album_rejects_older_artwork(
    v: PlaybackView,
    u: TrackUpdate,
    cover: Option<Seq<char>>,
    now: u64,
    later: u64,
)
    requires
        v.starts_album(u),
    ensures
        v.applied(u).current == Some(u.track),
        v.applied(u).generation == next_generation(v.generation),
        v.applied(u).generation != v.generation,
        v.applied(u).cover is None,
        v.applied(u).retry_at is None,
        v.applied(u).retry_delay is None,
        !v.applied(u).retry_due(later),
        v.applied(u).with_artwork(v.generation, cover, now) == v.applied(u),
{
}

/// A playing or paused update asks for artwork exactly when there is no
/// current track, or its artist or album differs from the current one.
pub proof fn law_artwork_is_requested_for_another_album(v: PlaybackView, u: TrackUpdate)
    requires
        u.state == State::Playing || u.state == State::Paused,
    ensures
        v.starts_album(u) <==> (v.current is None || v.current->0.artist@ != u.track.artist@
            || v.current->0.album@ != u.track.album@),
{
}

/// Another song of the same album (same album name and artist) asks for no
/// artwork and keeps the cover, the generation and the retry schedule, so a
/// lookup in flight is accepted for the new song.
pub proof fn law_same_album_keeps_artwork(v: PlaybackView, u: TrackUpdate)
    requires
        u.state == State::Playing || u.state == State::Paused,
        v.current matches Some(c) && c.album@ == u.track.album@ && c.artist@ == u.track.artist@,
    ensures
        !v.starts_album(u),
        v.applied(u).cover == v.cover,
        v.applied(u).generation == v.generation,
        v.applied(u).retry_at == v.retry_at,
        v.applied(u).retry_delay == v.retry_delay,
        v.applied(u).current matches Some(c) && c.title@ == u.track.title@ && c.artist@
            == u.track.artist@ && c.album@ == u.track.album@,
        v.applied(u).last_state == u.state,
{
}

/// A playing or paused update for another track (not the same artist,
/// album and title) that reports no position leaves no progress bar: the
/// old track's anchor never carries over to another song, on the same
/// album or not, and the presence shows no progress until a position
/// arrives.
pub proof fn law_new_track_drops_the_anchor(v: PlaybackView, u: TrackUpdate, enabled: bool)
    requires
        u.state == State::Playing || u.state == State::Paused,
        u.track.position is None,
        !(v.current is Some && v.current->0.artist@ == u.track.artist@ && v.current->0.album@
            == u.track.album@ && v.current->0.title@ == u.track.title@),
    ensures
        v.applied(u).anchor is None,
        v.applied(u).current == Some(u.track),
        v.applied(u).shown_presence(enabled) matches Some(p) ==> p.anchor is None,
{
}

/// A playing or paused update for another track that reports a position
/// anchors the progress at that position, observed when the update was:
/// the start is `observed_at - position`, and the end follows the duration.
pub proof fn law_new_track_anchors_at_its_position(v: PlaybackView, u: TrackUpdate)
    requires
        u.state == State::Playing || u.state == State::Paused,
        u.track.position is Some,
        v.apply_fits(u),
    ensures
        v.applied(u).anchor matches Some(a) && a.start == u.observed_at - u.track.position->0
            && (u.track.duration matches Some(d) ==> a.end == Some(
            (u.observed_at - u.track.position->0 + d) as i64,
        )) && (u.track.duration is None ==> a.end is None),
{
}

/// A missing cover schedules a retry after the pending delay (30 s at
/// first); each further miss doubles the delay up to 300 s.
pub proof fn law_missing_cover_backs_off(v: PlaybackView, now: u64)
    requires
        v.current is Some,
        v.delay_bounded(),
        now + v.pending_delay() <= u64::MAX,
    ensures
        v.with_artwork(v.generation, None, now).retry_at == Some((now + v.pending_delay()) as u64),
        v.with_artwork(v.generation, None, now).retry_delay == Some(
            if 2 * v.pending_delay() <= ART_RETRY_MAX_NS {
                (2 * v.pending_delay()) as u64
            } else {
                ART_RETRY_MAX_NS
            },
        ),
        v.with_artwork(v.generation, None, now).delay_bounded(),
        v.retry_delay is None ==> v.with_artwork(v.generation, None, now).retry_at == Some(
            (now + ART_RETRY_INITIAL_NS) as u64,
        ),
{
}

/// A found cover is shown and ends the retries.
pub proof fn law_found_cover_ends_retries(v: PlaybackView, cover: Seq<char>, now: u64, later: u64)
    requires
        v.current is Some,
    ensures
        v.with_artwork(v.generation, Some(cover), now).cover == Some(cover),
        !v.with_artwork(v.generation, Some(cover), now).retry_due(later),
{
}

/// A due retry fires once: the schedule it leaves behind is never due.
pub proof fn law_retry_fires_once(v: PlaybackView, now: u64, later: u64)
    requires
        v.retry_due(now),
    ensures
        !(PlaybackView { retry_at: None, ..v }).retry_due(later),
{
}

/// Artwork never moves the observed progress, the track or the state.
pub proof fn law_artwork_keeps_progress(
    v: PlaybackView,
    generation: u64,
    cover: Option<Seq<char>>,
    now: u64,
)
    ensures
        v.with_artwork(generation, cover, now).anchor == v.anchor,
        v.with_artwork(generation, cover, now).paused_at == v.paused_at,
        v.with_artwork(generation, cover, now).current == v.current,
        v.with_artwork(generation, cover, now).last_state == v.last_state,
        v.with_artwork(generation, cover, now).generation == v.generation,
{
}

/// A reported position anchors the progress at the time of the
/// observation, however late the update is processed.
pub proof fn law_position_anchors_progress(v: PlaybackView, u: TrackUpdate)
    requires
        u.state == State::Playing || u.state == State::Paused,
        u.track.position is Some,
    ensures
        v.applied(u).anchor == Some(
            anchor_of(u.track.position->0, u.track.duration, u.observed_at),
        ),
        v.applied(u).paused_at == if u.state == State::Paused {
            Some(u.observed_at)
        } else {
            None
        },
{
}

/// Resuming the same track without a position moves the anchor by the time
/// spent paused, so paused time does not count as progress.
pub proof fn law_resume_excludes_paused_time(v: PlaybackView, u: TrackUpdate, p: i64, a: Anchor)
    requires
        v.last_state == State::Paused,
        u.state == State::Playing,
        u.track.position is None,
        is_same_track(v.current, u.track),
        v.paused_at == Some(p),
        v.anchor == Some(a),
    ensures
        v.applied(u).anchor == Some(shifted(a, pause_length(p, u.observed_at))),
        v.applied(u).paused_at is None,
{
}

/// A playing update for the same track without a position keeps the anchor
/// and asks for no artwork.
pub proof fn law_positionless_update_keeps_anchor(v: PlaybackView, u: TrackUpdate)
    requires
        v.last_state == State::Playing,
        u.state == State::Playing,
        u.track.position is None,
        is_same_track(v.current, u.track),
    ensures
        v.applied(u).anchor == v.anchor,
        !v.starts_album(u),
{
}

/// Only a playing track is shown: after a pause nothing is shown, enabled
/// or not, and a disabled presence shows nothing while playback is kept.
pub proof fn law_only_playing_is_shown(v: PlaybackView, u: TrackUpdate, enabled: bool)
    requires
        u.state == State::Paused,
    ensures
        !v.applied(u).shows(enabled),
        !v.shows(false),
{
}

/// Artwork for an album is rejected after switching to another album and
/// back: each switch starts a generation of its own.
pub proof fn law_switching_back_rejects_old_artwork(
    v: PlaybackView,
    away: TrackUpdate,
    back: TrackUpdate,
    cover: Option<Seq<char>>,
    now: u64,
)
    requires
        v.starts_album(away),
        v.applied(away).starts_album(back),
    ensures
        v.applied(away).applied(back).with_artwork(v.generation, cover, now) == v.applied(
            away,
        ).applied(back),
        v.applied(away).with_artwork(v.generation, cover, now) == v.applied(away),
{
}

/// The state after `k` lookups in a row found no cover at `now`.
pub open spec fn after_misses(v: PlaybackView, k: nat, now: u64) -> PlaybackView
    decreases k,
{
    if k == 0 {
        v
    } else {
        after_misses(v, (k - 1) as nat, now).with_artwork(v.generation, None, now)
    }
}

/// The delay before the retry that follows the `k`-th miss in a row (counted
/// from 0): 30 s doubled `k` times, capped at 300 s.
pub open spec fn backoff_after(k: nat) -> int {
    let d = ART_RETRY_INITIAL_NS * vstd::arithmetic::power2::pow2(k);
    if d <= ART_RETRY_MAX_NS {
        d
    } else {
        ART_RETRY_MAX_NS as int
    }
}

/// Consecutive misses for the current album wait 30, 60, 120 and 240
/// seconds, and then 300 seconds each time.
pub proof fn law_backoff_doubles_to_five_minutes(v: PlaybackView, k: nat, now: u64)
    requires
        v.current is Some,
        v.retry_delay is None,
        now + ART_RETRY_MAX_NS <= u64::MAX,
    ensures
        after_misses(v, k, now).pending_delay() == backoff_after(k),
        after_misses(v, k, now).generation == v.generation,
        after_misses(v, k, now).current == v.current,
        after_misses(v, k, now).delay_bounded(),
        k > 0 ==> after_misses(v, k, now).retry_at == Some(
            (now + backoff_after((k - 1) as nat)) as u64,
        ),
    decreases k,
{
    if k == 0 {
        vstd::arithmetic::power2::lemma_pow2(0);
        vstd::arithmetic::power::lemma_pow0(2);
    } else {
        law_backoff_doubles_to_five_minutes(v, (k - 1) as nat, now);
        vstd::arithmetic::power2::lemma_pow2_unfold(k);
        vstd::arithmetic::power2::lemma_pow2_pos((k - 1) as nat);
    }
}

} // verus!
