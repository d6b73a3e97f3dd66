//! One round of the presence worker: take in the newest observation and
//! artwork result, schedule artwork work, and bring Discord in step. Waiting
//! for the next event, and the mailboxes, stay with the caller.

use vstd::prelude::*;
use crate::playback::{
    ArtworkRequest,
    ArtworkResult,
    Playback,
    PlaybackView,
};
use crate::playback::opt_presence_view;
use crate::text::opt_string;
use crate::track::TrackUpdate;
use crate::transport::{Clock, Connection, Link, Transport, TransportCall};

verus! {

/// The playback after taking in `update`, if there is one.
pub open spec fn playback_after_update(p: PlaybackView, update: Option<TrackUpdate>) -> PlaybackView {
    match update {
        Some(u) => p.applied(u),
        None => p,
    }
}

/// Whether accepting `artwork` at `now` after `update` stays within the
/// range of the clock (see [`Playback::accept_artwork`]).
pub open spec fn artwork_fits(
    p: PlaybackView,
    update: Option<TrackUpdate>,
    artwork: Option<ArtworkResult>,
    now: u64,
) -> bool {
    let applied = playback_after_update(p, update);
    artwork matches Some(a) ==> (applied.accepts(a.generation) && a.cover is None ==> now
        + applied.pending_delay() <= u64::MAX)
}

/// The playback after taking in `update` and then `artwork` at `now`,
/// before a due retry fires.
pub open spec fn playback_after_artwork(
    p: PlaybackView,
    update: Option<TrackUpdate>,
    artwork: Option<ArtworkResult>,
    now: u64,
) -> PlaybackView {
    let applied = playback_after_update(p, update);
    match artwork {
        Some(a) => applied.with_artwork(a.generation, opt_string(a.cover), now),
        None => applied,
    }
}

/// Whether the round's update starts another album.
pub open spec fn update_starts_album(p: PlaybackView, update: Option<TrackUpdate>) -> bool {
    update matches Some(u) && p.starts_album(u)
}

/// The playback after a round at `now` that took in `update` and `artwork`.
pub open spec fn playback_after_round(
    p: PlaybackView,
    update: Option<TrackUpdate>,
    artwork: Option<ArtworkResult>,
    now: u64,
) -> PlaybackView {
    let accepted = playback_after_artwork(p, update, artwork, now);
    if accepted.retry_due(now) {
        PlaybackView { retry_at: None, ..accepted }
    } else {
        accepted
    }
}

/// Whether the enabled flag changed between two rounds.
pub open spec fn toggled(enabled: bool, was_enabled: bool) -> bool {
    enabled != was_enabled
}

/// The abstract state of a [`Worker`].
pub struct WorkerView {
    pub playback: PlaybackView,
    pub link: Link,
    /// Whether the presence was enabled in the last round.
    pub was_enabled: bool,
}

/// The presence worker's state: playback, the Discord connection, and the
/// enabled flag of the last round.
pub struct Worker<T, C> {
    playback: Playback,
    connection: Connection<T, C>,
    was_enabled: bool,
}

impl<T, C> View for Worker<T, C> {
    type V = WorkerView;

    closed spec fn view(&self) -> WorkerView {
        WorkerView {
            playback: self.playback@,
            link: self.connection@,
            was_enabled: self.was_enabled,
        }
    }
}

impl<T: Transport, C: Clock> Worker<T, C> {
    /// The calls made on the Discord transport so far (see
    /// [`Transport::obeys_log`]).
    pub closed spec fn transport_log(self) -> Seq<TransportCall> {
        self.connection.transport().log()
    }

    /// The state every reachable worker keeps.
    pub open spec fn wf(self) -> bool {
        self@.link.wf() && self@.playback.delay_bounded()
    }

    /// A worker with fresh playback on `connection`.
    pub fn new(connection: Connection<T, C>, enabled: bool) -> (r: Self)
        requires
            connection@.wf(),
        ensures
            r.wf(),
            r@.playback == crate::playback::initial_view(),
            r@.link == connection@,
            r@.was_enabled == enabled,
    {
        Worker { playback: Playback::new(), connection, was_enabled: enabled }
    }

    /// One round at `now` (nanoseconds on the playback clock): applies
    /// `update`, accepts `artwork`, fires a due artwork retry, then publishes
    /// the presence, forcing the write when `enabled` changed since the last
    /// round. Returns the artwork work to schedule, if any.
    pub fn round(
        &mut self,
        update: Option<TrackUpdate>,
        artwork: Option<ArtworkResult>,
        enabled: bool,
        now: u64,
    ) -> (r: Option<ArtworkRequest>)
        requires
            old(self).wf(),
            update matches Some(u) ==> old(self)@.playback.apply_fits(u),
            artwork_fits(old(self)@.playback, update, artwork, now),
        ensures
            final(self).wf(),
            final(self)@.playback == playback_after_round(old(self)@.playback, update, artwork, now),
            final(self)@.was_enabled == enabled,
            exists|clock_now: u64, later: u64, connect_ok: bool, write_ok: bool|
                final(self)@.link == #[trigger] old(self)@.link.published(
                    clock_now,
                    later,
                    final(self)@.playback.shows(enabled),
                    toggled(enabled, old(self)@.was_enabled),
                    connect_ok,
                    write_ok,
                ) && (T::obeys_log() ==> final(self).transport_log() == old(self).transport_log()
                    + old(self)@.link.publish_calls(
                    clock_now,
                    final(self)@.playback.shown_presence(enabled),
                    toggled(enabled, old(self)@.was_enabled),
                    connect_ok,
                    write_ok,
                )),
            r matches Some(req) ==> req.generation == final(self)@.playback.generation,
            r is Some <==> update_starts_album(old(self)@.playback, update) || (
            playback_after_artwork(old(self)@.playback, update, artwork, now).retry_due(now)
                && playback_after_artwork(old(self)@.playback, update, artwork, now).current is Some),
            update matches Some(u) ==> (old(self)@.playback.starts_album(u) ==> (r matches Some(
                req
            ) && req.track == u.track)),
            !update_starts_album(old(self)@.playback, update) ==> (r matches Some(req) ==> Some(
                req.track,
            ) == playback_after_artwork(old(self)@.playback, update, artwork, now).current),
    {
        let mut request = match update {
            Some(u) => self.playback.apply(u),
            None => None,
        };
        if let Some(result) = artwork {
            self.playback.accept_artwork(result, now);
        }
        let retry = self.playback.retry_artwork(now);
        if request.is_none() {
            request = retry;
        }
        let force = enabled != self.was_enabled;
        let ghost before = self.connection@;
        let ghost log0 = self.connection.transport().log();
        let presence = self.playback.presence(enabled);
        let ghost shown = presence is Some;
        let ghost shown_view = opt_presence_view(presence);
        self.connection.publish(presence, force);
        let ghost (a, b, c, d) = choose|a: u64, b: u64, c: bool, d: bool|
            self.connection@ == #[trigger] before.published(a, b, shown, force, c, d)
                && (T::obeys_log() ==> self.connection.transport().log() == log0
                + before.publish_calls(a, shown_view, force, c, d));
        self.was_enabled = enabled;
        assert(self@.link == old(self)@.link.published(
            a,
            b,
            self@.playback.shows(enabled),
            toggled(enabled, old(self)@.was_enabled),
            c,
            d,
        ));
        request
    }

    /// Whether [`Worker::round`] can take `update` (see
    /// [`Playback::can_apply`]).
    pub fn can_apply(&self, update: &TrackUpdate) -> (r: bool)
        ensures
            r == self@.playback.apply_fits(*update),
    {
        self.playback.can_apply(update)
    }

    /// The Discord connection.
    pub fn connection(&self) -> (r: &Connection<T, C>)
        ensures
            r@ == self@.link,
            r.transport().log() == self.transport_log(),
    {
        &self.connection
    }

    /// The playback state.
    pub fn playback(&self) -> (r: &Playback)
        ensures
            r@ == self@.playback,
    {
        &self.playback
    }

    /// How long to wait before the next round (see
    /// [`Connection::wait_timeout`]).
    pub fn wait_timeout(&self) -> (r: u64)
        ensures
            exists|now: u64| r == #[trigger] self@.link.wait_at(now),
    {
        self.connection.wait_timeout()
    }
}

} // verus!
