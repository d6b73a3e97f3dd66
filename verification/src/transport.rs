//! The connection to Discord: retry scheduling, write throttling and the
//! presence payload. Discord I/O happens behind [`Transport`].
//!
//! Monotonic times and delays are nanoseconds.

use vstd::prelude::*;
use crate::playback::{opt_presence_view, presence_view, Presence, PresenceView};
use crate::text::{
    is_ws,
    law_trim_keeps_what_is_not_whitespace,
    law_white_space_code_points,
    opt_string,
    trim,
    trim_bounds,
};

verus! {

/// Discord application the presence runs under.
pub const DISCORD_APP_ID: &'static str = "1076384656850698240";

/// Longest Discord rich-presence text field, in characters.
pub const FIELD_MAX: usize = 128;

/// Shortest time between two unforced activity writes.
pub const UPDATE_THROTTLE_NS: u64 = 4_000_000_000;

/// Longest wait for a track update before the state is looked at again.
pub const RECV_TIMEOUT_NS: u64 = 5_000_000_000;

/// First delay before reconnecting after a failure.
pub const RETRY_INITIAL_NS: u64 = 1_000_000_000;

/// Longest delay between reconnection attempts.
pub const RETRY_MAX_NS: u64 = 30_000_000_000;

/// A monotonic clock, in nanoseconds from an origin of its own.
pub trait Clock {
    fn now(&self) -> u64;
}

/// One call made on a [`Transport`], with whether it returned `Ok`.
pub enum TransportCall {
    Connect { ok: bool },
    Update { shown: PresenceView, ok: bool },
    Clear { ok: bool },
    Disconnect,
}

/// The channel that presence updates travel over. An implementation that
/// obeys the log (see [`Transport::obeys_log`]) records each call in its
/// log, with its argument and whether it succeeded.
pub trait Transport {
    type Error;

    /// Whether this implementation keeps [`Transport::log`] as the methods'
    /// contracts say. A verified implementation defines both and proves its
    /// methods against them. The default, `false`, is what an
    /// implementation written outside verification gets: nothing is then
    /// claimed of its calls, so no contract rests on code that nobody
    /// checked. Code generic over `Transport` does not know which it is.
    closed spec fn obeys_log() -> bool {
        false
    }

    /// The calls made on this transport so far, oldest first; meaningful
    /// only where [`Transport::obeys_log`] holds.
    closed spec fn log(&self) -> Seq<TransportCall> {
        Seq::empty()
    }

    fn connect(&mut self) -> (r: Result<(), Self::Error>)
        ensures
            Self::obeys_log() ==> final(self).log() == old(self).log().push(
                TransportCall::Connect { ok: r is Ok },
            ),
    ;

    fn update(&mut self, presence: &Presence<'_>) -> (r: Result<(), Self::Error>)
        ensures
            Self::obeys_log() ==> final(self).log() == old(self).log().push(
                TransportCall::Update { shown: presence_view(*presence), ok: r is Ok },
            ),
    ;

    fn clear(&mut self) -> (r: Result<(), Self::Error>)
        ensures
            Self::obeys_log() ==> final(self).log() == old(self).log().push(
                TransportCall::Clear { ok: r is Ok },
            ),
    ;

    fn disconnect(&mut self)
        ensures
            Self::obeys_log() ==> final(self).log() == old(self).log().push(
                TransportCall::Disconnect,
            ),
    ;
}

#[verifier::external_type_specification]
#[verifier::external_body]
pub struct ExInstant(std::time::Instant);

/// `std::time::Instant::now`. Nothing is promised of the value: it is read
/// from the machine's monotonic clock.
#[verifier::external_body]
fn instant_now() -> std::time::Instant {
    std::time::Instant::now()
}

/// The time since `origin` (`Instant::elapsed`). It is read from the
/// machine's clock, so nothing is stated of it.
#[verifier::external_body]
fn elapsed_since(origin: &std::time::Instant) -> std::time::Duration {
    origin.elapsed()
}

/// The whole nanoseconds of `d` (`Duration::as_nanos`), which is all of
/// it. `d` is opaque here, so nothing is stated of the value.
#[verifier::external_body]
fn whole_nanos(d: &std::time::Duration) -> u128 {
    d.as_nanos()
}

/// The machine's monotonic clock, counted from the moment it was created.
/// Readings are nanoseconds, the resolution of `Instant` and `Duration`,
/// and saturate after about 584 years.
pub struct SystemClock {
    origin: std::time::Instant,
}

impl SystemClock {
    pub fn new() -> SystemClock {
        SystemClock { origin: instant_now() }
    }
}

impl Clock for SystemClock {
    fn now(&self) -> u64 {
        let elapsed = whole_nanos(&elapsed_since(&self.origin));
        if elapsed > u64::MAX as u128 {
            u64::MAX
        } else {
            elapsed as u64
        }
    }
}

/// `a + b`, or `u64::MAX` where that does not fit.
pub open spec fn sat_add(a: u64, b: u64) -> u64 {
    if a + b > u64::MAX {
        u64::MAX
    } else {
        (a + b) as u64
    }
}

/// `a - b`, or 0 where `b > a`.
pub open spec fn sat_sub(a: u64, b: u64) -> u64 {
    if a >= b {
        (a - b) as u64
    } else {
        0
    }
}

/// The smaller of `a` and `b`.
pub open spec fn min_u64(a: u64, b: u64) -> u64 {
    if a <= b {
        a
    } else {
        b
    }
}

/// The abstract state of a [`Connection`].
pub struct Link {
    /// A transport connection is open.
    pub connected: bool,
    /// Discord may be showing a presence, so a clear is owed when disabled.
    pub active: bool,
    /// When the last write succeeded.
    pub last_updated: Option<u64>,
    /// When the next connection attempt may be made.
    pub retry_at: Option<u64>,
    /// The delay the next failure waits.
    pub retry_delay: u64,
}

impl Link {
    /// The delay stays between [`RETRY_INITIAL_NS`] and [`RETRY_MAX_NS`].
    pub open spec fn wf(self) -> bool {
        RETRY_INITIAL_NS <= self.retry_delay <= RETRY_MAX_NS
    }

    /// Disconnected and still waiting at `now` for the next attempt.
    pub open spec fn backing_off(self, now: u64) -> bool {
        !self.connected && (self.retry_at matches Some(r) && now < r)
    }

    /// Within the throttle window of the last write at `now`.
    pub open spec fn throttled(self, now: u64) -> bool {
        self.last_updated matches Some(last) && sat_sub(now, last) < UPDATE_THROTTLE_NS
    }

    /// The state after a failure observed at `now`: disconnected, the next
    /// attempt after the current delay, which then doubles up to the cap.
    pub open spec fn after_failure(self, now: u64) -> Link {
        Link {
            connected: false,
            retry_at: Some(sat_add(now, self.retry_delay)),
            retry_delay: min_u64((2 * self.retry_delay) as u64, RETRY_MAX_NS),
            ..self
        }
    }

    /// The state right after connecting: the remote presence is not assumed,
    /// and the first write is not throttled.
    pub open spec fn after_connect(self) -> Link {
        Link { connected: true, active: true, last_updated: None, retry_at: None, ..self }
    }

    /// The state after a write that succeeded at `now`.
    pub open spec fn after_write(self, shown: bool, now: u64) -> Link {
        Link {
            active: shown,
            last_updated: Some(now),
            retry_delay: RETRY_INITIAL_NS,
            ..self
        }
    }

    /// Whether a publish at `now` on a connected link writes: not throttled
    /// (or forced), and there is a presence to show or one to clear.
    pub open spec fn writes(self, now: u64, shown: bool, force: bool) -> bool {
        (force || !self.throttled(now)) && (shown || self.active)
    }

    /// The state after `publish`: the clock read `now` on entry and `later`
    /// after the transport answered; `connect_ok` and `write_ok` are the
    /// transport's answers where it was asked.
    pub open spec fn published(
        self,
        now: u64,
        later: u64,
        shown: bool,
        force: bool,
        connect_ok: bool,
        write_ok: bool,
    ) -> Link {
        if self.backing_off(now) {
            self
        } else if !self.connected && !connect_ok {
            self.after_failure(later)
        } else {
            let link = if self.connected {
                self
            } else {
                self.after_connect()
            };
            if !link.writes(now, shown, force) {
                link
            } else if write_ok {
                link.after_write(shown, later)
            } else {
                link.after_failure(later)
            }
        }
    }

    /// The transport calls that `publish` makes, in order, for the same
    /// readings and answers as [`Link::published`], showing `shown`: nothing
    /// while backing off; a connection attempt when disconnected; then, if a
    /// write is due, `update` with the presence or `clear` without one; and a
    /// disconnect after any failure.
    pub open spec fn publish_calls(
        self,
        now: u64,
        shown: Option<PresenceView>,
        force: bool,
        connect_ok: bool,
        write_ok: bool,
    ) -> Seq<TransportCall> {
        if self.backing_off(now) {
            Seq::empty()
        } else if !self.connected && !connect_ok {
            seq![TransportCall::Connect { ok: false }, TransportCall::Disconnect]
        } else {
            let first = if self.connected {
                Seq::empty()
            } else {
                seq![TransportCall::Connect { ok: true }]
            };
            let link = if self.connected {
                self
            } else {
                self.after_connect()
            };
            if !link.writes(now, shown is Some, force) {
                first
            } else {
                let write = match shown {
                    Some(p) => TransportCall::Update { shown: p, ok: write_ok },
                    None => TransportCall::Clear { ok: write_ok },
                };
                if write_ok {
                    first.push(write)
                } else {
                    first.push(write).push(TransportCall::Disconnect)
                }
            }
        }
    }

    /// How long to wait at `now` before looking at the state again.
    pub open spec fn wait_at(self, now: u64) -> u64 {
        match self.retry_at {
            Some(r) => min_u64(sat_sub(r, now), RECV_TIMEOUT_NS),
            None => match self.last_updated {
                Some(last) => {
                    let remaining = sat_sub(sat_add(last, UPDATE_THROTTLE_NS), now);
                    if remaining != 0 {
                        min_u64(remaining, RECV_TIMEOUT_NS)
                    } else {
                        RECV_TIMEOUT_NS
                    }
                },
                None => RECV_TIMEOUT_NS,
            },
        }
    }
}

/// Keeps the Discord presence in step with playback, reconnecting with
/// exponential backoff and throttling writes.
pub struct Connection<T, C> {
    transport: T,
    clock: C,
    connected: bool,
    active: bool,
    last_updated: Option<u64>,
    retry_at: Option<u64>,
    retry_delay: u64,
}

impl<T, C> View for Connection<T, C> {
    type V = Link;

    closed spec fn view(&self) -> Link {
        Link {
            connected: self.connected,
            active: self.active,
            last_updated: self.last_updated,
            retry_at: self.retry_at,
            retry_delay: self.retry_delay,
        }
    }
}

impl<T: Transport, C: Clock> Connection<T, C> {
    /// Not connected, nothing shown, nothing scheduled.
    pub fn new(transport: T, clock: C) -> (r: Self)
        ensures
            r@ == (Link {
                connected: false,
                active: false,
                last_updated: None,
                retry_at: None,
                retry_delay: RETRY_INITIAL_NS,
            }),
            r.transport() == transport,
            r.clock() == clock,
    {
        Connection {
            transport,
            clock,
            connected: false,
            active: false,
            last_updated: None,
            retry_at: None,
            retry_delay: RETRY_INITIAL_NS,
        }
    }

    /// The transport.
    pub closed spec fn transport(self) -> T {
        self.transport
    }

    /// The clock.
    pub closed spec fn clock(self) -> C {
        self.clock
    }

    /// Shows `presence`, or clears the shown one when `presence` is `None`,
    /// deciding on the clock's current reading (see
    /// [`Connection::publish_at`]).
    pub fn publish(&mut self, presence: Option<Presence<'_>>, force: bool)
        requires
            old(self)@.wf(),
        ensures
            final(self)@.wf(),
            !old(self)@.connected && final(self)@.connected ==> final(self)@.retry_at is None,
            exists|now: u64, later: u64, connect_ok: bool, write_ok: bool|
                final(self)@ == #[trigger] old(self)@.published(
                    now,
                    later,
                    presence is Some,
                    force,
                    connect_ok,
                    write_ok,
                ) && (T::obeys_log() ==> final(self).transport().log() == old(
                    self,
                ).transport().log() + old(self)@.publish_calls(
                    now,
                    opt_presence_view(presence),
                    force,
                    connect_ok,
                    write_ok,
                )),
    {
        let now = self.clock.now();
        self.publish_at(now, presence, force);
    }

    /// Shows `presence`, or clears the shown one when `presence` is `None`,
    /// deciding at the reading `now`. While disconnected, nothing happens
    /// before the retry time; then a connection is attempted. Writes within
    /// the throttle window are skipped unless `force`. Failures disconnect
    /// and schedule the next attempt. The clock is read again after a write
    /// (`later`), and the transport's answers decide the rest.
    pub fn publish_at(&mut self, now: u64, presence: Option<Presence<'_>>, force: bool)
        requires
            old(self)@.wf(),
        ensures
            final(self)@.wf(),
            final(self).clock() == old(self).clock(),
            !old(self)@.connected && final(self)@.connected ==> final(self)@.retry_at is None,
            exists|later: u64, connect_ok: bool, write_ok: bool|
                final(self)@ == #[trigger] old(self)@.published(
                    now,
                    later,
                    presence is Some,
                    force,
                    connect_ok,
                    write_ok,
                ) && (T::obeys_log() ==> final(self).transport().log() == old(
                    self,
                ).transport().log() + old(self)@.publish_calls(
                    now,
                    opt_presence_view(presence),
                    force,
                    connect_ok,
                    write_ok,
                )),
    {
        let ghost start = self@;
        let ghost log0 = self.transport.log();
        let ghost shown_view = opt_presence_view(presence);
        let shown = presence.is_some();
        if !self.connected {
            if let Some(retry_at) = self.retry_at {
                if now < retry_at {
                    assert(start.published(now, now, shown, force, true, true) == start);
                    assert(self.transport.log() =~= log0 + start.publish_calls(
                        now,
                        shown_view,
                        force,
                        true,
                        true,
                    ));
                    return ;
                }
            }
            match self.transport.connect() {
                Ok(()) => {},
                Err(_) => {
                    let later = self.failed();
                    assert(self@ == start.published(now, later, shown, force, false, true));
                    assert(T::obeys_log() ==> self.transport.log() =~= log0 + start.publish_calls(
                        now,
                        shown_view,
                        force,
                        false,
                        true,
                    ));
                    return ;
                },
            }
            self.connected = true;
            self.active = true;
            self.last_updated = None;
            self.retry_at = None;
        }
        let ghost link = self@;
        let ghost log1 = self.transport.log();
        assert(T::obeys_log() ==> log1 =~= log0 + (if start.connected {
            Seq::empty()
        } else {
            seq![TransportCall::Connect { ok: true }]
        }));
        if !force {
            if let Some(last) = self.last_updated {
                let since = if now >= last {
                    now - last
                } else {
                    0
                };
                if since < UPDATE_THROTTLE_NS {
                    assert(self@ == start.published(now, now, shown, force, true, true));
                    assert(T::obeys_log() ==> self.transport.log() =~= log0 + start.publish_calls(
                        now,
                        shown_view,
                        force,
                        true,
                        true,
                    ));
                    return ;
                }
            }
        }
        let result = match presence {
            Some(p) => self.transport.update(&p),
            None => {
                if self.active {
                    self.transport.clear()
                } else {
                    assert(self@ == start.published(now, now, shown, force, true, true));
                    assert(T::obeys_log() ==> self.transport.log() =~= log0 + start.publish_calls(
                        now,
                        shown_view,
                        force,
                        true,
                        true,
                    ));
                    return ;
                }
            },
        };
        match result {
            Ok(()) => {
                let later = self.clock.now();
                self.active = shown;
                self.last_updated = Some(later);
                self.retry_delay = RETRY_INITIAL_NS;
                assert(self@ == start.published(now, later, shown, force, true, true));
                assert(T::obeys_log() ==> self.transport.log() =~= log0 + start.publish_calls(
                    now,
                    shown_view,
                    force,
                    true,
                    true,
                ));
            },
            Err(_) => {
                let later = self.failed();
                assert(self@ == link.after_failure(later));
                assert(self@ == start.published(now, later, shown, force, true, false));
                assert(T::obeys_log() ==> self.transport.log() =~= log0 + start.publish_calls(
                    now,
                    shown_view,
                    force,
                    true,
                    false,
                ));
            },
        }
    }

    /// Disconnects and schedules the next attempt after the current delay,
    /// which then doubles up to [`RETRY_MAX_NS`]. Returns the clock reading
    /// the schedule was made from.
    fn failed(&mut self) -> (now: u64)
        requires
            old(self)@.wf(),
        ensures
            final(self)@ == old(self)@.after_failure(now),
            final(self)@.wf(),
            final(self).clock() == old(self).clock(),
            T::obeys_log() ==> final(self).transport().log() == old(self).transport().log().push(
                TransportCall::Disconnect,
            ),
    {
        self.connected = false;
        self.transport.disconnect();
        let now = self.clock.now();
        self.retry_at = Some(now.saturating_add(self.retry_delay));
        self.retry_delay = if self.retry_delay * 2 <= RETRY_MAX_NS {
            self.retry_delay * 2
        } else {
            RETRY_MAX_NS
        };
        now
    }

    /// How long to wait at `now` before looking at the state again: until
    /// the next connection attempt or the end of the throttle window, and
    /// never longer than [`RECV_TIMEOUT_NS`].
    pub fn wait_timeout_at(&self, now: u64) -> (r: u64)
        ensures
            r == self@.wait_at(now),
    {
        if let Some(retry_at) = self.retry_at {
            let remaining = retry_at.saturating_sub(now);
            return if remaining < RECV_TIMEOUT_NS {
                remaining
            } else {
                RECV_TIMEOUT_NS
            };
        }
        if let Some(last) = self.last_updated {
            let remaining = last.saturating_add(UPDATE_THROTTLE_NS).saturating_sub(now);
            if remaining != 0 {
                return if remaining < RECV_TIMEOUT_NS {
                    remaining
                } else {
                    RECV_TIMEOUT_NS
                };
            }
        }
        RECV_TIMEOUT_NS
    }

    /// [`Connection::wait_timeout_at`] for the clock's current reading.
    pub fn wait_timeout(&self) -> (r: u64)
        ensures
            exists|now: u64| r == #[trigger] self@.wait_at(now),
            r <= RECV_TIMEOUT_NS,
    {
        let now = self.clock.now();
        self.wait_timeout_at(now)
    }

    /// Whether a transport connection is open.
    pub fn is_connected(&self) -> (r: bool)
        ensures
            r == self@.connected,
    {
        self.connected
    }

    /// Whether Discord may be showing a presence.
    pub fn is_active(&self) -> (r: bool)
        ensures
            r == self@.active,
    {
        self.active
    }

    /// When the next connection attempt may be made.
    pub fn retry_at(&self) -> (r: Option<u64>)
        ensures
            r == self@.retry_at,
    {
        self.retry_at
    }

    /// The delay the next failure waits.
    pub fn retry_delay(&self) -> (r: u64)
        ensures
            r == self@.retry_delay,
    {
        self.retry_delay
    }

    /// The transport.
    pub fn transport_ref(&self) -> (r: &T)
        ensures
            *r == self.transport(),
    {
        &self.transport
    }

    /// The transport, for changes that leave the connection state alone.
    pub fn transport_mut(&mut self) -> (r: &mut T)
        ensures
            *r == old(self).transport(),
            final(self)@ == old(self)@,
            final(self).transport() == *final(r),
    {
        &mut self.transport
    }
}

/// A Discord text field for `value`: the trimmed text, cut to
/// [`FIELD_MAX`] characters and padded with a space to the two characters
/// Discord requires; no field when nothing but whitespace is left.
pub open spec fn field_of(value: Seq<char>) -> Option<Seq<char>> {
    let t = trim(value);
    if t.len() == 0 {
        None
    } else {
        let f = if t.len() > FIELD_MAX {
            t.take(FIELD_MAX as int)
        } else {
            t
        };
        Some(
            if f.len() < 2 {
                f.push(' ')
            } else {
                f
            },
        )
    }
}

/// The optional text field for `value` (see [`field_of`]).
pub fn presence_field(value: &str) -> (r: Option<String>)
    ensures
        opt_string(r) == field_of(value@),
{
    let (start, end) = trim_bounds(value);
    if start == end {
        return None;
    }
    let cut = if end - start > FIELD_MAX {
        start + FIELD_MAX
    } else {
        end
    };
    let mut field = String::from_str(value.substring_char(start, cut));
    proof {
        let t = value@.subrange(start as int, end as int);
        assert(field@ =~= if t.len() > FIELD_MAX {
            t.take(FIELD_MAX as int)
        } else {
            t
        });
    }
    if cut - start < 2 {
        let ghost before = field@;
        field.append(" ");
        proof {
            reveal_strlit(" ");
            assert(field@ =~= before.push(' '));
        }
    }
    Some(field)
}

/// The fields of the Discord activity that shows a presence.
#[derive(Debug)]
pub struct ActivityFields {
    /// The artist, shown as the activity's state.
    pub state: Option<String>,
    /// The title, shown as the activity's details.
    pub details: Option<String>,
    /// The album, shown over the large image.
    pub large_text: Option<String>,
    /// The cover URL, or the application's own image.
    pub large_image: String,
    pub small_text: String,
    /// The progress bar, when playback progress is known.
    pub start: Option<i64>,
    pub end: Option<i64>,
}

/// The image shown when there is no cover.
pub const FALLBACK_IMAGE: &'static str = "sw2";

/// The caption of the small image.
pub const SMALL_TEXT: &'static str = "Listening";

/// The activity that shows `presence`: artist, title and album as text
/// fields, the cover (or the fallback image), and the progress anchor.
pub fn activity_fields(presence: &Presence<'_>) -> (r: ActivityFields)
    ensures
        opt_string(r.state) == field_of(presence.track.artist@),
        opt_string(r.details) == field_of(presence.track.title@),
        opt_string(r.large_text) == field_of(presence.track.album@),
        r.large_image@ == match presence.cover {
            Some(c) => c@,
            None => FALLBACK_IMAGE@,
        },
        r.small_text@ == SMALL_TEXT@,
        r.start == match presence.anchor {
            Some(a) => Some(a.start),
            None => None::<i64>,
        },
        r.end == match presence.anchor {
            Some(a) => a.end,
            None => None,
        },
{
    let large_image = match presence.cover {
        Some(c) => String::from_str(c),
        None => String::from_str(FALLBACK_IMAGE),
    };
    let (start, end) = match presence.anchor {
        Some(a) => (Some(a.start), a.end),
        None => (None, None),
    };
    ActivityFields {
        state: presence_field(presence.track.artist.as_str()),
        details: presence_field(presence.track.title.as_str()),
        large_text: presence_field(presence.track.album.as_str()),
        large_image,
        small_text: String::from_str(SMALL_TEXT),
        start,
        end,
    }
}

} // verus!

verus! {

/// While a retry is pending, publishing does nothing, forced or not: a
/// toggle does not bypass the backoff, and the transport is not called.
pub proof fn law_backoff_is_respected(
    l: Link,
    now: u64,
    later: u64,
    shown: Option<PresenceView>,
    force: bool,
    connect_ok: bool,
    write_ok: bool,
)
    requires
        l.backing_off(now),
    ensures
        l.published(now, later, shown is Some, force, connect_ok, write_ok) == l,
        l.publish_calls(now, shown, force, connect_ok, write_ok) == Seq::<TransportCall>::empty(),
{
}

/// Within the throttle window an unforced publish on a live connection
/// does nothing and calls nothing.
pub proof fn law_unforced_writes_are_throttled(
    l: Link,
    now: u64,
    later: u64,
    shown: Option<PresenceView>,
    write_ok: bool,
)
    requires
        l.connected,
        l.throttled(now),
    ensures
        l.published(now, later, shown is Some, false, true, write_ok) == l,
        l.publish_calls(now, shown, false, true, write_ok) == Seq::<TransportCall>::empty(),
{
}

/// Clearing when nothing is shown does nothing and calls nothing, forced
/// or not.
pub proof fn law_nothing_to_clear(
    l: Link,
    now: u64,
    later: u64,
    force: bool,
    write_ok: bool,
)
    requires
        l.connected,
        !l.active,
    ensures
        l.published(now, later, false, force, true, write_ok) == l,
        l.publish_calls(now, None, force, true, write_ok) == Seq::<TransportCall>::empty(),
{
}

/// A forced publish on a live connection writes despite the throttle, as
/// long as there is something to show or to clear: the presence goes to
/// `update`, its absence to `clear`, and nothing else is called unless the
/// write fails.
pub proof fn law_forced_writes_bypass_the_throttle(
    l: Link,
    now: u64,
    shown: Option<PresenceView>,
    write_ok: bool,
)
    requires
        l.connected,
        shown is Some || l.active,
    ensures
        l.writes(now, shown is Some, true),
        l.publish_calls(now, shown, true, true, write_ok)[0] == match shown {
            Some(p) => TransportCall::Update { shown: p, ok: write_ok },
            None => TransportCall::Clear { ok: write_ok },
        },
        l.publish_calls(now, shown, true, true, write_ok).len() == if write_ok {
            1int
        } else {
            2
        },
{
}

/// Each failure waits the current delay; the delay doubles up to 30 s and
/// stays within bounds.
pub proof fn law_failures_back_off(l: Link, now: u64)
    requires
        l.wf(),
    ensures
        l.after_failure(now).retry_at == Some(sat_add(now, l.retry_delay)),
        l.after_failure(now).retry_delay == min_u64((2 * l.retry_delay) as u64, RETRY_MAX_NS),
        l.after_failure(now).wf(),
        !l.after_failure(now).connected,
{
}

/// Every publish keeps the delay within bounds; a successful write resets
/// it to the initial delay.
pub proof fn law_publish_keeps_backoff_bounded(
    l: Link,
    now: u64,
    later: u64,
    shown: bool,
    force: bool,
    connect_ok: bool,
    write_ok: bool,
)
    requires
        l.wf(),
    ensures
        l.published(now, later, shown, force, connect_ok, write_ok).wf(),
        (l.connected || connect_ok) && !l.backing_off(now) && write_ok && (if l.connected {
            l
        } else {
            l.after_connect()
        }).writes(now, shown, force) ==> l.published(
            now,
            later,
            shown,
            force,
            connect_ok,
            write_ok,
        ).retry_delay == RETRY_INITIAL_NS,
{
}

/// After (re)connecting, the remote presence is not assumed: the first
/// publish writes, even a clear, and is not throttled. A publish on a
/// disconnected link that may retry connects first, then writes.
pub proof fn law_reconnect_republishes(l: Link, now: u64, shown: Option<PresenceView>, write_ok: bool)
    ensures
        l.after_connect().writes(now, shown is Some, false),
        !l.connected && !l.backing_off(now) ==> l.publish_calls(now, shown, false, true, write_ok)
            .take(2) == seq![
            TransportCall::Connect { ok: true },
            match shown {
                Some(p) => TransportCall::Update { shown: p, ok: write_ok },
                None => TransportCall::Clear { ok: write_ok },
            },
        ],
        !l.connected && !l.backing_off(now) ==> l.publish_calls(now, shown, false, false, write_ok)
            == seq![TransportCall::Connect { ok: false }, TransportCall::Disconnect],
{
}

/// A successful connection clears the retry schedule: a connected link
/// has no retry time, and every publish keeps it so; in particular a
/// publish that connects a disconnected link leaves no retry time behind.
pub proof fn law_connecting_clears_the_retry(
    l: Link,
    now: u64,
    later: u64,
    shown: bool,
    force: bool,
    connect_ok: bool,
    write_ok: bool,
)
    requires
        l.connected ==> l.retry_at is None,
    ensures
        l.published(now, later, shown, force, connect_ok, write_ok).connected ==> l.published(
            now,
            later,
            shown,
            force,
            connect_ok,
            write_ok,
        ).retry_at is None,
        !l.connected && !l.backing_off(now) && connect_ok ==> l.published(
            now,
            later,
            shown,
            force,
            connect_ok,
            write_ok,
        ).retry_at is None || !l.published(now, later, shown, force, connect_ok, write_ok).connected,
{
}

/// Without a pending retry, the worker sleeps for the rest of the throttle
/// window after the last write, capped at [`RECV_TIMEOUT_NS`], or for
/// [`RECV_TIMEOUT_NS`] once the window is over or nothing was written.
pub proof fn law_live_link_waits_out_the_throttle(l: Link, now: u64)
    requires
        l.retry_at is None,
        l.last_updated matches Some(last) ==> last + UPDATE_THROTTLE_NS <= u64::MAX,
    ensures
        l.wait_at(now) == match l.last_updated {
            Some(last) => if last + UPDATE_THROTTLE_NS > now {
                if last + UPDATE_THROTTLE_NS - now < RECV_TIMEOUT_NS {
                    last + UPDATE_THROTTLE_NS - now
                } else {
                    RECV_TIMEOUT_NS as int
                }
            } else {
                RECV_TIMEOUT_NS as int
            },
            None => RECV_TIMEOUT_NS as int,
        },
{
}

/// A clear that is attempted and fails stays owed: the link still counts
/// the presence as shown, so the next publish without a presence, once the
/// retry is due, reconnects and clears again, and nothing restores the
/// presence.
pub proof fn law_failed_clear_is_retried(
    l: Link,
    now: u64,
    later: u64,
    force: bool,
    next_now: u64,
    next_later: u64,
    next_force: bool,
    next_ok: bool,
)
    requires
        l.connected,
        l.active,
        force || !l.throttled(now),
        !l.published(now, later, false, force, true, false).backing_off(next_now),
    ensures
        l.publish_calls(now, None, force, true, false) == seq![
            TransportCall::Clear { ok: false },
            TransportCall::Disconnect,
        ],
        l.published(now, later, false, force, true, false).active,
        !l.published(now, later, false, force, true, false).connected,
        l.published(now, later, false, force, true, false).publish_calls(
            next_now,
            None,
            next_force,
            true,
            next_ok,
        ).take(2) == seq![TransportCall::Connect { ok: true }, TransportCall::Clear { ok: next_ok }],
        next_ok ==> !l.published(now, later, false, force, true, false).published(
            next_now,
            next_later,
            false,
            next_force,
            true,
            next_ok,
        ).active,
{
}

/// A successful clear leaves nothing shown; a successful update leaves the
/// presence shown.
pub proof fn law_write_records_what_is_shown(l: Link, now: u64, shown: bool)
    ensures
        l.after_write(shown, now).active == shown,
        l.after_write(shown, now).last_updated == Some(now),
{
}

/// The worker never waits longer than [`RECV_TIMEOUT_NS`], and while a
/// retry is pending it wakes up no later than the retry time.
pub proof fn law_wait_is_bounded(l: Link, now: u64)
    ensures
        l.wait_at(now) <= RECV_TIMEOUT_NS,
        l.retry_at matches Some(r) ==> l.wait_at(now) <= sat_sub(r, now),
{
}

/// A presence text field always has between 2 and [`FIELD_MAX`] characters.
pub proof fn law_fields_fit_discord(value: Seq<char>)
    ensures
        field_of(value) matches Some(f) ==> 2 <= f.len() <= FIELD_MAX,
        field_of(value) is None <==> trim(value).len() == 0,
{
}

/// A field value of 2 to [`FIELD_MAX`] characters that neither starts nor
/// ends with whitespace is sent exactly as it is: trimming takes away
/// whitespace and nothing else.
pub proof fn law_clean_fields_are_sent_unchanged(value: Seq<char>)
    requires
        2 <= value.len() <= FIELD_MAX,
        !is_ws(value[0]),
        !is_ws(value.last()),
    ensures
        field_of(value) == Some(value),
{
    law_trim_keeps_what_is_not_whitespace(value);
}

/// In particular a value of 2 to [`FIELD_MAX`] characters that starts and
/// ends with printable ASCII (U+0021 to U+007E, brackets and punctuation
/// included) is sent unchanged.
pub proof fn law_printable_ends_are_kept(value: Seq<char>)
    requires
        2 <= value.len() <= FIELD_MAX,
        33 <= value[0] as u32 <= 126,
        33 <= value.last() as u32 <= 126,
    ensures
        field_of(value) == Some(value),
{
    law_white_space_code_points(value[0]);
    law_white_space_code_points(value.last());
    law_clean_fields_are_sent_unchanged(value);
}

/// The link after `k` failures in a row, each observed at `now`.
pub open spec fn after_failures(l: Link, k: nat, now: u64) -> Link
    decreases k,
{
    if k == 0 {
        l
    } else {
        after_failures(l, (k - 1) as nat, now).after_failure(now)
    }
}

/// The delay after the `k`-th failure in a row (counted from 0): 1 s
/// doubled `k` times, capped at 30 s.
pub open spec fn retry_after(k: nat) -> int {
    let d = RETRY_INITIAL_NS * vstd::arithmetic::power2::pow2(k);
    if d <= RETRY_MAX_NS {
        d
    } else {
        RETRY_MAX_NS as int
    }
}

/// From a fresh or recovered link, consecutive failures wait 1, 2, 4, 8 and
/// 16 seconds, and then 30 seconds each time.
pub proof fn law_retries_double_to_thirty_seconds(l: Link, k: nat, now: u64)
    requires
        l.retry_delay == RETRY_INITIAL_NS,
        now + RETRY_MAX_NS <= u64::MAX,
    ensures
        after_failures(l, k, now).retry_delay == retry_after(k),
        after_failures(l, k, now).wf(),
        k > 0 ==> after_failures(l, k, now).retry_at == Some(
            (now + retry_after((k - 1) as nat)) as u64,
        ),
    decreases k,
{
    if k == 0 {
        vstd::arithmetic::power2::lemma_pow2(0);
        vstd::arithmetic::power::lemma_pow0(2);
    } else {
        law_retries_double_to_thirty_seconds(l, (k - 1) as nat, now);
        vstd::arithmetic::power2::lemma_pow2_unfold(k);
        vstd::arithmetic::power2::lemma_pow2_pos((k - 1) as nat);
    }
}

} // verus!
