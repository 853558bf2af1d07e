//! Per-session rate limiting of input events.
//!
//! Each session has a burst counter, reset once more than a tenth of the
//! window has passed since the last reset, and a record of event times
//! within the window. An event is refused when the burst counter has reached
//! the burst limit, or else when the rate over the window has reached the
//! maximum rate; otherwise it is recorded.

use vstd::prelude::*;
use crate::time::{Duration, Instant, MonotonicClock};
use crate::types::error::{Error, InputError};
use crate::types::session::SessionId;

verus! {

/// Rate limiting configuration.
#[derive(Clone, Copy, Debug, PartialEq, Eq, Structural)]
pub struct RateLimiterConfig {
    /// Maximum events per second per session.
    pub max_events_per_sec: u32,
    /// Maximum events in one burst.
    pub burst_limit: u32,
    /// Window over which the rate is measured.
    pub window: Duration,
}

impl Default for RateLimiterConfig {
    /// 1000 events per second, bursts of 100, a one-second window.
    fn default() -> (r: RateLimiterConfig)
        ensures
            r.max_events_per_sec == 1000,
            r.burst_limit == 100,
            r.window.nanos == 1_000_000_000,
    {
        RateLimiterConfig {
            max_events_per_sec: 1000,
            burst_limit: 100,
            window: Duration::from_secs(1),
        }
    }
}

impl RateLimiterConfig {
    /// A permissive configuration for testing: 10 000 events per second,
    /// bursts of 1000, a one-second window.
    pub fn permissive() -> (r: RateLimiterConfig)
        ensures
            r.max_events_per_sec == 10_000,
            r.burst_limit == 1000,
            r.window.nanos == 1_000_000_000,
    {
        RateLimiterConfig {
            max_events_per_sec: 10_000,
            burst_limit: 1000,
            window: Duration::from_secs(1),
        }
    }

    /// A strict configuration for production: 500 events per second, bursts
    /// of 50, a one-second window.
    pub fn strict() -> (r: RateLimiterConfig)
        ensures
            r.max_events_per_sec == 500,
            r.burst_limit == 50,
            r.window.nanos == 1_000_000_000,
    {
        RateLimiterConfig {
            max_events_per_sec: 500,
            burst_limit: 50,
            window: Duration::from_secs(1),
        }
    }
}

/// The abstract rate state of a session.
pub struct RateView {
    /// Times of the recorded events, oldest first.
    pub times: Seq<Instant>,
    /// Events in the current burst.
    pub burst: u32,
    /// When the burst counter was last reset.
    pub reset: Instant,
}

/// The times in `s` strictly later than `cutoff`, in order.
pub open spec fn keep_after(s: Seq<Instant>, cutoff: int) -> Seq<Instant>
    decreases s.len(),
{
    if s.len() == 0 {
        s
    } else if s.last().nanos > cutoff {
        keep_after(s.drop_last(), cutoff).push(s.last())
    } else {
        keep_after(s.drop_last(), cutoff)
    }
}

/// Keeping the times after a negative cutoff keeps them all.
proof fn lemma_keep_after_all(s: Seq<Instant>, cutoff: int)
    requires
        cutoff < 0,
    ensures
        keep_after(s, cutoff) == s,
    decreases s.len(),
{
    if s.len() > 0 {
        lemma_keep_after_all(s.drop_last(), cutoff);
        assert(s.drop_last().push(s.last()) =~= s);
    }
}

/// Keeping the times after `cutoff` filters the sequence by `t > cutoff`:
/// every time later than the cutoff stays, in its order, and no other does.
pub proof fn lemma_keep_after_is_filter(s: Seq<Instant>, cutoff: int)
    ensures
        keep_after(s, cutoff) == s.filter(|t: Instant| t.nanos > cutoff),
        forall|i: int|
            0 <= i < s.len() && s[i].nanos > cutoff ==> #[trigger] keep_after(s, cutoff).contains(
                s[i],
            ),
        forall|j: int|
            0 <= j < keep_after(s, cutoff).len() ==> #[trigger] keep_after(s, cutoff)[j].nanos
                > cutoff && s.contains(keep_after(s, cutoff)[j]),
        (forall|i: int| 0 <= i < s.len() ==> #[trigger] s[i].nanos > cutoff) ==> keep_after(
            s,
            cutoff,
        ) == s,
    decreases s.len(),
{
    reveal(Seq::filter);
    let pred = |t: Instant| t.nanos > cutoff;
    if s.len() > 0 {
        lemma_keep_after_is_filter(s.drop_last(), cutoff);
        assert(s.drop_last().push(s.last()) =~= s);
        let k = keep_after(s, cutoff);
        let k0 = keep_after(s.drop_last(), cutoff);
        assert forall|i: int| 0 <= i < s.len() && s[i].nanos > cutoff implies #[trigger] k.contains(
            s[i],
        ) by {
            if i < s.len() - 1 {
                assert(s.drop_last()[i] == s[i]);
                assert(k0.contains(s.drop_last()[i]));
                let w = choose|w: int| 0 <= w < k0.len() && k0[w] == s[i];
                assert(k[w] == s[i]);
            } else {
                assert(k[k.len() - 1] == s[i]);
            }
        }
        assert forall|j: int| 0 <= j < k.len() implies #[trigger] k[j].nanos > cutoff && s.contains(
            k[j],
        ) by {
            if j < k0.len() {
                assert(k[j] == k0[j]);
                assert(k0[j].nanos > cutoff && s.drop_last().contains(k0[j]));
                let w = choose|w: int| 0 <= w < s.drop_last().len() && s.drop_last()[w] == k0[j];
                assert(s[w] == k0[j]);
            } else {
                assert(k[j] == s.last());
                assert(s[s.len() - 1] == s.last());
            }
        }
        if forall|i: int| 0 <= i < s.len() ==> #[trigger] s[i].nanos > cutoff {
            assert forall|i: int| 0 <= i < s.drop_last().len() implies #[trigger] s.drop_last()[i].nanos
                > cutoff by {
                assert(s[i] == s.drop_last()[i]);
            }
            assert(s[s.len() - 1].nanos > cutoff);
        }
    } else {
        assert(s.filter(pred) == s);
    }
}

/// The nanoseconds from `earlier` to `now`, zero when `now` is earlier.
pub open spec fn elapsed_nanos(earlier: Instant, now: Instant) -> int {
    if now.nanos >= earlier.nanos {
        now.nanos - earlier.nanos
    } else {
        0
    }
}

/// Events per second for `count` events in a window of `window_nanos`
/// nanoseconds, rounded down and capped at `u32::MAX`; 0 for an empty window.
pub open spec fn rate_of(count: int, window_nanos: int) -> u32 {
    if window_nanos == 0 {
        0
    } else if count * 1_000_000_000 / window_nanos > u32::MAX {
        u32::MAX
    } else {
        (count * 1_000_000_000 / window_nanos) as u32
    }
}

/// The state after dropping the times that left the window ending at `now`.
pub open spec fn view_cleanup(v: RateView, window: Duration, now: Instant) -> RateView {
    RateView { times: keep_after(v.times, now.nanos - window.nanos), burst: v.burst, reset: v.reset }
}

/// The state after resetting the burst counter when more than a tenth of
/// the window has passed since the last reset.
pub open spec fn view_reset(v: RateView, window: Duration, now: Instant) -> RateView {
    if elapsed_nanos(v.reset, now) > window.nanos / 10 {
        RateView { times: v.times, burst: 0, reset: now }
    } else {
        v
    }
}

/// The state after recording an event at `now`.
pub open spec fn view_record(v: RateView, now: Instant) -> RateView {
    RateView { times: v.times.push(now), burst: (v.burst + 1) as u32, reset: v.reset }
}

/// The state of a session seen for the first time at `now`.
pub open spec fn view_fresh(now: Instant) -> RateView {
    RateView { times: Seq::empty(), burst: 0, reset: now }
}

/// The state after cleanup and burst reset, before the limits are checked.
pub open spec fn view_prepared(v: RateView, cfg: RateLimiterConfig, now: Instant) -> RateView {
    view_reset(view_cleanup(v, cfg.window, now), cfg.window, now)
}

/// 0 when a check of a session in state `v` passes; 1 when the burst limit
/// refuses it; 2 when the rate limit does.
pub open spec fn check_verdict(v: RateView, cfg: RateLimiterConfig, now: Instant) -> int {
    let p = view_prepared(v, cfg, now);
    if p.burst >= cfg.burst_limit {
        1
    } else if rate_of(p.times.len() as int, cfg.window.nanos as int) >= cfg.max_events_per_sec {
        2
    } else {
        0
    }
}

/// The state of a session after a check in state `v`.
pub open spec fn view_after_check(v: RateView, cfg: RateLimiterConfig, now: Instant) -> RateView {
    let p = view_prepared(v, cfg, now);
    if check_verdict(v, cfg, now) == 0 {
        view_record(p, now)
    } else {
        p
    }
}

/// Whether `r` failed with `RateLimitExceeded` naming `measured` and `limit`.
pub open spec fn fails_rate_limited<T>(r: Result<T, Error>, measured: u32, limit: u32) -> bool {
    r matches Err(Error::Input(InputError::RateLimitExceeded { events_per_sec, max }))
        && events_per_sec == measured && max == limit
}

/// Rate tracking state of one session.
#[derive(Debug)]
pub struct SessionRateState {
    event_times: Vec<Instant>,
    current_burst: u32,
    burst_reset_time: Instant,
}

impl View for SessionRateState {
    type V = RateView;

    closed spec fn view(&self) -> RateView {
        RateView {
            times: self.event_times@,
            burst: self.current_burst,
            reset: self.burst_reset_time,
        }
    }
}

impl SessionRateState {
    /// A state with no event, its burst counter reset at `now`.
    pub fn new(now: Instant) -> (r: SessionRateState)
        ensures
            r@ == view_fresh(now),
    {
        SessionRateState { event_times: Vec::new(), current_burst: 0, burst_reset_time: now }
    }

    /// Drops the event times not later than `now - window`.
    pub fn cleanup(&mut self, window: Duration, now: Instant)
        ensures
            final(self)@ == view_cleanup(old(self)@, window, now),
            final(self)@.times == old(self)@.times.filter(
                |t: Instant| t.nanos > now.nanos - window.nanos,
            ),
    {
        proof {
            lemma_keep_after_is_filter(self.event_times@, now.nanos - window.nanos);
        }
        if now.nanos < window.nanos {
            // The window reaches back before the clock's origin: every
            // recorded time lies inside it.
            proof {
                lemma_keep_after_all(self.event_times@, now.nanos - window.nanos);
            }
            return;
        }
        let cutoff = now.nanos - window.nanos;
        let mut kept: Vec<Instant> = Vec::new();
        let mut i: usize = 0;
        while i < self.event_times.len()
            invariant
                i <= self.event_times@.len(),
                kept@ == keep_after(self.event_times@.take(i as int), cutoff as int),
            decreases self.event_times@.len() - i,
        {
            let t = self.event_times[i];
            assert(self.event_times@.take(i + 1).drop_last() =~= self.event_times@.take(i as int));
            if t.nanos > cutoff {
                kept.push(t);
            }
            i = i + 1;
        }
        assert(self.event_times@.take(i as int) =~= self.event_times@);
        self.event_times = kept;
    }

    /// Records an event at `now`.
    pub fn record_event(&mut self, now: Instant)
        requires
            old(self)@.burst < u32::MAX,
        ensures
            final(self)@ == view_record(old(self)@, now),
    {
        self.event_times.push(now);
        self.current_burst = self.current_burst + 1;
    }

    /// Resets the burst counter when more than a tenth of `window` has passed
    /// since the last reset.
    pub fn maybe_reset_burst(&mut self, window: Duration, now: Instant)
        ensures
            final(self)@ == view_reset(old(self)@, window, now),
    {
        let elapsed = now.duration_since(self.burst_reset_time);
        if elapsed.nanos > window.nanos / 10 {
            self.current_burst = 0;
            self.burst_reset_time = now;
        }
    }

    /// The rate over `window`: recorded events per second, rounded down.
    pub fn events_per_sec(&self, window: Duration) -> (r: u32)
        ensures
            r == rate_of(self@.times.len() as int, window.nanos as int),
    {
        if window.nanos == 0 {
            return 0;
        }
        let count = self.event_times.len() as u128;
        let scaled: u128 = count * 1_000_000_000u128;
        let rate: u128 = scaled / (window.nanos as u128);
        if rate > u32::MAX as u128 {
            u32::MAX
        } else {
            rate as u32
        }
    }

    /// Events in the current burst.
    pub fn current_burst(&self) -> (r: u32)
        ensures
            r == self@.burst,
    {
        self.current_burst
    }
}

/// The id of the `i`-th tracked session.
pub open spec fn entry_id(e: Seq<(SessionId, SessionRateState)>, i: int) -> Seq<char> {
    e[i].0@
}

/// Whether `id` is tracked.
pub open spec fn tracks(e: Seq<(SessionId, SessionRateState)>, id: Seq<char>) -> bool {
    exists|i: int| 0 <= i < e.len() && #[trigger] entry_id(e, i) == id
}

/// What a check of session `id` at `now` does to the limiter `l` (giving
/// `l2`) and returns: the session's state becomes its state after the check
/// (a session not yet tracked starts fresh at `now` and is appended), the
/// result is `Ok` exactly when the check passes, a refusal names the burst
/// or the rate against its limit, and every other session is untouched.
pub open spec fn check_outcome(
    l: RateLimiter,
    l2: RateLimiter,
    id: Seq<char>,
    now: Instant,
    r: Result<(), Error>,
) -> bool {
    let cfg = l.spec_config();
    let before = if tracks(l.entries(), id) {
        l.state_of(id)
    } else {
        view_fresh(now)
    };
    let verdict = check_verdict(before, cfg, now);
    let p = view_prepared(before, cfg, now);
    &&& tracks(l2.entries(), id)
    &&& l2.state_of(id) == view_after_check(before, cfg, now)
    &&& (r is Ok <==> verdict == 0)
    &&& verdict == 1 ==> fails_rate_limited(r, p.burst, cfg.burst_limit)
    &&& verdict == 2 ==> fails_rate_limited(
        r,
        rate_of(p.times.len() as int, cfg.window.nanos as int),
        cfg.max_events_per_sec,
    )
    &&& tracks(l.entries(), id) ==> l2.entries().len() == l.entries().len() && l2.index_of(id)
        == l.index_of(id)
    &&& !tracks(l.entries(), id) ==> l2.entries().len() == l.entries().len() + 1 && l2.index_of(id)
        == l.entries().len()
    &&& forall|k: int|
        0 <= k < l.entries().len() && entry_id(l.entries(), k) != id ==> #[trigger] l2.entries()[k]
            == l.entries()[k]
}

/// Per-session rate limiter.
#[derive(Debug)]
pub struct RateLimiter {
    config: RateLimiterConfig,
    sessions: Vec<(SessionId, SessionRateState)>,
    clock: MonotonicClock,
}

impl RateLimiter {
    /// The configuration.
    pub closed spec fn spec_config(&self) -> RateLimiterConfig {
        self.config
    }

    /// The clock `check` reads.
    pub closed spec fn spec_clock(&self) -> MonotonicClock {
        self.clock
    }

    /// The tracked sessions and their states, in order of first check.
    pub closed spec fn entries(&self) -> Seq<(SessionId, SessionRateState)> {
        self.sessions@
    }

    /// The invariant: each session is tracked at most once.
    pub closed spec fn wf(&self) -> bool {
        forall|i: int, j: int|
            0 <= i < self.sessions@.len() && 0 <= j < self.sessions@.len() && i != j
                ==> entry_id(self.sessions@, i) != entry_id(self.sessions@, j)
    }

    /// The position of `id` among the entries; meaningful when tracked.
    pub open spec fn index_of(&self, id: Seq<char>) -> int {
        choose|i: int| 0 <= i < self.entries().len() && #[trigger] entry_id(self.entries(), i) == id
    }

    /// The rate state of `id`; meaningful when tracked.
    pub open spec fn state_of(&self, id: Seq<char>) -> RateView {
        self.entries()[self.index_of(id)].1@
    }

    /// A limiter tracking no session.
    pub fn new(config: RateLimiterConfig) -> (r: RateLimiter)
        ensures
            r.wf(),
            r.spec_config() == config,
            r.entries() == Seq::<(SessionId, SessionRateState)>::empty(),
    {
        RateLimiter { config, sessions: Vec::new(), clock: MonotonicClock::start() }
    }

    /// A limiter with the default configuration.
    pub fn with_defaults() -> (r: RateLimiter)
        ensures
            r.wf(),
            r.spec_config().max_events_per_sec == 1000,
            r.spec_config().burst_limit == 100,
            r.spec_config().window.nanos == 1_000_000_000,
            r.entries() == Seq::<(SessionId, SessionRateState)>::empty(),
    {
        RateLimiter::new(RateLimiterConfig::default())
    }

    fn find(&self, id: &SessionId) -> (r: Option<usize>)
        requires
            self.wf(),
        ensures
            r is None <==> !tracks(self.entries(), id@),
            r matches Some(i) ==> i < self.entries().len() && entry_id(self.entries(), i as int)
                == id@ && i == self.index_of(id@),
    {
        let mut i: usize = 0;
        while i < self.sessions.len()
            invariant
                i <= self.sessions@.len(),
                self.wf(),
                forall|k: int| 0 <= k < i ==> #[trigger] entry_id(self.sessions@, k) != id@,
            decreases self.sessions@.len() - i,
        {
            if self.sessions[i].0.same_as(id) {
                assert(entry_id(self.sessions@, i as int) == id@);
                return Some(i);
            }
            i = i + 1;
        }
        None
    }

    /// Checks an event of session `session_id` at time `now`: records it and
    /// succeeds when it is within the limits, otherwise fails with
    /// `RateLimitExceeded` naming the burst count and burst limit, or the
    /// rate and maximum rate. A session not yet tracked starts tracked with
    /// a fresh state; cleanup and burst reset happen on every check.
    pub fn check_at(&mut self, session_id: &SessionId, now: Instant) -> (r: Result<(), Error>)
        requires
            old(self).wf(),
        ensures
            final(self).wf(),
            final(self).spec_config() == old(self).spec_config(),
            final(self).spec_clock() == old(self).spec_clock(),
            check_outcome(*old(self), *final(self), session_id@, now, r),
    {
        let ghost old_entries = self.sessions@;
        let idx = match self.find(session_id) {
            Some(i) => i,
            None => {
                self.sessions.push((session_id.clone(), SessionRateState::new(now)));
                proof {
                    let n = old_entries.len() as int;
                    assert forall|a: int, b: int|
                        0 <= a < self.sessions@.len() && 0 <= b < self.sessions@.len() && a != b implies entry_id(
                            self.sessions@,
                            a,
                        ) != entry_id(self.sessions@, b) by {
                        if a == n {
                            assert(entry_id(old_entries, b) == entry_id(self.sessions@, b));
                        } else if b == n {
                            assert(entry_id(old_entries, a) == entry_id(self.sessions@, a));
                        } else {
                            assert(entry_id(old_entries, a) == entry_id(self.sessions@, a));
                            assert(entry_id(old_entries, b) == entry_id(self.sessions@, b));
                        }
                    }
                }
                self.sessions.len() - 1
            },
        };
        let ghost mid = self.sessions@;
        let (id, mut state) = self.sessions.remove(idx);
        let ghost before = state@;
        state.cleanup(self.config.window, now);
        state.maybe_reset_burst(self.config.window, now);
        let burst = state.current_burst();
        let result = if burst >= self.config.burst_limit {
            Err(
                Error::Input(
                    InputError::RateLimitExceeded {
                        events_per_sec: burst,
                        max: self.config.burst_limit,
                    },
                ),
            )
        } else {
            let rate = state.events_per_sec(self.config.window);
            if rate >= self.config.max_events_per_sec {
                Err(
                    Error::Input(
                        InputError::RateLimitExceeded {
                            events_per_sec: rate,
                            max: self.config.max_events_per_sec,
                        },
                    ),
                )
            } else {
                state.record_event(now);
                Ok(())
            }
        };
        self.sessions.insert(idx, (id, state));
        proof {
            assert(self.sessions@ =~= mid.update(idx as int, self.sessions@[idx as int]));
            assert forall|a: int, b: int|
                0 <= a < self.sessions@.len() && 0 <= b < self.sessions@.len() && a != b implies entry_id(
                    self.sessions@,
                    a,
                ) != entry_id(self.sessions@, b) by {
                assert(entry_id(mid, a) == entry_id(self.sessions@, a));
                assert(entry_id(mid, b) == entry_id(self.sessions@, b));
            }
            assert(entry_id(self.sessions@, idx as int) == session_id@);
        }
        result
    }

    /// Checks an event of `session_id` now, by the limiter's monotonic
    /// clock: exactly [`RateLimiter::check_at`] at a new reading, never
    /// earlier than the reading of the check before. Checks through `check`
    /// therefore come at non-decreasing instants, as
    /// [`lemma_burst_admits_exactly_first`] and
    /// [`lemma_window_never_exceeds_rate`] take them.
    pub fn check(&mut self, session_id: &SessionId) -> (r: Result<(), Error>)
        requires
            old(self).wf(),
        ensures
            final(self).wf(),
            final(self).spec_config() == old(self).spec_config(),
            final(self).spec_clock().last_reading() >= old(self).spec_clock().last_reading(),
            final(self).spec_clock().same_clock(old(self).spec_clock()),
            check_outcome(
                *old(self),
                *final(self),
                session_id@,
                Instant { nanos: final(self).spec_clock().last_reading() },
                r,
            ),
    {
        let now = self.clock.now();
        self.check_at(session_id, now)
    }

    /// Stops tracking `session_id`.
    pub fn remove_session(&mut self, session_id: &SessionId)
        requires
            old(self).wf(),
        ensures
            final(self).wf(),
            final(self).spec_config() == old(self).spec_config(),
            final(self).spec_clock() == old(self).spec_clock(),
            !tracks(final(self).entries(), session_id@),
            tracks(old(self).entries(), session_id@) ==> final(self).entries() == old(
                self,
            ).entries().remove(old(self).index_of(session_id@)),
            !tracks(old(self).entries(), session_id@) ==> final(self).entries() == old(
                self,
            ).entries(),
    {
        match self.find(session_id) {
            Some(i) => {
                let ghost before = self.sessions@;
                let _ = self.sessions.remove(i);
                proof {
                    assert(self.sessions@ =~= before.remove(i as int));
                    assert forall|k: int| 0 <= k < self.sessions@.len() implies #[trigger] entry_id(
                        self.sessions@,
                        k,
                    ) != session_id@ by {
                        if k < i {
                            assert(entry_id(self.sessions@, k) == entry_id(before, k));
                        } else {
                            assert(entry_id(self.sessions@, k) == entry_id(before, k + 1));
                        }
                    }
                    assert forall|a: int, b: int|
                        0 <= a < self.sessions@.len() && 0 <= b < self.sessions@.len() && a != b implies entry_id(
                            self.sessions@,
                            a,
                        ) != entry_id(self.sessions@, b) by {
                        let a2 = if a < i { a } else { a + 1 };
                        let b2 = if b < i { b } else { b + 1 };
                        assert(entry_id(self.sessions@, a) == entry_id(before, a2));
                        assert(entry_id(self.sessions@, b) == entry_id(before, b2));
                    }
                }
            },
            None => {},
        }
    }

    /// The current rate of `session_id` over the window; 0 when untracked.
    pub fn current_rate(&self, session_id: &SessionId) -> (r: u32)
        requires
            self.wf(),
        ensures
            tracks(self.entries(), session_id@) ==> r == rate_of(
                self.state_of(session_id@).times.len() as int,
                self.spec_config().window.nanos as int,
            ),
            !tracks(self.entries(), session_id@) ==> r == 0,
    {
        match self.find(session_id) {
            Some(i) => self.sessions[i].1.events_per_sec(self.config.window),
            None => 0,
        }
    }

    /// The number of tracked sessions.
    pub fn session_count(&self) -> (r: usize)
        ensures
            r == self.entries().len(),
    {
        self.sessions.len()
    }
}

/// `k` checks at the same instant `now`, starting in state `v`: the state
/// after them and how many passed.
pub open spec fn repeat_checks(v: RateView, cfg: RateLimiterConfig, now: Instant, k: nat) -> (
    RateView,
    nat,
)
    decreases k,
{
    if k == 0 {
        (v, 0)
    } else {
        let (w, accepted) = repeat_checks(v, cfg, now, (k - 1) as nat);
        (
            view_after_check(w, cfg, now),
            accepted + if check_verdict(w, cfg, now) == 0 {
                1nat
            } else {
                0nat
            },
        )
    }
}

/// A check never takes the burst counter past the burst limit: a session
/// within its burst stays within it.
pub proof fn lemma_check_keeps_burst_within_limit(v: RateView, cfg: RateLimiterConfig, now: Instant)
    requires
        v.burst <= cfg.burst_limit,
    ensures
        view_after_check(v, cfg, now).burst <= cfg.burst_limit,
{
}

/// Once a burst is full, every check before the burst counter resets (a
/// tenth of the window after the last reset) is refused by the burst limit.
pub proof fn lemma_full_burst_refused(v: RateView, cfg: RateLimiterConfig, now: Instant)
    requires
        v.burst >= cfg.burst_limit,
        elapsed_nanos(v.reset, now) <= cfg.window.nanos / 10,
    ensures
        check_verdict(v, cfg, now) == 1,
        view_after_check(v, cfg, now).burst == v.burst,
{
}

/// After more than a tenth of the window since the last reset, the burst
/// counter starts over: with a positive burst limit, the burst limit does
/// not refuse the check.
pub proof fn lemma_burst_resets_after_interval(v: RateView, cfg: RateLimiterConfig, now: Instant)
    requires
        elapsed_nanos(v.reset, now) > cfg.window.nanos / 10,
        cfg.burst_limit > 0,
    ensures
        check_verdict(v, cfg, now) != 1,
        view_prepared(v, cfg, now).burst == 0,
        view_prepared(v, cfg, now).reset == now,
{
}

/// A refused check records nothing: the session keeps the events still in
/// the window and its burst counter, and the rate it is measured at does
/// not grow.
pub proof fn lemma_refused_check_records_nothing(v: RateView, cfg: RateLimiterConfig, now: Instant)
    requires
        check_verdict(v, cfg, now) != 0,
    ensures
        view_after_check(v, cfg, now) == view_prepared(v, cfg, now),
        view_after_check(v, cfg, now).times == keep_after(v.times, now.nanos - cfg.window.nanos),
{
}

/// An accepted check records exactly one event, at `now`, and was made
/// while the burst and the rate were both under their limits.
pub proof fn lemma_accepted_check_records_one(v: RateView, cfg: RateLimiterConfig, now: Instant)
    requires
        check_verdict(v, cfg, now) == 0,
    ensures
        view_after_check(v, cfg, now).times == view_prepared(v, cfg, now).times.push(now),
        view_after_check(v, cfg, now).burst == view_prepared(v, cfg, now).burst + 1,
        view_prepared(v, cfg, now).burst < cfg.burst_limit,
        rate_of(view_prepared(v, cfg, now).times.len() as int, cfg.window.nanos as int)
            < cfg.max_events_per_sec,
{
}

/// Keeping part of a sequence of times never lengthens it.
proof fn lemma_keep_after_len(s: Seq<Instant>, cutoff: int)
    ensures
        keep_after(s, cutoff).len() <= s.len(),
    decreases s.len(),
{
    if s.len() > 0 {
        lemma_keep_after_len(s.drop_last(), cutoff);
    }
}

/// More events in the same window never measure a lower rate.
proof fn lemma_rate_of_monotone(a: int, b: int, w: int)
    requires
        0 <= a <= b,
        0 <= w,
    ensures
        rate_of(a, w) <= rate_of(b, w),
{
    if w > 0 {
        assert(a * 1_000_000_000 <= b * 1_000_000_000) by (nonlinear_arith)
            requires
                a <= b,
        ;
        vstd::arithmetic::div_mod::lemma_div_is_ordered(a * 1_000_000_000, b * 1_000_000_000, w);
    }
}

/// A check never takes a session past `n` events in its window when `n`
/// events already measure the maximum rate.
pub proof fn lemma_check_keeps_window_within(
    v: RateView,
    cfg: RateLimiterConfig,
    now: Instant,
    n: nat,
)
    requires
        v.times.len() <= n,
        rate_of(n as int, cfg.window.nanos as int) >= cfg.max_events_per_sec,
    ensures
        view_after_check(v, cfg, now).times.len() <= n,
{
    let p = view_prepared(v, cfg, now);
    lemma_keep_after_len(v.times, now.nanos - cfg.window.nanos);
    assert(p.times.len() <= v.times.len());
    if check_verdict(v, cfg, now) == 0 && p.times.len() >= n {
        lemma_rate_of_monotone(n as int, p.times.len() as int, cfg.window.nanos as int);
    }
}

/// The state of a session after checks at the instants `ts`, in order,
/// starting in state `v`.
pub open spec fn checks_at(v: RateView, cfg: RateLimiterConfig, ts: Seq<Instant>) -> RateView
    decreases ts.len(),
{
    if ts.len() == 0 {
        v
    } else {
        view_after_check(checks_at(v, cfg, ts.drop_last()), cfg, ts.last())
    }
}

/// However its events arrive, a session never holds more events in its
/// window than the number `n` at which the window measures the maximum
/// rate: with 1000 events per second over one second, never more than
/// 1000.
pub proof fn lemma_window_never_exceeds_rate(
    cfg: RateLimiterConfig,
    start: Instant,
    ts: Seq<Instant>,
    n: nat,
)
    requires
        rate_of(n as int, cfg.window.nanos as int) >= cfg.max_events_per_sec,
    ensures
        checks_at(view_fresh(start), cfg, ts).times.len() <= n,
    decreases ts.len(),
{
    if ts.len() > 0 {
        lemma_window_never_exceeds_rate(cfg, start, ts.drop_last(), n);
        lemma_check_keeps_window_within(
            checks_at(view_fresh(start), cfg, ts.drop_last()),
            cfg,
            ts.last(),
            n,
        );
    }
}

/// Keeping the times after a cutoff that every time passes keeps them all.
proof fn lemma_keep_after_keeps_later(s: Seq<Instant>, cutoff: int)
    requires
        forall|k: int| 0 <= k < s.len() ==> (#[trigger] s[k]).nanos > cutoff,
    ensures
        keep_after(s, cutoff) == s,
    decreases s.len(),
{
    if s.len() > 0 {
        lemma_keep_after_keeps_later(s.drop_last(), cutoff);
        assert(s.drop_last().push(s.last()) =~= s);
    }
}

/// Whether the instants `ts` all fall within a tenth of the window after
/// the first.
pub open spec fn within_burst_interval(cfg: RateLimiterConfig, ts: Seq<Instant>) -> bool {
    &&& ts.len() > 0
    &&& forall|j: int|
        0 <= j < ts.len() ==> ts[0].nanos <= (#[trigger] ts[j]).nanos <= ts[0].nanos
            + cfg.window.nanos / 10
}

/// Whether the burst fits within the rate: `burst_limit` events in one
/// window stay within `max_events_per_sec`.
pub open spec fn burst_fits_rate(cfg: RateLimiterConfig) -> bool {
    cfg.burst_limit * 1_000_000_000 <= cfg.max_events_per_sec * cfg.window.nanos
}

/// Fewer events than the burst limit measure a rate under the maximum when
/// the burst fits within the rate.
proof fn lemma_under_burst_under_rate(cfg: RateLimiterConfig, n: nat)
    requires
        burst_fits_rate(cfg),
        n < cfg.burst_limit,
    ensures
        rate_of(n as int, cfg.window.nanos as int) < cfg.max_events_per_sec,
{
    let w = cfg.window.nanos as int;
    let b = cfg.burst_limit as int;
    let m = cfg.max_events_per_sec as int;
    assert(n * 1_000_000_000 < b * 1_000_000_000) by (nonlinear_arith)
        requires
            n < b,
    ;
    assert(w > 0) by (nonlinear_arith)
        requires
            b * 1_000_000_000 <= m * w,
            b > 0,
            w >= 0,
            m >= 0,
    ;
    let x: int = n as int * 1_000_000_000;
    assert(x / w < m) by (nonlinear_arith)
        requires
            x < m * w,
            w > 0,
            x >= 0,
    ;
}

/// The state of a session first checked at `ts[0]` after the checks at the
/// first `n` instants of `ts`, when they all fall within a tenth of the
/// window: every accepted event is kept, the burst counter was never
/// reset, and `min(n, burst_limit)` events were accepted.
proof fn lemma_burst_prefix(cfg: RateLimiterConfig, ts: Seq<Instant>, n: nat)
    requires
        within_burst_interval(cfg, ts),
        burst_fits_rate(cfg),
        n <= ts.len(),
    ensures
        ({
            let v = checks_at(view_fresh(ts[0]), cfg, ts.take(n as int));
            let accepted = if n < cfg.burst_limit { n } else { cfg.burst_limit as nat };
            &&& v.burst == accepted
            &&& v.times.len() == accepted
            &&& v.reset == ts[0]
            &&& forall|k: int|
                0 <= k < v.times.len() ==> ts[0].nanos <= (#[trigger] v.times[k]).nanos <= ts[0].nanos
                    + cfg.window.nanos / 10
        }),
    decreases n,
{
    if n == 0 {
        assert(ts.take(0) =~= Seq::<Instant>::empty());
    } else {
        let m = (n - 1) as nat;
        lemma_burst_prefix(cfg, ts, m);
        assert(ts.take(n as int).drop_last() =~= ts.take(m as int));
        assert(ts.take(n as int).last() == ts[m as int]);
        let v = checks_at(view_fresh(ts[0]), cfg, ts.take(m as int));
        lemma_burst_step(cfg, ts, m, v);
    }
}

/// One check within the burst interval (see [`lemma_burst_prefix`]): the
/// `m`-th check passes exactly when fewer than `burst_limit` passed
/// before, and is otherwise refused by the burst limit at a full burst.
proof fn lemma_burst_step(cfg: RateLimiterConfig, ts: Seq<Instant>, m: nat, v: RateView)
    requires
        within_burst_interval(cfg, ts),
        burst_fits_rate(cfg),
        m < ts.len(),
        v.burst == (if m < cfg.burst_limit { m } else { cfg.burst_limit as nat }),
        v.times.len() == v.burst,
        v.reset == ts[0],
        forall|k: int|
            0 <= k < v.times.len() ==> ts[0].nanos <= (#[trigger] v.times[k]).nanos <= ts[0].nanos
                + cfg.window.nanos / 10,
    ensures
        view_prepared(v, cfg, ts[m as int]) == v,
        check_verdict(v, cfg, ts[m as int]) == (if m < cfg.burst_limit { 0int } else { 1int }),
        ({
            let w = view_after_check(v, cfg, ts[m as int]);
            let accepted = if m + 1 < cfg.burst_limit { (m + 1) as nat } else { cfg.burst_limit as nat };
            &&& w.burst == accepted
            &&& w.times.len() == accepted
            &&& w.reset == ts[0]
            &&& forall|k: int|
                0 <= k < w.times.len() ==> ts[0].nanos <= (#[trigger] w.times[k]).nanos <= ts[0].nanos
                    + cfg.window.nanos / 10
        }),
{
    let now = ts[m as int];
    assert(ts[0].nanos <= now.nanos <= ts[0].nanos + cfg.window.nanos / 10);
    if v.times.len() > 0 {
        assert(cfg.window.nanos > 0) by (nonlinear_arith)
            requires
                cfg.burst_limit * 1_000_000_000 <= cfg.max_events_per_sec * cfg.window.nanos,
                cfg.burst_limit > 0,
        ;
        assert forall|k: int| 0 <= k < v.times.len() implies (#[trigger] v.times[k]).nanos > now.nanos
            - cfg.window.nanos by {
            assert(v.times[k].nanos >= ts[0].nanos);
        }
        lemma_keep_after_keeps_later(v.times, now.nanos - cfg.window.nanos);
    } else {
        assert(keep_after(v.times, now.nanos - cfg.window.nanos) =~= v.times);
    }
    assert(view_cleanup(v, cfg.window, now) == v);
    assert(view_prepared(v, cfg, now) == v);
    if m < cfg.burst_limit {
        lemma_under_burst_under_rate(cfg, m);
        let w = view_after_check(v, cfg, now);
        assert(w.times == v.times.push(now));
        assert forall|k: int| 0 <= k < w.times.len() implies ts[0].nanos <= (#[trigger] w.times[k]).nanos
            <= ts[0].nanos + cfg.window.nanos / 10 by {
            if k < v.times.len() {
                assert(w.times[k] == v.times[k]);
            }
        }
    }
}

/// The burst law: when a session is first checked at `ts[0]` and checked
/// again at each later instant of `ts`, all within a tenth of the window
/// of the first, and the burst fits within the rate, exactly the first
/// `min(ts.len(), burst_limit)` checks pass; every later one is refused by
/// the burst limit with the burst full, so `check_at` fails naming
/// `burst_limit` events against the limit `burst_limit`. (`check_at`
/// leaves every other session as it was.)
pub proof fn lemma_burst_admits_exactly_first(cfg: RateLimiterConfig, ts: Seq<Instant>, i: nat)
    requires
        within_burst_interval(cfg, ts),
        burst_fits_rate(cfg),
        i < ts.len(),
    ensures
        check_verdict(checks_at(view_fresh(ts[0]), cfg, ts.take(i as int)), cfg, ts[i as int]) == 0
            <==> i < cfg.burst_limit,
        i >= cfg.burst_limit ==> check_verdict(
            checks_at(view_fresh(ts[0]), cfg, ts.take(i as int)),
            cfg,
            ts[i as int],
        ) == 1 && view_prepared(
            checks_at(view_fresh(ts[0]), cfg, ts.take(i as int)),
            cfg,
            ts[i as int],
        ).burst == cfg.burst_limit,
        checks_at(view_fresh(ts[0]), cfg, ts).burst == if ts.len() < cfg.burst_limit {
            ts.len()
        } else {
            cfg.burst_limit as nat
        },
{
    lemma_burst_prefix(cfg, ts, i);
    let v = checks_at(view_fresh(ts[0]), cfg, ts.take(i as int));
    lemma_burst_step(cfg, ts, i, v);
    lemma_burst_prefix(cfg, ts, ts.len());
    assert(ts.take(ts.len() as int) =~= ts);
}

/// The state a session has before the `j`-th of a series of checks made
/// through limiters `ls` (the first check finds it untracked).
pub open spec fn state_before_check(ls: Seq<RateLimiter>, id: Seq<char>, ts: Seq<Instant>, j: int) -> RateView {
    if tracks(ls[j].entries(), id) {
        ls[j].state_of(id)
    } else {
        view_fresh(ts[j])
    }
}

/// Whether `ls[j + 1]` and `rs[j]` are what a check of `id` at `ts[j]`
/// makes of `ls[j]`.
pub open spec fn checked_step(
    ls: Seq<RateLimiter>,
    rs: Seq<Result<(), Error>>,
    ts: Seq<Instant>,
    id: Seq<char>,
    j: int,
) -> bool {
    check_outcome(ls[j], ls[j + 1], id, ts[j], rs[j])
}

/// The burst law over successive checks of one session: given limiters
/// `ls[0]`, ..., `ls[k]` and results `rs` such that each `ls[j + 1]` and
/// `rs[j]` are what a check of `id` at `ts[j]` makes of `ls[j]` (as
/// `check` and `check_at` ensure), the session untracked at first, the
/// configuration unchanged, the instants within a tenth of the window of
/// the first and the burst within the rate: exactly the first
/// `min(k, burst_limit)` checks pass, and every later one fails with
/// `RateLimitExceeded` naming `burst_limit` events against `burst_limit`.
pub proof fn lemma_checks_admit_exactly_burst(
    ls: Seq<RateLimiter>,
    rs: Seq<Result<(), Error>>,
    ts: Seq<Instant>,
    id: Seq<char>,
    cfg: RateLimiterConfig,
)
    requires
        ls.len() == ts.len() + 1,
        rs.len() == ts.len(),
        !tracks(ls[0].entries(), id),
        forall|j: int| 0 <= j < ls.len() ==> (#[trigger] ls[j]).spec_config() == cfg,
        forall|j: int| 0 <= j < ts.len() ==> #[trigger] checked_step(ls, rs, ts, id, j),
        within_burst_interval(cfg, ts),
        burst_fits_rate(cfg),
    ensures
        forall|j: int| 0 <= j < ts.len() ==> ((#[trigger] rs[j]) is Ok <==> j < cfg.burst_limit),
        forall|j: int|
            0 <= j < ts.len() && j >= cfg.burst_limit ==> fails_rate_limited(
                #[trigger] rs[j],
                cfg.burst_limit,
                cfg.burst_limit,
            ),
{
    assert forall|j: int| 0 <= j < ts.len() implies state_before_check(ls, id, ts, j) == checks_at(
        view_fresh(ts[0]),
        cfg,
        ts.take(j),
    ) by {
        lemma_state_before_check(ls, rs, ts, id, cfg, j);
    }
    assert forall|j: int| 0 <= j < ts.len() implies ((#[trigger] rs[j]) is Ok <==> j < cfg.burst_limit)
        && (j >= cfg.burst_limit ==> fails_rate_limited(rs[j], cfg.burst_limit, cfg.burst_limit)) by {
        lemma_state_before_check(ls, rs, ts, id, cfg, j);
        lemma_burst_admits_exactly_first(cfg, ts, j as nat);
        assert(checked_step(ls, rs, ts, id, j));
        assert(ls[j].spec_config() == cfg);
    }
}

proof fn lemma_state_before_check(
    ls: Seq<RateLimiter>,
    rs: Seq<Result<(), Error>>,
    ts: Seq<Instant>,
    id: Seq<char>,
    cfg: RateLimiterConfig,
    j: int,
)
    requires
        ls.len() == ts.len() + 1,
        rs.len() == ts.len(),
        !tracks(ls[0].entries(), id),
        forall|j: int| 0 <= j < ls.len() ==> (#[trigger] ls[j]).spec_config() == cfg,
        forall|j: int| 0 <= j < ts.len() ==> #[trigger] checked_step(ls, rs, ts, id, j),
        within_burst_interval(cfg, ts),
        0 <= j < ts.len(),
    ensures
        state_before_check(ls, id, ts, j) == checks_at(view_fresh(ts[0]), cfg, ts.take(j)),
    decreases j,
{
    if j == 0 {
        assert(ts.take(0) =~= Seq::<Instant>::empty());
    } else {
        lemma_state_before_check(ls, rs, ts, id, cfg, j - 1);
        assert(checked_step(ls, rs, ts, id, j - 1));
        assert(tracks(ls[j].entries(), id));
        assert(ts.take(j).drop_last() =~= ts.take(j - 1));
        assert(ts.take(j).last() == ts[j - 1]);
        if j - 1 == 0 {
            assert(state_before_check(ls, id, ts, 0) == view_fresh(ts[0]));
        }
    }
}

/// A new session checked repeatedly at one instant has at most
/// `burst_limit` events accepted, however many it sends.
pub proof fn lemma_burst_caps_accepted_events(cfg: RateLimiterConfig, now: Instant, k: nat)
    ensures
        repeat_checks(view_fresh(now), cfg, now, k).1 <= cfg.burst_limit,
        repeat_checks(view_fresh(now), cfg, now, k).1 == repeat_checks(view_fresh(now), cfg, now, k).0.burst,
        repeat_checks(view_fresh(now), cfg, now, k).0.reset == now,
    decreases k,
{
    if k > 0 {
        lemma_burst_caps_accepted_events(cfg, now, (k - 1) as nat);
    }
}

} // verus!
