//! The compositor side of remote desktop: sessions registered by the
//! portal with the devices they may use, and the checks every injected
//! event passes (session known and active, device granted, rate within
//! limits) before it is queued for the compositor.

use vstd::prelude::*;
use vstd::string::StringExecFns;
use crate::compositor::rate_limiter::{check_outcome, check_verdict, tracks, view_fresh, RateLimiter};
use crate::compositor::virtual_input::VirtualInputEvent;
use crate::text::str_eq;
use crate::time::Instant;
use crate::types::device::DeviceType;
use crate::types::error::{Error, InputError, SessionError};
use crate::types::event::{Axis, ButtonState, Coord, InputEvent, KeyState};
use crate::types::session::{is_not_authorized, EventQueue, SessionId};

verus! {

/// A session as the compositor knows it.
#[derive(Clone, Copy, Debug, PartialEq, Eq, Structural)]
pub struct CompositorSession {
    /// The devices the user granted.
    pub authorized_devices: DeviceType,
    /// Whether the session is active.
    pub active: bool,
}

/// The grant recorded for `path` in `s`, if any.
pub open spec fn grant_in(s: Seq<(String, CompositorSession)>, path: Seq<char>) -> Option<
    CompositorSession,
> {
    if exists|i: int| 0 <= i < s.len() && (#[trigger] s[i]).0@ == path {
        Some(s[choose|i: int| 0 <= i < s.len() && (#[trigger] s[i]).0@ == path].1)
    } else {
        None
    }
}

/// Whether no two entries of `s` share a path.
pub open spec fn distinct_paths(s: Seq<(String, CompositorSession)>) -> bool {
    forall|i: int, j: int| 0 <= i < j < s.len() ==> (#[trigger] s[i]).0@ != (#[trigger] s[j]).0@
}

proof fn lemma_grant_at(s: Seq<(String, CompositorSession)>, i: int)
    requires
        distinct_paths(s),
        0 <= i < s.len(),
    ensures
        grant_in(s, s[i].0@) == Some(s[i].1),
{
    let p = s[i].0@;
    assert(exists|k: int| 0 <= k < s.len() && (#[trigger] s[k]).0@ == p);
    let j = choose|k: int| 0 <= k < s.len() && (#[trigger] s[k]).0@ == p;
    if j < i {
        assert(s[j].0@ != s[i].0@);
    } else if j > i {
        assert(s[i].0@ != s[j].0@);
    }
}

proof fn lemma_grant_absent(s: Seq<(String, CompositorSession)>, path: Seq<char>)
    requires
        forall|k: int| 0 <= k < s.len() ==> (#[trigger] s[k]).0@ != path,
    ensures
        grant_in(s, path) is None,
{
}

/// What validating a request of `path` needing the given devices gives:
/// not found, closed, a device not granted (keyboard checked first, then
/// pointer, then touch), or success.
pub open spec fn validation_result(
    grant: Option<CompositorSession>,
    path: Seq<char>,
    needs_keyboard: bool,
    needs_pointer: bool,
    needs_touch: bool,
    r: Result<(), Error>,
) -> bool {
    match grant {
        None => r matches Err(Error::Session(SessionError::NotFound(p))) && p@ == path,
        Some(g) => if !g.active {
            r matches Err(Error::Session(SessionError::Closed))
        } else if needs_keyboard && !g.authorized_devices.keyboard {
            r matches Err(e) && is_not_authorized(e, "keyboard"@)
        } else if needs_pointer && !g.authorized_devices.pointer {
            r matches Err(e) && is_not_authorized(e, "pointer"@)
        } else if needs_touch && !g.authorized_devices.touchscreen {
            r matches Err(e) && is_not_authorized(e, "touchscreen"@)
        } else {
            r is Ok
        },
    }
}

/// Whether a request needing the given devices passes validation.
pub open spec fn validates(
    grant: Option<CompositorSession>,
    needs_keyboard: bool,
    needs_pointer: bool,
    needs_touch: bool,
) -> bool {
    grant matches Some(g) && g.active && (needs_keyboard ==> g.authorized_devices.keyboard) && (
    needs_pointer ==> g.authorized_devices.pointer) && (needs_touch
        ==> g.authorized_devices.touchscreen)
}

/// The verdict of the rate limiter for an event of `id` at `now` (0 when
/// it passes; see [`check_verdict`]).
pub open spec fn rate_verdict(l: RateLimiter, id: Seq<char>, now: Instant) -> int {
    let before = if tracks(l.entries(), id) {
        l.state_of(id)
    } else {
        view_fresh(now)
    };
    check_verdict(before, l.spec_config(), now)
}

/// The remote desktop service of the compositor.
#[derive(Debug)]
pub struct RemoteDesktopService {
    events: EventQueue<VirtualInputEvent>,
    rate_limiter: RateLimiter,
    sessions: Vec<(String, CompositorSession)>,
}

impl RemoteDesktopService {
    /// The grant of the session at `path`.
    pub closed spec fn grant(&self, path: Seq<char>) -> Option<CompositorSession> {
        grant_in(self.sessions@, path)
    }

    /// The events queued for the compositor, oldest first.
    pub closed spec fn queued(&self) -> Seq<VirtualInputEvent> {
        self.events.pending()
    }

    /// Whether the compositor still receives events.
    pub closed spec fn channel_open(&self) -> bool {
        self.events.spec_is_open()
    }

    /// The rate limiter.
    pub closed spec fn limiter(&self) -> RateLimiter {
        self.rate_limiter
    }

    /// The number of registered sessions.
    pub closed spec fn registered(&self) -> nat {
        self.sessions@.len()
    }

    /// The invariant: each path registered once, the limiter well formed.
    pub closed spec fn wf(&self) -> bool {
        distinct_paths(self.sessions@) && self.rate_limiter.wf()
    }

    /// A service with no sessions, checking rates with `rate_limiter`.
    pub fn new(rate_limiter: RateLimiter) -> (r: RemoteDesktopService)
        requires
            rate_limiter.wf(),
        ensures
            r.wf(),
            forall|p: Seq<char>| #[trigger] r.grant(p) is None,
            r.registered() == 0,
            r.queued() == Seq::<VirtualInputEvent>::empty(),
            r.channel_open(),
            r.limiter() == rate_limiter,
    {
        RemoteDesktopService { events: EventQueue::new(), rate_limiter, sessions: Vec::new() }
    }

    fn find(&self, path: &str) -> (r: Option<usize>)
        ensures
            r is None <==> forall|k: int| 0 <= k < self.sessions@.len() ==> (
            #[trigger] self.sessions@[k]).0@ != path@,
            r matches Some(i) ==> i < self.sessions@.len() && self.sessions@[i as int].0@ == path@,
    {
        let mut i: usize = 0;
        while i < self.sessions.len()
            invariant
                i <= self.sessions@.len(),
                forall|k: int| 0 <= k < i ==> (#[trigger] self.sessions@[k]).0@ != path@,
            decreases self.sessions@.len() - i,
        {
            if str_eq(self.sessions[i].0.as_str(), path) {
                return Some(i);
            }
            i = i + 1;
        }
        None
    }

    /// Registers (or re-registers) the session at `path` as active with
    /// `authorized_devices`.
    pub fn register_session(&mut self, path: &str, authorized_devices: DeviceType)
        requires
            old(self).wf(),
        ensures
            final(self).wf(),
            final(self).grant(path@) == Some(CompositorSession { authorized_devices, active: true }),
            forall|p: Seq<char>| p != path@ ==> #[trigger] final(self).grant(p) == old(self).grant(p),
            final(self).registered() == old(self).registered() + if old(self).grant(path@) is None {
                1nat
            } else {
                0nat
            },
            final(self).queued() == old(self).queued(),
            final(self).channel_open() == old(self).channel_open(),
            final(self).limiter() == old(self).limiter(),
    {
        let session = CompositorSession { authorized_devices, active: true };
        let ghost before = self.sessions@;
        match self.find(path) {
            Some(i) => {
                proof {
                    lemma_grant_at(before, i as int);
                }
                let name = self.sessions[i].0.clone();
                self.sessions.set(i, (name, session));
                proof {
                    let s = self.sessions@;
                    assert forall|a: int, b: int| 0 <= a < b < s.len() implies (#[trigger] s[a]).0@
                        != (#[trigger] s[b]).0@ by {
                        assert(s[a].0@ == before[a].0@);
                        assert(s[b].0@ == before[b].0@);
                    }
                    lemma_grant_at(s, i as int);
                    assert forall|p: Seq<char>| p != path@ implies #[trigger] grant_in(s, p)
                        == grant_in(before, p) by {
                        if exists|k: int| 0 <= k < before.len() && (#[trigger] before[k]).0@ == p {
                            let k = choose|k: int| 0 <= k < before.len() && (#[trigger] before[k]).0@ == p;
                            lemma_grant_at(before, k);
                            assert(s[k] == before[k]);
                            lemma_grant_at(s, k);
                        } else {
                            assert forall|k: int| 0 <= k < s.len() implies (#[trigger] s[k]).0@ != p by {
                                assert(s[k].0@ == before[k].0@);
                            }
                        }
                    }
                }
            },
            None => {
                proof {
                    lemma_grant_absent(before, path@);
                }
                self.sessions.push((String::from_str(path), session));
                proof {
                    let s = self.sessions@;
                    assert forall|a: int, b: int| 0 <= a < b < s.len() implies (#[trigger] s[a]).0@
                        != (#[trigger] s[b]).0@ by {
                        if b < before.len() {
                            assert(s[a] == before[a]);
                            assert(s[b] == before[b]);
                        } else {
                            assert(s[a] == before[a]);
                        }
                    }
                    lemma_grant_at(s, before.len() as int);
                    assert forall|p: Seq<char>| p != path@ implies #[trigger] grant_in(s, p)
                        == grant_in(before, p) by {
                        if exists|k: int| 0 <= k < before.len() && (#[trigger] before[k]).0@ == p {
                            let k = choose|k: int| 0 <= k < before.len() && (#[trigger] before[k]).0@ == p;
                            lemma_grant_at(before, k);
                            assert(s[k] == before[k]);
                            lemma_grant_at(s, k);
                        } else {
                            assert forall|k: int| 0 <= k < s.len() implies (#[trigger] s[k]).0@ != p by {
                                if k < before.len() {
                                    assert(s[k] == before[k]);
                                }
                            }
                        }
                    }
                }
            },
        }
    }

    /// Forgets the session at `path` and its rate history.
    pub fn unregister_session(&mut self, path: &str)
        requires
            old(self).wf(),
        ensures
            final(self).wf(),
            final(self).grant(path@) is None,
            forall|p: Seq<char>| p != path@ ==> #[trigger] final(self).grant(p) == old(self).grant(p),
            final(self).registered() == old(self).registered() - if old(self).grant(path@) is None {
                0int
            } else {
                1int
            },
            !tracks(final(self).limiter().entries(), path@),
            tracks(old(self).limiter().entries(), path@) ==> final(self).limiter().entries()
                == old(self).limiter().entries().remove(old(self).limiter().index_of(path@)),
            !tracks(old(self).limiter().entries(), path@) ==> final(self).limiter().entries()
                == old(self).limiter().entries(),
            final(self).limiter().spec_config() == old(self).limiter().spec_config(),
            final(self).queued() == old(self).queued(),
            final(self).channel_open() == old(self).channel_open(),
    {
        let ghost before = self.sessions@;
        match self.find(path) {
            Some(i) => {
                proof {
                    lemma_grant_at(before, i as int);
                }
                let _ = self.sessions.remove(i);
                proof {
                    let s = self.sessions@;
                    assert(s =~= before.remove(i as int));
                    assert forall|a: int, b: int| 0 <= a < b < s.len() implies (#[trigger] s[a]).0@
                        != (#[trigger] s[b]).0@ by {
                        let a2 = if a < i { a } else { a + 1 };
                        let b2 = if b < i { b } else { b + 1 };
                        assert(s[a] == before[a2]);
                        assert(s[b] == before[b2]);
                    }
                    assert forall|k: int| 0 <= k < s.len() implies (#[trigger] s[k]).0@ != path@ by {
                        let k2 = if k < i { k } else { k + 1 };
                        assert(s[k] == before[k2]);
                        assert(before[i as int].0@ == path@);
                    }
                    assert forall|p: Seq<char>| p != path@ implies #[trigger] grant_in(s, p)
                        == grant_in(before, p) by {
                        if exists|k: int| 0 <= k < before.len() && (#[trigger] before[k]).0@ == p {
                            let k = choose|k: int| 0 <= k < before.len() && (#[trigger] before[k]).0@ == p;
                            lemma_grant_at(before, k);
                            assert(k != i);
                            let k2 = if k < i { k } else { k - 1 };
                            assert(s[k2] == before[k]);
                            lemma_grant_at(s, k2);
                        } else {
                            assert forall|k: int| 0 <= k < s.len() implies (#[trigger] s[k]).0@ != p by {
                                let k2 = if k < i { k } else { k + 1 };
                                assert(s[k] == before[k2]);
                            }
                        }
                    }
                }
            },
            None => {
                proof {
                    lemma_grant_absent(before, path@);
                }
            },
        }
        let id = SessionId::new(path);
        self.rate_limiter.remove_session(&id);
    }

    /// Checks that the session at `path` may send an event needing the
    /// given devices (see [`validation_result`]).
    pub fn validate_session(
        &self,
        path: &str,
        needs_keyboard: bool,
        needs_pointer: bool,
        needs_touch: bool,
    ) -> (r: Result<(), Error>)
        requires
            self.wf(),
        ensures
            validation_result(self.grant(path@), path@, needs_keyboard, needs_pointer, needs_touch, r),
            r is Ok <==> validates(self.grant(path@), needs_keyboard, needs_pointer, needs_touch),
    {
        let i = match self.find(path) {
            Some(i) => i,
            None => {
                proof {
                    lemma_grant_absent(self.sessions@, path@);
                }
                return Err(Error::Session(SessionError::NotFound(String::from_str(path))));
            },
        };
        proof {
            lemma_grant_at(self.sessions@, i as int);
        }
        let session = self.sessions[i].1;
        if !session.active {
            return Err(Error::Session(SessionError::Closed));
        }
        if needs_keyboard && !session.authorized_devices.has_keyboard() {
            return Err(Error::Input(InputError::DeviceNotAuthorized(String::from_str("keyboard"))));
        }
        if needs_pointer && !session.authorized_devices.has_pointer() {
            return Err(Error::Input(InputError::DeviceNotAuthorized(String::from_str("pointer"))));
        }
        if needs_touch && !session.authorized_devices.has_touchscreen() {
            return Err(
                Error::Input(InputError::DeviceNotAuthorized(String::from_str("touchscreen"))),
            );
        }
        Ok(())
    }

    /// Queues `event` for the session at `path` after the rate check at
    /// `now`: fails when the rate limiter refuses it or the compositor no
    /// longer receives events.
    fn send_event(&mut self, path: &str, event: InputEvent, now: Instant) -> (r: Result<(), Error>)
        requires
            old(self).wf(),
        ensures
            final(self).wf(),
            forall|p: Seq<char>| #[trigger] final(self).grant(p) == old(self).grant(p),
            final(self).channel_open() == old(self).channel_open(),
            final(self).limiter().spec_config() == old(self).limiter().spec_config(),
            tracks(final(self).limiter().entries(), path@),
            check_outcome(
                old(self).limiter(),
                final(self).limiter(),
                path@,
                now,
                if rate_verdict(old(self).limiter(), path@, now) == 0 {
                    Ok(())
                } else {
                    r
                },
            ),
            r is Ok <==> rate_verdict(old(self).limiter(), path@, now) == 0
                && old(self).channel_open(),
            rate_verdict(old(self).limiter(), path@, now) == 0 && !old(self).channel_open() ==> r
                matches Err(Error::ChannelClosed),
            r is Ok ==> queued_last(final(self).queued(), old(self).queued(), path@, event, now),
            r is Err ==> final(self).queued() == old(self).queued(),
    {
        let session_id = SessionId::new(path);
        match self.rate_limiter.check_at(&session_id, now) {
            Ok(()) => {},
            Err(e) => {
                return Err(e);
            },
        }
        let virtual_event = VirtualInputEvent::new_at(session_id, event, now);
        let ghost before = self.events.pending();
        if self.events.send(virtual_event) {
            assert(self.events.pending().drop_last() =~= before);
            Ok(())
        } else {
            Err(Error::ChannelClosed)
        }
    }

    /// Validates a request of `path` needing the given devices, then
    /// queues `event` (see [`validation_result`] and [`send_event`]).
    fn inject(
        &mut self,
        path: &str,
        needs_keyboard: bool,
        needs_pointer: bool,
        needs_touch: bool,
        event: InputEvent,
        now: Instant,
    ) -> (r: Result<(), Error>)
        requires
            old(self).wf(),
        ensures
            injected(*old(self), *final(self), path@, needs_keyboard, needs_pointer, needs_touch, event, now, r),
    {
        match self.validate_session(path, needs_keyboard, needs_pointer, needs_touch) {
            Ok(()) => {},
            Err(e) => {
                return Err(e);
            },
        }
        self.send_event(path, event, now)
    }

    /// Injects relative pointer motion (needs the pointer).
    pub fn inject_pointer_motion(&mut self, path: &str, dx: Coord, dy: Coord, now: Instant) -> (r:
        Result<(), Error>)
        requires
            old(self).wf(),
        ensures
            injected(*old(self), *final(self), path@, false, true, false, InputEvent::PointerMotion { dx, dy }, now, r),
    {
        self.inject(path, false, true, false, InputEvent::PointerMotion { dx, dy }, now)
    }

    /// Injects absolute pointer motion (needs the pointer).
    pub fn inject_pointer_motion_absolute(
        &mut self,
        path: &str,
        stream: u32,
        x: Coord,
        y: Coord,
        now: Instant,
    ) -> (r: Result<(), Error>)
        requires
            old(self).wf(),
        ensures
            injected(*old(self), *final(self), path@, false, true, false, InputEvent::PointerMotionAbsolute { stream, x, y }, now, r),
    {
        self.inject(path, false, true, false, InputEvent::PointerMotionAbsolute { stream, x, y }, now)
    }

    /// Injects a pointer button given as a D-Bus state code (needs the
    /// pointer).
    pub fn inject_pointer_button(&mut self, path: &str, button: i32, state: u32, now: Instant) -> (r:
        Result<(), Error>)
        requires
            old(self).wf(),
        ensures
            injected(*old(self), *final(self), path@, false, true, false, InputEvent::PointerButton {
                button,
                state: if state != 0 { ButtonState::Pressed } else { ButtonState::Released },
            }, now, r),
    {
        let s = if state != 0 {
            ButtonState::Pressed
        } else {
            ButtonState::Released
        };
        self.inject(path, false, true, false, InputEvent::PointerButton { button, state: s }, now)
    }

    /// Injects smooth scrolling (needs the pointer).
    pub fn inject_pointer_axis(&mut self, path: &str, dx: Coord, dy: Coord, now: Instant) -> (r:
        Result<(), Error>)
        requires
            old(self).wf(),
        ensures
            injected(*old(self), *final(self), path@, false, true, false, InputEvent::PointerAxis { dx, dy }, now, r),
    {
        self.inject(path, false, true, false, InputEvent::PointerAxis { dx, dy }, now)
    }

    /// Injects discrete scrolling on an axis given by its D-Bus code
    /// (needs the pointer).
    pub fn inject_pointer_axis_discrete(
        &mut self,
        path: &str,
        axis: u32,
        steps: i32,
        now: Instant,
    ) -> (r: Result<(), Error>)
        requires
            old(self).wf(),
        ensures
            injected(*old(self), *final(self), path@, false, true, false, InputEvent::PointerAxisDiscrete {
                axis: if axis == 0 { Axis::Vertical } else { Axis::Horizontal },
                steps,
            }, now, r),
    {
        let a = if axis == 0 {
            Axis::Vertical
        } else {
            Axis::Horizontal
        };
        self.inject(path, false, true, false, InputEvent::PointerAxisDiscrete { axis: a, steps }, now)
    }

    /// Injects a key by keycode, state given as a D-Bus code (needs the
    /// keyboard).
    pub fn inject_keyboard_keycode(&mut self, path: &str, keycode: i32, state: u32, now: Instant) -> (r:
        Result<(), Error>)
        requires
            old(self).wf(),
        ensures
            injected(*old(self), *final(self), path@, true, false, false, InputEvent::KeyboardKeycode {
                keycode,
                state: if state != 0 { KeyState::Pressed } else { KeyState::Released },
            }, now, r),
    {
        let s = if state != 0 {
            KeyState::Pressed
        } else {
            KeyState::Released
        };
        self.inject(path, true, false, false, InputEvent::KeyboardKeycode { keycode, state: s }, now)
    }

    /// Injects a key by keysym, state given as a D-Bus code (needs the
    /// keyboard).
    pub fn inject_keyboard_keysym(&mut self, path: &str, keysym: i32, state: u32, now: Instant) -> (r:
        Result<(), Error>)
        requires
            old(self).wf(),
        ensures
            injected(*old(self), *final(self), path@, true, false, false, InputEvent::KeyboardKeysym {
                keysym,
                state: if state != 0 { KeyState::Pressed } else { KeyState::Released },
            }, now, r),
    {
        let s = if state != 0 {
            KeyState::Pressed
        } else {
            KeyState::Released
        };
        self.inject(path, true, false, false, InputEvent::KeyboardKeysym { keysym, state: s }, now)
    }

    /// Injects a touch down (needs the touchscreen).
    pub fn inject_touch_down(
        &mut self,
        path: &str,
        stream: u32,
        slot: u32,
        x: Coord,
        y: Coord,
        now: Instant,
    ) -> (r: Result<(), Error>)
        requires
            old(self).wf(),
        ensures
            injected(*old(self), *final(self), path@, false, false, true, InputEvent::TouchDown { stream, slot, x, y }, now, r),
    {
        self.inject(path, false, false, true, InputEvent::TouchDown { stream, slot, x, y }, now)
    }

    /// Injects a touch motion (needs the touchscreen).
    pub fn inject_touch_motion(
        &mut self,
        path: &str,
        stream: u32,
        slot: u32,
        x: Coord,
        y: Coord,
        now: Instant,
    ) -> (r: Result<(), Error>)
        requires
            old(self).wf(),
        ensures
            injected(*old(self), *final(self), path@, false, false, true, InputEvent::TouchMotion { stream, slot, x, y }, now, r),
    {
        self.inject(path, false, false, true, InputEvent::TouchMotion { stream, slot, x, y }, now)
    }

    /// Injects a touch up (needs the touchscreen).
    pub fn inject_touch_up(&mut self, path: &str, slot: u32, now: Instant) -> (r: Result<(), Error>)
        requires
            old(self).wf(),
        ensures
            injected(*old(self), *final(self), path@, false, false, true, InputEvent::TouchUp { slot }, now, r),
    {
        self.inject(path, false, false, true, InputEvent::TouchUp { slot }, now)
    }

    /// The number of registered sessions, as a D-Bus `u32` (truncated).
    pub fn active_session_count(&self) -> (r: u32)
        ensures
            r == self.registered() as u32,
    {
        self.sessions.len() as u32
    }

    /// The interface version.
    pub fn version(&self) -> (r: u32)
        ensures
            r == 1,
    {
        1
    }

    /// Takes the oldest queued event, for the compositor.
    pub fn recv_event(&mut self) -> (r: Option<VirtualInputEvent>)
        requires
            old(self).wf(),
        ensures
            final(self).wf(),
            forall|p: Seq<char>| #[trigger] final(self).grant(p) == old(self).grant(p),
            final(self).limiter() == old(self).limiter(),
            final(self).channel_open() == old(self).channel_open(),
            old(self).queued().len() == 0 ==> r is None && final(self).queued() == old(self).queued(),
            old(self).queued().len() > 0 ==> r == Some(old(self).queued()[0])
                && final(self).queued() == old(self).queued().drop_first(),
    {
        self.events.recv()
    }

    /// The compositor stops receiving events.
    pub fn close_event_channel(&mut self)
        requires
            old(self).wf(),
        ensures
            final(self).wf(),
            forall|p: Seq<char>| #[trigger] final(self).grant(p) == old(self).grant(p),
            final(self).limiter() == old(self).limiter(),
            !final(self).channel_open(),
            final(self).queued() == old(self).queued(),
    {
        self.events.close();
    }
}

/// Whether `after` holds `before`'s queue plus, last, the event `event`
/// of the session at `path` stamped `now`.
pub open spec fn queued_last(
    after: Seq<VirtualInputEvent>,
    before: Seq<VirtualInputEvent>,
    path: Seq<char>,
    event: InputEvent,
    now: Instant,
) -> bool {
    &&& after.len() == before.len() + 1
    &&& after.drop_last() == before
    &&& after.last().session_id@ == path
    &&& after.last().event == event
    &&& after.last().timestamp == now
}

/// What an injection request of `path` needing the given devices does to
/// the service: a refused validation changes nothing and reports why; a
/// passed one is rate checked exactly once (the limiter becomes the
/// limiter after one check of `path` at `now`, and a refusal is the
/// limiter's `RateLimitExceeded`) and, when allowed and the compositor
/// still receives, queues the event.
pub open spec fn injected(
    before: RemoteDesktopService,
    after: RemoteDesktopService,
    path: Seq<char>,
    needs_keyboard: bool,
    needs_pointer: bool,
    needs_touch: bool,
    event: InputEvent,
    now: Instant,
    r: Result<(), Error>,
) -> bool {
    &&& after.wf()
    &&& forall|p: Seq<char>| #[trigger] after.grant(p) == before.grant(p)
    &&& after.channel_open() == before.channel_open()
    &&& after.limiter().spec_config() == before.limiter().spec_config()
    &&& if !validates(before.grant(path), needs_keyboard, needs_pointer, needs_touch) {
        &&& validation_result(before.grant(path), path, needs_keyboard, needs_pointer, needs_touch, r)
        &&& after.limiter() == before.limiter()
        &&& after.queued() == before.queued()
    } else {
        &&& tracks(after.limiter().entries(), path)
        &&& check_outcome(
            before.limiter(),
            after.limiter(),
            path,
            now,
            if rate_verdict(before.limiter(), path, now) == 0 {
                Ok(())
            } else {
                r
            },
        )
        &&& (r is Ok <==> rate_verdict(before.limiter(), path, now) == 0 && before.channel_open())
        &&& (rate_verdict(before.limiter(), path, now) == 0 && !before.channel_open() ==> r matches Err(
            Error::ChannelClosed,
        ))
        &&& (r is Ok ==> queued_last(after.queued(), before.queued(), path, event, now))
        &&& (r is Err ==> after.queued() == before.queued())
    }
}

} // verus!
