//! Sessions: identifiers, lifecycle state, event channels and the session
//! handle that checks every event against the session's state and grants.
//!
//! Lifecycle: `Created` --select_devices--> `DevicesSelected` --start-->
//! `Active`; `close` moves any state to `Closed`.

use vstd::prelude::*;
use crate::time::{Duration, Instant, MonotonicClock};
use crate::types::device::DeviceType;
use crate::types::error::{Error, InputError, SessionError};
use crate::types::event::{is_keyboard_event, is_pointer_event, is_touch_event, InputEvent};
use vstd::string::StringExecFns;

verus! {

/// Identifier of a session, typically a D-Bus object path.
#[derive(Debug, PartialEq, Eq, Hash)]
pub struct SessionId {
    id: String,
}

impl View for SessionId {
    type V = Seq<char>;

    open spec fn view(&self) -> Seq<char> {
        self.spec_text()
    }
}

impl SessionId {
    /// The characters of the identifier.
    pub closed spec fn spec_text(&self) -> Seq<char> {
        self.id@
    }

    /// A session id with the given text.
    pub fn new(id: &str) -> (r: SessionId)
        ensures
            r@ == id@,
    {
        SessionId { id: String::from_str(id) }
    }

    /// A session id taking ownership of the given text.
    pub fn from_string(id: String) -> (r: SessionId)
        ensures
            r@ == id@,
    {
        SessionId { id }
    }

    /// The identifier as a string slice.
    pub fn as_str(&self) -> (r: &str)
        ensures
            r@ == self@,
    {
        self.id.as_str()
    }

    /// The identifier as an owned string.
    pub fn to_text(&self) -> (r: String)
        ensures
            r@ == self@,
    {
        self.id.clone()
    }

    /// Whether two ids are the same.
    pub fn same_as(&self, other: &SessionId) -> (r: bool)
        ensures
            r == (self@ == other@),
    {
        self.id == other.id
    }
}

impl Clone for SessionId {
    fn clone(&self) -> (r: SessionId)
        ensures
            r@ == self@,
    {
        SessionId { id: self.id.clone() }
    }
}

/// Session lifecycle state.
#[derive(Clone, Copy, Debug, PartialEq, Eq, Hash, Structural)]
pub enum SessionState {
    /// Created, awaiting device selection.
    Created,
    /// Devices selected, awaiting start.
    DevicesSelected,
    /// Active and accepting input.
    Active,
    /// Closed.
    Closed,
}

/// The name of a state.
pub open spec fn state_name(s: SessionState) -> &'static str {
    match s {
        SessionState::Created => "Created",
        SessionState::DevicesSelected => "DevicesSelected",
        SessionState::Active => "Active",
        SessionState::Closed => "Closed",
    }
}

impl SessionState {
    /// The state's name, as used in error messages.
    pub fn name(self) -> (r: &'static str)
        ensures
            r@ == state_name(self)@,
    {
        match self {
            SessionState::Created => "Created",
            SessionState::DevicesSelected => "DevicesSelected",
            SessionState::Active => "Active",
            SessionState::Closed => "Closed",
        }
    }
}

/// How far along its lifecycle a state is: created, devices selected,
/// active, closed.
pub open spec fn lifecycle_rank(s: SessionState) -> int {
    match s {
        SessionState::Created => 0,
        SessionState::DevicesSelected => 1,
        SessionState::Active => 2,
        SessionState::Closed => 3,
    }
}

/// Whether a session may go from `before` to `after` in one operation: it
/// stays, takes the next step (devices selected, then started) or closes.
pub open spec fn lifecycle_step(before: SessionState, after: SessionState) -> bool {
    ||| after == before
    ||| before == SessionState::Created && after == SessionState::DevicesSelected
    ||| before == SessionState::DevicesSelected && after == SessionState::Active
    ||| after == SessionState::Closed
}

/// A session's lifecycle never goes back: each step keeps or raises its
/// rank, and a closed session stays closed.
pub proof fn lemma_lifecycle_never_goes_back(before: SessionState, after: SessionState)
    requires
        lifecycle_step(before, after),
    ensures
        lifecycle_rank(before) <= lifecycle_rank(after),
        before == SessionState::Closed ==> after == SessionState::Closed,
        after == SessionState::Active ==> before == SessionState::DevicesSelected || before
            == SessionState::Active,
{
}

/// A first-in first-out channel of values, open until closed.
///
/// The sending side appends; the receiving side takes from the front.
/// Sending on a closed channel fails and leaves the channel unchanged.
#[derive(Debug)]
pub struct EventQueue<T> {
    items: Vec<T>,
    open: bool,
}

impl<T> EventQueue<T> {
    /// The queued values, oldest first.
    pub closed spec fn pending(&self) -> Seq<T> {
        self.items@
    }

    /// Whether the channel accepts values.
    pub closed spec fn spec_is_open(&self) -> bool {
        self.open
    }

    /// An open, empty channel.
    pub fn new() -> (r: EventQueue<T>)
        ensures
            r.pending() == Seq::<T>::empty(),
            r.spec_is_open(),
    {
        EventQueue { items: Vec::new(), open: true }
    }

    /// Appends `item` when the channel is open; returns whether it did.
    pub fn send(&mut self, item: T) -> (r: bool)
        ensures
            r == old(self).spec_is_open(),
            final(self).spec_is_open() == old(self).spec_is_open(),
            r ==> final(self).pending() == old(self).pending().push(item),
            !r ==> final(self).pending() == old(self).pending(),
    {
        if self.open {
            self.items.push(item);
            true
        } else {
            false
        }
    }

    /// Takes the oldest value, if any.
    pub fn recv(&mut self) -> (r: Option<T>)
        ensures
            final(self).spec_is_open() == old(self).spec_is_open(),
            old(self).pending().len() == 0 ==> r is None && final(self).pending() == old(self).pending(),
            old(self).pending().len() > 0 ==> r == Some(old(self).pending()[0])
                && final(self).pending() == old(self).pending().drop_first(),
    {
        if self.items.len() == 0 {
            None
        } else {
            Some(self.items.remove(0))
        }
    }

    /// Closes the channel; queued values stay receivable.
    pub fn close(&mut self)
        ensures
            !final(self).spec_is_open(),
            final(self).pending() == old(self).pending(),
    {
        self.open = false;
    }

    /// Whether the channel accepts values.
    pub fn is_open(&self) -> (r: bool)
        ensures
            r == self.spec_is_open(),
    {
        self.open
    }

    /// The number of queued values.
    pub fn len(&self) -> (r: usize)
        ensures
            r == self.pending().len(),
    {
        self.items.len()
    }
}

/// Whether a session granted `devices` may send `event`.
pub open spec fn event_authorized(devices: DeviceType, event: InputEvent) -> bool {
    &&& is_keyboard_event(event) ==> devices.keyboard
    &&& is_pointer_event(event) ==> devices.pointer
    &&& is_touch_event(event) ==> devices.touchscreen
}

/// Whether `r` is an invalid-state error naming `expected` and `actual`.
pub open spec fn is_invalid_state(r: Error, expected: SessionState, actual: SessionState) -> bool {
    r matches Error::Session(SessionError::InvalidState { expected: e, actual: a }) && e == expected
        && a == actual
}

/// Whether `r` is a device-not-authorised error naming `device`.
pub open spec fn is_not_authorized(r: Error, device: Seq<char>) -> bool {
    r matches Error::Input(InputError::DeviceNotAuthorized(s)) && s@ == device
}

/// Whether `r` failed with an invalid-state error naming `expected` and `actual`.
pub open spec fn fails_invalid_state<T>(
    r: Result<T, Error>,
    expected: SessionState,
    actual: SessionState,
) -> bool {
    r matches Err(e) && is_invalid_state(e, expected, actual)
}

/// Whether `r` failed with a device-not-authorised error naming `device`.
pub open spec fn fails_not_authorized<T>(r: Result<T, Error>, device: Seq<char>) -> bool {
    r matches Err(e) && is_not_authorized(e, device)
}

/// The error `send_event` reports for `event` in a session in `state` with
/// grants `devices` whose channel is open or not: 0 for success, 1 for the
/// state, 2, 3 and 4 for the keyboard, pointer and touch grants, 5 for a
/// closed channel.
pub open spec fn send_event_error_kind(
    state: SessionState,
    devices: DeviceType,
    event: InputEvent,
    channel_open: bool,
) -> int {
    if state != SessionState::Active {
        1
    } else if is_keyboard_event(event) && !devices.keyboard {
        2
    } else if is_pointer_event(event) && !devices.pointer {
        3
    } else if is_touch_event(event) && !devices.touchscreen {
        4
    } else if !channel_open {
        5
    } else {
        0
    }
}

/// In an active session with an open channel, an event is refused exactly
/// when the grant of its device class is missing, and the refusal names
/// that class: pointer events (motion, absolute motion, buttons, smooth and
/// discrete scrolling) need the pointer grant, key events the keyboard
/// grant, touch events the touchscreen grant.
pub proof fn lemma_grant_decides_by_variant(devices: DeviceType, event: InputEvent)
    ensures
        event_authorized(devices, event) == (match event {
            InputEvent::PointerMotion { .. }
            | InputEvent::PointerMotionAbsolute { .. }
            | InputEvent::PointerButton { .. }
            | InputEvent::PointerAxis { .. }
            | InputEvent::PointerAxisDiscrete { .. } => devices.pointer,
            InputEvent::KeyboardKeycode { .. } | InputEvent::KeyboardKeysym { .. } => devices.keyboard,
            InputEvent::TouchDown { .. }
            | InputEvent::TouchMotion { .. }
            | InputEvent::TouchUp { .. } => devices.touchscreen,
        }),
        send_event_error_kind(SessionState::Active, devices, event, true) == (match event {
            InputEvent::PointerMotion { .. }
            | InputEvent::PointerMotionAbsolute { .. }
            | InputEvent::PointerButton { .. }
            | InputEvent::PointerAxis { .. }
            | InputEvent::PointerAxisDiscrete { .. } => if devices.pointer {
                0int
            } else {
                3int
            },
            InputEvent::KeyboardKeycode { .. } | InputEvent::KeyboardKeysym { .. } => if devices.keyboard {
                0int
            } else {
                2int
            },
            InputEvent::TouchDown { .. }
            | InputEvent::TouchMotion { .. }
            | InputEvent::TouchUp { .. } => if devices.touchscreen {
                0int
            } else {
                4int
            },
        }),
{
}

/// Whether `r` is the refusal `send_event` reports for `event` in a
/// session in `state` with grants `devices` and its channel open or not:
/// the wrong state, then the keyboard, pointer and touch grants, then the
/// closed channel (see [`send_event_error_kind`]).
pub open spec fn send_event_refusal(
    state: SessionState,
    devices: DeviceType,
    event: InputEvent,
    channel_open: bool,
    r: Result<(), Error>,
) -> bool {
    let kind = send_event_error_kind(state, devices, event, channel_open);
    &&& kind == 1 ==> fails_invalid_state(r, SessionState::Active, state)
    &&& kind == 2 ==> fails_not_authorized(r, "keyboard"@)
    &&& kind == 3 ==> fails_not_authorized(r, "pointer"@)
    &&& kind == 4 ==> fails_not_authorized(r, "touchscreen"@)
    &&& kind == 5 ==> (r matches Err(Error::ChannelClosed))
}

/// A remote desktop session.
#[derive(Debug)]
pub struct SessionHandle {
    id: SessionId,
    state: SessionState,
    authorized_devices: DeviceType,
    app_id: String,
    created_at: Instant,
    event_count: u64,
    event_tx: EventQueue<InputEvent>,
}

impl SessionHandle {
    /// The session's id.
    pub closed spec fn spec_id(&self) -> Seq<char> {
        self.id@
    }

    /// The session's lifecycle state.
    pub closed spec fn spec_state(&self) -> SessionState {
        self.state
    }

    /// The devices the session is authorised for.
    pub closed spec fn spec_devices(&self) -> DeviceType {
        self.authorized_devices
    }

    /// The application that created the session.
    pub closed spec fn spec_app_id(&self) -> Seq<char> {
        self.app_id@
    }

    /// When the session was created.
    pub closed spec fn spec_created_at(&self) -> Instant {
        self.created_at
    }

    /// The number of events sent through the session.
    pub closed spec fn spec_event_count(&self) -> u64 {
        self.event_count
    }

    /// Events sent and not yet received by the compositor side.
    pub closed spec fn spec_outbox(&self) -> Seq<InputEvent> {
        self.event_tx.pending()
    }

    /// Whether the session's event channel is open.
    pub closed spec fn spec_channel_open(&self) -> bool {
        self.event_tx.spec_is_open()
    }

    /// A new session in state `Created`, authorised for no device, created at
    /// `created_at`, that sends its events on `event_tx`.
    pub fn new_at(
        id: SessionId,
        app_id: String,
        event_tx: EventQueue<InputEvent>,
        created_at: Instant,
    ) -> (r: SessionHandle)
        ensures
            r.spec_id() == id@,
            r.spec_app_id() == app_id@,
            r.spec_state() == SessionState::Created,
            r.spec_devices() == (DeviceType { keyboard: false, pointer: false, touchscreen: false }),
            r.spec_event_count() == 0,
            r.spec_created_at() == created_at,
            r.spec_outbox() == event_tx.pending(),
            r.spec_channel_open() == event_tx.spec_is_open(),
    {
        SessionHandle {
            id,
            state: SessionState::Created,
            authorized_devices: DeviceType::empty(),
            app_id,
            created_at,
            event_count: 0,
            event_tx,
        }
    }

    /// A new session created now by `clock`; see [`SessionHandle::new_at`].
    pub fn new(
        id: SessionId,
        app_id: String,
        event_tx: EventQueue<InputEvent>,
        clock: &mut MonotonicClock,
    ) -> (r: SessionHandle)
        ensures
            r.spec_created_at().nanos == final(clock).last_reading(),
            final(clock).last_reading() >= old(clock).last_reading(),
            final(clock).same_clock(*old(clock)),
            r.spec_id() == id@,
            r.spec_app_id() == app_id@,
            r.spec_state() == SessionState::Created,
            r.spec_devices() == (DeviceType { keyboard: false, pointer: false, touchscreen: false }),
            r.spec_event_count() == 0,
            r.spec_outbox() == event_tx.pending(),
            r.spec_channel_open() == event_tx.spec_is_open(),
    {
        let now = clock.now();
        SessionHandle::new_at(id, app_id, event_tx, now)
    }

    /// The session's id.
    pub fn id(&self) -> (r: &SessionId)
        ensures
            r@ == self.spec_id(),
    {
        &self.id
    }

    /// The application that created the session.
    pub fn app_id(&self) -> (r: String)
        ensures
            r@ == self.spec_app_id(),
    {
        self.app_id.clone()
    }

    /// The current lifecycle state.
    pub fn state(&self) -> (r: SessionState)
        ensures
            r == self.spec_state(),
    {
        self.state
    }

    /// The authorised devices.
    pub fn authorized_devices(&self) -> (r: DeviceType)
        ensures
            r == self.spec_devices(),
    {
        self.authorized_devices
    }

    /// The number of events sent.
    pub fn event_count(&self) -> (r: u64)
        ensures
            r == self.spec_event_count(),
    {
        self.event_count
    }

    /// Records the devices the user consented to and moves to
    /// `DevicesSelected`; fails, changing nothing, unless the session is in
    /// state `Created`.
    pub fn select_devices(&mut self, devices: DeviceType) -> (r: Result<(), Error>)
        ensures
            lifecycle_step(old(self).spec_state(), final(self).spec_state()),
            r is Ok <==> old(self).spec_state() == SessionState::Created,
            r is Ok ==> final(self).spec_state() == SessionState::DevicesSelected
                && final(self).spec_devices() == devices,
            r matches Err(e) ==> is_invalid_state(e, SessionState::Created, old(self).spec_state())
                && final(self).spec_state() == old(self).spec_state() && final(self).spec_devices()
                == old(self).spec_devices(),
            final(self).spec_id() == old(self).spec_id(),
            final(self).spec_app_id() == old(self).spec_app_id(),
            final(self).spec_created_at() == old(self).spec_created_at(),
            final(self).spec_event_count() == old(self).spec_event_count(),
            final(self).spec_outbox() == old(self).spec_outbox(),
            final(self).spec_channel_open() == old(self).spec_channel_open(),
    {
        if self.state != SessionState::Created {
            return Err(
                Error::Session(
                    SessionError::InvalidState {
                        expected: SessionState::Created,
                        actual: self.state,
                    },
                ),
            );
        }
        self.authorized_devices = devices;
        self.state = SessionState::DevicesSelected;
        Ok(())
    }

    /// Starts the session, enabling input; fails, changing nothing, unless
    /// the session is in state `DevicesSelected`.
    pub fn start(&mut self) -> (r: Result<(), Error>)
        ensures
            lifecycle_step(old(self).spec_state(), final(self).spec_state()),
            r is Ok <==> old(self).spec_state() == SessionState::DevicesSelected,
            r is Ok ==> final(self).spec_state() == SessionState::Active,
            r matches Err(e) ==> is_invalid_state(
                e,
                SessionState::DevicesSelected,
                old(self).spec_state(),
            ) && final(self).spec_state() == old(self).spec_state(),
            final(self).spec_devices() == old(self).spec_devices(),
            final(self).spec_id() == old(self).spec_id(),
            final(self).spec_app_id() == old(self).spec_app_id(),
            final(self).spec_created_at() == old(self).spec_created_at(),
            final(self).spec_event_count() == old(self).spec_event_count(),
            final(self).spec_outbox() == old(self).spec_outbox(),
            final(self).spec_channel_open() == old(self).spec_channel_open(),
    {
        if self.state != SessionState::DevicesSelected {
            return Err(
                Error::Session(
                    SessionError::InvalidState {
                        expected: SessionState::DevicesSelected,
                        actual: self.state,
                    },
                ),
            );
        }
        self.state = SessionState::Active;
        Ok(())
    }

    /// Sends an input event through the session.
    ///
    /// The event is sent, and the count raised by one, exactly when the
    /// session is `Active`, the event's device class is authorised and the
    /// channel is open. Otherwise the first failing check names the error:
    /// the state, then keyboard, pointer and touch grants, then the channel;
    /// and nothing changes.
    pub fn send_event(&mut self, event: InputEvent) -> (r: Result<(), Error>)
        requires
            old(self).spec_event_count() < u64::MAX,
        ensures
            ({
                let kind = send_event_error_kind(
                    old(self).spec_state(),
                    old(self).spec_devices(),
                    event,
                    old(self).spec_channel_open(),
                );
                &&& r is Ok <==> kind == 0
                &&& kind == 1 ==> fails_invalid_state(r, SessionState::Active, old(self).spec_state())
                &&& kind == 2 ==> fails_not_authorized(r, "keyboard"@)
                &&& kind == 3 ==> fails_not_authorized(r, "pointer"@)
                &&& kind == 4 ==> fails_not_authorized(r, "touchscreen"@)
                &&& kind == 5 ==> (r matches Err(Error::ChannelClosed))
            }),
            r is Ok ==> final(self).spec_outbox() == old(self).spec_outbox().push(event)
                && final(self).spec_event_count() == old(self).spec_event_count() + 1,
            r is Err ==> final(self).spec_outbox() == old(self).spec_outbox()
                && final(self).spec_event_count() == old(self).spec_event_count(),
            r is Ok <==> (old(self).spec_state() == SessionState::Active && event_authorized(
                old(self).spec_devices(),
                event,
            ) && old(self).spec_channel_open()),
            final(self).spec_state() == old(self).spec_state(),
            final(self).spec_devices() == old(self).spec_devices(),
            final(self).spec_id() == old(self).spec_id(),
            final(self).spec_app_id() == old(self).spec_app_id(),
            final(self).spec_created_at() == old(self).spec_created_at(),
            final(self).spec_channel_open() == old(self).spec_channel_open(),
    {
        if self.state != SessionState::Active {
            return Err(
                Error::Session(
                    SessionError::InvalidState { expected: SessionState::Active, actual: self.state },
                ),
            );
        }
        let authorized = self.authorized_devices;
        if event.is_keyboard() && !authorized.has_keyboard() {
            return Err(
                Error::Input(InputError::DeviceNotAuthorized(String::from_str("keyboard"))),
            );
        }
        if event.is_pointer() && !authorized.has_pointer() {
            return Err(Error::Input(InputError::DeviceNotAuthorized(String::from_str("pointer"))));
        }
        if event.is_touch() && !authorized.has_touchscreen() {
            return Err(
                Error::Input(InputError::DeviceNotAuthorized(String::from_str("touchscreen"))),
            );
        }
        if !self.event_tx.send(event) {
            return Err(Error::ChannelClosed);
        }
        self.event_count = self.event_count + 1;
        Ok(())
    }

    /// Takes the oldest sent event off the session's channel (the receiving
    /// side of the channel).
    pub fn recv_event(&mut self) -> (r: Option<InputEvent>)
        ensures
            old(self).spec_outbox().len() == 0 ==> r is None && final(self).spec_outbox() == old(self).spec_outbox(),
            old(self).spec_outbox().len() > 0 ==> r == Some(old(self).spec_outbox()[0])
                && final(self).spec_outbox() == old(self).spec_outbox().drop_first(),
            final(self).spec_state() == old(self).spec_state(),
            final(self).spec_devices() == old(self).spec_devices(),
            final(self).spec_id() == old(self).spec_id(),
            final(self).spec_app_id() == old(self).spec_app_id(),
            final(self).spec_created_at() == old(self).spec_created_at(),
            final(self).spec_event_count() == old(self).spec_event_count(),
            final(self).spec_channel_open() == old(self).spec_channel_open(),
    {
        self.event_tx.recv()
    }

    /// Closes the receiving side of the session's channel: later sends fail.
    pub fn close_channel(&mut self)
        ensures
            !final(self).spec_channel_open(),
            final(self).spec_outbox() == old(self).spec_outbox(),
            final(self).spec_state() == old(self).spec_state(),
            final(self).spec_devices() == old(self).spec_devices(),
            final(self).spec_id() == old(self).spec_id(),
            final(self).spec_app_id() == old(self).spec_app_id(),
            final(self).spec_created_at() == old(self).spec_created_at(),
            final(self).spec_event_count() == old(self).spec_event_count(),
    {
        self.event_tx.close();
    }

    /// Closes the session, from any state.
    pub fn close(&mut self)
        ensures
            lifecycle_step(old(self).spec_state(), final(self).spec_state()),
            final(self).spec_state() == SessionState::Closed,
            final(self).spec_devices() == old(self).spec_devices(),
            final(self).spec_id() == old(self).spec_id(),
            final(self).spec_app_id() == old(self).spec_app_id(),
            final(self).spec_created_at() == old(self).spec_created_at(),
            final(self).spec_event_count() == old(self).spec_event_count(),
            final(self).spec_outbox() == old(self).spec_outbox(),
            final(self).spec_channel_open() == old(self).spec_channel_open(),
    {
        self.state = SessionState::Closed;
    }

    /// True when the session is closed.
    pub fn is_closed(&self) -> (r: bool)
        ensures
            r == (self.spec_state() == SessionState::Closed),
    {
        self.state == SessionState::Closed
    }

    /// The time from the session's creation to `now` (zero if `now` is earlier).
    pub fn uptime_at(&self, now: Instant) -> (r: Duration)
        ensures
            r.nanos == if now.nanos >= self.spec_created_at().nanos {
                now.nanos - self.spec_created_at().nanos
            } else {
                0
            },
    {
        now.duration_since(self.created_at)
    }

    /// The time since the session was created, read from `clock`: the
    /// uptime at the new reading, never less than at the reading before.
    pub fn uptime(&self, clock: &mut MonotonicClock) -> (r: Duration)
        ensures
            final(clock).last_reading() >= old(clock).last_reading(),
            final(clock).same_clock(*old(clock)),
            r.nanos == if final(clock).last_reading() >= self.spec_created_at().nanos {
                final(clock).last_reading() - self.spec_created_at().nanos
            } else {
                0
            },
    {
        let now = clock.now();
        self.uptime_at(now)
    }
}

} // verus!
