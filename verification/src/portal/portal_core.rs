//! Transport-independent portal logic: session lifecycle and input
//! notifications, as the D-Bus `RemoteDesktop` interface exposes them.

use vstd::prelude::*;
use crate::portal::session_manager::{
    holds_id, is_fresh_session, is_not_found, same_session, same_session_but_events,
    same_session_but_lifecycle, SessionManager,
};
use crate::types::device::DeviceType;
use crate::types::error::Error;
use crate::types::event::{ButtonState, Coord, InputEvent, KeyState};
use crate::types::mode::{mode_has_capture, mode_has_input, RemoteDesktopMode};
use crate::types::session::{
    event_authorized, fails_invalid_state, send_event_refusal, SessionId, SessionState,
};
use crate::types::error::SessionError;

verus! {

/// Answer to a session creation.
#[derive(Debug)]
pub struct CreateSessionResponse {
    /// The id of the new session.
    pub session_id: String,
}

/// Answer to a session start.
#[derive(Clone, Copy, Debug, PartialEq, Eq, Structural)]
pub struct StartSessionResponse {
    /// The authorised devices as a bit mask.
    pub devices: u32,
    /// The portal's operating mode.
    pub session_mode: RemoteDesktopMode,
    /// Whether screen capture is available.
    pub capture_available: bool,
    /// Whether input injection is available.
    pub input_available: bool,
}

/// Request to choose the devices of a session.
#[derive(Debug)]
pub struct SelectDevicesRequest {
    /// The session.
    pub session_id: String,
    /// Requested device bit mask; keyboard and pointer when absent.
    pub device_types: Option<u32>,
}

/// Request to start a session.
#[derive(Debug)]
pub struct StartSessionRequest {
    /// The session.
    pub session_id: String,
    /// Parent window for dialogs, if any.
    pub parent_window: Option<String>,
}

/// The device bits a selection request asks for: the given mask, or
/// keyboard and pointer (3) when none is given.
pub open spec fn requested_bits(types: Option<u32>) -> u32 {
    match types {
        Some(b) => b,
        None => 3,
    }
}

/// The device set of a bit mask, unknown bits dropped.
pub open spec fn devices_of_bits(b: u32) -> DeviceType {
    DeviceType { keyboard: b & 1 != 0, pointer: b & 2 != 0, touchscreen: b & 4 != 0 }
}

/// The portal's session logic, independent of the transport.
#[derive(Debug)]
pub struct PortalCore {
    session_manager: SessionManager,
    session_mode: RemoteDesktopMode,
}

impl PortalCore {
    /// The session manager.
    pub closed spec fn manager(&self) -> SessionManager {
        self.session_manager
    }

    /// The operating mode reported to clients.
    pub closed spec fn spec_mode(&self) -> RemoteDesktopMode {
        self.session_mode
    }

    /// The invariant: that of the session manager.
    pub open spec fn wf(&self) -> bool {
        self.manager().wf()
    }

    /// A portal core in `Full` mode.
    pub fn new(session_manager: SessionManager) -> (r: PortalCore)
        ensures
            r.manager() == session_manager,
            r.spec_mode() == RemoteDesktopMode::Full,
    {
        PortalCore { session_manager, session_mode: RemoteDesktopMode::Full }
    }

    /// A portal core in the given mode.
    pub fn with_mode(session_manager: SessionManager, mode: RemoteDesktopMode) -> (r: PortalCore)
        ensures
            r.manager() == session_manager,
            r.spec_mode() == mode,
    {
        PortalCore { session_manager, session_mode: mode }
    }

    /// The session manager.
    pub fn session_manager(&self) -> (r: &SessionManager)
        ensures
            *r == self.manager(),
    {
        &self.session_manager
    }

    /// The operating mode.
    pub fn session_mode(&self) -> (r: RemoteDesktopMode)
        ensures
            r == self.spec_mode(),
    {
        self.session_mode
    }

    /// Changes the operating mode.
    pub fn set_session_mode(&mut self, mode: RemoteDesktopMode)
        ensures
            final(self).spec_mode() == mode,
            final(self).manager() == old(self).manager(),
    {
        self.session_mode = mode;
    }

    /// The device types the portal offers (keyboard and pointer: 3).
    pub fn available_device_types(&self) -> (r: u32)
        ensures
            r == 3,
    {
        DeviceType::desktop_standard().bits()
    }

    /// The interface version (2).
    pub fn version(&self) -> (r: u32)
        ensures
            r == 2,
    {
        2
    }

    /// Creates a session; fails as [`SessionManager::create_session`] does.
    pub fn create_session(&mut self, session_id: String, app_id: String) -> (r: Result<
        CreateSessionResponse,
        Error,
    >)
        requires
            old(self).wf(),
        ensures
            final(self).wf(),
            final(self).spec_mode() == old(self).spec_mode(),
            final(self).manager().compositor_pending() == old(self).manager().compositor_pending(),
            final(self).manager().compositor_open() == old(self).manager().compositor_open(),
            r is Ok <==> (old(self).manager().sessions().len() < old(self).manager().spec_config().max_sessions && !holds_id(
                old(self).manager().sessions(),
                session_id@,
            )),
            r matches Ok(resp) ==> resp.session_id@ == session_id@
                && final(self).manager().sessions().drop_last() == old(self).manager().sessions()
                && is_fresh_session(
                final(self).manager().sessions().last(),
                session_id@,
                app_id@,
            ),
            r is Err ==> final(self).manager().sessions() == old(self).manager().sessions(),
            old(self).manager().sessions().len() >= old(self).manager().spec_config().max_sessions
                ==> (r matches Err(Error::Internal(m)) && m@ == "maximum sessions reached"@),
            old(self).manager().sessions().len() < old(self).manager().spec_config().max_sessions
                && holds_id(old(self).manager().sessions(), session_id@) ==> (r matches Err(
                Error::Session(SessionError::AlreadyExists(m)),
            ) && m@ == session_id@),
    {
        let id = SessionId::from_string(session_id);
        let text = id.to_text();
        match self.session_manager.create_session(id, app_id) {
            Ok(_) => Ok(CreateSessionResponse { session_id: text }),
            Err(e) => Err(e),
        }
    }

    /// Grants the requested devices (keyboard and pointer when none are
    /// named; unknown bits dropped) to a session in state `Created`.
    pub fn select_devices(&mut self, request: SelectDevicesRequest) -> (r: Result<(), Error>)
        requires
            old(self).wf(),
        ensures
            final(self).wf(),
            final(self).spec_mode() == old(self).spec_mode(),
            final(self).manager().compositor_pending() == old(self).manager().compositor_pending(),
            final(self).manager().sessions().len() == old(self).manager().sessions().len(),
            !holds_id(old(self).manager().sessions(), request.session_id@) ==> is_not_found(
                r,
                request.session_id@,
            ) && final(self).manager().sessions() == old(self).manager().sessions(),
            holds_id(old(self).manager().sessions(), request.session_id@) ==> ({
                let i = old(self).manager().index_of(request.session_id@);
                let before = old(self).manager().sessions()[i];
                let after = final(self).manager().sessions()[i];
                &&& final(self).manager().sessions() == old(self).manager().sessions().update(
                    i,
                    after,
                )
                &&& same_session_but_lifecycle(before, after)
                &&& (r is Ok <==> before.spec_state() == SessionState::Created)
                &&& r is Ok ==> after.spec_state() == SessionState::DevicesSelected
                    && after.spec_devices() == devices_of_bits(
                    requested_bits(request.device_types),
                )
                &&& r is Err ==> same_session(before, after) && fails_invalid_state(
                    r,
                    SessionState::Created,
                    before.spec_state(),
                )
            }),
    {
        let bits = match request.device_types {
            Some(b) => b,
            None => DeviceType::desktop_standard().bits(),
        };
        let devices = DeviceType::from_bits_truncate(bits);
        self.session_manager.select_devices(request.session_id.as_str(), devices)
    }

    /// Starts a session in state `DevicesSelected` and reports its devices
    /// and what the portal's mode offers.
    pub fn start_session(&mut self, request: StartSessionRequest) -> (r: Result<
        StartSessionResponse,
        Error,
    >)
        requires
            old(self).wf(),
        ensures
            final(self).wf(),
            final(self).spec_mode() == old(self).spec_mode(),
            final(self).manager().compositor_pending() == old(self).manager().compositor_pending(),
            final(self).manager().sessions().len() == old(self).manager().sessions().len(),
            !holds_id(old(self).manager().sessions(), request.session_id@) ==> is_not_found(
                r,
                request.session_id@,
            ) && final(self).manager().sessions() == old(self).manager().sessions(),
            holds_id(old(self).manager().sessions(), request.session_id@) ==> ({
                let i = old(self).manager().index_of(request.session_id@);
                let before = old(self).manager().sessions()[i];
                let after = final(self).manager().sessions()[i];
                &&& final(self).manager().sessions() == old(self).manager().sessions().update(
                    i,
                    after,
                )
                &&& same_session_but_lifecycle(before, after)
                &&& (r is Ok <==> before.spec_state() == SessionState::DevicesSelected)
                &&& r is Ok ==> after.spec_state() == SessionState::Active
                &&& r is Err ==> same_session(before, after) && fails_invalid_state(
                    r,
                    SessionState::DevicesSelected,
                    before.spec_state(),
                )
            }),
            r matches Ok(resp) ==> resp.devices == final(self).manager().sessions()[old(self).manager().index_of(request.session_id@)].spec_devices().spec_bits()
                && resp.session_mode == old(self).spec_mode() && resp.capture_available
                == mode_has_capture(old(self).spec_mode()) && resp.input_available
                == mode_has_input(old(self).spec_mode()),
    {
        match self.session_manager.start_session(request.session_id.as_str()) {
            Ok(devices) => {
                let mode = self.session_mode;
                Ok(
                    StartSessionResponse {
                        devices: devices.bits(),
                        session_mode: mode,
                        capture_available: mode.has_capture(),
                        input_available: mode.has_input(),
                    },
                )
            },
            Err(e) => Err(e),
        }
    }

    /// Closes the session, if it exists; always succeeds.
    pub fn close_session(&mut self, session_id: &str) -> (r: Result<(), Error>)
        requires
            old(self).wf(),
        ensures
            final(self).wf(),
            r is Ok,
            final(self).spec_mode() == old(self).spec_mode(),
            holds_id(old(self).manager().sessions(), session_id@) ==> final(self).manager().sessions()
                == old(self).manager().sessions().remove(
                old(self).manager().index_of(session_id@),
            ),
            !holds_id(old(self).manager().sessions(), session_id@) ==> final(self).manager().sessions() == old(self).manager().sessions(),
            !holds_id(final(self).manager().sessions(), session_id@),
            final(self).manager().compositor_pending() == old(self).manager().compositor_pending(),
    {
        let id = SessionId::new(session_id);
        let _ = self.session_manager.close_session(&id);
        Ok(())
    }

    /// Sends `event` through the named session (see
    /// [`SessionManager::send_event`]).
    pub fn notify(&mut self, session_id: &str, event: InputEvent) -> (r: Result<(), Error>)
        requires
            old(self).wf(),
            holds_id(old(self).manager().sessions(), session_id@) ==> old(self).manager().sessions()[old(self).manager().index_of(
                session_id@,
            )].spec_event_count() < u64::MAX,
        ensures
            final(self).wf(),
            final(self).spec_mode() == old(self).spec_mode(),
            notify_outcome(old(self).manager(), final(self).manager(), session_id@, event, r),
    {
        self.session_manager.send_event(session_id, event)
    }

    /// Relative pointer motion through the named session.
    pub fn notify_pointer_motion(&mut self, session_id: &str, dx: Coord, dy: Coord) -> (r: Result<
        (),
        Error,
    >)
        requires
            old(self).wf(),
            holds_id(old(self).manager().sessions(), session_id@) ==> old(self).manager().sessions()[old(self).manager().index_of(
                session_id@,
            )].spec_event_count() < u64::MAX,
        ensures
            final(self).wf(),
            final(self).spec_mode() == old(self).spec_mode(),
            notify_outcome(
                old(self).manager(),
                final(self).manager(),
                session_id@,
                InputEvent::PointerMotion { dx, dy },
                r,
            ),
    {
        self.notify(session_id, InputEvent::PointerMotion { dx, dy })
    }

    /// Absolute pointer motion through the named session.
    pub fn notify_pointer_motion_absolute(
        &mut self,
        session_id: &str,
        stream: u32,
        x: Coord,
        y: Coord,
    ) -> (r: Result<(), Error>)
        requires
            old(self).wf(),
            holds_id(old(self).manager().sessions(), session_id@) ==> old(self).manager().sessions()[old(self).manager().index_of(
                session_id@,
            )].spec_event_count() < u64::MAX,
        ensures
            final(self).wf(),
            final(self).spec_mode() == old(self).spec_mode(),
            notify_outcome(
                old(self).manager(),
                final(self).manager(),
                session_id@,
                InputEvent::PointerMotionAbsolute { stream, x, y },
                r,
            ),
    {
        self.notify(session_id, InputEvent::PointerMotionAbsolute { stream, x, y })
    }

    /// A pointer button event through the named session.
    pub fn notify_pointer_button(&mut self, session_id: &str, button: i32, state: ButtonState) -> (r:
        Result<(), Error>)
        requires
            old(self).wf(),
            holds_id(old(self).manager().sessions(), session_id@) ==> old(self).manager().sessions()[old(self).manager().index_of(
                session_id@,
            )].spec_event_count() < u64::MAX,
        ensures
            final(self).wf(),
            final(self).spec_mode() == old(self).spec_mode(),
            notify_outcome(
                old(self).manager(),
                final(self).manager(),
                session_id@,
                InputEvent::PointerButton { button, state },
                r,
            ),
    {
        self.notify(session_id, InputEvent::PointerButton { button, state })
    }

    /// Smooth scroll through the named session.
    pub fn notify_pointer_axis(&mut self, session_id: &str, dx: Coord, dy: Coord) -> (r: Result<
        (),
        Error,
    >)
        requires
            old(self).wf(),
            holds_id(old(self).manager().sessions(), session_id@) ==> old(self).manager().sessions()[old(self).manager().index_of(
                session_id@,
            )].spec_event_count() < u64::MAX,
        ensures
            final(self).wf(),
            final(self).spec_mode() == old(self).spec_mode(),
            notify_outcome(
                old(self).manager(),
                final(self).manager(),
                session_id@,
                InputEvent::PointerAxis { dx, dy },
                r,
            ),
    {
        self.notify(session_id, InputEvent::PointerAxis { dx, dy })
    }

    /// A key event by keycode through the named session.
    pub fn notify_keyboard_keycode(&mut self, session_id: &str, keycode: i32, state: KeyState) -> (r:
        Result<(), Error>)
        requires
            old(self).wf(),
            holds_id(old(self).manager().sessions(), session_id@) ==> old(self).manager().sessions()[old(self).manager().index_of(
                session_id@,
            )].spec_event_count() < u64::MAX,
        ensures
            final(self).wf(),
            final(self).spec_mode() == old(self).spec_mode(),
            notify_outcome(
                old(self).manager(),
                final(self).manager(),
                session_id@,
                InputEvent::KeyboardKeycode { keycode, state },
                r,
            ),
    {
        self.notify(session_id, InputEvent::KeyboardKeycode { keycode, state })
    }

    /// A key event by keysym through the named session.
    pub fn notify_keyboard_keysym(&mut self, session_id: &str, keysym: i32, state: KeyState) -> (r:
        Result<(), Error>)
        requires
            old(self).wf(),
            holds_id(old(self).manager().sessions(), session_id@) ==> old(self).manager().sessions()[old(self).manager().index_of(
                session_id@,
            )].spec_event_count() < u64::MAX,
        ensures
            final(self).wf(),
            final(self).spec_mode() == old(self).spec_mode(),
            notify_outcome(
                old(self).manager(),
                final(self).manager(),
                session_id@,
                InputEvent::KeyboardKeysym { keysym, state },
                r,
            ),
    {
        self.notify(session_id, InputEvent::KeyboardKeysym { keysym, state })
    }

    /// A touch-down event through the named session.
    pub fn notify_touch_down(
        &mut self,
        session_id: &str,
        stream: u32,
        slot: u32,
        x: Coord,
        y: Coord,
    ) -> (r: Result<(), Error>)
        requires
            old(self).wf(),
            holds_id(old(self).manager().sessions(), session_id@) ==> old(self).manager().sessions()[old(self).manager().index_of(
                session_id@,
            )].spec_event_count() < u64::MAX,
        ensures
            final(self).wf(),
            final(self).spec_mode() == old(self).spec_mode(),
            notify_outcome(
                old(self).manager(),
                final(self).manager(),
                session_id@,
                InputEvent::TouchDown { stream, slot, x, y },
                r,
            ),
    {
        self.notify(session_id, InputEvent::TouchDown { stream, slot, x, y })
    }

    /// A touch-motion event through the named session.
    pub fn notify_touch_motion(
        &mut self,
        session_id: &str,
        stream: u32,
        slot: u32,
        x: Coord,
        y: Coord,
    ) -> (r: Result<(), Error>)
        requires
            old(self).wf(),
            holds_id(old(self).manager().sessions(), session_id@) ==> old(self).manager().sessions()[old(self).manager().index_of(
                session_id@,
            )].spec_event_count() < u64::MAX,
        ensures
            final(self).wf(),
            final(self).spec_mode() == old(self).spec_mode(),
            notify_outcome(
                old(self).manager(),
                final(self).manager(),
                session_id@,
                InputEvent::TouchMotion { stream, slot, x, y },
                r,
            ),
    {
        self.notify(session_id, InputEvent::TouchMotion { stream, slot, x, y })
    }

    /// A touch-up event through the named session.
    pub fn notify_touch_up(&mut self, session_id: &str, slot: u32) -> (r: Result<(), Error>)
        requires
            old(self).wf(),
            holds_id(old(self).manager().sessions(), session_id@) ==> old(self).manager().sessions()[old(self).manager().index_of(
                session_id@,
            )].spec_event_count() < u64::MAX,
        ensures
            final(self).wf(),
            final(self).spec_mode() == old(self).spec_mode(),
            notify_outcome(
                old(self).manager(),
                final(self).manager(),
                session_id@,
                InputEvent::TouchUp { slot },
                r,
            ),
    {
        self.notify(session_id, InputEvent::TouchUp { slot })
    }

    /// Takes the oldest event forwarded to the compositor.
    pub fn recv_compositor_event(&mut self) -> (r: Option<(SessionId, InputEvent)>)
        requires
            old(self).wf(),
        ensures
            final(self).wf(),
            final(self).spec_mode() == old(self).spec_mode(),
            final(self).manager().sessions() == old(self).manager().sessions(),
            old(self).manager().compositor_pending().len() == 0 ==> r is None,
            old(self).manager().compositor_pending().len() > 0 ==> r == Some(
                old(self).manager().compositor_pending()[0],
            ) && final(self).manager().compositor_pending() == old(self).manager().compositor_pending().drop_first(),
    {
        self.session_manager.recv_compositor_event()
    }
}

/// What sending `event` through session `id` does to a manager going from
/// `m0` to `m1` with result `r`: as stated by [`SessionManager::send_event`].
pub open spec fn notify_outcome(
    m0: SessionManager,
    m1: SessionManager,
    id: Seq<char>,
    event: InputEvent,
    r: Result<(), Error>,
) -> bool {
    &&& m1.spec_config() == m0.spec_config()
    &&& m1.compositor_open() == m0.compositor_open()
    &&& m1.sessions().len() == m0.sessions().len()
    &&& !holds_id(m0.sessions(), id) ==> is_not_found(r, id) && m1.sessions() == m0.sessions()
        && m1.compositor_pending() == m0.compositor_pending()
    &&& holds_id(m0.sessions(), id) ==> ({
        let i = m0.index_of(id);
        let before = m0.sessions()[i];
        let after = m1.sessions()[i];
        &&& m1.sessions() == m0.sessions().update(i, after)
        &&& same_session_but_events(before, after)
        &&& (r is Ok <==> (before.spec_state() == SessionState::Active && event_authorized(
            before.spec_devices(),
            event,
        ) && before.spec_channel_open()))
        &&& send_event_refusal(
            before.spec_state(),
            before.spec_devices(),
            event,
            before.spec_channel_open(),
            r,
        )
        &&& r is Err ==> same_session(before, after) && m1.compositor_pending()
            == m0.compositor_pending()
        &&& r is Ok ==> after.spec_event_count() == before.spec_event_count() + 1
        &&& r is Ok && m0.compositor_open() ==> after.spec_channel_open()
            && m1.compositor_pending().len() == m0.compositor_pending().len() + 1
            && m1.compositor_pending().drop_last() == m0.compositor_pending()
            && m1.compositor_pending().last().0@ == id && m1.compositor_pending().last().1 == event
        &&& r is Ok && !m0.compositor_open() ==> !after.spec_channel_open()
            && m1.compositor_pending() == m0.compositor_pending()
    })
}

} // verus!
