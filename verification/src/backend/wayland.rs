//! The generic Wayland backend: recognising the compositor from the
//! session environment, the protocols it likely offers, and what may be
//! sent once connected.

use vstd::prelude::*;
use vstd::string::StringExecFns;
use crate::backend::compositor::{
    BackendCapabilities, BackendError, CaptureStream, CompositorBackend, DisplayServerType,
};
use crate::backend::registry::{
    capabilities_to_list, cap_views, capability_list, CapabilityView, ProviderInfo,
};
use crate::text::{concat2, concat3, contains_str, seq_contains};
use crate::types::event::{is_keyboard_event, is_pointer_event, ButtonState, Coord, InputEvent, KeyState};
use crate::types::session::SessionId;

verus! {

/// The parts of the session environment that backends look at.
#[derive(Debug)]
pub struct DesktopEnv {
    /// `WAYLAND_DISPLAY` is set.
    pub wayland_display: bool,
    /// `DISPLAY` is set.
    pub display: bool,
    /// `COSMIC_SESSION` is set.
    pub cosmic_session: bool,
    /// `SWAYSOCK` is set.
    pub swaysock: bool,
    /// The value of `XDG_CURRENT_DESKTOP`, when set.
    pub xdg_current_desktop: Option<String>,
}

/// The compositor's name: COSMIC when `COSMIC_SESSION` is set, else Sway
/// when `SWAYSOCK` is, else the current desktop, else `Wayland`.
pub open spec fn compositor_name_of(env: DesktopEnv) -> Seq<char> {
    if env.cosmic_session {
        "COSMIC"@
    } else if env.swaysock {
        "Sway"@
    } else {
        match env.xdg_current_desktop {
            Some(d) => d@,
            None => "Wayland"@,
        }
    }
}

/// Whether the compositor is wlroots-based (Sway, river), which offers the
/// virtual input and screencopy protocols.
pub open spec fn is_wlroots(env: DesktopEnv) -> bool {
    env.swaysock || match env.xdg_current_desktop {
        Some(d) => seq_contains(d@, "sway"@) || seq_contains(d@, "river"@),
        None => false,
    }
}

/// The compositor's name from the session environment (see
/// [`compositor_name_of`]).
pub fn detect_compositor_name(env: &DesktopEnv) -> (r: String)
    ensures
        r@ == compositor_name_of(*env),
{
    if env.cosmic_session {
        return String::from_str("COSMIC");
    }
    if env.swaysock {
        return String::from_str("Sway");
    }
    match &env.xdg_current_desktop {
        Some(d) => d.clone(),
        None => String::from_str("Wayland"),
    }
}

/// Which protocols the compositor likely offers: virtual pointer, virtual
/// keyboard and screencopy, all on wlroots compositors and none elsewhere.
pub fn probe_protocols(env: &DesktopEnv) -> (r: (bool, bool, bool))
    ensures
        r == (is_wlroots(*env), is_wlroots(*env), is_wlroots(*env)),
{
    let wlroots = env.swaysock || match &env.xdg_current_desktop {
        Some(d) => contains_str(d.as_str(), "sway") || contains_str(d.as_str(), "river"),
        None => false,
    };
    (wlroots, wlroots, wlroots)
}

/// A connection to a Wayland compositor: its name and its protocols.
#[derive(Debug)]
pub struct WaylandConnection {
    compositor_name: String,
    has_virtual_pointer: bool,
    has_virtual_keyboard: bool,
    has_screencopy: bool,
}

impl WaylandConnection {
    /// The compositor's name.
    pub closed spec fn name(&self) -> Seq<char> {
        self.compositor_name@
    }

    /// Whether virtual pointer input is offered.
    pub closed spec fn pointer(&self) -> bool {
        self.has_virtual_pointer
    }

    /// Whether virtual keyboard input is offered.
    pub closed spec fn keyboard(&self) -> bool {
        self.has_virtual_keyboard
    }

    /// Whether screencopy is offered.
    pub closed spec fn screencopy(&self) -> bool {
        self.has_screencopy
    }

    /// Connects to the compositor of the session: fails when
    /// `WAYLAND_DISPLAY` is not set; otherwise names the compositor and
    /// records the protocols it likely offers.
    pub fn connect(env: &DesktopEnv) -> (r: Result<WaylandConnection, String>)
        ensures
            r is Ok <==> env.wayland_display,
            r matches Err(m) ==> m@ == "WAYLAND_DISPLAY not set"@,
            r matches Ok(c) ==> c.name() == compositor_name_of(*env) && c.pointer() == is_wlroots(
                *env,
            ) && c.keyboard() == is_wlroots(*env) && c.screencopy() == is_wlroots(*env),
    {
        if !env.wayland_display {
            return Err(String::from_str("WAYLAND_DISPLAY not set"));
        }
        let compositor_name = detect_compositor_name(env);
        let (has_virtual_pointer, has_virtual_keyboard, has_screencopy) = probe_protocols(env);
        Ok(WaylandConnection { compositor_name, has_virtual_pointer, has_virtual_keyboard, has_screencopy })
    }

    /// The compositor's name.
    pub fn compositor_name(&self) -> (r: &str)
        ensures
            r@ == self.name(),
    {
        self.compositor_name.as_str()
    }

    /// Whether virtual pointer input is offered.
    pub fn has_virtual_pointer(&self) -> (r: bool)
        ensures
            r == self.pointer(),
    {
        self.has_virtual_pointer
    }

    /// Whether virtual keyboard input is offered.
    pub fn has_virtual_keyboard(&self) -> (r: bool)
        ensures
            r == self.keyboard(),
    {
        self.has_virtual_keyboard
    }

    /// Whether screencopy is offered.
    pub fn has_screencopy(&self) -> (r: bool)
        ensures
            r == self.screencopy(),
    {
        self.has_screencopy
    }
}

/// What a connection lets the backend do: keyboard and pointer injection
/// and capture as its protocols allow, on Wayland, named after the
/// compositor.
pub open spec fn connection_capabilities(c: BackendCapabilities, conn: WaylandConnection) -> bool {
    &&& c.can_inject_keyboard == conn.keyboard()
    &&& c.can_inject_pointer == conn.pointer()
    &&& c.can_capture_screen == conn.screencopy()
    &&& c.display_server_type == DisplayServerType::Wayland
    &&& c.backend_name@ == "Wayland ("@ + conn.name() + ")"@
}

/// What the backend reports before connecting: nothing, on Wayland, named
/// `Generic Wayland`.
pub open spec fn unconnected_capabilities(c: BackendCapabilities) -> bool {
    &&& !c.can_inject_keyboard
    &&& !c.can_inject_pointer
    &&& !c.can_capture_screen
    &&& c.display_server_type == DisplayServerType::Wayland
    &&& c.backend_name@ == "Generic Wayland"@
}

fn initial_capabilities() -> (r: BackendCapabilities)
    ensures
        unconnected_capabilities(r),
{
    BackendCapabilities {
        can_inject_keyboard: false,
        can_inject_pointer: false,
        can_capture_screen: false,
        display_server_type: DisplayServerType::Wayland,
        backend_name: String::from_str("Generic Wayland"),
    }
}

fn copy_capabilities(c: &BackendCapabilities) -> (r: BackendCapabilities)
    ensures
        r.can_inject_keyboard == c.can_inject_keyboard,
        r.can_inject_pointer == c.can_inject_pointer,
        r.can_capture_screen == c.can_capture_screen,
        r.display_server_type == c.display_server_type,
        r.backend_name@ == c.backend_name@,
{
    BackendCapabilities {
        can_inject_keyboard: c.can_inject_keyboard,
        can_inject_pointer: c.can_inject_pointer,
        can_capture_screen: c.can_capture_screen,
        display_server_type: c.display_server_type,
        backend_name: c.backend_name.clone(),
    }
}

/// What sending `event` over `conn` gives: refused when a keyboard event
/// meets no virtual keyboard or a pointer event no virtual pointer,
/// accepted otherwise.
pub open spec fn inject_outcome(
    conn: WaylandConnection,
    event: InputEvent,
    r: Result<(), BackendError>,
) -> bool {
    if is_keyboard_event(event) && !conn.keyboard() {
        &&& r matches Err(BackendError::InputInjectionFailed(m))
        &&& m@ == "Virtual keyboard protocol not available"@
    } else if is_pointer_event(event) && !conn.pointer() {
        &&& r matches Err(BackendError::InputInjectionFailed(m))
        &&& m@ == "Virtual pointer protocol not available"@
    } else {
        r is Ok
    }
}

/// What starting a capture over `conn` gives: refused without screencopy.
pub open spec fn capture_outcome(conn: WaylandConnection, r: Result<CaptureStream, BackendError>) -> bool {
    if conn.screencopy() {
        r is Ok
    } else {
        &&& r matches Err(BackendError::CaptureFailed(m))
        &&& m@ == "Screencopy protocol not available"@
    }
}

/// Whether `b` is connected to the compositor `env` describes, with the
/// capabilities that connection gives.
pub open spec fn connected_to(b: WaylandBackend, env: DesktopEnv) -> bool {
    &&& b.is_connected()
    &&& b.spec_connection() matches Some(c)
    &&& c.name() == compositor_name_of(env)
    &&& c.keyboard() == is_wlroots(env)
    &&& c.pointer() == is_wlroots(env)
    &&& c.screencopy() == is_wlroots(env)
    &&& connection_capabilities(b.spec_capabilities(), c)
}

/// The generic Wayland backend.
#[derive(Debug)]
pub struct WaylandBackend {
    env: DesktopEnv,
    connection: Option<WaylandConnection>,
    connected: bool,
    capabilities: BackendCapabilities,
}

impl WaylandBackend {
    /// The environment it was made for.
    pub closed spec fn spec_env(&self) -> DesktopEnv {
        self.env
    }

    /// Whether it is connected.
    pub closed spec fn is_connected(&self) -> bool {
        self.connected
    }

    /// Its connection, once connected.
    pub closed spec fn spec_connection(&self) -> Option<WaylandConnection> {
        self.connection
    }

    /// The capabilities it reports.
    pub closed spec fn spec_capabilities(&self) -> BackendCapabilities {
        self.capabilities
    }

    /// Whether connected exactly when holding a connection.
    pub closed spec fn wf(&self) -> bool {
        self.connected <==> self.connection is Some
    }

    /// A backend for the session described by `env`, not connected and
    /// reporting no capabilities.
    pub fn new(env: DesktopEnv) -> (r: WaylandBackend)
        ensures
            r.wf(),
            r.spec_env() == env,
            !r.is_connected(),
            unconnected_capabilities(r.spec_capabilities()),
    {
        WaylandBackend { env, connection: None, connected: false, capabilities: initial_capabilities() }
    }

    /// Whether connected.
    pub fn connected(&self) -> (r: bool)
        ensures
            r == self.is_connected(),
    {
        self.connected
    }

    /// The capabilities of the current connection.
    fn probe_capabilities(&self) -> (r: Result<BackendCapabilities, BackendError>)
        ensures
            match self.spec_connection() {
                Some(c) => r matches Ok(caps) && connection_capabilities(caps, c),
                None => r matches Err(BackendError::ConnectionFailed(m)) && m@ == "Not connected"@,
            },
    {
        match &self.connection {
            None => Err(BackendError::ConnectionFailed(String::from_str("Not connected"))),
            Some(conn) => Ok(
                BackendCapabilities {
                    can_inject_keyboard: conn.has_virtual_keyboard(),
                    can_inject_pointer: conn.has_virtual_pointer(),
                    can_capture_screen: conn.has_screencopy(),
                    display_server_type: DisplayServerType::Wayland,
                    backend_name: concat3("Wayland (", conn.compositor_name(), ")"),
                },
            ),
        }
    }
}

impl CompositorBackend for WaylandBackend {
    /// Available when the session has a Wayland display.
    fn is_available(&self) -> (r: bool)
        ensures
            r == self.spec_env().wayland_display,
    {
        self.env.wayland_display
    }

    /// Connects, unless already connected, and records what the
    /// connection offers.
    fn connect(&mut self) -> (r: Result<(), BackendError>)
        ensures
            old(self).wf() ==> final(self).wf(),
            final(self).spec_env() == old(self).spec_env(),
            old(self).is_connected() ==> r is Ok && *final(self) == *old(self),
            !old(self).is_connected() ==> (r is Ok <==> old(self).spec_env().wayland_display),
            !old(self).is_connected() && !old(self).spec_env().wayland_display ==> (r matches Err(
                BackendError::ConnectionFailed(m),
            ) && m@ == "Wayland connection failed: "@ + "WAYLAND_DISPLAY not set"@ && *final(self)
                == *old(self)),
            !old(self).is_connected() && r is Ok ==> connected_to(*final(self), old(self).spec_env()),
    {
        if self.connected {
            return Ok(());
        }
        let conn = match WaylandConnection::connect(&self.env) {
            Ok(c) => c,
            Err(e) => {
                return Err(
                    BackendError::ConnectionFailed(
                        concat2("Wayland connection failed: ", e.as_str()),
                    ),
                );
            },
        };
        self.connection = Some(conn);
        self.connected = true;
        let caps = self.probe_capabilities();
        match caps {
            Ok(c) => {
                self.capabilities = c;
                Ok(())
            },
            Err(e) => Err(e),
        }
    }

    /// Sends an event: refused before connecting, and refused when the
    /// compositor lacks the protocol the event needs.
    fn inject_input(&mut self, event: InputEvent) -> (r: Result<(), BackendError>)
        ensures
            *final(self) == *old(self),
            !old(self).is_connected() ==> (r matches Err(BackendError::ConnectionFailed(m)) && m@
                == "Not connected to compositor"@),
            old(self).is_connected() && old(self).wf() ==> (old(self).spec_connection() matches Some(
                c,
            ) && inject_outcome(c, event, r)),
    {
        if !self.connected {
            return Err(BackendError::ConnectionFailed(String::from_str("Not connected to compositor")));
        }
        let conn = match &self.connection {
            Some(c) => c,
            None => {
                return Err(BackendError::ConnectionFailed(String::from_str("No connection available")));
            },
        };
        if event.is_keyboard() && !conn.has_virtual_keyboard() {
            return Err(
                BackendError::InputInjectionFailed(
                    String::from_str("Virtual keyboard protocol not available"),
                ),
            );
        }
        if event.is_pointer() && !conn.has_virtual_pointer() {
            return Err(
                BackendError::InputInjectionFailed(
                    String::from_str("Virtual pointer protocol not available"),
                ),
            );
        }
        Ok(())
    }

    /// Starts a capture: refused before connecting and when the compositor
    /// offers no screencopy.
    fn start_capture(&self, session: &SessionId) -> (r: Result<CaptureStream, BackendError>)
        ensures
            !self.is_connected() ==> (r matches Err(BackendError::ConnectionFailed(m)) && m@
                == "Not connected to compositor"@),
            self.is_connected() && self.wf() ==> (self.spec_connection() matches Some(c)
                && capture_outcome(c, r)),
            r matches Ok(s) ==> s.session_id@ == session@,
    {
        if !self.connected {
            return Err(BackendError::ConnectionFailed(String::from_str("Not connected to compositor")));
        }
        let conn = match &self.connection {
            Some(c) => c,
            None => {
                return Err(BackendError::ConnectionFailed(String::from_str("No connection available")));
            },
        };
        if !conn.has_screencopy() {
            return Err(
                BackendError::CaptureFailed(String::from_str("Screencopy protocol not available")),
            );
        }
        Ok(CaptureStream { session_id: session.clone() })
    }

    /// The capabilities it reports.
    fn capabilities(&self) -> (r: BackendCapabilities)
        ensures
            r.can_inject_keyboard == self.spec_capabilities().can_inject_keyboard,
            r.can_inject_pointer == self.spec_capabilities().can_inject_pointer,
            r.can_capture_screen == self.spec_capabilities().can_capture_screen,
            r.display_server_type == self.spec_capabilities().display_server_type,
            r.backend_name@ == self.spec_capabilities().backend_name@,
    {
        copy_capabilities(&self.capabilities)
    }
}

/// Virtual keyboard protocol binding; not bound yet, so never available
/// and every request is accepted without effect.
#[derive(Debug)]
pub struct VirtualKeyboardManager {
    available: bool,
}

impl VirtualKeyboardManager {
    /// Whether the protocol is bound.
    pub closed spec fn bound(&self) -> bool {
        self.available
    }

    /// A manager with the protocol not bound.
    pub fn new() -> (r: VirtualKeyboardManager)
        ensures
            !r.bound(),
    {
        VirtualKeyboardManager { available: false }
    }

    /// Whether the protocol is bound.
    pub fn is_available(&self) -> (r: bool)
        ensures
            r == self.bound(),
    {
        self.available
    }

    /// Sends a key event; accepted.
    pub fn key(&self, keycode: u32, state: KeyState, time: u32) -> (r: Result<(), BackendError>)
        ensures
            r is Ok,
    {
        Ok(())
    }

    /// Sets the modifier state; accepted.
    pub fn modifiers(
        &self,
        mods_depressed: u32,
        mods_latched: u32,
        mods_locked: u32,
        group: u32,
    ) -> (r: Result<(), BackendError>)
        ensures
            r is Ok,
    {
        Ok(())
    }
}

impl Default for VirtualKeyboardManager {
    fn default() -> (r: VirtualKeyboardManager)
        ensures
            !r.bound(),
    {
        VirtualKeyboardManager::new()
    }
}

/// Virtual pointer protocol binding; not bound yet, so never available
/// and every request is accepted without effect.
#[derive(Debug)]
pub struct VirtualPointerManager {
    available: bool,
}

impl VirtualPointerManager {
    /// Whether the protocol is bound.
    pub closed spec fn bound(&self) -> bool {
        self.available
    }

    /// A manager with the protocol not bound.
    pub fn new() -> (r: VirtualPointerManager)
        ensures
            !r.bound(),
    {
        VirtualPointerManager { available: false }
    }

    /// Whether the protocol is bound.
    pub fn is_available(&self) -> (r: bool)
        ensures
            r == self.bound(),
    {
        self.available
    }

    /// Relative pointer motion; accepted (the protocol is not bound yet).
    pub fn motion(&self, dx: Coord, dy: Coord, time: u32) -> (r: Result<(), BackendError>)
        ensures
            r is Ok,
    {
        Ok(())
    }

    /// Absolute pointer motion within a `width` by `height` output;
    /// accepted (the protocol is not bound yet).
    pub fn motion_absolute(
        &self,
        x: Coord,
        y: Coord,
        width: u32,
        height: u32,
        time: u32,
    ) -> (r: Result<(), BackendError>)
        ensures
            r is Ok,
    {
        Ok(())
    }

    /// Smooth scrolling; accepted (the protocol is not bound yet).
    pub fn axis(&self, dx: Coord, dy: Coord, time: u32) -> (r: Result<(), BackendError>)
        ensures
            r is Ok,
    {
        Ok(())
    }

    /// Sends a button event; accepted.
    pub fn button(&self, button: u32, state: ButtonState, time: u32) -> (r: Result<(), BackendError>)
        ensures
            r is Ok,
    {
        Ok(())
    }

    /// Sends discrete scroll steps; accepted.
    pub fn axis_discrete(&self, axis: u32, steps: i32, time: u32) -> (r: Result<(), BackendError>)
        ensures
            r is Ok,
    {
        Ok(())
    }
}

impl Default for VirtualPointerManager {
    fn default() -> (r: VirtualPointerManager)
        ensures
            !r.bound(),
    {
        VirtualPointerManager::new()
    }
}

/// The provider of the generic Wayland backend.
pub struct WaylandProvider;

impl WaylandProvider {
    /// Its identifier, `wayland`.
    pub fn id(&self) -> (r: &'static str)
        ensures
            r@ == "wayland"@,
    {
        "wayland"
    }

    /// Its name, `Wayland (Generic)`.
    pub fn name(&self) -> (r: &'static str)
        ensures
            r@ == "Wayland (Generic)"@,
    {
        "Wayland (Generic)"
    }

    /// Available when the session has a Wayland display.
    pub fn is_available(&self, env: &DesktopEnv) -> (r: bool)
        ensures
            r == env.wayland_display,
    {
        env.wayland_display
    }

    /// The registry entry: identifier, name and the capabilities of an
    /// unconnected backend.
    pub fn info(&self) -> (r: ProviderInfo)
        ensures
            r.id@ == "wayland"@,
            r.name@ == "Wayland (Generic)"@,
            cap_views(r.capabilities@) == seq![CapabilityView::DisplayServer(DisplayServerType::Wayland)],
    {
        let caps = initial_capabilities();
        let list = capabilities_to_list(&caps);
        assert(capability_list(caps) =~= seq![CapabilityView::DisplayServer(DisplayServerType::Wayland)]);
        ProviderInfo {
            id: String::from_str("wayland"),
            name: String::from_str("Wayland (Generic)"),
            capabilities: list,
        }
    }
}

} // verus!
