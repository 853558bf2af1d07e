//! Compositor backends: what one can do, the interface every backend
//! offers, and a backend that records what it is sent.

use vstd::prelude::*;
use vstd::string::StringExecFns;
use crate::text::concat2;
use crate::types::event::InputEvent;
use crate::types::session::SessionId;

verus! {

/// Why a backend operation failed.
#[derive(Debug)]
pub enum BackendError {
    /// The backend is not available.
    NotAvailable(String),
    /// Connecting to the compositor failed.
    ConnectionFailed(String),
    /// Injecting input failed.
    InputInjectionFailed(String),
    /// Capturing the screen failed.
    CaptureFailed(String),
    /// The session is not valid.
    InvalidSession(String),
    /// Any other failure.
    Other(String),
}

/// The message of a backend error with detail `d`.
pub open spec fn backend_error_message(e: BackendError) -> Seq<char> {
    match e {
        BackendError::NotAvailable(d) => "Backend not available: "@ + d@,
        BackendError::ConnectionFailed(d) => "Failed to connect to compositor: "@ + d@,
        BackendError::InputInjectionFailed(d) => "Failed to inject input: "@ + d@,
        BackendError::CaptureFailed(d) => "Failed to capture screen: "@ + d@,
        BackendError::InvalidSession(d) => "Invalid session: "@ + d@,
        BackendError::Other(d) => "Backend error: "@ + d@,
    }
}

impl BackendError {
    /// The message that describes the error.
    pub fn message(&self) -> (r: String)
        ensures
            r@ == backend_error_message(*self),
    {
        match self {
            BackendError::NotAvailable(d) => concat2("Backend not available: ", d.as_str()),
            BackendError::ConnectionFailed(d) => concat2(
                "Failed to connect to compositor: ",
                d.as_str(),
            ),
            BackendError::InputInjectionFailed(d) => concat2(
                "Failed to inject input: ",
                d.as_str(),
            ),
            BackendError::CaptureFailed(d) => concat2("Failed to capture screen: ", d.as_str()),
            BackendError::InvalidSession(d) => concat2("Invalid session: ", d.as_str()),
            BackendError::Other(d) => concat2("Backend error: ", d.as_str()),
        }
    }
}

/// The kind of display server a backend drives.
#[derive(Debug, Clone, Copy, PartialEq, Eq, Hash, Structural)]
pub enum DisplayServerType {
    /// A Wayland compositor.
    Wayland,
    /// An X11 server.
    X11,
    /// A virtual display, for testing.
    Virtual,
    /// Unknown.
    Unknown,
}

/// The display server running, from which display variables are set:
/// Wayland when `WAYLAND_DISPLAY` is, else X11 when `DISPLAY` is, else
/// unknown.
pub fn display_server_from_env(wayland_display_set: bool, display_set: bool) -> (r:
    DisplayServerType)
    ensures
        wayland_display_set ==> r == DisplayServerType::Wayland,
        !wayland_display_set && display_set ==> r == DisplayServerType::X11,
        !wayland_display_set && !display_set ==> r == DisplayServerType::Unknown,
{
    if wayland_display_set {
        DisplayServerType::Wayland
    } else if display_set {
        DisplayServerType::X11
    } else {
        DisplayServerType::Unknown
    }
}

/// What a backend can do.
#[derive(Debug)]
pub struct BackendCapabilities {
    /// Keyboard input can be injected.
    pub can_inject_keyboard: bool,
    /// Pointer input can be injected.
    pub can_inject_pointer: bool,
    /// The screen can be captured.
    pub can_capture_screen: bool,
    /// The display server driven.
    pub display_server_type: DisplayServerType,
    /// Human-readable backend name.
    pub backend_name: String,
}

/// A screen capture started for a session.
#[derive(Debug)]
pub struct CaptureStream {
    /// The session captured for.
    pub session_id: SessionId,
}

/// The interface of a compositor backend: whether it can be used, how to
/// connect, inject input and start a capture, and what it can do.
/// Backends implement it; the calls that reach a compositor happen in
/// their implementations.
pub trait CompositorBackend {
    /// Whether the backend can be used here.
    fn is_available(&self) -> bool;

    /// Connects to the compositor.
    fn connect(&mut self) -> Result<(), BackendError>;

    /// Injects an input event.
    fn inject_input(&mut self, event: InputEvent) -> Result<(), BackendError>;

    /// Starts a screen capture for a session.
    fn start_capture(&self, session: &SessionId) -> Result<CaptureStream, BackendError>;

    /// What the backend can do.
    fn capabilities(&self) -> BackendCapabilities;
}

/// A backend that drives no compositor and records every event it is
/// sent; always available.
#[derive(Debug)]
pub struct MockBackend {
    events: Vec<InputEvent>,
    connected: bool,
}

/// The capabilities of the recording backend: everything, on a virtual
/// display, named `Mock (testing)`.
pub open spec fn mock_capabilities(c: BackendCapabilities) -> bool {
    &&& c.can_inject_keyboard
    &&& c.can_inject_pointer
    &&& c.can_capture_screen
    &&& c.display_server_type == DisplayServerType::Virtual
    &&& c.backend_name@ == "Mock (testing)"@
}

impl MockBackend {
    /// The events received so far, in order.
    pub closed spec fn received(&self) -> Seq<InputEvent> {
        self.events@
    }

    /// Whether `connect` was called.
    pub closed spec fn is_connected(&self) -> bool {
        self.connected
    }

    /// A backend that has received nothing and is not connected.
    pub fn new() -> (r: MockBackend)
        ensures
            r.received() == Seq::<InputEvent>::empty(),
            !r.is_connected(),
    {
        MockBackend { events: Vec::new(), connected: false }
    }

    /// The events received so far, in order.
    pub fn received_events(&self) -> (r: Vec<InputEvent>)
        ensures
            r@ == self.received(),
    {
        let mut out: Vec<InputEvent> = Vec::new();
        let mut i: usize = 0;
        while i < self.events.len()
            invariant
                i <= self.events@.len(),
                out@ == self.events@.take(i as int),
            decreases self.events@.len() - i,
        {
            out.push(self.events[i]);
            i = i + 1;
            assert(out@ =~= self.events@.take(i as int));
        }
        assert(self.events@.take(self.events@.len() as int) =~= self.events@);
        out
    }

    /// Forgets the events received.
    pub fn clear_events(&mut self)
        ensures
            final(self).received() == Seq::<InputEvent>::empty(),
            final(self).is_connected() == old(self).is_connected(),
    {
        self.events = Vec::new();
    }
}

impl Default for MockBackend {
    fn default() -> (r: MockBackend)
        ensures
            r.received() == Seq::<InputEvent>::empty(),
            !r.is_connected(),
    {
        MockBackend::new()
    }
}

impl CompositorBackend for MockBackend {
    fn is_available(&self) -> (r: bool)
        ensures
            r,
    {
        true
    }

    fn connect(&mut self) -> (r: Result<(), BackendError>)
        ensures
            r is Ok,
            final(self).is_connected(),
            final(self).received() == old(self).received(),
    {
        self.connected = true;
        Ok(())
    }

    fn inject_input(&mut self, event: InputEvent) -> (r: Result<(), BackendError>)
        ensures
            r is Ok,
            final(self).received() == old(self).received().push(event),
            final(self).is_connected() == old(self).is_connected(),
    {
        self.events.push(event);
        Ok(())
    }

    fn start_capture(&self, session: &SessionId) -> (r: Result<CaptureStream, BackendError>)
        ensures
            r matches Ok(s) && s.session_id@ == session@,
    {
        Ok(CaptureStream { session_id: session.clone() })
    }

    fn capabilities(&self) -> (r: BackendCapabilities)
        ensures
            mock_capabilities(r),
    {
        BackendCapabilities {
            can_inject_keyboard: true,
            can_inject_pointer: true,
            can_capture_screen: true,
            display_server_type: DisplayServerType::Virtual,
            backend_name: String::from_str("Mock (testing)"),
        }
    }
}

/// Chooses the backend to use.
pub struct BackendFactory;

impl BackendFactory {
    /// The best backend available: the recording backend, until real
    /// backends are registered.
    pub fn create_best_available() -> (r: MockBackend)
        ensures
            r.received() == Seq::<InputEvent>::empty(),
            !r.is_connected(),
    {
        MockBackend::new()
    }
}

} // verus!
