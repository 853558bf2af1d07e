//! The COSMIC backend's decisions: when it applies, what a D-Bus connection
//! attempt leaves it with, and what it accepts once connected. The D-Bus
//! calls themselves are made by the caller, which reports their outcome.

use vstd::prelude::*;
use vstd::string::StringExecFns;
use crate::backend::compositor::{BackendCapabilities, BackendError, CaptureStream, DisplayServerType};
use crate::backend::registry::{
    capabilities_to_list, cap_views, capability_list, CapabilityView, ProviderInfo,
};
use crate::backend::wayland::DesktopEnv;
use crate::text::{concat2, contains_str, seq_contains};
use crate::types::event::InputEvent;
use crate::types::session::SessionId;

verus! {

/// The D-Bus name of the compositor's remote desktop service.
pub open spec fn cosmic_comp_service() -> Seq<char> {
    "com.system76.cosmic.Comp"@
}

/// The D-Bus name of the compositor's remote desktop service.
pub fn cosmic_comp_service_name() -> (r: &'static str)
    ensures
        r@ == cosmic_comp_service(),
{
    "com.system76.cosmic.Comp"
}

/// Whether the session is a COSMIC session: `COSMIC_SESSION` is set or the
/// current desktop mentions `COSMIC`.
pub open spec fn cosmic_session(env: DesktopEnv) -> bool {
    env.cosmic_session || match env.xdg_current_desktop {
        Some(d) => seq_contains(d@, "COSMIC"@),
        None => false,
    }
}

/// Whether the session is a COSMIC session (see [`cosmic_session`]).
pub fn is_cosmic_session(env: &DesktopEnv) -> (r: bool)
    ensures
        r == cosmic_session(*env),
{
    env.cosmic_session || match &env.xdg_current_desktop {
        Some(d) => contains_str(d.as_str(), "COSMIC"),
        None => false,
    }
}

/// How an attempt to reach the compositor over D-Bus ended.
#[derive(Debug)]
pub enum CosmicConnectOutcome {
    /// No session bus connection; the error text.
    BusFailed(String),
    /// The service proxy could not be created; the error text.
    ProxyFailed(String),
    /// Connected; whether the compositor's service is on the bus.
    Connected { service_available: bool },
}

/// What the backend reports: injection when the compositor's service is
/// on the bus, no capture yet, on Wayland, named `COSMIC (Wayland)`.
pub open spec fn cosmic_capabilities(c: BackendCapabilities, service_available: bool) -> bool {
    &&& c.can_inject_keyboard == service_available
    &&& c.can_inject_pointer == service_available
    &&& !c.can_capture_screen
    &&& c.display_server_type == DisplayServerType::Wayland
    &&& c.backend_name@ == "COSMIC (Wayland)"@
}

/// The COSMIC backend.
#[derive(Debug)]
pub struct CosmicBackend {
    connected: bool,
    service_available: Option<bool>,
}

impl CosmicBackend {
    /// Whether connected.
    pub closed spec fn is_connected(&self) -> bool {
        self.connected
    }

    /// Once connected, whether the compositor's service is on the bus.
    pub closed spec fn service(&self) -> Option<bool> {
        self.service_available
    }

    /// Connected exactly when the service was looked up.
    pub closed spec fn wf(&self) -> bool {
        self.connected <==> self.service_available is Some
    }

    /// A backend that is not connected.
    pub fn new() -> (r: CosmicBackend)
        ensures
            r.wf(),
            !r.is_connected(),
            r.service() is None,
    {
        CosmicBackend { connected: false, service_available: None }
    }

    /// Whether connected.
    pub fn connected(&self) -> (r: bool)
        ensures
            r == self.is_connected(),
    {
        self.connected
    }

    /// Usable in a COSMIC session with a Wayland display.
    pub fn is_available(&self, env: &DesktopEnv) -> (r: bool)
        ensures
            r == (cosmic_session(*env) && env.wayland_display),
    {
        is_cosmic_session(env) && env.wayland_display
    }

    /// Records how a connection attempt ended (made only while not
    /// connected): a bus or proxy failure is reported, a connection kept.
    pub fn record_connection(&mut self, outcome: CosmicConnectOutcome) -> (r: Result<(), BackendError>)
        requires
            !old(self).is_connected(),
            old(self).wf(),
        ensures
            final(self).wf(),
            outcome matches CosmicConnectOutcome::BusFailed(e) ==> (r matches Err(
                BackendError::ConnectionFailed(m),
            ) && m@ == "D-Bus connection failed: "@ + e@ && !final(self).is_connected()),
            outcome matches CosmicConnectOutcome::ProxyFailed(e) ==> (r matches Err(
                BackendError::ConnectionFailed(m),
            ) && m@ == "Failed to create proxy: "@ + e@ && !final(self).is_connected()),
            outcome matches CosmicConnectOutcome::Connected { service_available } ==> (r is Ok
                && final(self).is_connected() && final(self).service() == Some(service_available)),
    {
        match outcome {
            CosmicConnectOutcome::BusFailed(e) => Err(
                BackendError::ConnectionFailed(concat2("D-Bus connection failed: ", e.as_str())),
            ),
            CosmicConnectOutcome::ProxyFailed(e) => Err(
                BackendError::ConnectionFailed(concat2("Failed to create proxy: ", e.as_str())),
            ),
            CosmicConnectOutcome::Connected { service_available } => {
                self.service_available = Some(service_available);
                self.connected = true;
                Ok(())
            },
        }
    }

    /// Sends an event: refused before connecting, and refused while the
    /// compositor's service is not on the bus.
    pub fn inject_input(&self, event: InputEvent) -> (r: Result<(), BackendError>)
        ensures
            !self.is_connected() ==> (r matches Err(BackendError::ConnectionFailed(m)) && m@
                == "Not connected to compositor"@),
            self.is_connected() && self.service() == Some(false) ==> (r matches Err(
                BackendError::InputInjectionFailed(m),
            ) && m@ == "cosmic-comp D-Bus service not available (not yet implemented in cosmic-comp)"@),
            self.is_connected() && self.service() == Some(true) ==> r is Ok,
    {
        if !self.connected {
            return Err(BackendError::ConnectionFailed(String::from_str("Not connected to compositor")));
        }
        match self.service_available {
            None => Err(BackendError::ConnectionFailed(String::from_str("No proxy available"))),
            Some(false) => Err(
                BackendError::InputInjectionFailed(
                    String::from_str(
                        "cosmic-comp D-Bus service not available (not yet implemented in cosmic-comp)",
                    ),
                ),
            ),
            Some(true) => Ok(()),
        }
    }

    /// Starts a capture: refused before connecting, and refused after,
    /// since the compositor offers no capture yet.
    pub fn start_capture(&self, session: &SessionId) -> (r: Result<CaptureStream, BackendError>)
        ensures
            !self.is_connected() ==> (r matches Err(BackendError::ConnectionFailed(m)) && m@
                == "Not connected to compositor"@),
            self.is_connected() ==> (r matches Err(BackendError::CaptureFailed(m)) && m@
                == "Screen capture not yet available in cosmic-comp (PipeWire integration pending)"@),
    {
        if !self.connected {
            return Err(BackendError::ConnectionFailed(String::from_str("Not connected to compositor")));
        }
        Err(
            BackendError::CaptureFailed(
                String::from_str(
                    "Screen capture not yet available in cosmic-comp (PipeWire integration pending)",
                ),
            ),
        )
    }

    /// What the backend can do (see [`cosmic_capabilities`]).
    pub fn capabilities(&self) -> (r: BackendCapabilities)
        ensures
            cosmic_capabilities(r, self.service() == Some(true)),
    {
        let available = match self.service_available {
            Some(a) => a,
            None => false,
        };
        BackendCapabilities {
            can_inject_keyboard: available,
            can_inject_pointer: available,
            can_capture_screen: false,
            display_server_type: DisplayServerType::Wayland,
            backend_name: String::from_str("COSMIC (Wayland)"),
        }
    }
}

impl Default for CosmicBackend {
    fn default() -> (r: CosmicBackend)
        ensures
            r.wf(),
            !r.is_connected(),
            r.service() is None,
    {
        CosmicBackend::new()
    }
}

/// The provider of the COSMIC backend.
pub struct CosmicProvider;

impl CosmicProvider {
    /// Its identifier, `cosmic`.
    pub fn id(&self) -> (r: &'static str)
        ensures
            r@ == "cosmic"@,
    {
        "cosmic"
    }

    /// Its name, `COSMIC (Wayland)`.
    pub fn name(&self) -> (r: &'static str)
        ensures
            r@ == "COSMIC (Wayland)"@,
    {
        "COSMIC (Wayland)"
    }

    /// Available in a COSMIC session.
    pub fn is_available(&self, env: &DesktopEnv) -> (r: bool)
        ensures
            r == cosmic_session(*env),
    {
        is_cosmic_session(env)
    }

    /// The registry entry: identifier, name and the capabilities of an
    /// unconnected backend (only the display server).
    pub fn info(&self) -> (r: ProviderInfo)
        ensures
            r.id@ == "cosmic"@,
            r.name@ == "COSMIC (Wayland)"@,
            cap_views(r.capabilities@) == seq![CapabilityView::DisplayServer(DisplayServerType::Wayland)],
    {
        let backend = CosmicBackend::new();
        let caps = backend.capabilities();
        let list = capabilities_to_list(&caps);
        assert(capability_list(caps) =~= seq![CapabilityView::DisplayServer(DisplayServerType::Wayland)]);
        ProviderInfo {
            id: String::from_str("cosmic"),
            name: String::from_str("COSMIC (Wayland)"),
            capabilities: list,
        }
    }
}

} // verus!
