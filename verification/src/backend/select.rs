//! The choice of backend for the portal service.

use vstd::prelude::*;
use crate::backend::cosmic::{cosmic_session, CosmicBackend};
use crate::backend::wayland::DesktopEnv;

verus! {

/// The backends the portal service can run on.
#[derive(Clone, Copy, Debug, PartialEq, Eq, Structural)]
pub enum BackendChoice {
    /// The COSMIC backend.
    Cosmic,
    /// The generic Wayland backend.
    Wayland,
}

/// The backend to run on: COSMIC in a COSMIC session with a Wayland
/// display, else generic Wayland with a Wayland display, else none.
pub open spec fn backend_for(env: DesktopEnv) -> Option<BackendChoice> {
    if cosmic_session(env) && env.wayland_display {
        Some(BackendChoice::Cosmic)
    } else if env.wayland_display {
        Some(BackendChoice::Wayland)
    } else {
        None
    }
}

/// The backend to run on (see [`backend_for`]).
pub fn select_backend(env: &DesktopEnv) -> (r: Option<BackendChoice>)
    ensures
        r == backend_for(*env),
{
    let cosmic = CosmicBackend::new();
    if cosmic.is_available(env) {
        Some(BackendChoice::Cosmic)
    } else if env.wayland_display {
        Some(BackendChoice::Wayland)
    } else {
        None
    }
}

} // verus!
