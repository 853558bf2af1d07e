//! Remote desktop session modes.
//!
//! | Mode      | Screen | Input |
//! |-----------|--------|-------|
//! | Full      | yes    | yes   |
//! | InputOnly | no     | yes   |
//! | ViewOnly  | yes    | no    |
//! | Inactive  | no     | no    |
//!
//! On the wire a mode is a `u32`: Inactive = 0, ViewOnly = 1, InputOnly = 2, Full = 3.

use vstd::prelude::*;

verus! {

/// The combination of capabilities a session offers.
#[derive(Clone, Copy, Debug, PartialEq, Eq, Hash, Structural)]
pub enum RemoteDesktopMode {
    /// No capability active (session paused or inactive).
    Inactive,
    /// Screen visible, no control.
    ViewOnly,
    /// Control without a view of the screen.
    InputOnly,
    /// Screen visible and controllable.
    Full,
}

/// Whether a mode shows the screen.
pub open spec fn mode_has_capture(m: RemoteDesktopMode) -> bool {
    m is ViewOnly || m is Full
}

/// Whether a mode lets the client inject input.
pub open spec fn mode_has_input(m: RemoteDesktopMode) -> bool {
    m is InputOnly || m is Full
}

/// The mode that offers exactly the given capabilities.
pub open spec fn mode_from_caps(has_capture: bool, has_input: bool) -> RemoteDesktopMode {
    if has_capture && has_input {
        RemoteDesktopMode::Full
    } else if has_capture {
        RemoteDesktopMode::ViewOnly
    } else if has_input {
        RemoteDesktopMode::InputOnly
    } else {
        RemoteDesktopMode::Inactive
    }
}

/// The wire value of a mode.
pub open spec fn mode_to_u32(m: RemoteDesktopMode) -> u32 {
    match m {
        RemoteDesktopMode::Inactive => 0,
        RemoteDesktopMode::ViewOnly => 1,
        RemoteDesktopMode::InputOnly => 2,
        RemoteDesktopMode::Full => 3,
    }
}

/// The mode of a wire value; 0 and unknown values give `Inactive`.
pub open spec fn mode_from_u32(v: u32) -> RemoteDesktopMode {
    if v == 1 {
        RemoteDesktopMode::ViewOnly
    } else if v == 2 {
        RemoteDesktopMode::InputOnly
    } else if v == 3 {
        RemoteDesktopMode::Full
    } else {
        RemoteDesktopMode::Inactive
    }
}

/// The display name of a mode.
pub open spec fn mode_name(m: RemoteDesktopMode) -> &'static str {
    match m {
        RemoteDesktopMode::Inactive => "None",
        RemoteDesktopMode::ViewOnly => "View Only",
        RemoteDesktopMode::InputOnly => "Input Only",
        RemoteDesktopMode::Full => "Full Control",
    }
}

impl RemoteDesktopMode {
    /// True when this mode provides screen capture.
    pub fn has_capture(&self) -> (r: bool)
        ensures
            r == mode_has_capture(*self),
    {
        match self {
            RemoteDesktopMode::ViewOnly | RemoteDesktopMode::Full => true,
            _ => false,
        }
    }

    /// True when this mode provides input injection.
    pub fn has_input(&self) -> (r: bool)
        ensures
            r == mode_has_input(*self),
    {
        match self {
            RemoteDesktopMode::InputOnly | RemoteDesktopMode::Full => true,
            _ => false,
        }
    }

    /// True when this mode has any active capability.
    pub fn is_active(&self) -> (r: bool)
        ensures
            r == !(*self is Inactive),
            r == (mode_has_capture(*self) || mode_has_input(*self)),
    {
        match self {
            RemoteDesktopMode::Inactive => false,
            _ => true,
        }
    }

    /// A human-readable name for this mode.
    pub fn name(&self) -> (r: &'static str)
        ensures
            r@ == mode_name(*self)@,
    {
        match self {
            RemoteDesktopMode::Inactive => "None",
            RemoteDesktopMode::ViewOnly => "View Only",
            RemoteDesktopMode::InputOnly => "Input Only",
            RemoteDesktopMode::Full => "Full Control",
        }
    }

    /// The mode offering exactly the given capabilities.
    pub fn from_capabilities(has_capture: bool, has_input: bool) -> (r: RemoteDesktopMode)
        ensures
            r == mode_from_caps(has_capture, has_input),
            mode_has_capture(r) == has_capture,
            mode_has_input(r) == has_input,
    {
        match (has_capture, has_input) {
            (true, true) => RemoteDesktopMode::Full,
            (true, false) => RemoteDesktopMode::ViewOnly,
            (false, true) => RemoteDesktopMode::InputOnly,
            (false, false) => RemoteDesktopMode::Inactive,
        }
    }

    /// The wire value of this mode (Inactive = 0, ViewOnly = 1, InputOnly = 2, Full = 3).
    pub fn to_u32(&self) -> (r: u32)
        ensures
            r == mode_to_u32(*self),
    {
        match self {
            RemoteDesktopMode::Inactive => 0,
            RemoteDesktopMode::ViewOnly => 1,
            RemoteDesktopMode::InputOnly => 2,
            RemoteDesktopMode::Full => 3,
        }
    }

    /// The mode of a wire value; 0 and unknown values give `Inactive`.
    pub fn from_u32(value: u32) -> (r: RemoteDesktopMode)
        ensures
            r == mode_from_u32(value),
    {
        match value {
            1 => RemoteDesktopMode::ViewOnly,
            2 => RemoteDesktopMode::InputOnly,
            3 => RemoteDesktopMode::Full,
            _ => RemoteDesktopMode::Inactive,
        }
    }
}

/// A mode survives the trip to its wire value and back, and every wire value
/// outside 1..=3 decodes to `Inactive`.
pub proof fn lemma_mode_wire_roundtrip(m: RemoteDesktopMode, v: u32)
    ensures
        mode_from_u32(mode_to_u32(m)) == m,
        v > 3 ==> mode_from_u32(v) == RemoteDesktopMode::Inactive,
        v <= 3 ==> mode_to_u32(mode_from_u32(v)) == v,
{
}

/// A mode is determined by its two capabilities: building the mode from the
/// capabilities of `m` gives back `m`.
pub proof fn lemma_mode_capabilities_determine_mode(m: RemoteDesktopMode)
    ensures
        mode_from_caps(mode_has_capture(m), mode_has_input(m)) == m,
{
}

impl From<u32> for RemoteDesktopMode {
    /// Decodes a wire value; 0 and unknown values give `Inactive`.
    fn from(value: u32) -> (r: RemoteDesktopMode) {
        RemoteDesktopMode::from_u32(value)
    }
}

impl vstd::std_specs::convert::FromSpecImpl<u32> for RemoteDesktopMode {
    open spec fn obeys_from_spec() -> bool {
        true
    }

    open spec fn from_spec(v: u32) -> RemoteDesktopMode {
        mode_from_u32(v)
    }
}

impl From<RemoteDesktopMode> for u32 {
    /// Encodes a mode as its wire value.
    fn from(mode: RemoteDesktopMode) -> (r: u32) {
        mode.to_u32()
    }
}

impl vstd::std_specs::convert::FromSpecImpl<RemoteDesktopMode> for u32 {
    open spec fn obeys_from_spec() -> bool {
        true
    }

    open spec fn from_spec(v: RemoteDesktopMode) -> u32 {
        mode_to_u32(v)
    }
}

/// Simplified capture tier information used for mode selection.
#[derive(Clone, Copy, Debug, PartialEq, Eq, Hash, Structural)]
pub enum CaptureTierInfo {
    /// GPU zero-copy capture.
    Dmabuf,
    /// Shared memory capture.
    Shm,
    /// CPU framebuffer capture.
    Cpu,
}

/// Capabilities that determine a session's mode.
#[derive(Clone, Copy, Debug, PartialEq, Eq, Structural)]
pub struct SessionCapabilities {
    /// Screen capture is available.
    pub capture_available: bool,
    /// Input injection is available.
    pub input_available: bool,
    /// The capture tier, when known.
    pub capture_tier: Option<CaptureTierInfo>,
}

impl SessionCapabilities {
    /// Both capture and input.
    pub fn full() -> (r: SessionCapabilities)
        ensures
            r == (SessionCapabilities {
                capture_available: true,
                input_available: true,
                capture_tier: None,
            }),
    {
        SessionCapabilities { capture_available: true, input_available: true, capture_tier: None }
    }

    /// Input only.
    pub fn input_only() -> (r: SessionCapabilities)
        ensures
            r == (SessionCapabilities {
                capture_available: false,
                input_available: true,
                capture_tier: None,
            }),
    {
        SessionCapabilities { capture_available: false, input_available: true, capture_tier: None }
    }

    /// Capture only.
    pub fn view_only() -> (r: SessionCapabilities)
        ensures
            r == (SessionCapabilities {
                capture_available: true,
                input_available: false,
                capture_tier: None,
            }),
    {
        SessionCapabilities { capture_available: true, input_available: false, capture_tier: None }
    }

    /// Neither capture nor input.
    pub fn none() -> (r: SessionCapabilities)
        ensures
            r == (SessionCapabilities {
                capture_available: false,
                input_available: false,
                capture_tier: None,
            }),
    {
        SessionCapabilities { capture_available: false, input_available: false, capture_tier: None }
    }

    /// The best mode these capabilities allow.
    pub fn best_mode(&self) -> (r: RemoteDesktopMode)
        ensures
            r == mode_from_caps(self.capture_available, self.input_available),
    {
        RemoteDesktopMode::from_capabilities(self.capture_available, self.input_available)
    }
}

} // verus!
