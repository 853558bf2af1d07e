//! Error types and their messages.

use vstd::prelude::*;
use crate::text::{concat2, concat3, decimal, decimal_string};
use crate::types::event::Coord;
use crate::types::session::{state_name, SessionState};
use vstd::string::StringExecFns;

verus! {

/// Errors of session management.
#[derive(Debug)]
pub enum SessionError {
    /// No session has this id.
    NotFound(String),
    /// A session with this id exists already.
    AlreadyExists(String),
    /// The session is not authorised for the operation.
    Unauthorized,
    /// The session has been closed.
    Closed,
    /// The session is in the wrong state for the operation.
    InvalidState {
        /// The state the operation needs.
        expected: SessionState,
        /// The state the session is in.
        actual: SessionState,
    },
}

/// Errors of input injection.
#[derive(Debug)]
pub enum InputError {
    /// The device type is not available.
    DeviceNotAvailable(String),
    /// The session is not authorised for this device type.
    DeviceNotAuthorized(String),
    /// The coordinates are out of range.
    InvalidCoordinates {
        /// X coordinate.
        x: Coord,
        /// Y coordinate.
        y: Coord,
    },
    /// The session sends events too fast.
    RateLimitExceeded {
        /// The measured rate or burst count.
        events_per_sec: u32,
        /// The limit that was exceeded.
        max: u32,
    },
    /// No stream has this id.
    StreamNotFound(u32),
}

/// Errors of portal communication.
#[derive(Debug)]
pub enum PortalError {
    /// The D-Bus connection failed.
    Connection(String),
    /// A D-Bus method call failed.
    MethodCall(String),
    /// The portal answered with an error.
    Response(String),
    /// The user cancelled the request.
    Cancelled,
    /// Permission was denied.
    PermissionDenied,
}

/// Errors of ionChannel operations.
#[derive(Debug)]
pub enum Error {
    /// A session error.
    Session(SessionError),
    /// An input error.
    Input(InputError),
    /// A portal error.
    Portal(PortalError),
    /// An event channel was closed.
    ChannelClosed,
    /// An internal error.
    Internal(String),
}

/// The message of a session error.
pub open spec fn session_error_message(e: SessionError) -> Seq<char> {
    match e {
        SessionError::NotFound(s) => "session not found: "@ + s@,
        SessionError::AlreadyExists(s) => "session already exists: "@ + s@,
        SessionError::Unauthorized => "session not authorized for this operation"@,
        SessionError::Closed => "session has been closed"@,
        SessionError::InvalidState { expected, actual } => "invalid session state: expected "@
            + state_name(expected)@ + ", got "@ + state_name(actual)@,
    }
}

/// The message of an input error; the coordinates of an
/// `InvalidCoordinates` error are rendered by the caller.
pub open spec fn input_error_message(e: InputError) -> Seq<char> {
    match e {
        InputError::DeviceNotAvailable(s) => "device type not available: "@ + s@,
        InputError::DeviceNotAuthorized(s) => "device type not authorized: "@ + s@,
        InputError::InvalidCoordinates { .. } => "invalid coordinates"@,
        InputError::RateLimitExceeded { events_per_sec, max } => "rate limit exceeded: "@ + decimal(
            events_per_sec as nat,
        ) + " events/sec (max: "@ + decimal(max as nat) + ")"@,
        InputError::StreamNotFound(id) => "stream not found: "@ + decimal(id as nat),
    }
}

/// The message of a portal error.
pub open spec fn portal_error_message(e: PortalError) -> Seq<char> {
    match e {
        PortalError::Connection(s) => "D-Bus connection failed: "@ + s@,
        PortalError::MethodCall(s) => "D-Bus method call failed: "@ + s@,
        PortalError::Response(s) => "portal returned error response: "@ + s@,
        PortalError::Cancelled => "user cancelled the request"@,
        PortalError::PermissionDenied => "permission denied"@,
    }
}

/// The message of an error.
pub open spec fn error_message(e: Error) -> Seq<char> {
    match e {
        Error::Session(s) => "session error: "@ + session_error_message(s),
        Error::Input(i) => "input error: "@ + input_error_message(i),
        Error::Portal(p) => "portal error: "@ + portal_error_message(p),
        Error::ChannelClosed => "channel closed unexpectedly"@,
        Error::Internal(s) => "internal error: "@ + s@,
    }
}

impl SessionError {
    /// The human-readable message of this error.
    pub fn message(&self) -> (r: String)
        ensures
            r@ == session_error_message(*self),
    {
        match self {
            SessionError::NotFound(s) => concat2("session not found: ", s.as_str()),
            SessionError::AlreadyExists(s) => concat2("session already exists: ", s.as_str()),
            SessionError::Unauthorized => String::from_str(
                "session not authorized for this operation",
            ),
            SessionError::Closed => String::from_str("session has been closed"),
            SessionError::InvalidState { expected, actual } => {
                let mut m = concat3(
                    "invalid session state: expected ",
                    expected.name(),
                    ", got ",
                );
                m.append(actual.name());
                m
            },
        }
    }
}

impl InputError {
    /// The human-readable message of this error; for `InvalidCoordinates`
    /// only the fixed part, the coordinates being rendered by the caller.
    pub fn message(&self) -> (r: String)
        ensures
            r@ == input_error_message(*self),
    {
        match self {
            InputError::DeviceNotAvailable(s) => concat2("device type not available: ", s.as_str()),
            InputError::DeviceNotAuthorized(s) => concat2(
                "device type not authorized: ",
                s.as_str(),
            ),
            InputError::InvalidCoordinates { .. } => String::from_str("invalid coordinates"),
            InputError::RateLimitExceeded { events_per_sec, max } => {
                let mut m = String::from_str("rate limit exceeded: ");
                let a = decimal_string(*events_per_sec as u64);
                m.append(a.as_str());
                m.append(" events/sec (max: ");
                let b = decimal_string(*max as u64);
                m.append(b.as_str());
                m.append(")");
                m
            },
            InputError::StreamNotFound(id) => {
                let d = decimal_string(*id as u64);
                concat2("stream not found: ", d.as_str())
            },
        }
    }
}

impl PortalError {
    /// The human-readable message of this error.
    pub fn message(&self) -> (r: String)
        ensures
            r@ == portal_error_message(*self),
    {
        match self {
            PortalError::Connection(s) => concat2("D-Bus connection failed: ", s.as_str()),
            PortalError::MethodCall(s) => concat2("D-Bus method call failed: ", s.as_str()),
            PortalError::Response(s) => concat2("portal returned error response: ", s.as_str()),
            PortalError::Cancelled => String::from_str("user cancelled the request"),
            PortalError::PermissionDenied => String::from_str("permission denied"),
        }
    }
}

impl Error {
    /// The human-readable message of this error.
    pub fn message(&self) -> (r: String)
        ensures
            r@ == error_message(*self),
    {
        match self {
            Error::Session(s) => {
                let m = s.message();
                concat2("session error: ", m.as_str())
            },
            Error::Input(i) => {
                let m = i.message();
                concat2("input error: ", m.as_str())
            },
            Error::Portal(p) => {
                let m = p.message();
                concat2("portal error: ", m.as_str())
            },
            Error::ChannelClosed => String::from_str("channel closed unexpectedly"),
            Error::Internal(s) => concat2("internal error: ", s.as_str()),
        }
    }
}

impl From<SessionError> for Error {
    /// Wraps a session error.
    fn from(e: SessionError) -> (r: Error) {
        Error::Session(e)
    }
}

impl vstd::std_specs::convert::FromSpecImpl<SessionError> for Error {
    open spec fn obeys_from_spec() -> bool {
        true
    }

    open spec fn from_spec(v: SessionError) -> Error {
        Error::Session(v)
    }
}

impl From<InputError> for Error {
    /// Wraps an input error.
    fn from(e: InputError) -> (r: Error) {
        Error::Input(e)
    }
}

impl vstd::std_specs::convert::FromSpecImpl<InputError> for Error {
    open spec fn obeys_from_spec() -> bool {
        true
    }

    open spec fn from_spec(v: InputError) -> Error {
        Error::Input(v)
    }
}

impl From<PortalError> for Error {
    /// Wraps a portal error.
    fn from(e: PortalError) -> (r: Error) {
        Error::Portal(e)
    }
}

impl vstd::std_specs::convert::FromSpecImpl<PortalError> for Error {
    open spec fn obeys_from_spec() -> bool {
        true
    }

    open spec fn from_spec(v: PortalError) -> Error {
        Error::Portal(v)
    }
}

} // verus!
