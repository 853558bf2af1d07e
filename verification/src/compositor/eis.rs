//! EIS (emulated input server) integration: what a client may expect once
//! the compositor offers an EIS socket.

use vstd::prelude::*;
use vstd::string::StringExecFns;
use crate::text::{concat2, join, join_path};

verus! {

/// Errors of EIS operations.
#[derive(Debug)]
pub enum EisError {
    /// EIS is not available on this compositor.
    NotAvailable(String),
    /// The EIS socket could not be created.
    SocketError(String),
    /// No EIS server is running.
    ServerNotRunning,
}

impl EisError {
    /// The message that describes the error.
    pub fn message(&self) -> (r: String)
        ensures
            self matches EisError::NotAvailable(d) ==> r@ == "EIS not available: "@ + d@,
            self matches EisError::SocketError(d) ==> r@ == "Failed to create EIS socket: "@ + d@,
            self is ServerNotRunning ==> r@ == "EIS server not running"@,
    {
        match self {
            EisError::NotAvailable(d) => concat2("EIS not available: ", d.as_str()),
            EisError::SocketError(d) => concat2("Failed to create EIS socket: ", d.as_str()),
            EisError::ServerNotRunning => String::from_str("EIS server not running"),
        }
    }
}

/// The sockets where an EIS server may listen, in the order they are
/// tried: `eis-0`, then `cosmic-eis`, in the runtime directory.
pub open spec fn eis_socket_paths(runtime_dir: Seq<char>) -> Seq<Seq<char>> {
    seq![join_path(runtime_dir, "eis-0"@), join_path(runtime_dir, "cosmic-eis"@)]
}

/// The sockets where an EIS server may listen (see [`eis_socket_paths`]).
pub fn eis_socket_candidates(runtime_dir: &str) -> (r: Vec<String>)
    ensures
        r@.map_values(|p: String| p@) == eis_socket_paths(runtime_dir@),
{
    let mut v: Vec<String> = Vec::new();
    v.push(join(runtime_dir, "eis-0"));
    v.push(join(runtime_dir, "cosmic-eis"));
    assert(v@.map_values(|p: String| p@) =~= eis_socket_paths(runtime_dir@));
    v
}

/// The EIS socket to use, given which candidates exist: the first that
/// does, if any.
pub fn find_eis_socket(candidates: &Vec<String>, exists: &Vec<bool>) -> (r: Option<usize>)
    requires
        exists@.len() == candidates@.len(),
    ensures
        match r {
            Some(i) => i < exists@.len() && exists@[i as int] && forall|j: int| 0 <= j < i ==> !exists@[j],
            None => forall|j: int| 0 <= j < exists@.len() ==> !exists@[j],
        },
{
    let mut i: usize = 0;
    while i < exists.len()
        invariant
            i <= exists@.len(),
            forall|j: int| 0 <= j < i ==> !exists@[j],
        decreases exists@.len() - i,
    {
        if exists[i] {
            return Some(i);
        }
        i = i + 1;
    }
    None
}

/// Whether an EIS socket exists, given which candidates exist.
pub fn is_eis_available(exists: &Vec<bool>) -> (r: bool)
    ensures
        r == exists|j: int| 0 <= j < exists@.len() && exists@[j],
{
    let mut i: usize = 0;
    while i < exists.len()
        invariant
            i <= exists@.len(),
            forall|j: int| 0 <= j < i ==> !exists@[j],
        decreases exists@.len() - i,
    {
        if exists[i] {
            return true;
        }
        i = i + 1;
    }
    false
}

/// What input EIS offers.
#[derive(Clone, Copy, Debug, PartialEq, Eq, Structural)]
pub struct EisCapabilities {
    /// Pointer support.
    pub pointer: bool,
    /// Keyboard support.
    pub keyboard: bool,
    /// Touch support.
    pub touch: bool,
    /// Absolute positioning support.
    pub absolute: bool,
}

impl Default for EisCapabilities {
    /// Pointer, keyboard and absolute positioning; no touch.
    fn default() -> (r: EisCapabilities)
        ensures
            r == (EisCapabilities { pointer: true, keyboard: true, touch: false, absolute: true }),
    {
        EisCapabilities { pointer: true, keyboard: true, touch: false, absolute: true }
    }
}

/// The capabilities planned for EIS input.
pub fn get_eis_capabilities() -> (r: EisCapabilities)
    ensures
        r == (EisCapabilities { pointer: true, keyboard: true, touch: false, absolute: true }),
{
    EisCapabilities::default()
}

/// The answer to a connection request, given whether an EIS socket was
/// found: with a socket, `NotAvailable` (the compositor's EIS server does
/// not accept connections yet); without one, `ServerNotRunning`.
pub fn connect_to_eis(socket_found: bool) -> (r: Result<(), EisError>)
    ensures
        socket_found ==> (r matches Err(EisError::NotAvailable(m)) && m@
            == "COSMIC EIS server not yet implemented - this is what ionChannel will add"@),
        !socket_found ==> (r matches Err(EisError::ServerNotRunning)),
{
    if socket_found {
        Err(
            EisError::NotAvailable(
                String::from_str(
                    "COSMIC EIS server not yet implemented - this is what ionChannel will add",
                ),
            ),
        )
    } else {
        Err(EisError::ServerNotRunning)
    }
}

} // verus!
