//! ionChannel: verified core of a remote desktop portal for Wayland compositors.

pub mod text;
pub mod time;
pub mod types;
pub mod portal;
pub mod compositor;
pub mod deploy;
pub mod backend;
