//! Core types: devices, input events, modes, sessions and errors.

pub mod device;
pub mod mode;
pub mod event;
pub mod session;
pub mod error;
