//! Compositor backends and how the best one is chosen.

pub mod compositor;
pub mod registry;
pub mod wayland;
pub mod cosmic;
pub mod select;
