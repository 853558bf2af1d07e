pub mod frame;
pub mod tier;
pub mod caps;
pub mod backends;
pub mod patterns;
