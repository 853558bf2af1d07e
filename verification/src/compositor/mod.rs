pub mod rate_limiter;
pub mod capture;
pub mod capabilities;
pub mod eis;
pub mod virtual_input;
pub mod service;
