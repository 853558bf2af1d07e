pub mod session_manager;
pub mod portal_core;
pub mod consent;
pub mod response;
