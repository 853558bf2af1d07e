pub mod cloud_init;
pub mod vm;
pub mod commands;
pub mod ssh;
pub mod keys;
pub mod provision;
pub mod settings;
pub mod flow;
