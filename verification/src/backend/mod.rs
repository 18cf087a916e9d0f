pub mod session;
pub mod config;
