pub mod config;
pub mod matcher;
pub mod state;
pub mod system;
pub mod wifi;
