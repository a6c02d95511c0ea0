//! Keeps one network interface administratively down while a designated
//! application is streaming, and releases it as soon as streaming stops.

pub mod cli;
pub mod coordinator;
pub mod interface;
pub mod interface_monitor;
pub mod monitor;
pub mod process_monitor;
pub mod text;
pub mod window_monitor;
