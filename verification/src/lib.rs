//! Verified models for NetworkManager and ModemManager clients.

pub mod modem;
pub mod text;
pub mod access_point;
pub mod config;
pub mod agent;
pub mod vpn;
pub mod connection_settings;
pub mod state_wait;
pub mod modem_error;
pub mod manager;
pub mod monitor;
pub mod network_info;
pub mod wifi_device;
pub mod bearer;
