//! Decision core of dns-guard, a system-wide encrypted DNS proxy.

pub mod cache;
pub mod calls;
pub mod client;
pub mod clock;
pub mod config;
pub mod control_calls;
pub mod doh;
pub mod dot;
pub mod encoding;
pub mod json;
pub mod logs;
pub mod platform;
pub mod provider;
pub mod quad9;
pub mod relay;
pub mod relay_calls;
pub mod rest;
pub mod restore;
pub mod service;
pub mod standalone;
pub mod state;
pub mod stop;
pub mod system_calls;
pub mod tcp;
pub mod text;
pub mod udp;
pub mod wire;
