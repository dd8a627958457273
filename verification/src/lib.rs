//! Connection logic of a TUN-mode VPN client: the privileged helper's
//! request handling, the client side of its line protocol, the mihomo
//! configuration wrapper and the decisions taken around them.
pub mod text;
pub mod yaml;
pub mod yaml_text;
pub mod platform;
pub mod tun_config;
pub mod json;
pub mod protocol;
pub mod failure;
pub mod daemon;
pub mod mihomo;
pub mod installer;
pub mod commands;
pub mod client;
