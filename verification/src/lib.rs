//! Core logic of a transparent Ethernet-to-WiFi link-layer bridge with an
//! optional encrypted tunnel over the wireless uplink.
//!
//! The crate holds the decision and data logic of the firmware: the bridge
//! bring-up lifecycle, client-MAC discovery, the frame relay rules, the
//! tunnel lifecycle state machine, and the sanitisation of configuration
//! values. Hardware drivers, the HTTP configuration layer and the native
//! tunnel library sit outside; they hand plain values in and carry the
//! decided actions out.

pub mod bridge;
pub mod env;
pub mod mac;
pub mod net;
pub mod nvs;
pub mod relay;
pub mod strings;
pub mod wifi;
pub mod wifi_ids;
pub mod wireguard;
