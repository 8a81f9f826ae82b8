//! The bridge bring-up lifecycle: a linear typestate over four stages. Each
//! transition consumes the previous stage, so two stages can never be alive
//! at once, and nothing can reconfigure an interface once the relay runs.
//!
//! The hardware work of each transition — driver construction, the blocking
//! wait for the first captured frame, the promiscuous-mode ioctl, worker
//! spawning — happens outside; the stage data and the decisions here are
//! what those steps must establish and preserve.

use vstd::prelude::*;
use crate::mac::{mac_valid, mac_valid_exec, SniffCell};
use crate::nvs::WifiConfig;
use crate::wifi::{client_config_from, ClientConfig};

verus! {

/// Error of a lifecycle transition. Any of these aborts the whole bring-up.
#[derive(Clone, Copy, Debug, PartialEq, Eq, Structural)]
pub enum BridgeError {
    /// No client frame was captured, so there is no client address yet.
    NoClientMac,
    /// The captured source address is no usable client address: a group or
    /// all-zero address cannot be adopted by the station interface.
    InvalidClientMac,
    /// The stored auth-method name denotes no known method.
    BadWifiConfig,
}

/// First stage: the raw hardware resources are taken, nothing runs yet.
pub struct Idle {}

/// Second stage: the wired driver is up, promiscuous, and the client's
/// address has been discovered from live traffic.
pub struct EthReady {
    /// The source MAC of the first captured Ethernet frame: always a
    /// unicast, non-zero address actually observed on the wire.
    pub client_mac: [u8; 6],
}

impl EthReady {
    pub open spec fn wf(&self) -> bool {
        mac_valid(self.client_mac@)
    }
}

/// Third stage: the wireless driver exists and its station MAC has been set
/// — exactly once, before any connection attempt — to the client's address.
pub struct WifiReady {
    pub client_mac: [u8; 6],
    /// The station MAC the wireless driver was configured with.
    pub sta_mac: [u8; 6],
}

impl WifiReady {
    pub open spec fn wf(&self) -> bool {
        mac_valid(self.client_mac@) && self.sta_mac@ == self.client_mac@
    }
}

/// Final stage: both relay workers run. No operation of this stage touches
/// an interface configuration; the absence of any such method is the
/// invariant.
pub struct Running {
    pub client_mac: [u8; 6],
}

/// The bridge in one of its lifecycle stages.
pub struct Bridge<S> {
    pub state: S,
}

impl Bridge<Idle> {
    /// The bridge as it exists right after the hardware resources are
    /// taken.
    pub fn new() -> (r: Bridge<Idle>) {
        Bridge { state: Idle {  } }
    }

    /// `Idle` to `EthReady`: adopts the client address the capture callback
    /// discovered. The cell must have resolved — the caller blocks on it
    /// first — and the observed address must be one a station can take.
    pub fn eth_ready(self, cell: &SniffCell) -> (r: Result<Bridge<EthReady>, BridgeError>)
        ensures
            match r {
                Ok(b) => cell@ == Some(b.state.client_mac@) && b.state.wf(),
                Err(BridgeError::NoClientMac) => cell@ is None,
                Err(BridgeError::InvalidClientMac) => cell@ matches Some(m) && !mac_valid(m),
                Err(_) => false,
            },
    {
        match cell.get() {
            None => Err(BridgeError::NoClientMac),
            Some(mac) => {
                if mac_valid_exec(&mac) {
                    Ok(Bridge { state: EthReady { client_mac: mac } })
                } else {
                    Err(BridgeError::InvalidClientMac)
                }
            },
        }
    }
}

impl Bridge<EthReady> {
    /// `EthReady` to `WifiReady`: the wireless driver is built over the
    /// radio, and its station MAC is set to the discovered client address —
    /// the step that makes the bridge transparent, since return traffic
    /// addressed to the client then reaches the radio.
    pub fn wifi_ready(self) -> (r: Bridge<WifiReady>)
        requires
            self.state.wf(),
        ensures
            r.state.sta_mac@ == self.state.client_mac@,
            r.state.client_mac == self.state.client_mac,
            r.state.wf(),
    {
        let mac = self.state.client_mac;
        Bridge { state: WifiReady { client_mac: mac, sta_mac: mac } }
    }
}

impl Bridge<WifiReady> {
    /// `WifiReady` to `Running`: builds the station configuration out of
    /// the stored settings and hands it out for the driver, then the bridge
    /// stands in its final stage. An unparseable stored auth method aborts
    /// the bring-up.
    pub fn running(self, config: &WifiConfig) -> (r: Result<(Bridge<Running>, ClientConfig),
        BridgeError>)
        requires
            self.state.wf(),
            config.wf(),
        ensures
            match r {
                Ok((b, c)) => {
                    &&& b.state.client_mac == self.state.client_mac
                    &&& c.ssid@ == crate::strings::clean_seq(config.sta_ssid@)
                    &&& c.password@ == crate::strings::clean_seq(config.sta_passwd@)
                    &&& crate::wifi::auth_from_seq(crate::strings::clean_seq(config.sta_auth@))
                        == Some(c.auth_method)
                },
                Err(e) => e == BridgeError::BadWifiConfig && crate::wifi::auth_from_seq(
                    crate::strings::clean_seq(config.sta_auth@),
                ) is None,
            },
    {
        match client_config_from(config) {
            Ok(client_config) => Ok(
                (Bridge { state: Running { client_mac: self.state.client_mac } }, client_config),
            ),
            Err(_) => Err(BridgeError::BadWifiConfig),
        }
    }
}

} // verus!
