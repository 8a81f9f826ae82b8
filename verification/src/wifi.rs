//! The WiFi side of the bridge as decisions: parsing the stored auth
//! method, building the station configuration out of the stored settings,
//! and the ordered driver operations that a connect or disconnect request
//! resolves to. The driver itself performs the operations outside.

use vstd::prelude::*;
use crate::nvs::WifiConfig;
use crate::strings::{clean_seq, is_blank, is_blank_exec, str_eq, HeaplessString};

verus! {

/// The station authentication methods the driver knows, by their stored
/// lower-case names.
#[derive(Clone, Copy, Debug, PartialEq, Eq, Structural)]
pub enum AuthMethod {
    /// An open network; stored as `none`.
    NoAuth,
    Wep,
    Wpa,
    Wpa2Personal,
    WpaWpa2Personal,
    Wpa2Enterprise,
    Wpa3Personal,
    Wpa2Wpa3Personal,
    WapiPersonal,
}

/// The auth method a stored name denotes, if any.
pub open spec fn auth_from_seq(s: Seq<char>) -> Option<AuthMethod> {
    if s == "none"@ {
        Some(AuthMethod::NoAuth)
    } else if s == "wep"@ {
        Some(AuthMethod::Wep)
    } else if s == "wpa"@ {
        Some(AuthMethod::Wpa)
    } else if s == "wpa2personal"@ {
        Some(AuthMethod::Wpa2Personal)
    } else if s == "wpawpa2personal"@ {
        Some(AuthMethod::WpaWpa2Personal)
    } else if s == "wpa2enterprise"@ {
        Some(AuthMethod::Wpa2Enterprise)
    } else if s == "wpa3personal"@ {
        Some(AuthMethod::Wpa3Personal)
    } else if s == "wpa2wpa3personal"@ {
        Some(AuthMethod::Wpa2Wpa3Personal)
    } else if s == "wapipersonal"@ {
        Some(AuthMethod::WapiPersonal)
    } else {
        None
    }
}

/// Parses a stored auth-method name.
pub fn auth_from_str(s: &str) -> (r: Option<AuthMethod>)
    ensures
        r == auth_from_seq(s@),
{
    if str_eq(s, "none") {
        Some(AuthMethod::NoAuth)
    } else if str_eq(s, "wep") {
        Some(AuthMethod::Wep)
    } else if str_eq(s, "wpa") {
        Some(AuthMethod::Wpa)
    } else if str_eq(s, "wpa2personal") {
        Some(AuthMethod::Wpa2Personal)
    } else if str_eq(s, "wpawpa2personal") {
        Some(AuthMethod::WpaWpa2Personal)
    } else if str_eq(s, "wpa2enterprise") {
        Some(AuthMethod::Wpa2Enterprise)
    } else if str_eq(s, "wpa3personal") {
        Some(AuthMethod::Wpa3Personal)
    } else if str_eq(s, "wpa2wpa3personal") {
        Some(AuthMethod::Wpa2Wpa3Personal)
    } else if str_eq(s, "wapipersonal") {
        Some(AuthMethod::WapiPersonal)
    } else {
        None
    }
}

/// Error of building a station configuration.
#[derive(Clone, Copy, Debug, PartialEq, Eq, Structural)]
pub enum WifiError {
    /// The stored auth-method name denotes no known method.
    BadAuthMethod,
    /// The station is already connected to an access point.
    AlreadyConnected,
}

/// The client configuration handed to the driver: the plain-value part of
/// what the station is set up with.
#[derive(Debug)]
pub struct ClientConfig {
    pub ssid: HeaplessString<32>,
    pub password: HeaplessString<64>,
    pub auth_method: AuthMethod,
}

impl ClientConfig {
    /// Every field within its width.
    pub open spec fn wf(&self) -> bool {
        self.ssid.wf() && self.password.wf()
    }
}

/// Builds the station configuration for the bridge bring-up: every field
/// sanitised, and the auth method parsed from its sanitised stored name.
/// An unknown name is a fatal bring-up error.
pub fn client_config_from(config: &WifiConfig) -> (r: Result<ClientConfig, WifiError>)
    requires
        config.wf(),
    ensures
        match r {
            Ok(c) => {
                &&& auth_from_seq(clean_seq(config.sta_auth@)) == Some(c.auth_method)
                &&& c.ssid@ == clean_seq(config.sta_ssid@)
                &&& c.password@ == clean_seq(config.sta_passwd@)
                &&& c.wf()
            },
            Err(e) => e == WifiError::BadAuthMethod && auth_from_seq(clean_seq(config.sta_auth@))
                is None,
        },
{
    let auth = config.sta_auth.clean_string();
    match auth_from_str(auth.as_str()) {
        Some(auth_method) => Ok(
            ClientConfig {
                ssid: config.sta_ssid.clean_string(),
                password: config.sta_passwd.clean_string(),
                auth_method,
            },
        ),
        None => Err(WifiError::BadAuthMethod),
    }
}

/// Builds the station configuration for a user connect request: a blank
/// password gives an open-network configuration with no password and no
/// parsed auth method, as the request handler does.
pub fn client_config_for_connect(config: &WifiConfig) -> (r: Result<ClientConfig, WifiError>)
    requires
        config.wf(),
    ensures
        match r {
            Ok(c) => {
                &&& c.ssid@ == clean_seq(config.sta_ssid@)
                &&& is_blank(clean_seq(config.sta_passwd@)) ==> c.password@ == Seq::<
                    char,
                >::empty() && c.auth_method == AuthMethod::NoAuth
                &&& !is_blank(clean_seq(config.sta_passwd@)) ==> c.password@ == clean_seq(
                    config.sta_passwd@,
                ) && auth_from_seq(clean_seq(config.sta_auth@)) == Some(c.auth_method)
                &&& c.wf()
            },
            Err(e) => e == WifiError::BadAuthMethod && !is_blank(clean_seq(config.sta_passwd@))
                && auth_from_seq(clean_seq(config.sta_auth@)) is None,
        },
{
    let ssid = config.sta_ssid.clean_string();
    let password = config.sta_passwd.clean_string();
    if is_blank_exec(password.as_str()) {
        Ok(
            ClientConfig {
                ssid,
                password: HeaplessString::<64>::new(),
                auth_method: AuthMethod::NoAuth,
            },
        )
    } else {
        let auth = config.sta_auth.clean_string();
        match auth_from_str(auth.as_str()) {
            Some(auth_method) => Ok(ClientConfig { ssid, password, auth_method }),
            None => Err(WifiError::BadAuthMethod),
        }
    }
}

/// One driver operation of a connect or disconnect plan, in the order the
/// runner must perform them.
#[derive(Clone, Copy, Debug, PartialEq, Eq, Structural)]
pub enum WifiOp {
    Disconnect,
    SetConfiguration,
    Start,
    Connect,
}

/// The driver operations a user connect request resolves to: drop a live
/// connection first, then configure, start and connect.
pub fn connect_wifi_plan(is_connected: bool) -> (r: Vec<WifiOp>)
    ensures
        is_connected ==> r@ == seq![
            WifiOp::Disconnect,
            WifiOp::SetConfiguration,
            WifiOp::Start,
            WifiOp::Connect,
        ],
        !is_connected ==> r@ == seq![WifiOp::SetConfiguration, WifiOp::Start, WifiOp::Connect],
{
    let mut ops: Vec<WifiOp> = Vec::new();
    if is_connected {
        ops.push(WifiOp::Disconnect);
    }
    ops.push(WifiOp::SetConfiguration);
    ops.push(WifiOp::Start);
    ops.push(WifiOp::Connect);
    proof {
        if is_connected {
            assert(ops@ =~= seq![
                WifiOp::Disconnect,
                WifiOp::SetConfiguration,
                WifiOp::Start,
                WifiOp::Connect,
            ]);
        } else {
            assert(ops@ =~= seq![WifiOp::SetConfiguration, WifiOp::Start, WifiOp::Connect]);
        }
    }
    ops
}

/// The driver operations a user disconnect request resolves to: nothing
/// unless the station is started and connected.
pub fn disconnect_wifi_plan(is_started: bool, is_connected: bool) -> (r: Vec<WifiOp>)
    ensures
        is_started && is_connected ==> r@ == seq![WifiOp::Disconnect],
        !(is_started && is_connected) ==> r@ == Seq::<WifiOp>::empty(),
{
    let mut ops: Vec<WifiOp> = Vec::new();
    if is_started && is_connected {
        ops.push(WifiOp::Disconnect);
    }
    proof {
        if is_started && is_connected {
            assert(ops@ =~= seq![WifiOp::Disconnect]);
        } else {
            assert(ops@ =~= Seq::<WifiOp>::empty());
        }
    }
    ops
}

/// The driver operations bringing the configured station up: start it if it
/// is not yet, and refuse to connect over a live connection.
pub fn sta_connect_plan(is_started: bool, is_connected: bool) -> (r: Result<Vec<WifiOp>, WifiError>)
    ensures
        match r {
            Ok(ops) => {
                &&& !is_connected
                &&& !is_started ==> ops@ == seq![WifiOp::Start, WifiOp::Connect]
                &&& is_started ==> ops@ == seq![WifiOp::Connect]
            },
            Err(e) => e == WifiError::AlreadyConnected && is_connected,
        },
{
    if is_connected {
        return Err(WifiError::AlreadyConnected);
    }
    let mut ops: Vec<WifiOp> = Vec::new();
    if !is_started {
        ops.push(WifiOp::Start);
    }
    ops.push(WifiOp::Connect);
    proof {
        if !is_started {
            assert(ops@ =~= seq![WifiOp::Start, WifiOp::Connect]);
        } else {
            assert(ops@ =~= seq![WifiOp::Connect]);
        }
    }
    Ok(ops)
}

/// The driver operations taking the station off its access point: a stopped
/// station is started instead and nothing more, an unconnected one is left
/// alone.
pub fn sta_disconnect_plan(is_started: bool, is_connected: bool) -> (r: Vec<WifiOp>)
    ensures
        !is_started ==> r@ == seq![WifiOp::Start],
        is_started && !is_connected ==> r@ == Seq::<WifiOp>::empty(),
        is_started && is_connected ==> r@ == seq![WifiOp::Disconnect],
{
    let mut ops: Vec<WifiOp> = Vec::new();
    if !is_started {
        ops.push(WifiOp::Start);
    } else if is_connected {
        ops.push(WifiOp::Disconnect);
    }
    proof {
        if !is_started {
            assert(ops@ =~= seq![WifiOp::Start]);
        } else if is_connected {
            assert(ops@ =~= seq![WifiOp::Disconnect]);
        } else {
            assert(ops@ =~= Seq::<WifiOp>::empty());
        }
    }
    ops
}

} // verus!
