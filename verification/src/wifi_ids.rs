//! The station credentials kept in the environment file, with hard bounds:
//! unlike the other settings, an over-long SSID or password here is an
//! error, not an empty field.

use vstd::prelude::*;
use crate::env::{env_lookup, env_lookup_str};
use crate::strings::HeaplessString;

verus! {

/// Error of reading the station credentials.
#[derive(Clone, Copy, Debug, PartialEq, Eq, Structural)]
pub enum WifiIdsError {
    /// The stored SSID does not fit 32 characters.
    SsidTooLong,
    /// The stored password does not fit 64 characters.
    PasswordTooLong,
}

/// The station SSID and password read from the environment file.
#[derive(Debug)]
pub struct WifiIds {
    pub ssid: HeaplessString<32>,
    pub password: HeaplessString<64>,
}

impl WifiIds {
    /// Reads the credentials out of the given environment text, refusing a
    /// value that does not fit its field.
    pub fn new(content: &str) -> (r: Result<WifiIds, WifiIdsError>)
        ensures
            ({
                let ssid = env_lookup(content@, "WIFI_SSID="@);
                let password = env_lookup(content@, "WIFI_PASSWORD="@);
                match r {
                    Ok(w) => ssid.len() <= 32 && password.len() <= 64 && w.ssid@ == ssid
                        && w.password@ == password,
                    Err(WifiIdsError::SsidTooLong) => ssid.len() > 32,
                    Err(WifiIdsError::PasswordTooLong) => ssid.len() <= 32 && password.len() > 64,
                }
            }),
    {
        let ssid_env = env_lookup_str(content, "WIFI_SSID=");
        let password_env = env_lookup_str(content, "WIFI_PASSWORD=");

        let mut ssid = HeaplessString::<32>::new();
        let mut password = HeaplessString::<64>::new();

        if ssid.push_str(ssid_env.as_str()).is_err() {
            return Err(WifiIdsError::SsidTooLong);
        }
        if password.push_str(password_env.as_str()).is_err() {
            return Err(WifiIdsError::PasswordTooLong);
        }

        Ok(WifiIds { ssid, password })
    }
}

} // verus!
