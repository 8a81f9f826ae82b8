//! The bridge's view of the persistent configuration store: the tunnel peer
//! settings and the WiFi station settings, with the sanitisation and the
//! defaults applied to every value read back.

use vstd::prelude::*;
use crate::strings::{clean_seq, str_eq, HeaplessString};

verus! {

/// Default peer port.
pub open spec fn default_wg_port() -> Seq<char> {
    "51820"@
}

/// Default station auth method.
pub open spec fn default_sta_auth() -> Seq<char> {
    "wpa2personal"@
}

/// The value a configuration field takes: the stored text where the store
/// had the key, the default where it did not.
pub open spec fn field_seq(given: Option<&str>, default: Seq<char>) -> Seq<char> {
    match given {
        Some(s) => s@,
        None => default,
    }
}

fn field_from<const N: usize>(given: Option<&str>, default: &str) -> (r: HeaplessString<N>)
    requires
        (given matches Some(s) ==> s@.len() <= N),
        default@.len() <= N,
    ensures
        r@ == clean_seq(field_seq(given, default@)),
        r.wf(),
{
    let mut h = HeaplessString::<N>::new();
    let _ = match given {
        Some(s) => h.push_str(s),
        None => h.push_str(default),
    };
    h.clean_string()
}

/// The stored tunnel peer settings: endpoint address, port, and the two key
/// halves, each a fixed-width store field.
pub struct WgConfig {
    pub address: HeaplessString<32>,
    pub port: HeaplessString<16>,
    pub client_private_key: HeaplessString<64>,
    pub server_public_key: HeaplessString<64>,
}

impl WgConfig {
    /// Every field within its width.
    pub open spec fn wf(&self) -> bool {
        self.address.wf() && self.port.wf() && self.client_private_key.wf()
            && self.server_public_key.wf()
    }

    /// Builds the configuration out of the raw store fields, `None` standing
    /// for a key the store could not give. Every value is sanitised; a
    /// missing address or key falls back to empty, a missing port to the
    /// default peer port.
    pub fn from_fields(
        address: Option<&str>,
        port: Option<&str>,
        client_private_key: Option<&str>,
        server_public_key: Option<&str>,
    ) -> (r: WgConfig)
        requires
            (address matches Some(s) ==> s@.len() <= 32),
            (port matches Some(s) ==> s@.len() <= 16),
            (client_private_key matches Some(s) ==> s@.len() <= 64),
            (server_public_key matches Some(s) ==> s@.len() <= 64),
        ensures
            r.address@ == clean_seq(field_seq(address, Seq::<char>::empty())),
            r.port@ == clean_seq(field_seq(port, default_wg_port())),
            r.client_private_key@ == clean_seq(field_seq(client_private_key, Seq::<char>::empty())),
            r.server_public_key@ == clean_seq(field_seq(server_public_key, Seq::<char>::empty())),
            r.wf(),
    {
        proof {
            reveal_strlit("");
            reveal_strlit("51820");
        }
        WgConfig {
            address: field_from::<32>(address, ""),
            port: field_from::<16>(port, "51820"),
            client_private_key: field_from::<64>(client_private_key, ""),
            server_public_key: field_from::<64>(server_public_key, ""),
        }
    }

    /// A copy with every field sanitised, as each is written back to the
    /// store.
    pub fn sanitized(&self) -> (r: WgConfig)
        requires
            self.wf(),
        ensures
            r.address@ == clean_seq(self.address@),
            r.port@ == clean_seq(self.port@),
            r.client_private_key@ == clean_seq(self.client_private_key@),
            r.server_public_key@ == clean_seq(self.server_public_key@),
            r.wf(),
    {
        WgConfig {
            address: self.address.clean_string(),
            port: self.port.clean_string(),
            client_private_key: self.client_private_key.clean_string(),
            server_public_key: self.server_public_key.clean_string(),
        }
    }
}

/// The stored WiFi station settings: SSID, password and auth method, each a
/// fixed-width store field.
pub struct WifiConfig {
    pub sta_ssid: HeaplessString<32>,
    pub sta_passwd: HeaplessString<64>,
    pub sta_auth: HeaplessString<32>,
}

impl WifiConfig {
    /// Every field within its width.
    pub open spec fn wf(&self) -> bool {
        self.sta_ssid.wf() && self.sta_passwd.wf() && self.sta_auth.wf()
    }

    /// Builds the configuration out of the raw store fields, `None` standing
    /// for a key the store could not give. Every value is sanitised; a
    /// missing SSID or password falls back to empty, a missing auth method
    /// to the default.
    pub fn from_fields(sta_ssid: Option<&str>, sta_passwd: Option<&str>, sta_auth: Option<&str>) -> (r:
        WifiConfig)
        requires
            (sta_ssid matches Some(s) ==> s@.len() <= 32),
            (sta_passwd matches Some(s) ==> s@.len() <= 64),
            (sta_auth matches Some(s) ==> s@.len() <= 32),
        ensures
            r.sta_ssid@ == clean_seq(field_seq(sta_ssid, Seq::<char>::empty())),
            r.sta_passwd@ == clean_seq(field_seq(sta_passwd, Seq::<char>::empty())),
            r.sta_auth@ == clean_seq(field_seq(sta_auth, default_sta_auth())),
            r.wf(),
    {
        proof {
            reveal_strlit("");
            reveal_strlit("wpa2personal");
        }
        WifiConfig {
            sta_ssid: field_from::<32>(sta_ssid, ""),
            sta_passwd: field_from::<64>(sta_passwd, ""),
            sta_auth: field_from::<32>(sta_auth, "wpa2personal"),
        }
    }

    /// A copy with every field sanitised, as each is written back to the
    /// store.
    pub fn sanitized(&self) -> (r: WifiConfig)
        requires
            self.wf(),
        ensures
            r.sta_ssid@ == clean_seq(self.sta_ssid@),
            r.sta_passwd@ == clean_seq(self.sta_passwd@),
            r.sta_auth@ == clean_seq(self.sta_auth@),
            r.wf(),
    {
        WifiConfig {
            sta_ssid: self.sta_ssid.clean_string(),
            sta_passwd: self.sta_passwd.clean_string(),
            sta_auth: self.sta_auth.clean_string(),
        }
    }
}

/// The autofill value of a form field: the stored value when the
/// remember-me flag reads `true`, empty otherwise.
pub fn get_value<'a, const N: usize>(remember_me: &'a HeaplessString<8>, value: &'a HeaplessString<
    N>) -> (r: &'a str)
    ensures
        remember_me@ == "true"@ ==> r@ == value@,
        remember_me@ != "true"@ ==> r@ == Seq::<char>::empty(),
{
    if str_eq(remember_me.as_str(), "true") {
        value.as_str()
    } else {
        proof {
            reveal_strlit("");
        }
        ""
    }
}

} // verus!
