//! The client settings with which a node joins its network.

use vstd::prelude::*;

verus! {

/// The most bytes a network name may hold.
pub const SSID_CAPACITY: usize = 32;

/// The most bytes a passphrase may hold.
pub const PASSWORD_CAPACITY: usize = 64;

/// How a station authenticates to its access point.
#[derive(Clone, Copy, Debug, PartialEq, Eq, Structural)]
pub enum AuthMethod {
    Open,
    WEP,
    WPA,
    WPA2Personal,
    WPAWPA2Personal,
    WPA2Enterprise,
    WPA3Personal,
    WPA2WPA3Personal,
    WAPIPersonal,
}

/// Settings of a station.
#[derive(Debug, PartialEq, Eq)]
pub struct ClientConfiguration {
    pub ssid: String,
    pub bssid: Option<[u8; 6]>,
    pub auth_method: AuthMethod,
    pub password: String,
    pub channel: Option<u8>,
}

/// A text as it is stored in a field of `capacity` bytes: itself where its
/// UTF-8 form fits, and the empty text where it does not.
pub open spec fn fitted(text: Seq<char>, capacity: usize) -> Seq<char> {
    if vstd::utf8::encode_utf8(text).len() <= capacity {
        text
    } else {
        Seq::empty()
    }
}

/// Stores a text in a field of `capacity` bytes.
fn fit(text: &str, capacity: usize) -> (stored: String)
    ensures
        stored@ == fitted(text@, capacity),
{
    if text.as_bytes().len() <= capacity {
        text.to_owned()
    } else {
        String::new()
    }
}

/// The settings of a station that joins the network `ssid` with a WPA2
/// passphrase, on any channel and any access point.
///
/// A name of more than 32 bytes, or a passphrase of more than 64, does not
/// fit its field and is replaced by the empty text.
pub fn configure_wifi(ssid: &str, password: &str) -> (configuration: ClientConfiguration)
    ensures
        configuration.ssid@ == fitted(ssid@, SSID_CAPACITY),
        configuration.password@ == fitted(password@, PASSWORD_CAPACITY),
        configuration.auth_method == AuthMethod::WPA2Personal,
        configuration.bssid is None,
        configuration.channel is None,
{
    ClientConfiguration {
        ssid: fit(ssid, SSID_CAPACITY),
        bssid: None,
        auth_method: AuthMethod::WPA2Personal,
        password: fit(password, PASSWORD_CAPACITY),
        channel: None,
    }
}

} // verus!
