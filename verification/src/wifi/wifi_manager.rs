//! Joining a WPA2 network, retrying until it works.

use vstd::prelude::*;
use vstd::utf8::encode_utf8;

use crate::wifi::{AuthMethod, ClientSettings, MAX_PASSWORD_BYTES, MAX_SSID_BYTES};

verus! {

/// Seconds to wait for a connection before starting over.
pub const RETRY_WINDOW_SECS: u32 = 10;

/// Seconds to pause, disconnected, before starting over.
pub const RETRY_PAUSE_SECS: u32 = 2;

/// The station settings for a WPA2 personal network. The SSID and the
/// password must fit their fields; the caller checks that first.
pub fn wpa2_settings(ssid: &str, password: &str) -> (r: ClientSettings)
    requires
        encode_utf8(ssid@).len() <= MAX_SSID_BYTES,
        encode_utf8(password@).len() <= MAX_PASSWORD_BYTES,
    ensures
        r.ssid@ == ssid@,
        r.password@ == password@,
        r.auth_method == AuthMethod::Wpa2Personal,
{
    ClientSettings {
        ssid: ssid.to_owned(),
        password: password.to_owned(),
        auth_method: AuthMethod::Wpa2Personal,
    }
}

} // verus!
