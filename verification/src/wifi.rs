//! Wi-Fi: requests from the bot, station settings, scan results and the
//! wait for a connection.

pub mod personal;
pub mod wifi_manager;

use vstd::prelude::*;
use vstd::utf8::encode_utf8;


verus! {

/// What the bot asks the Wi-Fi side to do.
#[derive(Debug)]
pub enum WifiCommand {
    /// List the networks in range.
    Scan,
    /// Switch to a network: SSID, password.
    Connect(String, String),
}

/// How the station authenticates to the access point.
#[derive(PartialEq, Eq, Structural, Clone, Copy, Debug)]
pub enum AuthMethod {
    /// An open network, without authentication.
    Open,
    /// WPA2 personal.
    Wpa2Personal,
    /// WPA or WPA2 personal.
    WpaWpa2Personal,
}

/// Longest SSID, in bytes, a station configuration holds.
pub const MAX_SSID_BYTES: usize = 32;

/// Longest password, in bytes, a station configuration holds.
pub const MAX_PASSWORD_BYTES: usize = 64;

/// Station settings for joining a network.
#[derive(Debug)]
pub struct ClientSettings {
    pub ssid: String,
    pub password: String,
    pub auth_method: AuthMethod,
}

/// Why station settings could not be made.
#[derive(PartialEq, Eq, Structural, Clone, Copy, Debug)]
pub enum WifiSetupError {
    /// The SSID is longer than `MAX_SSID_BYTES` bytes.
    SsidTooLong,
    /// The password is longer than `MAX_PASSWORD_BYTES` bytes.
    PasswordTooLong,
}

/// The settings for `ssid` and `password`: the SSID is checked first, then
/// the password, each against the capacity of its field in UTF-8 bytes.
pub open spec fn settings_for(ssid: Seq<char>, password: Seq<char>, auth: AuthMethod) -> Result<
    (Seq<char>, Seq<char>, AuthMethod),
    WifiSetupError,
> {
    if encode_utf8(ssid).len() > MAX_SSID_BYTES {
        Err(WifiSetupError::SsidTooLong)
    } else if encode_utf8(password).len() > MAX_PASSWORD_BYTES {
        Err(WifiSetupError::PasswordTooLong)
    } else {
        Ok((ssid, password, auth))
    }
}

/// Settings hold exactly the given SSID, password and authentication when
/// both fit their fields; an SSID over `MAX_SSID_BYTES` bytes is refused as
/// too long, and otherwise a password over `MAX_PASSWORD_BYTES` bytes.
pub proof fn settings_keep_their_inputs(ssid: Seq<char>, password: Seq<char>, auth: AuthMethod)
    ensures
        encode_utf8(ssid).len() <= MAX_SSID_BYTES && encode_utf8(password).len()
            <= MAX_PASSWORD_BYTES ==> settings_for(ssid, password, auth) == Ok::<
            (Seq<char>, Seq<char>, AuthMethod),
            WifiSetupError,
        >((ssid, password, auth)),
        encode_utf8(ssid).len() > MAX_SSID_BYTES ==> settings_for(ssid, password, auth) == Err::<
            (Seq<char>, Seq<char>, AuthMethod),
            WifiSetupError,
        >(WifiSetupError::SsidTooLong),
        encode_utf8(ssid).len() <= MAX_SSID_BYTES && encode_utf8(password).len()
            > MAX_PASSWORD_BYTES ==> settings_for(ssid, password, auth) == Err::<
            (Seq<char>, Seq<char>, AuthMethod),
            WifiSetupError,
        >(WifiSetupError::PasswordTooLong),
{
}

/// Each observation counts one more second; a connected station is reported
/// with the seconds waited; an unconnected one expires exactly when the
/// seconds reach the limit.
pub proof fn watch_counts_seconds(elapsed: u32, limit: u32, connected: bool)
    requires
        elapsed < limit,
    ensures
        watch_step(elapsed, limit, connected).0 == elapsed + 1,
        connected ==> watch_step(elapsed, limit, connected).1 == WatchDecision::Connected(
            (elapsed + 1) as u32,
        ),
        !connected ==> (watch_step(elapsed, limit, connected).1 == WatchDecision::Expired) == (
        elapsed + 1 == limit),
        !connected ==> (watch_step(elapsed, limit, connected).1 == WatchDecision::Wait) == (elapsed
            + 1 < limit),
{
}

/// Makes station settings (see `settings_for`).
pub fn client_settings(ssid: &str, password: &str, auth_method: AuthMethod) -> (r: Result<
    ClientSettings,
    WifiSetupError,
>)
    ensures
        match r {
            Ok(c) => settings_for(ssid@, password@, auth_method) == Ok::<
                (Seq<char>, Seq<char>, AuthMethod),
                WifiSetupError,
            >((c.ssid@, c.password@, c.auth_method)),
            Err(e) => settings_for(ssid@, password@, auth_method) == Err::<
                (Seq<char>, Seq<char>, AuthMethod),
                WifiSetupError,
            >(e),
        },
{
    if ssid.as_bytes().len() > MAX_SSID_BYTES {
        return Err(WifiSetupError::SsidTooLong);
    }
    if password.as_bytes().len() > MAX_PASSWORD_BYTES {
        return Err(WifiSetupError::PasswordTooLong);
    }
    Ok(
        ClientSettings {
            ssid: ssid.to_owned(),
            password: password.to_owned(),
            auth_method,
        },
    )
}

/// What to do after one more second of waiting for the connection.
#[derive(PartialEq, Eq, Structural, Clone, Copy, Debug)]
pub enum WatchDecision {
    /// Connected after this many seconds.
    Connected(u32),
    /// Keep waiting.
    Wait,
    /// The time allowed has run out.
    Expired,
}

/// Counts the seconds spent waiting for a connection.
pub struct ConnectWatch {
    elapsed: u32,
    limit: u32,
}

/// The outcome of one observation after `elapsed` seconds of waiting out of
/// `limit`: the seconds counted afterwards, and the decision.
pub open spec fn watch_step(elapsed: u32, limit: u32, connected: bool) -> (u32, WatchDecision) {
    let now = (elapsed + 1) as u32;
    if connected {
        (now, WatchDecision::Connected(now))
    } else if now >= limit {
        (now, WatchDecision::Expired)
    } else {
        (now, WatchDecision::Wait)
    }
}

impl ConnectWatch {
    #[verifier::type_invariant]
    spec fn inv(self) -> bool {
        self.elapsed < self.limit
    }

    /// Seconds waited so far.
    pub closed spec fn elapsed_spec(self) -> u32 {
        self.elapsed
    }

    /// Seconds allowed.
    pub closed spec fn limit_spec(self) -> u32 {
        self.limit
    }

    /// A watch that allows `limit` seconds, none of them spent.
    pub fn new(limit: u32) -> (r: ConnectWatch)
        requires
            limit > 0,
        ensures
            r.elapsed_spec() == 0,
            r.limit_spec() == limit,
    {
        ConnectWatch { elapsed: 0, limit }
    }

    /// Records one more second; `connected` is whether the station is
    /// connected now. The watch itself is used up once it decides.
    pub fn observe(self, connected: bool) -> (r: (WatchDecision, Option<ConnectWatch>))
        ensures
            r.0 == watch_step(self.elapsed_spec(), self.limit_spec(), connected).1,
            self.elapsed_spec() < self.limit_spec(),
            match r.1 {
                Some(w) => r.0 == WatchDecision::Wait && w.elapsed_spec() == watch_step(
                    self.elapsed_spec(),
                    self.limit_spec(),
                    connected,
                ).0 && w.limit_spec() == self.limit_spec(),
                None => r.0 != WatchDecision::Wait,
            },
    {
        proof {
            use_type_invariant(&self);
        }
        let now = self.elapsed + 1;
        if connected {
            (WatchDecision::Connected(now), None)
        } else if now >= self.limit {
            (WatchDecision::Expired, None)
        } else {
            (WatchDecision::Wait, Some(ConnectWatch { elapsed: now, limit: self.limit }))
        }
    }
}

} // verus!
