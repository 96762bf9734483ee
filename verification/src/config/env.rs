//! The bot's configuration, looked up among environment variables.

use vstd::prelude::*;
use vstd::string::*;

use crate::text::str_eq;

verus! {

/// Credentials and identifiers the bot runs with.
#[derive(Debug)]
pub struct AppConfig {
    pub wifi_ssid: String,
    pub wifi_pass: String,
    pub discord_token: String,
    pub channel_id: String,
    pub discord_app_id: String,
}

/// An `AppConfig` with its strings taken as character sequences.
pub struct ConfigView {
    pub wifi_ssid: Seq<char>,
    pub wifi_pass: Seq<char>,
    pub discord_token: Seq<char>,
    pub channel_id: Seq<char>,
    pub discord_app_id: Seq<char>,
}

impl View for AppConfig {
    type V = ConfigView;

    open spec fn view(&self) -> ConfigView {
        ConfigView {
            wifi_ssid: self.wifi_ssid@,
            wifi_pass: self.wifi_pass@,
            discord_token: self.discord_token@,
            channel_id: self.channel_id@,
            discord_app_id: self.discord_app_id@,
        }
    }
}

/// The variables the configuration is made of.
#[derive(PartialEq, Eq, Structural, Clone, Copy, Debug)]
pub enum ConfigKey {
    WifiSsid,
    WifiPass,
    DiscordToken,
    ChannelId,
    DiscordAppId,
}

/// Why no configuration could be made.
#[derive(PartialEq, Eq, Structural, Clone, Copy, Debug)]
pub enum ConfigError {
    /// The variable is not defined.
    Missing(ConfigKey),
}

/// The name of a configuration variable.
pub open spec fn key_name(k: ConfigKey) -> Seq<char> {
    match k {
        ConfigKey::WifiSsid => "WIFI_SSID"@,
        ConfigKey::WifiPass => "WIFI_PASS"@,
        ConfigKey::DiscordToken => "DISCORD_TOKEN"@,
        ConfigKey::ChannelId => "CHANNEL_ID"@,
        ConfigKey::DiscordAppId => "DISCORD_APP_ID"@,
    }
}

/// The value of `name` among `vars`: that of its last definition, which
/// overrides earlier ones.
pub open spec fn var_value(vars: Seq<(Seq<char>, Seq<char>)>, name: Seq<char>) -> Option<Seq<char>>
    decreases vars.len(),
{
    if vars.len() == 0 {
        None
    } else if vars.last().0 == name {
        Some(vars.last().1)
    } else {
        var_value(vars.drop_last(), name)
    }
}

/// The configuration `vars` define: `Ok` when all five variables are
/// defined; otherwise the first missing one, in the order
/// `WIFI_SSID`, `WIFI_PASS`, `DISCORD_TOKEN`, `CHANNEL_ID`, `DISCORD_APP_ID`.
pub open spec fn config_from(vars: Seq<(Seq<char>, Seq<char>)>) -> Result<ConfigView, ConfigError> {
    let ssid = var_value(vars, key_name(ConfigKey::WifiSsid));
    let pass = var_value(vars, key_name(ConfigKey::WifiPass));
    let token = var_value(vars, key_name(ConfigKey::DiscordToken));
    let channel = var_value(vars, key_name(ConfigKey::ChannelId));
    let app = var_value(vars, key_name(ConfigKey::DiscordAppId));
    if ssid is None {
        Err(ConfigError::Missing(ConfigKey::WifiSsid))
    } else if pass is None {
        Err(ConfigError::Missing(ConfigKey::WifiPass))
    } else if token is None {
        Err(ConfigError::Missing(ConfigKey::DiscordToken))
    } else if channel is None {
        Err(ConfigError::Missing(ConfigKey::ChannelId))
    } else if app is None {
        Err(ConfigError::Missing(ConfigKey::DiscordAppId))
    } else {
        Ok(
            ConfigView {
                wifi_ssid: ssid->0,
                wifi_pass: pass->0,
                discord_token: token->0,
                channel_id: channel->0,
                discord_app_id: app->0,
            },
        )
    }
}

/// A variable has a value exactly when some pair defines it, and its value
/// is that of the last such pair, whatever it is (the empty text included).
pub proof fn var_value_is_last_definition(vars: Seq<(Seq<char>, Seq<char>)>, name: Seq<char>)
    ensures
        (var_value(vars, name) is Some) <==> (exists|i: int| 0 <= i < vars.len() && #[trigger] vars[i].0 == name),
        var_value(vars, name) is Some ==> exists|i: int|
            0 <= i < vars.len() && #[trigger] vars[i].0 == name && var_value(vars, name) == Some(vars[i].1)
                && forall|j: int| i < j < vars.len() ==> vars[j].0 != name,
    decreases vars.len(),
{
    if vars.len() > 0 {
        let p = vars.drop_last();
        var_value_is_last_definition(p, name);
        let n = vars.len() - 1;
        if vars[n].0 == name {
            assert(vars[n].0 == name);
        } else {
            if exists|i: int| 0 <= i < vars.len() && #[trigger] vars[i].0 == name {
                let i = choose|i: int| 0 <= i < vars.len() && #[trigger] vars[i].0 == name;
                assert(p[i].0 == name);
            }
            if var_value(p, name) is Some {
                let i = choose|i: int|
                    0 <= i < p.len() && #[trigger] p[i].0 == name && var_value(p, name) == Some(p[i].1)
                        && forall|j: int| i < j < p.len() ==> p[j].0 != name;
                assert(vars[i] == p[i]);
                assert forall|j: int| i < j < vars.len() implies vars[j].0 != name by {
                    if j < n {
                        assert(vars[j] == p[j]);
                    }
                }
            }
            if exists|i: int| 0 <= i < p.len() && #[trigger] p[i].0 == name {
                let i = choose|i: int| 0 <= i < p.len() && #[trigger] p[i].0 == name;
                assert(vars[i] == p[i]);
            }
        }
    }
}

/// Loading succeeds exactly when all five variables are defined, with each
/// field holding its variable's value, whatever that value is; a variable
/// is reported missing only when it is not defined at all.
pub proof fn load_succeeds_when_defined(vars: Seq<(Seq<char>, Seq<char>)>)
    ensures
        (var_value(vars, "WIFI_SSID"@) is Some && var_value(vars, "WIFI_PASS"@) is Some
            && var_value(vars, "DISCORD_TOKEN"@) is Some && var_value(vars, "CHANNEL_ID"@) is Some
            && var_value(vars, "DISCORD_APP_ID"@) is Some) ==> config_from(vars) == Ok::<
            ConfigView,
            ConfigError,
        >(
            ConfigView {
                wifi_ssid: var_value(vars, "WIFI_SSID"@)->0,
                wifi_pass: var_value(vars, "WIFI_PASS"@)->0,
                discord_token: var_value(vars, "DISCORD_TOKEN"@)->0,
                channel_id: var_value(vars, "CHANNEL_ID"@)->0,
                discord_app_id: var_value(vars, "DISCORD_APP_ID"@)->0,
            },
        ),
        forall|k: ConfigKey|
            config_from(vars) == Err::<ConfigView, ConfigError>(ConfigError::Missing(k))
                ==> #[trigger] var_value(vars, key_name(k)) is None,
{
}

/// A later definition of a variable overrides earlier ones.
pub proof fn later_definition_wins(
    vars: Seq<(Seq<char>, Seq<char>)>,
    name: Seq<char>,
    value: Seq<char>,
)
    ensures
        var_value(vars.push((name, value)), name) == Some(value),
{
}

/// The value of the variable `name`, if `vars` defines it.
pub fn lookup_var(vars: &Vec<(String, String)>, name: &str) -> (r: Option<String>)
    ensures
        r.deep_view() == var_value(vars.deep_view(), name@),
{
    let ghost v = vars.deep_view();
    let mut i: usize = vars.len();
    assert(v.take(i as int) =~= v);
    while i > 0
        invariant
            i <= vars@.len(),
            v == vars.deep_view(),
            v.len() == vars@.len(),
            var_value(v, name@) == var_value(v.take(i as int), name@),
        decreases i,
    {
        let ghost t = v.take(i as int);
        assert(t.last() == vars@[i - 1].deep_view());
        assert(t.drop_last() =~= v.take(i - 1));
        if str_eq(vars[i - 1].0.as_str(), name) {
            return Some(vars[i - 1].1.clone());
        }
        i = i - 1;
    }
    None
}

impl AppConfig {
    /// Makes the configuration out of environment variables given as
    /// name/value pairs (see `config_from`).
    pub fn load(vars: &Vec<(String, String)>) -> (r: Result<AppConfig, ConfigError>)
        ensures
            match r {
                Ok(c) => config_from(vars.deep_view()) == Ok::<ConfigView, ConfigError>(c@),
                Err(e) => config_from(vars.deep_view()) == Err::<ConfigView, ConfigError>(e),
            },
    {
        let wifi_ssid = match lookup_var(vars, "WIFI_SSID") {
            Some(v) => v,
            None => return Err(ConfigError::Missing(ConfigKey::WifiSsid)),
        };
        let wifi_pass = match lookup_var(vars, "WIFI_PASS") {
            Some(v) => v,
            None => return Err(ConfigError::Missing(ConfigKey::WifiPass)),
        };
        let discord_token = match lookup_var(vars, "DISCORD_TOKEN") {
            Some(v) => v,
            None => return Err(ConfigError::Missing(ConfigKey::DiscordToken)),
        };
        let channel_id = match lookup_var(vars, "CHANNEL_ID") {
            Some(v) => v,
            None => return Err(ConfigError::Missing(ConfigKey::ChannelId)),
        };
        let discord_app_id = match lookup_var(vars, "DISCORD_APP_ID") {
            Some(v) => v,
            None => return Err(ConfigError::Missing(ConfigKey::DiscordAppId)),
        };
        Ok(AppConfig { wifi_ssid, wifi_pass, discord_token, channel_id, discord_app_id })
    }
}

} // verus!
