use discord_bot::config::env::{AppConfig, ConfigError, ConfigKey};

fn vars(pairs: &[(&str, &str)]) -> Vec<(String, String)> {
    pairs.iter().map(|(k, v)| (k.to_string(), v.to_string())).collect()
}

const ALL: [(&str, &str); 5] = [
    ("WIFI_SSID", "casa"),
    ("WIFI_PASS", "secreto"),
    ("DISCORD_TOKEN", "tok"),
    ("CHANNEL_ID", "123"),
    ("DISCORD_APP_ID", "456"),
];

#[test]
fn loads_all_variables() {
    let c = AppConfig::load(&vars(&ALL)).unwrap();
    assert_eq!(c.wifi_ssid, "casa");
    assert_eq!(c.wifi_pass, "secreto");
    assert_eq!(c.discord_token, "tok");
    assert_eq!(c.channel_id, "123");
    assert_eq!(c.discord_app_id, "456");
}

#[test]
fn later_definition_overrides() {
    let mut v = vars(&ALL);
    v.push(("WIFI_SSID".to_string(), "oficina".to_string()));
    v.insert(0, ("OTHER".to_string(), "x".to_string()));
    let c = AppConfig::load(&v).unwrap();
    assert_eq!(c.wifi_ssid, "oficina");
}

#[test]
fn missing_variable_is_reported() {
    let v = vars(&ALL[1..]);
    assert_eq!(AppConfig::load(&v).unwrap_err(), ConfigError::Missing(ConfigKey::WifiSsid));
    let v = vars(&[ALL[0], ALL[1], ALL[2], ALL[4]]);
    assert_eq!(AppConfig::load(&v).unwrap_err(), ConfigError::Missing(ConfigKey::ChannelId));
    assert_eq!(AppConfig::load(&vec![]).unwrap_err(), ConfigError::Missing(ConfigKey::WifiSsid));
    let v = vars(&[ALL[0], ALL[1], ALL[2], ALL[3]]);
    assert_eq!(AppConfig::load(&v).unwrap_err(), ConfigError::Missing(ConfigKey::DiscordAppId));
}

#[test]
fn names_are_case_sensitive() {
    let mut v = vars(&ALL[1..]);
    v.push(("wifi_ssid".to_string(), "casa".to_string()));
    assert_eq!(AppConfig::load(&v).unwrap_err(), ConfigError::Missing(ConfigKey::WifiSsid));
}
