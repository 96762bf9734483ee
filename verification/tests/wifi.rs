use discord_bot::wifi::personal::{personal_auth_method, scan_wifi, timeout_message, CONNECT_TIMEOUT_SECS};
use discord_bot::wifi::wifi_manager::wpa2_settings;
use discord_bot::wifi::{client_settings, AuthMethod, ConnectWatch, WatchDecision, WifiSetupError};

fn strings(v: &[&str]) -> Vec<String> {
    v.iter().map(|s| s.to_string()).collect()
}

#[test]
fn scan_lists_each_network_once() {
    let listed = scan_wifi(Some(strings(&["casa", "", "bar", "casa", "Casa", "", "bar", "x"])));
    assert_eq!(listed, strings(&["casa", "bar", "Casa", "x"]));
    assert_eq!(scan_wifi(Some(vec![])), Vec::<String>::new());
    assert_eq!(scan_wifi(None), Vec::<String>::new());
}

#[test]
fn personal_networks_choose_auth() {
    assert_eq!(personal_auth_method(""), AuthMethod::Open);
    assert_eq!(personal_auth_method("pw"), AuthMethod::WpaWpa2Personal);
}

#[test]
fn settings_respect_field_capacity() {
    let ok = client_settings(&"s".repeat(32), &"p".repeat(64), AuthMethod::Open).unwrap();
    assert_eq!(ok.ssid.len(), 32);
    assert_eq!(ok.auth_method, AuthMethod::Open);
    assert_eq!(
        client_settings(&"s".repeat(33), "", AuthMethod::Open).unwrap_err(),
        WifiSetupError::SsidTooLong
    );
    assert_eq!(
        client_settings(&"ñ".repeat(17), "", AuthMethod::Open).unwrap_err(),
        WifiSetupError::SsidTooLong
    );
    assert_eq!(
        client_settings("red", &"p".repeat(65), AuthMethod::Open).unwrap_err(),
        WifiSetupError::PasswordTooLong
    );
    assert_eq!(
        client_settings(&"s".repeat(40), &"p".repeat(65), AuthMethod::Open).unwrap_err(),
        WifiSetupError::SsidTooLong
    );
    let w = wpa2_settings("red", "clave");
    assert_eq!(w.auth_method, AuthMethod::Wpa2Personal);
    assert_eq!(w.ssid, "red");
    assert_eq!(w.password, "clave");
}

#[test]
fn watch_expires_after_limit() {
    let mut watch = Some(ConnectWatch::new(CONNECT_TIMEOUT_SECS));
    let mut waits = 0;
    loop {
        let (d, next) = watch.take().unwrap().observe(false);
        match d {
            WatchDecision::Wait => waits += 1,
            WatchDecision::Expired => break,
            WatchDecision::Connected(_) => panic!("never connected"),
        }
        watch = next;
    }
    assert_eq!(waits, 19);
}

#[test]
fn watch_reports_connection_time() {
    let w = ConnectWatch::new(10);
    let (d, w) = w.observe(false);
    assert_eq!(d, WatchDecision::Wait);
    let (d, w) = w.unwrap().observe(false);
    assert_eq!(d, WatchDecision::Wait);
    let (d, w) = w.unwrap().observe(true);
    assert_eq!(d, WatchDecision::Connected(3));
    assert!(w.is_none());
    let (d, w) = ConnectWatch::new(1).observe(false);
    assert_eq!(d, WatchDecision::Expired);
    assert!(w.is_none());
}

#[test]
fn timeout_text() {
    assert_eq!(timeout_message("casa"), "❌ No se pudo conectar a casa tras 20 segundos.");
}
