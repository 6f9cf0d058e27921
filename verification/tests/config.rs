use esp_clock::config::Config;

#[test]
fn config_defaults() {
    let c = Config::default();
    assert_eq!(c.mqtt_user, "");
    assert_eq!(c.broker_url, "");
    assert_eq!(c.wifi_ssid, "");
    assert_eq!(c.wifi_pass, "");
    assert_eq!(c.topic_name, "measurements");
}
