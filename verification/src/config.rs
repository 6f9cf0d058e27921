//! The settings the firmware is built with: the Wi-Fi network, the MQTT broker
//! and the topic the remote sensor board publishes its readings on.

use vstd::prelude::*;

verus! {

/// Build-time settings. Each has a default: empty for the credentials and
/// addresses, `measurements` for the topic.
#[derive(Clone, Copy, Debug, PartialEq, Eq)]
pub struct Config {
    pub mqtt_user: &'static str,
    pub broker_url: &'static str,
    pub wifi_ssid: &'static str,
    pub wifi_pass: &'static str,
    pub topic_name: &'static str,
}

impl Default for Config {
    fn default() -> (c: Config)
        ensures
            c.mqtt_user@ == ""@,
            c.broker_url@ == ""@,
            c.wifi_ssid@ == ""@,
            c.wifi_pass@ == ""@,
            c.topic_name@ == "measurements"@,
    {
        Config {
            mqtt_user: "",
            broker_url: "",
            wifi_ssid: "",
            wifi_pass: "",
            topic_name: "measurements",
        }
    }
}

} // verus!
