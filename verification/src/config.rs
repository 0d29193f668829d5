//! Settings of a node: network credentials, broker address and topics.

use vstd::prelude::*;

verus! {

/// The settings that a node is built with. Every field is empty unless set.
#[derive(Clone, Copy, Debug, PartialEq, Eq)]
pub struct Config {
    pub wifi_ssid: &'static str,
    pub wifi_pass: &'static str,
    pub mqtt_url: &'static str,
    pub mqtt_user: &'static str,
    pub mqtt_pass: &'static str,
    pub mqtt_topic_sub: &'static str,
    pub mqtt_topic_pub: &'static str,
    pub mqtt_client_id: &'static str,
    /// The broker's trust anchor, as PEM text.
    pub mqtt_ca_cert: &'static str,
}

impl Config {
    /// Whether no field has been set.
    pub open spec fn is_unset(self) -> bool {
        &&& self.wifi_ssid@.len() == 0
        &&& self.wifi_pass@.len() == 0
        &&& self.mqtt_url@.len() == 0
        &&& self.mqtt_user@.len() == 0
        &&& self.mqtt_pass@.len() == 0
        &&& self.mqtt_topic_sub@.len() == 0
        &&& self.mqtt_topic_pub@.len() == 0
        &&& self.mqtt_client_id@.len() == 0
        &&& self.mqtt_ca_cert@.len() == 0
    }
}

impl Default for Config {
    fn default() -> (config: Config)
        ensures
            config.is_unset(),
    {
        proof {
            reveal_strlit("");
        }
        Config {
            wifi_ssid: "",
            wifi_pass: "",
            mqtt_url: "",
            mqtt_user: "",
            mqtt_pass: "",
            mqtt_topic_sub: "",
            mqtt_topic_pub: "",
            mqtt_client_id: "",
            mqtt_ca_cert: "",
        }
    }
}

} // verus!
