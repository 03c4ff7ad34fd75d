//! The MQTT observer: decides, for each observation, exactly what one
//! publish should be handed to the broker. Opening the connection, sending
//! the packet and waiting out the bounded acknowledgement window are the
//! embedding program's work; everything it needs is in the returned
//! `MqttPublish`.

use vstd::prelude::*;
use crate::builds::{status_label, status_name, Build, Observation};
use crate::observers::{info_from_config, ObserverInfo};

verus! {

/// The publish path must return within this many seconds even when the
/// broker never acknowledges.
pub const MQTT_WAIT_SECONDS: u64 = 30;

/// Delivery guarantee asked of the broker.
#[derive(Clone, Copy, Debug, PartialEq, Eq, Structural)]
pub enum MqttQoS {
    AtMostOnce,
    AtLeastOnce,
    ExactlyOnce,
}

pub struct MqttBrokerSettings {
    pub hostname: String,
    pub port: u16,
}

pub struct MqttCredentials {
    pub username: String,
    pub password: String,
}

pub struct MQTTConfiguration {
    pub id: String,
    pub enabled: Option<bool>,
    pub collectors: Option<Vec<String>>,
    pub broker: MqttBrokerSettings,
    pub credentials: MqttCredentials,
    pub topic: String,
}

/// One publish, fully determined: where to connect, as whom, what to say.
pub struct MqttPublish {
    pub client_id: String,
    pub hostname: String,
    pub port: u16,
    pub username: String,
    pub password: String,
    pub topic: String,
    pub payload: String,
    pub qos: MqttQoS,
    pub wait_seconds: u64,
}

/// The text published when a build changes status.
pub open spec fn mqtt_message(b: &Build) -> Seq<char> {
    "Hi! Build "@ + b.definition_name@ + " has status "@ + status_label(b.status)
}

pub struct MqttObserver {
    pub options: MQTTConfiguration,
    pub info: ObserverInfo,
}

/// The full contract of `MqttObserver::observe`: a build status change
/// yields exactly one publish, at-least-once, to the configured broker and
/// topic, with the bounded wait; every other observation yields none.
pub open spec fn mqtt_observe_post(ob: &MqttObserver, o: &Observation, r: &Option<MqttPublish>) -> bool {
    match o {
        Observation::BuildStatusChanged(b) => match r {
            Some(p) => {
                &&& p.client_id@ == "duck-mqtt-client"@
                &&& p.hostname@ == ob.options.broker.hostname@
                &&& p.port == ob.options.broker.port
                &&& p.username@ == ob.options.credentials.username@
                &&& p.password@ == ob.options.credentials.password@
                &&& p.topic@ == ob.options.topic@
                &&& p.payload@ == mqtt_message(b)
                &&& p.qos == MqttQoS::AtLeastOnce
                &&& p.wait_seconds == MQTT_WAIT_SECONDS
            },
            None => false,
        },
        _ => r is None,
    }
}

impl MqttObserver {
    pub fn new(config: &MQTTConfiguration) -> (s: Self)
        ensures
            s.info.id == config.id,
            s.info.enabled == match config.enabled {
                None => true,
                Some(e) => e,
            },
            match (&s.info.collectors, &config.collectors) {
                (None, None) => true,
                (Some(a), Some(b)) => a@ == b@,
                _ => false,
            },
            s.options.broker.hostname == config.broker.hostname,
            s.options.broker.port == config.broker.port,
            s.options.credentials.username == config.credentials.username,
            s.options.credentials.password == config.credentials.password,
            s.options.topic == config.topic,
    {
        MqttObserver {
            options: MQTTConfiguration {
                id: config.id.clone(),
                enabled: match config.enabled {
                    None => None,
                    Some(e) => Some(e),
                },
                collectors: match &config.collectors {
                    None => None,
                    Some(list) => Some(crate::observers::clone_collectors(list)),
                },
                broker: MqttBrokerSettings {
                    hostname: config.broker.hostname.clone(),
                    port: config.broker.port,
                },
                credentials: MqttCredentials {
                    username: config.credentials.username.clone(),
                    password: config.credentials.password.clone(),
                },
                topic: config.topic.clone(),
            },
            info: info_from_config(&config.id, &config.enabled, &config.collectors),
        }
    }

    pub fn info(&self) -> (r: &ObserverInfo)
        ensures
            r == &self.info,
    {
        &self.info
    }

    /// Decides what to publish for one observation.
    pub fn observe(&self, observation: &Observation) -> (r: Option<MqttPublish>)
        ensures
            mqtt_observe_post(self, observation, &r),
    {
        match observation {
            Observation::BuildStatusChanged(build) => {
                let mut payload = String::new();
                payload.append("Hi! Build ");
                payload.append(build.definition_name.as_str());
                payload.append(" has status ");
                payload.append(status_name(build.status));
                proof {
                    assert(payload@ =~= mqtt_message(build));
                }
                Some(
                    MqttPublish {
                        client_id: String::from_str("duck-mqtt-client"),
                        hostname: self.options.broker.hostname.clone(),
                        port: self.options.broker.port,
                        username: self.options.credentials.username.clone(),
                        password: self.options.credentials.password.clone(),
                        topic: self.options.topic.clone(),
                        payload,
                        qos: MqttQoS::AtLeastOnce,
                        wait_seconds: MQTT_WAIT_SECONDS,
                    },
                )
            },
            _ => None,
        }
    }
}

} // verus!
