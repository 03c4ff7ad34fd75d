//! Notification dispatch for a build monitor.
//!
//! Observation events (a build changed status, the service is shutting down)
//! are forwarded to notification channels through provider adapters: a Hue
//! light bridge, Slack and Mattermost webhooks, and an MQTT broker. The
//! adapters build their requests here, fully specified; sending them over the
//! network is left to the embedding program.

pub mod builds;
pub mod dispatch;
pub mod errors;
pub mod hue;
pub mod mattermost;
pub mod mqtt;
pub mod observers;
pub mod slack;
pub mod text;
pub mod transport;
