//! Pub/Sub: publishing to a topic, pulling from a subscription, and
//! acknowledging what was pulled.

pub mod client;

pub use client::PubSubClient;
