//! The messages service: message validation, the message service's decisions, its
//! events, its configuration and its Kafka topic handling.
pub mod config;
pub mod consumer;
pub mod error;
pub mod events;
pub mod kafka;
pub mod service;
