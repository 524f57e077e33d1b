//! The Discord manga bot: its domain, its use cases, and the decisions behind its
//! commands, its manga intake, its periodic update run and its notifications.
pub mod auto_update;
pub mod commands;
pub mod domain;
pub mod environment;
pub mod services;
pub mod notify;
pub mod scrape;
pub mod use_cases;
