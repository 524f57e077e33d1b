//! Verified core of a Discord manga-tracking bot and a chat messages service.
//!
//! `text` holds the string algorithms both services share; `discord` and
//! `messages` hold each service's domain rules, decisions and replies.
pub mod text;
pub mod clock;
pub mod messages;
pub mod discord;
