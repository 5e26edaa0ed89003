//! Feed synchronisation engine: parses syndication feeds, decides which items
//! are new for each subscription, and drives one sync cycle over all
//! subscriptions as a state machine whose side effects are carried out by the
//! caller.

pub mod chrono_utils;
pub mod commands;
pub mod config;
pub mod data;
pub mod diff;
pub mod feed;
pub mod listing;
pub mod notify;
pub mod subscription;
pub mod sync;
pub mod text;
pub mod user;
