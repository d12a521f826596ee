//! The core of a chat bot: an ambient transaction context that nested
//! data-access operations share, and an event engine that buffers domain
//! events per task, publishes them to subscribers and runs every handler
//! with retry, exponential backoff and escalation.
//!
//! State that belongs to one logical task (the transaction scopes, the event
//! buffer) is an explicit value that the task owns and hands to the
//! operations; a newly spawned task starts from a fresh value.

pub mod auth;
pub mod auth_proxy;
pub mod bot_commands;
pub mod common;
pub mod db;
pub mod env;
pub mod event_handler;
pub mod logging;
pub mod update;
pub mod utils;
