//! Command-dispatch and authorization core of a small chat bot.
//!
//! The bot offers three commands: `age`, which reports a user's
//! account-creation timestamp, and the protected `mine_restart` and
//! `mine_healthcheck`, which proxy to a remote control API once the
//! invoking user is shown to hold the gating role. This crate holds the
//! decision logic of that flow — guild resolution, role resolution, the
//! authorization check, URL construction and reply selection — as pure
//! functions with contracts. The surrounding gateway connection and the
//! outward HTTP call perform the actions this logic chooses and hand
//! their outcomes back as events.

pub mod model;
pub mod error;
pub mod auth;
pub mod dispatch;
pub mod trace;
