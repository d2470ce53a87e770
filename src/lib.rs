//! Mirrors what an mpv player is playing into a Discord rich presence.
//!
//! `anime` and `sources` classify what is played, `presence` turns a player
//! snapshot into the presence payload, `ipc` frames the player's JSON
//! protocol, `poller` decides the polling loop's next step, `config` checks
//! the settings and `anilist` holds the title lookup's records.

pub mod anilist;
pub mod anime;
pub mod config;
pub mod ipc;
pub mod poller;
pub mod presence;
pub mod sources;
pub mod text;
