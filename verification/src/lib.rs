//! Songleader for hosting a singalong "sitz" on IRC and/or Discord.
//!
//! This crate holds the verified core of the bot: the audio sample buffers,
//! the music queue with its voting rules, the songleader state machine, the
//! text command parser and the message formatting. Everything that talks to
//! the network, the disk, the audio devices or the clock lives in the
//! application crate next to it, which feeds events in and carries out the
//! effects that the core hands back.

pub mod buffer;
pub mod config;
pub mod discord;
pub mod sources;
pub mod text;
pub mod songbook;
pub mod message;
pub mod mixer;
pub mod playback;
pub mod playback_model;
pub mod playback_laws;
pub mod votes;
pub mod event;
pub mod irc;
pub mod songleader;
pub mod songleader_model;
pub mod songleader_laws;
pub mod youtube;
