//! Playback-orchestration core for a voice-channel music bot.
//!
//! The library owns the pure logic of the bot: resolving whether a command
//! issuer may act on a voice session, the per-session track queue and its
//! registry, the queue/metadata summary that responses are built from, and
//! the duration/title formatting rules.  Everything that talks to the chat
//! gateway or the audio transport stays outside; those collaborators hand
//! the library plain values (channel ids, track metadata, transport
//! outcomes) and receive plain values back.

pub mod commands;
pub mod duration;
pub mod errors;
pub mod session;
pub mod summary;
pub mod text;
pub mod track;
