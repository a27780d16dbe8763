//! Playback core of a voice-channel music bot: request resolution, the
//! ordered stream-acquisition fallback, the per-session playback store,
//! idempotent temp-file reaping and the live control panel.

pub mod text;
pub mod metadata;
pub mod source;
pub mod reaper;
pub mod store;
pub mod pipeline;
pub mod panel;
pub mod button;
pub mod spotify;
pub mod command;
pub mod modalert;
pub mod start;
pub mod setup;
