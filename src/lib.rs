//! Playback queue and progression engine of a voice-channel media bot.

pub mod queue;
pub mod track;
pub mod session;
pub mod reporter;
pub mod view;
pub mod text;
pub mod link;
pub mod sources;
pub mod controls;
