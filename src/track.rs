//! What the library knows of a track: its resolved metadata and the status that the
//! audio engine reports for it.

use vstd::prelude::*;

verus! {

/// The metadata that resolving a track yields.
#[derive(Clone, Debug)]
pub struct TrackMetadata {
    pub title: Option<String>,
    pub artist: Option<String>,
    /// Length of the track in milliseconds, when known.
    pub duration_ms: Option<u64>,
    pub thumbnail: Option<String>,
    /// Where the track can be fetched from.
    pub source_url: Option<String>,
}

/// What the audio engine is doing with a track.
#[derive(Clone, Debug)]
pub enum PlayStatus {
    Play,
    Pause,
    Stop,
    End,
    /// Playback failed; the text says why.
    Errored(String),
    /// A state this library does not know of.
    Unknown,
}

impl PlayStatus {
    /// Whether the track is playing now.
    pub fn is_playing(&self) -> (r: bool)
        ensures
            r == (self is Play),
    {
        match self {
            PlayStatus::Play => true,
            _ => false,
        }
    }

    /// Whether no more progress will come without a user's action: stopped, paused
    /// or ended.
    pub fn is_terminal(&self) -> (r: bool)
        ensures
            r == (self is Stop || self is Pause || self is End),
    {
        match self {
            PlayStatus::Stop | PlayStatus::Pause | PlayStatus::End => true,
            _ => false,
        }
    }
}

/// How a track repeats.
#[derive(Clone, Copy, Debug, PartialEq, Eq, Structural)]
pub enum LoopMode {
    /// Repeats without end.
    Infinite,
    /// Repeats this many more times; zero means it does not loop.
    Finite(usize),
}

/// The live status of a playing track.
#[derive(Clone, Debug)]
pub struct TrackStatus {
    pub playing: PlayStatus,
    /// How far playback has come, in milliseconds.
    pub position_ms: u64,
    pub loops: LoopMode,
    /// Volume in percent of the track's own level.
    pub volume_percent: u32,
}

} // verus!
