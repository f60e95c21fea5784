use vstd::prelude::*;

verus! {

/// What is playing: the title line and the artist / album line of the player.
#[derive(Debug, Clone)]
pub struct AMusicSongInfo {
    pub song: String,
    pub artist: String,
    pub album: String,
}

/// Playback times in whole seconds.
#[derive(Debug, Clone, Copy, PartialEq, Eq)]
pub struct AMusicTimeInfo {
    pub duration: i32,
    pub remaining_duration: i32,
    pub current_time: i32,
    pub total: i32,
}

/// Whether audio is playing and whether the stream is a live broadcast.
#[derive(Debug, Clone, Copy, PartialEq, Eq)]
pub struct AMusicState {
    pub playing: bool,
    pub live: bool,
}

} // verus!
