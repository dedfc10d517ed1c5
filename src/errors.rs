use vstd::prelude::*;

verus! {

/// There is no track to act on.
#[derive(Clone, Copy, Debug, PartialEq, Eq, Structural)]
pub struct EmptyPlaylistError;

/// `play` was asked while the track is already playing.
#[derive(Clone, Copy, Debug, PartialEq, Eq, Structural)]
pub struct TrackIsPlaying;

/// `pause` was asked while the track is already paused.
#[derive(Clone, Copy, Debug, PartialEq, Eq, Structural)]
pub struct TrackIsPaused;

/// The audio output could not be opened.
#[derive(Clone, Copy, Debug, PartialEq, Eq, Structural)]
pub struct CannotCreateSimpleAudioPlayer;

/// The given path does not name an existing file or directory.
#[derive(Clone, Copy, Debug, PartialEq, Eq, Structural)]
pub struct FileNotFoundError;

/// The ways a playback command can be refused.
#[derive(Clone, Copy, Debug, PartialEq, Eq, Structural)]
pub enum PlayerError {
    EmptyPlaylist(EmptyPlaylistError),
    TrackIsPlaying(TrackIsPlaying),
    TrackIsPaused(TrackIsPaused),
}

impl EmptyPlaylistError {
    pub fn message(&self) -> (r: &'static str)
        ensures
            r@ == "playlist is empty"@,
    {
        "playlist is empty"
    }
}

impl TrackIsPlaying {
    pub fn message(&self) -> (r: &'static str)
        ensures
            r@ == "track is already playing"@,
    {
        "track is already playing"
    }
}

impl TrackIsPaused {
    pub fn message(&self) -> (r: &'static str)
        ensures
            r@ == "track is already paused"@,
    {
        "track is already paused"
    }
}

impl CannotCreateSimpleAudioPlayer {
    pub fn message(&self) -> (r: &'static str)
        ensures
            r@ == "cannot create simple audio player"@,
    {
        "cannot create simple audio player"
    }
}

impl FileNotFoundError {
    pub fn message(&self) -> (r: &'static str)
        ensures
            r@ == "file not found"@,
    {
        "file not found"
    }
}

impl PlayerError {
    /// The one-line diagnostic for this refusal.
    pub fn message(&self) -> (r: &'static str)
        ensures
            self is EmptyPlaylist ==> r@ == "playlist is empty"@,
            self is TrackIsPlaying ==> r@ == "track is already playing"@,
            self is TrackIsPaused ==> r@ == "track is already paused"@,
    {
        match self {
            PlayerError::EmptyPlaylist(e) => e.message(),
            PlayerError::TrackIsPlaying(e) => e.message(),
            PlayerError::TrackIsPaused(e) => e.message(),
        }
    }
}

} // verus!
