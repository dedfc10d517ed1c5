use vstd::prelude::*;

use crate::errors::{EmptyPlaylistError, PlayerError, TrackIsPaused, TrackIsPlaying};
use crate::playback_state::{fresh, step, Event, MusicTimeBarHandler, Phase, PlaybackView, MAX_DURATION};
use crate::track::MusicInfoTemp;

verus! {

/// What `play` does to a session with `n_tracks` tracks whose shared state is `s`.
pub open spec fn play_outcome(n_tracks: nat, s: PlaybackView) -> (
    Result<(), PlayerError>,
    PlaybackView,
) {
    if n_tracks == 0 {
        (Err(PlayerError::EmptyPlaylist(EmptyPlaylistError)), s)
    } else if s.phase == Phase::Playing {
        (Err(PlayerError::TrackIsPlaying(TrackIsPlaying)), s)
    } else {
        (Ok(()), step(s, Event::Play))
    }
}

/// What `pause` does to a session with `n_tracks` tracks whose shared state is `s`.
pub open spec fn pause_outcome(n_tracks: nat, s: PlaybackView) -> (
    Result<(), PlayerError>,
    PlaybackView,
) {
    if n_tracks == 0 {
        (Err(PlayerError::EmptyPlaylist(EmptyPlaylistError)), s)
    } else if s.phase == Phase::Paused {
        (Err(PlayerError::TrackIsPaused(TrackIsPaused)), s)
    } else {
        (Ok(()), step(s, Event::Pause))
    }
}

/// On an empty playlist `play` fails with the empty-playlist error and leaves
/// the phase as it was.
pub proof fn lemma_play_on_empty_playlist(s: PlaybackView)
    ensures
        play_outcome(0, s).0 == Err::<(), PlayerError>(PlayerError::EmptyPlaylist(EmptyPlaylistError)),
        play_outcome(0, s).1 == s,
{
}

/// After a pause that succeeded, `play` succeeds and returns the phase to
/// playing, and a second `play` right after it fails because the track is
/// already playing.
pub proof fn lemma_pause_then_play(n_tracks: nat, s: PlaybackView)
    requires
        pause_outcome(n_tracks, s).0 is Ok,
    ensures
        play_outcome(n_tracks, pause_outcome(n_tracks, s).1).0 is Ok,
        play_outcome(n_tracks, pause_outcome(n_tracks, s).1).1.phase == Phase::Playing,
        play_outcome(n_tracks, pause_outcome(n_tracks, s).1).1.elapsed == s.elapsed,
        play_outcome(n_tracks, play_outcome(n_tracks, pause_outcome(n_tracks, s).1).1).0
            == Err::<(), PlayerError>(PlayerError::TrackIsPlaying(TrackIsPlaying)),
{
}

/// Owns the playlist and decides each playback command against the shared
/// state; the caller drives the audio output to match a command that succeeded.
pub struct SimpleAudioHandler {
    playlist: Vec<MusicInfoTemp>,
}

impl SimpleAudioHandler {
    /// The tracks of the playlist, in order.
    pub closed spec fn tracks(&self) -> Seq<MusicInfoTemp> {
        self.playlist@
    }

    pub fn new(playlist: Vec<MusicInfoTemp>) -> (r: Self)
        ensures
            r.tracks() == playlist@,
    {
        SimpleAudioHandler { playlist }
    }

    /// Starts the session on the first track: binds the shared state to its
    /// duration, playing from zero, and hands the track out for the audio
    /// output and the renderer.
    pub fn start(&self, bar: &mut MusicTimeBarHandler) -> (r: Result<&MusicInfoTemp, EmptyPlaylistError>)
        ensures
            self.tracks().len() == 0 <==> r is Err,
            self.tracks().len() == 0 ==> final(bar)@ == old(bar)@,
            self.tracks().len() > 0 ==> {
                &&& r matches Ok(t) && *t == self.tracks()[0]
                &&& final(bar)@ == fresh(
                    if self.tracks()[0].duration <= MAX_DURATION {
                        self.tracks()[0].duration as nat
                    } else {
                        MAX_DURATION as nat
                    },
                )
                &&& final(bar).well_formed()
            },
    {
        if self.playlist.len() == 0 {
            return Err(EmptyPlaylistError);
        }
        let first = &self.playlist[0];
        bar.start_track(first.duration);
        Ok(first)
    }

    /// Appends a track to the playlist; the track being played, the first,
    /// stays where it is and the new one comes after every queued track.
    pub fn add_track(&mut self, track: MusicInfoTemp)
        ensures
            final(self).tracks() == old(self).tracks().push(track),
    {
        self.playlist.push(track);
    }

    /// Resumes a paused track.
    pub fn play(&self, bar: &mut MusicTimeBarHandler) -> (r: Result<(), PlayerError>)
        ensures
            (r, final(bar)@) == play_outcome(self.tracks().len(), old(bar)@),
            old(bar).well_formed() ==> final(bar).well_formed(),
    {
        if self.playlist.len() == 0 {
            return Err(PlayerError::EmptyPlaylist(EmptyPlaylistError));
        }
        if bar.get_phase() == Phase::Playing {
            return Err(PlayerError::TrackIsPlaying(TrackIsPlaying));
        }
        bar.play();
        Ok(())
    }

    /// Pauses a playing track.
    pub fn pause(&self, bar: &mut MusicTimeBarHandler) -> (r: Result<(), PlayerError>)
        ensures
            (r, final(bar)@) == pause_outcome(self.tracks().len(), old(bar)@),
            old(bar).well_formed() ==> final(bar).well_formed(),
    {
        if self.playlist.len() == 0 {
            return Err(PlayerError::EmptyPlaylist(EmptyPlaylistError));
        }
        if bar.get_phase() == Phase::Paused {
            return Err(PlayerError::TrackIsPaused(TrackIsPaused));
        }
        bar.pause();
        Ok(())
    }

    pub fn len(&self) -> (r: usize)
        ensures
            r == self.tracks().len(),
    {
        self.playlist.len()
    }

    pub fn get_track(&self, i: usize) -> (r: Option<&MusicInfoTemp>)
        ensures
            i < self.tracks().len() ==> (r matches Some(t) && *t == self.tracks()[i as int]),
            i >= self.tracks().len() ==> r is None,
    {
        if i < self.playlist.len() {
            Some(&self.playlist[i])
        } else {
            None
        }
    }
}

} // verus!
