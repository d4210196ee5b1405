use vstd::prelude::*;

verus! {

/// An event delivered to the client, one at a time.
#[derive(Debug, PartialEq, Eq)]
pub enum Event {
    RefreshToken,
    GetCurrentPlaybackContext,
    NextSong,
    PreviousSong,
    ResumePause,
    Shuffle,
    Repeat,
    Quit,
    /// Fetch the playlist with the given identifier.
    GetPlaylist(String),
    GetCurrentPlaylistTracks,
}

impl Clone for Event {
    fn clone(&self) -> (r: Self)
        ensures
            r == *self,
    {
        match self {
            Event::RefreshToken => Event::RefreshToken,
            Event::GetCurrentPlaybackContext => Event::GetCurrentPlaybackContext,
            Event::NextSong => Event::NextSong,
            Event::PreviousSong => Event::PreviousSong,
            Event::ResumePause => Event::ResumePause,
            Event::Shuffle => Event::Shuffle,
            Event::Repeat => Event::Repeat,
            Event::Quit => Event::Quit,
            Event::GetPlaylist(playlist_id) => Event::GetPlaylist(playlist_id.clone()),
            Event::GetCurrentPlaylistTracks => Event::GetCurrentPlaylistTracks,
        }
    }
}

} // verus!
