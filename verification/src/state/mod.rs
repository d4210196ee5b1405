pub mod ui;

use vstd::prelude::*;
use crate::model::PlaybackContext;
use crate::model::Playlist;
use crate::model::Track;

verus! {

/// The application state shared by all event handlers.
#[derive(Clone, Debug, PartialEq, Eq)]
pub struct State {
    pub is_running: bool,
    pub current_playback_context: Option<PlaybackContext>,
    pub current_playlist: Option<Playlist>,
    pub current_playlist_tracks: Option<Vec<Track>>,
}

impl Default for State {
    fn default() -> (s: Self)
        ensures
            s.is_running,
            s.current_playback_context is None,
            s.current_playlist is None,
            s.current_playlist_tracks is None,
    {
        State {
            is_running: true,
            current_playback_context: None,
            current_playlist: None,
            current_playlist_tracks: None,
        }
    }
}

} // verus!
