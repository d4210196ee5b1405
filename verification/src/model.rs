use vstd::prelude::*;

verus! {

/// The repeat mode of a playback.
#[derive(Copy, Clone, Debug, PartialEq, Eq, Structural)]
pub enum RepeatState {
    Off,
    Track,
    Context,
}

impl RepeatState {
    /// The mode that follows `self` in the cycle Off, Track, Context, Off.
    pub open spec fn successor(self) -> RepeatState {
        match self {
            RepeatState::Off => RepeatState::Track,
            RepeatState::Track => RepeatState::Context,
            RepeatState::Context => RepeatState::Off,
        }
    }

    /// Advances the repeat mode by one step of the cycle.
    pub fn next(self) -> (r: RepeatState)
        ensures
            r == self.successor(),
    {
        match self {
            RepeatState::Off => RepeatState::Track,
            RepeatState::Track => RepeatState::Context,
            RepeatState::Context => RepeatState::Off,
        }
    }

    /// Three steps of the repeat cycle lead back to the starting mode, and
    /// fewer than three never do.
    pub proof fn lemma_cycle_of_three(self)
        ensures
            self.successor().successor().successor() == self,
            self.successor() != self,
            self.successor().successor() != self,
    {
    }
}

/// The service's snapshot of what is playing and under what settings.
#[derive(Clone, Debug, PartialEq, Eq)]
pub struct PlaybackContext {
    pub is_playing: bool,
    pub shuffle_state: bool,
    pub repeat_state: RepeatState,
    /// Name of the device the playback runs on.
    pub device: String,
    /// URI of the album, artist or playlist being played, if any.
    pub context_uri: Option<String>,
}

/// One track of a playlist.
#[derive(Debug, PartialEq, Eq)]
pub struct Track {
    pub uri: String,
    pub name: String,
    pub artists: String,
    pub album: String,
    pub duration_ms: u32,
}

impl Clone for Track {
    fn clone(&self) -> (r: Self)
        ensures
            r == *self,
    {
        Track {
            uri: self.uri.clone(),
            name: self.name.clone(),
            artists: self.artists.clone(),
            album: self.album.clone(),
            duration_ms: self.duration_ms,
        }
    }
}

/// One chunk of a paginated track listing.
#[derive(Clone, Debug, PartialEq, Eq)]
pub struct Page {
    pub items: Vec<Track>,
    /// Absolute URL of the chunk that follows, absent on the last one.
    pub next: Option<String>,
}

/// A playlist together with the first page of its tracks.
#[derive(Clone, Debug, PartialEq, Eq)]
pub struct Playlist {
    pub id: String,
    pub name: String,
    pub tracks: Page,
}

/// The outcome of a credential exchange, as the service reports it.
#[derive(Clone, Debug, PartialEq, Eq)]
pub struct Token {
    pub access_token: String,
    /// Expiry in seconds since the Unix epoch.
    pub expires_at: i64,
}

} // verus!
