use vstd::prelude::*;
use crate::event::Event;
use crate::model::Page;
use crate::model::PlaybackContext;
use crate::model::Playlist;
use crate::model::RepeatState;
use crate::model::Token;
use crate::model::Track;
use crate::state::State;

verus! {

/// Seconds taken off a reported expiry, so that a session counts as expired
/// slightly before the service would refuse its token.
pub const EXPIRY_MARGIN_SECS: i64 = 10;

/// Message of the error raised when the credential exchange yields no token.
pub const AUTH_FAILED: &'static str = "auth failed";

/// Message of the error raised when an event needs a playback context and
/// the state holds none.
pub const NO_PLAYBACK_CONTEXT: &'static str = "no active playback context";

/// Message of the error raised when a page of tracks arrives while no
/// listing is being drained.
pub const NO_LISTING_IN_PROGRESS: &'static str = "no track listing in progress";

/// Why an event could not be carried out.
#[derive(Clone, Debug, PartialEq, Eq)]
pub enum ClientError {
    /// The credential exchange returned no token.
    AuthFailure,
    /// The remote service or the transport reported a failure.
    Remote { message: String },
    /// Local state that the event depends on is absent.
    Precondition { message: String },
}

impl ClientError {
    /// The text of the error.
    pub open spec fn text(self) -> Seq<char> {
        match self {
            ClientError::AuthFailure => AUTH_FAILED@,
            ClientError::Remote { message } => message@,
            ClientError::Precondition { message } => message@,
        }
    }

    /// Whether this is the error for a missing playback context.
    pub open spec fn is_missing_context(self) -> bool {
        self matches ClientError::Precondition { message } && message@ == NO_PLAYBACK_CONTEXT@
    }

    /// Whether this is the error for a page that belongs to no listing.
    pub open spec fn is_stray_page(self) -> bool {
        self matches ClientError::Precondition { message } && message@ == NO_LISTING_IN_PROGRESS@
    }

    /// Returns the text of the error.
    pub fn message(&self) -> (s: String)
        ensures
            s@ == self.text(),
    {
        match self {
            ClientError::AuthFailure => AUTH_FAILED.to_owned(),
            ClientError::Remote { message } => message.clone(),
            ClientError::Precondition { message } => message.clone(),
        }
    }
}

/// One call to the remote service.
#[derive(Clone, Debug, PartialEq, Eq)]
pub enum Call {
    /// Exchange the stored credentials for a fresh token.
    RefreshToken,
    /// Fetch the current playback context.
    CurrentPlayback,
    NextTrack,
    PreviousTrack,
    Resume,
    Pause,
    /// Set shuffling to the given state.
    Shuffle(bool),
    /// Set the repeat mode to the given state.
    Repeat(RepeatState),
    /// Fetch the playlist with the given identifier.
    Playlist(String),
    /// Fetch the page of tracks at the given absolute URL.
    Page(String),
}

/// What the caller of the dispatcher does next.
#[derive(Clone, Debug, PartialEq, Eq)]
pub enum Step {
    /// The event is fully handled.
    Done,
    /// Make this call and hand its outcome to `Client::handle_reply`.
    Call(Call),
}

/// The outcome of a call to the remote service.
#[derive(Clone, Debug, PartialEq, Eq)]
pub enum Reply {
    /// Answer to `Call::RefreshToken`: the token, if the exchange gave one.
    Token(Option<Token>),
    /// Answer to `Call::CurrentPlayback`.
    Playback(Option<PlaybackContext>),
    /// Answer to a playback command: the service accepted it.
    Accepted,
    /// Answer to `Call::Playlist`.
    Playlist(Playlist),
    /// Answer to `Call::Page`.
    Page(Page),
}

/// An authenticated session with the remote service.
#[derive(Clone, Debug, PartialEq, Eq)]
pub struct Session {
    pub access_token: String,
    /// Seconds since the Unix epoch from which on the session counts as
    /// expired.
    pub expires_at: i64,
}

impl Session {
    /// Whether the session counts as expired at the given time, in seconds
    /// since the Unix epoch.
    pub fn is_expired(&self, now: i64) -> (expired: bool)
        ensures
            expired == (now >= self.expires_at),
    {
        now >= self.expires_at
    }
}

/// The client's side of the conversation with the remote service.
#[derive(Clone, Debug, PartialEq, Eq)]
pub struct Client {
    /// The current session, absent until the first successful refresh.
    pub session: Option<Session>,
    /// The tracks gathered so far by a listing that still has pages to
    /// fetch.
    pub pending_tracks: Option<Vec<Track>>,
}

/// The tracks of a listing after one more page has been taken in.
pub open spec fn with_page(tracks: Seq<Track>, page: Page) -> Seq<Track> {
    tracks + page.items@
}

/// What follows a page of a listing: the call for the page after it, or
/// nothing more after the last.
pub open spec fn step_after(page: Page) -> Step {
    match page.next {
        Some(url) => Step::Call(Call::Page(url)),
        None => Step::Done,
    }
}

/// The tracks of a listing after the given pages have been taken in, in the
/// order in which they arrived.
pub open spec fn with_pages(tracks: Seq<Track>, pages: Seq<Page>) -> Seq<Track>
    decreases pages.len(),
{
    if pages.len() == 0 {
        tracks
    } else {
        with_page(with_pages(tracks, pages.drop_last()), pages.last())
    }
}

/// The items of each page, page by page.
pub open spec fn page_items(pages: Seq<Page>) -> Seq<Seq<Track>> {
    pages.map_values(|page: Page| page.items@)
}

/// The number of items that the pages hold together.
pub open spec fn item_count(pages: Seq<Page>) -> nat
    decreases pages.len(),
{
    if pages.len() == 0 {
        0
    } else {
        item_count(pages.drop_last()) + pages.last().items@.len()
    }
}

/// A listing that took in a sequence of pages holds the tracks it started
/// from, followed by the items of every page in the order of arrival; nothing
/// is dropped, repeated or reordered, so its length is the sum of the parts.
pub proof fn lemma_listing_is_concatenation(seed: Seq<Track>, pages: Seq<Page>)
    ensures
        with_pages(seed, pages) == seed + page_items(pages).flatten(),
        with_pages(seed, pages).len() == seed.len() + item_count(pages),
    decreases pages.len(),
{
    if pages.len() == 0 {
        assert(page_items(pages).flatten() =~= Seq::<Track>::empty());
        assert(seed + Seq::<Track>::empty() =~= seed);
    } else {
        let front = pages.drop_last();
        lemma_listing_is_concatenation(seed, front);
        assert(page_items(pages) =~= page_items(front).push(pages.last().items@));
        page_items(front).lemma_flatten_push(pages.last().items@);
        assert(with_pages(seed, pages) =~= seed + page_items(pages).flatten());
    }
}

/// Whether the application still runs once an event has been handled.
pub open spec fn running_after(running: bool, event: Event) -> bool {
    running && !(event is Quit)
}

/// Whether the application still runs once a sequence of events has been
/// handled in order.
pub open spec fn running_after_all(running: bool, events: Seq<Event>) -> bool
    decreases events.len(),
{
    if events.len() == 0 {
        running
    } else {
        running_after(running_after_all(running, events.drop_last()), events.last())
    }
}

/// Events never start a stopped application again.
pub proof fn lemma_stopped_stays_stopped(events: Seq<Event>)
    ensures
        !running_after_all(false, events),
    decreases events.len(),
{
    if events.len() > 0 {
        lemma_stopped_stays_stopped(events.drop_last());
    }
}

/// Once `Quit` has been among the events handled, the application has
/// stopped, whatever came before it and whatever follows.
pub proof fn lemma_quit_is_final(running: bool, events: Seq<Event>, at: int)
    requires
        0 <= at < events.len(),
        events[at] is Quit,
    ensures
        !running_after_all(running, events),
    decreases events.len(),
{
    if at < events.len() - 1 {
        lemma_quit_is_final(running, events.drop_last(), at);
    }
}

impl Client {
    /// A client that has no session yet and drains no listing.
    pub fn new() -> (c: Client)
        ensures
            c.session is None,
            c.pending_tracks is None,
    {
        Client { session: None, pending_tracks: None }
    }

    /// The line that reports an error of the client to the log.
    pub fn handle_error(&self, err: &ClientError) -> (line: String)
        ensures
            line@ == "client error: "@ + err.text(),
    {
        let mut line = "client error: ".to_owned();
        let message = err.message();
        line.append(message.as_str());
        line
    }

    /// Turns the outcome of a remote call, whose failure is given by the text
    /// that the remote library reported, into the client's own result type.
    pub fn handle_rspotify_result<T>(result: Result<T, String>) -> (r: Result<T, ClientError>)
        ensures
            match result {
                Ok(data) => r == Ok::<T, ClientError>(data),
                Err(message) => r == Err::<T, ClientError>(ClientError::Remote { message }),
            },
    {
        match result {
            Ok(data) => Ok(data),
            Err(message) => Err(ClientError::Remote { message }),
        }
    }

    /// The playback context held by the state, or the error for its absence.
    pub fn get_current_playback_state(state: &State) -> (r: Result<&PlaybackContext, ClientError>)
        ensures
            match state.current_playback_context {
                Some(context) => r == Ok::<&PlaybackContext, ClientError>(&context),
                None => r is Err && r->Err_0.is_missing_context(),
            },
    {
        match state.current_playback_context.as_ref() {
            Some(context) => Ok(context),
            None => Err(ClientError::Precondition { message: NO_PLAYBACK_CONTEXT.to_owned() }),
        }
    }

    /// The call that moves the repeat mode of the current playback one step
    /// along its cycle.
    pub fn cycle_repeat(state: &State) -> (r: Result<Call, ClientError>)
        ensures
            match state.current_playback_context {
                Some(context) => r == Ok::<Call, ClientError>(
                    Call::Repeat(context.repeat_state.successor()),
                ),
                None => r is Err && r->Err_0.is_missing_context(),
            },
    {
        match Self::get_current_playback_state(state) {
            Ok(context) => Ok(Call::Repeat(context.repeat_state.next())),
            Err(e) => Err(e),
        }
    }

    /// The call that sets shuffling to the opposite of its current state.
    pub fn toggle_shuffle(state: &State) -> (r: Result<Call, ClientError>)
        ensures
            match state.current_playback_context {
                Some(context) => r == Ok::<Call, ClientError>(Call::Shuffle(!context.shuffle_state)),
                None => r is Err && r->Err_0.is_missing_context(),
            },
    {
        match Self::get_current_playback_state(state) {
            Ok(context) => Ok(Call::Shuffle(!context.shuffle_state)),
            Err(e) => Err(e),
        }
    }

    /// The call that pauses a playing playback, or resumes a paused one.
    pub fn toggle_playing_state(state: &State) -> (r: Result<Call, ClientError>)
        ensures
            match state.current_playback_context {
                Some(context) => r == Ok::<Call, ClientError>(
                    if context.is_playing {
                        Call::Pause
                    } else {
                        Call::Resume
                    },
                ),
                None => r is Err && r->Err_0.is_missing_context(),
            },
    {
        match Self::get_current_playback_state(state) {
            Ok(context) => if context.is_playing {
                Ok(Call::Pause)
            } else {
                Ok(Call::Resume)
            },
            Err(e) => Err(e),
        }
    }

    /// The value of the authorization header that accompanies a call made
    /// under the current session.
    pub fn get_auth_token(&self) -> (header: String)
        requires
            self.session is Some,
        ensures
            header@ == "Bearer "@ + self.session->0.access_token@,
    {
        let session = self.session.as_ref().unwrap();
        let mut header = "Bearer ".to_owned();
        header.append(session.access_token.as_str());
        header
    }

    /// Takes in the outcome of a credential exchange. A token replaces the
    /// session; its expiry, less the safety margin, becomes the session's and
    /// is returned. Without a token the session stays as it was.
    pub fn refresh_token(&mut self, token: Option<Token>) -> (r: Result<i64, ClientError>)
        requires
            token is Some ==> token->0.expires_at - EXPIRY_MARGIN_SECS >= i64::MIN,
        ensures
            final(self).pending_tracks == old(self).pending_tracks,
            match token {
                Some(t) => {
                    &&& r == Ok::<i64, ClientError>((t.expires_at - EXPIRY_MARGIN_SECS) as i64)
                    &&& final(self).session == Some(
                        Session {
                            access_token: t.access_token,
                            expires_at: (t.expires_at - EXPIRY_MARGIN_SECS) as i64,
                        },
                    )
                },
                None => {
                    &&& r == Err::<i64, ClientError>(ClientError::AuthFailure)
                    &&& final(self).session == old(self).session
                },
            },
    {
        match token {
            Some(t) => {
                let expires_at: i64 = t.expires_at - EXPIRY_MARGIN_SECS;
                self.session = Some(Session { access_token: t.access_token, expires_at });
                Ok(expires_at)
            },
            None => Err(ClientError::AuthFailure),
        }
    }

    /// Starts gathering the tracks of the current playlist from its first
    /// page. With no playlist the listing is empty; with a single page it is
    /// that page. Either is stored at once. Otherwise the first page is set
    /// aside and the page that follows is asked for.
    pub fn get_current_playlist_tracks(&mut self, state: &mut State) -> (step: Step)
        ensures
            final(self).session == old(self).session,
            final(state).is_running == old(state).is_running,
            final(state).current_playback_context == old(state).current_playback_context,
            final(state).current_playlist == old(state).current_playlist,
            match old(state).current_playlist {
                None => {
                    &&& step == Step::Done
                    &&& final(self).pending_tracks is None
                    &&& final(state).current_playlist_tracks is Some
                    &&& final(state).current_playlist_tracks->0@ == Seq::<Track>::empty()
                },
                Some(playlist) => match playlist.tracks.next {
                    None => {
                        &&& step == Step::Done
                        &&& final(self).pending_tracks is None
                        &&& final(state).current_playlist_tracks is Some
                        &&& final(state).current_playlist_tracks->0@ == playlist.tracks.items@
                    },
                    Some(url) => {
                        &&& step == Step::Call(Call::Page(url))
                        &&& final(self).pending_tracks is Some
                        &&& final(self).pending_tracks->0@ == playlist.tracks.items@
                        &&& final(state).current_playlist_tracks == old(
                            state,
                        ).current_playlist_tracks
                    },
                },
            },
    {
        match state.current_playlist.as_ref() {
            None => {
                self.pending_tracks = None;
                state.current_playlist_tracks = Some(Vec::new());
                Step::Done
            },
            Some(playlist) => {
                let tracks = playlist.tracks.items.clone();
                assert(tracks@ =~= playlist.tracks.items@);
                match playlist.tracks.next.as_ref() {
                    None => {
                        self.pending_tracks = None;
                        state.current_playlist_tracks = Some(tracks);
                        Step::Done
                    },
                    Some(url) => {
                        self.pending_tracks = Some(tracks);
                        Step::Call(Call::Page(url.clone()))
                    },
                }
            },
        }
    }

    /// Decides what an event asks for. An event that needs the remote
    /// service yields the call to make; `Quit` and a track listing that needs
    /// no further page are carried out at once. An event that depends on the
    /// playback context fails, and asks for no call, when the state holds
    /// none. Whatever listing was being drained is given up first.
    pub fn handle_event(&mut self, state: &mut State, event: Event) -> (r: Result<
        Step,
        ClientError,
    >)
        ensures
            final(self).session == old(self).session,
            final(state).is_running == running_after(old(state).is_running, event),
            final(state).current_playback_context == old(state).current_playback_context,
            final(state).current_playlist == old(state).current_playlist,
            !(event is GetCurrentPlaylistTracks) ==> {
                &&& final(self).pending_tracks is None
                &&& final(state).current_playlist_tracks == old(state).current_playlist_tracks
            },
            match event {
                Event::RefreshToken => r == Ok::<Step, ClientError>(Step::Call(Call::RefreshToken)),
                Event::GetCurrentPlaybackContext => r == Ok::<Step, ClientError>(
                    Step::Call(Call::CurrentPlayback),
                ),
                Event::NextSong => r == Ok::<Step, ClientError>(Step::Call(Call::NextTrack)),
                Event::PreviousSong => r == Ok::<Step, ClientError>(
                    Step::Call(Call::PreviousTrack),
                ),
                Event::ResumePause => match old(state).current_playback_context {
                    Some(context) => r == Ok::<Step, ClientError>(
                        Step::Call(
                            if context.is_playing {
                                Call::Pause
                            } else {
                                Call::Resume
                            },
                        ),
                    ),
                    None => r is Err && r->Err_0.is_missing_context(),
                },
                Event::Shuffle => match old(state).current_playback_context {
                    Some(context) => r == Ok::<Step, ClientError>(
                        Step::Call(Call::Shuffle(!context.shuffle_state)),
                    ),
                    None => r is Err && r->Err_0.is_missing_context(),
                },
                Event::Repeat => match old(state).current_playback_context {
                    Some(context) => r == Ok::<Step, ClientError>(
                        Step::Call(Call::Repeat(context.repeat_state.successor())),
                    ),
                    None => r is Err && r->Err_0.is_missing_context(),
                },
                Event::Quit => r == Ok::<Step, ClientError>(Step::Done),
                Event::GetPlaylist(playlist_id) => r == Ok::<Step, ClientError>(
                    Step::Call(Call::Playlist(playlist_id)),
                ),
                Event::GetCurrentPlaylistTracks => match old(state).current_playlist {
                    None => {
                        &&& r == Ok::<Step, ClientError>(Step::Done)
                        &&& final(self).pending_tracks is None
                        &&& final(state).current_playlist_tracks is Some
                        &&& final(state).current_playlist_tracks->0@ == Seq::<Track>::empty()
                    },
                    Some(playlist) => match playlist.tracks.next {
                        None => {
                            &&& r == Ok::<Step, ClientError>(Step::Done)
                            &&& final(self).pending_tracks is None
                            &&& final(state).current_playlist_tracks is Some
                            &&& final(state).current_playlist_tracks->0@
                                == playlist.tracks.items@
                        },
                        Some(url) => {
                            &&& r == Ok::<Step, ClientError>(Step::Call(Call::Page(url)))
                            &&& final(self).pending_tracks is Some
                            &&& final(self).pending_tracks->0@ == playlist.tracks.items@
                            &&& final(state).current_playlist_tracks == old(
                                state,
                            ).current_playlist_tracks
                        },
                    },
                },
            },
    {
        self.pending_tracks = None;
        match event {
            Event::RefreshToken => Ok(Step::Call(Call::RefreshToken)),
            Event::GetCurrentPlaybackContext => Ok(Step::Call(Call::CurrentPlayback)),
            Event::NextSong => Ok(Step::Call(Call::NextTrack)),
            Event::PreviousSong => Ok(Step::Call(Call::PreviousTrack)),
            Event::ResumePause => match Self::toggle_playing_state(state) {
                Ok(call) => Ok(Step::Call(call)),
                Err(e) => Err(e),
            },
            Event::Shuffle => match Self::toggle_shuffle(state) {
                Ok(call) => Ok(Step::Call(call)),
                Err(e) => Err(e),
            },
            Event::Repeat => match Self::cycle_repeat(state) {
                Ok(call) => Ok(Step::Call(call)),
                Err(e) => Err(e),
            },
            Event::Quit => {
                state.is_running = false;
                Ok(Step::Done)
            },
            Event::GetPlaylist(playlist_id) => Ok(Step::Call(Call::Playlist(playlist_id))),
            Event::GetCurrentPlaylistTracks => Ok(self.get_current_playlist_tracks(state)),
        }
    }

    /// Takes in the outcome of the call that the dispatcher asked for. A
    /// failure is passed on and leaves the state alone; a listing in progress
    /// is given up over it. A token renews the session. A playback context or
    /// a playlist overwrites the one in the state. A page extends the listing
    /// in progress: while pages follow the next one is asked for, and after
    /// the last the whole listing is stored.
    pub fn handle_reply(&mut self, state: &mut State, reply: Result<Reply, ClientError>) -> (r:
        Result<Step, ClientError>)
        requires
            reply matches Ok(Reply::Token(Some(token))) ==> token.expires_at - EXPIRY_MARGIN_SECS
                >= i64::MIN,
        ensures
            final(state).is_running == old(state).is_running,
            !(reply matches Ok(Reply::Token(_))) ==> final(self).session == old(self).session,
            !(reply matches Ok(Reply::Playback(_))) ==> final(state).current_playback_context
                == old(state).current_playback_context,
            !(reply matches Ok(Reply::Playlist(_))) ==> final(state).current_playlist == old(
                state,
            ).current_playlist,
            !(reply matches Ok(Reply::Page(_))) ==> final(state).current_playlist_tracks == old(
                state,
            ).current_playlist_tracks,
            !(reply is Err || reply matches Ok(Reply::Page(_))) ==> final(self).pending_tracks
                == old(self).pending_tracks,
            match reply {
                Err(error) => {
                    &&& r == Err::<Step, ClientError>(error)
                    &&& final(self).pending_tracks is None
                },
                Ok(Reply::Token(None)) => {
                    &&& r == Err::<Step, ClientError>(ClientError::AuthFailure)
                    &&& final(self).session == old(self).session
                },
                Ok(Reply::Token(Some(token))) => {
                    &&& r == Ok::<Step, ClientError>(Step::Done)
                    &&& final(self).session == Some(
                        Session {
                            access_token: token.access_token,
                            expires_at: (token.expires_at - EXPIRY_MARGIN_SECS) as i64,
                        },
                    )
                },
                Ok(Reply::Playback(context)) => {
                    &&& r == Ok::<Step, ClientError>(Step::Done)
                    &&& final(state).current_playback_context == context
                },
                Ok(Reply::Accepted) => r == Ok::<Step, ClientError>(Step::Done),
                Ok(Reply::Playlist(playlist)) => {
                    &&& r == Ok::<Step, ClientError>(Step::Done)
                    &&& final(state).current_playlist == Some(playlist)
                },
                Ok(Reply::Page(page)) => match old(self).pending_tracks {
                    None => {
                        &&& r is Err
                        &&& r->Err_0.is_stray_page()
                        &&& final(self).pending_tracks is None
                        &&& final(state).current_playlist_tracks == old(
                            state,
                        ).current_playlist_tracks
                    },
                    Some(tracks) => {
                        &&& r == Ok::<Step, ClientError>(step_after(page))
                        &&& match page.next {
                            None => {
                                &&& final(self).pending_tracks is None
                                &&& final(state).current_playlist_tracks is Some
                                &&& final(state).current_playlist_tracks->0@ == with_page(
                                    tracks@,
                                    page,
                                )
                            },
                            Some(_) => {
                                &&& final(self).pending_tracks is Some
                                &&& final(self).pending_tracks->0@ == with_page(tracks@, page)
                                &&& final(state).current_playlist_tracks == old(
                                    state,
                                ).current_playlist_tracks
                            },
                        }
                    },
                },
            },
    {
        match reply {
            Err(error) => {
                self.pending_tracks = None;
                Err(error)
            },
            Ok(Reply::Token(token)) => match self.refresh_token(token) {
                Ok(_) => Ok(Step::Done),
                Err(e) => Err(e),
            },
            Ok(Reply::Playback(context)) => {
                state.current_playback_context = context;
                Ok(Step::Done)
            },
            Ok(Reply::Accepted) => Ok(Step::Done),
            Ok(Reply::Playlist(playlist)) => {
                state.current_playlist = Some(playlist);
                Ok(Step::Done)
            },
            Ok(Reply::Page(page)) => match self.pending_tracks.take() {
                None => Err(
                    ClientError::Precondition { message: NO_LISTING_IN_PROGRESS.to_owned() },
                ),
                Some(tracks) => {
                    let mut tracks = tracks;
                    let mut page = page;
                    tracks.append(&mut page.items);
                    match page.next {
                        None => {
                            state.current_playlist_tracks = Some(tracks);
                            Ok(Step::Done)
                        },
                        Some(url) => {
                            self.pending_tracks = Some(tracks);
                            Ok(Step::Call(Call::Page(url)))
                        },
                    }
                },
            },
        }
    }
}

} // verus!
