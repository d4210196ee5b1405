use vstd::prelude::*;

verus! {

/// The selection cursor of a list shown on screen.
#[derive(Copy, Clone, Debug, PartialEq, Eq, Structural)]
pub struct ListState {
    /// Index of the selected item, if one is selected.
    pub selected: Option<usize>,
}

impl ListState {
    /// A cursor with nothing selected.
    pub fn new() -> (s: ListState)
        ensures
            s.selected is None,
    {
        ListState { selected: None }
    }

    /// Moves the cursor to the given item.
    pub fn select(&mut self, id: usize)
        ensures
            final(self).selected == Some(id),
    {
        self.selected = Some(id);
    }
}

/// Identifies a collection of tracks that is not an album, an artist or a
/// playlist of the service.
#[derive(Clone, Debug, PartialEq, Eq)]
pub struct TracksId {
    pub uri: String,
    pub kind: String,
}

impl TracksId {
    pub fn new(uri: String, kind: &str) -> (id: TracksId)
        ensures
            id.uri == uri,
            id.kind@ == kind@,
    {
        TracksId { uri, kind: kind.to_owned() }
    }
}

/// Identifies what a context page shows.
#[derive(Clone, Debug, PartialEq, Eq)]
pub enum ContextId {
    Playlist(String),
    Album(String),
    Artist(String),
    Tracks(TracksId),
}

/// How a context page came to be opened.
#[derive(Clone, Debug, PartialEq, Eq)]
pub enum ContextPageType {
    /// The page follows whatever is currently playing.
    CurrentPlaying,
    /// The page was opened to browse the given context.
    Browsing(ContextId),
}

/// One page of the navigation history.
#[allow(inconsistent_fields)]
#[derive(Clone, Debug, PartialEq, Eq)]
pub enum PageState {
    Library { state: ListState },
    Context { id: Option<ContextId>, context_page_type: ContextPageType, state: Option<ListState> },
}

impl PageState {
    /// The page with its cursor, where it has one, moved to the given item.
    pub open spec fn with_selection(self, id: usize) -> PageState {
        match self {
            PageState::Library { state } => PageState::Library {
                state: ListState { selected: Some(id) },
            },
            PageState::Context { id: context, context_page_type, state: Some(_) } => {
                PageState::Context {
                    id: context,
                    context_page_type,
                    state: Some(ListState { selected: Some(id) }),
                }
            },
            PageState::Context { id: context, context_page_type, state: None } => self,
        }
    }

    /// The item under the page's cursor, if the page has a cursor and an item
    /// is selected.
    pub open spec fn selection(self) -> Option<usize> {
        match self {
            PageState::Library { state } => state.selected,
            PageState::Context { state: Some(state), .. } => state.selected,
            PageState::Context { state: None, .. } => None,
        }
    }

    /// Returns the item under the page's cursor.
    pub fn selected(&self) -> (r: Option<usize>)
        ensures
            r == self.selection(),
    {
        match self {
            PageState::Library { state } => state.selected,
            PageState::Context { state: Some(state), .. } => state.selected,
            PageState::Context { state: None, .. } => None,
        }
    }

    /// Moves the page's cursor to the given item. A context page whose
    /// content has not arrived yet has no cursor and stays as it is.
    pub fn select(&mut self, id: usize)
        ensures
            *final(self) == old(self).with_selection(id),
    {
        match self {
            PageState::Library { state } => {
                state.select(id);
            },
            PageState::Context { state: Some(state), .. } => {
                state.select(id);
            },
            PageState::Context { state: None, .. } => {},
        }
    }
}

} // verus!
