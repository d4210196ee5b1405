use vstd::prelude::*;

verus! {

/// A user-facing command, as produced by the key-binding layer.
#[derive(Copy, Clone, Debug, PartialEq, Eq, PartialOrd, Ord)]
pub enum Command {
    NextTrack,
    PreviousTrack,
    ResumePause,
    Repeat,
    Shuffle,
    Quit,
    OpenCommandHelp,
    ClosePopup,
    SelectNext,
    SelectPrevious,
    ChoseSelected,
    SwitchPlaylist,
    SwitchTheme,
    SwitchDevice,
    SearchContextTracks,
    PlaySelectedTrackAlbum,
    SortByTrack,
    SortByArtists,
    SortByAlbum,
    SortByDuration,
    SortByAddedDate,
    ReverseOrder,
}

} // verus!
