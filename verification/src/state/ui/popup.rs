use vstd::prelude::*;
use crate::state::ui::page::ListState;

verus! {

/// The overlay shown on top of the current page.
#[derive(Clone, Debug, PartialEq, Eq)]
pub enum PopupState {
    /// The search overlay. It takes no focus: navigation still reaches the
    /// page beneath it.
    Search { query: String },
    CommandHelp { scroll_offset: usize },
    UserPlaylistList(ListState),
    DeviceList(ListState),
    ThemeList(ListState),
}

} // verus!
