pub mod page;
pub mod popup;
pub mod search;

use vstd::prelude::*;
use crate::state::ui::page::ContextId;
use crate::state::ui::page::ContextPageType;
use crate::state::ui::page::ListState;
use crate::state::ui::page::PageState;
use crate::state::ui::page::TracksId;
use crate::state::ui::popup::PopupState;
use crate::state::ui::search::ItemText;
use crate::state::ui::search::MatchStrategy;
use crate::state::ui::search::Query;

verus! {

/// A rectangle of terminal cells.
#[derive(Copy, Clone, Debug, PartialEq, Eq, Structural)]
pub struct Rect {
    pub x: u16,
    pub y: u16,
    pub width: u16,
    pub height: u16,
}

impl Default for Rect {
    fn default() -> (r: Self)
        ensures
            r == (Rect { x: 0, y: 0, width: 0, height: 0 }),
    {
        Rect { x: 0, y: 0, width: 0, height: 0 }
    }
}

/// Where and whether the cover image of the playing track was drawn.
#[derive(Clone, Debug, PartialEq, Eq)]
pub struct ImageRenderInfo {
    pub url: String,
    pub render_area: Rect,
    /// Whether the image has been drawn.
    pub rendered: bool,
}

impl Default for ImageRenderInfo {
    fn default() -> (info: Self)
        ensures
            info.url@ == Seq::<char>::empty(),
            info.render_area == (Rect { x: 0, y: 0, width: 0, height: 0 }),
            !info.rendered,
    {
        ImageRenderInfo { url: String::new(), render_area: Rect::default(), rendered: false }
    }
}

/// Whether a page is the page of recommendations that start from `uri`.
pub open spec fn is_radio_page(page: PageState, uri: Seq<char>) -> bool {
    &&& page matches PageState::Context {
        id: None,
        context_page_type: ContextPageType::Browsing(ContextId::Tracks(tracks)),
        state: None,
    }
    &&& tracks.uri@ == "radio:"@ + uri
    &&& tracks.kind@ == "Recommendations"@
}

/// The items that a sequence of references refers to.
pub open spec fn items_of<T>(found: Seq<&T>) -> Seq<T> {
    found.map_values(|item: &T| *item)
}

/// The items that a query keeps, in their order.
pub open spec fn kept<T: ItemText>(items: Seq<T>, strategy: MatchStrategy, query: Seq<char>) -> Seq<
    T,
> {
    items.filter(|item: T| strategy.keeps(query, item.text()))
}

/// Whether `chosen` can be had from `items` by leaving items out: each of
/// its items stands in `items`, and they stand there in the same order.
pub open spec fn is_selection_of<T>(chosen: Seq<T>, items: Seq<T>) -> bool {
    exists|at: Seq<int>|
        {
            &&& at.len() == chosen.len()
            &&& forall|i: int|
                0 <= i < at.len() ==> 0 <= #[trigger] at[i] < items.len() && chosen[i]
                    == items[at[i]]
            &&& forall|i: int, j: int| 0 <= i < j < at.len() ==> #[trigger] at[i] < #[trigger] at[j]
        }
}

/// Filtering leaves items out and does nothing else.
proof fn lemma_filter_is_selection<T>(items: Seq<T>, keep: spec_fn(T) -> bool)
    ensures
        is_selection_of(items.filter(keep), items),
    decreases items.len(),
{
    reveal(Seq::filter);
    if items.len() == 0 {
        let at = Seq::<int>::empty();
        assert(at.len() == items.filter(keep).len());
        assert(is_selection_of(items.filter(keep), items));
    } else {
        let front = items.drop_last();
        lemma_filter_is_selection(front, keep);
        let front_at = choose|at: Seq<int>|
            {
                &&& at.len() == front.filter(keep).len()
                &&& forall|i: int|
                    0 <= i < at.len() ==> 0 <= #[trigger] at[i] < front.len() && front.filter(
                        keep,
                    )[i] == front[at[i]]
                &&& forall|i: int, j: int|
                    0 <= i < j < at.len() ==> #[trigger] at[i] < #[trigger] at[j]
            };
        let chosen = items.filter(keep);
        let at = if keep(items.last()) {
            front_at.push(items.len() - 1)
        } else {
            front_at
        };
        assert(at.len() == chosen.len());
        assert forall|i: int| 0 <= i < at.len() implies 0 <= #[trigger] at[i] < items.len()
            && chosen[i] == items[at[i]] by {
            if i < front_at.len() {
                assert(at[i] == front_at[i]);
                assert(front[front_at[i]] == items[front_at[i]]);
            }
        }
        assert forall|i: int, j: int| 0 <= i < j < at.len() implies #[trigger] at[i]
            < #[trigger] at[j] by {
            if j < front_at.len() {
                assert(at[i] == front_at[i] && at[j] == front_at[j]);
            } else {
                assert(at[i] == front_at[i]);
            }
        }
        assert(is_selection_of(chosen, items));
    }
}

/// What a query keeps is a selection of the items: the search leaves items
/// out, and neither adds, repeats nor reorders any.
pub proof fn lemma_kept_is_selection<T: ItemText>(
    items: Seq<T>,
    strategy: MatchStrategy,
    query: Seq<char>,
)
    ensures
        is_selection_of(kept(items, strategy, query), items),
{
    lemma_filter_is_selection(items, |item: T| strategy.keeps(query, item.text()));
}

/// An empty query keeps every item.
pub proof fn lemma_empty_query_keeps_all<T: ItemText>(items: Seq<T>, strategy: MatchStrategy)
    ensures
        kept(items, strategy, Seq::<char>::empty()) == items,
    decreases items.len(),
{
    reveal(Seq::filter);
    if items.len() > 0 {
        lemma_empty_query_keeps_all(items.drop_last(), strategy);
        assert(items.drop_last().push(items.last()) =~= items);
    }
}

/// The state of the user interface: the pages visited, the overlay on top
/// of the current one, and where things were last drawn.
#[derive(Clone, Debug, PartialEq, Eq)]
pub struct UIState {
    pub is_running: bool,
    /// The pages visited, oldest first. The last one is the current page.
    pub history: Vec<PageState>,
    /// The overlay in front of the current page, if one is open.
    pub popup: Option<PopupState>,
    /// How the search overlay holds its query against the items.
    pub search_strategy: MatchStrategy,
    /// The area of the playback progress bar, kept to place mouse clicks.
    pub playback_progress_bar_rect: Rect,
    pub last_cover_image_render_info: ImageRenderInfo,
}

impl UIState {
    /// The history holds at least the page the application started on.
    pub open spec fn wf(self) -> bool {
        self.history@.len() > 0
    }

    /// Whether everything but the history and the overlay is as in `other`.
    pub open spec fn same_surroundings(self, other: UIState) -> bool {
        &&& self.is_running == other.is_running
        &&& self.search_strategy == other.search_strategy
        &&& self.playback_progress_bar_rect == other.playback_progress_bar_rect
        &&& self.last_cover_image_render_info == other.last_cover_image_render_info
    }

    /// The page on top of the history.
    pub fn current_page(&self) -> (page: &PageState)
        requires
            self.wf(),
        ensures
            *page == self.history@.last(),
    {
        &self.history[self.history.len() - 1]
    }

    /// The page on top of the history, for changing it in place.
    pub fn current_page_mut(&mut self) -> (page: &mut PageState)
        requires
            old(self).wf(),
        ensures
            *page == old(self).history@.last(),
            final(self).history@ == old(self).history@.update(
                old(self).history@.len() - 1,
                *final(page),
            ),
            final(self).popup == old(self).popup,
            final(self).same_surroundings(*old(self)),
    {
        let last = self.history.len() - 1;
        &mut self.history[last]
    }

    /// Opens the search overlay with an empty query, in place of whatever
    /// overlay was open, and moves the current page's cursor to its first
    /// item.
    pub fn new_search_popup(&mut self)
        requires
            old(self).wf(),
        ensures
            final(self).wf(),
            final(self).history@ == old(self).history@.update(
                old(self).history@.len() - 1,
                old(self).history@.last().with_selection(0),
            ),
            final(self).popup matches Some(PopupState::Search { query }) && query@
                == Seq::<char>::empty(),
            final(self).same_surroundings(*old(self)),
    {
        self.current_page_mut().select(0);
        self.popup = Some(PopupState::Search { query: String::new() });
    }

    /// Navigates to a page: it goes on top of the history, and an open
    /// overlay is dismissed.
    pub fn new_page(&mut self, page: PageState)
        ensures
            final(self).wf(),
            final(self).history@ == old(self).history@.push(page),
            final(self).popup is None,
            final(self).same_surroundings(*old(self)),
    {
        self.history.push(page);
        self.popup = None;
    }

    /// Navigates to the page of recommendations that start from the given
    /// track, album or artist.
    pub fn new_radio_page(&mut self, uri: &str)
        ensures
            final(self).wf(),
            final(self).history@.len() == old(self).history@.len() + 1,
            final(self).history@.drop_last() == old(self).history@,
            is_radio_page(final(self).history@.last(), uri@),
            final(self).popup is None,
            final(self).same_surroundings(*old(self)),
    {
        let mut radio = "radio:".to_owned();
        radio.append(uri);
        let page = PageState::Context {
            id: None,
            context_page_type: ContextPageType::Browsing(
                ContextId::Tracks(TracksId::new(radio, "Recommendations")),
            ),
            state: None,
        };
        self.new_page(page);
        assert(final(self).history@.drop_last() =~= old(self).history@);
    }

    /// Whether an overlay is open that takes the focus from the page. The
    /// search overlay is the one that does not.
    pub fn has_focused_popup(&self) -> (focused: bool)
        ensures
            focused == (self.popup is Some && !(self.popup->0 is Search)),
    {
        match self.popup.as_ref() {
            None => false,
            Some(popup) => match popup {
                PopupState::Search { .. } => false,
                _ => true,
            },
        }
    }
}

impl UIState {
    /// The items that the search overlay lets through. While the overlay is
    /// open these are the items that its query keeps; otherwise all of them.
    /// They come in the order of `items`, each a reference to the item itself.
    pub fn search_filtered_items<'a, T: ItemText>(&self, items: &'a [T]) -> (found: Vec<&'a T>)
        ensures
            items_of(found@) == match self.popup {
                Some(PopupState::Search { query }) => kept(items@, self.search_strategy, query@),
                _ => items@,
            },
            self.popup matches Some(PopupState::Search { query }) && query@.len() == 0
                ==> items_of(found@) == items@,
    {
        let mut found: Vec<&'a T> = Vec::new();
        match &self.popup {
            Some(PopupState::Search { query }) => {
                let prepared = Query::new(self.search_strategy, query.as_str());
                let ghost keep = |item: T| self.search_strategy.keeps(query@, item.text());
                let mut i: usize = 0;
                while i < items.len()
                    invariant
                        i <= items.len(),
                        prepared.strategy() == self.search_strategy,
                        prepared.text() == query@,
                        keep == |item: T| self.search_strategy.keeps(query@, item.text()),
                        items_of(found@) == items@.take(i as int).filter(keep),
                        query@.len() == 0 ==> items_of(found@) == items@.take(i as int),
                    decreases items.len() - i,
                {
                    let text = items[i].to_text();
                    let ghost before = items_of(found@);
                    proof {
                        assert(items@.take(i + 1) =~= items@.take(i as int).push(items@[i as int]));
                        items@.take(i as int).lemma_filter_push(items@[i as int], keep);
                    }
                    if prepared.keeps(text.as_str()) {
                        found.push(&items[i]);
                        assert(items_of(found@) =~= before.push(items@[i as int]));
                    }
                    i += 1;
                }
                assert(items@.take(items@.len() as int) =~= items@);
            },
            _ => {
                let mut i: usize = 0;
                while i < items.len()
                    invariant
                        i <= items.len(),
                        items_of(found@) == items@.take(i as int),
                    decreases items.len() - i,
                {
                    let ghost before = items_of(found@);
                    found.push(&items[i]);
                    assert(items_of(found@) =~= before.push(items@[i as int]));
                    assert(items@.take(i + 1) =~= items@.take(i as int).push(items@[i as int]));
                    i += 1;
                }
                assert(items@.take(items@.len() as int) =~= items@);
            },
        }
        found
    }
}

impl Default for UIState {
    fn default() -> (ui: Self)
        ensures
            ui.wf(),
            ui.is_running,
            ui.history@ == seq![PageState::Library { state: ListState { selected: None } }],
            ui.popup is None,
            ui.search_strategy == MatchStrategy::Substring,
            ui.playback_progress_bar_rect == (Rect { x: 0, y: 0, width: 0, height: 0 }),
            !ui.last_cover_image_render_info.rendered,
            ui.last_cover_image_render_info.url@ == Seq::<char>::empty(),
    {
        let mut history = Vec::new();
        history.push(PageState::Library { state: ListState::new() });
        UIState {
            is_running: true,
            history,
            popup: None,
            search_strategy: MatchStrategy::Substring,
            playback_progress_bar_rect: Rect::default(),
            last_cover_image_render_info: ImageRenderInfo::default(),
        }
    }
}

} // verus!
