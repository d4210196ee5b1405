use spotify_player::command::Command;
use spotify_player::model::Track;
use spotify_player::state::ui::page::ContextId;
use spotify_player::state::ui::page::ContextPageType;
use spotify_player::state::ui::page::ListState;
use spotify_player::state::ui::page::PageState;
use spotify_player::state::ui::page::TracksId;
use spotify_player::state::ui::popup::PopupState;
use spotify_player::state::ui::search::token_match;
use spotify_player::state::ui::search::ItemText;
use spotify_player::state::ui::search::MatchStrategy;
use spotify_player::state::ui::search::Query;
use spotify_player::state::ui::ImageRenderInfo;
use spotify_player::state::ui::Rect;
use spotify_player::state::ui::UIState;

fn strings(items: &[&str]) -> Vec<String> {
    items.iter().map(|item| item.to_string()).collect()
}

fn searching(query: &str, strategy: MatchStrategy) -> UIState {
    let mut ui = UIState::default();
    ui.search_strategy = strategy;
    ui.popup = Some(PopupState::Search { query: query.to_string() });
    ui
}

fn context_page(state: Option<ListState>) -> PageState {
    PageState::Context {
        id: Some(ContextId::Album("album:1".to_string())),
        context_page_type: ContextPageType::CurrentPlaying,
        state,
    }
}

#[test]
fn default_ui_starts_on_the_library() {
    let ui = UIState::default();
    assert!(ui.is_running);
    assert_eq!(ui.history, vec![PageState::Library { state: ListState { selected: None } }]);
    assert_eq!(ui.popup, None);
    assert_eq!(ui.search_strategy, MatchStrategy::Substring);
    assert_eq!(ui.playback_progress_bar_rect, Rect { x: 0, y: 0, width: 0, height: 0 });
    assert_eq!(
        ui.last_cover_image_render_info,
        ImageRenderInfo {
            url: String::new(),
            render_area: Rect { x: 0, y: 0, width: 0, height: 0 },
            rendered: false,
        }
    );
}

#[test]
fn defaults_of_the_drawing_records() {
    assert_eq!(Rect::default(), Rect { x: 0, y: 0, width: 0, height: 0 });
    let info = ImageRenderInfo::default();
    assert_eq!(info.url, "");
    assert!(!info.rendered);
}

#[test]
fn current_page_is_the_last_of_the_history() {
    let mut ui = UIState::default();
    assert_eq!(ui.current_page(), &PageState::Library { state: ListState { selected: None } });
    let page = context_page(Some(ListState { selected: Some(3) }));
    ui.new_page(page.clone());
    assert_eq!(ui.current_page(), &page);
    assert_eq!(ui.history.len(), 2);
}

#[test]
fn current_page_mut_changes_the_page_in_place() {
    let mut ui = UIState::default();
    ui.new_page(context_page(Some(ListState { selected: None })));
    ui.current_page_mut().select(4);
    assert_eq!(ui.current_page().selected(), Some(4));
    assert_eq!(ui.history[0], PageState::Library { state: ListState { selected: None } });
    *ui.current_page_mut() = PageState::Library { state: ListState { selected: Some(1) } };
    assert_eq!(ui.history.len(), 2);
    assert_eq!(ui.history[1], PageState::Library { state: ListState { selected: Some(1) } });
}

#[test]
fn new_page_dismisses_any_popup() {
    let popups = vec![
        None,
        Some(PopupState::Search { query: "abc".to_string() }),
        Some(PopupState::CommandHelp { scroll_offset: 2 }),
        Some(PopupState::UserPlaylistList(ListState { selected: Some(1) })),
        Some(PopupState::DeviceList(ListState { selected: None })),
        Some(PopupState::ThemeList(ListState { selected: Some(0) })),
    ];
    for popup in popups {
        let mut ui = UIState::default();
        ui.popup = popup;
        let page = context_page(None);
        ui.new_page(page.clone());
        assert_eq!(ui.popup, None);
        assert_eq!(
            ui.history,
            vec![PageState::Library { state: ListState { selected: None } }, page]
        );
        assert!(ui.is_running);
    }
}

#[test]
fn search_popup_opens_empty_and_resets_the_cursor() {
    let mut ui = UIState::default();
    ui.new_page(context_page(Some(ListState { selected: Some(7) })));
    ui.popup = Some(PopupState::DeviceList(ListState { selected: Some(2) }));
    ui.new_search_popup();
    assert_eq!(ui.popup, Some(PopupState::Search { query: String::new() }));
    assert_eq!(ui.current_page(), &context_page(Some(ListState { selected: Some(0) })));
    assert_eq!(ui.history[0], PageState::Library { state: ListState { selected: None } });
    assert_eq!(ui.history.len(), 2);
}

#[test]
fn search_popup_on_a_page_without_cursor() {
    let mut ui = UIState::default();
    ui.new_page(context_page(None));
    ui.new_search_popup();
    assert_eq!(ui.current_page(), &context_page(None));
    assert_eq!(ui.popup, Some(PopupState::Search { query: String::new() }));
}

#[test]
fn search_popup_on_the_library() {
    let mut ui = UIState::default();
    ui.new_search_popup();
    assert_eq!(ui.history, vec![PageState::Library { state: ListState { selected: Some(0) } }]);
}

#[test]
fn only_the_search_popup_is_unfocused() {
    let mut ui = UIState::default();
    assert!(!ui.has_focused_popup());
    ui.popup = Some(PopupState::Search { query: "q".to_string() });
    assert!(!ui.has_focused_popup());
    ui.popup = Some(PopupState::CommandHelp { scroll_offset: 0 });
    assert!(ui.has_focused_popup());
    ui.popup = Some(PopupState::UserPlaylistList(ListState::new()));
    assert!(ui.has_focused_popup());
    ui.popup = Some(PopupState::DeviceList(ListState::new()));
    assert!(ui.has_focused_popup());
    ui.popup = Some(PopupState::ThemeList(ListState::new()));
    assert!(ui.has_focused_popup());
}

#[test]
fn radio_page_browses_recommendations() {
    let mut ui = UIState::default();
    ui.popup = Some(PopupState::CommandHelp { scroll_offset: 0 });
    ui.new_radio_page("spotify:track:42");
    assert_eq!(ui.popup, None);
    assert_eq!(ui.history.len(), 2);
    assert_eq!(
        ui.current_page(),
        &PageState::Context {
            id: None,
            context_page_type: ContextPageType::Browsing(ContextId::Tracks(TracksId {
                uri: "radio:spotify:track:42".to_string(),
                kind: "Recommendations".to_string(),
            })),
            state: None,
        }
    );
}

#[test]
fn tracks_id_keeps_its_parts() {
    let id = TracksId::new("radio:x".to_string(), "Recommendations");
    assert_eq!(id.uri, "radio:x");
    assert_eq!(id.kind, "Recommendations");
}

#[test]
fn page_selection() {
    let mut library = PageState::Library { state: ListState::new() };
    assert_eq!(library.selected(), None);
    library.select(5);
    assert_eq!(library.selected(), Some(5));
    let mut waiting = context_page(None);
    waiting.select(5);
    assert_eq!(waiting, context_page(None));
    assert_eq!(waiting.selected(), None);
    let mut cursor = ListState::new();
    assert_eq!(cursor.selected, None);
    cursor.select(2);
    assert_eq!(cursor.selected, Some(2));
}

#[test]
fn empty_query_keeps_every_item() {
    let items = strings(&["Foobar", "baz", "", "food", "baz"]);
    for strategy in [MatchStrategy::Substring, MatchStrategy::Fuzzy] {
        let ui = searching("", strategy);
        let found = ui.search_filtered_items(&items);
        assert_eq!(found.len(), items.len());
        for (kept, item) in found.iter().zip(items.iter()) {
            assert!(std::ptr::eq(*kept, item));
        }
    }
}

#[test]
fn query_foo_keeps_the_items_that_hold_it() {
    let items = strings(&["Foobar", "baz", "food"]);
    let ui = searching("foo", MatchStrategy::Substring);
    let found = ui.search_filtered_items(&items);
    assert_eq!(found, vec!["Foobar", "food"]);
    assert!(std::ptr::eq(found[0], &items[0]));
    assert!(std::ptr::eq(found[1], &items[2]));
}

#[test]
fn query_is_folded_to_lowercase_too() {
    let items = strings(&["Foobar", "baz", "food"]);
    let ui = searching("FOO", MatchStrategy::Substring);
    assert_eq!(ui.search_filtered_items(&items), vec!["Foobar", "food"]);
    let ui = searching("BAZ", MatchStrategy::Fuzzy);
    assert_eq!(ui.search_filtered_items(&items), vec!["baz"]);
}

#[test]
fn without_search_popup_nothing_is_filtered() {
    let items = strings(&["Foobar", "baz", "food"]);
    let mut ui = UIState::default();
    assert_eq!(ui.search_filtered_items(&items), vec!["Foobar", "baz", "food"]);
    ui.popup = Some(PopupState::CommandHelp { scroll_offset: 0 });
    let found = ui.search_filtered_items(&items);
    assert_eq!(found.len(), 3);
    for (kept, item) in found.iter().zip(items.iter()) {
        assert!(std::ptr::eq(*kept, item));
    }
}

#[test]
fn any_token_of_the_query_is_enough() {
    let items = strings(&["Foobar", "baz", "food", "quux"]);
    let ui = searching("zzz ba", MatchStrategy::Substring);
    assert_eq!(ui.search_filtered_items(&items), vec!["Foobar", "baz"]);
    let ui = searching("  quu   ", MatchStrategy::Substring);
    assert_eq!(ui.search_filtered_items(&items), vec!["quux"]);
}

#[test]
fn query_of_spaces_keeps_nothing() {
    let items = strings(&["Foobar", "a b", " "]);
    let ui = searching(" ", MatchStrategy::Substring);
    assert_eq!(ui.search_filtered_items(&items), Vec::<&String>::new());
    let ui = searching("   ", MatchStrategy::Substring);
    assert_eq!(ui.search_filtered_items(&items), Vec::<&String>::new());
}

#[test]
fn filtering_keeps_order_and_repeats() {
    let items = strings(&["ab", "b", "ab", "c", "AB"]);
    let ui = searching("a", MatchStrategy::Substring);
    let found = ui.search_filtered_items(&items);
    assert_eq!(found, vec!["ab", "ab", "AB"]);
    assert!(std::ptr::eq(found[0], &items[0]));
    assert!(std::ptr::eq(found[1], &items[2]));
    assert!(std::ptr::eq(found[2], &items[4]));
}

#[test]
fn filtering_no_items() {
    let items: Vec<String> = vec![];
    let ui = searching("a", MatchStrategy::Substring);
    assert!(ui.search_filtered_items(&items).is_empty());
}

#[test]
fn fuzzy_strategy_finds_scattered_letters() {
    let items = strings(&["Foobar", "baz", "food"]);
    let ui = searching("fbr", MatchStrategy::Fuzzy);
    assert_eq!(ui.search_filtered_items(&items), vec!["Foobar"]);
    let ui = searching("fbr", MatchStrategy::Substring);
    assert!(ui.search_filtered_items(&items).is_empty());
    let ui = searching("fo", MatchStrategy::Fuzzy);
    assert_eq!(ui.search_filtered_items(&items), vec!["Foobar", "food"]);
}

#[test]
fn token_match_cases() {
    assert!(token_match("foo", "foobar"));
    assert!(token_match("bar", "foobar"));
    assert!(token_match("oba", "foobar"));
    assert!(token_match("foobar", "foobar"));
    assert!(!token_match("foobarx", "foobar"));
    assert!(!token_match("fbr", "foobar"));
    assert!(!token_match("", "foobar"));
    assert!(!token_match("", ""));
    assert!(!token_match(" ", " "));
    assert!(!token_match("foo", ""));
    assert!(token_match("x foo", "foobar"));
    assert!(token_match("foo x", "foobar"));
    assert!(!token_match("x y", "foobar"));
    assert!(!token_match("Foo", "foobar"));
    assert!(token_match("é", "café"));
    assert!(!token_match("né e", "ab"));
    assert!(token_match("aab", "aaab"));
}

#[test]
fn strategies_on_given_texts() {
    assert!(MatchStrategy::Substring.matches("foobar", "oba"));
    assert!(!MatchStrategy::Substring.matches("foobar", "fbr"));
    assert!(MatchStrategy::Fuzzy.matches("foobar", "fbr"));
    assert!(!MatchStrategy::Fuzzy.matches("foobar", "fbx"));
    assert!(MatchStrategy::Fuzzy.matches("axbycz", "abc"));
    assert!(!MatchStrategy::Fuzzy.matches("abc", "abx"));
}

#[test]
fn prepared_query_decides_item_by_item() {
    let query = Query::new(MatchStrategy::Substring, "Foo");
    assert!(query.keeps("FOOD"));
    assert!(query.keeps("foobar"));
    assert!(!query.keeps("baz"));
    let all = Query::new(MatchStrategy::Substring, "");
    assert!(all.keeps("baz"));
    assert!(all.keeps(""));
    let fuzzy = Query::new(MatchStrategy::Fuzzy, "FBR");
    assert!(fuzzy.keeps("Foobar"));
    assert!(!fuzzy.keeps("food"));
}

#[test]
fn a_string_is_its_own_text() {
    assert_eq!("Foobar".to_string().to_text(), "Foobar");
}

#[test]
fn commands_compare_in_declaration_order() {
    assert_eq!(Command::Quit, Command::Quit);
    assert_ne!(Command::NextTrack, Command::PreviousTrack);
    assert!(Command::NextTrack < Command::PreviousTrack);
    assert!(Command::SortByAddedDate < Command::ReverseOrder);
    let copy = Command::Shuffle;
    assert_eq!(copy, Command::Shuffle);
}

#[test]
fn a_track_is_searched_by_name_artists_and_album() {
    let track = |name: &str, artists: &str, album: &str| Track {
        uri: "spotify:track:1".to_string(),
        name: name.to_string(),
        artists: artists.to_string(),
        album: album.to_string(),
        duration_ms: 1,
    };
    let items = vec![
        track("So What", "Miles Davis", "Kind of Blue"),
        track("Blue in Green", "Miles Davis", "Kind of Blue"),
        track("Naima", "John Coltrane", "Giant Steps"),
    ];
    assert_eq!(items[0].to_text(), "So What Miles Davis Kind of Blue");
    let ui = searching("coltrane", MatchStrategy::Substring);
    let found = ui.search_filtered_items(&items);
    assert_eq!(found.len(), 1);
    assert!(std::ptr::eq(found[0], &items[2]));
    let ui = searching("BLUE", MatchStrategy::Substring);
    assert_eq!(ui.search_filtered_items(&items).len(), 2);
    let ui = searching("what naima", MatchStrategy::Substring);
    let found = ui.search_filtered_items(&items);
    assert_eq!(found.len(), 2);
    assert!(std::ptr::eq(found[0], &items[0]));
    assert!(std::ptr::eq(found[1], &items[2]));
}
