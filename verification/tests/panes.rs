use anime_cli::model::{AnimeAttributes, AnimeData};
use anime_cli::panes::{details_pane, search_pane, DetailsPane, SearchPane};
use anime_cli::viewer::App;

fn full_entry() -> AnimeData {
    AnimeData {
        id: "1".to_string(),
        attributes: AnimeAttributes {
            canonical_title: "Cowboy Bebop".to_string(),
            synopsis: Some("A bounty hunter crew travels the solar system.".to_string()),
            average_rating: Some("82.4".to_string()),
            start_date: Some("1998-04-03".to_string()),
            end_date: Some("1999-04-24".to_string()),
            status: Some("finished".to_string()),
            episode_count: Some(26),
        },
    }
}

fn bare_entry() -> AnimeData {
    AnimeData {
        id: "2".to_string(),
        attributes: AnimeAttributes {
            canonical_title: "Plain".to_string(),
            synopsis: None,
            average_rating: None,
            start_date: None,
            end_date: None,
            status: None,
            episode_count: None,
        },
    }
}

#[test]
fn loading_state_shows_the_loading_indicator() {
    let mut app = App::new();
    app.loading = true;
    match search_pane(&app) {
        SearchPane::Loading(t) => assert_eq!(t, "Loading..."),
        _ => panic!("expected the loading indicator"),
    }
}

#[test]
fn empty_batch_with_empty_query_shows_the_startup_help() {
    let app = App::new();
    match search_pane(&app) {
        SearchPane::Help(t) => assert_eq!(
            t,
            "Press 'e' to enter search mode, type your query, and press Enter to search."
        ),
        _ => panic!("expected the help notice"),
    }
}

#[test]
fn empty_batch_with_a_query_shows_the_no_match_help() {
    let mut app = App::new();
    app.input = "ghost".to_string();
    match search_pane(&app) {
        SearchPane::Help(t) => assert_eq!(t, "No results found. Try a different search term."),
        _ => panic!("expected the help notice"),
    }
}

#[test]
fn a_failed_search_is_shown_inline() {
    let mut app = App::new();
    app.last_error = Some("Failed to parse anime data: bad body".to_string());
    match search_pane(&app) {
        SearchPane::Failed(t) => assert_eq!(t, "Failed to parse anime data: bad body"),
        _ => panic!("expected the inline error"),
    }
}

#[test]
fn result_labels_carry_title_and_rating() {
    let mut app = App::new();
    app.search_results = vec![full_entry(), bare_entry()];
    match search_pane(&app) {
        SearchPane::Items(items) => {
            assert_eq!(items, vec!["Cowboy Bebop (82.4*)".to_string(), "Plain".to_string()]);
        },
        _ => panic!("expected the result list"),
    }
}

#[test]
fn no_selection_shows_the_placeholder() {
    let app = App::new();
    match details_pane(&app) {
        DetailsPane::Empty(t) => assert_eq!(t, "No anime selected."),
        _ => panic!("expected the placeholder"),
    }
}

#[test]
fn details_join_every_present_segment() {
    let mut app = App::new();
    app.search_results = vec![full_entry()];
    app.selected_anime_index = Some(0);
    match details_pane(&app) {
        DetailsPane::Entry { title, info, synopsis } => {
            assert_eq!(title, "Cowboy Bebop");
            assert_eq!(
                info,
                "Rating: 82.4/100 | Episodes: 26 | Status: finished | Aired: 1998-04-03 to 1999-04-24"
            );
            assert_eq!(synopsis, "A bounty hunter crew travels the solar system.");
        },
        _ => panic!("expected the entry details"),
    }
}

#[test]
fn details_of_a_bare_entry_use_placeholders() {
    let mut app = App::new();
    app.search_results = vec![bare_entry()];
    app.selected_anime_index = Some(0);
    match details_pane(&app) {
        DetailsPane::Entry { title, info, synopsis } => {
            assert_eq!(title, "Plain");
            assert_eq!(info, "");
            assert_eq!(synopsis, "No synopsis available.");
        },
        _ => panic!("expected the entry details"),
    }
}

#[test]
fn ongoing_entry_details_read_to_present() {
    let mut e = full_entry();
    e.attributes.end_date = None;
    e.attributes.average_rating = None;
    let mut app = App::new();
    app.search_results = vec![e];
    app.selected_anime_index = Some(0);
    match details_pane(&app) {
        DetailsPane::Entry { info, .. } => {
            assert_eq!(info, "Episodes: 26 | Status: finished | Aired: 1998-04-03 to present");
        },
        _ => panic!("expected the entry details"),
    }
}
