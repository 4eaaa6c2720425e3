use jellytui::app::App;
use jellytui::media::{Episode, Show};
use jellytui::message::{AppEvent, Key, WorkerAction};
use jellytui::state::ActivePane;

fn episode(id: &str, season: &str) -> Episode {
    Episode {
        id: id.to_owned(),
        name: id.to_owned(),
        season_name: season.to_owned(),
        played: false,
        run_time_ticks: 0,
        playback_position_ticks: None,
    }
}

fn show(id: &str) -> Show {
    Show { id: id.to_owned(), name: id.to_owned() }
}

/// Two shows, the first with the seasons One, Two and Specials.
fn client() -> App {
    let mut app = App::new(None);
    app.shows = vec![show("a"), show("b")];
    app.episodes_cache.insert(
        "a".to_owned(),
        vec![
            episode("a1", "One"),
            episode("a2", "One"),
            episode("a3", "Two"),
            episode("a4", "Two"),
            episode("a5", "Two"),
            episode("a6", "Specials"),
        ],
    );
    app
}

fn ids(episodes: &[Episode]) -> Vec<String> {
    episodes.iter().map(|e| e.id.clone()).collect()
}

fn fetched(order: &Option<WorkerAction>) -> Option<(String, bool)> {
    match order {
        Some(WorkerAction::FetchEpisodes { show_id, is_reload }) => {
            Some((show_id.clone(), *is_reload))
        }
        _ => None,
    }
}

#[test]
fn seasons_and_episodes_follow_the_highlight() {
    let mut app = client();
    assert_eq!(app.get_current_seasons(), vec!["One", "Two", "Specials"]);
    assert_eq!(ids(&app.get_current_episodes()), vec!["a1", "a2"]);
    app.seasons_state = Some(1);
    assert_eq!(ids(&app.get_current_episodes()), vec!["a3", "a4", "a5"]);
    app.seasons_state = Some(3);
    assert!(app.get_current_episodes().is_empty());
    app.seasons_state = None;
    assert!(app.get_current_episodes().is_empty());
    app.seasons_state = Some(0);
    app.shows_state = Some(1);
    assert!(app.get_current_seasons().is_empty());
    assert!(app.get_current_episodes().is_empty());
    app.shows_state = Some(2);
    assert!(app.get_current_seasons().is_empty());
    app.shows_state = None;
    assert!(app.get_current_seasons().is_empty());
}

#[test]
fn a_season_that_comes_back_is_listed_again() {
    let mut app = client();
    app.episodes_cache.insert(
        "a".to_owned(),
        vec![episode("1", "X"), episode("2", "Y"), episode("3", "X")],
    );
    assert_eq!(app.get_current_seasons(), vec!["X", "Y", "X"]);
    assert_eq!(ids(&app.get_current_episodes()), vec!["1", "3"]);
    app.seasons_state = Some(2);
    assert_eq!(ids(&app.get_current_episodes()), vec!["1", "3"]);
}

#[test]
fn panes_stop_at_both_ends() {
    let mut app = client();
    app.previous_pane();
    assert_eq!(app.active_pane, ActivePane::Shows);
    app.next_pane();
    assert_eq!(app.active_pane, ActivePane::Seasons);
    app.next_pane();
    assert_eq!(app.active_pane, ActivePane::Episodes);
    app.next_pane();
    assert_eq!(app.active_pane, ActivePane::Episodes);
    app.previous_pane();
    assert_eq!(app.active_pane, ActivePane::Seasons);
    app.previous_pane();
    assert_eq!(app.active_pane, ActivePane::Shows);
}

#[test]
fn the_highlight_stops_at_both_ends() {
    let mut app = client();
    app.previous_item();
    assert_eq!(app.shows_state, Some(0));
    app.next_item();
    assert_eq!(app.shows_state, Some(1));
    app.next_item();
    assert_eq!(app.shows_state, Some(1));
    app.previous_item();
    assert_eq!(app.shows_state, Some(0));
    app.active_pane = ActivePane::Seasons;
    for want in [1, 2, 2] {
        app.next_item();
        assert_eq!(app.seasons_state, Some(want));
    }
    app.previous_item();
    assert_eq!(app.seasons_state, Some(1));
    app.active_pane = ActivePane::Episodes;
    for want in [1, 2, 2] {
        app.next_item();
        assert_eq!(app.episodes_state, Some(want));
    }
    app.previous_item();
    assert_eq!(app.episodes_state, Some(1));
}

#[test]
fn a_highlight_outside_the_list_comes_back() {
    let mut app = client();
    app.shows_state = Some(usize::MAX);
    app.next_item();
    assert_eq!(app.shows_state, Some(1));
    app.shows_state = Some(7);
    app.previous_item();
    assert_eq!(app.shows_state, Some(6));
    app.shows_state = None;
    app.next_item();
    assert_eq!(app.shows_state, Some(0));
    app.shows_state = None;
    app.previous_item();
    assert_eq!(app.shows_state, Some(0));
    app.shows.clear();
    app.shows_state = Some(3);
    app.next_item();
    assert_eq!(app.shows_state, Some(0));
}

#[test]
fn the_mark_of_the_highlighted_episode_is_turned_over() {
    let mut app = client();
    app.seasons_state = Some(1);
    app.episodes_state = Some(2);
    assert_eq!(app.toggle_current_episode_played(), None);
    app.active_pane = ActivePane::Episodes;
    assert_eq!(app.get_current_episode_id(), Some("a5".to_owned()));
    assert_eq!(app.toggle_current_episode_played(), Some(("a5".to_owned(), true)));
    let played: Vec<bool> = app
        .episodes_cache
        .get(&"a".to_owned())
        .unwrap()
        .iter()
        .map(|e| e.played)
        .collect();
    assert_eq!(played, vec![false, false, false, false, true, false]);
    assert!(app.get_current_episodes()[2].played);
    assert_eq!(app.toggle_current_episode_played(), Some(("a5".to_owned(), false)));
    assert!(!app.get_current_episodes()[2].played);
    app.episodes_state = Some(3);
    assert_eq!(app.toggle_current_episode_played(), None);
    assert_eq!(app.get_current_episode_id(), None);
    app.episodes_state = None;
    assert_eq!(app.toggle_current_episode_played(), None);
    app.episodes_state = Some(0);
    app.seasons_state = Some(9);
    assert_eq!(app.toggle_current_episode_played(), None);
    app.seasons_state = Some(0);
    app.shows_state = Some(1);
    assert_eq!(app.toggle_current_episode_played(), None);
}

#[test]
fn keys_that_play_and_mark() {
    let mut app = client();
    assert!(app.handle_key(Key::Enter, true).is_none());
    assert!(app.handle_key(Key::Char(' '), true).is_none());
    app.active_pane = ActivePane::Episodes;
    app.episodes_state = Some(1);
    for key in [Key::Enter, Key::Char('s')] {
        match app.handle_key(key, true) {
            Some(WorkerAction::PlayEpisode { episode_id }) => assert_eq!(episode_id, "a2"),
            other => panic!("{other:?}"),
        }
    }
    match app.handle_key(Key::Char(' '), true) {
        Some(WorkerAction::TogglePlayed { episode_id, set_played }) => {
            assert_eq!(episode_id, "a2");
            assert!(set_played);
        }
        other => panic!("{other:?}"),
    }
    assert!(app.get_current_episodes()[1].played);
}

#[test]
fn keys_that_are_not_pressed_or_have_no_meaning_do_nothing() {
    let mut app = client();
    assert!(app.handle_key(Key::Down, false).is_none());
    assert!(app.handle_key(Key::Char('q'), false).is_none());
    assert!(app.handle_key(Key::Other, true).is_none());
    assert!(app.handle_key(Key::Char('x'), true).is_none());
    assert_eq!(app.shows_state, Some(0));
    assert!(!app.should_quit);
}

#[test]
fn two_keys_end_the_client() {
    for key in [Key::Esc, Key::Char('q')] {
        let mut app = client();
        assert!(app.handle_key(key, true).is_none());
        assert!(app.should_quit);
        assert!(app.finish().is_some());
        assert!(app.handle_event(AppEvent::EpisodesReloaded).is_none());
        assert!(app.should_quit);
    }
}

#[test]
fn another_show_is_fetched_once_and_begins_at_the_top() {
    let mut app = client();
    app.seasons_state = Some(2);
    app.episodes_state = Some(4);
    let order = app.handle_key(Key::Down, true);
    assert_eq!(fetched(&order), Some(("b".to_owned(), false)));
    assert_eq!(app.shows_state, Some(1));
    assert_eq!(app.seasons_state, Some(0));
    assert_eq!(app.episodes_state, Some(0));
    assert!(app.handle_key(Key::Down, true).is_none());
    let order = app.handle_key(Key::Up, true);
    assert_eq!(fetched(&order), Some(("a".to_owned(), false)));
    assert!(app.handle_key(Key::Down, true).is_none());
    assert!(app.handle_key(Key::Up, true).is_none());
}

#[test]
fn another_season_begins_at_the_top() {
    let mut app = client();
    app.active_pane = ActivePane::Seasons;
    app.episodes_state = Some(1);
    assert!(app.handle_key(Key::Down, true).is_none());
    assert_eq!(app.seasons_state, Some(1));
    assert_eq!(app.episodes_state, Some(0));
    app.episodes_state = Some(2);
    app.seasons_state = Some(2);
    assert!(app.handle_key(Key::Down, true).is_none());
    assert_eq!(app.episodes_state, Some(2));
}

#[test]
fn a_reload_is_asked_for_every_time() {
    let mut app = client();
    for _ in 0..2 {
        let order = app.handle_key(Key::Char('r'), true);
        assert_eq!(fetched(&order), Some(("a".to_owned(), true)));
        assert_eq!(app.diag_msg, Some("Refreshing...".to_owned()));
    }
    assert!(app
        .handle_event(AppEvent::EpisodesLoaded {
            show_id: "a".to_owned(),
            episodes: vec![episode("new", "One")],
        })
        .is_none());
    assert_eq!(ids(&app.get_current_episodes()), vec!["new"]);
    assert!(app.handle_event(AppEvent::EpisodesReloaded).is_none());
    assert_eq!(app.diag_msg, None);
    // Asked for on demand, the episodes are not asked for again by themselves.
    let _ = app.handle_key(Key::Down, true);
    assert!(app.handle_key(Key::Up, true).is_none());
    app.shows_state = Some(5);
    assert!(app.handle_key(Key::Char('r'), true).is_none());
}

#[test]
fn shows_that_come_in_have_their_episodes_fetched() {
    let mut app = App::new(None);
    app.status_msg = Some("old".to_owned());
    let order = app.handle_event(AppEvent::ShowsLoaded(vec![show("x"), show("y")]));
    assert_eq!(fetched(&order), Some(("x".to_owned(), false)));
    assert_eq!(app.status_msg, None);
    assert_eq!(app.shows.len(), 2);
    assert!(app
        .handle_event(AppEvent::ShowsLoaded(vec![show("x")]))
        .is_none());
    assert!(app.handle_event(AppEvent::ShowsLoaded(vec![])).is_none());
    assert!(app.shows.is_empty());
}

#[test]
fn episodes_that_came_in_are_not_fetched_again() {
    let mut app = client();
    assert!(app
        .handle_event(AppEvent::EpisodesLoaded { show_id: "b".to_owned(), episodes: vec![] })
        .is_none());
    assert!(app.fetched_shows_this_session.contains("b"));
    assert!(app.handle_key(Key::Down, true).is_none());
    assert_eq!(app.shows_state, Some(1));
}

#[test]
fn an_error_stays_until_something_comes_in() {
    let mut app = client();
    assert!(app.handle_event(AppEvent::Error("down".to_owned())).is_none());
    assert_eq!(app.status_msg, Some("down".to_owned()));
    assert!(app.handle_event(AppEvent::EpisodesReloaded).is_none());
    assert_eq!(app.status_msg, Some("down".to_owned()));
    assert!(app
        .handle_event(AppEvent::EpisodesLoaded { show_id: "b".to_owned(), episodes: vec![] })
        .is_none());
    assert_eq!(app.status_msg, None);
}

#[test]
fn keys_lose_neither_a_highlight_nor_an_episode() {
    let mut app = client();
    let keys = [
        Key::Right, Key::Right, Key::Char(' '), Key::Down, Key::Char(' '), Key::Left, Key::Down,
        Key::Left, Key::Down, Key::Char('r'), Key::Up, Key::Right, Key::Up, Key::Enter,
    ];
    for key in keys {
        let _ = app.handle_key(key, true);
        assert!(app.shows_state.is_some());
        assert!(app.seasons_state.is_some());
        assert!(app.episodes_state.is_some());
        let known = app.episodes_cache.get(&"a".to_owned()).unwrap();
        assert_eq!(ids(known), vec!["a1", "a2", "a3", "a4", "a5", "a6"]);
    }
    let known = app.episodes_cache.get(&"a".to_owned()).unwrap();
    let played: Vec<bool> = known.iter().map(|e| e.played).collect();
    assert_eq!(played, vec![true, true, false, false, false, false]);
}

#[test]
fn moves_down_add_up_to_the_last_item() {
    for m in 0..6 {
        let mut app = client();
        app.active_pane = ActivePane::Seasons;
        for _ in 0..m {
            app.next_item();
        }
        assert_eq!(app.seasons_state, Some(if m < 3 { m } else { 2 }));
    }
}

#[test]
fn unbroken_seasons_make_the_whole_list() {
    let mut app = client();
    let mut joined: Vec<String> = Vec::new();
    for i in 0..app.get_current_seasons().len() {
        app.seasons_state = Some(i);
        joined.extend(ids(&app.get_current_episodes()));
    }
    assert_eq!(joined, vec!["a1", "a2", "a3", "a4", "a5", "a6"]);
}
