use jellytui::app::App;
use jellytui::media::{Episode, Show};
use jellytui::screen::{duration_text, episode_cells, pane_frame, ui, watched_marker, Color};
use jellytui::state::ActivePane;

fn episode(played: bool, position: Option<u64>) -> Episode {
    Episode {
        id: "e".to_owned(),
        name: "Pilot".to_owned(),
        season_name: "One".to_owned(),
        played,
        run_time_ticks: 13_350_000_000,
        playback_position_ticks: position,
    }
}

#[test]
fn durations_are_minutes_and_seconds() {
    assert_eq!(duration_text(0), "00:00");
    assert_eq!(duration_text(9_999_999), "00:00");
    assert_eq!(duration_text(13_350_000_000), "22:15");
    assert_eq!(duration_text(3_020_000_000), "05:02");
    assert_eq!(duration_text(59_999_999_999), "99:59");
    assert_eq!(duration_text(60_000_000_000), "100:00");
    assert_eq!(duration_text(u64::MAX), "30744573456:10");
}

#[test]
fn marks_tell_what_was_watched() {
    assert_eq!(watched_marker(&episode(true, None)), "[x]");
    assert_eq!(watched_marker(&episode(true, Some(5))), "[x]");
    assert_eq!(watched_marker(&episode(false, Some(5))), "[~]");
    assert_eq!(watched_marker(&episode(false, Some(0))), "[ ]");
    assert_eq!(watched_marker(&episode(false, None)), "[ ]");
}

#[test]
fn a_row_holds_the_name_and_the_duration() {
    assert_eq!(episode_cells(&episode(true, None)), vec!["[x] Pilot", "22:15"]);
}

#[test]
fn frames_follow_the_active_pane() {
    let panes = [ActivePane::Shows, ActivePane::Seasons, ActivePane::Episodes];
    let widths = [[50, 25, 25], [25, 50, 25], [20, 20, 60]];
    let titles = [" Shows ", " Seasons ", " Episodes "];
    for (a, active) in panes.iter().enumerate() {
        let mut sum = 0;
        for (p, pane) in panes.iter().enumerate() {
            let frame = pane_frame(*pane, *active);
            assert_eq!(frame.width, widths[a][p]);
            assert_eq!(frame.title, titles[p]);
            let want = if a == p { Color::Yellow } else { Color::DarkGray };
            assert_eq!(frame.border, want);
            sum += frame.width;
        }
        assert_eq!(sum, 100);
    }
}

#[test]
fn a_client_without_shows_draws_nothing() {
    let screen = ui(&App::new(None));
    assert!(screen.shows.is_empty());
    assert!(screen.seasons.is_empty());
    assert!(screen.episodes.is_empty());
    assert_eq!(screen.status, " Connected to Jellyfin ");
    assert_eq!(screen.status_color, Color::Green);
    assert_eq!(screen.diag, "");
}

#[test]
fn what_is_to_come_is_announced() {
    let mut app = App::new(None);
    app.shows = vec![Show { id: "a".to_owned(), name: "Show A".to_owned() }];
    app.status_msg = Some("Status: 404 Not Found".to_owned());
    app.diag_msg = Some("Refreshing...".to_owned());
    let screen = ui(&app);
    assert_eq!(screen.shows, vec!["Show A"]);
    assert_eq!(screen.seasons, vec!["Loading..."]);
    assert_eq!(screen.episodes, vec![vec!["Loading...".to_owned()]]);
    assert_eq!(screen.status, " ERROR: Status: 404 Not Found ");
    assert_eq!(screen.status_color, Color::Red);
    assert_eq!(screen.diag, "Refreshing...");
}

#[test]
fn the_highlights_are_drawn() {
    let mut app = App::new(None);
    let screen = ui(&app);
    assert_eq!(screen.shows_selected, Some(0));
    assert_eq!(screen.seasons_selected, Some(0));
    assert_eq!(screen.episodes_selected, Some(0));
    app.shows_state = Some(3);
    app.seasons_state = None;
    app.episodes_state = Some(7);
    let screen = ui(&app);
    assert_eq!(screen.shows_selected, Some(3));
    assert_eq!(screen.seasons_selected, None);
    assert_eq!(screen.episodes_selected, Some(7));
}

#[test]
fn the_bar_and_the_columns_have_their_sizes() {
    let screen = ui(&App::new(None));
    assert_eq!(screen.duration_column, 6);
    assert_eq!(screen.bar_height, 1);
    assert_eq!(screen.bar_share, 50);
    assert_eq!(screen.diag_color, Color::DarkGray);
}

#[test]
fn known_episodes_are_drawn() {
    let mut app = App::new(None);
    app.shows = vec![Show { id: "a".to_owned(), name: "Show A".to_owned() }];
    app.episodes_cache
        .insert("a".to_owned(), vec![episode(false, Some(1)), episode(false, None)]);
    app.active_pane = ActivePane::Episodes;
    let screen = ui(&app);
    assert_eq!(screen.seasons, vec!["One"]);
    assert_eq!(
        screen.episodes,
        vec![
            vec!["[~] Pilot".to_owned(), "22:15".to_owned()],
            vec!["[ ] Pilot".to_owned(), "22:15".to_owned()],
        ]
    );
    assert_eq!(screen.episodes_frame.width, 60);
    assert_eq!(screen.episodes_frame.border, Color::Yellow);
    assert_eq!(screen.shows_frame.border, Color::DarkGray);
}
