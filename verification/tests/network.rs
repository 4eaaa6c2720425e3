use jellytui::message::{AppEvent, WorkerAction};
use jellytui::network::{
    episodes_reply, is_success, parse_switch, refusal, shows_reply, JellyfinItem, JellyfinUserData, Method,
    Reply, Request, Server, Task,
};

fn server() -> Server {
    Server {
        url: "http://host:8096".to_owned(),
        api_key: "key".to_owned(),
        user_id: "user".to_owned(),
    }
}

fn item(id: &str, season: Option<&str>, data: Option<JellyfinUserData>) -> JellyfinItem {
    JellyfinItem {
        id: id.to_owned(),
        name: format!("name of {id}"),
        season_name: season.map(str::to_owned),
        user_data: data,
        run_time_ticks: 42,
    }
}

fn pairs(request: &Request) -> Vec<(&str, &str)> {
    request.query.iter().map(|(a, b)| (a.as_str(), b.as_str())).collect()
}

fn error_of(events: Vec<AppEvent>) -> String {
    assert_eq!(events.len(), 1);
    match events.into_iter().next() {
        Some(AppEvent::Error(text)) => text,
        other => panic!("{other:?}"),
    }
}

#[test]
fn the_header_holds_the_key() {
    assert_eq!(server().auth_header(), "MediaBrowser Token=\"key\"");
}

#[test]
fn shows_are_asked_for_by_name() {
    match server().task(WorkerAction::FetchShows) {
        Task::LoadShows(request) => {
            assert_eq!(request.method, Method::Get);
            assert_eq!(request.url, "http://host:8096/Users/user/Items");
            assert_eq!(
                pairs(&request),
                vec![
                    ("IncludeItemTypes", "Series"),
                    ("Recursive", "true"),
                    ("enableImages", "false"),
                    ("enableUserData", "false"),
                    ("SortBy", "SortName"),
                ]
            );
            assert_eq!(request.authorization, "MediaBrowser Token=\"key\"");
        }
        other => panic!("{other:?}"),
    }
}

#[test]
fn episodes_are_asked_for_with_the_user() {
    let action = WorkerAction::FetchEpisodes { show_id: "s1".to_owned(), is_reload: true };
    match server().task(action) {
        Task::LoadEpisodes { request, show_id, is_reload } => {
            assert_eq!(request.method, Method::Get);
            assert_eq!(request.url, "http://host:8096/Shows/s1/Episodes");
            assert_eq!(pairs(&request), vec![("UserId", "user")]);
            assert_eq!(request.authorization, "MediaBrowser Token=\"key\"");
            assert_eq!(show_id, "s1");
            assert!(is_reload);
        }
        other => panic!("{other:?}"),
    }
}

#[test]
fn marks_are_set_by_post_and_taken_away_by_delete() {
    for (set_played, method) in [(true, Method::Post), (false, Method::Delete)] {
        let action = WorkerAction::TogglePlayed { episode_id: "e1".to_owned(), set_played };
        match server().task(action) {
            Task::Send(request) => {
                assert_eq!(request.method, method);
                assert_eq!(request.url, "http://host:8096/Users/user/PlayedItems/e1");
                assert!(request.query.is_empty());
                assert_eq!(request.authorization, "MediaBrowser Token=\"key\"");
            }
            other => panic!("{other:?}"),
        }
    }
}

#[test]
fn an_order_to_play_is_passed_on() {
    match server().task(WorkerAction::PlayEpisode { episode_id: "e1".to_owned() }) {
        Task::Play { episode_id } => assert_eq!(episode_id, "e1"),
        other => panic!("{other:?}"),
    }
}

#[test]
fn items_become_shows() {
    let reply = Reply::Answered {
        status: 200,
        items: Some(vec![item("a", None, None), item("b", Some("x"), None)]),
    };
    match shows_reply(reply).as_slice() {
        [AppEvent::ShowsLoaded(shows)] => {
            let got: Vec<_> = shows.iter().map(|s| (s.id.as_str(), s.name.as_str())).collect();
            assert_eq!(got, vec![("a", "name of a"), ("b", "name of b")]);
        }
        other => panic!("{other:?}"),
    }
}

#[test]
fn items_become_episodes() {
    let data = JellyfinUserData { played: true, playback_position_ticks: 7 };
    let reply = Reply::Answered {
        status: 204,
        items: Some(vec![item("a", Some("One"), Some(data)), item("b", None, None)]),
    };
    match episodes_reply("s".to_owned(), false, reply).as_slice() {
        [AppEvent::EpisodesLoaded { show_id, episodes }] => {
            assert_eq!(show_id, "s");
            assert_eq!(episodes.len(), 2);
            assert_eq!(episodes[0].id, "a");
            assert_eq!(episodes[0].name, "name of a");
            assert_eq!(episodes[0].season_name, "One");
            assert!(episodes[0].played);
            assert_eq!(episodes[0].run_time_ticks, 42);
            assert_eq!(episodes[0].playback_position_ticks, Some(7));
            assert_eq!(episodes[1].season_name, "Unknown Season");
            assert!(!episodes[1].played);
            assert_eq!(episodes[1].playback_position_ticks, None);
        }
        other => panic!("{other:?}"),
    }
}

#[test]
fn a_reload_is_reported_as_over() {
    let reply = Reply::Answered { status: 200, items: Some(vec![]) };
    match episodes_reply("s".to_owned(), true, reply).as_slice() {
        [AppEvent::EpisodesLoaded { show_id, episodes }, AppEvent::EpisodesReloaded] => {
            assert_eq!(show_id, "s");
            assert!(episodes.is_empty());
        }
        other => panic!("{other:?}"),
    }
}

#[test]
fn a_body_that_cannot_be_read_is_passed_over() {
    assert!(shows_reply(Reply::Answered { status: 200, items: None }).is_empty());
    let reply = Reply::Answered { status: 200, items: None };
    assert!(episodes_reply("s".to_owned(), true, reply).is_empty());
}

#[test]
fn a_status_without_success_is_an_error() {
    let error = |status| error_of(shows_reply(Reply::Answered { status, items: None }));
    assert_eq!(error(404), "Status: 404 Not Found");
    assert_eq!(error(500), "Status: 500 Internal Server Error");
    assert_eq!(error(401), "Status: 401 Unauthorized");
    assert_eq!(error(599), "Status: 599 <unknown status code>");
    let reply = Reply::Answered { status: 300, items: Some(vec![]) };
    let events = episodes_reply("s".to_owned(), true, reply);
    assert_eq!(error_of(events), "Status: 300 Multiple Choices");
}

#[test]
fn a_refusal_names_the_status() {
    assert_eq!(refusal(&"418 I'm a teapot".to_owned()), "Status: 418 I'm a teapot");
}

#[test]
fn a_request_without_answer_is_an_error() {
    let failed = || Reply::Failed("connection refused".to_owned());
    assert_eq!(error_of(shows_reply(failed())), "connection refused");
    let events = episodes_reply("s".to_owned(), true, failed());
    assert_eq!(error_of(events), "connection refused");
}

#[test]
fn success_is_from_200_to_299() {
    for code in 100..=999 {
        assert_eq!(is_success(code), (200..300).contains(&code));
    }
}

#[test]
fn a_switch_is_true_or_false() {
    assert_eq!(parse_switch(&"true".to_owned()), Some(true));
    assert_eq!(parse_switch(&"false".to_owned()), Some(false));
    assert_eq!(parse_switch(&"True".to_owned()), None);
    assert_eq!(parse_switch(&"1".to_owned()), None);
    assert_eq!(parse_switch(&String::new()), None);
}
