use jellytui::media::TICKS_PER_SECOND;
use jellytui::network::{Method, Reply, Server};
use jellytui::playback::{
    closing_log, opening_log, player_args, progress_failure_log, progress_log, progress_reply_log,
    resume_log, resume_seconds, resume_ticks, spawn_failure_log, Monitor, Reading,
};

fn server() -> Server {
    Server {
        url: "http://host".to_owned(),
        api_key: "key".to_owned(),
        user_id: "user".to_owned(),
    }
}

fn position(reading: Reading) -> String {
    match reading {
        Reading::Position(text) => text,
        other => panic!("{other:?}"),
    }
}

#[test]
fn addresses_of_an_episode() {
    let id = "e1".to_owned();
    assert_eq!(server().stream_url(&id), "http://host/Items/e1/Download?api_key=key");
    let request = server().item_request(&id);
    assert_eq!(request.method, Method::Get);
    assert_eq!(request.url, "http://host/Users/user/Items/e1");
    assert!(request.query.is_empty());
}

#[test]
fn progress_is_told_in_ticks() {
    let id = "e1".to_owned();
    let request = server().progress_request(&id, 90).unwrap();
    assert_eq!(request.method, Method::Delete);
    assert_eq!(
        request.url,
        "http://host/Users/user/PlayingItems/e1?PositionTicks=900000000"
    );
    assert_eq!(request.authorization, "MediaBrowser Token=\"key\"");
    assert!(server().progress_request(&id, 0).is_none());
    let most = u64::MAX / TICKS_PER_SECOND;
    let request = server().progress_request(&id, most).unwrap();
    assert!(request.url.ends_with("?PositionTicks=18446744073700000000"));
}

#[test]
fn the_resume_point_is_read_from_the_answer() {
    let ticks = |body: &str| resume_ticks(body.as_bytes());
    assert_eq!(ticks(r#"{"UserData":{"PlaybackPositionTicks":900000000}}"#), Some(900_000_000));
    assert_eq!(ticks(r#"{"Id":"x","UserData":{"Played":true}}"#), None);
    assert_eq!(ticks(r#"{"PlaybackPositionTicks":5}"#), None);
    assert_eq!(ticks(r#"{"UserData":7}"#), None);
    assert_eq!(ticks(r#"{"UserData":{"PlaybackPositionTicks":-1}}"#), None);
    assert_eq!(ticks(r#"{"UserData":{"PlaybackPositionTicks":1.5}}"#), None);
    assert_eq!(ticks("[]"), None);
    assert_eq!(ticks("no json"), None);
    assert_eq!(ticks(""), None);
}

#[test]
fn an_episode_begins_where_it_was_stopped() {
    assert_eq!(resume_seconds(None), 0);
    assert_eq!(resume_seconds(Some(0)), 0);
    assert_eq!(resume_seconds(Some(9_999_999)), 0);
    assert_eq!(resume_seconds(Some(10_000_000)), 1);
    assert_eq!(resume_seconds(Some(900_000_000)), 90);
    for seconds in [1, 15, 3600, u64::MAX / TICKS_PER_SECOND] {
        assert_eq!(resume_seconds(Some(seconds * TICKS_PER_SECOND)), seconds);
    }
}

#[test]
fn the_player_is_started_with_its_arguments() {
    let always = ["u", "--fs", "--terminal=yes", "--term-status-msg=STATUS:${=time-pos}"];
    assert_eq!(player_args("u".to_owned(), 0), always);
    let args = player_args("u".to_owned(), 90);
    assert_eq!(args[..4], always);
    assert_eq!(args[4..], ["--start=90"]);
}

#[test]
fn the_last_position_is_read() {
    let mut monitor = Monitor::new();
    let piece = |text: &str| text.as_bytes().to_vec();
    assert!(matches!(monitor.read(&piece("starting\r")), Reading::Silent));
    assert_eq!(position(monitor.read(&piece("STATUS: 1.25\r"))), "1.25");
    assert_eq!(position(monitor.read(&piece("STATUS:16.5\n\r"))), "16.5");
    assert_eq!(position(monitor.read(&piece("something else\r"))), "16.5");
    assert!(matches!(monitor.read(&vec![]), Reading::Ended));
    assert_eq!(monitor.last_reported_time, 0);
    assert!(monitor.output.ends_with(b"something else\r"));
}

#[test]
fn a_status_in_two_pieces_is_put_together() {
    let mut monitor = Monitor::new();
    assert!(matches!(monitor.read(&b"STAT".to_vec()), Reading::Silent));
    assert_eq!(position(monitor.read(&b"US:7".to_vec())), "7");
    assert_eq!(position(monitor.read(&b"7\r".to_vec())), "77");
}

#[test]
fn output_that_is_no_text_is_noticed() {
    let mut monitor = Monitor::new();
    assert!(matches!(monitor.read(&vec![b'a', 0xff]), Reading::Garbled));
    assert!(matches!(monitor.read(&vec![]), Reading::Garbled));
    let mut monitor = Monitor::new();
    assert!(matches!(monitor.read(&vec![0xc3]), Reading::Garbled));
    assert!(matches!(monitor.read(&vec![0xa9]), Reading::Silent));
}

#[test]
fn progress_is_reported_at_intervals() {
    let mut monitor = Monitor::new();
    let told = [0, 14, 15, 16, 29, 30, 10, 40, 44, 100, u64::MAX, 3];
    let reported: Vec<u64> = told.into_iter().filter(|s| monitor.report(*s)).collect();
    assert_eq!(reported, vec![15, 30, 100, u64::MAX]);
    assert_eq!(monitor.last_reported_time, u64::MAX);
}

#[test]
fn the_player_begins_where_the_server_says() {
    let id = "e1".to_owned();
    let url = "http://host/Items/e1/Download?api_key=key";
    let args = server().play_args(&id, Some(900_000_000));
    assert_eq!(args[0], url);
    assert_eq!(args[4..], ["--start=90"]);
    assert_eq!(server().play_args(&id, Some(9_999_999)).len(), 4);
    assert_eq!(server().play_args(&id, None), player_args(url.to_owned(), 0));
}

#[test]
fn a_report_that_is_due_has_its_request() {
    let id = "e1".to_owned();
    let mut monitor = Monitor::new();
    assert!(!monitor.due(14));
    assert!(monitor.progress(&server(), &id, 14).is_none());
    assert!(monitor.due(15));
    let request = monitor.progress(&server(), &id, 15).unwrap();
    assert_eq!(request.method, Method::Delete);
    assert_eq!(
        request.url,
        "http://host/Users/user/PlayingItems/e1?PositionTicks=150000000"
    );
    assert_eq!(monitor.last_reported_time, 15);
    assert!(monitor.progress(&server(), &id, 29).is_none());
    assert_eq!(monitor.last_reported_time, 15);
}

#[test]
fn sessions_are_logged() {
    assert_eq!(opening_log(), "\n--- STARTING NEW MPV SESSION ---");
    assert_eq!(closing_log(), "--- MPV SESSION ENDED ---");
    assert_eq!(resume_log(None), None);
    assert_eq!(
        resume_log(Some(905_000_000)),
        Some("Found resume point at 90 seconds (905000000 ticks)".to_owned())
    );
    assert_eq!(
        spawn_failure_log(&"not found".to_owned()),
        "CRITICAL: Failed to spawn mpv: not found"
    );
}

#[test]
fn reports_of_progress_are_logged() {
    let line = "Sent final stop tick at 15 sec | Jellyfin Status: 204 No Content";
    assert_eq!(progress_log(15, &"204 No Content".to_owned()), line);
    assert_eq!(progress_reply_log(15, &Reply::Answered { status: 204, items: None }), line);
    let failed = "Failed to send stop tick: timed out";
    assert_eq!(progress_failure_log(&"timed out".to_owned()), failed);
    assert_eq!(progress_reply_log(15, &Reply::Failed("timed out".to_owned())), failed);
}

#[test]
fn a_number_is_read_as_it_was_written() {
    for number in ["10.0", "0.000000", "-0.5", "7"] {
        let mut monitor = Monitor::new();
        let piece = format!("STATUS:1\rSTATUS:{number}\r").into_bytes();
        assert_eq!(position(monitor.read(&piece)), number);
    }
}
