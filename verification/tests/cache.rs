use jellytui::app::App;
use jellytui::cache::{AppCache, CacheEntry, EpisodeCache};
use jellytui::media::{Episode, Show};

fn episode(id: &str) -> Episode {
    Episode {
        id: id.to_owned(),
        name: format!("name of {id}"),
        season_name: "Season 1".to_owned(),
        played: false,
        run_time_ticks: 0,
        playback_position_ticks: None,
    }
}

fn ids(cache: &EpisodeCache, show: &str) -> Option<Vec<String>> {
    cache
        .get(&show.to_owned())
        .map(|v| v.iter().map(|e| e.id.clone()).collect())
}

#[test]
fn what_is_inserted_is_found_again() {
    let mut cache = EpisodeCache::new();
    assert_eq!(ids(&cache, "a"), None);
    cache.insert("a".to_owned(), vec![episode("1")]);
    cache.insert("b".to_owned(), vec![episode("2"), episode("3")]);
    assert_eq!(ids(&cache, "a"), Some(vec!["1".to_owned()]));
    assert_eq!(ids(&cache, "b"), Some(vec!["2".to_owned(), "3".to_owned()]));
    assert_eq!(ids(&cache, "c"), None);
}

#[test]
fn a_show_occurs_once() {
    let mut cache = EpisodeCache::new();
    cache.insert("a".to_owned(), vec![episode("1")]);
    cache.insert("b".to_owned(), vec![]);
    cache.insert("a".to_owned(), vec![episode("9")]);
    assert_eq!(cache.entries().len(), 2);
    assert_eq!(ids(&cache, "a"), Some(vec!["9".to_owned()]));
    assert_eq!(ids(&cache, "b"), Some(vec![]));
}

#[test]
fn of_two_entries_the_later_counts() {
    let entries = vec![
        CacheEntry { show_id: "a".to_owned(), episodes: vec![episode("1")] },
        CacheEntry { show_id: "a".to_owned(), episodes: vec![episode("2")] },
    ];
    let cache = EpisodeCache::from_entries(&entries);
    assert_eq!(cache.entries().len(), 1);
    assert_eq!(ids(&cache, "a"), Some(vec!["2".to_owned()]));
}

#[test]
fn a_mark_is_turned_over_in_place() {
    let mut cache = EpisodeCache::new();
    cache.insert("a".to_owned(), vec![episode("1"), episode("2")]);
    cache.insert("b".to_owned(), vec![episode("1")]);
    assert_eq!(cache.toggle_played(&"a".to_owned(), 1), ("2".to_owned(), true));
    let played: Vec<bool> = cache.get(&"a".to_owned()).unwrap().iter().map(|e| e.played).collect();
    assert_eq!(played, vec![false, true]);
    assert!(!cache.get(&"b".to_owned()).unwrap()[0].played);
    assert_eq!(cache.toggle_played(&"a".to_owned(), 1), ("2".to_owned(), false));
}

#[test]
fn a_copy_holds_the_same() {
    let mut cache = EpisodeCache::new();
    cache.insert("a".to_owned(), vec![episode("1")]);
    let copy = cache.clone();
    cache.insert("a".to_owned(), vec![]);
    assert_eq!(ids(&copy, "a"), Some(vec!["1".to_owned()]));
    assert_eq!(copy.get(&"a".to_owned()).unwrap()[0].name, "name of 1");
}

#[test]
fn a_run_begins_with_what_the_last_one_kept() {
    let mut app = App::new(None);
    assert!(app.shows.is_empty());
    app.shows = vec![Show { id: "a".to_owned(), name: "Show A".to_owned() }];
    app.episodes_cache.insert("a".to_owned(), vec![episode("1")]);
    assert!(app.finish().is_none());
    app.quit();
    let kept = app.finish().unwrap();
    let next = App::new(Some(kept));
    assert!(!next.should_quit);
    assert_eq!(next.shows.len(), 1);
    assert_eq!(next.shows[0].id, "a");
    assert_eq!(next.shows[0].name, "Show A");
    assert_eq!(ids(&next.episodes_cache, "a"), Some(vec!["1".to_owned()]));
    assert_eq!(next.shows_state, Some(0));
    assert_eq!(next.seasons_state, Some(0));
    assert_eq!(next.episodes_state, Some(0));
}

#[test]
fn what_is_kept_is_a_copy() {
    let shows = vec![Show { id: "x".to_owned(), name: "X".to_owned() }];
    let kept = AppCache::of(&shows, &EpisodeCache::new());
    assert_eq!(kept.shows[0].id, "x");
    assert_eq!(kept.episodes_cache.entries().len(), 0);
}
