//! What each key and each answer does, said of the fields of the client.
use vstd::prelude::*;

use crate::laws::a_toggle_changes_one_mark;
use crate::media::EpisodeView;
use crate::media::ShowView;
use crate::message::AppEventView;
use crate::message::Key;
use crate::message::WorkerActionView;
use crate::seasons::runs_begin_at;
use crate::seasons::season_episodes_carry_the_name;
use crate::seasons::season_names_are_the_runs;
use crate::seasons::season_names_cover_the_episodes;
use crate::seasons::season_positions;
use crate::seasons::season_positions_are_exact;
use crate::seasons::season_positions_count;
use crate::state::ActivePane;
use crate::state::AppView;

verus! {

/// A client begins at the top of everything, with nothing asked for and nothing
/// to tell, and knows what it is given.
pub proof fn a_client_begins_at_the_top(
    shows: Seq<ShowView>,
    episodes_cache: Map<Seq<char>, Seq<EpisodeView>>,
)
    ensures
        ({
            let app = AppView::start(shows, episodes_cache);
            &&& app.shows == shows
            &&& app.episodes_cache == episodes_cache
            &&& app.active_pane == ActivePane::Shows
            &&& !app.should_quit
            &&& forall|id: Seq<char>| !app.fetched_shows_this_session.contains(id)
            &&& app.shows_state == Some(0nat)
            &&& app.seasons_state == Some(0nat)
            &&& app.episodes_state == Some(0nat)
            &&& app.status_msg is None
            &&& app.diag_msg is None
        }),
{
}

/// The show that is acted on is the one at the highlight, and there is none where
/// the highlight is on no show.
pub proof fn the_show_at_the_highlight(app: AppView)
    ensures
        app.shows_state matches Some(i) ==> i < app.shows.len() ==> app.current_show() == Some(
            app.shows[i as int],
        ),
        app.shows_state matches Some(i) ==> i >= app.shows.len() ==> app.current_show() is None,
        app.shows_state is None ==> app.current_show() is None,
        app.current_show() matches Some(show) ==> app.shows.contains(show),
{
}

/// All episodes that are known of the show at the highlight are in reach: the
/// seasons are the unbroken runs of a name among them, and each episode is in a
/// season that is listed. Nothing is listed of a show of which nothing is known.
pub proof fn the_seasons_of_the_highlighted_show(app: AppView, i: nat)
    requires
        app.shows_state == Some(i),
    ensures
        ({
            let id = app.shows[i as int].id;
            if i < app.shows.len() && app.episodes_cache.contains_key(id) {
                let episodes = app.episodes_cache[id];
                &&& app.known_episodes() == Some(episodes)
                &&& exists|starts: Seq<int>|
                    runs_begin_at(episodes, app.current_seasons(), starts)
                &&& forall|e: int|
                    0 <= e < episodes.len() ==> app.current_seasons().contains(
                        (#[trigger] episodes[e]).season_name,
                    )
            } else {
                &&& app.known_episodes() is None
                &&& app.current_seasons() == Seq::<Seq<char>>::empty()
                &&& app.current_episodes() == Seq::<EpisodeView>::empty()
            }
        }),
{
    let id = app.shows[i as int].id;
    if i < app.shows.len() && app.episodes_cache.contains_key(id) {
        let episodes = app.episodes_cache[id];
        let starts = season_names_are_the_runs(episodes);
        season_names_cover_the_episodes(episodes);
        assert(runs_begin_at(episodes, app.current_seasons(), starts));
    }
}

/// The episodes in the list are all those of the highlighted show that carry the
/// name of the season at the highlight, in their order.
pub proof fn the_episodes_of_the_highlighted_season(app: AppView, i: nat, s: nat)
    requires
        app.shows_state == Some(i),
        app.seasons_state == Some(s),
        i < app.shows.len(),
        app.episodes_cache.contains_key(app.shows[i as int].id),
    ensures
        ({
            let episodes = app.episodes_cache[app.shows[i as int].id];
            let name = app.current_seasons()[s as int];
            if s < app.current_seasons().len() {
                &&& app.current_season() == Some(name)
                &&& app.current_episodes() == episodes.filter(
                    |e: EpisodeView| e.season_name == name,
                )
            } else {
                &&& app.current_season() is None
                &&& app.current_episodes() == Seq::<EpisodeView>::empty()
            }
        }),
{
    let episodes = app.episodes_cache[app.shows[i as int].id];
    if s < app.current_seasons().len() {
        season_episodes_carry_the_name(episodes, app.current_seasons()[s as int]);
    }
}

/// Without a highlight among the shows or the seasons there is nothing to act on.
pub proof fn nothing_is_listed_without_a_highlight(app: AppView)
    ensures
        app.shows_state is None ==> app.current_seasons() == Seq::<Seq<char>>::empty(),
        app.shows_state is None || app.seasons_state is None ==> app.current_episodes() == Seq::<
            EpisodeView,
        >::empty(),
{
}

/// Every known episode of the highlighted show can be played: there is a season
/// and a place in it under which the keys act on that episode.
pub proof fn every_episode_can_be_played(app: AppView, i: nat, e: int) -> (at: (nat, nat))
    requires
        app.shows_state == Some(i),
        i < app.shows.len(),
        app.episodes_cache.contains_key(app.shows[i as int].id),
        0 <= e < app.episodes_cache[app.shows[i as int].id].len(),
    ensures
        ({
            let there = AppView {
                active_pane: ActivePane::Episodes,
                seasons_state: Some(at.0),
                episodes_state: Some(at.1),
                ..app
            };
            there.handle_key(Key::Enter, true) == (
                there,
                Some(
                    WorkerActionView::PlayEpisode {
                        episode_id: app.episodes_cache[app.shows[i as int].id][e].id,
                    },
                ),
            )
        }),
{
    let episodes = app.episodes_cache[app.shows[i as int].id];
    let name = episodes[e].season_name;
    season_names_cover_the_episodes(episodes);
    let s = choose|s: int|
        0 <= s < app.current_seasons().len() && app.current_seasons()[s] == name;
    season_positions_are_exact(episodes, name);
    let positions = season_positions(episodes, name);
    assert(positions.contains(e));
    let k = choose|k: int| 0 <= k < positions.len() && positions[k] == e;
    let there = AppView {
        active_pane: ActivePane::Episodes,
        seasons_state: Some(s as nat),
        episodes_state: Some(k as nat),
        ..app
    };
    assert(there.current_seasons() == app.current_seasons());
    assert(there.current_season() == Some(name));
    assert(there.current_episodes()[k] == episodes[e]);
    (s as nat, k as nat)
}

/// The episode that the keys act on is the one at the highlight of the episodes
/// that are listed, while their pane is active, and otherwise none.
pub proof fn the_episode_at_the_highlight(app: AppView)
    ensures
        app.active_pane != ActivePane::Episodes ==> app.current_episode() is None,
        app.episodes_state is None ==> app.current_episode() is None,
        app.episodes_state matches Some(k) ==> k >= app.current_episodes().len()
            ==> app.current_episode() is None,
        app.episodes_state matches Some(k) ==> k < app.current_episodes().len() && app.active_pane
            == ActivePane::Episodes ==> app.current_episode() == Some(
            app.current_episodes()[k as int],
        ),
{
}

/// The arrow to the right goes from the shows to the seasons and from there to
/// the episodes, that to the left goes back, and neither changes anything else.
pub proof fn arrows_move_between_the_panes(app: AppView)
    ensures
        ({
            let (left, left_order) = app.handle_key(Key::Left, true);
            let (right, right_order) = app.handle_key(Key::Right, true);
            &&& left_order is None && right_order is None
            &&& left == (AppView { active_pane: left.active_pane, ..app })
            &&& right == (AppView { active_pane: right.active_pane, ..app })
            &&& app.active_pane == ActivePane::Shows ==> left.active_pane == ActivePane::Shows
                && right.active_pane == ActivePane::Seasons
            &&& app.active_pane == ActivePane::Seasons ==> left.active_pane == ActivePane::Shows
                && right.active_pane == ActivePane::Episodes
            &&& app.active_pane == ActivePane::Episodes ==> left.active_pane
                == ActivePane::Seasons && right.active_pane == ActivePane::Episodes
            &&& app.previous_pane() == left
            &&& app.next_pane() == right
        }),
{
}

/// The arrows to the right and to the left undo each other, save at the ends.
pub proof fn arrows_undo_each_other(app: AppView)
    ensures
        app.active_pane != ActivePane::Episodes ==> app.handle_key(Key::Right, true).0.handle_key(
            Key::Left,
            true,
        ) == (app, None::<WorkerActionView>),
        app.active_pane != ActivePane::Shows ==> app.handle_key(Key::Left, true).0.handle_key(
            Key::Right,
            true,
        ) == (app, None::<WorkerActionView>),
        app.active_pane == ActivePane::Episodes ==> app.handle_key(Key::Right, true).0 == app,
        app.active_pane == ActivePane::Shows ==> app.handle_key(Key::Left, true).0 == app,
{
}

/// `to` is where the highlight goes from `from` among `len` items: one further
/// down, or one further up, and at the end it stays. A highlight below the last
/// item comes down on the last one, and a missing one on the first.
pub open spec fn goes_to(from: Option<nat>, down: bool, len: nat, to: nat) -> bool {
    &&& from is None ==> to == 0
    &&& down ==> (to < len || to == 0)
    &&& from matches Some(i) ==> {
        &&& down && i + 1 < len ==> to == i + 1
        &&& down && 0 < len <= i + 1 ==> to + 1 == len
        &&& !down && i > 0 ==> to + 1 == i
        &&& !down && i == 0 ==> to == 0
    }
}

/// The key that moves the highlight down, or up.
pub open spec fn vertical(down: bool) -> Key {
    if down {
        Key::Down
    } else {
        Key::Up
    }
}

/// In the pane of the shows the arrows move the highlight of the shows. Under
/// another show the two other lists begin at the top and its episodes are asked
/// for, unless they were before; nothing else changes.
pub proof fn arrows_move_among_the_shows(app: AppView, down: bool)
    requires
        app.active_pane == ActivePane::Shows,
    ensures
        ({
            let (after, order) = app.handle_key(vertical(down), true);
            &&& after.shows_state matches Some(to) && goes_to(
                app.shows_state,
                down,
                app.shows.len(),
                to,
            )
            &&& after.shows_state == app.shows_state ==> after == app && order is None
            &&& after.shows_state != app.shows_state ==> {
                &&& after == AppView {
                    shows_state: after.shows_state,
                    seasons_state: Some(0),
                    episodes_state: Some(0),
                    fetched_shows_this_session: after.fetched_shows_this_session,
                    ..app
                }
                &&& asked_for_once(app, after, order)
            }
        }),
{
}

/// The episodes of the show at the highlight of `after` are asked for where they
/// were not before, that alone is kept of it, and where they were, or where there
/// is no show, nothing is.
pub open spec fn asked_for_once(
    before: AppView,
    after: AppView,
    order: Option<WorkerActionView>,
) -> bool {
    let was = before.fetched_shows_this_session;
    let is = after.fetched_shows_this_session;
    match after.shows_state {
        Some(i) if i < after.shows.len() && !was.contains(after.shows[i as int].id) => {
            &&& order == Some(
                WorkerActionView::FetchEpisodes {
                    show_id: after.shows[i as int].id,
                    is_reload: false,
                },
            )
            &&& is == was.insert(after.shows[i as int].id)
        },
        _ => order is None && is == was,
    }
}

/// In the pane of the seasons the arrows move the highlight of the seasons. Under
/// another season the episodes begin at the top; nothing else changes.
pub proof fn arrows_move_among_the_seasons(app: AppView, down: bool)
    requires
        app.active_pane == ActivePane::Seasons,
    ensures
        ({
            let (after, order) = app.handle_key(vertical(down), true);
            &&& order is None
            &&& after.seasons_state matches Some(to) && goes_to(
                app.seasons_state,
                down,
                app.current_seasons().len(),
                to,
            )
            &&& after.seasons_state == app.seasons_state ==> after == app
            &&& after.seasons_state != app.seasons_state ==> after == (AppView {
                seasons_state: after.seasons_state,
                episodes_state: Some(0),
                ..app
            })
        }),
{
}

/// In the pane of the episodes the arrows move the highlight of the episodes and
/// change nothing else.
pub proof fn arrows_move_among_the_episodes(app: AppView, down: bool)
    requires
        app.active_pane == ActivePane::Episodes,
    ensures
        ({
            let (after, order) = app.handle_key(vertical(down), true);
            &&& order is None
            &&& after.episodes_state matches Some(to) && goes_to(
                app.episodes_state,
                down,
                app.current_episodes().len(),
                to,
            )
            &&& after == (AppView { episodes_state: after.episodes_state, ..app })
        }),
{
}

/// The functions that the arrows act by do the same in each pane, without what
/// follows from the key.
pub proof fn moves_change_one_highlight(app: AppView, down: bool)
    ensures
        ({
            let after = if down {
                app.next_item()
            } else {
                app.previous_item()
            };
            match app.active_pane {
                ActivePane::Shows => {
                    &&& after == (AppView { shows_state: after.shows_state, ..app })
                    &&& after.shows_state matches Some(to) && goes_to(
                        app.shows_state,
                        down,
                        app.shows.len(),
                        to,
                    )
                },
                ActivePane::Seasons => {
                    &&& after == (AppView { seasons_state: after.seasons_state, ..app })
                    &&& after.seasons_state matches Some(to) && goes_to(
                        app.seasons_state,
                        down,
                        app.current_seasons().len(),
                        to,
                    )
                },
                ActivePane::Episodes => {
                    &&& after == (AppView { episodes_state: after.episodes_state, ..app })
                    &&& after.episodes_state matches Some(to) && goes_to(
                        app.episodes_state,
                        down,
                        app.current_episodes().len(),
                        to,
                    )
                },
            }
        }),
{
}

/// Enter and `s` play the episode at the highlight, change nothing, and do nothing
/// outside the episodes.
pub proof fn enter_plays_the_highlighted_episode(app: AppView, key: Key)
    requires
        key == Key::Enter || key == Key::Char('s'),
    ensures
        ({
            let (after, order) = app.handle_key(key, true);
            &&& after == app
            &&& match app.episodes_state {
                Some(k) if app.active_pane == ActivePane::Episodes && k
                    < app.current_episodes().len() => order == Some(
                    WorkerActionView::PlayEpisode {
                        episode_id: app.current_episodes()[k as int].id,
                    },
                ),
                _ => order is None,
            }
        }),
{
}

/// `at` is the episode at place `k` of those that carry the name `name`.
pub open spec fn is_place(episodes: Seq<EpisodeView>, name: Seq<char>, k: nat, at: int) -> bool {
    &&& 0 <= at < episodes.len()
    &&& episodes[at].season_name == name
    &&& episodes.take(at).filter(|e: EpisodeView| e.season_name == name).len() == k
}

/// The space bar turns over the played mark of the episode at the highlight: of
/// that one alone, among all episodes of the show found by its place in its
/// season, with nothing else of it changed. The server is told its id and the mark
/// it has now.
pub proof fn space_turns_one_mark_over(app: AppView, i: nat, s: nat, k: nat) -> (at: int)
    requires
        app.active_pane == ActivePane::Episodes,
        app.shows_state == Some(i),
        app.seasons_state == Some(s),
        app.episodes_state == Some(k),
        i < app.shows.len(),
        app.episodes_cache.contains_key(app.shows[i as int].id),
        s < app.current_seasons().len(),
        k < app.current_episodes().len(),
    ensures
        ({
            let (after, order) = app.handle_key(Key::Char(' '), true);
            let id = app.shows[i as int].id;
            let was = app.episodes_cache[id];
            let is = after.episodes_cache[id];
            &&& is_place(was, app.current_seasons()[s as int], k, at)
            &&& was[at] == app.current_episodes()[k as int]
            &&& after == (AppView { episodes_cache: after.episodes_cache, ..app })
            &&& after.episodes_cache.dom() == app.episodes_cache.dom()
            &&& forall|other: Seq<char>|
                other != id && app.episodes_cache.contains_key(other)
                    ==> #[trigger] after.episodes_cache[other] == app.episodes_cache[other]
            &&& is.len() == was.len()
            &&& forall|e: int| 0 <= e < was.len() && e != at ==> #[trigger] is[e] == was[e]
            &&& is[at] == (EpisodeView { played: !was[at].played, ..was[at] })
            &&& order == Some(
                WorkerActionView::TogglePlayed {
                    episode_id: was[at].id,
                    set_played: !was[at].played,
                },
            )
            &&& app.toggle_current_episode_played() == after
            &&& app.toggled_mark() == Some((was[at].id, !was[at].played))
        }),
{
    a_toggle_changes_one_mark(app);
    let name = app.current_seasons()[s as int];
    let was = app.episodes_cache[app.shows[i as int].id];
    season_positions_are_exact(was, name);
    season_positions_count(was, name, k as int);
    let (after, order) = app.handle_key(Key::Char(' '), true);
    assert(after.episodes_cache.dom() =~= app.episodes_cache.dom());
    app.current_position()
}

/// Where no episode is at the highlight, or another pane is active, the space bar
/// does nothing.
pub proof fn space_needs_a_highlighted_episode(app: AppView)
    requires
        app.active_pane != ActivePane::Episodes || app.episodes_state is None
            || app.episodes_state->0 >= app.current_episodes().len(),
    ensures
        app.handle_key(Key::Char(' '), true) == (app, None::<WorkerActionView>),
        app.toggle_current_episode_played() == app,
        app.toggled_mark() is None,
{
}

/// `r` asks for the episodes of the show at the highlight, whether they were asked
/// for or not, says so, and keeps that they were; without a show it does nothing.
pub proof fn r_loads_the_highlighted_show_again(app: AppView)
    ensures
        ({
            let (after, order) = app.handle_key(Key::Char('r'), true);
            match app.shows_state {
                Some(i) if i < app.shows.len() => {
                    &&& order == Some(
                        WorkerActionView::FetchEpisodes {
                            show_id: app.shows[i as int].id,
                            is_reload: true,
                        },
                    )
                    &&& after == AppView {
                        fetched_shows_this_session: app.fetched_shows_this_session.insert(
                            app.shows[i as int].id,
                        ),
                        diag_msg: Some("Refreshing..."@),
                        ..app
                    }
                },
                _ => after == app && order is None,
            }
        }),
{
}

/// `q` and the escape key end the client, and change nothing else.
pub proof fn q_ends_the_client(app: AppView, key: Key)
    requires
        key == Key::Esc || key == Key::Char('q'),
    ensures
        app.handle_key(key, true) == (
            AppView { should_quit: true, ..app },
            None::<WorkerActionView>,
        ),
        app.quit() == (AppView { should_quit: true, ..app }),
{
}

/// A key without a meaning does nothing, and neither does one that is not going
/// down.
pub proof fn other_keys_do_nothing(app: AppView, key: Key, pressed: bool)
    requires
        !pressed || key == Key::Other || (key matches Key::Char(c) && c != 'q' && c != ' ' && c
            != 's' && c != 'r'),
    ensures
        app.handle_key(key, pressed) == (app, None::<WorkerActionView>),
{
}

/// The list of shows that comes in takes the place of the old one and of an error;
/// the highlight stays, and the episodes of the show under it are asked for,
/// unless they were before.
pub proof fn shows_that_come_in(app: AppView, shows: Seq<ShowView>)
    ensures
        ({
            let (after, order) = app.handle_event(AppEventView::ShowsLoaded(shows));
            &&& after == AppView {
                shows,
                status_msg: None,
                fetched_shows_this_session: after.fetched_shows_this_session,
                ..app
            }
            &&& asked_for_once(app, after, order)
        }),
{
}

/// Episodes that come in take the place of those that were known of their show,
/// and of an error. They are then not asked for again.
pub proof fn episodes_that_come_in(app: AppView, show_id: Seq<char>, episodes: Seq<EpisodeView>)
    ensures
        ({
            let (after, order) = app.handle_event(
                AppEventView::EpisodesLoaded { show_id, episodes },
            );
            &&& order is None
            &&& after == AppView {
                episodes_cache: app.episodes_cache.insert(show_id, episodes),
                fetched_shows_this_session: app.fetched_shows_this_session.insert(show_id),
                status_msg: None,
                ..app
            }
        }),
{
}

/// An error and the end of a reload change the message they are about, and
/// nothing else.
pub proof fn messages_that_come_in(app: AppView, text: Seq<char>)
    ensures
        app.handle_event(AppEventView::Error(text)) == (
            AppView { status_msg: Some(text), ..app },
            None::<WorkerActionView>,
        ),
        app.handle_event(AppEventView::EpisodesReloaded) == (
            AppView { diag_msg: None, ..app },
            None::<WorkerActionView>,
        ),
{
}

} // verus!
