//! What holds of the client whatever is done with it.
use vstd::prelude::*;

use crate::media::EpisodeView;
use crate::media::ShowView;
use crate::message::AppEventView;
use crate::message::Key;
use crate::message::WorkerActionView;
use crate::network::episodes_events;
use crate::network::items_episodes;
use crate::network::ReplyView;
use crate::seasons::season_names_cover_the_episodes;
use crate::seasons::season_positions_are_exact;
use crate::seasons::seasons_depend_on_names_alone;
use crate::state::ActivePane;
use crate::state::AppView;

verus! {

/// The highlight in the active pane.
pub open spec fn highlight(app: AppView) -> Option<nat> {
    match app.active_pane {
        ActivePane::Shows => app.shows_state,
        ActivePane::Seasons => app.seasons_state,
        ActivePane::Episodes => app.episodes_state,
    }
}

/// The number of items in the active pane.
pub open spec fn item_count(app: AppView) -> nat {
    match app.active_pane {
        ActivePane::Shows => app.shows.len(),
        ActivePane::Seasons => app.current_seasons().len(),
        ActivePane::Episodes => app.current_episodes().len(),
    }
}

/// Moving down always ends on an item where there is one, and moving up never
/// leaves the items.
pub proof fn moves_stay_on_the_items(app: AppView)
    requires
        item_count(app) > 0,
    ensures
        highlight(app.next_item()) is Some,
        highlight(app.next_item())->0 < item_count(app.next_item()),
        (highlight(app) is None || highlight(app)->0 < item_count(app)) ==> highlight(
            app.previous_item(),
        ) is Some && highlight(app.previous_item())->0 < item_count(app.previous_item()),
        item_count(app.next_item()) == item_count(app),
        item_count(app.previous_item()) == item_count(app),
{
}

/// Moving down and up again changes nothing, save at the last item, where moving
/// down is nothing.
pub proof fn up_undoes_down(app: AppView)
    requires
        highlight(app) is Some,
        highlight(app)->0 < item_count(app),
    ensures
        highlight(app)->0 + 1 < item_count(app) ==> app.next_item().previous_item() == app,
        highlight(app)->0 + 1 == item_count(app) ==> app.next_item() == app,
{
}

/// Moving up and down again changes nothing, save at the first item, where moving
/// up is nothing.
pub proof fn down_undoes_up(app: AppView)
    requires
        highlight(app) is Some,
        highlight(app)->0 < item_count(app),
    ensures
        highlight(app)->0 > 0 ==> app.previous_item().next_item() == app,
        highlight(app)->0 == 0 ==> app.previous_item() == app,
{
}

/// The client after `m` moves down.
pub open spec fn moved_down(app: AppView, m: nat) -> AppView
    decreases m,
{
    if m == 0 {
        app
    } else {
        moved_down(app, (m - 1) as nat).next_item()
    }
}

/// `m` moves down from the top reach the item at `m`, or the last one where there
/// are not so many.
pub proof fn moves_down_add_up(app: AppView, m: nat)
    requires
        highlight(app) == Some(0nat),
        item_count(app) > 0,
    ensures
        highlight(moved_down(app, m)) == Some(
            if m < item_count(app) {
                m
            } else {
                (item_count(app) - 1) as nat
            },
        ),
        moved_down(app, m).active_pane == app.active_pane,
        item_count(moved_down(app, m)) == item_count(app),
    decreases m,
{
    if m > 0 {
        moves_down_add_up(app, (m - 1) as nat);
        moves_stay_on_the_items(moved_down(app, (m - 1) as nat));
    }
}

/// Going to the next pane and back changes nothing, and the outermost panes are
/// where going on ends.
pub proof fn panes_undo_each_other(app: AppView)
    ensures
        app.active_pane != ActivePane::Episodes ==> app.next_pane().previous_pane() == app,
        app.active_pane != ActivePane::Shows ==> app.previous_pane().next_pane() == app,
        app.active_pane == ActivePane::Episodes ==> app.next_pane() == app,
        app.active_pane == ActivePane::Shows ==> app.previous_pane() == app,
{
}

/// A season that is highlighted has episodes.
pub proof fn a_season_has_episodes(app: AppView)
    requires
        app.current_season() is Some,
    ensures
        app.current_episodes().len() > 0,
{
    season_names_cover_the_episodes(app.known_episodes()->0);
    assert(app.current_seasons()[app.seasons_state->0 as int] == app.current_season()->0);
}

/// Turning a mark over changes that mark and nothing else: not another episode of
/// the show, not another show, not what is highlighted.
pub proof fn a_toggle_changes_one_mark(app: AppView)
    requires
        app.current_episode() is Some,
    ensures
        ({
            let after = app.toggle_current_episode_played();
            let at = app.current_position();
            let show_id = app.current_show()->0.id;
            &&& after == AppView { episodes_cache: after.episodes_cache, ..app }
            &&& 0 <= at < app.known_episodes()->0.len()
            &&& app.known_episodes()->0[at] == app.current_episode()->0
            &&& after.known_episodes() == Some(
                app.known_episodes()->0.update(at, app.current_episode()->0.toggled()),
            )
            &&& after.current_seasons() == app.current_seasons()
            &&& after.current_episodes() == app.current_episodes().update(
                app.episodes_state->0 as int,
                app.current_episode()->0.toggled(),
            )
            &&& after.current_episode() == Some(app.current_episode()->0.toggled())
            &&& after.current_position() == at
            &&& forall|id: Seq<char>|
                id != show_id ==> (#[trigger] after.episodes_cache.contains_key(id)
                    == app.episodes_cache.contains_key(id)) && (app.episodes_cache.contains_key(id)
                    ==> after.episodes_cache[id] == app.episodes_cache[id])
        }),
{
    let after = app.toggle_current_episode_played();
    let all = app.known_episodes()->0;
    let season = app.current_season()->0;
    let i = app.episodes_state->0 as int;
    let at = app.current_position();
    season_positions_are_exact(all, season);
    let changed = all.update(at, app.current_episode()->0.toggled());
    seasons_depend_on_names_alone(all, changed);
    assert(after.known_episodes() == Some(changed));
    assert(after.current_seasons() == app.current_seasons());
    assert(after.current_season() == app.current_season());
    assert(after.current_episodes() =~= app.current_episodes().update(
        i,
        app.current_episode()->0.toggled(),
    ));
}

/// Turning a mark over twice changes nothing, and tells the server first the one
/// and then the other of the same episode.
pub proof fn a_toggle_undoes_itself(app: AppView)
    ensures
        app.toggle_current_episode_played().toggle_current_episode_played() == app,
        app.toggled_mark() matches Some((id, played))
            ==> app.toggle_current_episode_played().toggled_mark() == Some((id, !played)),
{
    if app.current_episode() is Some {
        a_toggle_changes_one_mark(app);
        let once = app.toggle_current_episode_played();
        let twice = once.toggle_current_episode_played();
        assert(twice.episodes_cache[app.current_show()->0.id] =~= app.known_episodes()->0);
        assert(twice.episodes_cache =~= app.episodes_cache);
    }
}

/// What the space bar tells the server is what is drawn after it, and it acts on
/// the episode that the other keys would play.
pub proof fn the_server_is_told_what_is_shown(app: AppView)
    ensures
        ({
            let (after, order) = app.handle_key(Key::Char(' '), true);
            match order {
                Some(WorkerActionView::TogglePlayed { episode_id, set_played }) => {
                    &&& after.current_episode() is Some
                    &&& after.current_episode()->0.id == episode_id
                    &&& after.current_episode()->0.played == set_played
                    &&& app.handle_key(Key::Enter, true).1 == Some(
                        WorkerActionView::PlayEpisode { episode_id },
                    )
                },
                Some(_) => false,
                None => after == app && app.handle_key(Key::Enter, true).1 is None,
            }
        }),
{
    if app.current_episode() is Some {
        a_toggle_changes_one_mark(app);
    }
}

/// Keys act on an episode only while the pane of the episodes is active.
pub proof fn episodes_are_touched_in_their_pane_alone(app: AppView, key: Key, pressed: bool)
    ensures
        ({
            let (after, order) = app.handle_key(key, pressed);
            app.active_pane != ActivePane::Episodes ==> {
                &&& after.episodes_cache == app.episodes_cache
                &&& !(order matches Some(WorkerActionView::TogglePlayed { .. }))
                &&& !(order matches Some(WorkerActionView::PlayEpisode { .. }))
            }
        }),
{
}

/// Under another show the seasons and the episodes begin at the top, and under
/// another season the episodes do.
pub proof fn what_is_new_begins_at_the_top(app: AppView, key: Key, pressed: bool)
    ensures
        ({
            let (after, order) = app.handle_key(key, pressed);
            &&& after.shows_state != app.shows_state ==> after.seasons_state == Some(0nat)
                && after.episodes_state == Some(0nat)
            &&& after.seasons_state != app.seasons_state ==> after.episodes_state == Some(0nat)
        }),
{
}

/// Only the two keys that end the client end it, and they do nothing else. A key
/// that is not going down does nothing at all.
pub proof fn the_client_ends_by_its_keys_alone(app: AppView, key: Key, pressed: bool)
    ensures
        ({
            let (after, order) = app.handle_key(key, pressed);
            let ends = pressed && (key == Key::Esc || key == Key::Char('q'));
            &&& after.should_quit == (app.should_quit || ends)
            &&& ends ==> after == (AppView { should_quit: true, ..app }) && order is None
            &&& !pressed ==> after == app && order is None
        }),
{
}

/// What the client acts on: a key, or an answer of the network worker.
pub enum Input {
    Key { key: Key, pressed: bool },
    Event(AppEventView),
}

/// One step of the client.
pub open spec fn step(app: AppView, input: Input) -> (AppView, Option<WorkerActionView>) {
    match input {
        Input::Key { key, pressed } => app.handle_key(key, pressed),
        Input::Event(event) => app.handle_event(event),
    }
}

/// The client after the first `n` of a series of inputs.
pub open spec fn after_inputs(app: AppView, inputs: Seq<Input>, n: nat) -> AppView
    decreases n,
{
    if n == 0 {
        app
    } else {
        step(after_inputs(app, inputs, (n - 1) as nat), inputs[n - 1]).0
    }
}

/// The order that the input at `i` of a series makes.
pub open spec fn order_at(app: AppView, inputs: Seq<Input>, i: nat) -> Option<WorkerActionView> {
    step(after_inputs(app, inputs, i), inputs[i as int]).1
}

/// The order asks for the episodes of a show.
pub open spec fn asks_for(
    order: Option<WorkerActionView>,
    id: Seq<char>,
    reload: bool,
) -> bool {
    order == Some(WorkerActionView::FetchEpisodes { show_id: id, is_reload: reload })
}

proof fn a_step_remembers_what_was_asked_for(app: AppView, input: Input, id: Seq<char>)
    ensures
        app.fetched_shows_this_session.subset_of(step(app, input).0.fetched_shows_this_session),
        asks_for(step(app, input).1, id, false) ==> !app.fetched_shows_this_session.contains(id),
        (asks_for(step(app, input).1, id, false) || asks_for(step(app, input).1, id, true))
            ==> step(app, input).0.fetched_shows_this_session.contains(id),
        input matches Input::Event(AppEventView::EpisodesLoaded { show_id, .. }) ==> step(
            app,
            input,
        ).0.fetched_shows_this_session.contains(show_id),
{
}

proof fn inputs_forget_nothing(app: AppView, inputs: Seq<Input>, i: nat, j: nat)
    requires
        i <= j,
    ensures
        after_inputs(app, inputs, i).fetched_shows_this_session.subset_of(
            after_inputs(app, inputs, j).fetched_shows_this_session,
        ),
    decreases j,
{
    if i < j {
        inputs_forget_nothing(app, inputs, i, (j - 1) as nat);
        a_step_remembers_what_was_asked_for(
            after_inputs(app, inputs, (j - 1) as nat),
            inputs[j - 1],
            Seq::empty(),
        );
    }
}

/// Whatever is done, the episodes of a show are asked for by themselves at most
/// once: never after they were asked for before, on demand or not, and never
/// after they came in.
pub proof fn episodes_are_fetched_once(
    app: AppView,
    inputs: Seq<Input>,
    i: nat,
    j: nat,
    id: Seq<char>,
    reload: bool,
)
    requires
        i < j < inputs.len(),
        asks_for(order_at(app, inputs, i), id, reload)
            || (inputs[i as int] matches Input::Event(AppEventView::EpisodesLoaded { show_id, .. })
            && show_id == id),
    ensures
        !asks_for(order_at(app, inputs, j), id, false),
{
    a_step_remembers_what_was_asked_for(after_inputs(app, inputs, i), inputs[i as int], id);
    a_step_remembers_what_was_asked_for(after_inputs(app, inputs, j), inputs[j as int], id);
    inputs_forget_nothing(app, inputs, i + 1, j);
    assert(after_inputs(app, inputs, i + 1) == step(
        after_inputs(app, inputs, i),
        inputs[i as int],
    ).0);
}

/// A client that is to end stays so.
pub proof fn an_end_is_final(app: AppView, inputs: Seq<Input>, n: nat)
    requires
        app.should_quit,
    ensures
        after_inputs(app, inputs, n).should_quit,
    decreases n,
{
    if n > 0 {
        an_end_is_final(app, inputs, (n - 1) as nat);
    }
}

/// Each list keeps a highlight, whatever is done.
pub proof fn a_highlight_is_never_lost(app: AppView, inputs: Seq<Input>, n: nat)
    requires
        app.shows_state is Some,
        app.seasons_state is Some,
        app.episodes_state is Some,
    ensures
        after_inputs(app, inputs, n).shows_state is Some,
        after_inputs(app, inputs, n).seasons_state is Some,
        after_inputs(app, inputs, n).episodes_state is Some,
    decreases n,
{
    if n > 0 {
        a_highlight_is_never_lost(app, inputs, (n - 1) as nat);
    }
}

/// A show of which episodes are known stays so, whatever is done, and without an
/// answer of the network worker their number, their names and their ids stay.
pub proof fn episodes_are_never_forgotten(app: AppView, inputs: Seq<Input>, n: nat, id: Seq<char>)
    requires
        n <= inputs.len(),
        app.episodes_cache.contains_key(id),
    ensures
        ({
            let after = after_inputs(app, inputs, n);
            &&& after.episodes_cache.contains_key(id)
            &&& (forall|i: int| 0 <= i < n ==> #[trigger] inputs[i] is Key) ==> {
                &&& after.episodes_cache[id].len() == app.episodes_cache[id].len()
                &&& forall|i: int|
                    0 <= i < app.episodes_cache[id].len() ==> #[trigger] after.episodes_cache[id][i]
                        == (EpisodeView {
                        played: after.episodes_cache[id][i].played,
                        ..app.episodes_cache[id][i]
                    })
            }
        }),
    decreases n,
{
    if n > 0 {
        let before = after_inputs(app, inputs, (n - 1) as nat);
        episodes_are_never_forgotten(app, inputs, (n - 1) as nat, id);
        assert(inputs[n - 1] is Key || inputs[n - 1] is Event);
        if before.current_episode() is Some {
            a_toggle_changes_one_mark(before);
        }
    }
}

/// When the highlight moves to another show, its episodes are asked for, unless
/// they came in or were asked for before.
pub proof fn another_show_is_asked_for(app: AppView, key: Key)
    ensures
        ({
            let (after, order) = app.handle_key(key, true);
            after.shows_state != app.shows_state && after.current_show() is Some ==> {
                let id = after.current_show()->0.id;
                &&& after.fetched_shows_this_session.contains(id)
                &&& app.fetched_shows_this_session.contains(id) || asks_for(order, id, false)
            }
        }),
{
}

/// When the list of shows comes in, the episodes of the show under the highlight
/// are asked for, unless they were before.
pub proof fn a_list_of_shows_is_asked_for(app: AppView, shows: Seq<ShowView>)
    ensures
        ({
            let (after, order) = app.handle_event(AppEventView::ShowsLoaded(shows));
            &&& after.shows == shows
            &&& after.current_show() is Some ==> {
                let id = after.current_show()->0.id;
                &&& after.fetched_shows_this_session.contains(id)
                &&& app.fetched_shows_this_session.contains(id) <==> !asks_for(order, id, false)
            }
            &&& after.current_show() is None ==> order is None
        }),
{
}

/// Episodes that came in are those that are known of their show from then on, and
/// change nothing of another show.
pub proof fn loaded_episodes_are_known(
    app: AppView,
    show_id: Seq<char>,
    episodes: Seq<EpisodeView>,
)
    ensures
        ({
            let after = app.handle_event(AppEventView::EpisodesLoaded { show_id, episodes }).0;
            &&& after.episodes_cache.contains_key(show_id)
            &&& after.episodes_cache[show_id] == episodes
            &&& app.current_show() is Some && app.current_show()->0.id == show_id
                ==> after.known_episodes() == Some(episodes)
            &&& app.current_show() is Some && app.current_show()->0.id != show_id
                ==> after.known_episodes() == app.known_episodes()
        }),
{
}

/// An error is told until something comes in, and hides nothing that was known.
pub proof fn an_error_is_told_until_something_comes_in(
    app: AppView,
    text: Seq<char>,
    event: AppEventView,
)
    ensures
        ({
            let failed = app.handle_event(AppEventView::Error(text)).0;
            let next = failed.handle_event(event).0;
            &&& failed == AppView { status_msg: Some(text), ..app }
            &&& next.status_msg == (match event {
                AppEventView::Error(other) => Some(other),
                AppEventView::EpisodesReloaded => Some(text),
                _ => None::<Seq<char>>,
            })
        }),
{
}

/// The client after a series of answers of the network worker.
pub open spec fn after_events(app: AppView, events: Seq<AppEventView>) -> AppView
    decreases events.len(),
{
    if events.len() == 0 {
        app
    } else {
        after_events(app, events.drop_last()).handle_event(events.last()).0
    }
}

/// A reload that is answered shows the new episodes and takes its message away.
pub proof fn a_reload_shows_the_new_episodes(app: AppView, reply: ReplyView)
    requires
        app.current_show() is Some,
        reply.complaint() is None,
        reply.delivered() is Some,
    ensures
        ({
            let (asked, order) = app.handle_key(Key::Char('r'), true);
            let id = app.current_show()->0.id;
            let after = after_events(asked, episodes_events(id, true, reply));
            &&& asks_for(order, id, true)
            &&& asked.diag_msg == Some("Refreshing..."@)
            &&& after.diag_msg is None
            &&& after.status_msg is None
            &&& after.known_episodes() == Some(items_episodes(reply.delivered()->0))
        }),
{
    let (asked, order) = app.handle_key(Key::Char('r'), true);
    let id = app.current_show()->0.id;
    let events = episodes_events(id, true, reply);
    reveal_with_fuel(after_events, 3);
    assert(events.drop_last() =~= seq![events[0]]);
    assert(events.drop_last().drop_last() =~= Seq::<AppEventView>::empty());
}

/// What is kept at the end of a run is what the next run begins with.
pub proof fn what_is_kept_comes_back(app: AppView)
    ensures
        ({
            let next = AppView::start(app.shows, app.episodes_cache);
            &&& next.shows == app.shows
            &&& next.episodes_cache == app.episodes_cache
            &&& !next.should_quit
            &&& app.shows.len() > 0 ==> next.current_show() == Some(app.shows[0])
            &&& app.shows.len() > 0 && app.episodes_cache.contains_key(app.shows[0].id)
                ==> next.known_episodes() == Some(app.episodes_cache[app.shows[0].id])
        }),
{
}

} // verus!
