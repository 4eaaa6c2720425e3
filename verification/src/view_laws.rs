//! What a value stands for shows all of the value.
use vstd::prelude::*;

use crate::app::App;
use crate::cache::AppCache;
use crate::cache::CacheEntry;
use crate::media::Episode;
use crate::media::Show;
use crate::message::action_view;
use crate::message::AppEvent;
use crate::message::AppEventView;
use crate::message::WorkerAction;
use crate::message::WorkerActionView;
use crate::network::JellyfinItem;
use crate::network::pairs_view;
use crate::network::Reply;
use crate::network::ReplyView;
use crate::network::Request;
use crate::network::Server;
use crate::network::Task;
use crate::network::TaskView;
use crate::playback::Reading;
use crate::playback::ReadingView;
use crate::screen::rows_view;
use crate::state::index_view;
use crate::text::option_view;
use crate::text::views;

verus! {

/// The views of a list are those of its items, each at its place.
pub proof fn a_list_is_viewed_item_by_item<T: View>(list: Seq<T>)
    ensures
        views(list).len() == list.len(),
        forall|i: int| 0 <= i < list.len() ==> #[trigger] views(list)[i] == list[i]@,
{
}

/// The same of a list of pairs, and of a table.
pub proof fn pairs_and_rows_are_viewed_one_by_one(
    pairs: Seq<(String, String)>,
    rows: Seq<Vec<String>>,
)
    ensures
        pairs_view(pairs).len() == pairs.len(),
        forall|i: int|
            0 <= i < pairs.len() ==> (#[trigger] pairs_view(pairs)[i]).0 == pairs[i].0@
                && pairs_view(pairs)[i].1 == pairs[i].1@,
        rows_view(rows).len() == rows.len(),
        forall|i: int|
            0 <= i < rows.len() ==> (#[trigger] rows_view(rows)[i]).len() == rows[i]@.len(),
        forall|i: int, j: int|
            0 <= i < rows.len() && 0 <= j < rows[i]@.len() ==> #[trigger] rows_view(rows)[i][j]
                == rows[i]@[j]@,
{
}

/// What is missing is viewed as missing, and what is there as what it is.
pub proof fn options_are_viewed(
    text: Option<String>,
    index: Option<usize>,
    order: Option<WorkerAction>,
)
    ensures
        text is None <==> option_view(text) is None,
        text is Some ==> option_view(text) == Some(text->0@),
        index is None <==> index_view(index) is None,
        index is Some ==> index_view(index) == Some(index->0 as nat),
        order is None <==> action_view(order) is None,
        order is Some ==> action_view(order) == Some(order->0@),
{
}

/// Each field of a show and of an episode is viewed.
pub proof fn media_are_viewed(show: Show, episode: Episode)
    ensures
        show@.id == show.id@,
        show@.name == show.name@,
        episode@.id == episode.id@,
        episode@.name == episode.name@,
        episode@.season_name == episode.season_name@,
        episode@.played == episode.played,
        episode@.run_time_ticks == episode.run_time_ticks,
        episode@.playback_position_ticks == episode.playback_position_ticks,
{
}

/// Each field of the client is viewed.
pub proof fn the_client_is_viewed(app: App)
    ensures
        app@.active_pane == app.active_pane,
        app@.should_quit == app.should_quit,
        app@.shows == views(app.shows@),
        app@.episodes_cache == app.episodes_cache@,
        app@.fetched_shows_this_session == app.fetched_shows_this_session@,
        app@.shows_state == index_view(app.shows_state),
        app@.seasons_state == index_view(app.seasons_state),
        app@.episodes_state == index_view(app.episodes_state),
        app@.status_msg == option_view(app.status_msg),
        app@.diag_msg == option_view(app.diag_msg),
{
}

/// Each field of what is kept is viewed.
pub proof fn what_is_kept_is_viewed(entry: CacheEntry, kept: AppCache)
    ensures
        entry@ == (entry.show_id@, views(entry.episodes@)),
        kept@.shows == views(kept.shows@),
        kept@.episodes_cache == kept.episodes_cache@,
{
}

/// An order is viewed as what it is, with each of its fields.
pub proof fn orders_are_viewed(order: WorkerAction)
    ensures
        order is FetchShows <==> order@ is FetchShows,
        order matches WorkerAction::FetchEpisodes { show_id, is_reload } ==> order@
            == (WorkerActionView::FetchEpisodes { show_id: show_id@, is_reload }),
        order matches WorkerAction::TogglePlayed { episode_id, set_played } ==> order@
            == (WorkerActionView::TogglePlayed { episode_id: episode_id@, set_played }),
        order matches WorkerAction::PlayEpisode { episode_id } ==> order@
            == (WorkerActionView::PlayEpisode { episode_id: episode_id@ }),
{
}

/// An answer of the worker is viewed as what it is, with each of its fields.
pub proof fn events_are_viewed(event: AppEvent)
    ensures
        event is EpisodesReloaded <==> event@ is EpisodesReloaded,
        event matches AppEvent::ShowsLoaded(shows) ==> event@ == AppEventView::ShowsLoaded(
            views(shows@),
        ),
        event matches AppEvent::EpisodesLoaded { show_id, episodes } ==> event@
            == (AppEventView::EpisodesLoaded { show_id: show_id@, episodes: views(episodes@) }),
        event matches AppEvent::Error(text) ==> event@ == AppEventView::Error(text@),
{
}

/// Each field of the server and of a request is viewed.
pub proof fn requests_are_viewed(server: Server, request: Request)
    ensures
        server@.url == server.url@,
        server@.api_key == server.api_key@,
        server@.user_id == server.user_id@,
        request@.method == request.method,
        request@.url == request.url@,
        request@.query == pairs_view(request.query@),
        request@.authorization == request.authorization@,
{
}

/// What is to be done for an order is viewed as what it is.
pub proof fn tasks_are_viewed(task: Task)
    ensures
        task matches Task::LoadShows(request) ==> task@ == TaskView::LoadShows(request@),
        task matches Task::LoadEpisodes { request, show_id, is_reload } ==> task@
            == (TaskView::LoadEpisodes { request: request@, show_id: show_id@, is_reload }),
        task matches Task::Send(request) ==> task@ == TaskView::Send(request@),
        task matches Task::Play { episode_id } ==> task@
            == (TaskView::Play { episode_id: episode_id@ }),
{
}

/// Each field of an item is viewed, and of a reply its reason, or its status and its
/// items.
pub proof fn replies_are_viewed(item: JellyfinItem, reply: Reply)
    ensures
        item@.id == item.id@,
        item@.name == item.name@,
        item@.season_name == option_view(item.season_name),
        item@.user_data == item.user_data,
        item@.run_time_ticks == item.run_time_ticks,
        reply matches Reply::Failed(reason) ==> reply@ == ReplyView::Failed(reason@),
        reply matches Reply::Answered { status, items: Some(items) } ==> reply@
            == (ReplyView::Answered { status, items: Some(views(items@)) }),
        reply matches Reply::Answered { status, items: None } ==> reply@
            == (ReplyView::Answered { status, items: None }),
{
}

/// What the output of the player says is viewed as what it is.
pub proof fn readings_are_viewed(reading: Reading)
    ensures
        reading is Garbled <==> reading@ is Garbled,
        reading is Ended <==> reading@ is Ended,
        reading is Silent <==> reading@ is Silent,
        reading matches Reading::Position(text) ==> reading@ == ReadingView::Position(text@),
{
}

} // verus!
