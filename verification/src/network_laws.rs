//! What each order asks of the server, and what of each answer reaches the client.
use vstd::prelude::*;

use crate::message::AppEventView;
use crate::message::WorkerActionView;
use crate::network::episodes_events;
use crate::network::is_status;
use crate::network::items_episodes;
use crate::network::items_shows;
use crate::network::JellyfinItemView;
use crate::network::Method;
use crate::network::ReplyView;
use crate::network::ServerView;
use crate::network::shows_events;
use crate::network::status_text;
use crate::network::success;
use crate::network::TaskView;

verus! {

/// The header carries the key between quotes behind its name, and nothing else.
pub proof fn the_header_carries_the_key(server: ServerView)
    ensures
        ({
            let header = server.authorization();
            &&& header.len() == 20 + server.api_key.len() + 1
            &&& header.take(20) == "MediaBrowser Token=\""@
            &&& header.subrange(20, 20int + server.api_key.len()) == server.api_key
            &&& header.last() == '"'
        }),
{
    reveal_strlit("MediaBrowser Token=\"");
    reveal_strlit("\"");
    let header = server.authorization();
    assert(header.take(20) =~= "MediaBrowser Token=\""@);
    assert(header.subrange(20, 20int + server.api_key.len()) =~= server.api_key);
}

/// The shows are asked for with the user's id in the address: all series, at
/// whatever depth, without pictures and without what was played, by name.
pub proof fn shows_are_asked_for(server: ServerView)
    ensures
        server.task(WorkerActionView::FetchShows) == TaskView::LoadShows(server.shows_request()),
        ({
            let request = server.shows_request();
            &&& request.method == Method::Get
            &&& request.url == server.url + ("/Users/"@ + server.user_id + "/Items"@)
            &&& request.authorization == server.authorization()
            &&& request.query.len() == 5
            &&& request.query[0] == ("IncludeItemTypes"@, "Series"@)
            &&& request.query[1] == ("Recursive"@, "true"@)
            &&& request.query[2] == ("enableImages"@, "false"@)
            &&& request.query[3] == ("enableUserData"@, "false"@)
            &&& request.query[4] == ("SortBy"@, "SortName"@)
        }),
{
}

/// The episodes of a show are asked for with its id in the address and the user's
/// id in the query; the answer is kept under the same show, and whether it was
/// asked for on demand does not change what is asked.
pub proof fn episodes_are_asked_for(server: ServerView, show_id: Seq<char>, is_reload: bool)
    ensures
        server.task(WorkerActionView::FetchEpisodes { show_id, is_reload })
            == (TaskView::LoadEpisodes {
            request: server.episodes_request(show_id),
            show_id,
            is_reload,
        }),
        ({
            let request = server.episodes_request(show_id);
            &&& request.method == Method::Get
            &&& request.url == server.url + ("/Shows/"@ + show_id + "/Episodes"@)
            &&& request.authorization == server.authorization()
            &&& request.query.len() == 1
            &&& request.query[0] == ("UserId"@, server.user_id)
        }),
{
}

/// A mark is changed with the user's id and the episode's in the address, by
/// posting where it is set and by deleting where it is taken away.
pub proof fn marks_are_sent(server: ServerView, episode_id: Seq<char>, set_played: bool)
    ensures
        server.task(WorkerActionView::TogglePlayed { episode_id, set_played }) == TaskView::Send(
            server.mark_request(episode_id, set_played),
        ),
        ({
            let request = server.mark_request(episode_id, set_played);
            &&& set_played ==> request.method == Method::Post
            &&& !set_played ==> request.method == Method::Delete
            &&& request.url == server.url + ("/Users/"@ + server.user_id + "/PlayedItems/"@
                + episode_id)
            &&& request.authorization == server.authorization()
            &&& request.query.len() == 0
        }),
{
}

/// The order to play an episode is to play that episode.
pub proof fn the_ordered_episode_is_played(server: ServerView, episode_id: Seq<char>)
    ensures
        server.task(WorkerActionView::PlayEpisode { episode_id })
            == (TaskView::Play { episode_id }),
{
}

/// A request without a query goes to a path below the server's address, by the
/// method it is given, and says who asks.
pub proof fn a_plain_request_goes_to_its_path(server: ServerView, method: Method, path: Seq<char>)
    ensures
        ({
            let request = server.plain_request(method, path);
            &&& request.method == method
            &&& request.url.len() == server.url.len() + path.len()
            &&& request.url.take(server.url.len() as int) == server.url
            &&& request.url.skip(server.url.len() as int) == path
            &&& request.query.len() == 0
            &&& request.authorization == server.authorization()
        }),
{
    let url = server.plain_request(method, path).url;
    assert(url.take(server.url.len() as int) =~= server.url);
    assert(url.skip(server.url.len() as int) =~= path);
}

/// Different shows are asked for at different addresses, and different episodes are
/// marked at different ones.
pub proof fn addresses_tell_ids_apart(server: ServerView, a: Seq<char>, b: Seq<char>)
    ensures
        server.episodes_request(a).url == server.episodes_request(b).url ==> a == b,
        server.mark_request(a, true).url == server.mark_request(b, true).url ==> a == b,
{
    let shows = "/Shows/"@;
    let tail = "/Episodes"@;
    let from = server.url.len() + shows.len();
    if server.episodes_request(a).url == server.episodes_request(b).url {
        assert(server.episodes_request(a).url.len() == from + a.len() + tail.len());
        assert(server.episodes_request(b).url.len() == from + b.len() + tail.len());
        assert(server.episodes_request(a).url.subrange(from as int, (from + a.len()) as int) =~= a);
        assert(server.episodes_request(b).url.subrange(from as int, (from + b.len()) as int) =~= b);
    }
    let marks = "/Users/"@ + server.user_id + "/PlayedItems/"@;
    let at = (server.url.len() + marks.len()) as int;
    assert(server.mark_request(a, true).url.skip(at) =~= a);
    assert(server.mark_request(b, true).url.skip(at) =~= b);
}

/// An item is the show of its id and name.
pub proof fn a_show_is_its_item(item: JellyfinItemView)
    ensures
        item.show().id == item.id,
        item.show().name == item.name,
{
}

/// An item is the episode of its id, name and length, in the season that it names,
/// and played as far as the user's data say: not at all, where there are none.
pub proof fn an_episode_is_its_item(item: JellyfinItemView)
    ensures
        item.episode().id == item.id,
        item.episode().name == item.name,
        item.episode().run_time_ticks == item.run_time_ticks,
        item.season_name matches Some(name) ==> item.episode().season_name == name,
        item.season_name is None ==> item.episode().season_name == "Unknown Season"@,
        item.user_data matches Some(data) ==> item.episode().played == data.played
            && item.episode().playback_position_ticks == Some(data.playback_position_ticks),
        item.user_data is None ==> !item.episode().played
            && item.episode().playback_position_ticks is None,
{
}

/// Whether an episode was played does not hang on how far it was: of two items that
/// agree on the one, the episodes do.
pub proof fn a_mark_is_no_position(a: JellyfinItemView, b: JellyfinItemView)
    requires
        a.user_data is Some,
        b.user_data is Some,
    ensures
        a.episode().played == b.episode().played <==> a.user_data->0.played
            == b.user_data->0.played,
        a.episode().playback_position_ticks == b.episode().playback_position_ticks
            <==> a.user_data->0.playback_position_ticks == b.user_data->0.playback_position_ticks,
{
}

/// Every item of an answer is one show and one episode, at its place.
pub proof fn every_item_has_its_place(items: Seq<JellyfinItemView>)
    ensures
        items_shows(items).len() == items.len(),
        items_episodes(items).len() == items.len(),
        forall|i: int|
            0 <= i < items.len() ==> (#[trigger] items_shows(items)[i]).id == items[i].id
                && items_shows(items)[i].name == items[i].name,
        forall|i: int|
            0 <= i < items.len() ==> #[trigger] items_episodes(items)[i] == items[i].episode(),
{
}

/// The numbers that can be a status have three digits, and those that mean success
/// begin with a two.
pub proof fn success_begins_with_a_two(code: u16)
    ensures
        is_status(code) <==> 100 <= code < 1000,
        success(code) <==> code / 100 == 2,
{
}

/// A request that was not answered is reported by its reason alone.
pub proof fn no_answer_is_reported(reason: Seq<char>, show_id: Seq<char>, is_reload: bool)
    ensures
        shows_events(ReplyView::Failed(reason)) == seq![AppEventView::Error(reason)],
        episodes_events(show_id, is_reload, ReplyView::Failed(reason)) == seq![
            AppEventView::Error(reason),
        ],
{
}

/// An answer with a status of another hundred than the two hundreds is reported by
/// its status alone, whatever its items are.
pub proof fn a_refusal_is_reported(
    status: u16,
    items: Option<Seq<JellyfinItemView>>,
    show_id: Seq<char>,
    is_reload: bool,
)
    requires
        status < 200 || status >= 300,
    ensures
        ({
            let reply = ReplyView::Answered { status, items };
            let error = AppEventView::Error("Status: "@ + status_text(status));
            &&& shows_events(reply) == seq![error]
            &&& episodes_events(show_id, is_reload, reply) == seq![error]
        }),
{
}

/// The items of an answer of success reach the client: as shows, or as the episodes
/// of the show that was asked about, all of them and in their order. After a reload
/// the client also learns that it is over.
pub proof fn what_is_delivered_is_reported(
    status: u16,
    items: Seq<JellyfinItemView>,
    show_id: Seq<char>,
    is_reload: bool,
)
    requires
        200 <= status < 300,
    ensures
        ({
            let reply = ReplyView::Answered { status, items: Some(items) };
            let shows = shows_events(reply);
            let episodes = episodes_events(show_id, is_reload, reply);
            &&& shows.len() == 1
            &&& shows[0] matches AppEventView::ShowsLoaded(list) && list.len() == items.len() && (
            forall|i: int|
                0 <= i < items.len() ==> (#[trigger] list[i]).id == items[i].id && list[i].name
                    == items[i].name)
            &&& is_reload ==> episodes.len() == 2 && episodes[1] is EpisodesReloaded
            &&& !is_reload ==> episodes.len() == 1
            &&& episodes[0] matches AppEventView::EpisodesLoaded { show_id: of, episodes: list }
                && of == show_id && list.len() == items.len() && (forall|i: int|
                0 <= i < items.len() ==> #[trigger] list[i] == items[i].episode())
        }),
{
}

/// An answer of success without a list of items is passed over.
pub proof fn what_cannot_be_read_is_passed_over(status: u16, show_id: Seq<char>, is_reload: bool)
    requires
        200 <= status < 300,
    ensures
        ({
            let reply = ReplyView::Answered { status, items: None };
            &&& shows_events(reply).len() == 0
            &&& episodes_events(show_id, is_reload, reply).len() == 0
        }),
{
}

} // verus!
