//! The requests that are sent to the server, and what its answers mean.
use vstd::prelude::*;

use crate::media::Episode;
use crate::media::EpisodeView;
use crate::media::Show;
use crate::media::ShowView;
use crate::message::AppEvent;
use crate::message::AppEventView;
use crate::message::WorkerAction;
use crate::message::WorkerActionView;
use crate::text::decimal;
use crate::text::option_view;
use crate::text::views;

verus! {

/// The method of a request.
#[derive(Debug, Clone, Copy, PartialEq, Eq, Structural)]
pub enum Method {
    Get,
    Post,
    Delete,
}

/// A request to the server: `query` is added to the address, and
/// `authorization` is the header of that name.
#[derive(Debug)]
pub struct Request {
    pub method: Method,
    pub url: String,
    pub query: Vec<(String, String)>,
    pub authorization: String,
}

/// What a `Request` stands for.
pub struct RequestView {
    pub method: Method,
    pub url: Seq<char>,
    pub query: Seq<(Seq<char>, Seq<char>)>,
    pub authorization: Seq<char>,
}

/// The views of a list of pairs of texts.
pub open spec fn pairs_view(pairs: Seq<(String, String)>) -> Seq<(Seq<char>, Seq<char>)> {
    pairs.map_values(|p: (String, String)| (p.0@, p.1@))
}

impl View for Request {
    type V = RequestView;

    open spec fn view(&self) -> RequestView {
        RequestView {
            method: self.method,
            url: self.url@,
            query: pairs_view(self.query@),
            authorization: self.authorization@,
        }
    }
}

/// Where the server is, and as whom it is asked.
#[derive(Debug)]
pub struct Server {
    pub url: String,
    pub api_key: String,
    pub user_id: String,
}

/// What a `Server` stands for.
pub struct ServerView {
    pub url: Seq<char>,
    pub api_key: Seq<char>,
    pub user_id: Seq<char>,
}

impl View for Server {
    type V = ServerView;

    open spec fn view(&self) -> ServerView {
        ServerView { url: self.url@, api_key: self.api_key@, user_id: self.user_id@ }
    }
}

/// What the network worker does for an order: load something and report it, send
/// a request whose answer does not matter, or play an episode.
#[derive(Debug)]
pub enum Task {
    LoadShows(Request),
    LoadEpisodes { request: Request, show_id: String, is_reload: bool },
    Send(Request),
    Play { episode_id: String },
}

/// What a `Task` stands for.
pub enum TaskView {
    LoadShows(RequestView),
    LoadEpisodes { request: RequestView, show_id: Seq<char>, is_reload: bool },
    Send(RequestView),
    Play { episode_id: Seq<char> },
}

impl View for Task {
    type V = TaskView;

    open spec fn view(&self) -> TaskView {
        match *self {
            Task::LoadShows(request) => TaskView::LoadShows(request@),
            Task::LoadEpisodes { request, show_id, is_reload } => TaskView::LoadEpisodes {
                request: request@,
                show_id: show_id@,
                is_reload,
            },
            Task::Send(request) => TaskView::Send(request@),
            Task::Play { episode_id } => TaskView::Play { episode_id: episode_id@ },
        }
    }
}

impl ServerView {
    /// The header by which the server knows who asks.
    pub open spec fn authorization(self) -> Seq<char> {
        "MediaBrowser Token=\""@ + self.api_key + "\""@
    }

    /// A request to the server without a query.
    pub open spec fn plain_request(self, method: Method, path: Seq<char>) -> RequestView {
        RequestView {
            method,
            url: self.url + path,
            query: Seq::empty(),
            authorization: self.authorization(),
        }
    }

    /// The request for the list of shows, by name and without what is not drawn.
    pub open spec fn shows_request(self) -> RequestView {
        RequestView {
            query: seq![
                ("IncludeItemTypes"@, "Series"@),
                ("Recursive"@, "true"@),
                ("enableImages"@, "false"@),
                ("enableUserData"@, "false"@),
                ("SortBy"@, "SortName"@),
            ],
            ..self.plain_request(Method::Get, "/Users/"@ + self.user_id + "/Items"@)
        }
    }

    /// The request for the episodes of a show, with what the user has played.
    pub open spec fn episodes_request(self, show_id: Seq<char>) -> RequestView {
        RequestView {
            query: seq![("UserId"@, self.user_id)],
            ..self.plain_request(Method::Get, "/Shows/"@ + show_id + "/Episodes"@)
        }
    }

    /// The request that sets the played mark of an episode, or takes it away.
    pub open spec fn mark_request(self, episode_id: Seq<char>, set_played: bool) -> RequestView {
        self.plain_request(
            if set_played {
                Method::Post
            } else {
                Method::Delete
            },
            "/Users/"@ + self.user_id + "/PlayedItems/"@ + episode_id,
        )
    }

    /// What is done for an order.
    pub open spec fn task(self, action: WorkerActionView) -> TaskView {
        match action {
            WorkerActionView::FetchShows => TaskView::LoadShows(self.shows_request()),
            WorkerActionView::FetchEpisodes { show_id, is_reload } => TaskView::LoadEpisodes {
                request: self.episodes_request(show_id),
                show_id,
                is_reload,
            },
            WorkerActionView::TogglePlayed { episode_id, set_played } => TaskView::Send(
                self.mark_request(episode_id, set_played),
            ),
            WorkerActionView::PlayEpisode { episode_id } => TaskView::Play { episode_id },
        }
    }
}

fn push_pair(query: &mut Vec<(String, String)>, name: &str, value: &str)
    ensures
        pairs_view(final(query)@) == pairs_view(old(query)@).push((name@, value@)),
{
    let ghost before = query@;
    query.push((name.to_owned(), value.to_owned()));
    assert(pairs_view(query@) =~= pairs_view(before).push((name@, value@)));
}

impl Server {
    /// The header by which the server knows who asks.
    pub fn auth_header(&self) -> (s: String)
        ensures
            s@ == self@.authorization(),
    {
        let mut s = "MediaBrowser Token=\"".to_owned();
        s.append(self.api_key.as_str());
        s.append("\"");
        s
    }

    /// A request to the server without a query.
    pub fn plain_request(&self, method: Method, path: String) -> (r: Request)
        ensures
            r@ == self@.plain_request(method, path@),
    {
        let mut url = self.url.clone();
        url.append(path.as_str());
        let query: Vec<(String, String)> = Vec::new();
        assert(pairs_view(query@) =~= Seq::empty());
        Request { method, url, query, authorization: self.auth_header() }
    }

    fn shows_request(&self) -> (r: Request)
        ensures
            r@ == self@.shows_request(),
    {
        let mut path = "/Users/".to_owned();
        path.append(self.user_id.as_str());
        path.append("/Items");
        let mut r = self.plain_request(Method::Get, path);
        push_pair(&mut r.query, "IncludeItemTypes", "Series");
        push_pair(&mut r.query, "Recursive", "true");
        push_pair(&mut r.query, "enableImages", "false");
        push_pair(&mut r.query, "enableUserData", "false");
        push_pair(&mut r.query, "SortBy", "SortName");
        assert(r@.query =~= self@.shows_request().query);
        r
    }

    fn episodes_request(&self, show_id: &String) -> (r: Request)
        ensures
            r@ == self@.episodes_request(show_id@),
    {
        let mut path = "/Shows/".to_owned();
        path.append(show_id.as_str());
        path.append("/Episodes");
        let mut r = self.plain_request(Method::Get, path);
        push_pair(&mut r.query, "UserId", self.user_id.as_str());
        assert(r@.query =~= self@.episodes_request(show_id@).query);
        r
    }

    fn mark_request(&self, episode_id: &String, set_played: bool) -> (r: Request)
        ensures
            r@ == self@.mark_request(episode_id@, set_played),
    {
        let mut path = "/Users/".to_owned();
        path.append(self.user_id.as_str());
        path.append("/PlayedItems/");
        path.append(episode_id.as_str());
        let method = if set_played {
            Method::Post
        } else {
            Method::Delete
        };
        self.plain_request(method, path)
    }

    /// What is to be done for an order.
    pub fn task(&self, action: WorkerAction) -> (t: Task)
        ensures
            t@ == self@.task(action@),
    {
        match action {
            WorkerAction::FetchShows => Task::LoadShows(self.shows_request()),
            WorkerAction::FetchEpisodes { show_id, is_reload } => {
                let request = self.episodes_request(&show_id);
                Task::LoadEpisodes { request, show_id, is_reload }
            },
            WorkerAction::TogglePlayed { episode_id, set_played } => Task::Send(
                self.mark_request(&episode_id, set_played),
            ),
            WorkerAction::PlayEpisode { episode_id } => Task::Play { episode_id },
        }
    }
}

/// What the user has seen of an item.
#[derive(Debug, Clone, Copy, PartialEq, Eq, Structural)]
pub struct JellyfinUserData {
    pub played: bool,
    pub playback_position_ticks: u64,
}

/// An item as the server describes it.
#[derive(Debug)]
pub struct JellyfinItem {
    pub id: String,
    pub name: String,
    pub season_name: Option<String>,
    pub user_data: Option<JellyfinUserData>,
    pub run_time_ticks: u64,
}

/// What a `JellyfinItem` stands for.
pub struct JellyfinItemView {
    pub id: Seq<char>,
    pub name: Seq<char>,
    pub season_name: Option<Seq<char>>,
    pub user_data: Option<JellyfinUserData>,
    pub run_time_ticks: u64,
}

impl View for JellyfinItem {
    type V = JellyfinItemView;

    open spec fn view(&self) -> JellyfinItemView {
        JellyfinItemView {
            id: self.id@,
            name: self.name@,
            season_name: option_view(self.season_name),
            user_data: self.user_data,
            run_time_ticks: self.run_time_ticks,
        }
    }
}

impl JellyfinItemView {
    /// The show that an item describes.
    pub open spec fn show(self) -> ShowView {
        ShowView { id: self.id, name: self.name }
    }

    /// The episode that an item describes. One that belongs to no season is put
    /// into one of its own, and one of which nothing is said was not played.
    pub open spec fn episode(self) -> EpisodeView {
        EpisodeView {
            id: self.id,
            name: self.name,
            season_name: match self.season_name {
                Some(name) => name,
                None => "Unknown Season"@,
            },
            played: self.user_data is Some && self.user_data->0.played,
            run_time_ticks: self.run_time_ticks,
            playback_position_ticks: match self.user_data {
                Some(data) => Some(data.playback_position_ticks),
                None => None,
            },
        }
    }
}

impl JellyfinItem {
    /// The show that the item describes.
    pub fn show(&self) -> (s: Show)
        ensures
            s@ == self@.show(),
    {
        Show { id: self.id.clone(), name: self.name.clone() }
    }

    /// The episode that the item describes.
    pub fn episode(&self) -> (e: Episode)
        ensures
            e@ == self@.episode(),
    {
        let season_name = match &self.season_name {
            Some(name) => name.clone(),
            None => "Unknown Season".to_owned(),
        };
        let (played, playback_position_ticks) = match self.user_data {
            Some(data) => (data.played, Some(data.playback_position_ticks)),
            None => (false, None),
        };
        Episode {
            id: self.id.clone(),
            name: self.name.clone(),
            season_name,
            played,
            run_time_ticks: self.run_time_ticks,
            playback_position_ticks,
        }
    }
}

/// The shows that the items of an answer describe, in their order.
pub open spec fn items_shows(items: Seq<JellyfinItemView>) -> Seq<ShowView> {
    Seq::new(items.len(), |i: int| items[i].show())
}

/// The episodes that the items of an answer describe, in their order.
pub open spec fn items_episodes(items: Seq<JellyfinItemView>) -> Seq<EpisodeView> {
    Seq::new(items.len(), |i: int| items[i].episode())
}

fn list_shows(items: &Vec<JellyfinItem>) -> (shows: Vec<Show>)
    ensures
        views(shows@) == items_shows(views(items@)),
{
    let ghost want = items_shows(views(items@));
    let mut shows: Vec<Show> = Vec::new();
    let mut i: usize = 0;
    while i < items.len()
        invariant
            i <= items@.len(),
            want == items_shows(views(items@)),
            views(shows@) == want.take(i as int),
        decreases items@.len() - i,
    {
        let ghost before = shows@;
        shows.push(items[i].show());
        assert(views(shows@) =~= views(before).push(want[i as int]));
        assert(want.take(i + 1) =~= want.take(i as int).push(want[i as int]));
        i = i + 1;
    }
    assert(want.take(want.len() as int) =~= want);
    shows
}

fn list_episodes(items: &Vec<JellyfinItem>) -> (episodes: Vec<Episode>)
    ensures
        views(episodes@) == items_episodes(views(items@)),
{
    let ghost want = items_episodes(views(items@));
    let mut episodes: Vec<Episode> = Vec::new();
    let mut i: usize = 0;
    while i < items.len()
        invariant
            i <= items@.len(),
            want == items_episodes(views(items@)),
            views(episodes@) == want.take(i as int),
        decreases items@.len() - i,
    {
        let ghost before = episodes@;
        episodes.push(items[i].episode());
        assert(views(episodes@) =~= views(before).push(want[i as int]));
        assert(want.take(i + 1) =~= want.take(i as int).push(want[i as int]));
        i = i + 1;
    }
    assert(want.take(want.len() as int) =~= want);
    episodes
}

/// What came of a request: no answer at all, for a reason that is told, or an
/// answer with its status and its items, where the body is a list of items.
#[derive(Debug)]
pub enum Reply {
    Failed(String),
    Answered { status: u16, items: Option<Vec<JellyfinItem>> },
}

/// What a `Reply` stands for.
pub enum ReplyView {
    Failed(Seq<char>),
    Answered { status: u16, items: Option<Seq<JellyfinItemView>> },
}

impl View for Reply {
    type V = ReplyView;

    open spec fn view(&self) -> ReplyView {
        match *self {
            Reply::Failed(reason) => ReplyView::Failed(reason@),
            Reply::Answered { status, items } => ReplyView::Answered {
                status,
                items: match items {
                    Some(items) => Some(views(items@)),
                    None => None,
                },
            },
        }
    }
}

/// A number that can be the status of an answer.
pub open spec fn is_status(code: u16) -> bool {
    100 <= code <= 999
}

/// A status that means success.
pub open spec fn success(code: u16) -> bool {
    200 <= code <= 299
}

impl ReplyView {
    /// The status, where there is one, can be the status of an answer.
    pub open spec fn well_formed(self) -> bool {
        self matches ReplyView::Answered { status, .. } ==> is_status(status)
    }

    /// The items of an answer that means success.
    pub open spec fn delivered(self) -> Option<Seq<JellyfinItemView>> {
        match self {
            ReplyView::Answered { status, items } if success(status) => items,
            _ => None,
        }
    }

    /// What is to be reported of a request that did not succeed.
    pub open spec fn complaint(self) -> Option<Seq<char>> {
        match self {
            ReplyView::Failed(reason) => Some(reason),
            ReplyView::Answered { status, .. } => if success(status) {
                None
            } else {
                Some("Status: "@ + status_text(status))
            },
        }
    }
}

/// A status with the words that stand for it.
pub uninterp spec fn status_text(code: u16) -> Seq<char>;

/// `reqwest::StatusCode` as text (`from_u16`, then `to_string`): the number in
/// decimal, a space and the standard phrase for it. The contract names the whole
/// text `status_text` and states its beginning; which phrase belongs to which
/// number is left to the crate.
#[verifier::external_body]
pub(crate) fn describe_status(code: u16) -> (s: String)
    requires
        is_status(code),
    ensures
        s@ == status_text(code),
        (decimal(code as nat) + " "@).is_prefix_of(s@),
{
    reqwest::StatusCode::from_u16(code).unwrap().to_string()
}

/// `reqwest::StatusCode::is_success`: the numbers from 200 to 299 mean success.
#[verifier::external_body]
fn status_is_success(code: u16) -> (b: bool)
    requires
        is_status(code),
    ensures
        b == success(code),
{
    reqwest::StatusCode::from_u16(code).unwrap().is_success()
}

/// Whether the body of an answer with this status is a list of items.
pub fn is_success(code: u16) -> (b: bool)
    requires
        is_status(code),
    ensures
        b == success(code),
{
    status_is_success(code)
}

/// What is reported to the client of a reply to the request for the shows. An
/// answer of success whose body cannot be read is passed over.
pub open spec fn shows_events(reply: ReplyView) -> Seq<AppEventView> {
    match (reply.complaint(), reply.delivered()) {
        (Some(text), _) => seq![AppEventView::Error(text)],
        (None, Some(items)) => seq![AppEventView::ShowsLoaded(items_shows(items))],
        (None, None) => Seq::empty(),
    }
}

/// What is reported to the client of a reply to the request for the episodes of
/// a show: after a reload also that it is over.
pub open spec fn episodes_events(show_id: Seq<char>, is_reload: bool, reply: ReplyView) -> Seq<
    AppEventView,
> {
    match (reply.complaint(), reply.delivered()) {
        (Some(text), _) => seq![AppEventView::Error(text)],
        (None, Some(items)) => {
            let loaded = AppEventView::EpisodesLoaded { show_id, episodes: items_episodes(items) };
            if is_reload {
                seq![loaded, AppEventView::EpisodesReloaded]
            } else {
                seq![loaded]
            }
        },
        (None, None) => Seq::empty(),
    }
}

/// What is reported of an answer whose status, written out, is `status`.
pub fn refusal(status: &String) -> (text: String)
    ensures
        text@ == "Status: "@ + status@,
{
    let mut text = "Status: ".to_owned();
    text.append(status.as_str());
    text
}

fn complain(reply: &Reply) -> (r: Option<String>)
    requires
        reply@.well_formed(),
    ensures
        option_view(r) == reply@.complaint(),
{
    match reply {
        Reply::Failed(reason) => Some(reason.clone()),
        Reply::Answered { status, .. } => {
            if is_success(*status) {
                None
            } else {
                Some(refusal(&describe_status(*status)))
            }
        },
    }
}

/// Reports a reply to the request for the shows.
pub fn shows_reply(reply: Reply) -> (events: Vec<AppEvent>)
    requires
        reply@.well_formed(),
    ensures
        views(events@) == shows_events(reply@),
{
    let mut events: Vec<AppEvent> = Vec::new();
    if let Some(text) = complain(&reply) {
        events.push(AppEvent::Error(text));
    } else if let Reply::Answered { items: Some(items), .. } = &reply {
        events.push(AppEvent::ShowsLoaded(list_shows(items)));
    }
    assert(views(events@) =~= shows_events(reply@));
    events
}

/// Reports a reply to the request for the episodes of a show.
pub fn episodes_reply(show_id: String, is_reload: bool, reply: Reply) -> (events: Vec<AppEvent>)
    requires
        reply@.well_formed(),
    ensures
        views(events@) == episodes_events(show_id@, is_reload, reply@),
{
    let mut events: Vec<AppEvent> = Vec::new();
    let ghost id = show_id@;
    if let Some(text) = complain(&reply) {
        events.push(AppEvent::Error(text));
    } else if let Reply::Answered { items: Some(items), .. } = &reply {
        events.push(AppEvent::EpisodesLoaded { show_id, episodes: list_episodes(items) });
        if is_reload {
            events.push(AppEvent::EpisodesReloaded);
        }
    }
    assert(views(events@) =~= episodes_events(id, is_reload, reply@));
    events
}

/// Reads a switch that is either on, `true`, or off, `false`.
pub fn parse_switch(text: &String) -> (r: Option<bool>)
    ensures
        r == (if text@ == "true"@ {
            Some(true)
        } else if text@ == "false"@ {
            Some(false)
        } else {
            None::<bool>
        }),
{
    if *text == "true".to_owned() {
        Some(true)
    } else if *text == "false".to_owned() {
        Some(false)
    } else {
        None
    }
}

/// The request that is sent for a task, where one is.
pub open spec fn task_request(task: TaskView) -> Option<RequestView> {
    match task {
        TaskView::LoadShows(request) => Some(request),
        TaskView::LoadEpisodes { request, .. } => Some(request),
        TaskView::Send(request) => Some(request),
        TaskView::Play { .. } => None,
    }
}

/// Every order but that to play has a request, it goes to the server, and it says
/// who asks.
pub proof fn requests_go_to_the_server(server: ServerView, action: WorkerActionView)
    ensures
        task_request(server.task(action)) is None <==> action is PlayEpisode,
        task_request(server.task(action)) matches Some(request) ==> server.url.is_prefix_of(
            request.url,
        ) && request.authorization == server.authorization(),
{
    match action {
        WorkerActionView::FetchShows => {
            let path = "/Users/"@ + server.user_id + "/Items"@;
            assert((server.url + path).subrange(0, server.url.len() as int) =~= server.url);
        },
        WorkerActionView::FetchEpisodes { show_id, .. } => {
            let path = "/Shows/"@ + show_id + "/Episodes"@;
            assert((server.url + path).subrange(0, server.url.len() as int) =~= server.url);
        },
        WorkerActionView::TogglePlayed { episode_id, .. } => {
            let path = "/Users/"@ + server.user_id + "/PlayedItems/"@ + episode_id;
            assert((server.url + path).subrange(0, server.url.len() as int) =~= server.url);
        },
        WorkerActionView::PlayEpisode { .. } => {},
    }
}

/// A mark is set and taken away at the same address, by different methods.
pub proof fn marks_differ_by_method(server: ServerView, episode_id: Seq<char>)
    ensures
        server.mark_request(episode_id, true).method == Method::Post,
        server.mark_request(episode_id, false).method == Method::Delete,
        server.mark_request(episode_id, true) == (RequestView {
            method: Method::Post,
            ..server.mark_request(episode_id, false)
        }),
{
}

/// A request without success is reported by one error and nothing else, and one
/// with success by no error.
pub proof fn failures_are_reported(
    reply: ReplyView,
    show_id: Seq<char>,
    is_reload: bool,
    events: Seq<AppEventView>,
)
    requires
        events == shows_events(reply) || events == episodes_events(show_id, is_reload, reply),
    ensures
        (reply matches ReplyView::Answered { status, .. } && success(status))
            <==> reply.complaint() is None,
        reply.complaint() matches Some(text) ==> events == seq![AppEventView::Error(text)],
        reply.complaint() is None ==> forall|i: int|
            0 <= i < events.len() ==> !(#[trigger] events[i] is Error),
{
}

} // verus!
