//! The state of the client and the functions that keys and answers act by.
use vstd::hash_set::StringHashSet;
use vstd::prelude::*;

use crate::cache::AppCache;
use crate::cache::EpisodeCache;
use crate::media::Episode;
use crate::media::Show;
use crate::message::action_view;
use crate::message::AppEvent;
use crate::message::Key;
use crate::message::WorkerAction;
use crate::seasons::list_episodes;
use crate::seasons::list_positions;
use crate::seasons::list_seasons;
use crate::seasons::season_positions_are_exact;
use crate::state::ActivePane;
use crate::state::AppView;
use crate::state::index_view;
use crate::state::item_above;
use crate::state::item_below;
use crate::text::option_view;
use crate::text::views;

verus! {

/// The client. Each `.._state` is the index of the item that is highlighted in
/// that list.
pub struct App {
    pub active_pane: ActivePane,
    pub should_quit: bool,
    pub shows: Vec<Show>,
    pub episodes_cache: EpisodeCache,
    pub fetched_shows_this_session: StringHashSet,
    pub shows_state: Option<usize>,
    pub seasons_state: Option<usize>,
    pub episodes_state: Option<usize>,
    pub status_msg: Option<String>,
    pub diag_msg: Option<String>,
}

impl View for App {
    type V = AppView;

    open spec fn view(&self) -> AppView {
        AppView {
            active_pane: self.active_pane,
            should_quit: self.should_quit,
            shows: views(self.shows@),
            episodes_cache: self.episodes_cache@,
            fetched_shows_this_session: self.fetched_shows_this_session@,
            shows_state: index_view(self.shows_state),
            seasons_state: index_view(self.seasons_state),
            episodes_state: index_view(self.episodes_state),
            status_msg: option_view(self.status_msg),
            diag_msg: option_view(self.diag_msg),
        }
    }
}

fn below(state: Option<usize>, len: usize) -> (r: Option<usize>)
    ensures
        index_view(r) == item_below(index_view(state), len as nat),
{
    let max: usize = len.saturating_sub(1);
    match state {
        None => Some(0),
        Some(i) => {
            let next: usize = i.saturating_add(1);
            Some(if next < max { next } else { max })
        },
    }
}

fn above(state: Option<usize>) -> (r: Option<usize>)
    ensures
        index_view(r) == item_above(index_view(state)),
{
    Some(state.unwrap_or(0).saturating_sub(1))
}

impl App {
    /// The client at its start, with what was kept from its last run.
    pub fn new(cache: Option<AppCache>) -> (app: App)
        ensures
            app@ == (match cache {
                Some(c) => AppView::start(c@.shows, c@.episodes_cache),
                None => AppView::start(Seq::empty(), Map::empty()),
            }),
    {
        let mut app = App {
            active_pane: ActivePane::Shows,
            should_quit: false,
            shows: Vec::new(),
            episodes_cache: EpisodeCache::new(),
            fetched_shows_this_session: StringHashSet::new(),
            shows_state: Some(0),
            seasons_state: Some(0),
            episodes_state: Some(0),
            status_msg: None,
            diag_msg: None,
        };
        assert(views(app.shows@) =~= Seq::empty());
        if let Some(c) = cache {
            app.shows = c.shows;
            app.episodes_cache = c.episodes_cache;
        }
        app
    }

    /// Ends the client.
    pub fn quit(&mut self)
        ensures
            final(self)@ == old(self)@.quit(),
    {
        self.should_quit = true;
    }

    fn current_show(&self) -> (r: Option<&Show>)
        ensures
            match r {
                Some(show) => self@.current_show() == Some(show@),
                None => self@.current_show() is None,
            },
    {
        match self.shows_state {
            Some(i) => {
                if i < self.shows.len() {
                    assert(views(self.shows@)[i as int] == self.shows@[i as int]@);
                    Some(&self.shows[i])
                } else {
                    None
                }
            },
            None => None,
        }
    }

    fn known_episodes(&self) -> (r: Option<&Vec<Episode>>)
        ensures
            match r {
                Some(v) => self@.known_episodes() == Some(views(v@)),
                None => self@.known_episodes() is None,
            },
    {
        match self.current_show() {
            Some(show) => self.episodes_cache.get(&show.id),
            None => None,
        }
    }

    /// The names of the seasons of the show that is highlighted.
    pub fn get_current_seasons(&self) -> (seasons: Vec<String>)
        ensures
            views(seasons@) == self@.current_seasons(),
    {
        match self.known_episodes() {
            Some(episodes) => list_seasons(episodes),
            None => {
                let seasons: Vec<String> = Vec::new();
                assert(views(seasons@) =~= Seq::empty());
                seasons
            },
        }
    }

    fn current_season(&self) -> (r: Option<String>)
        ensures
            option_view(r) == self@.current_season(),
    {
        let seasons = self.get_current_seasons();
        match self.seasons_state {
            Some(i) => {
                if i < seasons.len() {
                    assert(views(seasons@)[i as int] == seasons@[i as int]@);
                    Some(seasons[i].clone())
                } else {
                    None
                }
            },
            None => None,
        }
    }

    /// The episodes of the season that is highlighted.
    pub fn get_current_episodes(&self) -> (r: Vec<Episode>)
        ensures
            views(r@) == self@.current_episodes(),
    {
        let season = self.current_season();
        if let Some(episodes) = self.known_episodes() {
            if let Some(name) = season {
                return list_episodes(episodes, &name);
            }
        }
        let none: Vec<Episode> = Vec::new();
        assert(views(none@) =~= Seq::empty());
        none
    }

    /// Makes the pane to the right the active one.
    pub fn next_pane(&mut self)
        ensures
            final(self)@ == old(self)@.next_pane(),
    {
        match self.active_pane {
            ActivePane::Shows => self.active_pane = ActivePane::Seasons,
            ActivePane::Seasons => self.active_pane = ActivePane::Episodes,
            ActivePane::Episodes => {},
        }
    }

    /// Makes the pane to the left the active one.
    pub fn previous_pane(&mut self)
        ensures
            final(self)@ == old(self)@.previous_pane(),
    {
        match self.active_pane {
            ActivePane::Shows => {},
            ActivePane::Seasons => self.active_pane = ActivePane::Shows,
            ActivePane::Episodes => self.active_pane = ActivePane::Seasons,
        }
    }

    /// Moves the highlight of the active pane down.
    pub fn next_item(&mut self)
        ensures
            final(self)@ == old(self)@.next_item(),
    {
        match self.active_pane {
            ActivePane::Shows => {
                self.shows_state = below(self.shows_state, self.shows.len());
            },
            ActivePane::Seasons => {
                let len: usize = self.get_current_seasons().len();
                self.seasons_state = below(self.seasons_state, len);
            },
            ActivePane::Episodes => {
                let len: usize = self.get_current_episodes().len();
                self.episodes_state = below(self.episodes_state, len);
            },
        }
    }

    /// Moves the highlight of the active pane up.
    pub fn previous_item(&mut self)
        ensures
            final(self)@ == old(self)@.previous_item(),
    {
        match self.active_pane {
            ActivePane::Shows => {
                self.shows_state = above(self.shows_state);
            },
            ActivePane::Seasons => {
                self.seasons_state = above(self.seasons_state);
            },
            ActivePane::Episodes => {
                self.episodes_state = above(self.episodes_state);
            },
        }
    }

    /// Turns the played mark of the current episode over at once, and tells its
    /// id and its new mark for the server. Does nothing while another pane than
    /// that of the episodes is active.
    pub fn toggle_current_episode_played(&mut self) -> (r: Option<(String, bool)>)
        ensures
            final(self)@ == old(self)@.toggle_current_episode_played(),
            match r {
                Some((id, played)) => old(self)@.toggled_mark() == Some((id@, played)),
                None => old(self)@.toggled_mark() is None,
            },
    {
        if self.active_pane != ActivePane::Episodes {
            return None;
        }
        let season = match self.current_season() {
            Some(name) => name,
            None => {
                return None;
            },
        };
        let positions = match self.known_episodes() {
            Some(episodes) => list_positions(episodes, &season),
            None => {
                return None;
            },
        };
        let show_id = match self.current_show() {
            Some(show) => show.id.clone(),
            None => {
                return None;
            },
        };
        let ghost mapped = positions@.map_values(|i: usize| i as int);
        match self.episodes_state {
            Some(i) => {
                if i < positions.len() {
                    proof {
                        season_positions_are_exact(self@.known_episodes()->0, season@);
                        assert(mapped[i as int] == positions@[i as int]);
                    }
                    Some(self.episodes_cache.toggle_played(&show_id, positions[i]))
                } else {
                    None
                }
            },
            None => None,
        }
    }

    /// The id of the current episode.
    pub fn get_current_episode_id(&self) -> (r: Option<String>)
        ensures
            match r {
                Some(id) => self@.current_episode() is Some && self@.current_episode()->0.id == id@,
                None => self@.current_episode() is None,
            },
    {
        if self.active_pane == ActivePane::Episodes {
            let episodes = self.get_current_episodes();
            if let Some(i) = self.episodes_state {
                if i < episodes.len() {
                    assert(views(episodes@)[i as int] == episodes@[i as int]@);
                    return Some(episodes[i].id.clone());
                }
            }
        }
        None
    }

    fn fetch_current(&mut self) -> (r: Option<WorkerAction>)
        ensures
            (final(self)@, action_view(r)) == old(self)@.fetch_current(),
    {
        let show_id = match self.current_show() {
            Some(show) => show.id.clone(),
            None => {
                return None;
            },
        };
        if self.fetched_shows_this_session.contains(show_id.as_str()) {
            return None;
        }
        self.fetched_shows_this_session.insert(show_id.clone());
        Some(WorkerAction::FetchEpisodes { show_id, is_reload: false })
    }

    fn reload_current(&mut self) -> (r: Option<WorkerAction>)
        ensures
            (final(self)@, action_view(r)) == old(self)@.reload_current(),
    {
        let show_id = match self.current_show() {
            Some(show) => show.id.clone(),
            None => {
                return None;
            },
        };
        self.fetched_shows_this_session.insert(show_id.clone());
        self.diag_msg = Some("Refreshing...".to_owned());
        Some(WorkerAction::FetchEpisodes { show_id, is_reload: true })
    }

    fn play_order(&self) -> (r: Option<WorkerAction>)
        ensures
            action_view(r) == self@.play_order(),
    {
        match self.get_current_episode_id() {
            Some(episode_id) => Some(WorkerAction::PlayEpisode { episode_id }),
            None => None,
        }
    }

    fn press(&mut self, key: Key) -> (r: Option<WorkerAction>)
        ensures
            (final(self)@, action_view(r)) == old(self)@.press(key),
    {
        match key {
            Key::Esc => {
                self.quit();
                None
            },
            Key::Left => {
                self.previous_pane();
                None
            },
            Key::Right => {
                self.next_pane();
                None
            },
            Key::Up => {
                self.previous_item();
                None
            },
            Key::Down => {
                self.next_item();
                None
            },
            Key::Enter => self.play_order(),
            Key::Char(c) => {
                if c == 'q' {
                    self.quit();
                    None
                } else if c == ' ' {
                    match self.toggle_current_episode_played() {
                        Some((episode_id, set_played)) => Some(
                            WorkerAction::TogglePlayed { episode_id, set_played },
                        ),
                        None => None,
                    }
                } else if c == 's' {
                    self.play_order()
                } else if c == 'r' {
                    self.reload_current()
                } else {
                    None
                }
            },
            Key::Other => None,
        }
    }

    /// Acts on a key, and tells the order that it makes for the network worker.
    /// `pressed` is false for a key that is held or let go.
    pub fn handle_key(&mut self, key: Key, pressed: bool) -> (r: Option<WorkerAction>)
        ensures
            (final(self)@, action_view(r)) == old(self)@.handle_key(key, pressed),
    {
        if !pressed {
            return None;
        }
        let previous_show = self.shows_state;
        let previous_season = self.seasons_state;
        let order = self.press(key);
        if self.active_pane == ActivePane::Shows && self.shows_state != previous_show {
            self.seasons_state = Some(0);
            self.episodes_state = Some(0);
            return self.fetch_current();
        }
        if self.active_pane == ActivePane::Seasons && self.seasons_state != previous_season {
            self.episodes_state = Some(0);
        }
        order
    }

    /// What is to be kept for the next run, once the client is to end.
    pub fn finish(&self) -> (r: Option<AppCache>)
        ensures
            match r {
                Some(c) => self@.should_quit && c@.shows == self@.shows && c@.episodes_cache
                    == self@.episodes_cache,
                None => !self@.should_quit,
            },
    {
        if self.should_quit {
            Some(AppCache::of(&self.shows, &self.episodes_cache))
        } else {
            None
        }
    }

    /// Acts on an answer of the network worker, and tells the order that it
    /// makes for it.
    pub fn handle_event(&mut self, event: AppEvent) -> (r: Option<WorkerAction>)
        ensures
            (final(self)@, action_view(r)) == old(self)@.handle_event(event@),
    {
        match event {
            AppEvent::ShowsLoaded(shows) => {
                self.shows = shows;
                self.status_msg = None;
                self.fetch_current()
            },
            AppEvent::EpisodesLoaded { show_id, episodes } => {
                self.episodes_cache.insert(show_id.clone(), episodes);
                self.fetched_shows_this_session.insert(show_id);
                self.status_msg = None;
                None
            },
            AppEvent::Error(text) => {
                self.status_msg = Some(text);
                None
            },
            AppEvent::EpisodesReloaded => {
                self.diag_msg = None;
                None
            },
        }
    }
}

} // verus!
