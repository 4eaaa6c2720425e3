//! The state of the client as a mathematical value, and what each key and each
//! answer of the network worker makes of it.
use vstd::prelude::*;

use crate::media::EpisodeView;
use crate::media::ShowView;
use crate::message::AppEventView;
use crate::message::Key;
use crate::message::WorkerActionView;
use crate::seasons::season_episodes;
use crate::seasons::season_names;
use crate::seasons::season_positions;

verus! {

/// The three panes, from left to right.
#[derive(Debug, Clone, Copy, PartialEq, Eq, Structural)]
pub enum ActivePane {
    Shows,
    Seasons,
    Episodes,
}

/// Everything the client knows. A list's state is the index of the item that is
/// highlighted in it.
#[verifier::ext_equal]
pub struct AppView {
    pub active_pane: ActivePane,
    pub should_quit: bool,
    pub shows: Seq<ShowView>,
    pub episodes_cache: Map<Seq<char>, Seq<EpisodeView>>,
    pub fetched_shows_this_session: Set<Seq<char>>,
    pub shows_state: Option<nat>,
    pub seasons_state: Option<nat>,
    pub episodes_state: Option<nat>,
    pub status_msg: Option<Seq<char>>,
    pub diag_msg: Option<Seq<char>>,
}

/// The view of an optional index.
pub open spec fn index_view(state: Option<usize>) -> Option<nat> {
    match state {
        Some(i) => Some(i as nat),
        None => None,
    }
}

/// The highlight one item further down in a list of `len` items: it stops at the
/// last one, and enters a list without highlight at the top.
pub open spec fn item_below(state: Option<nat>, len: nat) -> Option<nat> {
    match state {
        None => Some(0),
        Some(i) => if i + 1 < len {
            Some(i + 1)
        } else if len > 0 {
            Some((len - 1) as nat)
        } else {
            Some(0)
        },
    }
}

/// The highlight one item further up: it stops at the first one.
pub open spec fn item_above(state: Option<nat>) -> Option<nat> {
    match state {
        Some(i) if i > 0 => Some((i - 1) as nat),
        _ => Some(0),
    }
}

impl AppView {
    /// The client as it starts, with what it kept from its last run.
    pub open spec fn start(
        shows: Seq<ShowView>,
        episodes_cache: Map<Seq<char>, Seq<EpisodeView>>,
    ) -> AppView {
        AppView {
            active_pane: ActivePane::Shows,
            should_quit: false,
            shows,
            episodes_cache,
            fetched_shows_this_session: Set::empty(),
            shows_state: Some(0),
            seasons_state: Some(0),
            episodes_state: Some(0),
            status_msg: None,
            diag_msg: None,
        }
    }

    /// The show that is highlighted.
    pub open spec fn current_show(self) -> Option<ShowView> {
        match self.shows_state {
            Some(i) if i < self.shows.len() => Some(self.shows[i as int]),
            _ => None,
        }
    }

    /// All episodes of the show that is highlighted, where they are known.
    pub open spec fn known_episodes(self) -> Option<Seq<EpisodeView>> {
        match self.current_show() {
            Some(show) if self.episodes_cache.contains_key(show.id) => Some(
                self.episodes_cache[show.id],
            ),
            _ => None,
        }
    }

    /// The seasons of the show that is highlighted.
    pub open spec fn current_seasons(self) -> Seq<Seq<char>> {
        match self.known_episodes() {
            Some(episodes) => season_names(episodes),
            None => Seq::empty(),
        }
    }

    /// The season that is highlighted.
    pub open spec fn current_season(self) -> Option<Seq<char>> {
        match self.seasons_state {
            Some(i) if i < self.current_seasons().len() => Some(self.current_seasons()[i as int]),
            _ => None,
        }
    }

    /// The episodes of the season that is highlighted.
    pub open spec fn current_episodes(self) -> Seq<EpisodeView> {
        match (self.known_episodes(), self.current_season()) {
            (Some(episodes), Some(season)) => season_episodes(episodes, season),
            _ => Seq::empty(),
        }
    }

    /// The episode that a key acts on: the one that is highlighted, where the
    /// pane of the episodes is active.
    pub open spec fn current_episode(self) -> Option<EpisodeView> {
        match self.episodes_state {
            Some(i) if self.active_pane == ActivePane::Episodes && i
                < self.current_episodes().len() => Some(self.current_episodes()[i as int]),
            _ => None,
        }
    }

    /// The position of the current episode among all episodes of its show.
    pub open spec fn current_position(self) -> int
        recommends
            self.current_episode() is Some,
    {
        season_positions(
            self.known_episodes()->0,
            self.current_season()->0,
        )[self.episodes_state->0 as int]
    }

    /// The client is to end.
    pub open spec fn quit(self) -> AppView {
        AppView { should_quit: true, ..self }
    }

    /// The pane to the right active, where there is one.
    pub open spec fn next_pane(self) -> AppView {
        AppView {
            active_pane: match self.active_pane {
                ActivePane::Shows => ActivePane::Seasons,
                _ => ActivePane::Episodes,
            },
            ..self
        }
    }

    /// The pane to the left active, where there is one.
    pub open spec fn previous_pane(self) -> AppView {
        AppView {
            active_pane: match self.active_pane {
                ActivePane::Episodes => ActivePane::Seasons,
                _ => ActivePane::Shows,
            },
            ..self
        }
    }

    /// The highlight of the active pane one item further down.
    pub open spec fn next_item(self) -> AppView {
        match self.active_pane {
            ActivePane::Shows => AppView {
                shows_state: item_below(self.shows_state, self.shows.len()),
                ..self
            },
            ActivePane::Seasons => AppView {
                seasons_state: item_below(self.seasons_state, self.current_seasons().len()),
                ..self
            },
            ActivePane::Episodes => AppView {
                episodes_state: item_below(self.episodes_state, self.current_episodes().len()),
                ..self
            },
        }
    }

    /// The highlight of the active pane one item further up.
    pub open spec fn previous_item(self) -> AppView {
        match self.active_pane {
            ActivePane::Shows => AppView { shows_state: item_above(self.shows_state), ..self },
            ActivePane::Seasons => AppView {
                seasons_state: item_above(self.seasons_state),
                ..self
            },
            ActivePane::Episodes => AppView {
                episodes_state: item_above(self.episodes_state),
                ..self
            },
        }
    }

    /// The played mark of the current episode turned over.
    pub open spec fn toggle_current_episode_played(self) -> AppView {
        match self.current_episode() {
            Some(episode) => AppView {
                episodes_cache: self.episodes_cache.insert(
                    self.current_show()->0.id,
                    self.known_episodes()->0.update(self.current_position(), episode.toggled()),
                ),
                ..self
            },
            None => self,
        }
    }

    /// The id and the new mark of the episode that
    /// `toggle_current_episode_played` turns over.
    pub open spec fn toggled_mark(self) -> Option<(Seq<char>, bool)> {
        match self.current_episode() {
            Some(episode) => Some((episode.id, !episode.played)),
            None => None,
        }
    }

    /// The show that is highlighted, where its episodes were not asked for yet.
    pub open spec fn unfetched_show(self) -> Option<ShowView> {
        match self.current_show() {
            Some(show) if !self.fetched_shows_this_session.contains(show.id) => Some(show),
            _ => None,
        }
    }

    /// Asks for the episodes of the show that is highlighted, unless they were
    /// asked for before.
    pub open spec fn fetch_current(self) -> (AppView, Option<WorkerActionView>) {
        match self.unfetched_show() {
            Some(show) => (
                AppView {
                    fetched_shows_this_session: self.fetched_shows_this_session.insert(show.id),
                    ..self
                },
                Some(WorkerActionView::FetchEpisodes { show_id: show.id, is_reload: false }),
            ),
            None => (self, None),
        }
    }

    /// Asks for the episodes of the show that is highlighted once more.
    pub open spec fn reload_current(self) -> (AppView, Option<WorkerActionView>) {
        match self.current_show() {
            Some(show) => (
                AppView {
                    fetched_shows_this_session: self.fetched_shows_this_session.insert(show.id),
                    diag_msg: Some("Refreshing..."@),
                    ..self
                },
                Some(WorkerActionView::FetchEpisodes { show_id: show.id, is_reload: true }),
            ),
            None => (self, None),
        }
    }

    /// What a key does by itself.
    pub open spec fn press(self, key: Key) -> (AppView, Option<WorkerActionView>) {
        match key {
            Key::Esc => (self.quit(), None),
            Key::Left => (self.previous_pane(), None),
            Key::Right => (self.next_pane(), None),
            Key::Up => (self.previous_item(), None),
            Key::Down => (self.next_item(), None),
            Key::Enter => (self, self.play_order()),
            Key::Char(c) => if c == 'q' {
                (self.quit(), None)
            } else if c == ' ' {
                (
                    self.toggle_current_episode_played(),
                    match self.toggled_mark() {
                        Some((episode_id, set_played)) => Some(
                            WorkerActionView::TogglePlayed { episode_id, set_played },
                        ),
                        None => None,
                    },
                )
            } else if c == 's' {
                (self, self.play_order())
            } else if c == 'r' {
                self.reload_current()
            } else {
                (self, None)
            },
            Key::Other => (self, None),
        }
    }

    /// The order to play the current episode.
    pub open spec fn play_order(self) -> Option<WorkerActionView> {
        match self.current_episode() {
            Some(episode) => Some(WorkerActionView::PlayEpisode { episode_id: episode.id }),
            None => None,
        }
    }

    /// The highlights of the seasons and episodes back at the top.
    pub open spec fn at_first_season(self) -> AppView {
        AppView { seasons_state: Some(0), episodes_state: Some(0), ..self }
    }

    /// The highlight of the episodes back at the top.
    pub open spec fn at_first_episode(self) -> AppView {
        AppView { episodes_state: Some(0), ..self }
    }

    /// A key with what follows from it: under another show the seasons and
    /// episodes begin at the top and are asked for, and under another season the
    /// episodes begin at the top. A key that is not going down does nothing.
    pub open spec fn handle_key(self, key: Key, pressed: bool) -> (
        AppView,
        Option<WorkerActionView>,
    ) {
        if !pressed {
            (self, None)
        } else {
            let (next, order) = self.press(key);
            if next.active_pane == ActivePane::Shows && next.shows_state != self.shows_state {
                next.at_first_season().fetch_current()
            } else if next.active_pane == ActivePane::Seasons && next.seasons_state
                != self.seasons_state {
                (next.at_first_episode(), order)
            } else {
                (next, order)
            }
        }
    }

    /// An answer of the network worker.
    pub open spec fn handle_event(self, event: AppEventView) -> (
        AppView,
        Option<WorkerActionView>,
    ) {
        match event {
            AppEventView::ShowsLoaded(shows) => AppView {
                shows,
                status_msg: None,
                ..self
            }.fetch_current(),
            AppEventView::EpisodesLoaded { show_id, episodes } => (
                AppView {
                    episodes_cache: self.episodes_cache.insert(show_id, episodes),
                    fetched_shows_this_session: self.fetched_shows_this_session.insert(show_id),
                    status_msg: None,
                    ..self
                },
                None,
            ),
            AppEventView::Error(text) => (AppView { status_msg: Some(text), ..self }, None),
            AppEventView::EpisodesReloaded => (AppView { diag_msg: None, ..self }, None),
        }
    }
}

} // verus!
