//! What goes back and forth: keys, orders to the network worker and its answers.
use vstd::prelude::*;

use crate::media::Episode;
use crate::media::EpisodeView;
use crate::media::Show;
use crate::media::ShowView;
use crate::text::views;

verus! {

/// A key of the keyboard. `Other` is any key without a meaning here.
#[derive(Debug, Clone, Copy, PartialEq, Eq, Structural)]
pub enum Key {
    Char(char),
    Esc,
    Left,
    Right,
    Up,
    Down,
    Enter,
    Other,
}

/// An order to the network worker.
#[derive(Debug)]
pub enum WorkerAction {
    FetchShows,
    FetchEpisodes { show_id: String, is_reload: bool },
    TogglePlayed { episode_id: String, set_played: bool },
    PlayEpisode { episode_id: String },
}

/// What a `WorkerAction` stands for.
pub enum WorkerActionView {
    FetchShows,
    FetchEpisodes { show_id: Seq<char>, is_reload: bool },
    TogglePlayed { episode_id: Seq<char>, set_played: bool },
    PlayEpisode { episode_id: Seq<char> },
}

impl View for WorkerAction {
    type V = WorkerActionView;

    open spec fn view(&self) -> WorkerActionView {
        match *self {
            WorkerAction::FetchShows => WorkerActionView::FetchShows,
            WorkerAction::FetchEpisodes { show_id, is_reload } => WorkerActionView::FetchEpisodes {
                show_id: show_id@,
                is_reload,
            },
            WorkerAction::TogglePlayed { episode_id, set_played } => WorkerActionView::TogglePlayed {
                episode_id: episode_id@,
                set_played,
            },
            WorkerAction::PlayEpisode { episode_id } => WorkerActionView::PlayEpisode {
                episode_id: episode_id@,
            },
        }
    }
}

/// The view of an optional order.
pub open spec fn action_view(o: Option<WorkerAction>) -> Option<WorkerActionView> {
    match o {
        Some(a) => Some(a@),
        None => None,
    }
}

/// An answer of the network worker.
#[derive(Debug)]
pub enum AppEvent {
    EpisodesReloaded,
    ShowsLoaded(Vec<Show>),
    EpisodesLoaded { show_id: String, episodes: Vec<Episode> },
    Error(String),
}

/// What an `AppEvent` stands for.
pub enum AppEventView {
    EpisodesReloaded,
    ShowsLoaded(Seq<ShowView>),
    EpisodesLoaded { show_id: Seq<char>, episodes: Seq<EpisodeView> },
    Error(Seq<char>),
}

impl View for AppEvent {
    type V = AppEventView;

    open spec fn view(&self) -> AppEventView {
        match *self {
            AppEvent::EpisodesReloaded => AppEventView::EpisodesReloaded,
            AppEvent::ShowsLoaded(shows) => AppEventView::ShowsLoaded(views(shows@)),
            AppEvent::EpisodesLoaded { show_id, episodes } => AppEventView::EpisodesLoaded {
                show_id: show_id@,
                episodes: views(episodes@),
            },
            AppEvent::Error(text) => AppEventView::Error(text@),
        }
    }
}

} // verus!
