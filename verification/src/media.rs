//! What the server holds: shows and their episodes.
use vstd::prelude::*;

verus! {

/// A series.
#[derive(Debug)]
pub struct Show {
    pub id: String,
    pub name: String,
}

/// What a `Show` stands for.
pub struct ShowView {
    pub id: Seq<char>,
    pub name: Seq<char>,
}

impl View for Show {
    type V = ShowView;

    open spec fn view(&self) -> ShowView {
        ShowView { id: self.id@, name: self.name@ }
    }
}

impl Clone for Show {
    fn clone(&self) -> (s: Self)
        ensures
            s@ == self@,
    {
        Show { id: self.id.clone(), name: self.name.clone() }
    }
}

/// The ticks in which the server counts time, to the second.
pub const TICKS_PER_SECOND: u64 = 10_000_000;

/// One episode of a series. Times are counted in ticks.
#[derive(Debug)]
pub struct Episode {
    pub id: String,
    pub name: String,
    pub season_name: String,
    pub played: bool,
    pub run_time_ticks: u64,
    pub playback_position_ticks: Option<u64>,
}

/// What an `Episode` stands for.
pub struct EpisodeView {
    pub id: Seq<char>,
    pub name: Seq<char>,
    pub season_name: Seq<char>,
    pub played: bool,
    pub run_time_ticks: u64,
    pub playback_position_ticks: Option<u64>,
}

impl View for Episode {
    type V = EpisodeView;

    open spec fn view(&self) -> EpisodeView {
        EpisodeView {
            id: self.id@,
            name: self.name@,
            season_name: self.season_name@,
            played: self.played,
            run_time_ticks: self.run_time_ticks,
            playback_position_ticks: self.playback_position_ticks,
        }
    }
}

impl Clone for Episode {
    fn clone(&self) -> (e: Self)
        ensures
            e@ == self@,
    {
        Episode {
            id: self.id.clone(),
            name: self.name.clone(),
            season_name: self.season_name.clone(),
            played: self.played,
            run_time_ticks: self.run_time_ticks,
            playback_position_ticks: self.playback_position_ticks,
        }
    }
}

impl EpisodeView {
    /// The same episode with the played mark turned over.
    pub open spec fn toggled(self) -> EpisodeView {
        EpisodeView { played: !self.played, ..self }
    }
}

} // verus!
