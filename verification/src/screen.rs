//! What is drawn: the texts, the colours and the widths of the panes.
use vstd::prelude::*;

use crate::app::App;
use crate::media::Episode;
use crate::media::EpisodeView;
use crate::media::TICKS_PER_SECOND;
use crate::state::ActivePane;
use crate::state::AppView;
use crate::state::index_view;
use crate::text::decimal;
use crate::text::decimal_has_no_leading_zero;
use crate::text::decimal_reads_back;
use crate::text::decimal_value;
use crate::text::two_digits;
use crate::text::two_digits_text;
use crate::text::views;

verus! {

/// The colours in use.
#[derive(Debug, Clone, Copy, PartialEq, Eq, Structural)]
pub enum Color {
    Green,
    Red,
    Yellow,
    DarkGray,
}

/// The share of the screen's width that a pane has, in percent. The active pane
/// is the widest.
pub open spec fn pane_width(pane: ActivePane, active: ActivePane) -> u16 {
    match active {
        ActivePane::Episodes => if pane == active {
            60
        } else {
            20
        },
        _ => if pane == active {
            50
        } else {
            25
        },
    }
}

/// The colour of a pane's border: the active pane stands out.
pub open spec fn border_color(is_active: bool) -> Color {
    if is_active {
        Color::Yellow
    } else {
        Color::DarkGray
    }
}

/// The title of a pane.
pub open spec fn pane_title(pane: ActivePane) -> Seq<char> {
    match pane {
        ActivePane::Shows => " Shows "@,
        ActivePane::Seasons => " Seasons "@,
        ActivePane::Episodes => " Episodes "@,
    }
}

/// The frame around a pane.
#[derive(Debug)]
pub struct PaneFrame {
    pub title: &'static str,
    pub border: Color,
    pub width: u16,
}

/// The frame of `pane` while `active` is the active pane.
pub open spec fn framed(frame: PaneFrame, pane: ActivePane, active: ActivePane) -> bool {
    &&& frame.title@ == pane_title(pane)
    &&& frame.border == border_color(pane == active)
    &&& frame.width == pane_width(pane, active)
}

/// Makes the frame of a pane.
pub fn pane_frame(pane: ActivePane, active: ActivePane) -> (frame: PaneFrame)
    ensures
        framed(frame, pane, active),
{
    let title = match pane {
        ActivePane::Shows => " Shows ",
        ActivePane::Seasons => " Seasons ",
        ActivePane::Episodes => " Episodes ",
    };
    let border = if pane == active {
        Color::Yellow
    } else {
        Color::DarkGray
    };
    let width: u16 = if active == ActivePane::Episodes {
        if pane == active {
            60
        } else {
            20
        }
    } else if pane == active {
        50
    } else {
        25
    };
    PaneFrame { title, border, width }
}

/// The mark in front of an episode: played, begun or neither.
pub open spec fn watched_mark(episode: EpisodeView) -> Seq<char> {
    if episode.played {
        "[x]"@
    } else {
        match episode.playback_position_ticks {
            Some(ticks) if ticks > 0 => "[~]"@,
            _ => "[ ]"@,
        }
    }
}

/// The minutes and seconds of a time in ticks.
pub open spec fn duration(ticks: nat) -> Seq<char> {
    let seconds = ticks / (TICKS_PER_SECOND as nat);
    two_digits(seconds / 60) + ":"@ + two_digits(seconds % 60)
}

/// The line of an episode: its mark and name, and its duration.
pub open spec fn episode_line(episode: EpisodeView) -> Seq<Seq<char>> {
    seq![watched_mark(episode) + " "@ + episode.name, duration(episode.run_time_ticks as nat)]
}

/// Chooses the mark in front of an episode.
pub fn watched_marker(episode: &Episode) -> (s: &'static str)
    ensures
        s@ == watched_mark(episode@),
{
    if episode.played {
        "[x]"
    } else if episode.playback_position_ticks.unwrap_or(0) > 0 {
        "[~]"
    } else {
        "[ ]"
    }
}

/// Writes a time in ticks as minutes and seconds.
pub fn duration_text(ticks: u64) -> (s: String)
    ensures
        s@ == duration(ticks as nat),
{
    let seconds: u64 = ticks / TICKS_PER_SECOND;
    let mut s = two_digits_text(seconds / 60);
    s.append(":");
    s.append(two_digits_text(seconds % 60).as_str());
    s
}

/// Writes the line of an episode.
pub fn episode_cells(episode: &Episode) -> (cells: Vec<String>)
    ensures
        views(cells@) == episode_line(episode@),
{
    let mut name = watched_marker(episode).to_owned();
    name.append(" ");
    name.append(episode.name.as_str());
    let mut cells: Vec<String> = Vec::new();
    cells.push(name);
    cells.push(duration_text(episode.run_time_ticks));
    assert(views(cells@) =~= episode_line(episode@));
    cells
}

/// The items of the list of shows.
pub open spec fn show_items(app: AppView) -> Seq<Seq<char>> {
    Seq::new(app.shows.len(), |i: int| app.shows[i].name)
}

/// The items of the list of seasons, or the word that some are to come.
pub open spec fn season_items(app: AppView) -> Seq<Seq<char>> {
    if app.current_seasons().len() == 0 && app.shows.len() > 0 {
        seq!["Loading..."@]
    } else {
        app.current_seasons()
    }
}

/// The rows of the table of episodes, or the word that some are to come.
pub open spec fn episode_rows(app: AppView) -> Seq<Seq<Seq<char>>> {
    if app.current_episodes().len() == 0 && app.shows.len() > 0 {
        seq![seq!["Loading..."@]]
    } else {
        Seq::new(app.current_episodes().len(), |i: int| episode_line(app.current_episodes()[i]))
    }
}

/// The text at the bottom left, and its colour.
pub open spec fn status_line(app: AppView) -> (Seq<char>, Color) {
    match app.status_msg {
        Some(text) => (" ERROR: "@ + text + " "@, Color::Red),
        None => (" Connected to Jellyfin "@, Color::Green),
    }
}

/// The text at the bottom right.
pub open spec fn diag_line(app: AppView) -> Seq<char> {
    match app.diag_msg {
        Some(text) => text,
        None => Seq::empty(),
    }
}

/// The views of a table of texts.
pub open spec fn rows_view(rows: Seq<Vec<String>>) -> Seq<Seq<Seq<char>>> {
    rows.map_values(|row: Vec<String>| views(row@))
}

/// The width of the column of durations.
pub const DURATION_COLUMN: u16 = 6;

/// The height of the bar at the bottom.
pub const BAR_HEIGHT: u16 = 1;

/// The share of the bar that each of its two texts has, in percent.
pub const BAR_SHARE: u16 = 50;

/// One picture of the client. Each `.._selected` is the index of the item that is
/// highlighted in that list. The bar at the bottom is `bar_height` high, and its
/// two texts have each `bar_share` percent of its width.
#[derive(Debug)]
pub struct Screen {
    pub shows_frame: PaneFrame,
    pub seasons_frame: PaneFrame,
    pub episodes_frame: PaneFrame,
    pub shows: Vec<String>,
    pub seasons: Vec<String>,
    pub episodes: Vec<Vec<String>>,
    pub shows_selected: Option<usize>,
    pub seasons_selected: Option<usize>,
    pub episodes_selected: Option<usize>,
    pub duration_column: u16,
    pub status: String,
    pub status_color: Color,
    pub diag: String,
    pub diag_color: Color,
    pub bar_height: u16,
    pub bar_share: u16,
}

impl Screen {
    /// This is the picture of the state `app`.
    pub open spec fn depicts(self, app: AppView) -> bool {
        &&& framed(self.shows_frame, ActivePane::Shows, app.active_pane)
        &&& framed(self.seasons_frame, ActivePane::Seasons, app.active_pane)
        &&& framed(self.episodes_frame, ActivePane::Episodes, app.active_pane)
        &&& views(self.shows@) == show_items(app)
        &&& views(self.seasons@) == season_items(app)
        &&& rows_view(self.episodes@) == episode_rows(app)
        &&& index_view(self.shows_selected) == app.shows_state
        &&& index_view(self.seasons_selected) == app.seasons_state
        &&& index_view(self.episodes_selected) == app.episodes_state
        &&& self.duration_column == DURATION_COLUMN
        &&& self.status@ == status_line(app).0
        &&& self.status_color == status_line(app).1
        &&& self.diag@ == diag_line(app)
        &&& self.diag_color == Color::DarkGray
        &&& self.bar_height == BAR_HEIGHT
        &&& self.bar_share == BAR_SHARE
    }
}

fn list_shows(app: &App) -> (items: Vec<String>)
    ensures
        views(items@) == show_items(app@),
{
    let mut items: Vec<String> = Vec::new();
    let mut i: usize = 0;
    while i < app.shows.len()
        invariant
            i <= app.shows@.len(),
            views(items@) == show_items(app@).take(i as int),
        decreases app.shows@.len() - i,
    {
        let ghost before = items@;
        items.push(app.shows[i].name.clone());
        assert(views(items@) =~= views(before).push(app@.shows[i as int].name));
        assert(show_items(app@).take(i + 1) =~= show_items(app@).take(i as int).push(
            app@.shows[i as int].name,
        ));
        i = i + 1;
    }
    assert(show_items(app@).take(app.shows@.len() as int) =~= show_items(app@));
    items
}

fn list_seasons(app: &App) -> (items: Vec<String>)
    ensures
        views(items@) == season_items(app@),
{
    let mut items = app.get_current_seasons();
    if items.len() == 0 && app.shows.len() > 0 {
        items.push("Loading...".to_owned());
        assert(views(items@) =~= season_items(app@));
    }
    items
}

fn list_episodes(app: &App) -> (rows: Vec<Vec<String>>)
    ensures
        rows_view(rows@) == episode_rows(app@),
{
    let episodes = app.get_current_episodes();
    let ghost all = app@.current_episodes();
    let ghost lines = Seq::new(all.len(), |i: int| episode_line(all[i]));
    let mut rows: Vec<Vec<String>> = Vec::new();
    if episodes.len() == 0 && app.shows.len() > 0 {
        let mut row: Vec<String> = Vec::new();
        row.push("Loading...".to_owned());
        assert(views(row@) =~= seq!["Loading..."@]);
        rows.push(row);
        assert(rows_view(rows@) =~= episode_rows(app@));
        return rows;
    }
    let mut i: usize = 0;
    while i < episodes.len()
        invariant
            i <= episodes@.len(),
            all == views(episodes@),
            lines == Seq::new(all.len(), |i: int| episode_line(all[i])),
            rows_view(rows@) == lines.take(i as int),
        decreases episodes@.len() - i,
    {
        let ghost before = rows@;
        let row = episode_cells(&episodes[i]);
        rows.push(row);
        assert(all[i as int] == episodes@[i as int]@);
        assert(rows_view(rows@) =~= rows_view(before).push(lines[i as int]));
        assert(lines.take(i + 1) =~= lines.take(i as int).push(lines[i as int]));
        i = i + 1;
    }
    assert(lines.take(lines.len() as int) =~= lines);
    assert(lines =~= episode_rows(app@));
    rows
}

/// Makes the picture of the client.
pub fn ui(app: &App) -> (screen: Screen)
    ensures
        screen.depicts(app@),
{
    let (status, status_color) = match &app.status_msg {
        Some(text) => {
            let mut status = " ERROR: ".to_owned();
            status.append(text.as_str());
            status.append(" ");
            (status, Color::Red)
        },
        None => (" Connected to Jellyfin ".to_owned(), Color::Green),
    };
    let diag = match &app.diag_msg {
        Some(text) => text.clone(),
        None => String::new(),
    };
    Screen {
        shows_frame: pane_frame(ActivePane::Shows, app.active_pane),
        seasons_frame: pane_frame(ActivePane::Seasons, app.active_pane),
        episodes_frame: pane_frame(ActivePane::Episodes, app.active_pane),
        shows: list_shows(app),
        seasons: list_seasons(app),
        episodes: list_episodes(app),
        shows_selected: app.shows_state,
        seasons_selected: app.seasons_state,
        episodes_selected: app.episodes_state,
        duration_column: DURATION_COLUMN,
        status,
        status_color,
        diag,
        diag_color: Color::DarkGray,
        bar_height: BAR_HEIGHT,
        bar_share: BAR_SHARE,
    }
}

/// The three panes fill the width of the screen.
pub proof fn panes_fill_the_width(active: ActivePane)
    ensures
        pane_width(ActivePane::Shows, active) + pane_width(ActivePane::Seasons, active)
            + pane_width(ActivePane::Episodes, active) == 100,
{
}

/// Exactly the active pane stands out, by its border, and no pane is wider.
pub proof fn the_active_pane_stands_out(pane: ActivePane, active: ActivePane)
    ensures
        border_color(pane == active) == Color::Yellow <==> pane == active,
        pane_width(pane, active) <= pane_width(active, active),
        pane_width(pane, active) == pane_width(active, active) <==> pane == active,
{
}

/// `two_digits` has at least two digits, stands for the same number, and has a zero
/// in front only where the number is a single digit.
pub proof fn two_digits_reads_back(n: nat)
    ensures
        decimal_value(two_digits(n)) == n,
        two_digits(n).len() >= 2,
        n < 100 ==> two_digits(n).len() == 2,
        two_digits(n)[0] == '0' <==> n < 10,
        forall|i: int| 0 <= i < two_digits(n).len() ==> '0' <= #[trigger] two_digits(n)[i] <= '9',
{
    reveal_with_fuel(decimal, 3);
    decimal_reads_back(n);
    if n < 10 {
        reveal_with_fuel(decimal_value, 3);
        assert(two_digits(n).drop_last() =~= seq!['0']);
        assert(seq!['0'].drop_last() =~= Seq::<char>::empty());
    } else {
        decimal_has_no_leading_zero(n);
        assert(decimal(n / 10).len() > 0) by {
            decimal_reads_back(n / 10);
        }
    }
}

/// The text of a duration is the minutes, a colon and two digits of seconds, and
/// reads back as the whole seconds of the time.
pub proof fn duration_reads_back(ticks: nat)
    ensures
        ({
            let text = duration(ticks);
            let colon = text.len() - 3;
            &&& colon >= 2
            &&& text[colon] == ':'
            &&& decimal_value(text.take(colon)) * 60 + decimal_value(text.skip(colon + 1)) == ticks
                / (TICKS_PER_SECOND as nat)
            &&& 0 <= decimal_value(text.skip(colon + 1)) < 60
        }),
{
    reveal_strlit(":");
    let seconds = ticks / (TICKS_PER_SECOND as nat);
    two_digits_reads_back(seconds / 60);
    two_digits_reads_back(seconds % 60);
    let text = duration(ticks);
    let colon = text.len() - 3;
    assert(text.take(colon) =~= two_digits(seconds / 60));
    assert(text.skip(colon + 1) =~= two_digits(seconds % 60));
}

/// The text of a duration under a hundred minutes takes exactly five characters.
pub proof fn duration_takes_five_characters(ticks: nat)
    requires
        ticks < 6000 * TICKS_PER_SECOND,
    ensures
        duration(ticks).len() == 5,
{
    reveal_strlit(":");
    let seconds = ticks / (TICKS_PER_SECOND as nat);
    two_digits_reads_back(seconds / 60);
    two_digits_reads_back(seconds % 60);
}

} // verus!
