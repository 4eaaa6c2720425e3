//! What a picture of the client shows of it, line by line and sign by sign.
use vstd::prelude::*;

use crate::media::EpisodeView;
use crate::screen::Color;
use crate::screen::duration;
use crate::screen::duration_reads_back;
use crate::screen::episode_line;
use crate::screen::episode_rows;
use crate::screen::PaneFrame;
use crate::screen::rows_view;
use crate::screen::Screen;
use crate::screen::two_digits_reads_back;
use crate::screen::watched_mark;
use crate::state::ActivePane;
use crate::state::AppView;
use crate::text::decimal_value;
use crate::text::two_digits;
use crate::text::views;

verus! {

/// The list of shows has one line for each show, in their order, and it is its
/// name. The line at the highlight names the show that the keys act on.
pub proof fn every_show_has_its_line(screen: Screen, app: AppView)
    requires
        screen.depicts(app),
    ensures
        screen.shows@.len() == app.shows.len(),
        forall|i: int|
            0 <= i < app.shows.len() ==> (#[trigger] screen.shows@[i])@ == app.shows[i].name,
        app.current_show() is Some ==> screen.shows@[app.shows_state->0 as int]@
            == app.current_show()->0.name,
        screen.shows_selected is Some <==> app.shows_state is Some,
        screen.shows_selected matches Some(i) ==> app.shows_state == Some(i as nat),
{
    assert(views(screen.shows@).len() == screen.shows@.len());
    assert forall|i: int| 0 <= i < app.shows.len() implies (#[trigger] screen.shows@[i])@
        == app.shows[i].name by {
        assert(views(screen.shows@)[i] == screen.shows@[i]@);
    }
}

/// The list of seasons has one line for each season, in their order, and it is its
/// name. Where nothing is known of any season, but there are shows, its one line
/// says that they are loading. The line at the highlight names the season whose
/// episodes are listed.
pub proof fn every_season_has_its_line(screen: Screen, app: AppView)
    requires
        screen.depicts(app),
    ensures
        app.current_seasons().len() > 0 || app.shows.len() == 0 ==> screen.seasons@.len()
            == app.current_seasons().len(),
        app.current_seasons().len() > 0 ==> forall|i: int|
            0 <= i < screen.seasons@.len() ==> (#[trigger] screen.seasons@[i])@
                == app.current_seasons()[i],
        app.current_seasons().len() == 0 && app.shows.len() > 0 ==> screen.seasons@.len() == 1
            && screen.seasons@[0]@ == "Loading..."@,
        app.current_season() is Some ==> screen.seasons@[app.seasons_state->0 as int]@
            == app.current_season()->0,
        screen.seasons_selected is Some <==> app.seasons_state is Some,
        screen.seasons_selected matches Some(i) ==> app.seasons_state == Some(i as nat),
{
    assert(views(screen.seasons@).len() == screen.seasons@.len());
    assert forall|i: int| 0 <= i < screen.seasons@.len() implies (#[trigger] screen.seasons@[i])@
        == views(screen.seasons@)[i] by {}
    if app.current_seasons().len() == 0 && app.shows.len() > 0 {
        assert(screen.seasons@[0]@ == views(screen.seasons@)[0]);
    }
}

/// `text` tells a time of `ticks` in minutes and seconds: digits and a colon before
/// the last two of them, which stand for less than a minute, with zeros in front
/// only to make two digits of one.
pub open spec fn tells_time(text: Seq<char>, ticks: nat) -> bool {
    let colon = text.len() - 3;
    &&& colon >= 2
    &&& forall|i: int|
        0 <= i < text.len() && i != colon ==> '0' <= #[trigger] text[i] <= '9'
    &&& text[colon] == ':'
    &&& decimal_value(text.take(colon)) * 60 + decimal_value(text.skip(colon + 1)) == ticks
        / 10_000_000
    &&& decimal_value(text.skip(colon + 1)) < 60
    &&& colon > 2 ==> text[0] != '0'
}

/// A duration tells the time of its ticks, of which a second has ten million.
pub proof fn a_duration_tells_its_time(ticks: nat)
    ensures
        tells_time(duration(ticks), ticks),
{
    reveal_strlit(":");
    duration_reads_back(ticks);
    let text = duration(ticks);
    let colon = text.len() - 3;
    let seconds = ticks / 10_000_000;
    let minutes = two_digits(seconds / 60);
    let rest = two_digits(seconds % 60);
    two_digits_reads_back(seconds / 60);
    two_digits_reads_back(seconds % 60);
    assert(colon == minutes.len());
    assert forall|i: int| 0 <= i < text.len() && i != colon implies '0' <= #[trigger] text[i]
        <= '9' by {
        if i < colon {
            assert(text[i] == minutes[i]);
        } else {
            assert(text[i] == rest[i - colon - 1]);
        }
    }
    assert(text[0] == minutes[0]);
}

/// `row` shows `episode`: first its mark in brackets, a blank and its name, then
/// its duration. The mark is a cross for one that was played, a tilde for one that
/// was begun, and a blank for another.
pub open spec fn shows_episode(row: Seq<Seq<char>>, episode: EpisodeView) -> bool {
    let begun = episode.playback_position_ticks is Some && episode.playback_position_ticks->0 > 0;
    &&& row.len() == 2
    &&& row[0].len() == 4 + episode.name.len()
    &&& row[0][0] == '[' && row[0][2] == ']' && row[0][3] == ' '
    &&& episode.played ==> row[0][1] == 'x'
    &&& !episode.played && begun ==> row[0][1] == '~'
    &&& !episode.played && !begun ==> row[0][1] == ' '
    &&& row[0].skip(4) == episode.name
    &&& tells_time(row[1], episode.run_time_ticks as nat)
}

/// The line of an episode shows it.
pub proof fn a_line_shows_its_episode(episode: EpisodeView)
    ensures
        shows_episode(episode_line(episode), episode),
{
    reveal_strlit("[x]");
    reveal_strlit("[~]");
    reveal_strlit("[ ]");
    reveal_strlit(" ");
    a_duration_tells_its_time(episode.run_time_ticks as nat);
    assert(watched_mark(episode).len() == 3);
    assert(episode_line(episode)[0].skip(4) =~= episode.name);
}

/// The mark of an episode tells whether it was played, whatever its name is and
/// however far it was played.
pub proof fn a_mark_tells_what_was_played(a: EpisodeView, b: EpisodeView)
    ensures
        a.played && b.played ==> watched_mark(a) == watched_mark(b),
        a.played != b.played ==> watched_mark(a) != watched_mark(b),
{
    reveal_strlit("[x]");
    reveal_strlit("[~]");
    reveal_strlit("[ ]");
    assert(watched_mark(a)[1] == 'x' <==> a.played);
    assert(watched_mark(b)[1] == 'x' <==> b.played);
}

/// The table of episodes has one row for each episode of the season, in their
/// order, which shows it. Where there are none, but there are shows, its one row
/// says that they are loading. The row at the highlight shows the episode that the
/// keys act on.
pub proof fn every_episode_has_its_row(screen: Screen, app: AppView)
    requires
        screen.depicts(app),
    ensures
        app.current_episodes().len() > 0 || app.shows.len() == 0 ==> screen.episodes@.len()
            == app.current_episodes().len(),
        app.current_episodes().len() > 0 ==> forall|i: int|
            0 <= i < screen.episodes@.len() ==> shows_episode(
                views((#[trigger] screen.episodes@[i])@),
                app.current_episodes()[i],
            ),
        app.current_episodes().len() == 0 && app.shows.len() > 0 ==> screen.episodes@.len() == 1
            && views(screen.episodes@[0]@) == seq!["Loading..."@],
        app.current_episode() is Some ==> shows_episode(
            views(screen.episodes@[app.episodes_state->0 as int]@),
            app.current_episode()->0,
        ),
        screen.episodes_selected is Some <==> app.episodes_state is Some,
        screen.episodes_selected matches Some(i) ==> app.episodes_state == Some(i as nat),
{
    let rows = rows_view(screen.episodes@);
    assert(rows.len() == screen.episodes@.len());
    if app.current_episodes().len() > 0 {
        assert forall|i: int| 0 <= i < screen.episodes@.len() implies shows_episode(
            views((#[trigger] screen.episodes@[i])@),
            app.current_episodes()[i],
        ) by {
            assert(rows[i] == views(screen.episodes@[i]@));
            assert(rows[i] == episode_rows(app)[i]);
            a_line_shows_its_episode(app.current_episodes()[i]);
        }
    } else if app.shows.len() > 0 {
        assert(rows[0] == views(screen.episodes@[0]@));
    }
}

/// The bar at the bottom tells an error in red, between a word that it is one and
/// a blank, and otherwise in green that all is well. Beside it stands in grey what
/// is going on, where something is.
pub proof fn the_bar_tells_how_it_stands(screen: Screen, app: AppView)
    requires
        screen.depicts(app),
    ensures
        app.status_msg matches Some(text) ==> {
            &&& screen.status_color == Color::Red
            &&& screen.status@.len() == 8 + text.len() + 1
            &&& screen.status@.take(8) == " ERROR: "@
            &&& screen.status@.subrange(8, 8int + text.len()) == text
            &&& screen.status@.last() == ' '
        },
        app.status_msg is None ==> screen.status_color == Color::Green && screen.status@
            == " Connected to Jellyfin "@,
        screen.diag_color == Color::DarkGray,
        app.diag_msg matches Some(text) ==> screen.diag@ == text,
        app.diag_msg is None ==> screen.diag@.len() == 0,
        screen.bar_height == 1,
        screen.bar_share == 50,
{
    reveal_strlit(" ERROR: ");
    reveal_strlit(" ");
    if let Some(text) = app.status_msg {
        assert(screen.status@.take(8) =~= " ERROR: "@);
        assert(screen.status@.subrange(8, 8int + text.len()) =~= text);
    }
}

/// `frame` is that of a pane with the title `title`: yellow and wide where the pane
/// is active, grey and narrow where not. The episodes are given more room.
pub open spec fn is_frame(
    frame: PaneFrame,
    title: Seq<char>,
    pane: ActivePane,
    active: ActivePane,
) -> bool {
    &&& frame.title@ == title
    &&& pane == active ==> frame.border == Color::Yellow
    &&& pane != active ==> frame.border == Color::DarkGray
    &&& active == ActivePane::Episodes && pane == active ==> frame.width == 60
    &&& active == ActivePane::Episodes && pane != active ==> frame.width == 20
    &&& active != ActivePane::Episodes && pane == active ==> frame.width == 50
    &&& active != ActivePane::Episodes && pane != active ==> frame.width == 25
}

/// Each pane has its own title, and the frame that its state asks for.
pub proof fn every_pane_has_its_frame(screen: Screen, app: AppView)
    requires
        screen.depicts(app),
    ensures
        is_frame(screen.shows_frame, " Shows "@, ActivePane::Shows, app.active_pane),
        is_frame(screen.seasons_frame, " Seasons "@, ActivePane::Seasons, app.active_pane),
        is_frame(screen.episodes_frame, " Episodes "@, ActivePane::Episodes, app.active_pane),
        screen.shows_frame.width + screen.seasons_frame.width + screen.episodes_frame.width == 100,
        screen.duration_column == 6,
{
}

} // verus!
