//! The seasons of a list of episodes, and the episodes of a season.
use vstd::prelude::*;

use crate::media::Episode;
use crate::media::EpisodeView;
use crate::text::views;

verus! {

/// The names of the seasons, in the order of the episodes. A name is listed
/// once for each unbroken run of episodes that carry it.
pub open spec fn season_names(episodes: Seq<EpisodeView>) -> Seq<Seq<char>>
    decreases episodes.len(),
{
    if episodes.len() == 0 {
        Seq::empty()
    } else {
        let before = season_names(episodes.drop_last());
        let name = episodes.last().season_name;
        if before.len() > 0 && before.last() == name {
            before
        } else {
            before.push(name)
        }
    }
}

/// The positions of the episodes of a season, in rising order.
pub open spec fn season_positions(episodes: Seq<EpisodeView>, name: Seq<char>) -> Seq<int>
    decreases episodes.len(),
{
    if episodes.len() == 0 {
        Seq::empty()
    } else {
        let before = season_positions(episodes.drop_last(), name);
        if episodes.last().season_name == name {
            before.push(episodes.len() - 1)
        } else {
            before
        }
    }
}

/// The episodes of a season, in their order.
pub open spec fn season_episodes(episodes: Seq<EpisodeView>, name: Seq<char>) -> Seq<EpisodeView> {
    season_positions(episodes, name).map_values(|i: int| episodes[i])
}

/// The positions of a season are those of its episodes, each once and in order.
pub proof fn season_positions_are_exact(episodes: Seq<EpisodeView>, name: Seq<char>)
    ensures
        ({
            let positions = season_positions(episodes, name);
            &&& forall|k: int|
                0 <= k < positions.len() ==> 0 <= #[trigger] positions[k] < episodes.len()
                    && episodes[positions[k]].season_name == name
            &&& forall|k: int, l: int|
                0 <= k < l < positions.len() ==> #[trigger] positions[k] < #[trigger] positions[l]
            &&& forall|i: int|
                0 <= i < episodes.len() && (#[trigger] episodes[i]).season_name == name
                    ==> positions.contains(i)
        }),
    decreases episodes.len(),
{
    let positions = season_positions(episodes, name);
    if episodes.len() > 0 {
        let front = episodes.drop_last();
        let before = season_positions(front, name);
        season_positions_are_exact(front, name);
        assert forall|k: int| 0 <= k < positions.len() implies 0 <= #[trigger] positions[k]
            < episodes.len() && episodes[positions[k]].season_name == name by {
            if k < before.len() {
                assert(positions[k] == before[k]);
                assert(front[before[k]] == episodes[before[k]]);
            }
        }
        assert forall|k: int, l: int| 0 <= k < l < positions.len() implies #[trigger] positions[k]
            < #[trigger] positions[l] by {
            assert(positions[k] == before[k]);
            if l < before.len() {
                assert(positions[l] == before[l]);
            }
        }
        assert forall|i: int|
            0 <= i < episodes.len() && (#[trigger] episodes[i]).season_name
                == name implies positions.contains(i) by {
            if i < front.len() {
                assert(front[i].season_name == name);
                let k = choose|k: int| 0 <= k < before.len() && before[k] == i;
                assert(positions[k] == i);
            } else {
                assert(positions[positions.len() - 1] == i);
            }
        }
    }
}

/// The episodes of a season are all those that carry its name.
pub proof fn season_episodes_carry_the_name(episodes: Seq<EpisodeView>, name: Seq<char>)
    ensures
        season_episodes(episodes, name) == episodes.filter(
            |e: EpisodeView| e.season_name == name,
        ),
    decreases episodes.len(),
{
    let carries = |e: EpisodeView| e.season_name == name;
    reveal(Seq::filter);
    if episodes.len() == 0 {
        assert(season_episodes(episodes, name) =~= episodes.filter(carries));
    } else {
        let front = episodes.drop_last();
        season_episodes_carry_the_name(front, name);
        season_positions_are_exact(front, name);
        let before = season_positions(front, name);
        assert(before.map_values(|i: int| episodes[i]) =~= before.map_values(|i: int| front[i]));
        assert(season_episodes(episodes, name) =~= episodes.filter(carries));
    }
}

/// Every season that is listed has an episode, every episode belongs to a season
/// that is listed, the list is empty only where there is no episode, and no two
/// neighbours in it are the same.
pub proof fn season_names_cover_the_episodes(episodes: Seq<EpisodeView>)
    ensures
        ({
            let names = season_names(episodes);
            &&& forall|k: int|
                0 <= k < names.len() ==> season_episodes(episodes, #[trigger] names[k]).len() > 0
            &&& forall|i: int|
                0 <= i < episodes.len() ==> names.contains((#[trigger] episodes[i]).season_name)
            &&& forall|k: int, l: int|
                0 <= k && l == k + 1 && l < names.len() ==> #[trigger] names[k]
                    != #[trigger] names[l]
            &&& names.len() <= episodes.len()
            &&& names.len() == 0 <==> episodes.len() == 0
            &&& episodes.len() > 0 ==> names.first() == episodes.first().season_name
                && names.last() == episodes.last().season_name
        }),
    decreases episodes.len(),
{
    let names = season_names(episodes);
    if episodes.len() > 0 {
        let front = episodes.drop_last();
        let before = season_names(front);
        season_names_cover_the_episodes(front);
        assert forall|k: int| 0 <= k < names.len() implies season_episodes(
            episodes,
            #[trigger] names[k],
        ).len() > 0 by {
            if k < before.len() {
                assert(names[k] == before[k]);
                assert(season_episodes(front, before[k]).len() > 0);
                assert(season_positions(front, before[k]).len() > 0);
            }
        }
        assert forall|i: int| 0 <= i < episodes.len() implies names.contains(
            (#[trigger] episodes[i]).season_name,
        ) by {
            if i < front.len() {
                assert(before.contains(front[i].season_name));
                let k = choose|k: int|
                    0 <= k < before.len() && before[k] == front[i].season_name;
                assert(names[k] == front[i].season_name);
            } else {
                assert(names[names.len() - 1] == episodes.last().season_name);
            }
        }
        assert forall|k: int, l: int|
            0 <= k && l == k + 1 && l < names.len() implies #[trigger] names[k]
            != #[trigger] names[l] by {
            assert(names[k] == before[k]);
            if l < before.len() {
                assert(names[l] == before[l]);
            }
        }
    }
}

/// The seasons of a list depend on the season names of its episodes alone.
pub proof fn seasons_depend_on_names_alone(a: Seq<EpisodeView>, b: Seq<EpisodeView>)
    requires
        a.len() == b.len(),
        forall|i: int| 0 <= i < a.len() ==> (#[trigger] a[i]).season_name == b[i].season_name,
    ensures
        season_names(a) == season_names(b),
        forall|name: Seq<char>| #[trigger] season_positions(a, name) == season_positions(b, name),
    decreases a.len(),
{
    if a.len() > 0 {
        assert forall|i: int| 0 <= i < a.len() - 1 implies (#[trigger] a.drop_last()[i]).season_name
            == b.drop_last()[i].season_name by {
            assert(a[i].season_name == b[i].season_name);
        }
        seasons_depend_on_names_alone(a.drop_last(), b.drop_last());
        assert(a[a.len() - 1].season_name == b[b.len() - 1].season_name);
        assert forall|name: Seq<char>| #[trigger]
            season_positions(a, name) == season_positions(b, name) by {
            assert(season_positions(a.drop_last(), name) == season_positions(b.drop_last(), name));
        }
    }
}

/// `names` has one entry for each unbroken run of a season's name: `starts` are
/// the positions, in rising order, at which the name is not that of the episode
/// before, and `names` are the names there.
pub open spec fn runs_begin_at(
    episodes: Seq<EpisodeView>,
    names: Seq<Seq<char>>,
    starts: Seq<int>,
) -> bool {
    &&& names.len() == starts.len()
    &&& forall|k: int|
        0 <= k < starts.len() ==> 0 <= #[trigger] starts[k] < episodes.len() && names[k]
            == episodes[starts[k]].season_name
    &&& forall|k: int, l: int|
        0 <= k < l < starts.len() ==> #[trigger] starts[k] < #[trigger] starts[l]
    &&& forall|i: int|
        0 <= i < episodes.len() ==> (#[trigger] starts.contains(i) <==> (i == 0
            || episodes[i].season_name != episodes[i - 1].season_name))
}

/// The seasons that are listed are the unbroken runs of a name, each once.
pub proof fn season_names_are_the_runs(episodes: Seq<EpisodeView>) -> (starts: Seq<int>)
    ensures
        runs_begin_at(episodes, season_names(episodes), starts),
    decreases episodes.len(),
{
    if episodes.len() == 0 {
        Seq::empty()
    } else {
        let front = episodes.drop_last();
        let at = season_names_are_the_runs(front);
        let before = season_names(front);
        let names = season_names(episodes);
        let last = episodes.len() - 1;
        season_names_cover_the_episodes(front);
        let begins = last == 0 || episodes[last].season_name != episodes[last - 1].season_name;
        if last > 0 {
            assert(front.last() == episodes[last - 1]);
        }
        let starts = if begins {
            at.push(last)
        } else {
            at
        };
        assert(begins <==> names.len() == before.len() + 1);
        assert forall|k: int| 0 <= k < starts.len() implies 0 <= #[trigger] starts[k]
            < episodes.len() && names[k] == episodes[starts[k]].season_name by {
            if k < at.len() {
                assert(starts[k] == at[k]);
                assert(front[at[k]] == episodes[at[k]]);
            }
        }
        assert forall|k: int, l: int| 0 <= k < l < starts.len() implies #[trigger] starts[k]
            < #[trigger] starts[l] by {
            assert(starts[k] == at[k]);
            if l < at.len() {
                assert(starts[l] == at[l]);
            }
        }
        assert forall|i: int| 0 <= i < episodes.len() implies (#[trigger] starts.contains(i) <==> (
        i == 0 || episodes[i].season_name != episodes[i - 1].season_name)) by {
            if i < last {
                assert(front[i] == episodes[i]);
                if i > 0 {
                    assert(front[i - 1] == episodes[i - 1]);
                }
                assert(at.contains(i) <==> (i == 0 || front[i].season_name
                    != front[i - 1].season_name));
                if at.contains(i) {
                    let k = choose|k: int| 0 <= k < at.len() && at[k] == i;
                    assert(starts[k] == i);
                }
                if starts.contains(i) {
                    let k = choose|k: int| 0 <= k < starts.len() && starts[k] == i;
                    assert(at[k] == i);
                }
            } else if begins {
                assert(starts[starts.len() - 1] == i);
            } else if starts.contains(i) {
                let k = choose|k: int| 0 <= k < at.len() && at[k] == i;
                assert(at[k] < front.len());
            }
        }
        starts
    }
}

/// The episode at place `k` of a season is the one that has `k` others of the
/// season before it.
pub proof fn season_positions_count(episodes: Seq<EpisodeView>, name: Seq<char>, k: int)
    requires
        0 <= k < season_positions(episodes, name).len(),
    ensures
        ({
            let at = season_positions(episodes, name)[k];
            episodes.take(at).filter(|e: EpisodeView| e.season_name == name).len() == k
        }),
    decreases episodes.len(),
{
    let front = episodes.drop_last();
    let before = season_positions(front, name);
    let at = season_positions(episodes, name)[k];
    season_positions_are_exact(episodes, name);
    season_positions_are_exact(front, name);
    if k < before.len() {
        season_positions_count(front, name, k);
        assert(episodes.take(at) =~= front.take(at));
    } else {
        assert(episodes.take(at) =~= front);
        season_episodes_carry_the_name(front, name);
    }
}

/// No season is interrupted by another.
pub open spec fn contiguous(episodes: Seq<EpisodeView>) -> bool {
    forall|i: int, j: int, k: int|
        0 <= i < j < k < episodes.len() && (#[trigger] episodes[i]).season_name == (
        #[trigger] episodes[k]).season_name ==> (#[trigger] episodes[j]).season_name
            == episodes[i].season_name
}

proof fn contiguous_front(episodes: Seq<EpisodeView>)
    requires
        contiguous(episodes),
        episodes.len() > 0,
    ensures
        contiguous(episodes.drop_last()),
{
    let front = episodes.drop_last();
    assert forall|i: int, j: int, k: int|
        0 <= i < j < k < front.len() && (#[trigger] front[i]).season_name == (
        #[trigger] front[k]).season_name implies (#[trigger] front[j]).season_name
        == front[i].season_name by {
        assert(front[i] == episodes[i] && front[j] == episodes[j] && front[k] == episodes[k]);
    }
}

/// A season with an episode is carried by one.
proof fn a_season_is_carried(episodes: Seq<EpisodeView>, name: Seq<char>) -> (i: int)
    requires
        season_episodes(episodes, name).len() > 0,
    ensures
        0 <= i < episodes.len(),
        episodes[i].season_name == name,
{
    season_positions_are_exact(episodes, name);
    season_positions(episodes, name)[0]
}

/// Where no season is interrupted by another, each is listed once.
pub proof fn contiguous_seasons_are_listed_once(episodes: Seq<EpisodeView>)
    requires
        contiguous(episodes),
    ensures
        season_names(episodes).no_duplicates(),
    decreases episodes.len(),
{
    if episodes.len() > 0 {
        let front = episodes.drop_last();
        let before = season_names(front);
        let name = episodes.last().season_name;
        contiguous_front(episodes);
        contiguous_seasons_are_listed_once(front);
        season_names_cover_the_episodes(front);
        if before.len() > 0 && before.last() != name {
            assert forall|k: int| 0 <= k < before.len() implies #[trigger] before[k] != name by {
                if before[k] == name {
                    let i = a_season_is_carried(front, name);
                    assert(front[i] == episodes[i]);
                    assert(front.last() == episodes[episodes.len() - 2]);
                    assert(episodes[i].season_name == episodes[episodes.len() - 1].season_name);
                    assert(i < episodes.len() - 2);
                    assert(false);
                }
            }
        }
    }
}

proof fn season_episodes_extend(episodes: Seq<EpisodeView>, name: Seq<char>)
    requires
        episodes.len() > 0,
    ensures
        season_episodes(episodes, name) == (if episodes.last().season_name == name {
            season_episodes(episodes.drop_last(), name).push(episodes.last())
        } else {
            season_episodes(episodes.drop_last(), name)
        }),
{
    let front = episodes.drop_last();
    season_positions_are_exact(front, name);
    let before = season_positions(front, name);
    assert(before.map_values(|i: int| episodes[i]) =~= before.map_values(|i: int| front[i]));
    if episodes.last().season_name == name {
        assert(season_episodes(episodes, name) =~= season_episodes(front, name).push(
            episodes.last(),
        ));
    }
}

/// The episodes of each season that is listed.
pub open spec fn by_season(episodes: Seq<EpisodeView>) -> Seq<Seq<EpisodeView>> {
    Seq::new(
        season_names(episodes).len(),
        |k: int| season_episodes(episodes, season_names(episodes)[k]),
    )
}

/// Where no season is interrupted by another, the seasons one after the other are
/// the whole list.
pub proof fn contiguous_seasons_make_the_whole(episodes: Seq<EpisodeView>)
    requires
        contiguous(episodes),
    ensures
        by_season(episodes).flatten() == episodes,
    decreases episodes.len(),
{
    let parts = by_season(episodes);
    parts.lemma_flatten_and_flatten_alt_are_equivalent();
    if episodes.len() == 0 {
        assert(parts.flatten() =~= episodes);
    } else {
        let front = episodes.drop_last();
        let name = episodes.last().season_name;
        let names = season_names(episodes);
        let before = season_names(front);
        let front_parts = by_season(front);
        let n = names.len() - 1;
        contiguous_front(episodes);
        contiguous_seasons_make_the_whole(front);
        front_parts.lemma_flatten_and_flatten_alt_are_equivalent();
        contiguous_seasons_are_listed_once(episodes);
        season_names_cover_the_episodes(episodes);
        season_names_cover_the_episodes(front);
        assert(names[n] == name);
        season_episodes_extend(episodes, name);
        assert forall|k: int| 0 <= k < n implies #[trigger] parts[k] == front_parts[k] by {
            assert(names[k] == before[k]);
            assert(names[k] != names[n]);
            season_episodes_extend(episodes, names[k]);
        }
        if before.len() == names.len() {
            assert(parts.drop_last() =~= front_parts.drop_last());
            assert(parts.last() == front_parts.last().push(episodes.last()));
        } else {
            if season_episodes(front, name).len() > 0 {
                let i = a_season_is_carried(front, name);
                assert(before.contains(front[i].season_name));
                let k = choose|k: int| 0 <= k < before.len() && before[k] == name;
                assert(names[k] == names[n]);
                assert(false);
            }
            assert(parts.drop_last() =~= front_parts);
            assert(season_episodes(front, name) =~= Seq::empty());
        }
        assert(parts.flatten_alt() =~= front.push(episodes.last()));
        assert(front.push(episodes.last()) =~= episodes);
    }
}

/// The names of the seasons of `episodes`.
pub fn list_seasons(episodes: &Vec<Episode>) -> (seasons: Vec<String>)
    ensures
        views(seasons@) == season_names(views(episodes@)),
{
    let ghost all = views(episodes@);
    let mut seasons: Vec<String> = Vec::new();
    let mut i: usize = 0;
    assert(views(seasons@) =~= season_names(all.take(0)));
    while i < episodes.len()
        invariant
            i <= episodes@.len(),
            all == views(episodes@),
            views(seasons@) == season_names(all.take(i as int)),
        decreases episodes@.len() - i,
    {
        let ghost before = seasons@;
        assert(all.take(i + 1).drop_last() =~= all.take(i as int));
        assert(all.take(i + 1).last() == episodes@[i as int]@);
        let n: usize = seasons.len();
        let repeated = n > 0 && seasons[n - 1] == episodes[i].season_name;
        if !repeated {
            seasons.push(episodes[i].season_name.clone());
            assert(views(seasons@) =~= views(before).push(all[i as int].season_name));
        }
        i = i + 1;
    }
    assert(all.take(all.len() as int) =~= all);
    seasons
}

/// The positions of the episodes of a season.
pub fn list_positions(episodes: &Vec<Episode>, name: &String) -> (positions: Vec<usize>)
    ensures
        positions@.map_values(|i: usize| i as int) == season_positions(views(episodes@), name@),
{
    let ghost all = views(episodes@);
    let mut positions: Vec<usize> = Vec::new();
    let mut i: usize = 0;
    assert(positions@.map_values(|i: usize| i as int) =~= season_positions(all.take(0), name@));
    while i < episodes.len()
        invariant
            i <= episodes@.len(),
            all == views(episodes@),
            positions@.map_values(|i: usize| i as int) == season_positions(
                all.take(i as int),
                name@,
            ),
        decreases episodes@.len() - i,
    {
        let ghost before = positions@;
        assert(all.take(i + 1).drop_last() =~= all.take(i as int));
        assert(all.take(i + 1).last() == episodes@[i as int]@);
        if episodes[i].season_name == *name {
            positions.push(i);
            assert(positions@.map_values(|i: usize| i as int) =~= before.map_values(
                |i: usize| i as int,
            ).push(i as int));
        }
        i = i + 1;
    }
    assert(all.take(all.len() as int) =~= all);
    positions
}

/// The episodes of a season.
pub fn list_episodes(episodes: &Vec<Episode>, name: &String) -> (r: Vec<Episode>)
    ensures
        views(r@) == season_episodes(views(episodes@), name@),
{
    let positions = list_positions(episodes, name);
    let ghost all = views(episodes@);
    let ghost want = season_episodes(all, name@);
    proof {
        season_positions_are_exact(all, name@);
        let mapped = positions@.map_values(|i: usize| i as int);
        assert forall|j: int| 0 <= j < positions@.len() implies (#[trigger] positions@[j])
            < episodes@.len() by {
            assert(mapped[j] == positions@[j]);
        }
    }
    let mut r: Vec<Episode> = Vec::new();
    let mut k: usize = 0;
    while k < positions.len()
        invariant
            k <= positions@.len(),
            all == views(episodes@),
            want == season_episodes(all, name@),
            positions@.map_values(|i: usize| i as int) == season_positions(all, name@),
            forall|j: int|
                0 <= j < positions@.len() ==> (#[trigger] positions@[j]) < episodes@.len(),
            views(r@) == want.take(k as int),
        decreases positions@.len() - k,
    {
        let ghost before = r@;
        let i: usize = positions[k];
        assert(positions@.map_values(|i: usize| i as int)[k as int] == i);
        r.push(episodes[i].clone());
        assert(views(r@) =~= views(before).push(all[i as int]));
        assert(want.take(k + 1) =~= want.take(k as int).push(want[k as int]));
        k = k + 1;
    }
    assert(want.take(want.len() as int) =~= want);
    r
}

} // verus!
