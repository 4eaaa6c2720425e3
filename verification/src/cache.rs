//! The episodes that are known of each show.
use vstd::prelude::*;

use crate::media::Episode;
use crate::media::EpisodeView;
use crate::media::Show;
use crate::media::ShowView;
use crate::text::views;

verus! {

/// The episodes of one show.
#[derive(Debug)]
pub struct CacheEntry {
    pub show_id: String,
    pub episodes: Vec<Episode>,
}

impl View for CacheEntry {
    type V = (Seq<char>, Seq<EpisodeView>);

    open spec fn view(&self) -> (Seq<char>, Seq<EpisodeView>) {
        (self.show_id@, views(self.episodes@))
    }
}

/// A map from the id of a show to its episodes, in the order of the server.
#[derive(Debug)]
pub struct EpisodeCache {
    entries: Vec<CacheEntry>,
}

/// No show occurs twice.
pub open spec fn distinct_shows(entries: Seq<CacheEntry>) -> bool {
    forall|i: int, j: int|
        0 <= i < j < entries.len() ==> #[trigger] entries[i].show_id@
            != #[trigger] entries[j].show_id@
}

/// The map that a list of entries spells out.
pub open spec fn entries_map(entries: Seq<CacheEntry>) -> Map<Seq<char>, Seq<EpisodeView>>
    decreases entries.len(),
{
    if entries.len() == 0 {
        Map::empty()
    } else {
        entries_map(entries.drop_last()).insert(entries.last()@.0, entries.last()@.1)
    }
}

proof fn entries_map_entries(entries: Seq<CacheEntry>)
    requires
        distinct_shows(entries),
    ensures
        forall|i: int|
            0 <= i < entries.len() ==> entries_map(entries).contains_key(
                (#[trigger] entries[i]).show_id@,
            ) && entries_map(entries)[entries[i].show_id@] == views(entries[i].episodes@),
        forall|k: Seq<char>| #[trigger]
            entries_map(entries).contains_key(k) ==> exists|i: int|
                0 <= i < entries.len() && (#[trigger] entries[i]).show_id@ == k,
    decreases entries.len(),
{
    if entries.len() > 0 {
        let front = entries.drop_last();
        entries_map_entries(front);
        assert forall|i: int| 0 <= i < entries.len() implies entries_map(entries).contains_key(
            (#[trigger] entries[i]).show_id@,
        ) && entries_map(entries)[entries[i].show_id@] == views(entries[i].episodes@) by {
            if i < entries.len() - 1 {
                assert(front[i] == entries[i]);
                assert(entries[i].show_id@ != entries[entries.len() - 1].show_id@);
            }
        }
        assert forall|k: Seq<char>| #[trigger] entries_map(entries).contains_key(k) implies exists|
            i: int,
        |
            0 <= i < entries.len() && (#[trigger] entries[i]).show_id@ == k by {
            if entries_map(front).contains_key(k) {
                let i = choose|i: int| 0 <= i < front.len() && (#[trigger] front[i]).show_id@ == k;
                assert(entries[i].show_id@ == k);
            } else {
                assert(entries[entries.len() - 1].show_id@ == k);
            }
        }
    }
}

/// An entry that no later one for the same show follows gives the episodes of that
/// show in the map that the entries spell out.
pub proof fn the_last_entry_counts(entries: Seq<CacheEntry>, i: int)
    requires
        0 <= i < entries.len(),
        forall|j: int| i < j < entries.len() ==> (#[trigger] entries[j]).show_id@
            != entries[i].show_id@,
    ensures
        entries_map(entries).contains_key(entries[i].show_id@),
        entries_map(entries)[entries[i].show_id@] == views(entries[i].episodes@),
    decreases entries.len(),
{
    let last = entries.len() - 1;
    if i < last {
        let front = entries.drop_last();
        assert forall|j: int| i < j < front.len() implies (#[trigger] front[j]).show_id@
            != front[i].show_id@ by {
            assert(front[j] == entries[j]);
        }
        the_last_entry_counts(front, i);
        assert(entries[last].show_id@ != entries[i].show_id@);
    }
}

/// A show that is in the map that entries spell out has an entry.
pub proof fn what_is_known_has_an_entry(entries: Seq<CacheEntry>, id: Seq<char>) -> (i: int)
    requires
        entries_map(entries).contains_key(id),
    ensures
        0 <= i < entries.len(),
        entries[i].show_id@ == id,
    decreases entries.len(),
{
    let last = entries.len() - 1;
    if entries[last].show_id@ == id {
        last
    } else {
        what_is_known_has_an_entry(entries.drop_last(), id)
    }
}

/// Replacing the episodes of one entry replaces one value of the map.
proof fn entries_map_update(before: Seq<CacheEntry>, after: Seq<CacheEntry>, at: int)
    requires
        distinct_shows(before),
        0 <= at < before.len(),
        after.len() == before.len(),
        after[at].show_id@ == before[at].show_id@,
        forall|i: int| 0 <= i < before.len() && i != at ==> #[trigger] after[i] == before[i],
    ensures
        distinct_shows(after),
        entries_map(after) == entries_map(before).insert(before[at].show_id@, after[at]@.1),
{
    assert(distinct_shows(after)) by {
        assert forall|i: int, j: int| 0 <= i < j < after.len() implies #[trigger] after[i].show_id@
            != #[trigger] after[j].show_id@ by {
            assert(before[i].show_id@ != before[j].show_id@);
        }
    }
    entries_map_entries(before);
    entries_map_entries(after);
    let want = entries_map(before).insert(before[at].show_id@, after[at]@.1);
    assert forall|k: Seq<char>| #[trigger]
        entries_map(after).contains_key(k) == want.contains_key(k) by {
        if entries_map(after).contains_key(k) {
            let i = choose|i: int| 0 <= i < after.len() && (#[trigger] after[i]).show_id@ == k;
            assert(before[i].show_id@ == k);
        }
        if want.contains_key(k) && k != before[at].show_id@ {
            let i = choose|i: int| 0 <= i < before.len() && (#[trigger] before[i]).show_id@ == k;
            assert(after[i].show_id@ == k);
        }
    }
    assert forall|k: Seq<char>| #[trigger] entries_map(after).contains_key(k) implies entries_map(
        after,
    )[k] == want[k] by {
        let i = choose|i: int| 0 <= i < after.len() && (#[trigger] after[i]).show_id@ == k;
        assert(before[i].show_id@ == k);
    }
    assert(entries_map(after) =~= want);
}

impl View for EpisodeCache {
    type V = Map<Seq<char>, Seq<EpisodeView>>;

    closed spec fn view(&self) -> Map<Seq<char>, Seq<EpisodeView>> {
        entries_map(self.entries@)
    }
}

impl EpisodeCache {
    #[verifier::type_invariant]
    spec fn well_formed(self) -> bool {
        distinct_shows(self.entries@)
    }

    /// Nothing is known of any show.
    pub fn new() -> (c: Self)
        ensures
            c@ == Map::<Seq<char>, Seq<EpisodeView>>::empty(),
    {
        EpisodeCache { entries: Vec::new() }
    }

    /// The cache that a list of entries spells out. Of two entries for one show the
    /// later one counts.
    pub fn from_entries(entries: &Vec<CacheEntry>) -> (c: Self)
        ensures
            c@ == entries_map(entries@),
    {
        let mut c = EpisodeCache::new();
        let mut i: usize = 0;
        assert(entries@.take(0) =~= Seq::empty());
        while i < entries.len()
            invariant
                i <= entries@.len(),
                c@ == entries_map(entries@.take(i as int)),
            decreases entries@.len() - i,
        {
            let episodes = entries[i].episodes.clone();
            assert(views(episodes@) =~= views(entries@[i as int].episodes@));
            c.insert(entries[i].show_id.clone(), episodes);
            assert(entries@.take(i + 1).drop_last() =~= entries@.take(i as int));
            i = i + 1;
        }
        assert(entries@.take(entries@.len() as int) =~= entries@);
        c
    }

    /// Every show of which episodes are known, once.
    pub fn entries(&self) -> (v: &Vec<CacheEntry>)
        ensures
            distinct_shows(v@),
            entries_map(v@) == self@,
    {
        proof {
            use_type_invariant(self);
        }
        &self.entries
    }

    fn position(entries: &Vec<CacheEntry>, show_id: &String) -> (r: Option<usize>)
        requires
            distinct_shows(entries@),
        ensures
            match r {
                Some(i) => i < entries@.len() && entries@[i as int].show_id@ == show_id@
                    && entries_map(entries@).contains_key(show_id@) && entries_map(
                    entries@,
                )[show_id@] == views(entries@[i as int].episodes@),
                None => !entries_map(entries@).contains_key(show_id@) && forall|i: int|
                    0 <= i < entries@.len() ==> (#[trigger] entries@[i]).show_id@ != show_id@,
            },
    {
        proof {
            entries_map_entries(entries@);
        }
        let mut i: usize = 0;
        while i < entries.len()
            invariant
                i <= entries@.len(),
                forall|j: int| 0 <= j < i ==> (#[trigger] entries@[j]).show_id@ != show_id@,
                forall|j: int|
                    0 <= j < entries@.len() ==> entries_map(entries@).contains_key(
                        (#[trigger] entries@[j]).show_id@,
                    ) && entries_map(entries@)[entries@[j].show_id@] == views(
                        entries@[j].episodes@,
                    ),
            decreases entries@.len() - i,
        {
            if entries[i].show_id == *show_id {
                return Some(i);
            }
            i = i + 1;
        }
        None
    }

    /// The episodes of a show, where they are known.
    pub fn get(&self, show_id: &String) -> (r: Option<&Vec<Episode>>)
        ensures
            match r {
                Some(v) => self@.contains_key(show_id@) && self@[show_id@] == views(v@),
                None => !self@.contains_key(show_id@),
            },
    {
        proof {
            use_type_invariant(self);
        }
        match Self::position(&self.entries, show_id) {
            Some(i) => Some(&self.entries[i].episodes),
            None => None,
        }
    }

    /// Makes `episodes` what is known of a show, whatever was known before.
    pub fn insert(&mut self, show_id: String, episodes: Vec<Episode>)
        ensures
            final(self)@ == old(self)@.insert(show_id@, views(episodes@)),
    {
        proof {
            use_type_invariant(&*self);
        }
        let mut entries: Vec<CacheEntry> = Vec::new();
        std::mem::swap(&mut entries, &mut self.entries);
        let ghost before = entries@;
        match Self::position(&entries, &show_id) {
            Some(i) => {
                let entry = CacheEntry { show_id, episodes };
                entries.set(i, entry);
                proof {
                    entries_map_update(before, entries@, i as int);
                }
            },
            None => {
                let entry = CacheEntry { show_id, episodes };
                entries.push(entry);
                assert(entries@.drop_last() =~= before);
            },
        }
        self.entries = entries;
    }

    /// Turns the played mark of the episode at `index` of a show over, and
    /// tells its id and its new mark.
    pub fn toggle_played(&mut self, show_id: &String, index: usize) -> (r: (String, bool))
        requires
            old(self)@.contains_key(show_id@),
            index < old(self)@[show_id@].len(),
        ensures
            ({
                let episodes = old(self)@[show_id@];
                let episode = episodes[index as int].toggled();
                &&& final(self)@ == old(self)@.insert(
                    show_id@,
                    episodes.update(index as int, episode),
                )
                &&& r.0@ == episode.id
                &&& r.1 == episode.played
            }),
    {
        proof {
            use_type_invariant(&*self);
        }
        let mut entries: Vec<CacheEntry> = Vec::new();
        std::mem::swap(&mut entries, &mut self.entries);
        let ghost before = entries@;
        let i: usize = match Self::position(&entries, show_id) {
            Some(i) => i,
            None => 0,
        };
        let ghost episodes = before[i as int].episodes@;
        entries[i].episodes[index].played = !entries[i].episodes[index].played;
        let r = (entries[i].episodes[index].id.clone(), entries[i].episodes[index].played);
        proof {
            assert(views(entries@[i as int].episodes@) =~= views(episodes).update(
                index as int,
                views(episodes)[index as int].toggled(),
            ));
            entries_map_update(before, entries@, i as int);
        }
        self.entries = entries;
        r
    }
}

impl Clone for EpisodeCache {
    fn clone(&self) -> (c: Self)
        ensures
            c@ == self@,
    {
        EpisodeCache::from_entries(&self.entries)
    }
}

/// What is kept from one run of the client to the next.
#[derive(Debug)]
pub struct AppCache {
    pub shows: Vec<Show>,
    pub episodes_cache: EpisodeCache,
}

/// What an `AppCache` stands for.
pub struct AppCacheView {
    pub shows: Seq<ShowView>,
    pub episodes_cache: Map<Seq<char>, Seq<EpisodeView>>,
}

impl View for AppCache {
    type V = AppCacheView;

    open spec fn view(&self) -> AppCacheView {
        AppCacheView { shows: views(self.shows@), episodes_cache: self.episodes_cache@ }
    }
}

impl AppCache {
    /// What is to be kept of a client with these shows and episodes.
    pub fn of(shows: &Vec<Show>, episodes_cache: &EpisodeCache) -> (c: AppCache)
        ensures
            c@.shows == views(shows@),
            c@.episodes_cache == episodes_cache@,
    {
        let kept = shows.clone();
        assert(views(kept@) =~= views(shows@));
        AppCache { shows: kept, episodes_cache: episodes_cache.clone() }
    }
}

} // verus!
