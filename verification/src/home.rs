//! The home page's hero strip, where "shuffle" draws its item from, and
//! what each screen loads when it is opened or when an item changed.

use vstd::prelude::*;

use crate::browse::Screen;
use crate::text::opt_text;
use crate::jellyfin::models::BaseItemDto;
use crate::text::{
    chars_eq, chars_of, eq_ignore_ascii_case_chars, str_eq, to_ascii_lower, to_ascii_lower_chars,
};

verus! {

/// How many items of a row the hero strip considers.
pub const HERO_ROW_LIMIT: usize = 12;

/// A row of the home page.
#[derive(Debug, Clone, Copy, PartialEq, Eq, Structural)]
pub enum HeroRow {
    ContinueWatching,
    RecentMovies,
    RecentSeries,
}

/// An item of the hero strip: a row and the item's index in it.
#[derive(Debug, Clone, Copy, PartialEq, Eq, Structural)]
pub struct HeroPick {
    pub row: HeroRow,
    pub index: usize,
}

/// The first `HERO_ROW_LIMIT` items of a row, as (row, index, id).
pub open spec fn row_candidates(row: HeroRow, s: Seq<BaseItemDto>) -> Seq<(HeroRow, int, Option<Seq<char>>)> {
    let n = if s.len() < HERO_ROW_LIMIT { s.len() as int } else { HERO_ROW_LIMIT as int };
    Seq::new(n as nat, |i: int| (row, i, opt_text(s[i].id)))
}

/// The id `id` belongs to one of the candidates `c`.
pub open spec fn id_seen(c: Seq<(HeroRow, int, Option<Seq<char>>)>, id: Seq<char>) -> bool {
    exists|k: int| 0 <= k < c.len() && #[trigger] c[k].2 == Some(id)
}

/// The candidates with an id, each id kept at its first appearance, as
/// (row, index, id).
pub open spec fn first_of_each_id(c: Seq<(HeroRow, int, Option<Seq<char>>)>) -> Seq<
    (HeroRow, int, Seq<char>),
>
    decreases c.len(),
{
    if c.len() == 0 {
        Seq::empty()
    } else {
        let rest = first_of_each_id(c.drop_last());
        let x = c.last();
        match x.2 {
            Some(id) => if id_seen(c.drop_last(), id) {
                rest
            } else {
                rest.push((x.0, x.1, id))
            },
            None => rest,
        }
    }
}

/// The row and index of each entry.
pub open spec fn picks_of(d: Seq<(HeroRow, int, Seq<char>)>) -> Seq<(HeroRow, int)> {
    d.map_values(|e: (HeroRow, int, Seq<char>)| (e.0, e.1))
}

/// The hero strip: the first items of "continue watching" and then of the
/// recent movies, each id once and items without an id left out; where that
/// gives nothing, the first recent series.
pub open spec fn hero_picks_spec(
    continue_watching: Seq<BaseItemDto>,
    recent_movies: Seq<BaseItemDto>,
    recent_series_len: nat,
) -> Seq<(HeroRow, int)> {
    let d = first_of_each_id(
        row_candidates(HeroRow::ContinueWatching, continue_watching) + row_candidates(
            HeroRow::RecentMovies,
            recent_movies,
        ),
    );
    if d.len() > 0 {
        picks_of(d)
    } else {
        let n = if recent_series_len < HERO_ROW_LIMIT { recent_series_len as int } else { HERO_ROW_LIMIT as int };
        Seq::new(n as nat, |i: int| (HeroRow::RecentSeries, i))
    }
}

/// The view of a list of picks.
pub open spec fn picks_view(v: Seq<HeroPick>) -> Seq<(HeroRow, int)> {
    v.map_values(|p: HeroPick| (p.row, p.index as int))
}

/// The hero strip never shows an id twice: the entries kept have pairwise
/// different ids, each the id of a candidate.
pub proof fn hero_ids_distinct(c: Seq<(HeroRow, int, Option<Seq<char>>)>)
    ensures
        forall|i: int, j: int|
            0 <= i < j < first_of_each_id(c).len() ==> #[trigger] first_of_each_id(c)[i].2
                != #[trigger] first_of_each_id(c)[j].2,
        forall|i: int|
            0 <= i < first_of_each_id(c).len() ==> id_seen(c, #[trigger] first_of_each_id(c)[i].2),
    decreases c.len(),
{
    if c.len() > 0 {
        let p = c.drop_last();
        hero_ids_distinct(p);
        let d = first_of_each_id(p);
        assert forall|i: int| 0 <= i < d.len() implies id_seen(c, #[trigger] d[i].2) by {
            let k = choose_seen_index(p, d[i].2);
            assert(c[k] == p[k]);
        }
    }
}

proof fn choose_seen_index(c: Seq<(HeroRow, int, Option<Seq<char>>)>, id: Seq<char>) -> (k: int)
    requires
        id_seen(c, id),
    ensures
        0 <= k < c.len(),
        c[k].2 == Some(id),
    decreases c.len(),
{
    if c.last().2 == Some(id) {
        c.len() - 1
    } else {
        let p = c.drop_last();
        assert(id_seen(p, id)) by {
            let w = choose_first_match(c, id);
            assert(p[w] == c[w]);
        }
        let k = choose_seen_index(p, id);
        assert(c[k] == p[k]);
        k
    }
}

proof fn choose_first_match(c: Seq<(HeroRow, int, Option<Seq<char>>)>, id: Seq<char>) -> (k: int)
    requires
        id_seen(c, id),
        c.last().2 != Some(id),
    ensures
        0 <= k < c.len() - 1,
        c[k].2 == Some(id),
    decreases c.len(),
{
    if c[0].2 == Some(id) {
        0
    } else {
        let t = c.drop_first();
        assert(id_seen(t, id)) by {
            assert forall|k: int| 0 <= k < c.len() && #[trigger] c[k].2 == Some(id) implies k > 0 && t[k - 1].2 == Some(id) by {}
        }
        assert(t.last() == c.last());
        let k = choose_first_match(t, id);
        k + 1
    }
}

/// One of the strings `s` reads `id`.
pub open spec fn holds_text(s: Seq<String>, id: Seq<char>) -> bool {
    exists|k: int| 0 <= k < s.len() && #[trigger] s[k]@ == id
}

fn contains_id(seen: &Vec<String>, id: &str) -> (b: bool)
    ensures
        b == holds_text(seen@, id@),
{
    let mut i: usize = 0;
    while i < seen.len()
        invariant
            i <= seen.len(),
            forall|k: int| 0 <= k < i ==> #[trigger] seen@[k]@ != id@,
        decreases seen.len() - i,
    {
        if str_eq(seen[i].as_str(), id) {
            return true;
        }
        i = i + 1;
    }
    false
}

/// The hero strip of the home page, as rows and indices into
/// `continue_watching`, `recent_movies` and (where those give nothing) the
/// recent series, of which there are `recent_series_len`.
pub fn hero_items(
    continue_watching: &Vec<BaseItemDto>,
    recent_movies: &Vec<BaseItemDto>,
    recent_series_len: usize,
) -> (picks: Vec<HeroPick>)
    ensures
        picks_view(picks@) == hero_picks_spec(
            continue_watching@,
            recent_movies@,
            recent_series_len as nat,
        ),
{
    let ghost cands = row_candidates(HeroRow::ContinueWatching, continue_watching@)
        + row_candidates(HeroRow::RecentMovies, recent_movies@);
    let ghost cw_n = row_candidates(HeroRow::ContinueWatching, continue_watching@).len();
    let mut seen: Vec<String> = Vec::new();
    let mut picks: Vec<HeroPick> = Vec::new();
    let mut r: usize = 0;
    while r < 2
        invariant
            r <= 2,
            cands == row_candidates(HeroRow::ContinueWatching, continue_watching@)
                + row_candidates(HeroRow::RecentMovies, recent_movies@),
            cw_n == row_candidates(HeroRow::ContinueWatching, continue_watching@).len(),
            ({
                let done = if r == 0 { 0 } else if r == 1 { cw_n as int } else { cands.len() as int };
                &&& picks_view(picks@) == picks_of(first_of_each_id(cands.take(done)))
                &&& forall|id: Seq<char>| #![trigger holds_text(seen@, id)] #![trigger id_seen(cands.take(done), id)]
                    holds_text(seen@, id) <==> id_seen(cands.take(done), id)
            }),
        decreases 2 - r,
    {
        let row_items = if r == 0 { continue_watching } else { recent_movies };
        let row = if r == 0 { HeroRow::ContinueWatching } else { HeroRow::RecentMovies };
        let ghost start: int = if r == 0 { 0 } else { cw_n as int };
        let limit = if row_items.len() < HERO_ROW_LIMIT { row_items.len() } else { HERO_ROW_LIMIT };
        proof {
            assert(row_candidates(row, row_items@).len() == limit);
            assert forall|i: int| 0 <= i < limit implies #[trigger] cands[start + i] == row_candidates(row, row_items@)[i] by {}
        }
        let mut i: usize = 0;
        while i < limit
            invariant
                i <= limit,
                0 <= start,
                limit <= row_items@.len(),
                limit == row_candidates(row, row_items@).len(),
                start + limit <= cands.len(),
                forall|q: int| 0 <= q < limit ==> #[trigger] cands[start + q] == row_candidates(row, row_items@)[q],
                picks_view(picks@) == picks_of(first_of_each_id(cands.take(start + i))),
                forall|id: Seq<char>| #![trigger holds_text(seen@, id)] #![trigger id_seen(cands.take(start + i), id)]
                    holds_text(seen@, id) <==> id_seen(cands.take(start + i), id),
            decreases limit - i,
        {
            let ghost before = cands.take(start + i);
            let ghost after = cands.take(start + i + 1);
            proof {
                assert(after.drop_last() =~= before);
                assert(after.last() == (row, i as int, opt_text(row_items@[i as int].id)));
                assert forall|id: Seq<char>| id_seen(after, id) <==> (id_seen(before, id) || after.last().2 == Some(id)) by {
                    if id_seen(after, id) && after.last().2 != Some(id) {
                        let w = choose_first_match(after, id);
                        assert(before[w] == after[w]);
                    }
                    if id_seen(before, id) {
                        let w = choose_seen_index(before, id);
                        assert(after[w] == before[w]);
                    }
                }
            }
            match &row_items[i].id {
                Some(id) => {
                    if !contains_id(&seen, id.as_str()) {
                        let ghost old_seen = seen@;
                        let ghost old_picks = picks@;
                        seen.push(id.clone());
                        picks.push(HeroPick { row, index: i });
                        proof {
                            assert(picks_view(picks@) =~= picks_view(old_picks).push((row, i as int)));
                            assert forall|x: Seq<char>| #[trigger] holds_text(seen@, x) <==> id_seen(after, x) by {
                                if holds_text(seen@, x) {
                                    let k = choose_index_with(seen@, x);
                                    if k < old_seen.len() {
                                        assert(old_seen[k] == seen@[k]);
                                    }
                                }
                                if holds_text(old_seen, x) {
                                    let k = choose_index_with(old_seen, x);
                                    assert(seen@[k] == old_seen[k]);
                                }
                                assert(seen@[old_seen.len() as int]@ == id@);
                            }
                        }
                    }
                },
                None => {},
            }
            i = i + 1;
        }
        proof {
            if r == 0 {
                assert(start + limit == cw_n);
            } else {
                assert(start + limit == cands.len());
            }
        }
        r = r + 1;
    }
    proof {
        assert(cands.take(cands.len() as int) =~= cands);
    }
    if picks.len() > 0 {
        return picks;
    }
    let limit = if recent_series_len < HERO_ROW_LIMIT { recent_series_len } else { HERO_ROW_LIMIT };
    let mut j: usize = 0;
    let mut series: Vec<HeroPick> = Vec::new();
    while j < limit
        invariant
            j <= limit,
            picks_view(series@) =~= Seq::new(j as nat, |i: int| (HeroRow::RecentSeries, i)),
        decreases limit - j,
    {
        let ghost old_series = series@;
        series.push(HeroPick { row: HeroRow::RecentSeries, index: j });
        proof {
            assert(picks_view(series@) =~= picks_view(old_series).push((HeroRow::RecentSeries, j as int)));
        }
        j = j + 1;
    }
    series
}

proof fn choose_index_with(s: Seq<String>, x: Seq<char>) -> (k: int)
    requires
        holds_text(s, x),
    ensures
        0 <= k < s.len(),
        s[k]@ == x,
    decreases s.len(),
{
    if s.last()@ == x {
        s.len() - 1
    } else {
        let p = s.drop_last();
        assert(holds_text(p, x)) by {
            assert forall|k: int| 0 <= k < s.len() && #[trigger] s[k]@ == x implies k < p.len() && p[k]@ == x by {}
        }
        let k = choose_index_with(p, x);
        assert(s[k] == p[k]);
        k
    }
}

} // verus!

verus! {

// ---------------------------------------------------------------------------
// Shuffle
// ---------------------------------------------------------------------------

/// A list that "shuffle" draws an item from.
#[derive(Debug, Clone, Copy, PartialEq, Eq, Structural)]
pub enum ShuffleSource {
    DetailEpisodes,
    PlaylistItems,
    DetailRelated,
    RecentMovies,
    RecentSeries,
    ContinueWatching,
    LibraryItems,
    SearchItems,
    CollectionItems,
}

/// How many items each list holds.
#[derive(Debug, Clone, Copy, PartialEq, Eq, Structural)]
pub struct ListSizes {
    pub detail_episodes: usize,
    pub playlist_items: usize,
    pub detail_related: usize,
    pub recent_movies: usize,
    pub recent_series: usize,
    pub continue_watching: usize,
    pub library_items: usize,
    pub search_items: usize,
    pub collection_items: usize,
}

/// The list shuffle draws from: a series' episodes when a series is
/// selected, else the playlist, else related items, else the lists of the
/// screen shown; the first of these that is not empty.
pub open spec fn shuffle_source_spec(selected_type: Option<Seq<char>>, screen: Screen, n: ListSizes) -> Option<
    ShuffleSource,
> {
    if (selected_type matches Some(t) && to_ascii_lower(t) == "series"@) && n.detail_episodes > 0 {
        Some(ShuffleSource::DetailEpisodes)
    } else if n.playlist_items > 0 {
        Some(ShuffleSource::PlaylistItems)
    } else if n.detail_related > 0 {
        Some(ShuffleSource::DetailRelated)
    } else {
        match screen {
            Screen::Home => if n.recent_movies > 0 {
                Some(ShuffleSource::RecentMovies)
            } else if n.recent_series > 0 {
                Some(ShuffleSource::RecentSeries)
            } else if n.continue_watching > 0 {
                Some(ShuffleSource::ContinueWatching)
            } else {
                None
            },
            Screen::Libraries => if n.library_items > 0 {
                Some(ShuffleSource::LibraryItems)
            } else {
                None
            },
            Screen::Search => if n.search_items > 0 {
                Some(ShuffleSource::SearchItems)
            } else {
                None
            },
            Screen::Collections => if n.collection_items > 0 {
                Some(ShuffleSource::CollectionItems)
            } else {
                None
            },
            Screen::Details => if n.detail_episodes > 0 {
                Some(ShuffleSource::DetailEpisodes)
            } else {
                None
            },
            _ => None,
        }
    }
}

/// The list shuffle draws its item from, `selected_type` being the type of
/// the selected item; `None` where every candidate list is empty and the
/// server must pick.
pub fn shuffle_source(selected_type: &Option<String>, screen: Screen, n: ListSizes) -> (s: Option<
    ShuffleSource,
>)
    ensures
        s == shuffle_source_spec(opt_text(*selected_type), screen, n),
{
    let is_series = match selected_type {
        Some(t) => {
            let lower = to_ascii_lower_chars(&chars_of(t.as_str()));
            chars_eq(&lower, &chars_of("series"))
        },
        None => false,
    };
    if is_series && n.detail_episodes > 0 {
        return Some(ShuffleSource::DetailEpisodes);
    }
    if n.playlist_items > 0 {
        return Some(ShuffleSource::PlaylistItems);
    }
    if n.detail_related > 0 {
        return Some(ShuffleSource::DetailRelated);
    }
    match screen {
        Screen::Home => if n.recent_movies > 0 {
            Some(ShuffleSource::RecentMovies)
        } else if n.recent_series > 0 {
            Some(ShuffleSource::RecentSeries)
        } else if n.continue_watching > 0 {
            Some(ShuffleSource::ContinueWatching)
        } else {
            None
        },
        Screen::Libraries => if n.library_items > 0 {
            Some(ShuffleSource::LibraryItems)
        } else {
            None
        },
        Screen::Search => if n.search_items > 0 {
            Some(ShuffleSource::SearchItems)
        } else {
            None
        },
        Screen::Collections => if n.collection_items > 0 {
            Some(ShuffleSource::CollectionItems)
        } else {
            None
        },
        Screen::Details => if n.detail_episodes > 0 {
            Some(ShuffleSource::DetailEpisodes)
        } else {
            None
        },
        _ => None,
    }
}

/// Shuffle draws only from a list that holds items.
pub proof fn shuffle_source_not_empty(selected_type: Option<Seq<char>>, screen: Screen, n: ListSizes)
    ensures
        shuffle_source_spec(selected_type, screen, n) matches Some(src) ==> match src {
            ShuffleSource::DetailEpisodes => n.detail_episodes > 0,
            ShuffleSource::PlaylistItems => n.playlist_items > 0,
            ShuffleSource::DetailRelated => n.detail_related > 0,
            ShuffleSource::RecentMovies => n.recent_movies > 0,
            ShuffleSource::RecentSeries => n.recent_series > 0,
            ShuffleSource::ContinueWatching => n.continue_watching > 0,
            ShuffleSource::LibraryItems => n.library_items > 0,
            ShuffleSource::SearchItems => n.search_items > 0,
            ShuffleSource::CollectionItems => n.collection_items > 0,
        },
{
}

/// The item types the server is asked for when shuffle falls back to it:
/// the selected item's type, else movies, series and episodes.
pub fn shuffle_include_types(selected_type: &Option<String>) -> (v: Vec<String>)
    ensures
        v@.len() == (if selected_type is Some { 1int } else { 3int }),
        selected_type matches Some(t) ==> v@[0]@ == t@,
        selected_type is None ==> v@[0]@ == "Movie"@ && v@[1]@ == "Series"@ && v@[2]@ == "Episode"@,
{
    match selected_type {
        Some(t) => {
            let mut v: Vec<String> = Vec::new();
            v.push(t.clone());
            v
        },
        None => {
            let mut v: Vec<String> = Vec::new();
            v.push(String::from_str("Movie"));
            v.push(String::from_str("Series"));
            v.push(String::from_str("Episode"));
            v
        },
    }
}

// ---------------------------------------------------------------------------
// What a screen loads
// ---------------------------------------------------------------------------

/// A load a screen asks for.
#[derive(Debug, Clone, Copy, PartialEq, Eq, Structural)]
pub enum ScreenLoad {
    HomeSections,
    Search,
    LibraryItems,
    Collections,
    Playlists,
    Tasks,
}

/// Which lists are still empty.
#[derive(Debug, Clone, Copy, PartialEq, Eq, Structural)]
pub struct EmptyLists {
    pub continue_watching: bool,
    pub recent_movies: bool,
    pub search_items: bool,
    pub library_items: bool,
    pub collection_items: bool,
    pub playlists: bool,
}

/// The load that opening `screen` starts: a screen's list is loaded the
/// first time it is opened (the home page while both its first rows are
/// empty), and the admin screen always refreshes its tasks.
pub open spec fn navigate_load_spec(screen: Screen, e: EmptyLists) -> Option<ScreenLoad> {
    match screen {
        Screen::Home => if e.continue_watching && e.recent_movies {
            Some(ScreenLoad::HomeSections)
        } else {
            None
        },
        Screen::Search => if e.search_items {
            Some(ScreenLoad::Search)
        } else {
            None
        },
        Screen::Libraries => if e.library_items {
            Some(ScreenLoad::LibraryItems)
        } else {
            None
        },
        Screen::Collections => if e.collection_items {
            Some(ScreenLoad::Collections)
        } else {
            None
        },
        Screen::Playlists => if e.playlists {
            Some(ScreenLoad::Playlists)
        } else {
            None
        },
        Screen::Admin => Some(ScreenLoad::Tasks),
        _ => None,
    }
}

/// The load to start when the user moves to `screen`.
pub fn navigate_load(screen: Screen, e: EmptyLists) -> (l: Option<ScreenLoad>)
    ensures
        l == navigate_load_spec(screen, e),
{
    match screen {
        Screen::Home => if e.continue_watching && e.recent_movies {
            Some(ScreenLoad::HomeSections)
        } else {
            None
        },
        Screen::Search => if e.search_items {
            Some(ScreenLoad::Search)
        } else {
            None
        },
        Screen::Libraries => if e.library_items {
            Some(ScreenLoad::LibraryItems)
        } else {
            None
        },
        Screen::Collections => if e.collection_items {
            Some(ScreenLoad::Collections)
        } else {
            None
        },
        Screen::Playlists => if e.playlists {
            Some(ScreenLoad::Playlists)
        } else {
            None
        },
        Screen::Admin => Some(ScreenLoad::Tasks),
        _ => None,
    }
}

/// The hero shown after a step from the hero at `index` of `count`: `<`
/// goes back and `>` forward, both wrapping around; an index past the end
/// counts as the first hero.
pub open spec fn hero_step_spec(index: nat, count: nat, forward: bool) -> nat {
    let at = if index >= count { 0 } else { index };
    if forward {
        (at + 1) % count
    } else if at == 0 {
        (count - 1) as nat
    } else {
        (at - 1) as nat
    }
}

/// The hero shown after `<` (`forward` false) or `>` on the hero at
/// `index` of `count`.
pub fn hero_step(index: usize, count: usize, forward: bool) -> (r: usize)
    requires
        count > 0,
    ensures
        r == hero_step_spec(index as nat, count as nat, forward),
        r < count,
{
    let at = if index >= count { 0 } else { index };
    if forward {
        (at + 1) % count
    } else if at == 0 {
        count - 1
    } else {
        at - 1
    }
}

/// The picture of a hero item: its backdrop, unless it is an episode or
/// has no backdrop, in which case its primary image.
pub open spec fn hero_image_type_spec(item: BaseItemDto) -> Seq<char> {
    if !crate::episodes::item_type_is(item, "Episode"@) && (item.image_tags matches Some(tags)
        && tags.backdrop is Some) {
        "Backdrop"@
    } else {
        "Primary"@
    }
}

/// The picture type to request for a hero item.
pub fn hero_image_type(item: &BaseItemDto) -> (t: &'static str)
    ensures
        t@ == hero_image_type_spec(*item),
{
    let is_episode = match &item.item_type {
        Some(k) => eq_ignore_ascii_case_chars(&chars_of(k.as_str()), &chars_of("Episode")),
        None => {
            proof {
                reveal_strlit("Episode");
                assert(to_ascii_lower("Episode"@).len() == 7);
            }
            false
        },
    };
    let has_backdrop = match &item.image_tags {
        Some(tags) => tags.backdrop.is_some(),
        None => false,
    };
    if !is_episode && has_backdrop {
        "Backdrop"
    } else {
        "Primary"
    }
}

} // verus!
