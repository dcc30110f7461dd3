//! Episode order within a season, moving between episodes and on to the next
//! season, and which season the details screen shows.

use vstd::prelude::*;

use crate::jellyfin::models::BaseItemDto;
use crate::text::{chars_of, eq_ignore_ascii_case_chars, opt_text, str_eq};

verus! {

broadcast use vstd::seq_lib::group_to_multiset_ensures;

// ---------------------------------------------------------------------------
// Text order
// ---------------------------------------------------------------------------

/// `a` comes before `b` in the order of `str`: character by character by
/// code point, a proper prefix first.
pub open spec fn text_lt(a: Seq<char>, b: Seq<char>) -> bool
    decreases a.len(),
{
    if a.len() == 0 {
        b.len() > 0
    } else if b.len() == 0 {
        false
    } else if a[0] != b[0] {
        (a[0] as u32) < (b[0] as u32)
    } else {
        text_lt(a.drop_first(), b.drop_first())
    }
}

/// The order of texts is transitive.
pub proof fn text_lt_transitive(a: Seq<char>, b: Seq<char>, c: Seq<char>)
    requires
        text_lt(a, b),
        text_lt(b, c),
    ensures
        text_lt(a, c),
    decreases a.len(),
{
    if a.len() > 0 && b.len() > 0 && c.len() > 0 && a[0] == b[0] && b[0] == c[0] {
        text_lt_transitive(a.drop_first(), b.drop_first(), c.drop_first());
    }
}

/// No text comes before itself.
pub proof fn text_lt_irreflexive(a: Seq<char>)
    ensures
        !text_lt(a, a),
    decreases a.len(),
{
    if a.len() > 0 {
        text_lt_irreflexive(a.drop_first());
    }
}

/// Of two different texts, one comes before the other.
pub proof fn text_lt_total(a: Seq<char>, b: Seq<char>)
    ensures
        text_lt(a, b) || text_lt(b, a) || a == b,
    decreases a.len(),
{
    if a.len() > 0 && b.len() > 0 {
        if a[0] == b[0] {
            text_lt_total(a.drop_first(), b.drop_first());
            if a.drop_first() == b.drop_first() {
                assert(a =~= seq![a[0]] + a.drop_first());
                assert(b =~= seq![b[0]] + b.drop_first());
            }
        } else {
            vstd::utf8::char_u32_cast(a[0], a[0] as u32);
            vstd::utf8::char_u32_cast(b[0], b[0] as u32);
        }
    } else if a.len() == 0 && b.len() == 0 {
        assert(a =~= b);
    }
}

fn text_lt_exec(a: &Vec<char>, b: &Vec<char>) -> (r: bool)
    ensures
        r == text_lt(a@, b@),
{
    let mut i: usize = 0;
    assert(a@.skip(0) =~= a@);
    assert(b@.skip(0) =~= b@);
    while i < a.len() && i < b.len() && a[i] == b[i]
        invariant
            i <= a.len(),
            i <= b.len(),
            text_lt(a@, b@) == text_lt(a@.skip(i as int), b@.skip(i as int)),
        decreases a.len() - i,
    {
        proof {
            assert(a@.skip(i as int).drop_first() =~= a@.skip(i + 1));
            assert(b@.skip(i as int).drop_first() =~= b@.skip(i + 1));
        }
        i = i + 1;
    }
    if i == a.len() {
        i < b.len()
    } else if i == b.len() {
        false
    } else {
        (a[i] as u32) < (b[i] as u32)
    }
}

// ---------------------------------------------------------------------------
// Episode order
// ---------------------------------------------------------------------------

/// The number an episode is ordered by; episodes without one go last.
pub open spec fn episode_number(e: BaseItemDto) -> int {
    match e.index_number {
        Some(n) => n as int,
        None => i32::MAX as int,
    }
}

/// The name an episode is ordered by among equal numbers; none counts as
/// empty.
pub open spec fn episode_name(e: BaseItemDto) -> Seq<char> {
    match e.name {
        Some(n) => n@,
        None => Seq::empty(),
    }
}

/// `a` is listed before `b`: by number, then by name.
pub open spec fn episode_before(a: BaseItemDto, b: BaseItemDto) -> bool {
    episode_number(a) < episode_number(b) || (episode_number(a) == episode_number(b) && text_lt(
        episode_name(a),
        episode_name(b),
    ))
}

/// Where `x` goes in the ordered list `s`: before the first episode it is
/// listed before, so after every episode it ties with.
pub open spec fn insert_pos(s: Seq<BaseItemDto>, x: BaseItemDto) -> nat
    decreases s.len(),
{
    if s.len() == 0 {
        0
    } else if episode_before(x, s[0]) {
        0
    } else {
        1 + insert_pos(s.drop_first(), x)
    }
}

/// `s` with `x` put in its place.
pub open spec fn insert_episode(s: Seq<BaseItemDto>, x: BaseItemDto) -> Seq<BaseItemDto> {
    s.insert(insert_pos(s, x) as int, x)
}

/// The episodes `s` in episode order; episodes that tie keep the order they
/// had in `s`.
pub open spec fn sort_episodes(s: Seq<BaseItemDto>) -> Seq<BaseItemDto>
    decreases s.len(),
{
    if s.len() == 0 {
        s
    } else {
        insert_episode(sort_episodes(s.drop_last()), s.last())
    }
}

/// No episode of `s` is listed before one that precedes it.
pub open spec fn in_episode_order(s: Seq<BaseItemDto>) -> bool {
    forall|i: int, j: int| 0 <= i < j < s.len() ==> !episode_before(#[trigger] s[j], #[trigger] s[i])
}

/// Listing before is transitive.
pub proof fn episode_before_transitive(a: BaseItemDto, b: BaseItemDto, c: BaseItemDto)
    requires
        episode_before(a, b),
        episode_before(b, c),
    ensures
        episode_before(a, c),
{
    if episode_number(a) == episode_number(b) && episode_number(b) == episode_number(c) {
        text_lt_transitive(episode_name(a), episode_name(b), episode_name(c));
    }
}

proof fn insert_pos_facts(s: Seq<BaseItemDto>, x: BaseItemDto)
    ensures
        insert_pos(s, x) <= s.len(),
        forall|k: int| 0 <= k < insert_pos(s, x) ==> !episode_before(x, #[trigger] s[k]),
        insert_pos(s, x) < s.len() ==> episode_before(x, s[insert_pos(s, x) as int]),
    decreases s.len(),
{
    if s.len() > 0 && !episode_before(x, s[0]) {
        insert_pos_facts(s.drop_first(), x);
        assert forall|k: int| 0 <= k < insert_pos(s, x) implies !episode_before(x, #[trigger] s[k]) by {
            if k > 0 {
                assert(s[k] == s.drop_first()[k - 1]);
            }
        }
    }
}

proof fn insert_keeps_order(s: Seq<BaseItemDto>, x: BaseItemDto)
    requires
        in_episode_order(s),
    ensures
        in_episode_order(insert_episode(s, x)),
        insert_episode(s, x).to_multiset() =~= s.to_multiset().insert(x),
{
    insert_pos_facts(s, x);
    let p = insert_pos(s, x) as int;
    let r = insert_episode(s, x);
    assert(r.len() == s.len() + 1);
    assert forall|i: int, j: int| 0 <= i < j < r.len() implies !episode_before(
        #[trigger] r[j],
        #[trigger] r[i],
    ) by {
        if i < p && j < p {
            assert(r[i] == s[i] && r[j] == s[j]);
        } else if i < p && j == p {
            assert(r[i] == s[i] && r[j] == x);
        } else if i < p {
            assert(r[i] == s[i] && r[j] == s[j - 1]);
        } else if i == p {
            assert(r[j] == s[j - 1]);
            if episode_before(s[j - 1], x) {
                text_lt_irreflexive(episode_name(s[p]));
                if j - 1 > p {
                    assert(!episode_before(s[j - 1], s[p]));
                }
                episode_before_transitive(s[j - 1], x, s[p]);
            }
        } else {
            assert(r[i] == s[i - 1] && r[j] == s[j - 1]);
        }
    }
    assert(r.remove(p) =~= s);
    assert(r[p] == x);
    assert(r.to_multiset().remove(x) =~= s.to_multiset());
    assert(r.to_multiset().count(x) > 0);
}

/// The episode order sorts: the result is in episode order and holds the
/// same episodes as its input, each as often.
pub proof fn sort_episodes_sorts(s: Seq<BaseItemDto>)
    ensures
        in_episode_order(sort_episodes(s)),
        sort_episodes(s).to_multiset() =~= s.to_multiset(),
    decreases s.len(),
{
    if s.len() > 0 {
        sort_episodes_sorts(s.drop_last());
        insert_keeps_order(sort_episodes(s.drop_last()), s.last());
        assert(s =~= s.drop_last().push(s.last()));
    }
}

fn name_chars(e: &BaseItemDto) -> (v: Vec<char>)
    ensures
        v@ == episode_name(*e),
{
    match &e.name {
        Some(n) => chars_of(n.as_str()),
        None => Vec::new(),
    }
}

fn episode_number_of(e: &BaseItemDto) -> (n: i32)
    ensures
        n as int == episode_number(*e),
{
    match e.index_number {
        Some(n) => n,
        None => i32::MAX,
    }
}

fn episode_before_exec(a: &BaseItemDto, b: &BaseItemDto) -> (r: bool)
    ensures
        r == episode_before(*a, *b),
{
    let na = episode_number_of(a);
    let nb = episode_number_of(b);
    if na < nb {
        true
    } else if na > nb {
        false
    } else {
        text_lt_exec(&name_chars(a), &name_chars(b))
    }
}

fn insert_position(s: &Vec<BaseItemDto>, x: &BaseItemDto) -> (p: usize)
    ensures
        p == insert_pos(s@, *x),
{
    let mut i: usize = 0;
    assert(s@.skip(0) =~= s@);
    while i < s.len() && !episode_before_exec(x, &s[i])
        invariant
            i <= s.len(),
            insert_pos(s@, *x) == i + insert_pos(s@.skip(i as int), *x),
        decreases s.len() - i,
    {
        proof {
            assert(s@.skip(i as int).drop_first() =~= s@.skip(i + 1));
        }
        i = i + 1;
    }
    i
}

/// The episodes `items` in episode order (by number, episodes without one
/// last, then by name; ties keep their order).
pub fn sorted_episode_items(items: Vec<BaseItemDto>) -> (r: Vec<BaseItemDto>)
    ensures
        r@ == sort_episodes(items@),
{
    let ghost orig = items@;
    let mut rest = items;
    let mut out: Vec<BaseItemDto> = Vec::new();
    let ghost mut k: int = 0;
    assert(orig.take(0) =~= Seq::<BaseItemDto>::empty());
    assert(orig.skip(0) =~= orig);
    while rest.len() > 0
        invariant
            0 <= k <= orig.len(),
            out@ == sort_episodes(orig.take(k)),
            rest@ == orig.skip(k),
        decreases rest.len(),
    {
        let x = rest.remove(0);
        let p = insert_position(&out, &x);
        proof {
            insert_pos_facts(out@, x);
        }
        out.insert(p, x);
        proof {
            assert(orig.take(k + 1).drop_last() =~= orig.take(k));
            assert(orig.skip(k + 1) =~= orig.skip(k).remove(0));
            k = k + 1;
        }
    }
    assert(orig.take(k) =~= orig);
    out
}

} // verus!

verus! {

// ---------------------------------------------------------------------------
// The next season
// ---------------------------------------------------------------------------

/// `item` has the id `id`.
pub open spec fn has_id(item: BaseItemDto, id: Seq<char>) -> bool {
    item.id matches Some(i) && i@ == id
}

/// The seasons of `s` that have an id and a positive number, as
/// (number, id), in list order.
pub open spec fn numbered_seasons(s: Seq<BaseItemDto>) -> Seq<(i32, Seq<char>)>
    decreases s.len(),
{
    if s.len() == 0 {
        Seq::empty()
    } else {
        let rest = numbered_seasons(s.drop_last());
        let x = s.last();
        match (x.id, x.index_number) {
            (Some(id), Some(n)) => if n > 0 {
                rest.push((n, id@))
            } else {
                rest
            },
            _ => rest,
        }
    }
}

/// Where a season numbered `n` goes in `s`: after every season whose number
/// is not above `n`.
pub open spec fn number_pos(s: Seq<(i32, Seq<char>)>, n: i32) -> nat
    decreases s.len(),
{
    if s.len() == 0 {
        0
    } else if n < s[0].0 {
        0
    } else {
        1 + number_pos(s.drop_first(), n)
    }
}

/// The seasons `s` ordered by number; equal numbers keep their order.
pub open spec fn sort_by_number(s: Seq<(i32, Seq<char>)>) -> Seq<(i32, Seq<char>)>
    decreases s.len(),
{
    if s.len() == 0 {
        s
    } else {
        let r = sort_by_number(s.drop_last());
        r.insert(number_pos(r, s.last().0) as int, s.last())
    }
}

/// The first place in `s` that holds the season `id`.
pub open spec fn position_of_id(s: Seq<(i32, Seq<char>)>, id: Seq<char>) -> Option<nat>
    decreases s.len(),
{
    if s.len() == 0 {
        None
    } else if s[0].1 == id {
        Some(0)
    } else {
        match position_of_id(s.drop_first(), id) {
            Some(p) => Some(p + 1),
            None => None,
        }
    }
}

/// The id of the first season in `s` numbered above `n`.
pub open spec fn first_numbered_above(s: Seq<(i32, Seq<char>)>, n: i32) -> Option<Seq<char>>
    decreases s.len(),
{
    if s.len() == 0 {
        None
    } else if s[0].0 > n {
        Some(s[0].1)
    } else {
        first_numbered_above(s.drop_first(), n)
    }
}

/// The first season of `s` with the id `id`.
pub open spec fn season_with_id(s: Seq<BaseItemDto>, id: Seq<char>) -> Option<BaseItemDto>
    decreases s.len(),
{
    if s.len() == 0 {
        None
    } else if s[0].id matches Some(i) && i@ == id {
        Some(s[0])
    } else {
        season_with_id(s.drop_first(), id)
    }
}

/// The season an episode belongs to: its season, else its parent, else the
/// season selected on screen.
pub open spec fn current_season_id(episode: BaseItemDto, selected: Option<Seq<char>>) -> Option<
    Seq<char>,
> {
    match episode.season_id {
        Some(s) => Some(s@),
        None => match episode.parent_id {
            Some(p) => Some(p@),
            None => selected,
        },
    }
}

/// The number of the season an episode belongs to: the episode's season
/// number when positive, else the positive number of the selected season.
pub open spec fn current_season_number(
    episode: BaseItemDto,
    seasons: Seq<BaseItemDto>,
    selected: Option<Seq<char>>,
) -> Option<i32> {
    match episode.parent_index_number {
        Some(n) if n > 0 => Some(n),
        _ => match selected {
            Some(sel) => match season_with_id(seasons, sel) {
                Some(season) => match season.index_number {
                    Some(n) if n > 0 => Some(n),
                    _ => None,
                },
                None => None,
            },
            None => None,
        },
    }
}

/// The season that follows the episode's season: where the episode's season
/// is among the numbered seasons, the one after it in number order (none
/// after the last); otherwise the first numbered above the episode's
/// season number.
pub open spec fn next_season_id(
    seasons: Seq<BaseItemDto>,
    selected: Option<Seq<char>>,
    episode: BaseItemDto,
) -> Option<Seq<char>> {
    let ordered = sort_by_number(numbered_seasons(seasons));
    let by_id = match current_season_id(episode, selected) {
        Some(cur) => position_of_id(ordered, cur),
        None => None,
    };
    match by_id {
        Some(p) => if p + 1 < ordered.len() {
            Some(ordered[p + 1 as int].1)
        } else {
            None
        },
        None => match current_season_number(episode, seasons, selected) {
            Some(n) => first_numbered_above(ordered, n),
            None => None,
        },
    }
}

/// The texts of (number, id) pairs.
pub open spec fn pairs_view(v: Seq<(i32, String)>) -> Seq<(i32, Seq<char>)> {
    v.map_values(|p: (i32, String)| (p.0, p.1@))
}

fn numbered_season_list(seasons: &Vec<BaseItemDto>) -> (v: Vec<(i32, String)>)
    ensures
        pairs_view(v@) == numbered_seasons(seasons@),
{
    let mut v: Vec<(i32, String)> = Vec::new();
    let mut i: usize = 0;
    while i < seasons.len()
        invariant
            i <= seasons.len(),
            pairs_view(v@) == numbered_seasons(seasons@.take(i as int)),
        decreases seasons.len() - i,
    {
        proof {
            assert(seasons@.take(i + 1).drop_last() =~= seasons@.take(i as int));
        }
        let season = &seasons[i];
        match (&season.id, season.index_number) {
            (Some(id), Some(n)) => {
                if n > 0 {
                    let ghost before = v@;
                    v.push((n, id.clone()));
                    proof {
                        assert(pairs_view(v@) =~= pairs_view(before).push((n, id@)));
                    }
                }
            },
            _ => {},
        }
        i = i + 1;
    }
    assert(seasons@.take(seasons@.len() as int) =~= seasons@);
    v
}

fn number_position(s: &Vec<(i32, String)>, n: i32) -> (p: usize)
    ensures
        p == number_pos(pairs_view(s@), n),
        p <= s.len(),
{
    let ghost sv = pairs_view(s@);
    let mut i: usize = 0;
    assert(sv.skip(0) =~= sv);
    while i < s.len() && !(n < s[i].0)
        invariant
            i <= s.len(),
            sv == pairs_view(s@),
            number_pos(sv, n) == i + number_pos(sv.skip(i as int), n),
        decreases s.len() - i,
    {
        proof {
            assert(sv.skip(i as int).drop_first() =~= sv.skip(i + 1));
        }
        i = i + 1;
    }
    i
}

fn sort_numbered(items: Vec<(i32, String)>) -> (r: Vec<(i32, String)>)
    ensures
        pairs_view(r@) == sort_by_number(pairs_view(items@)),
{
    let ghost orig = pairs_view(items@);
    let mut rest = items;
    let mut out: Vec<(i32, String)> = Vec::new();
    let ghost mut k: int = 0;
    assert(orig.take(0) =~= Seq::<(i32, Seq<char>)>::empty());
    assert(pairs_view(rest@) =~= orig.skip(0));
    while rest.len() > 0
        invariant
            0 <= k <= orig.len(),
            pairs_view(out@) == sort_by_number(orig.take(k)),
            pairs_view(rest@) == orig.skip(k),
        decreases rest.len(),
    {
        let ghost rest_before = rest@;
        let ghost out_before = out@;
        let x = rest.remove(0);
        let p = number_position(&out, x.0);
        proof {
            assert(pairs_view(rest@) =~= pairs_view(rest_before).skip(1));
            assert(orig.skip(k)[0] == (x.0, x.1@));
        }
        out.insert(p, x);
        proof {
            assert(pairs_view(out@) =~= pairs_view(out_before).insert(p as int, (x.0, x.1@)));
            assert(orig.take(k + 1).drop_last() =~= orig.take(k));
            assert(orig.take(k + 1).last() == orig.skip(k)[0]);
            assert(orig.skip(k + 1) =~= orig.skip(k).skip(1));
            k = k + 1;
        }
    }
    assert(orig.take(k) =~= orig);
    out
}

fn position_of_season_id(s: &Vec<(i32, String)>, id: &str) -> (r: Option<usize>)
    ensures
        match r {
            Some(p) => position_of_id(pairs_view(s@), id@) == Some(p as nat) && p < s.len(),
            None => position_of_id(pairs_view(s@), id@) is None,
        },
{
    let ghost sv = pairs_view(s@);
    let mut i: usize = 0;
    assert(sv.skip(0) =~= sv);
    while i < s.len()
        invariant
            i <= s.len(),
            sv == pairs_view(s@),
            position_of_id(sv, id@) == match position_of_id(sv.skip(i as int), id@) {
                Some(q) => Some((q + i) as nat),
                None => None::<nat>,
            },
        decreases s.len() - i,
    {
        if str_eq(s[i].1.as_str(), id) {
            return Some(i);
        }
        proof {
            assert(sv.skip(i as int).drop_first() =~= sv.skip(i + 1));
        }
        i = i + 1;
    }
    None
}

fn first_id_numbered_above(s: &Vec<(i32, String)>, n: i32) -> (r: Option<String>)
    ensures
        match r {
            Some(id) => first_numbered_above(pairs_view(s@), n) == Some(id@),
            None => first_numbered_above(pairs_view(s@), n) is None,
        },
{
    let ghost sv = pairs_view(s@);
    let mut i: usize = 0;
    assert(sv.skip(0) =~= sv);
    while i < s.len()
        invariant
            i <= s.len(),
            sv == pairs_view(s@),
            first_numbered_above(sv, n) == first_numbered_above(sv.skip(i as int), n),
        decreases s.len() - i,
    {
        if s[i].0 > n {
            return Some(s[i].1.clone());
        }
        proof {
            assert(sv.skip(i as int).drop_first() =~= sv.skip(i + 1));
        }
        i = i + 1;
    }
    None
}

fn season_number_for_id(seasons: &Vec<BaseItemDto>, id: &str) -> (r: Option<i32>)
    ensures
        r == match season_with_id(seasons@, id@) {
            Some(season) => match season.index_number {
                Some(n) if n > 0 => Some(n),
                _ => None,
            },
            None => None,
        },
{
    let mut i: usize = 0;
    assert(seasons@.skip(0) =~= seasons@);
    while i < seasons.len()
        invariant
            i <= seasons.len(),
            season_with_id(seasons@, id@) == season_with_id(seasons@.skip(i as int), id@),
        decreases seasons.len() - i,
    {
        let matches = match &seasons[i].id {
            Some(sid) => str_eq(sid.as_str(), id),
            None => false,
        };
        if matches {
            return match seasons[i].index_number {
                Some(n) => if n > 0 {
                    Some(n)
                } else {
                    None
                },
                None => None,
            };
        }
        proof {
            assert(seasons@.skip(i as int).drop_first() =~= seasons@.skip(i + 1));
        }
        i = i + 1;
    }
    None
}

/// The id of the season that follows `episode`'s season, `seasons` being
/// the seasons of its series and `selected_season_id` the season on screen.
pub fn next_numbered_season_id_for_episode(
    seasons: &Vec<BaseItemDto>,
    selected_season_id: &Option<String>,
    episode: &BaseItemDto,
) -> (r: Option<String>)
    ensures
        opt_text(r) == next_season_id(
            seasons@,
            opt_text(*selected_season_id),
            *episode,
        ),
{
    let ordered = sort_numbered(numbered_season_list(seasons));
    let current: Option<&String> = match &episode.season_id {
        Some(s) => Some(s),
        None => match &episode.parent_id {
            Some(p) => Some(p),
            None => match selected_season_id {
                Some(sel) => Some(sel),
                None => None,
            },
        },
    };
    if let Some(cur) = current {
        if let Some(p) = position_of_season_id(&ordered, cur.as_str()) {
            if p + 1 < ordered.len() {
                return Some(ordered[p + 1].1.clone());
            }
            return None;
        }
    }
    let number: Option<i32> = match episode.parent_index_number {
        Some(n) if n > 0 => Some(n),
        _ => match selected_season_id {
            Some(sel) => season_number_for_id(seasons, sel.as_str()),
            None => None,
        },
    };
    match number {
        Some(n) => first_id_numbered_above(&ordered, n),
        None => None,
    }
}

} // verus!

verus! {

// ---------------------------------------------------------------------------
// Moving between episodes
// ---------------------------------------------------------------------------

/// Where an episode stands in its season's episode order, by index.
#[derive(Debug, Clone, Copy, PartialEq, Eq)]
pub struct EpisodeNavigation {
    pub current: Option<usize>,
    pub previous: Option<usize>,
    pub next: Option<usize>,
    /// The episode is the season's last, so "next" moves to the next season.
    pub on_last_in_season: bool,
}

/// The first place in `s` that holds an episode with the id `id`.
pub open spec fn index_of_item(s: Seq<BaseItemDto>, id: Seq<char>) -> Option<nat>
    decreases s.len(),
{
    if s.len() == 0 {
        None
    } else if s[0].id matches Some(i) && i@ == id {
        Some(0)
    } else {
        match index_of_item(s.drop_first(), id) {
            Some(p) => Some(p + 1),
            None => None,
        }
    }
}

/// The navigation of the episode `id` within the ordered episodes `s`.
pub open spec fn navigation_of(s: Seq<BaseItemDto>, id: Seq<char>) -> EpisodeNavigation {
    match index_of_item(s, id) {
        Some(p) => EpisodeNavigation {
            current: Some(p as usize),
            previous: if p > 0 {
                Some((p - 1) as usize)
            } else {
                None
            },
            next: if p + 1 < s.len() {
                Some((p + 1) as usize)
            } else {
                None
            },
            on_last_in_season: p + 1 == s.len(),
        },
        None => EpisodeNavigation {
            current: None,
            previous: None,
            next: None,
            on_last_in_season: false,
        },
    }
}

proof fn index_of_item_bound(s: Seq<BaseItemDto>, id: Seq<char>)
    ensures
        index_of_item(s, id) matches Some(p) ==> p < s.len() && has_id(s[p as int], id),
    decreases s.len(),
{
    if s.len() > 0 {
        index_of_item_bound(s.drop_first(), id);
    }
}

/// The previous and next episodes of the episode `item_id` within the
/// ordered episodes `ordered`.
pub fn episode_navigation(ordered: &Vec<BaseItemDto>, item_id: &str) -> (nav: EpisodeNavigation)
    ensures
        nav == navigation_of(ordered@, item_id@),
{
    let mut i: usize = 0;
    assert(ordered@.skip(0) =~= ordered@);
    while i < ordered.len()
        invariant
            i <= ordered.len(),
            index_of_item(ordered@, item_id@) == match index_of_item(
                ordered@.skip(i as int),
                item_id@,
            ) {
                Some(q) => Some((q + i) as nat),
                None => None::<nat>,
            },
        decreases ordered.len() - i,
    {
        let found = match &ordered[i].id {
            Some(id) => str_eq(id.as_str(), item_id),
            None => false,
        };
        if found {
            return EpisodeNavigation {
                current: Some(i),
                previous: if i > 0 {
                    Some(i - 1)
                } else {
                    None
                },
                next: if i + 1 < ordered.len() {
                    Some(i + 1)
                } else {
                    None
                },
                on_last_in_season: i + 1 == ordered.len(),
            };
        }
        proof {
            assert(ordered@.skip(i as int).drop_first() =~= ordered@.skip(i + 1));
        }
        i = i + 1;
    }
    EpisodeNavigation { current: None, previous: None, next: None, on_last_in_season: false }
}

/// The neighbours that navigation offers are the episodes right before and
/// after the current one, and the current one is the episode asked for.
pub proof fn navigation_neighbours(s: Seq<BaseItemDto>, id: Seq<char>)
    requires
        s.len() <= usize::MAX,
    ensures
        navigation_of(s, id).current matches Some(c) ==> c < s.len() && has_id(s[c as int], id),
        navigation_of(s, id).previous matches Some(p) ==> navigation_of(s, id).current == Some(
            (p + 1) as usize,
        ),
        navigation_of(s, id).next matches Some(n) ==> n < s.len() && navigation_of(s, id).current
            == Some((n - 1) as usize),
        navigation_of(s, id).on_last_in_season ==> navigation_of(s, id).next is None,
{
    index_of_item_bound(s, id);
}

/// What the "Next" button of an episode's details does.
#[derive(Debug, Clone, PartialEq, Eq)]
pub enum NextButton {
    /// Opens the next episode, at this place of the ordered episodes.
    Episode(usize),
    /// The season's last episode: steps to this next season ("Next Season",
    /// with "Season finale" shown beside it).
    Season(String),
    /// Disabled: the episode is not among the ordered episodes yet.
    Loading,
    /// Disabled: the series' last episode.
    Finale,
}

/// The "Previous" and "Next" buttons of an episode's details.
#[derive(Debug, Clone, PartialEq, Eq)]
pub enum EpisodeButtons {
    /// The episode has no id: both buttons are disabled.
    MetadataUnavailable,
    /// "Previous" opens the episode at this place, if any; "Next" does what
    /// it says.
    Ready { previous: Option<usize>, next: NextButton },
}

/// `b` are the buttons of `item`'s details, `ordered` being the shown
/// episodes in episode order, `seasons` the series' seasons and `selected`
/// the season on screen: none for an item that is no episode; both disabled
/// for an episode without id; else "Previous" opens the episode before it,
/// and "Next" the episode after it, or on a season's last episode the next
/// season where there is one; without either it is disabled, while the
/// episode is not among the ordered ones yet or on the series' last.
pub open spec fn episode_buttons_are(
    b: Option<EpisodeButtons>,
    ordered: Seq<BaseItemDto>,
    seasons: Seq<BaseItemDto>,
    selected: Option<Seq<char>>,
    item: BaseItemDto,
) -> bool {
    if !item_type_is(item, "Episode"@) {
        b is None
    } else {
        match item.id {
            None => b == Some(EpisodeButtons::MetadataUnavailable),
            Some(id) => {
                let nav = navigation_of(ordered, id@);
                let season = if nav.on_last_in_season {
                    next_season_id(seasons, selected, item)
                } else {
                    None
                };
                &&& b matches Some(EpisodeButtons::Ready { previous, next })
                &&& previous == nav.previous
                &&& match nav.next {
                    Some(n) => next == NextButton::Episode(n),
                    None => match season {
                        Some(t) => next matches NextButton::Season(x) && x@ == t,
                        None => next == if nav.current is None {
                            NextButton::Loading
                        } else {
                            NextButton::Finale
                        },
                    },
                }
            },
        }
    }
}

/// The buttons of `item`'s details, `ordered` being the shown episodes in
/// episode order.
pub fn episode_buttons(
    ordered: &Vec<BaseItemDto>,
    seasons: &Vec<BaseItemDto>,
    selected: &Option<String>,
    item: &BaseItemDto,
) -> (b: Option<EpisodeButtons>)
    ensures
        episode_buttons_are(b, ordered@, seasons@, opt_text(*selected), *item),
{
    let is_episode = match &item.item_type {
        Some(t) => eq_ignore_ascii_case_chars(&chars_of(t.as_str()), &chars_of("Episode")),
        None => {
            proof {
                reveal_strlit("Episode");
                assert(crate::text::to_ascii_lower("Episode"@).len() == 7);
            }
            false
        },
    };
    if !is_episode {
        return None;
    }
    let id = match &item.id {
        None => return Some(EpisodeButtons::MetadataUnavailable),
        Some(id) => id,
    };
    let nav = episode_navigation(ordered, id.as_str());
    let next = match nav.next {
        Some(n) => NextButton::Episode(n),
        None => {
            let season = if nav.on_last_in_season {
                next_numbered_season_id_for_episode(seasons, selected, item)
            } else {
                None
            };
            match season {
                Some(s) => NextButton::Season(s),
                None => if nav.current.is_none() {
                    NextButton::Loading
                } else {
                    NextButton::Finale
                },
            }
        },
    };
    Some(EpisodeButtons::Ready { previous: nav.previous, next })
}

// ---------------------------------------------------------------------------
// The season on screen
// ---------------------------------------------------------------------------

/// Which season the details screen shows: the selected one, the one the
/// user last chose, and the one a "next season" step is waiting for.
#[derive(Debug, Clone, PartialEq, Eq)]
pub struct SeasonSelection {
    pub selected: Option<String>,
    pub preferred: Option<String>,
    pub pending_next: Option<String>,
}

/// What becomes of the episode list after the seasons arrived.
#[derive(Debug, Clone, PartialEq, Eq)]
pub enum EpisodeListAction {
    /// There are no seasons: empty the episode list.
    Clear,
    /// Empty the episode list and load the episodes of this season.
    Reload(String),
    /// Leave the episode list as it is.
    Keep,
}

/// What becomes of a season's episodes that arrived.
#[derive(Debug, Clone, Copy, PartialEq, Eq)]
pub enum EpisodesArrival {
    /// They belong to a season no longer shown: drop them.
    Ignore,
    /// Show them.
    Accept,
    /// Show them and open the first in episode order: a "next season" step
    /// was waiting for them.
    AcceptAndOpenFirst,
}

/// The texts of the three season ids.
pub open spec fn selection_view(s: SeasonSelection) -> (
    Option<Seq<char>>,
    Option<Seq<char>>,
    Option<Seq<char>>,
) {
    (
        opt_text(s.selected),
        opt_text(s.preferred),
        opt_text(s.pending_next),
    )
}

/// The season the screen aims for when seasons arrive: the one a step is
/// waiting for, else the preferred, else the selected.
pub open spec fn season_target(s: SeasonSelection) -> Option<Seq<char>> {
    match s.pending_next {
        Some(p) => Some(p@),
        None => match s.preferred {
            Some(p) => Some(p@),
            None => opt_text(s.selected),
        },
    }
}

/// The text of an episode-list action.
pub open spec fn list_action_view(a: EpisodeListAction) -> Option<Option<Seq<char>>> {
    match a {
        EpisodeListAction::Clear => None,
        EpisodeListAction::Reload(id) => Some(Some(id@)),
        EpisodeListAction::Keep => Some(None),
    }
}

/// The selection and action after `seasons` arrived, with the episode list
/// empty or not.
pub open spec fn after_seasons_loaded(
    s: SeasonSelection,
    seasons: Seq<BaseItemDto>,
    episodes_empty: bool,
) -> ((Option<Seq<char>>, Option<Seq<char>>, Option<Seq<char>>), Option<Option<Seq<char>>>) {
    if seasons.len() == 0 {
        ((None, None, None), None)
    } else {
        match season_target(s) {
            Some(t) if season_with_id(seasons, t) is Some => (
                (Some(t), Some(t), None),
                if opt_text(s.selected) != Some(t) || episodes_empty {
                    Some(Some(t))
                } else {
                    Some(None)
                },
            ),
            _ => match seasons[0].id {
                Some(f) => ((Some(f@), Some(f@), None), Some(Some(f@))),
                None => (
                    (opt_text(s.selected), opt_text(s.preferred), None),
                    Some(None),
                ),
            },
        }
    }
}

fn copy_opt(o: &Option<String>) -> (r: Option<String>)
    ensures
        r == *o,
{
    match o {
        Some(s) => Some(s.clone()),
        None => None,
    }
}

pub(crate) fn opt_eq_str(o: &Option<String>, t: &str) -> (b: bool)
    ensures
        b == (opt_text(*o) == Some(t@)),
{
    match o {
        Some(s) => str_eq(s.as_str(), t),
        None => false,
    }
}

fn has_season_id(seasons: &Vec<BaseItemDto>, id: &str) -> (b: bool)
    ensures
        b == season_with_id(seasons@, id@) is Some,
{
    let mut i: usize = 0;
    assert(seasons@.skip(0) =~= seasons@);
    while i < seasons.len()
        invariant
            i <= seasons.len(),
            season_with_id(seasons@, id@) == season_with_id(seasons@.skip(i as int), id@),
        decreases seasons.len() - i,
    {
        if opt_eq_str(&seasons[i].id, id) {
            return true;
        }
        proof {
            assert(seasons@.skip(i as int).drop_first() =~= seasons@.skip(i + 1));
        }
        i = i + 1;
    }
    false
}

impl SeasonSelection {
    /// Nothing selected, nothing waiting.
    pub fn new() -> (s: Self)
        ensures
            selection_view(s) == (None::<Seq<char>>, None::<Seq<char>>, None::<Seq<char>>),
    {
        SeasonSelection { selected: None, preferred: None, pending_next: None }
    }

    /// Forgets every season choice.
    pub fn clear(&mut self)
        ensures
            selection_view(*final(self)) == (
                None::<Seq<char>>,
                None::<Seq<char>>,
                None::<Seq<char>>,
            ),
    {
        self.selected = None;
        self.preferred = None;
        self.pending_next = None;
    }

    /// The user picked `season_id`: it becomes selected and preferred, and
    /// no step waits any more. The caller empties the episode list and
    /// loads the season's episodes.
    pub fn select_season(&mut self, season_id: String)
        ensures
            selection_view(*final(self)) == (Some(season_id@), Some(season_id@), None::<Seq<char>>),
    {
        self.selected = Some(season_id.clone());
        self.preferred = Some(season_id);
        self.pending_next = None;
    }

    /// "Next season" was pressed on a season finale: `season_id` becomes
    /// selected, preferred and awaited, so that its first episode opens once
    /// its episodes arrive. The caller empties the episode list and loads
    /// them.
    pub fn step_to_next_season(&mut self, season_id: String)
        ensures
            selection_view(*final(self)) == (Some(season_id@), Some(season_id@), Some(season_id@)),
    {
        self.selected = Some(season_id.clone());
        self.preferred = Some(season_id.clone());
        self.pending_next = Some(season_id);
    }

    /// The seasons of the series arrived. The screen keeps the season it
    /// aimed for where the series has it, else moves to the first season.
    pub fn on_seasons_loaded(&mut self, seasons: &Vec<BaseItemDto>, episodes_empty: bool) -> (a:
        EpisodeListAction)
        ensures
            (selection_view(*final(self)), list_action_view(a)) == after_seasons_loaded(
                *old(self),
                seasons@,
                episodes_empty,
            ),
    {
        if seasons.len() == 0 {
            self.clear();
            return EpisodeListAction::Clear;
        }
        let pending = copy_opt(&self.pending_next);
        self.pending_next = None;
        let target = match pending {
            Some(p) => Some(p),
            None => match &self.preferred {
                Some(p) => Some(p.clone()),
                None => copy_opt(&self.selected),
            },
        };
        if let Some(t) = target {
            if has_season_id(seasons, t.as_str()) {
                let should_reload = !opt_eq_str(&self.selected, t.as_str()) || episodes_empty;
                self.selected = Some(t.clone());
                self.preferred = Some(t.clone());
                if should_reload {
                    return EpisodeListAction::Reload(t);
                }
                return EpisodeListAction::Keep;
            }
        }
        match &seasons[0].id {
            Some(f) => {
                let first = f.clone();
                self.select_season(first.clone());
                EpisodeListAction::Reload(first)
            },
            None => EpisodeListAction::Keep,
        }
    }

    /// The episodes of `season_id` arrived.
    pub fn on_episodes_loaded(&mut self, season_id: &str) -> (a: EpisodesArrival)
        ensures
            opt_text(old(self).selected) != Some(season_id@) ==> a
                == EpisodesArrival::Ignore && *final(self) == *old(self),
            opt_text(old(self).selected) == Some(season_id@) ==> {
                let awaited = opt_text(old(self).pending_next) == Some(season_id@);
                &&& a == (if awaited {
                    EpisodesArrival::AcceptAndOpenFirst
                } else {
                    EpisodesArrival::Accept
                })
                &&& selection_view(*final(self)) == (
                    Some(season_id@),
                    Some(season_id@),
                    if awaited {
                        None
                    } else {
                        opt_text(old(self).pending_next)
                    },
                )
            },
    {
        if !opt_eq_str(&self.selected, season_id) {
            return EpisodesArrival::Ignore;
        }
        self.preferred = Some(String::from_str(season_id));
        if opt_eq_str(&self.pending_next, season_id) {
            self.pending_next = None;
            EpisodesArrival::AcceptAndOpenFirst
        } else {
            EpisodesArrival::Accept
        }
    }
}

/// After seasons arrive, no "next season" step is left waiting, and a
/// season that the screen moves to is one of the series' seasons.
pub proof fn seasons_loaded_settles(s: SeasonSelection, seasons: Seq<BaseItemDto>, episodes_empty: bool)
    ensures
        after_seasons_loaded(s, seasons, episodes_empty).0.2 is None,
        after_seasons_loaded(s, seasons, episodes_empty).1 matches Some(Some(t)) ==> exists|k: int|
            0 <= k < seasons.len() && has_id(#[trigger] seasons[k], t),
{
    if seasons.len() > 0 {
        if let Some(t) = season_target(s) {
            if season_with_id(seasons, t) is Some {
                let k = season_with_id_index(seasons, t);
                assert(has_id(seasons[k], t));
            }
        }
        if let Some(f) = seasons[0].id {
            assert(has_id(seasons[0], f@));
        }
    }
}

proof fn season_with_id_index(seasons: Seq<BaseItemDto>, id: Seq<char>) -> (k: int)
    requires
        season_with_id(seasons, id) is Some,
    ensures
        0 <= k < seasons.len(),
        has_id(seasons[k], id),
    decreases seasons.len(),
{
    if seasons[0].id matches Some(i) && i@ == id {
        0
    } else {
        let k = season_with_id_index(seasons.drop_first(), id);
        assert(seasons[k + 1] == seasons.drop_first()[k]);
        k + 1
    }
}

} // verus!

verus! {

// ---------------------------------------------------------------------------
// Opening an item's details
// ---------------------------------------------------------------------------

/// What the details screen clears and loads for the item it shows.
#[derive(Debug, Clone, PartialEq, Eq)]
pub struct DetailSectionsPlan {
    pub clear_seasons: bool,
    pub clear_episodes: bool,
    /// Load the seasons of this series.
    pub load_seasons_of: Option<String>,
    /// Load the episodes of this season.
    pub load_episodes_of: Option<String>,
    /// Nothing is shown: empty the related items and the media details.
    pub clear_related_and_media: bool,
    /// Load the related items and the media details of the item.
    pub load_related_and_tech: bool,
}

/// The item's type, compared without regard to ASCII case.
pub open spec fn item_type_is(item: BaseItemDto, t: Seq<char>) -> bool {
    crate::text::eq_ignore_ascii_case(
        match item.item_type {
            Some(s) => s@,
            None => Seq::empty(),
        },
        t,
    )
}

/// The season an episode is shown in: its season, else its parent.
pub open spec fn episode_season(item: BaseItemDto) -> Option<Seq<char>> {
    match item.season_id {
        Some(s) => Some(s@),
        None => opt_text(item.parent_id),
    }
}

/// The season id an episode is shown in: its season, else its parent.
pub open spec fn episode_season_id(item: BaseItemDto) -> Option<String> {
    match item.season_id {
        Some(s) => Some(s),
        None => item.parent_id,
    }
}

/// The view of a plan: the flags and the texts of the ids to load.
pub open spec fn plan_view(p: DetailSectionsPlan) -> (
    bool,
    bool,
    Option<Seq<char>>,
    Option<Seq<char>>,
    bool,
    bool,
) {
    (
        p.clear_seasons,
        p.clear_episodes,
        opt_text(p.load_seasons_of),
        opt_text(p.load_episodes_of),
        p.clear_related_and_media,
        p.load_related_and_tech,
    )
}

/// The plan and the season selection after the details screen turned to
/// `item`: a series loads its seasons; an episode loads the episodes of its
/// season and the seasons of its series; anything else shows no seasons.
/// Related items and media details load for any item; with no item
/// everything is emptied.
pub open spec fn detail_plan_spec(s: SeasonSelection, item: Option<BaseItemDto>) -> (
    (bool, bool, Option<Seq<char>>, Option<Seq<char>>, bool, bool),
    (Option<Seq<char>>, Option<Seq<char>>, Option<Seq<char>>),
) {
    match item {
        None => ((true, true, None, None, true, false), (None, None, None)),
        Some(it) => if item_type_is(it, "Series"@) {
            (
                (false, false, opt_text(it.id), None, false, true),
                (opt_text(s.selected), opt_text(s.preferred), None),
            )
        } else if item_type_is(it, "Episode"@) {
            (
                (
                    true,
                    true,
                    opt_text(it.series_id),
                    episode_season(it),
                    false,
                    true,
                ),
                (episode_season(it), episode_season(it), None),
            )
        } else {
            ((true, true, None, None, false, true), (None, None, None))
        },
    }
}

fn type_is(item: &BaseItemDto, t: &str) -> (b: bool)
    ensures
        b == item_type_is(*item, t@),
{
    let v = match &item.item_type {
        Some(s) => chars_of(s.as_str()),
        None => Vec::new(),
    };
    crate::text::eq_ignore_ascii_case_chars(&v, &chars_of(t))
}

impl SeasonSelection {
    /// What to clear and load when the details screen turns to `item`, and
    /// the season selection that follows.
    pub fn plan_detail_sections(&mut self, item: &Option<BaseItemDto>) -> (p: DetailSectionsPlan)
        ensures
            (plan_view(p), selection_view(*final(self))) == detail_plan_spec(*old(self), *item),
            p.load_seasons_of == match *item {
                Some(it) => if item_type_is(it, "Series"@) {
                    it.id
                } else if item_type_is(it, "Episode"@) {
                    it.series_id
                } else {
                    None
                },
                None => None,
            },
            p.load_episodes_of == match *item {
                Some(it) => if !item_type_is(it, "Series"@) && item_type_is(it, "Episode"@) {
                    episode_season_id(it)
                } else {
                    None
                },
                None => None,
            },
    {
        match item {
            None => {
                self.clear();
                DetailSectionsPlan {
                    clear_seasons: true,
                    clear_episodes: true,
                    load_seasons_of: None,
                    load_episodes_of: None,
                    clear_related_and_media: true,
                    load_related_and_tech: false,
                }
            },
            Some(it) => {
                if type_is(it, "Series") {
                    self.pending_next = None;
                    DetailSectionsPlan {
                        clear_seasons: false,
                        clear_episodes: false,
                        load_seasons_of: copy_opt(&it.id),
                        load_episodes_of: None,
                        clear_related_and_media: false,
                        load_related_and_tech: true,
                    }
                } else if type_is(it, "Episode") {
                    let season: Option<String> = match &it.season_id {
                        Some(s) => Some(s.clone()),
                        None => copy_opt(&it.parent_id),
                    };
                    self.selected = copy_opt(&season);
                    self.preferred = copy_opt(&season);
                    self.pending_next = None;
                    DetailSectionsPlan {
                        clear_seasons: true,
                        clear_episodes: true,
                        load_seasons_of: copy_opt(&it.series_id),
                        load_episodes_of: season,
                        clear_related_and_media: false,
                        load_related_and_tech: true,
                    }
                } else {
                    self.clear();
                    DetailSectionsPlan {
                        clear_seasons: true,
                        clear_episodes: true,
                        load_seasons_of: None,
                        load_episodes_of: None,
                        clear_related_and_media: false,
                        load_related_and_tech: true,
                    }
                }
            },
        }
    }
}

} // verus!
