//! Host classification: textual IPv4 and IPv6 addresses as the standard
//! library's address parsers accept them, and the private, loopback and
//! link-local ranges that mark a host as local.

use vstd::prelude::*;
use crate::text::{
    before_char, before_char_chars, chars_of, eq_ignore_ascii_case, eq_ignore_ascii_case_chars,
    first_index_of, index_of_char, slice_chars, trim_start_char, trim_start_char_chars,
};

verus! {

// ---------------------------------------------------------------------------
// Splitting
// ---------------------------------------------------------------------------

/// The pieces of `s` between occurrences of `c` (`str::split(c)`).
pub open spec fn split_on(s: Seq<char>, c: char) -> Seq<Seq<char>>
    decreases s.len(),
{
    let i = first_index_of(s, c);
    if i >= s.len() {
        seq![s]
    } else {
        seq![s.subrange(0, i as int)] + split_on(s.subrange(i as int + 1, s.len() as int), c)
    }
}

pub proof fn lemma_split_nonempty(s: Seq<char>, c: char)
    ensures
        split_on(s, c).len() >= 1,
    decreases s.len(),
{
    let i = first_index_of(s, c);
    if i < s.len() {
        lemma_split_nonempty(s.subrange(i as int + 1, s.len() as int), c);
    }
}

proof fn lemma_first_index_facts(s: Seq<char>, c: char)
    ensures
        first_index_of(s, c) <= s.len(),
        first_index_of(s, c) < s.len() ==> s[first_index_of(s, c) as int] == c,
        forall|k: int| 0 <= k < first_index_of(s, c) ==> s[k] != c,
    decreases s.len(),
{
    if s.len() > 0 && s[0] != c {
        lemma_first_index_facts(s.drop_first(), c);
        assert forall|k: int| 0 <= k < first_index_of(s, c) implies s[k] != c by {
            if k > 0 {
                assert(s[k] == s.drop_first()[k - 1]);
            }
        }
    }
}

proof fn lemma_first_index_at(s: Seq<char>, c: char, i: int)
    requires
        0 <= i <= s.len(),
        forall|k: int| 0 <= k < i ==> s[k] != c,
        i < s.len() ==> s[i] == c,
    ensures
        first_index_of(s, c) == i,
    decreases i,
{
    if i > 0 {
        lemma_first_index_at(s.drop_first(), c, i - 1);
    }
}

/// The pieces of `v` between occurrences of `c`.
pub fn split_chars(v: &Vec<char>, c: char) -> (parts: Vec<Vec<char>>)
    ensures
        parts@.len() == split_on(v@, c).len(),
        forall|k: int| 0 <= k < parts@.len() ==> #[trigger] parts@[k]@ == split_on(v@, c)[k],
{
    let mut parts: Vec<Vec<char>> = Vec::new();
    let mut start: usize = 0;
    let mut i: usize = 0;
    assert(v@.subrange(0, v@.len() as int) =~= v@);
    while i < v.len()
        invariant
            start <= i <= v.len(),
            forall|k: int| start <= k < i ==> v@[k] != c,
            split_on(v@, c).len() == parts@.len() + split_on(
                v@.subrange(start as int, v@.len() as int),
                c,
            ).len(),
            forall|k: int|
                0 <= k < parts@.len() ==> #[trigger] parts@[k]@ == split_on(v@, c)[k],
            forall|k: int|
                0 <= k < split_on(v@.subrange(start as int, v@.len() as int), c).len() ==> split_on(
                    v@,
                    c,
                )[parts@.len() + k] == #[trigger] split_on(
                    v@.subrange(start as int, v@.len() as int),
                    c,
                )[k],
        decreases v.len() - i,
    {
        if v[i] == c {
            let ghost rest = v@.subrange(start as int, v@.len() as int);
            proof {
                lemma_first_index_at(rest, c, i - start);
                assert(rest.subrange(0, i - start) =~= v@.subrange(start as int, i as int));
                assert(rest.subrange(i - start + 1, rest.len() as int) =~= v@.subrange(
                    i + 1,
                    v@.len() as int,
                ));
            }
            let piece = slice_chars(v, start, i);
            let ghost old_len = parts@.len();
            parts.push(piece);
            proof {
                let next = v@.subrange(i + 1, v@.len() as int);
                assert(split_on(rest, c) == seq![rest.subrange(0, i - start)] + split_on(next, c));
                assert forall|k: int| 0 <= k < split_on(next, c).len() implies split_on(v@, c)[
                    parts@.len() + k] == #[trigger] split_on(next, c)[k] by {
                    assert(split_on(rest, c)[k + 1] == split_on(next, c)[k]);
                }
                assert(split_on(v@, c)[old_len as int] == split_on(rest, c)[0]);
            }
            start = i + 1;
        }
        i = i + 1;
    }
    let ghost rest = v@.subrange(start as int, v@.len() as int);
    proof {
        lemma_first_index_at(rest, c, rest.len() as int);
        assert(split_on(rest, c) == seq![rest]);
    }
    let piece = slice_chars(v, start, v.len());
    parts.push(piece);
    proof {
        assert(split_on(v@, c)[parts@.len() - 1] == split_on(rest, c)[0]);
    }
    parts
}

/// The character sequences held by `ps`.
pub open spec fn views(ps: Seq<Vec<char>>) -> Seq<Seq<char>> {
    ps.map_values(|p: Vec<char>| p@)
}

// ---------------------------------------------------------------------------
// Numbers
// ---------------------------------------------------------------------------

pub open spec fn is_dec_digit(c: char) -> bool {
    '0' <= c && c <= '9'
}

pub open spec fn is_hex_digit(c: char) -> bool {
    ('0' <= c && c <= '9') || ('a' <= c && c <= 'f') || ('A' <= c && c <= 'F')
}

/// The value of a hexadecimal (or decimal) digit.
pub open spec fn digit_value(c: char) -> int {
    if '0' <= c && c <= '9' {
        (c as u32) - ('0' as u32)
    } else if 'a' <= c && c <= 'f' {
        (c as u32) - ('a' as u32) + 10
    } else {
        (c as u32) - ('A' as u32) + 10
    }
}

/// The value of the digits `s` in base `radix`.
pub open spec fn digits_value(s: Seq<char>, radix: int) -> int
    decreases s.len(),
{
    if s.len() == 0 {
        0
    } else {
        digits_value(s.drop_last(), radix) * radix + digit_value(s.last())
    }
}

/// A decimal octet as `Ipv4Addr`'s parser reads it: one to three digits,
/// no leading zero, value at most 255.
pub open spec fn octet_text(s: Seq<char>) -> bool {
    &&& 1 <= s.len() <= 3
    &&& forall|k: int| 0 <= k < s.len() ==> is_dec_digit(#[trigger] s[k])
    &&& (s.len() > 1 ==> s[0] != '0')
    &&& digits_value(s, 10) <= 255
}

/// A group of an IPv6 address: one to four hexadecimal digits.
pub open spec fn hex_group_text(s: Seq<char>) -> bool {
    &&& 1 <= s.len() <= 4
    &&& forall|k: int| 0 <= k < s.len() ==> is_hex_digit(#[trigger] s[k])
}

/// The four octets of the dotted-decimal IPv4 address `s`, if it is one.
pub open spec fn ipv4_of(s: Seq<char>) -> Option<Seq<int>> {
    let parts = split_on(s, '.');
    if parts.len() == 4 && (forall|k: int| 0 <= k < 4 ==> octet_text(#[trigger] parts[k])) {
        Some(parts.map_values(|p: Seq<char>| digits_value(p, 10)))
    } else {
        None
    }
}

/// The address is in 10/8, 172.16/12, 192.168/16, 127/8 or 169.254/16.
pub open spec fn is_private_ipv4(o: Seq<int>) -> bool {
    let a = o[0];
    let b = o[1];
    ||| a == 10
    ||| (a == 172 && 16 <= b <= 31)
    ||| (a == 192 && b == 168)
    ||| a == 127
    ||| (a == 169 && b == 254)
}

pub open spec fn all_hex_groups(ps: Seq<Seq<char>>) -> bool {
    forall|k: int| 0 <= k < ps.len() ==> hex_group_text(#[trigger] ps[k])
}

pub open spec fn hex_values(ps: Seq<Seq<char>>) -> Seq<int> {
    ps.map_values(|p: Seq<char>| digits_value(p, 16))
}

/// The 16-bit segments written by the groups `ps`; when `v4_last` the last
/// group may instead be a dotted IPv4 address, which writes two segments.
pub open spec fn segments_of(ps: Seq<Seq<char>>, v4_last: bool) -> Option<Seq<int>> {
    if all_hex_groups(ps) {
        Some(hex_values(ps))
    } else if v4_last && ps.len() > 0 && all_hex_groups(ps.drop_last()) && ipv4_of(
        ps.last(),
    ) is Some {
        let o = ipv4_of(ps.last())->0;
        Some(hex_values(ps.drop_last()) + seq![o[0] * 256 + o[1], o[2] * 256 + o[3]])
    } else {
        None
    }
}

/// The position of the first "::" in `s`, or `s.len()`.
pub open spec fn first_double_colon(s: Seq<char>) -> nat
    decreases s.len(),
{
    if s.len() < 2 {
        s.len()
    } else if s[0] == ':' && s[1] == ':' {
        0
    } else {
        1 + first_double_colon(s.drop_first())
    }
}

/// The groups of one side of "::" (none when the side is empty).
pub open spec fn side_groups(s: Seq<char>) -> Seq<Seq<char>> {
    if s.len() == 0 {
        seq![]
    } else {
        split_on(s, ':')
    }
}

/// The eight segments of the IPv6 address `s`, if it is one: colon
/// separated groups, at most one "::" standing for one or more zero
/// segments, and optionally a dotted IPv4 address as the last two segments.
pub open spec fn ipv6_of(s: Seq<char>) -> Option<Seq<int>> {
    let p = first_double_colon(s);
    if p < s.len() {
        let left = s.subrange(0, p as int);
        let right = s.subrange(p as int + 2, s.len() as int);
        match (segments_of(side_groups(left), false), segments_of(side_groups(right), true)) {
            (Some(h), Some(t)) => if h.len() + t.len() <= 7 {
                Some(h + Seq::new((8 - h.len() - t.len()) as nat, |i: int| 0int) + t)
            } else {
                None
            },
            _ => None,
        }
    } else {
        match segments_of(split_on(s, ':'), true) {
            Some(g) => if g.len() == 8 {
                Some(g)
            } else {
                None
            },
            None => None,
        }
    }
}

/// `::1`, or in fc00::/7 (unique local) or fe80::/10 (unicast link-local).
pub open spec fn is_local_ipv6(g: Seq<int>) -> bool {
    ||| g == seq![0int, 0, 0, 0, 0, 0, 0, 1]
    ||| (0xfc00 <= g[0] <= 0xfdff)
    ||| (0xfe80 <= g[0] <= 0xfebf)
}

// ---------------------------------------------------------------------------
// Host of a raw server address
// ---------------------------------------------------------------------------

/// The host named by `raw` (an address without scheme): the text before the
/// first '/', then either the inside of a bracketed IPv6 literal or the text
/// before the first ':'.
pub open spec fn host_of(raw: Seq<char>) -> Seq<char> {
    let hp = before_char(raw, '/');
    if hp.len() > 0 && hp[0] == '[' {
        let k = first_index_of(hp, ']');
        if k < hp.len() {
            trim_start_char(hp.subrange(0, k as int), '[')
        } else {
            hp
        }
    } else {
        before_char(hp, ':')
    }
}

/// `raw` names a host on the local machine or network: "localhost" in any
/// case, a private, loopback or link-local IPv4 address, or a loopback,
/// unique-local or link-local IPv6 address.
pub open spec fn is_local_host_spec(raw: Seq<char>) -> bool {
    let h = host_of(raw);
    ||| eq_ignore_ascii_case(h, "localhost"@)
    ||| (ipv4_of(h) is Some && is_private_ipv4(ipv4_of(h)->0))
    ||| (ipv4_of(h) is None && ipv6_of(h) is Some && is_local_ipv6(ipv6_of(h)->0))
}

// ---------------------------------------------------------------------------
// Executable parsers
// ---------------------------------------------------------------------------

fn is_dec_digit_char(c: char) -> (b: bool)
    ensures
        b == is_dec_digit(c),
{
    '0' <= c && c <= '9'
}

fn is_hex_digit_char(c: char) -> (b: bool)
    ensures
        b == is_hex_digit(c),
{
    ('0' <= c && c <= '9') || ('a' <= c && c <= 'f') || ('A' <= c && c <= 'F')
}

fn digit_value_of(c: char) -> (d: u64)
    requires
        is_hex_digit(c),
    ensures
        d == digit_value(c),
        d < 16,
{
    let u = c as u32;
    if '0' <= c && c <= '9' {
        (u - 48) as u64
    } else if 'a' <= c && c <= 'f' {
        (u - 97 + 10) as u64
    } else {
        (u - 65 + 10) as u64
    }
}

spec fn pow_bound(i: int) -> int {
    if i <= 0 {
        1
    } else if i == 1 {
        16
    } else if i == 2 {
        256
    } else if i == 3 {
        4096
    } else {
        65536
    }
}

/// The value of the digits `v` in base `radix`, when every character is a
/// digit of that base and there are at most four of them.
fn small_digits_value(v: &Vec<char>, radix: u64) -> (r: Option<u64>)
    requires
        radix == 10 || radix == 16,
        v@.len() <= 4,
    ensures
        r is Some <==> (forall|k: int|
            0 <= k < v@.len() ==> (if radix == 10 {
                is_dec_digit(#[trigger] v@[k])
            } else {
                is_hex_digit(v@[k])
            })),
        r matches Some(x) ==> x == digits_value(v@, radix as int),
{
    let mut acc: u64 = 0;
    let mut i: usize = 0;
    while i < v.len()
        invariant
            radix == 10 || radix == 16,
            v@.len() <= 4,
            i <= v.len(),
            forall|k: int|
                0 <= k < i ==> (if radix == 10 {
                    is_dec_digit(#[trigger] v@[k])
                } else {
                    is_hex_digit(v@[k])
                }),
            acc == digits_value(v@.subrange(0, i as int), radix as int),
            acc < pow_bound(i as int),
        decreases v.len() - i,
    {
        let c = v[i];
        let ok = if radix == 10 {
            is_dec_digit_char(c)
        } else {
            is_hex_digit_char(c)
        };
        if !ok {
            return None;
        }
        let d = digit_value_of(c);
        proof {
            assert(v@.subrange(0, i + 1).drop_last() =~= v@.subrange(0, i as int));
            assert(d < radix) by {
                if radix == 10 {
                    assert(is_dec_digit(c));
                }
            }
            let p = pow_bound(i as int);
            assert(acc * radix + d < p * 16) by (nonlinear_arith)
                requires
                    acc < p,
                    d < radix,
                    radix <= 16,
            ;
            assert(acc * radix + d < pow_bound(i + 1));
        }
        acc = acc * radix + d;
        i = i + 1;
    }
    assert(v@.subrange(0, v@.len() as int) =~= v@);
    Some(acc)
}

/// The octet written by `p`, when `p` is a valid IPv4 octet.
fn parse_octet(p: &Vec<char>) -> (r: Option<u64>)
    ensures
        r is Some <==> octet_text(p@),
        r matches Some(x) ==> x == digits_value(p@, 10),
{
    if p.len() < 1 || p.len() > 3 {
        return None;
    }
    if p.len() > 1 && p[0] == '0' {
        return None;
    }
    match small_digits_value(p, 10) {
        Some(x) => {
            if x <= 255 {
                Some(x)
            } else {
                None
            }
        },
        None => None,
    }
}

/// The four octets of the dotted IPv4 address `v`, if it is one.
pub fn parse_ipv4(v: &Vec<char>) -> (r: Option<Vec<u64>>)
    ensures
        r is Some <==> ipv4_of(v@) is Some,
        r matches Some(o) ==> o@.len() == 4 && forall|k: int|
            0 <= k < 4 ==> o@[k] as int == (#[trigger] ipv4_of(v@)->0[k]),
{
    let parts = split_chars(v, '.');
    let ghost sp = split_on(v@, '.');
    if parts.len() != 4 {
        return None;
    }
    let mut out: Vec<u64> = Vec::new();
    let mut k: usize = 0;
    while k < 4
        invariant
            parts@.len() == 4,
            sp == split_on(v@, '.'),
            sp.len() == 4,
            forall|j: int| 0 <= j < 4 ==> #[trigger] parts@[j]@ == sp[j],
            k <= 4,
            out@.len() == k,
            forall|j: int| 0 <= j < k ==> octet_text(#[trigger] sp[j]),
            forall|j: int| 0 <= j < k ==> out@[j] == digits_value(#[trigger] sp[j], 10),
        decreases 4 - k,
    {
        match parse_octet(&parts[k]) {
            Some(x) => {
                out.push(x);
            },
            None => {
                assert(!octet_text(sp[k as int]));
                return None;
            },
        }
        k = k + 1;
    }
    Some(out)
}

fn all_hex_groups_exec(parts: &Vec<Vec<char>>, upto: usize) -> (r: Option<Vec<u64>>)
    requires
        upto <= parts@.len(),
    ensures
        r is Some <==> all_hex_groups(views(parts@.subrange(0, upto as int))),
        r matches Some(g) ==> g@.len() == upto && forall|j: int|
            0 <= j < upto ==> g@[j] == digits_value(#[trigger] parts@[j]@, 16),
{
    let ghost ps = views(parts@.subrange(0, upto as int));
    let mut out: Vec<u64> = Vec::new();
    let mut k: usize = 0;
    while k < upto
        invariant
            upto <= parts@.len(),
            ps == views(parts@.subrange(0, upto as int)),
            k <= upto,
            out@.len() == k,
            forall|j: int| 0 <= j < k ==> hex_group_text(#[trigger] ps[j]),
            forall|j: int| 0 <= j < k ==> out@[j] == digits_value(#[trigger] parts@[j]@, 16),
        decreases upto - k,
    {
        assert(ps[k as int] == parts@[k as int]@);
        let p = &parts[k];
        if p.len() < 1 || p.len() > 4 {
            return None;
        }
        match small_digits_value(p, 16) {
            Some(x) => {
                out.push(x);
            },
            None => {
                return None;
            },
        }
        k = k + 1;
    }
    Some(out)
}

/// The segments written by the groups `parts`, as `segments_of` describes.
fn segments_exec(parts: &Vec<Vec<char>>, v4_last: bool) -> (r: Option<Vec<u64>>)
    ensures
        r is Some <==> segments_of(views(parts@), v4_last) is Some,
        r matches Some(g) ==> g@.len() == segments_of(
            views(parts@),
            v4_last,
        )->0.len() && forall|j: int|
            0 <= j < g@.len() ==> #[trigger] g@[j] == segments_of(views(parts@), v4_last)->0[j],
{
    let ghost ps = views(parts@);
    assert(parts@.subrange(0, parts@.len() as int) =~= parts@);
    match all_hex_groups_exec(parts, parts.len()) {
        Some(g) => {
            assert(ps =~= views(parts@.subrange(0, parts@.len() as int)));
            return Some(g);
        },
        None => {},
    }
    if !v4_last || parts.len() == 0 {
        assert(ps =~= views(parts@.subrange(0, parts@.len() as int)));
        return None;
    }
    let n = parts.len() - 1;
    assert(ps.drop_last() =~= views(parts@.subrange(0, n as int)));
    assert(ps =~= views(parts@.subrange(0, parts@.len() as int)));
    match all_hex_groups_exec(parts, n) {
        Some(head) => {
            assert(ps.last() == parts@[n as int]@);
            match parse_ipv4(&parts[n]) {
                Some(o) => {
                    let mut out = head;
                    let hi = o[0] * 256 + o[1];
                    let lo = o[2] * 256 + o[3];
                    out.push(hi);
                    out.push(lo);
                    proof {
                        let expect = segments_of(ps, v4_last)->0;
                        assert(expect.len() == out@.len());
                        assert forall|j: int| 0 <= j < out@.len() implies out@[j] == #[trigger] expect[j] by {
                            if j < n {
                                assert(hex_values(ps.drop_last())[j] == digits_value(ps[j], 16));
                            }
                        }
                    }
                    Some(out)
                },
                None => None,
            }
        },
        None => None,
    }
}

spec fn dc_at(s: Seq<char>, k: int) -> bool {
    0 <= k && k + 1 < s.len() && s[k] == ':' && s[k + 1] == ':'
}

proof fn lemma_double_colon_at(s: Seq<char>, i: int)
    requires
        0 <= i <= s.len(),
        forall|k: int| 0 <= k < i ==> !#[trigger] dc_at(s, k),
        i + 1 < s.len() ==> (s[i] == ':' && s[i + 1] == ':'),
        i + 1 >= s.len() ==> i == s.len(),
    ensures
        first_double_colon(s) == i,
    decreases i,
{
    if i > 0 {
        if s.len() >= 2 {
            assert(!dc_at(s, 0));
            assert forall|k: int| 0 <= k < i - 1 implies !#[trigger] dc_at(s.drop_first(), k) by {
                assert(!dc_at(s, k + 1));
            }
            lemma_double_colon_at(s.drop_first(), i - 1);
        }
    }
}

fn find_double_colon(v: &Vec<char>) -> (p: usize)
    ensures
        p == first_double_colon(v@),
        p < v@.len() ==> dc_at(v@, p as int),
        p <= v@.len(),
{
    let mut i: usize = 0;
    while v.len() >= 2 && i < v.len() - 1
        invariant
            i <= v.len(),
            forall|k: int| 0 <= k < i ==> !#[trigger] dc_at(v@, k),
        decreases v.len() - i,
    {
        if v[i] == ':' && v[i + 1] == ':' {
            proof {
                lemma_double_colon_at(v@, i as int);
            }
            return i;
        }
        i = i + 1;
    }
    proof {
        lemma_double_colon_at(v@, v@.len() as int);
    }
    v.len()
}

fn side_groups_exec(v: &Vec<char>) -> (parts: Vec<Vec<char>>)
    ensures
        views(parts@) == side_groups(v@),
{
    if v.len() == 0 {
        let parts: Vec<Vec<char>> = Vec::new();
        assert(views(parts@) =~= side_groups(v@));
        parts
    } else {
        let parts = split_chars(v, ':');
        assert(views(parts@) =~= side_groups(v@));
        parts
    }
}

/// The eight segments of the IPv6 address `v`, if it is one.
pub fn parse_ipv6(v: &Vec<char>) -> (r: Option<Vec<u64>>)
    ensures
        r is Some <==> ipv6_of(v@) is Some,
        r matches Some(g) ==> g@.len() == 8 && forall|j: int|
            0 <= j < 8 ==> g@[j] == #[trigger] ipv6_of(v@)->0[j],
{
    let p = find_double_colon(v);
    if p < v.len() {
        let left = slice_chars(v, 0, p);
        let right = slice_chars(v, p + 2, v.len());
        let lp = side_groups_exec(&left);
        let rp = side_groups_exec(&right);
        let h = segments_exec(&lp, false);
        let t = segments_exec(&rp, true);
        match (h, t) {
            (Some(h), Some(t)) => {
                if h.len() <= 7 && t.len() <= 7 - h.len() {
                    let mut out = h;
                    let zeros = 8 - out.len() - t.len();
                    let ghost hv = out@;
                    let mut z: usize = 0;
                    while z < zeros
                        invariant
                            z <= zeros,
                            out@.len() == hv.len() + z,
                            forall|j: int| 0 <= j < hv.len() ==> out@[j] == hv[j],
                            forall|j: int| hv.len() <= j < out@.len() ==> out@[j] == 0,
                        decreases zeros - z,
                    {
                        out.push(0);
                        z = z + 1;
                    }
                    let ghost mid = out@;
                    let mut k: usize = 0;
                    while k < t.len()
                        invariant
                            k <= t.len(),
                            out@.len() == mid.len() + k,
                            forall|j: int| 0 <= j < mid.len() ==> out@[j] == mid[j],
                            forall|j: int| 0 <= j < k ==> out@[mid.len() + j] == t@[j],
                        decreases t.len() - k,
                    {
                        out.push(t[k]);
                        k = k + 1;
                    }
                    proof {
                        let e = ipv6_of(v@)->0;
                        let sh = segments_of(side_groups(left@), false)->0;
                        let st = segments_of(side_groups(right@), true)->0;
                        assert(left@ =~= v@.subrange(0, p as int));
                        assert(right@ =~= v@.subrange(p + 2, v@.len() as int));
                        let zs = Seq::new((8 - sh.len() - st.len()) as nat, |i: int| 0int);
                        assert(e =~= sh + zs + st);
                        assert(hv == h@);
                        assert(sh.len() == hv.len());
                        assert(mid.len() == 8 - t@.len());
                        assert(st.len() == t@.len());
                        assert forall|j: int| 0 <= j < 8 implies out@[j] == #[trigger] e[j] by {
                            if j < hv.len() {
                                assert(h@[j] == sh[j]);
                                assert((sh + zs + st)[j] == sh[j]);
                                assert(out@[j] == hv[j]);
                                assert(e[j] == sh[j]);
                            } else if j < mid.len() {
                                assert((sh + zs + st)[j] == zs[j - sh.len()]);
                                assert(out@[j] == mid[j]);
                                assert(mid[j] == 0);
                                assert(e[j] == 0);
                            } else {
                                let m = j - mid.len();
                                assert((sh + zs + st)[j] == st[m]);
                                assert(out@[mid.len() + m] == t@[m]);
                                assert(t@[m] == st[m]);
                                assert(e[j] == st[m]);
                            }
                        }
                    }
                    Some(out)
                } else {
                    proof {
                        assert(left@ =~= v@.subrange(0, p as int));
                        assert(right@ =~= v@.subrange(p + 2, v@.len() as int));
                    }
                    None
                }
            },
            _ => {
                proof {
                    assert(left@ =~= v@.subrange(0, p as int));
                    assert(right@ =~= v@.subrange(p + 2, v@.len() as int));
                }
                None
            },
        }
    } else {
        let parts = split_chars(v, ':');
        assert(views(parts@) =~= split_on(v@, ':'));
        match segments_exec(&parts, true) {
            Some(g) => {
                if g.len() == 8 {
                    Some(g)
                } else {
                    None
                }
            },
            None => None,
        }
    }
}

/// The host that `raw` names, as `host_of` describes.
pub fn host_of_exec(raw: &Vec<char>) -> (h: Vec<char>)
    ensures
        h@ == host_of(raw@),
{
    let hp = before_char_chars(raw, '/');
    if hp.len() > 0 && hp[0] == '[' {
        let k = index_of_char(&hp, ']');
        if k < hp.len() {
            let inside = slice_chars(&hp, 0, k);
            trim_start_char_chars(&inside, '[')
        } else {
            hp
        }
    } else {
        before_char_chars(&hp, ':')
    }
}

/// Whether `raw` (a server address without scheme) names a local host.
pub fn is_local_host(raw: &str) -> (b: bool)
    ensures
        b == is_local_host_spec(raw@),
{
    let v = chars_of(raw);
    let host = host_of_exec(&v);
    let localhost = chars_of("localhost");
    if eq_ignore_ascii_case_chars(&host, &localhost) {
        return true;
    }
    match parse_ipv4(&host) {
        Some(o) => {
            let a = o[0];
            let b = o[1];
            return a == 10 || (a == 172 && 16 <= b && b <= 31) || (a == 192 && b == 168) || a
                == 127 || (a == 169 && b == 254);
        },
        None => {},
    }
    match parse_ipv6(&host) {
        Some(g) => {
            let loopback = g[0] == 0 && g[1] == 0 && g[2] == 0 && g[3] == 0 && g[4] == 0 && g[5]
                == 0 && g[6] == 0 && g[7] == 1;
            proof {
                let e = ipv6_of(host@)->0;
                if loopback {
                    assert(e =~= seq![0int, 0, 0, 0, 0, 0, 0, 1]);
                } else {
                    assert(e.len() == 8);
                    if e == seq![0int, 0, 0, 0, 0, 0, 0, 1] {
                        assert(e[7] == 1);
                    }
                }
            }
            loopback || (0xfc00 <= g[0] && g[0] <= 0xfdff) || (0xfe80 <= g[0] && g[0] <= 0xfebf)
        },
        None => false,
    }
}

proof fn lemma_first_index_past(r: Seq<char>, rest: Seq<char>, c: char)
    requires
        forall|i: int| 0 <= i < r.len() ==> r[i] != c,
    ensures
        first_index_of(r + rest, c) == r.len() + first_index_of(rest, c),
    decreases r.len(),
{
    if r.len() == 0 {
        assert(r + rest =~= rest);
    } else {
        assert((r + rest).drop_first() =~= r.drop_first() + rest);
        lemma_first_index_past(r.drop_first(), rest, c);
    }
}

/// The host of an address is what comes before its path: an address with no
/// '/' names the same host, local or not, with any path after it.
pub proof fn host_comes_before_the_path(r: Seq<char>, path: Seq<char>)
    requires
        forall|i: int| 0 <= i < r.len() ==> r[i] != '/',
    ensures
        host_of(r + seq!['/'] + path) == host_of(r),
        is_local_host_spec(r + seq!['/'] + path) == is_local_host_spec(r),
{
    let full = r + seq!['/'] + path;
    assert(full =~= r + (seq!['/'] + path));
    lemma_first_index_past(r, seq!['/'] + path, '/');
    lemma_first_index_past(r, Seq::<char>::empty(), '/');
    assert(r + Seq::<char>::empty() =~= r);
    assert(before_char(full, '/') =~= r);
    assert(before_char(r, '/') =~= r);
}

} // verus!
