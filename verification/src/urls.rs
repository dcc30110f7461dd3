//! URL parsing, joining and query serialization, done by the `url` crate,
//! and the query-pair lists that the clients build.

use vstd::prelude::*;

verus! {

/// What `url::Url::parse` makes of `input`: the serialization of the parsed
/// URL, or the text of the parse error.
pub uninterp spec fn url_parse_result(input: Seq<char>) -> Result<Seq<char>, Seq<char>>;

/// What `Url::join` makes of `input` relative to the URL `base` (given by
/// its serialization): the serialization of the result, or the text of the
/// parse error.
pub uninterp spec fn url_join_result(base: Seq<char>, input: Seq<char>) -> Result<
    Seq<char>,
    Seq<char>,
>;

/// The serialization of the URL `url` after `append_pair` was called on its
/// query with each of `pairs` in order, or the text of the error that
/// parsing `url` gave.
pub uninterp spec fn url_query_result(url: Seq<char>, pairs: Seq<(Seq<char>, Seq<char>)>) -> Result<
    Seq<char>,
    Seq<char>,
>;

/// The texts of a result whose value and error are strings.
pub open spec fn text_result(r: Result<String, String>) -> Result<Seq<char>, Seq<char>> {
    match r {
        Ok(s) => Ok(s@),
        Err(e) => Err(e@),
    }
}

/// The character sequences of a list of string pairs.
pub open spec fn pairs_of(v: Seq<(String, String)>) -> Seq<(Seq<char>, Seq<char>)> {
    v.map_values(|p: (String, String)| (p.0@, p.1@))
}

/// Parses `input` as an absolute URL (`url::Url::parse`) and gives its
/// serialization, or the error's display text. The serialization is not
/// described beyond the name `url_parse_result`.
#[verifier::external_body]
pub(crate) fn url_parse(input: &str) -> (r: Result<String, String>)
    ensures
        text_result(r) == url_parse_result(input@),
{
    match url::Url::parse(input) {
        Ok(u) => Ok(u.to_string()),
        Err(e) => Err(e.to_string()),
    }
}

/// Resolves `input` against the URL serialized as `base` (`Url::join`).
/// `base` is parsed first; the text of either error is returned.
#[verifier::external_body]
pub(crate) fn url_join(base: &str, input: &str) -> (r: Result<String, String>)
    ensures
        text_result(r) == url_join_result(base@, input@),
{
    match url::Url::parse(base).and_then(|b| b.join(input)) {
        Ok(u) => Ok(u.to_string()),
        Err(e) => Err(e.to_string()),
    }
}

/// Appends `pairs` to the query of the URL serialized as `url`
/// (`Url::query_pairs_mut().append_pair`, form-urlencoded), in order.
#[verifier::external_body]
pub(crate) fn url_append_query(url: &str, pairs: &Vec<(String, String)>) -> (r: Result<String, String>)
    ensures
        text_result(r) == url_query_result(url@, pairs_of(pairs@)),
{
    let mut u = match url::Url::parse(url) {
        Ok(u) => u,
        Err(e) => return Err(e.to_string()),
    };
    {
        let mut query = u.query_pairs_mut();
        for (k, v) in pairs.iter() {
            query.append_pair(k, v);
        }
    }
    Ok(u.to_string())
}

/// The query pair `(key, value)`.
pub fn pair(key: &str, value: &str) -> (p: (String, String))
    ensures
        p.0@ == key@,
        p.1@ == value@,
{
    (String::from_str(key), String::from_str(value))
}

/// Appends the query pair `(key, value)`.
pub fn push_pair(q: &mut Vec<(String, String)>, key: &str, value: &str)
    ensures
        pairs_of(final(q)@) == pairs_of(old(q)@).push((key@, value@)),
{
    q.push(pair(key, value));
    assert(pairs_of(q@) =~= pairs_of(old(q)@).push((key@, value@)));
}

/// The pair `(key, value)` when there is a value, no pair otherwise.
pub open spec fn opt_pair(key: Seq<char>, value: Option<Seq<char>>) -> Seq<(Seq<char>, Seq<char>)> {
    match value {
        Some(v) => seq![(key, v)],
        None => seq![],
    }
}

/// `parts` joined by `sep` (`[&str]::join`).
pub open spec fn join_with(parts: Seq<Seq<char>>, sep: Seq<char>) -> Seq<char>
    decreases parts.len(),
{
    if parts.len() == 0 {
        seq![]
    } else if parts.len() == 1 {
        parts[0]
    } else {
        join_with(parts.drop_last(), sep) + sep + parts.last()
    }
}

/// The character sequences of a list of strings.
pub open spec fn texts_of(v: Seq<&str>) -> Seq<Seq<char>> {
    v.map_values(|s: &str| s@)
}

/// The strings `parts` joined by `sep`.
pub fn join_strs(parts: &[&str], sep: &str) -> (s: String)
    ensures
        s@ == join_with(texts_of(parts@), sep@),
{
    let mut s = String::new();
    let mut i: usize = 0;
    while i < parts.len()
        invariant
            i <= parts@.len(),
            s@ == join_with(texts_of(parts@.subrange(0, i as int)), sep@),
        decreases parts.len() - i,
    {
        let ghost before = texts_of(parts@.subrange(0, i as int));
        if i > 0 {
            s.append(sep);
        }
        s.append(parts[i]);
        proof {
            let after = texts_of(parts@.subrange(0, i + 1));
            assert(after.drop_last() =~= before);
            assert(after.last() == parts@[i as int]@);
            if i == 0 {
                assert(after =~= seq![parts@[0]@]);
            }
        }
        i = i + 1;
    }
    assert(parts@.subrange(0, parts@.len() as int) =~= parts@);
    s
}

} // verus!
