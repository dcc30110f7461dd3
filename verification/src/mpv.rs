//! mpv's JSON IPC: the line that asks for a property, and the value read
//! from mpv's reply.

use vstd::prelude::*;

use crate::text::{chars_of, first_index_of, index_of_char, opt_text, slice_chars, string_of};

verus! {

/// The line that asks mpv's IPC socket for the property `property`: a JSON
/// `get_property` command, ended by a newline.
pub fn mpv_property_request(property: &str) -> (s: String)
    ensures
        s@ == "{\"command\":[\"get_property\",\""@ + property@ + "\"]}\n"@,
{
    let mut s = String::from_str("{\"command\":[\"get_property\",\"");
    s.append(property);
    s.append("\"]}\n");
    s
}

/// The lines of `s` as `str::lines` gives them: split at each newline, a
/// carriage return before it dropped, no line after a final newline.
pub open spec fn lines_of(s: Seq<char>) -> Seq<Seq<char>>
    decreases s.len(),
{
    if s.len() == 0 {
        seq![]
    } else {
        let i = first_index_of(s, '\n');
        if i < s.len() {
            seq![without_cr(s.take(i as int))] + lines_of(s.skip(i as int + 1))
        } else {
            seq![s]
        }
    }
}

/// `s` without one carriage return at its end.
pub open spec fn without_cr(s: Seq<char>) -> Seq<char> {
    if s.len() > 0 && s.last() == '\r' {
        s.drop_last()
    } else {
        s
    }
}

/// One line of a reply read as JSON, as far as the client looks at it.
#[derive(Debug, Clone)]
pub struct ReplyLine {
    /// The `error` field, where it is a string.
    pub error: Option<String>,
    /// There is a `data` field.
    pub has_data: bool,
    /// The `data` field, where it is a boolean.
    pub data_bool: Option<bool>,
    /// The bits of the `data` field as an `f64`, where it is a number.
    pub data_number_bits: Option<u64>,
}

/// The value mpv reported: as a boolean and as the bits of a number, each
/// where it is one.
#[derive(Debug, Clone, Copy, PartialEq, Eq)]
pub struct ReplyData {
    pub data_bool: Option<bool>,
    pub data_number_bits: Option<u64>,
}

/// What `serde_json` makes of `line` read as a `serde_json::Value`: `None`
/// where it is no JSON, else the `error` field where it is a string,
/// whether there is a `data` field, and that field read with `as_bool` and
/// with `as_f64` (as bits).
pub uninterp spec fn json_reply_line(line: Seq<char>) -> Option<
    (Option<Seq<char>>, bool, Option<bool>, Option<u64>),
>;

/// Reads `line` with `serde_json::from_str::<serde_json::Value>` and picks
/// the fields the client looks at. The contract only names the result: it
/// depends on the line alone.
#[verifier::external_body]
fn parse_reply_line(line: &str) -> (r: Option<ReplyLine>)
    ensures
        json_reply_line(line@) == match r {
            Some(l) => Some((opt_text(l.error), l.has_data, l.data_bool, l.data_number_bits)),
            None => None,
        },
{
    let value = serde_json::from_str::<serde_json::Value>(line).ok()?;
    let data = value.get("data");
    Some(ReplyLine {
        error: value.get("error").and_then(serde_json::Value::as_str).map(str::to_string),
        has_data: data.is_some(),
        data_bool: data.and_then(serde_json::Value::as_bool),
        data_number_bits: data.and_then(serde_json::Value::as_f64).map(|x| x.to_bits()),
    })
}

/// The data of the first of `lines` that is JSON reporting success and
/// carrying data.
pub open spec fn first_success(lines: Seq<Seq<char>>) -> Option<ReplyData>
    decreases lines.len(),
{
    if lines.len() == 0 {
        None
    } else {
        match json_reply_line(lines[0]) {
            Some((Some(e), true, b, n)) if e == "success"@ => Some(
                ReplyData { data_bool: b, data_number_bits: n },
            ),
            _ => first_success(lines.drop_first()),
        }
    }
}

proof fn lemma_first_index_bound(s: Seq<char>, c: char)
    ensures
        first_index_of(s, c) <= s.len(),
        first_index_of(s, c) < s.len() ==> s[first_index_of(s, c) as int] == c,
    decreases s.len(),
{
    if s.len() > 0 && s[0] != c {
        lemma_first_index_bound(s.drop_first(), c);
    }
}

/// The value in mpv's reply `text`: the data of its first line that
/// reports success and carries data.
pub fn reply_data(text: &str) -> (r: Option<ReplyData>)
    ensures
        r == first_success(lines_of(text@)),
{
    let mut rest = chars_of(text);
    while rest.len() > 0
        invariant
            first_success(lines_of(text@)) == first_success(lines_of(rest@)),
        decreases rest.len(),
    {
        let i = index_of_char(&rest, '\n');
        proof {
            lemma_first_index_bound(rest@, '\n');
        }
        let n = rest.len();
        let mut line = slice_chars(&rest, 0, i);
        if i < n && line.len() > 0 && line[line.len() - 1] == '\r' {
            line.pop();
        }
        let ghost piece = line@;
        proof {
            if i < n {
                assert(piece =~= without_cr(rest@.take(i as int)));
                assert(rest@.take(i as int) =~= rest@.subrange(0, i as int));
                assert(lines_of(rest@) == seq![piece] + lines_of(rest@.skip(i + 1)));
                assert((seq![piece] + lines_of(rest@.skip(i + 1))).drop_first() =~= lines_of(
                    rest@.skip(i + 1),
                ));
            } else {
                assert(line@ =~= rest@);
                assert(lines_of(rest@) == seq![piece]);
                assert(seq![piece].drop_first() =~= Seq::<Seq<char>>::empty());
            }
        }
        let text_line = string_of(&line);
        match parse_reply_line(text_line.as_str()) {
            Some(l) => {
                let success = match &l.error {
                    Some(e) => crate::text::str_eq(e.as_str(), "success"),
                    None => false,
                };
                if success && l.has_data {
                    return Some(ReplyData { data_bool: l.data_bool, data_number_bits: l.data_number_bits });
                }
            },
            None => {},
        }
        if i < n {
            rest = slice_chars(&rest, i + 1, n);
        } else {
            rest = Vec::new();
        }
    }
    None
}

} // verus!
