//! Reading the hits out of the fast search tool's JSON-lines output.

use vstd::prelude::*;

use crate::hit::{hits_view, Hit};
use crate::text::{all_space, all_space_in, chars_of, line_bounds, lines, spans_of, string_of};

verus! {

/// The string that serde_json finds at the JSON pointer `pointer` in the
/// JSON document `doc`, if `doc` parses and a string stands there.
pub uninterp spec fn json_pointer_text(doc: Seq<char>, pointer: Seq<char>) -> Option<Seq<char>>;

/// The text that `String::from_utf8_lossy` makes of `bytes`.
pub uninterp spec fn lossy_text(bytes: Seq<u8>) -> Seq<char>;

/// Relies on `serde_json::from_str` into a `serde_json::Value`, then
/// `Value::pointer` and `Value::as_str`: the string at `pointer` in the
/// document `doc`, which depends on the two texts alone.
#[verifier::external_body]
fn pointer_text(doc: &str, pointer: &str) -> (r: Option<String>)
    ensures
        match r {
            Some(s) => json_pointer_text(doc@, pointer@) == Some(s@),
            None => json_pointer_text(doc@, pointer@) is None,
        },
{
    let value = serde_json::from_str::<serde_json::Value>(doc).ok()?;
    value.pointer(pointer)?.as_str().map(String::from)
}

/// Relies on `String::from_utf8_lossy`: the text depends on the bytes alone,
/// and valid UTF-8 is decoded as it stands.
#[verifier::external_body]
fn decode_lossy(bytes: &[u8]) -> (r: String)
    ensures
        r@ == lossy_text(bytes@),
        vstd::utf8::valid_utf8(bytes@) ==> r@ == vstd::utf8::decode_utf8(bytes@),
{
    String::from_utf8_lossy(bytes).into_owned()
}

/// An optional string as an optional text.
pub open spec fn opt_view(o: Option<String>) -> Option<Seq<char>> {
    match o {
        Some(s) => Some(s@),
        None => None,
    }
}

/// The hit that a record with the given `type`, file path and line text
/// stands for: one exactly where the type is `match` and both texts are there.
pub open spec fn record_hit(
    kind: Option<Seq<char>>,
    path: Option<Seq<char>>,
    text: Option<Seq<char>>,
) -> Option<(Seq<char>, Seq<char>)> {
    if kind == Some("match"@) && path is Some && text is Some {
        Some((path->0, text->0))
    } else {
        None
    }
}

/// The hit that one output line stands for: none for a blank line, else the
/// record's `type`, `data.path.text` and `data.lines.text`.
pub open spec fn line_hit(line: Seq<char>) -> Option<(Seq<char>, Seq<char>)> {
    if all_space(line) {
        None
    } else {
        record_hit(
            json_pointer_text(line, "/type"@),
            json_pointer_text(line, "/data/path/text"@),
            json_pointer_text(line, "/data/lines/text"@),
        )
    }
}

/// The hits of `ls`, line by line, in order.
pub open spec fn hits_of_lines(ls: Seq<Seq<char>>) -> Seq<(Seq<char>, Seq<char>)>
    decreases ls.len(),
{
    if ls.len() == 0 {
        Seq::empty()
    } else {
        hits_of_lines(ls.drop_last()) + match line_hit(ls.last()) {
            Some(h) => seq![h],
            None => Seq::empty(),
        }
    }
}

/// The hits in the output `stdout` of the fast search tool.
pub open spec fn output_hits(stdout: Seq<u8>) -> Seq<(Seq<char>, Seq<char>)> {
    hits_of_lines(lines(lossy_text(stdout)))
}

/// The hit of a record with the given `type`, file path and line text.
pub fn hit_from_fields(kind: Option<String>, path: Option<String>, text: Option<String>) -> (r:
    Option<Hit>)
    ensures
        match r {
            Some(h) => record_hit(opt_view(kind), opt_view(path), opt_view(text)) == Some(
                (h.path@, h.line_text@),
            ),
            None => record_hit(opt_view(kind), opt_view(path), opt_view(text)) is None,
        },
{
    let is_match = match &kind {
        Some(k) => *k == String::from_str("match"),
        None => false,
    };
    if !is_match {
        return None;
    }
    match (path, text) {
        (Some(p), Some(t)) => Some(Hit { path: p, line_text: t }),
        _ => None,
    }
}

/// The hit that one output line stands for.
pub fn parse_output_line(line: &str) -> (r: Option<Hit>)
    ensures
        match r {
            Some(h) => line_hit(line@) == Some((h.path@, h.line_text@)),
            None => line_hit(line@) is None,
        },
{
    let cs = chars_of(line);
    if all_space_in(cs.as_slice(), 0, cs.len()) {
        assert(cs@.subrange(0, cs@.len() as int) =~= line@);
        return None;
    }
    assert(cs@.subrange(0, cs@.len() as int) =~= line@);
    let kind = pointer_text(line, "/type");
    let path = pointer_text(line, "/data/path/text");
    let text = pointer_text(line, "/data/lines/text");
    hit_from_fields(kind, path, text)
}

/// The hits in the output of the fast search tool, in the order of its lines.
pub fn output_hits_of(stdout: &[u8]) -> (r: Vec<Hit>)
    ensures
        hits_view(r@) == output_hits(stdout@),
{
    let text = decode_lossy(stdout);
    let cs = chars_of(text.as_str());
    let bounds = line_bounds(cs.as_slice());
    let ghost ls = lines(cs@);
    let mut out: Vec<Hit> = Vec::new();
    let mut k: usize = 0;
    while k < bounds.len()
        invariant
            k <= bounds@.len(),
            spans_of(cs@, bounds@, ls),
            ls == lines(cs@),
            cs@ == lossy_text(stdout@),
            hits_view(out@) == hits_of_lines(ls.take(k as int)),
        decreases bounds@.len() - k,
    {
        let (lo, hi) = bounds[k];
        let line = string_of(vstd::slice::slice_subrange(cs.as_slice(), lo, hi));
        let found = parse_output_line(line.as_str());
        let ghost prev = out@;
        assert(ls.take(k + 1).drop_last() =~= ls.take(k as int));
        assert(ls.take(k + 1).last() == line@);
        match found {
            Some(h) => {
                out.push(h);
                assert(hits_view(out@) =~= hits_view(prev).push((out@.last().path@, out@.last().line_text@)));
            },
            None => {},
        }
        k = k + 1;
    }
    assert(ls.take(k as int) =~= ls);
    out
}

/// Whether `line` is an anomaly of the output: not blank, yet no record
/// with a string `type` (it does not parse, or is not a record).
pub open spec fn line_is_anomaly(line: Seq<char>) -> bool {
    !all_space(line) && json_pointer_text(line, "/type"@) is None
}

/// The anomalous lines of `ls`, in order.
pub open spec fn anomalies_of_lines(ls: Seq<Seq<char>>) -> Seq<Seq<char>>
    decreases ls.len(),
{
    if ls.len() == 0 {
        Seq::empty()
    } else {
        anomalies_of_lines(ls.drop_last()) + if line_is_anomaly(ls.last()) {
            seq![ls.last()]
        } else {
            Seq::empty()
        }
    }
}

/// The lines of the fast search tool's output that could not be read as
/// records, in order, for diagnostics; they never change the hits.
pub fn output_anomalies(stdout: &[u8]) -> (r: Vec<String>)
    ensures
        r@.map_values(|l: String| l@) == anomalies_of_lines(lines(lossy_text(stdout@))),
{
    let text = decode_lossy(stdout);
    let cs = chars_of(text.as_str());
    let bounds = line_bounds(cs.as_slice());
    let ghost ls = lines(cs@);
    let mut out: Vec<String> = Vec::new();
    let mut k: usize = 0;
    while k < bounds.len()
        invariant
            k <= bounds@.len(),
            spans_of(cs@, bounds@, ls),
            ls == lines(cs@),
            cs@ == lossy_text(stdout@),
            out@.map_values(|l: String| l@) == anomalies_of_lines(ls.take(k as int)),
        decreases bounds@.len() - k,
    {
        let (lo, hi) = bounds[k];
        let ghost prev = out@;
        assert(ls.take(k + 1).drop_last() =~= ls.take(k as int));
        assert(ls.take(k + 1).last() == cs@.subrange(lo as int, hi as int));
        if !all_space_in(cs.as_slice(), lo, hi) {
            let line = string_of(vstd::slice::slice_subrange(cs.as_slice(), lo, hi));
            if pointer_text(line.as_str(), "/type").is_none() {
                out.push(line);
                assert(out@.map_values(|l: String| l@) =~= prev.map_values(|l: String| l@).push(
                    out@.last()@,
                ));
            }
        }
        k = k + 1;
    }
    assert(ls.take(k as int) =~= ls);
    out
}

} // verus!
