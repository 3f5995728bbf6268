//! Hit records and the text that reports them.

use vstd::prelude::*;

use crate::text::{trim, trim_string};
use crate::tool::enclose;

verus! {

/// One match: the file it was found in and the text of the matching line.
#[derive(Debug)]
pub struct Hit {
    pub path: String,
    pub line_text: String,
}

/// A hit as a pair of texts: its path and its line.
pub open spec fn hit_view(h: Hit) -> (Seq<char>, Seq<char>) {
    (h.path@, h.line_text@)
}

/// Hits as pairs of texts, in order.
pub open spec fn hits_view(hs: Seq<Hit>) -> Seq<(Seq<char>, Seq<char>)> {
    hs.map_values(|h: Hit| hit_view(h))
}

/// The report line of one hit: its path and its line, trimmed.
pub open spec fn hit_line(h: (Seq<char>, Seq<char>)) -> Seq<char> {
    "Hit: "@ + h.0 + " - "@ + trim(h.1) + "\n"@
}

/// The report lines of `hs`, in order.
pub open spec fn hit_lines(hs: Seq<(Seq<char>, Seq<char>)>) -> Seq<char>
    decreases hs.len(),
{
    if hs.len() == 0 {
        Seq::empty()
    } else {
        hit_lines(hs.drop_last()) + hit_line(hs.last())
    }
}

/// The answer to a search for `keyword` that found `hs`.
pub open spec fn report(keyword: Seq<char>, hs: Seq<(Seq<char>, Seq<char>)>) -> Seq<char> {
    if hs.len() == 0 {
        "No search results for keyword '"@ + keyword + "'."@
    } else {
        "Search results:\n"@ + hit_lines(hs)
    }
}

/// The answer to a search for `keyword` that found `hits`.
pub fn format_report(keyword: &str, hits: &Vec<Hit>) -> (r: String)
    ensures
        r@ == report(keyword@, hits_view(hits@)),
{
    if hits.len() == 0 {
        return enclose("No search results for keyword '", keyword, "'.");
    }
    let mut body = String::new();
    let mut i: usize = 0;
    while i < hits.len()
        invariant
            i <= hits@.len(),
            body@ == hit_lines(hits_view(hits@.take(i as int))),
        decreases hits@.len() - i,
    {
        let h = &hits[i];
        let line = trim_string(h.line_text.as_str());
        body.append("Hit: ");
        body.append(h.path.as_str());
        body.append(" - ");
        body.append(line.as_str());
        body.append("\n");
        proof {
            let prev = hits_view(hits@.take(i as int));
            let next = hits_view(hits@.take(i + 1));
            assert(next.drop_last() =~= prev);
            assert(next.last() == hit_view(hits@[i as int]));
            assert(body@ =~= hit_lines(prev) + hit_line(next.last()));
        }
        i = i + 1;
    }
    assert(hits@.take(i as int) =~= hits@);
    let mut r = String::from_str("Search results:\n");
    r.append(body.as_str());
    r
}

} // verus!
