//! Character-level helpers: whitespace, trimming, literal substring search
//! and splitting into lines.

use vstd::prelude::*;

verus! {

/// The Unicode `White_Space` property, which `char::is_whitespace` tests.
pub open spec fn is_space(c: char) -> bool {
    ||| ('\t' <= c && c <= '\r')
    ||| c == ' '
    ||| c == '\u{85}'
    ||| c == '\u{a0}'
    ||| c == '\u{1680}'
    ||| ('\u{2000}' <= c && c <= '\u{200a}')
    ||| c == '\u{2028}'
    ||| c == '\u{2029}'
    ||| c == '\u{202f}'
    ||| c == '\u{205f}'
    ||| c == '\u{3000}'
}

/// Whether every character of `s` is whitespace (true of the empty text).
pub open spec fn all_space(s: Seq<char>) -> bool {
    forall|i: int| 0 <= i < s.len() ==> is_space(#[trigger] s[i])
}

/// `s` without its leading whitespace.
pub open spec fn trim_start(s: Seq<char>) -> Seq<char>
    decreases s.len(),
{
    if s.len() > 0 && is_space(s[0]) {
        trim_start(s.drop_first())
    } else {
        s
    }
}

/// `s` without its trailing whitespace.
pub open spec fn trim_end(s: Seq<char>) -> Seq<char>
    decreases s.len(),
{
    if s.len() > 0 && is_space(s.last()) {
        trim_end(s.drop_last())
    } else {
        s
    }
}

/// `s` without leading and trailing whitespace, as `str::trim` gives it.
pub open spec fn trim(s: Seq<char>) -> Seq<char> {
    trim_end(trim_start(s))
}

/// Whether `needle` occurs in `hay` at position `i`.
pub open spec fn occurs_at(hay: Seq<char>, needle: Seq<char>, i: int) -> bool {
    0 <= i && i + needle.len() <= hay.len() && hay.subrange(i, i + needle.len()) == needle
}

/// Whether `needle` occurs in `hay` as a literal substring.
pub open spec fn contains(hay: Seq<char>, needle: Seq<char>) -> bool {
    exists|i: int| occurs_at(hay, needle, i)
}

/// `line` without one trailing carriage return.
pub open spec fn strip_cr(line: Seq<char>) -> Seq<char> {
    if line.len() > 0 && line.last() == '\r' {
        line.drop_last()
    } else {
        line
    }
}

/// The lines of `cur + s`, where `cur` is the part of a line already read:
/// lines end at `'\n'`, a `'\r'` right before it is dropped, and a final
/// line ending gives no empty line after it.
pub open spec fn lines_from(s: Seq<char>, cur: Seq<char>) -> Seq<Seq<char>>
    decreases s.len(),
{
    if s.len() == 0 {
        if cur.len() == 0 {
            Seq::empty()
        } else {
            seq![cur]
        }
    } else if s[0] == '\n' {
        seq![strip_cr(cur)] + lines_from(s.drop_first(), Seq::empty())
    } else {
        lines_from(s.drop_first(), cur.push(s[0]))
    }
}

/// The lines of `s`, as `str::lines` yields them.
pub open spec fn lines(s: Seq<char>) -> Seq<Seq<char>> {
    lines_from(s, Seq::empty())
}

/// Tests `char::is_whitespace`.
pub fn is_space_char(c: char) -> (r: bool)
    ensures
        r == is_space(c),
{
    ('\t' <= c && c <= '\r') || c == ' ' || c == '\u{85}' || c == '\u{a0}' || c == '\u{1680}'
        || ('\u{2000}' <= c && c <= '\u{200a}') || c == '\u{2028}' || c == '\u{2029}'
        || c == '\u{202f}' || c == '\u{205f}' || c == '\u{3000}'
}

/// The characters of `s`, in order.
pub fn chars_of(s: &str) -> (r: Vec<char>)
    ensures
        r@ == s@,
{
    broadcast use vstd::string::group_string_axioms;

    let mut out: Vec<char> = Vec::new();
    for ch in it: s.chars()
        invariant
            out@ == it.seq().take(it.index() as int),
            it.seq() == s@,
    {
        out.push(ch);
    }
    assert(out@ =~= s@);
    out
}

/// Relies on `FromIterator<char>` for `String`: collecting characters keeps
/// them, in order.
#[verifier::external_body]
pub(crate) fn string_of(cs: &[char]) -> (r: String)
    ensures
        r@ == cs@,
{
    cs.iter().collect()
}

proof fn lemma_trim_start_skip(s: Seq<char>, k: int)
    requires
        0 <= k <= s.len(),
        forall|j: int| 0 <= j < k ==> is_space(#[trigger] s[j]),
        k == s.len() || !is_space(s[k]),
    ensures
        trim_start(s) == s.skip(k),
    decreases k,
{
    if k == 0 {
        assert(s.skip(0) =~= s);
    } else {
        let t = s.drop_first();
        assert forall|j: int| 0 <= j < k - 1 implies is_space(#[trigger] t[j]) by {
            assert(t[j] == s[j + 1]);
        }
        lemma_trim_start_skip(t, k - 1);
        assert(t.skip(k - 1) =~= s.skip(k));
    }
}

proof fn lemma_trim_end_take(s: Seq<char>, k: int)
    requires
        0 <= k <= s.len(),
        forall|j: int| k <= j < s.len() ==> is_space(#[trigger] s[j]),
        k == 0 || !is_space(s[k - 1]),
    ensures
        trim_end(s) == s.take(k),
    decreases s.len() - k,
{
    if k == s.len() {
        assert(s.take(k) =~= s);
    } else {
        let t = s.drop_last();
        assert forall|j: int| k <= j < t.len() implies is_space(#[trigger] t[j]) by {
            assert(t[j] == s[j]);
        }
        lemma_trim_end_take(t, k);
        assert(t.take(k) =~= s.take(k));
    }
}

/// The bounds, within `cs[lo..hi]`, of that text trimmed.
pub fn trim_bounds(cs: &[char], lo: usize, hi: usize) -> (r: (usize, usize))
    requires
        lo <= hi <= cs@.len(),
    ensures
        lo <= r.0 <= r.1 <= hi,
        cs@.subrange(r.0 as int, r.1 as int) == trim(cs@.subrange(lo as int, hi as int)),
{
    let ghost s = cs@.subrange(lo as int, hi as int);
    let mut a: usize = lo;
    while a < hi && is_space_char(cs[a])
        invariant
            lo <= a <= hi <= cs@.len(),
            s == cs@.subrange(lo as int, hi as int),
            forall|j: int| lo <= j < a ==> is_space(#[trigger] cs@[j]),
        decreases hi - a,
    {
        a = a + 1;
    }
    proof {
        assert forall|j: int| 0 <= j < a - lo implies is_space(#[trigger] s[j]) by {
            assert(s[j] == cs@[lo + j]);
        }
        lemma_trim_start_skip(s, a - lo);
        assert(s.skip(a - lo) =~= cs@.subrange(a as int, hi as int));
    }
    let ghost t = cs@.subrange(a as int, hi as int);
    let mut b: usize = hi;
    while b > a && is_space_char(cs[b - 1])
        invariant
            lo <= a <= b <= hi <= cs@.len(),
            t == cs@.subrange(a as int, hi as int),
            forall|j: int| b <= j < hi ==> is_space(#[trigger] cs@[j]),
        decreases b - a,
    {
        b = b - 1;
    }
    proof {
        assert forall|j: int| b - a <= j < t.len() implies is_space(#[trigger] t[j]) by {
            assert(t[j] == cs@[a + j]);
        }
        lemma_trim_end_take(t, b - a);
        assert(t.take(b - a) =~= cs@.subrange(a as int, b as int));
    }
    (a, b)
}

/// Whether `needle` occurs in `cs[lo..hi]` as a literal substring.
pub fn occurs_in(cs: &[char], lo: usize, hi: usize, needle: &[char]) -> (r: bool)
    requires
        lo <= hi <= cs@.len(),
    ensures
        r == contains(cs@.subrange(lo as int, hi as int), needle@),
{
    let ghost hay = cs@.subrange(lo as int, hi as int);
    let n = needle.len();
    if n > hi - lo {
        assert forall|i: int| !occurs_at(hay, needle@, i) by {}
        return false;
    }
    let mut i: usize = lo;
    while n <= hi - i
        invariant
            lo <= i <= hi <= cs@.len(),
            n == needle@.len(),
            n <= hi - lo,
            hay == cs@.subrange(lo as int, hi as int),
            forall|k: int| 0 <= k < i - lo ==> !occurs_at(hay, needle@, k),
        decreases hi - i,
    {
        let mut j: usize = 0;
        while j < n && cs[i + j] == needle[j]
            invariant
                0 <= j <= n,
                i + n <= hi,
                hi <= cs@.len(),
                n == needle@.len(),
                forall|m: int| 0 <= m < j ==> cs@[i + m] == needle@[m],
            decreases n - j,
        {
            j = j + 1;
        }
        if j == n {
            assert(hay.subrange(i - lo, i - lo + n) =~= needle@);
            assert(occurs_at(hay, needle@, i - lo));
            return true;
        }
        assert(!occurs_at(hay, needle@, i - lo)) by {
            if hay.subrange(i - lo, i - lo + n) == needle@ {
                assert(hay.subrange(i - lo, i - lo + n)[j as int] == cs@[i + j]);
            }
        }
        i = i + 1;
    }
    assert forall|k: int| !occurs_at(hay, needle@, k) by {
        if 0 <= k < i - lo {
        } else if k >= i - lo && k + n <= hay.len() {
            assert(false);
        }
    }
    false
}

/// Whether `cs[lo..hi]` is whitespace through and through.
pub fn all_space_in(cs: &[char], lo: usize, hi: usize) -> (r: bool)
    requires
        lo <= hi <= cs@.len(),
    ensures
        r == all_space(cs@.subrange(lo as int, hi as int)),
{
    let mut i: usize = lo;
    while i < hi
        invariant
            lo <= i <= hi <= cs@.len(),
            forall|j: int| lo <= j < i ==> is_space(#[trigger] cs@[j]),
        decreases hi - i,
    {
        if !is_space_char(cs[i]) {
            assert(!is_space(cs@.subrange(lo as int, hi as int)[i - lo]));
            return false;
        }
        i = i + 1;
    }
    assert forall|j: int| 0 <= j < hi - lo implies is_space(
        #[trigger] cs@.subrange(lo as int, hi as int)[j],
    ) by {
        assert(cs@.subrange(lo as int, hi as int)[j] == cs@[lo + j]);
    }
    true
}

/// Each of `spans` delimits, within `cs`, the text at the same place in
/// `texts`.
pub open spec fn spans_of(cs: Seq<char>, spans: Seq<(usize, usize)>, texts: Seq<Seq<char>>) -> bool {
    &&& spans.len() == texts.len()
    &&& forall|k: int|
        0 <= k < spans.len() ==> {
            &&& (#[trigger] spans[k]).0 <= spans[k].1 <= cs.len()
            &&& cs.subrange(spans[k].0 as int, spans[k].1 as int) == texts[k]
        }
}

proof fn lemma_spans_push(
    cs: Seq<char>,
    spans: Seq<(usize, usize)>,
    texts: Seq<Seq<char>>,
    lo: usize,
    hi: usize,
)
    requires
        spans_of(cs, spans, texts),
        lo <= hi <= cs.len(),
    ensures
        spans_of(cs, spans.push((lo, hi)), texts.push(cs.subrange(lo as int, hi as int))),
{
    let s2 = spans.push((lo, hi));
    let t2 = texts.push(cs.subrange(lo as int, hi as int));
    assert forall|k: int| 0 <= k < s2.len() implies {
        &&& (#[trigger] s2[k]).0 <= s2[k].1 <= cs.len()
        &&& cs.subrange(s2[k].0 as int, s2[k].1 as int) == t2[k]
    } by {
        if k < spans.len() {
            assert(s2[k] == spans[k]);
            assert(t2[k] == texts[k]);
        }
    }
}

/// The bounds of each line of `cs`, in order.
pub fn line_bounds(cs: &[char]) -> (r: Vec<(usize, usize)>)
    ensures
        spans_of(cs@, r@, lines(cs@)),
{
    let mut out: Vec<(usize, usize)> = Vec::new();
    let mut start: usize = 0;
    let mut i: usize = 0;
    let ghost done: Seq<Seq<char>> = Seq::empty();
    assert(cs@.skip(0) =~= cs@);
    assert(cs@.subrange(0, 0) =~= Seq::<char>::empty());
    assert(done + lines(cs@) =~= lines(cs@));
    while i < cs.len()
        invariant
            start <= i <= cs@.len(),
            spans_of(cs@, out@, done),
            lines(cs@) == done + lines_from(cs@.skip(i as int), cs@.subrange(start as int, i as int)),
        decreases cs@.len() - i,
    {
        let ghost rest = cs@.skip(i as int);
        let ghost cur = cs@.subrange(start as int, i as int);
        assert(rest[0] == cs@[i as int]);
        assert(rest.drop_first() =~= cs@.skip(i + 1));
        if cs[i] == '\n' {
            let end = if i > start && cs[i - 1] == '\r' {
                i - 1
            } else {
                i
            };
            proof {
                assert(cs@.subrange(start as int, end as int) =~= strip_cr(cur));
                assert(cs@.subrange((i + 1) as int, (i + 1) as int) =~= Seq::<char>::empty());
                assert(done.push(strip_cr(cur)) + lines_from(cs@.skip(i + 1), Seq::empty()) =~= done
                    + (seq![strip_cr(cur)] + lines_from(cs@.skip(i + 1), Seq::empty())));
                lemma_spans_push(cs@, out@, done, start, end);
                done = done.push(strip_cr(cur));
            }
            out.push((start, end));
            start = i + 1;
        } else {
            assert(cur.push(cs@[i as int]) =~= cs@.subrange(start as int, i + 1));
        }
        i = i + 1;
    }
    assert(cs@.skip(i as int) =~= Seq::<char>::empty());
    if start < i {
        proof {
            assert(lines(cs@) =~= done.push(cs@.subrange(start as int, i as int)));
            lemma_spans_push(cs@, out@, done, start, i);
        }
        out.push((start, i));
    } else {
        assert(lines(cs@) =~= done);
    }
    out
}

/// `s` trimmed, as a new string.
pub fn trim_string(s: &str) -> (r: String)
    ensures
        r@ == trim(s@),
{
    let cs = chars_of(s);
    let (a, b) = trim_bounds(cs.as_slice(), 0, cs.len());
    assert(cs@.subrange(0, cs@.len() as int) =~= s@);
    string_of(vstd::slice::slice_subrange(cs.as_slice(), a, b))
}

/// The first of `ls` that contains `needle`, if any.
pub open spec fn first_match(ls: Seq<Seq<char>>, needle: Seq<char>) -> Option<Seq<char>>
    decreases ls.len(),
{
    if ls.len() == 0 {
        None
    } else if contains(ls[0], needle) {
        Some(ls[0])
    } else {
        first_match(ls.drop_first(), needle)
    }
}

/// The first line of `cs` that contains `needle`, if any.
pub fn first_matching_line(cs: &[char], needle: &[char]) -> (r: Option<String>)
    ensures
        match r {
            Some(line) => first_match(lines(cs@), needle@) == Some(line@),
            None => first_match(lines(cs@), needle@) is None,
        },
{
    let bounds = line_bounds(cs);
    let ghost ls = lines(cs@);
    let mut k: usize = 0;
    assert(ls.skip(0) =~= ls);
    while k < bounds.len()
        invariant
            k <= bounds@.len(),
            spans_of(cs@, bounds@, ls),
            ls == lines(cs@),
            first_match(ls, needle@) == first_match(ls.skip(k as int), needle@),
        decreases bounds@.len() - k,
    {
        let (lo, hi) = bounds[k];
        let ghost rest = ls.skip(k as int);
        assert(rest[0] == ls[k as int]);
        assert(rest.drop_first() =~= ls.skip(k + 1));
        if occurs_in(cs, lo, hi, needle) {
            return Some(string_of(vstd::slice::slice_subrange(cs, lo, hi)));
        }
        k = k + 1;
    }
    None
}

} // verus!
