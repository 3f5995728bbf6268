//! The fallback scan: a literal substring search over the files of a
//! directory walk, at most one hit per file and a bounded number of files.
//! Unlike the fast search tool, which reads the keyword as a case-insensitive
//! regular expression, this scan matches it literally and case-sensitively.

use vstd::prelude::*;

use crate::hit::{hits_view, Hit};
use crate::text::{chars_of, contains, first_match, first_matching_line, lines, occurs_in};

verus! {

/// The number of matching files after which the scan stops.
pub const MAX_MATCHED_FILES: usize = 10;

/// How many directory levels the walk descends at most.
pub const MAX_WALK_DEPTH: usize = 10;

/// A hit list and the number of matching files so far.
pub type ScanState = (Seq<(Seq<char>, Seq<char>)>, nat);

/// The scan after it has seen one more file, given as its path and content:
/// once the cap is reached nothing changes; a file that contains `keyword`
/// counts, and gives a hit for its first line that contains it, if any.
pub open spec fn scan_step(keyword: Seq<char>, st: ScanState, file: (Seq<char>, Seq<char>)) -> ScanState {
    if st.1 >= MAX_MATCHED_FILES {
        st
    } else if contains(file.1, keyword) {
        match first_match(lines(file.1), keyword) {
            Some(line) => (st.0.push((file.0, line)), st.1 + 1),
            None => (st.0, st.1 + 1),
        }
    } else {
        st
    }
}

/// The scan after it has seen `files`, in order.
pub open spec fn scan_files(keyword: Seq<char>, files: Seq<(Seq<char>, Seq<char>)>) -> ScanState
    decreases files.len(),
{
    if files.len() == 0 {
        (Seq::empty(), 0)
    } else {
        scan_step(keyword, scan_files(keyword, files.drop_last()), files.last())
    }
}

/// The state of a fallback scan for one keyword.
pub struct FallbackScan {
    keyword: String,
    needle: Vec<char>,
    hits: Vec<Hit>,
    matched: usize,
    seen: Ghost<Seq<(Seq<char>, Seq<char>)>>,
}

impl FallbackScan {
    /// The keyword searched for.
    pub closed spec fn keyword(&self) -> Seq<char> {
        self.keyword@
    }

    /// The files seen so far, as path and content, in order.
    pub closed spec fn seen(&self) -> Seq<(Seq<char>, Seq<char>)> {
        self.seen@
    }

    /// The hits found so far, in order.
    pub closed spec fn hits(&self) -> Seq<(Seq<char>, Seq<char>)> {
        hits_view(self.hits@)
    }

    /// How many files matched so far.
    pub closed spec fn matched(&self) -> nat {
        self.matched as nat
    }

    /// The scan's hits and count are those of the files it has seen.
    pub closed spec fn wf(&self) -> bool {
        &&& self.needle@ == self.keyword@
        &&& (hits_view(self.hits@), self.matched as nat) == scan_files(self.keyword@, self.seen@)
    }

    /// A scan for `keyword` that has seen no file.
    pub fn new(keyword: &str) -> (r: Self)
        ensures
            r.wf(),
            r.keyword() == keyword@,
            r.seen() == Seq::<(Seq<char>, Seq<char>)>::empty(),
    {
        let r = FallbackScan {
            keyword: String::from_str(keyword),
            needle: chars_of(keyword),
            hits: Vec::new(),
            matched: 0,
            seen: Ghost(Seq::empty()),
        };
        assert(hits_view(r.hits@) =~= Seq::<(Seq<char>, Seq<char>)>::empty());
        r
    }

    /// The hits found so far and the count of matching files.
    pub proof fn lemma_state(&self)
        requires
            self.wf(),
        ensures
            (self.hits(), self.matched()) == scan_files(self.keyword(), self.seen()),
    {
    }

    /// The hits found so far, in order.
    pub fn hit_list(&self) -> (r: &Vec<Hit>)
        ensures
            hits_view(r@) == self.hits(),
    {
        &self.hits
    }

    /// Whether the scan has reached its cap of matching files.
    pub fn is_done(&self) -> (r: bool)
        requires
            self.wf(),
        ensures
            r == (scan_files(self.keyword(), self.seen()).1 >= MAX_MATCHED_FILES),
    {
        self.matched >= MAX_MATCHED_FILES
    }

    /// Takes in one file of the walk, given as its path and its text.
    pub fn accept_file(&mut self, path: &str, content: &str)
        requires
            old(self).wf(),
        ensures
            final(self).wf(),
            final(self).keyword() == old(self).keyword(),
            final(self).seen() == old(self).seen().push((path@, content@)),
    {
        let ghost file = (path@, content@);
        let ghost before = scan_files(self.keyword@, self.seen@);
        proof {
            let after = self.seen@.push(file);
            assert(after.drop_last() =~= self.seen@);
        }
        if self.matched >= MAX_MATCHED_FILES {
            self.seen = Ghost(self.seen@.push(file));
            return;
        }
        let cs = chars_of(content);
        assert(cs@.subrange(0, cs@.len() as int) =~= content@);
        if !occurs_in(cs.as_slice(), 0, cs.len(), self.needle.as_slice()) {
            self.seen = Ghost(self.seen@.push(file));
            return;
        }
        let ghost prev = self.hits@;
        match first_matching_line(cs.as_slice(), self.needle.as_slice()) {
            Some(line) => {
                self.hits.push(Hit { path: String::from_str(path), line_text: line });
                assert(hits_view(self.hits@) =~= hits_view(prev).push(
                    (path@, self.hits@.last().line_text@),
                ));
            },
            None => {},
        }
        self.matched = self.matched + 1;
        self.seen = Ghost(self.seen@.push(file));
    }
}

} // verus!
