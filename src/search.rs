//! The search operation: checking the request, the arguments of the fast
//! search tool, and the two-stage gate from its output to the fallback scan.

use vstd::prelude::*;

use crate::fallback::FallbackScan;
use crate::hit::{format_report, hits_view};
use crate::hit::report;
use crate::primary::{output_hits, output_hits_of};
use crate::text::{all_space, all_space_in, chars_of};
use crate::tool::{enclose, SearchParams, SearchTool};

verus! {

/// Why a search could not be made.
#[derive(Debug)]
pub enum SearchError {
    /// The directory does not exist.
    NotFound { path: String },
    /// The path exists but is not a directory.
    NotADirectory { path: String },
    /// The keyword is empty or only whitespace.
    EmptyKeyword,
}

impl SearchError {
    /// The human-readable message of the error.
    pub open spec fn message_spec(&self) -> Seq<char> {
        match self {
            SearchError::NotFound { path } => "The specified path '"@ + path@
                + "' does not exist"@,
            SearchError::NotADirectory { path } => "The specified path '"@ + path@
                + "' is not a directory"@,
            SearchError::EmptyKeyword => "Search keyword is empty. Please enter a valid keyword."@,
        }
    }

    /// The human-readable message of the error.
    pub fn message(&self) -> (r: String)
        ensures
            r@ == self.message_spec(),
    {
        match self {
            SearchError::NotFound { path } => enclose(
                "The specified path '",
                path.as_str(),
                "' does not exist",
            ),
            SearchError::NotADirectory { path } => enclose(
                "The specified path '",
                path.as_str(),
                "' is not a directory",
            ),
            SearchError::EmptyKeyword => String::from_str(
                "Search keyword is empty. Please enter a valid keyword.",
            ),
        }
    }
}

/// What to do after the fast search tool has run.
#[derive(Debug)]
pub enum SearchAction {
    /// It could not be started or found nothing usable: run the fallback scan.
    RunFallback,
    /// Answer the request.
    Reply(Result<String, SearchError>),
}

/// Whether `r` is the answer to checking a search of `directory` for
/// `keyword`, given whether the directory exists and whether it is one.
pub open spec fn search_check_spec(
    directory: Seq<char>,
    keyword: Seq<char>,
    exists: bool,
    is_dir: bool,
    r: Result<(), SearchError>,
) -> bool {
    if !exists {
        r matches Err(SearchError::NotFound { path: p }) && p@ == directory
    } else if !is_dir {
        r matches Err(SearchError::NotADirectory { path: p }) && p@ == directory
    } else if all_space(keyword) {
        r matches Err(SearchError::EmptyKeyword)
    } else {
        r is Ok
    }
}

/// The arguments of the fast search tool: JSON-lines output, at most ten
/// matches per file, at most ten levels deep, case-insensitive, ignore files
/// not honoured, hidden files searched; then the keyword as the pattern
/// (after `-e`) and the directory as the path (after `--`), so that neither
/// is read as an option.
///
/// The fast tool reads the keyword as a regular expression, while the
/// fallback scan matches it as a literal, case-sensitive substring: the two
/// stages can disagree on what matches.
pub open spec fn primary_args_spec(directory: Seq<char>, keyword: Seq<char>) -> Seq<Seq<char>> {
    seq![
        "--json"@,
        "--max-count=10"@,
        "--max-depth=10"@,
        "--ignore-case"@,
        "--no-ignore"@,
        "--hidden"@,
        "-e"@,
        keyword,
        "--"@,
        directory,
    ]
}

/// The largest number of hits a search reports.
pub const MAX_HITS: usize = 10;

/// The first `MAX_HITS` of `hs`.
pub open spec fn capped(hs: Seq<(Seq<char>, Seq<char>)>) -> Seq<(Seq<char>, Seq<char>)> {
    if hs.len() <= MAX_HITS {
        hs
    } else {
        hs.take(MAX_HITS as int)
    }
}

/// Whether `r` is what follows the fast search tool's run for `keyword`:
/// when it could not be started, or its output holds no hits, the fallback
/// scan runs; otherwise the first `MAX_HITS` of its hits are the answer.
pub open spec fn primary_step_spec(
    keyword: Seq<char>,
    output: Result<Vec<u8>, String>,
    r: SearchAction,
) -> bool {
    match output {
        Err(_) => r is RunFallback,
        Ok(stdout) => if output_hits(stdout@).len() == 0 {
            r is RunFallback
        } else {
            r matches SearchAction::Reply(Ok(s)) && s@ == report(
                keyword,
                capped(output_hits(stdout@)),
            )
        },
    }
}

impl SearchTool {
    /// Checks a search request, given whether its directory exists and
    /// whether it is a directory.
    pub fn check_search_request(&self, params: &SearchParams, exists: bool, is_dir: bool) -> (r:
        Result<(), SearchError>)
        ensures
            search_check_spec(params.directory@, params.keyword@, exists, is_dir, r),
    {
        if !exists {
            return Err(SearchError::NotFound { path: params.directory.clone() });
        }
        if !is_dir {
            return Err(SearchError::NotADirectory { path: params.directory.clone() });
        }
        let cs = chars_of(params.keyword.as_str());
        assert(cs@.subrange(0, cs@.len() as int) =~= params.keyword@);
        if all_space_in(cs.as_slice(), 0, cs.len()) {
            return Err(SearchError::EmptyKeyword);
        }
        Ok(())
    }

    /// The arguments with which to run the fast search tool.
    pub fn primary_args(&self, params: &SearchParams) -> (r: Vec<String>)
        ensures
            r@.map_values(|a: String| a@) == primary_args_spec(
                params.directory@,
                params.keyword@,
            ),
    {
        let mut r: Vec<String> = Vec::new();
        r.push(String::from_str("--json"));
        r.push(String::from_str("--max-count=10"));
        r.push(String::from_str("--max-depth=10"));
        r.push(String::from_str("--ignore-case"));
        r.push(String::from_str("--no-ignore"));
        r.push(String::from_str("--hidden"));
        r.push(String::from_str("-e"));
        r.push(params.keyword.clone());
        r.push(String::from_str("--"));
        r.push(params.directory.clone());
        assert(r@.map_values(|a: String| a@) =~= primary_args_spec(
            params.directory@,
            params.keyword@,
        ));
        r
    }

    /// Decides what follows the fast search tool's run, given its standard
    /// output, or why it could not be started; a launch failure is no error
    /// of the search, which goes on with the fallback scan.
    pub fn on_primary_output(&self, params: &SearchParams, output: Result<Vec<u8>, String>) -> (r:
        SearchAction)
        ensures
            primary_step_spec(params.keyword@, output, r),
    {
        match output {
            Err(_) => SearchAction::RunFallback,
            Ok(stdout) => {
                let mut hits = output_hits_of(stdout.as_slice());
                if hits.len() == 0 {
                    SearchAction::RunFallback
                } else {
                    let ghost all = hits@;
                    if hits.len() > MAX_HITS {
                        hits.truncate(MAX_HITS);
                        assert(hits_view(hits@) =~= hits_view(all).take(MAX_HITS as int));
                    }
                    SearchAction::Reply(Ok(format_report(params.keyword.as_str(), &hits)))
                }
            },
        }
    }

    /// The answer to a search whose fast stage found nothing, given the
    /// fallback scan that followed it.
    pub fn on_fallback_done(&self, params: &SearchParams, scan: &FallbackScan) -> (r: String)
        ensures
            r@ == report(params.keyword@, scan.hits()),
    {
        format_report(params.keyword.as_str(), scan.hit_list())
    }
}

} // verus!
