//! Properties that hold across the operations of the library.

use vstd::prelude::*;

use crate::fallback::{scan_files, scan_step, FallbackScan, MAX_MATCHED_FILES};
use crate::hit::{hit_lines, report};
use crate::primary::output_hits;
use crate::reader::{file_check_spec, raw_failure_spec, text_step_spec, FileError, ReadAction};
use crate::search::{capped, primary_step_spec, MAX_HITS, search_check_spec, SearchAction, SearchError};
use crate::text::{all_space, contains, first_match, lines};

verus! {

/// Reading an existing regular file whose text is not empty and holds no
/// NUL character answers with exactly that text.
pub proof fn text_file_read_whole(
    path: Seq<char>,
    content: String,
    check: Result<(), FileError>,
    step: ReadAction,
)
    requires
        content@.len() > 0,
        !content@.contains('\0'),
        file_check_spec(path, true, true, check),
        text_step_spec(path, Ok(content), step),
    ensures
        check is Ok,
        step matches ReadAction::Reply(Ok(s)) && s@ == content@,
{
}

/// Reading an existing empty file answers with the empty-file marker, not
/// with an error.
pub proof fn empty_file_marker(
    path: Seq<char>,
    content: String,
    check: Result<(), FileError>,
    step: ReadAction,
)
    requires
        content@.len() == 0,
        file_check_spec(path, true, true, check),
        text_step_spec(path, Ok(content), step),
    ensures
        check is Ok,
        step matches ReadAction::Reply(Ok(s)) && s@ == "File is empty."@,
{
}

/// A file whose text holds a NUL character is a binary file, reported as
/// such and never shown.
pub proof fn nul_text_means_binary(path: Seq<char>, content: String, step: ReadAction)
    requires
        content@.contains('\0'),
        text_step_spec(path, Ok(content), step),
    ensures
        step matches ReadAction::Reply(Err(FileError::BinaryFile { path: p })) && p@ == path,
{
}

/// A file that could not be decoded and holds a NUL byte is a binary file,
/// reported as such and never shown.
pub proof fn nul_byte_means_binary(path: Seq<char>, detail: Seq<char>, bytes: Vec<u8>, r: FileError)
    requires
        bytes@.contains(0u8),
        raw_failure_spec(path, detail, Ok(bytes), r),
    ensures
        r matches FileError::BinaryFile { path: p } && p@ == path,
{
}

/// A path that does not exist is reported as not found by both operations,
/// with a message that quotes the path exactly.
pub proof fn missing_path_not_found(
    path: Seq<char>,
    keyword: Seq<char>,
    is_file: bool,
    is_dir: bool,
    read: Result<(), FileError>,
    search: Result<(), SearchError>,
)
    requires
        file_check_spec(path, false, is_file, read),
        search_check_spec(path, keyword, false, is_dir, search),
    ensures
        read matches Err(e) && e is NotFound && e.message_spec() == "The specified path '"@ + path
            + "' does not exist"@,
        search matches Err(e) && e is NotFound && e.message_spec() == "The specified path '"@
            + path + "' does not exist"@,
{
}

/// A search of an existing directory for an empty or whitespace-only keyword
/// is refused before any search runs.
pub proof fn blank_keyword_refused(directory: Seq<char>, keyword: Seq<char>, r: Result<(), SearchError>)
    requires
        all_space(keyword),
        search_check_spec(directory, keyword, true, true, r),
    ensures
        r matches Err(SearchError::EmptyKeyword),
{
}

/// However many files the walk yields, the fallback scan reports at most one
/// hit per matching file and counts at most ten matching files.
pub proof fn fallback_hit_cap(keyword: Seq<char>, files: Seq<(Seq<char>, Seq<char>)>)
    ensures
        scan_files(keyword, files).0.len() <= scan_files(keyword, files).1,
        scan_files(keyword, files).1 <= MAX_MATCHED_FILES,
    decreases files.len(),
{
    if files.len() > 0 {
        fallback_hit_cap(keyword, files.drop_last());
    }
}

/// An answer from the fast stage reports at most `MAX_HITS` hits, the first
/// ones of the tool's output.
pub proof fn primary_hit_cap(hs: Seq<(Seq<char>, Seq<char>)>)
    ensures
        capped(hs).len() <= MAX_HITS,
        forall|k: int| 0 <= k < capped(hs).len() ==> #[trigger] capped(hs)[k] == hs[k],
{
}

proof fn lemma_scan_before_match(keyword: Seq<char>, files: Seq<(Seq<char>, Seq<char>)>)
    requires
        forall|j: int| 0 <= j < files.len() ==> !contains(#[trigger] files[j].1, keyword),
    ensures
        scan_files(keyword, files) == (Seq::<(Seq<char>, Seq<char>)>::empty(), 0nat),
    decreases files.len(),
{
    if files.len() > 0 {
        let init = files.drop_last();
        assert forall|j: int| 0 <= j < init.len() implies !contains(#[trigger] init[j].1, keyword) by {
            assert(init[j] == files[j]);
        }
        lemma_scan_before_match(keyword, init);
        assert(!contains(files[files.len() - 1].1, keyword));
    }
}

proof fn lemma_scan_keeps_first(
    keyword: Seq<char>,
    files: Seq<(Seq<char>, Seq<char>)>,
    i: int,
    hit: (Seq<char>, Seq<char>),
)
    requires
        0 <= i < files.len(),
        scan_files(keyword, files.take(i + 1)).0.len() > 0,
        scan_files(keyword, files.take(i + 1)).0[0] == hit,
    ensures
        scan_files(keyword, files).0.len() > 0,
        scan_files(keyword, files).0[0] == hit,
    decreases files.len() - i,
{
    if i + 1 == files.len() {
        assert(files.take(i + 1) =~= files);
    } else {
        let next = files.take(i + 2);
        assert(next.drop_last() =~= files.take(i + 1));
        let st = scan_files(keyword, files.take(i + 1));
        let st2 = scan_step(keyword, st, next.last());
        assert(st2.0.len() > 0 && st2.0[0] == hit);
        lemma_scan_keeps_first(keyword, files, i + 1, hit);
    }
}

/// When the fast search tool could not be started, or ran but gave no hits,
/// the search goes on to the fallback scan; and where the first file of the walk that contains the
/// keyword has a line that contains it, the answer reports that file and line
/// first.
pub proof fn fallback_finds_match(
    keyword: Seq<char>,
    output: Result<Vec<u8>, String>,
    action: SearchAction,
    files: Seq<(Seq<char>, Seq<char>)>,
    i: int,
)
    requires
        match output {
            Ok(stdout) => output_hits(stdout@).len() == 0,
            Err(_) => true,
        },
        primary_step_spec(keyword, output, action),
        0 <= i < files.len(),
        contains(files[i].1, keyword),
        first_match(lines(files[i].1), keyword) is Some,
        forall|j: int| 0 <= j < i ==> !contains(#[trigger] files[j].1, keyword),
    ensures
        action is RunFallback,
        scan_files(keyword, files).0.len() > 0,
        scan_files(keyword, files).0[0] == (files[i].0, first_match(lines(files[i].1), keyword)->0),
        report(keyword, scan_files(keyword, files).0) == "Search results:\n"@ + hit_lines(
            scan_files(keyword, files).0,
        ),
{
    let before = files.take(i);
    assert forall|j: int| 0 <= j < before.len() implies !contains(#[trigger] before[j].1, keyword) by {
        assert(before[j] == files[j]);
    }
    lemma_scan_before_match(keyword, before);
    let upto = files.take(i + 1);
    assert(upto.drop_last() =~= before);
    assert(upto.last() == files[i]);
    let hit = (files[i].0, first_match(lines(files[i].1), keyword)->0);
    assert(scan_files(keyword, upto).0 =~= seq![hit]);
    lemma_scan_keeps_first(keyword, files, i, hit);
}

/// The same search, made again on the same output of the fast search tool,
/// takes the same course and answers with the same text; the fallback scan
/// of the same walk finds the same hits in the same order.
pub proof fn search_is_repeatable(
    keyword: Seq<char>,
    stdout: Vec<u8>,
    first: SearchAction,
    second: SearchAction,
    first_scan: &FallbackScan,
    second_scan: &FallbackScan,
)
    requires
        primary_step_spec(keyword, Ok(stdout), first),
        primary_step_spec(keyword, Ok(stdout), second),
        first_scan.wf(),
        second_scan.wf(),
        first_scan.keyword() == keyword,
        second_scan.keyword() == keyword,
        first_scan.seen() == second_scan.seen(),
    ensures
        first is RunFallback <==> second is RunFallback,
        first matches SearchAction::Reply(Ok(a)) ==> second matches SearchAction::Reply(Ok(b))
            && a@ == b@,
        first_scan.hits() == second_scan.hits(),
{
    first_scan.lemma_state();
    second_scan.lemma_state();
}

} // verus!
