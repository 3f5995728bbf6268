use search_tool::primary::{hit_from_fields, output_hits_of, parse_output_line};
use search_tool::{format_report, FallbackScan, Hit, SearchAction, SearchError, SearchParams, SearchTool};

fn params(directory: &str, keyword: &str) -> SearchParams {
    SearchParams { directory: directory.to_string(), keyword: keyword.to_string() }
}

fn match_line(path: &str, text: &str) -> String {
    format!(
        "{{\"type\":\"match\",\"data\":{{\"path\":{{\"text\":\"{}\"}},\"lines\":{{\"text\":\"{}\"}},\"line_number\":1,\"absolute_offset\":0,\"submatches\":[]}}}}",
        path, text
    )
}

fn reply_text(action: SearchAction) -> String {
    match action {
        SearchAction::Reply(Ok(s)) => s,
        SearchAction::Reply(Err(e)) => panic!("search failed: {}", e.message()),
        SearchAction::RunFallback => panic!("expected a reply"),
    }
}

#[test]
fn missing_directory_is_not_found() {
    let tool = SearchTool::new();
    let e = tool.check_search_request(&params("/no/such/dir", "x"), false, false).unwrap_err();
    assert!(matches!(e, SearchError::NotFound { .. }));
    assert_eq!(e.message(), "The specified path '/no/such/dir' does not exist");
}

#[test]
fn file_is_not_a_directory() {
    let tool = SearchTool::new();
    let e = tool.check_search_request(&params("/etc/hosts", "x"), true, false).unwrap_err();
    assert!(matches!(e, SearchError::NotADirectory { .. }));
    assert_eq!(e.message(), "The specified path '/etc/hosts' is not a directory");
}

#[test]
fn blank_keyword_is_refused() {
    let tool = SearchTool::new();
    for kw in ["", "   ", "\t\n", "\u{3000}"] {
        let e = tool.check_search_request(&params("/tmp", kw), true, true).unwrap_err();
        assert!(matches!(e, SearchError::EmptyKeyword));
        assert_eq!(e.message(), "Search keyword is empty. Please enter a valid keyword.");
    }
    assert!(tool.check_search_request(&params("/tmp", " a "), true, true).is_ok());
}

#[test]
fn missing_directory_comes_before_blank_keyword() {
    let tool = SearchTool::new();
    let e = tool.check_search_request(&params("/no/such/dir", " "), false, false).unwrap_err();
    assert!(matches!(e, SearchError::NotFound { .. }));
}

#[test]
fn dash_keyword_is_passed_as_pattern() {
    let tool = SearchTool::new();
    let args = tool.primary_args(&params("-dir", "-v"));
    assert_eq!(&args[6..], &["-e", "-v", "--", "-dir"]);
}

#[test]
fn primary_arguments_are_fixed() {
    let tool = SearchTool::new();
    let args = tool.primary_args(&params("/src", "needle"));
    assert_eq!(
        args,
        vec![
            "--json", "--max-count=10", "--max-depth=10", "--ignore-case", "--no-ignore",
            "--hidden", "-e", "needle", "--", "/src",
        ]
    );
}

#[test]
fn launch_failure_runs_fallback() {
    let tool = SearchTool::new();
    let a = tool.on_primary_output(&params("/src", "x"), Err("No such file or directory (os error 2)".to_string()));
    assert!(matches!(a, SearchAction::RunFallback));
}

#[test]
fn primary_hits_are_capped_at_ten() {
    let tool = SearchTool::new();
    let mut out = String::new();
    for i in 0..12 {
        out.push_str(&match_line(&format!("f{}.txt", i), "kw"));
        out.push('\n');
    }
    let text = reply_text(tool.on_primary_output(&params(".", "kw"), Ok(out.into_bytes())));
    assert_eq!(text.lines().filter(|l| l.starts_with("Hit: ")).count(), 10);
    assert!(text.ends_with("Hit: f9.txt - kw\n"));
}

#[test]
fn malformed_output_lines_are_listed() {
    let out = format!("not json\n\n{}\n{{\"data\":1}}\n{{\"type\":\"end\"}}\n", match_line("a", "b"));
    let anomalies = search_tool::primary::output_anomalies(out.as_bytes());
    assert_eq!(anomalies, vec!["not json".to_string(), "{\"data\":1}".to_string()]);
}

#[test]
fn primary_hits_are_reported() {
    let tool = SearchTool::new();
    let out = format!(
        "{{\"type\":\"begin\",\"data\":{{\"path\":{{\"text\":\"./a.txt\"}}}}}}\n{}\n{}\n\n{{\"type\":\"end\"}}\n",
        match_line("./a.txt", "  hello world\\n"),
        match_line("./b/c.md", "say Hello\\r\\n"),
    );
    let text = reply_text(tool.on_primary_output(&params(".", "hello"), Ok(out.into_bytes())));
    assert_eq!(text, "Search results:\nHit: ./a.txt - hello world\nHit: ./b/c.md - say Hello\n");
}

#[test]
fn malformed_lines_are_skipped() {
    let out = format!("not json at all\n{{\"type\":\"match\"\n{}\n", match_line("x.rs", "fn main"));
    let hits = output_hits_of(out.as_bytes());
    assert_eq!(hits.len(), 1);
    assert_eq!(hits[0].path, "x.rs");
    assert_eq!(hits[0].line_text, "fn main");
}

#[test]
fn invalid_utf8_in_output_is_replaced() {
    let mut out = b"{\"type\":\"match\",\"data\":{\"path\":{\"text\":\"f\"},\"lines\":{\"text\":\"a".to_vec();
    out.push(0xff);
    out.extend_from_slice(b"b\"}}}\n");
    let hits = output_hits_of(&out);
    assert_eq!(hits.len(), 1);
    assert_eq!(hits[0].line_text, "a\u{fffd}b");
}

#[test]
fn record_needs_match_type_and_both_texts() {
    let s = |t: &str| Some(t.to_string());
    let h = hit_from_fields(s("match"), s("p"), s("t")).unwrap();
    assert_eq!((h.path.as_str(), h.line_text.as_str()), ("p", "t"));
    assert!(hit_from_fields(s("context"), s("p"), s("t")).is_none());
    assert!(hit_from_fields(s("match"), None, s("t")).is_none());
    assert!(hit_from_fields(s("match"), s("p"), None).is_none());
    assert!(hit_from_fields(None, s("p"), s("t")).is_none());
}

#[test]
fn output_line_is_read_through_json() {
    let h = parse_output_line(&match_line("dir/f.txt", "the line")).unwrap();
    assert_eq!(h.path, "dir/f.txt");
    assert_eq!(h.line_text, "the line");
    let nested = "{\"type\":\"match\",\"data\":{\"path\":{\"bytes\":\"AAE=\"},\"lines\":{\"text\":\"x\"}}}";
    assert!(parse_output_line(nested).is_none());
    assert!(parse_output_line("   ").is_none());
}

#[test]
fn no_primary_hits_runs_fallback() {
    let tool = SearchTool::new();
    let out = b"{\"type\":\"summary\",\"data\":{}}\n".to_vec();
    assert!(matches!(tool.on_primary_output(&params(".", "x"), Ok(out)), SearchAction::RunFallback));
    assert!(matches!(tool.on_primary_output(&params(".", "x"), Ok(Vec::new())), SearchAction::RunFallback));
}

#[test]
fn fallback_caps_at_ten_files() {
    let mut scan = FallbackScan::new("needle");
    let mut fed = 0;
    for i in 0..15 {
        if scan.is_done() {
            break;
        }
        scan.accept_file(&format!("d/f{}.txt", i), "hay\na needle here\nneedle again\n");
        fed += 1;
    }
    assert_eq!(fed, 10);
    assert!(scan.is_done());
    assert_eq!(scan.hit_list().len(), 10);
    let tool = SearchTool::new();
    let text = tool.on_fallback_done(&params("d", "needle"), &scan);
    assert_eq!(text.lines().count(), 11);
    assert!(text.starts_with("Search results:\nHit: d/f0.txt - a needle here\n"));
    // once done, further files change nothing
    scan.accept_file("d/late.txt", "needle");
    assert_eq!(scan.hit_list().len(), 10);
}

#[test]
fn fallback_finds_file_when_primary_is_unavailable() {
    let tool = SearchTool::new();
    let p = params("d", "Needle");
    let launch = Err("Permission denied (os error 13)".to_string());
    assert!(matches!(tool.on_primary_output(&p, launch), SearchAction::RunFallback));
    assert!(matches!(tool.on_primary_output(&p, Ok(Vec::new())), SearchAction::RunFallback));
    let mut scan = FallbackScan::new(&p.keyword);
    scan.accept_file("d/a.txt", "nothing here\n");
    scan.accept_file("d/b.txt", "one\r\n  the Needle line \r\nNeedle two\r\n");
    scan.accept_file("d/c.txt", "needle in lower case\n");
    let text = tool.on_fallback_done(&p, &scan);
    assert_eq!(text, "Search results:\nHit: d/b.txt - the Needle line\n");
}

#[test]
fn fallback_is_literal_and_case_sensitive() {
    let mut scan = FallbackScan::new("a.c");
    scan.accept_file("x", "abc\n");
    scan.accept_file("y", "A.C\n");
    assert_eq!(scan.hit_list().len(), 0);
    scan.accept_file("z", "1 a.c 2");
    assert_eq!(scan.hit_list().len(), 1);
    assert_eq!(scan.hit_list()[0].line_text, "1 a.c 2");
}

#[test]
fn keyword_across_lines_counts_without_hit() {
    let mut scan = FallbackScan::new("a\nb");
    scan.accept_file("x", "a\nb\n");
    assert_eq!(scan.hit_list().len(), 0);
    for i in 0..9 {
        scan.accept_file(&format!("y{}", i), "a\nb");
    }
    assert!(scan.is_done());
}

#[test]
fn empty_result_message() {
    let tool = SearchTool::new();
    let scan = FallbackScan::new("zzz");
    assert_eq!(tool.on_fallback_done(&params("d", "zzz"), &scan), "No search results for keyword 'zzz'.");
}

#[test]
fn report_trims_line_text() {
    let hits = vec![Hit { path: "p".to_string(), line_text: "\u{a0} x y \t".to_string() }];
    assert_eq!(format_report("k", &hits), "Search results:\nHit: p - x y\n");
    assert_eq!(format_report(" k ", &Vec::new()), "No search results for keyword ' k '.");
}

#[test]
fn repeated_search_gives_same_hits() {
    let tool = SearchTool::new();
    let p = params("d", "fn");
    let files = [("d/a.rs", "fn a() {}\n"), ("d/b.rs", "// none\n"), ("d/c.rs", "x\npub fn c()\n")];
    let run = || {
        let mut scan = FallbackScan::new(&p.keyword);
        for (path, content) in files.iter() {
            scan.accept_file(path, content);
        }
        tool.on_fallback_done(&p, &scan)
    };
    let first = run();
    assert_eq!(first, "Search results:\nHit: d/a.rs - fn a() {}\nHit: d/c.rs - pub fn c()\n");
    assert_eq!(first, run());
    let out = format!("{}\n", match_line("d/a.rs", "fn a() {}"));
    let one = reply_text(tool.on_primary_output(&p, Ok(out.clone().into_bytes())));
    let two = reply_text(tool.on_primary_output(&p, Ok(out.into_bytes())));
    assert_eq!(one, two);
}
