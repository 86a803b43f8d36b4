use qualirs::cli::llm_snippet::{
    fenced_code, source_snippet, source_snippet_with_context, write_context_line,
    write_context_lines, write_elided_context_snippet, ContextSnippetRange,
    MAX_CONTEXT_SNIPPET_LINES,
};
use qualirs::domain::SourceLocation;

const SAMPLE: &str = "fn first() {}\nfn target() {\n    work();\n}\nfn last() {}\n";

fn location(line_start: usize, line_end: usize) -> SourceLocation {
    SourceLocation::new(String::from("sample.rs"), line_start, line_end, None)
}

fn large_source() -> String {
    (1..=40).map(|line| format!("line {line}\n")).collect::<String>()
}

#[test]
fn source_snippet_extracts_exact_line_range() {
    let location = location(2, 4);
    assert_eq!(
        source_snippet(SAMPLE, &location).as_deref(),
        Some("fn target() {\n    work();\n}")
    );
}

#[test]
fn source_snippet_with_context_marks_finding_lines() {
    let location = location(2, 3);
    assert_eq!(
        source_snippet_with_context(SAMPLE, &location, 1).as_deref(),
        Some("  1 | fn first() {}\n> 2 | fn target() {\n> 3 |     work();\n  4 | }\n")
    );
}

#[test]
fn source_snippet_with_context_elides_large_ranges() {
    let source = large_source();
    let location = SourceLocation::new(String::from("large.rs"), 1, 40, None);
    let snippet = source_snippet_with_context(&source, &location, 0).expect("snippet");

    assert!(snippet.contains(">  1 | line 1"));
    assert!(snippet.contains("  ... | ..."));
    assert!(snippet.contains("> 40 | line 40"));
    assert!(!snippet.contains("> 17 | line 17"));
}

#[test]
fn source_snippet_elided_text_is_exact() {
    let source = large_source();
    let location = SourceLocation::new(String::from("large.rs"), 1, 40, None);
    let snippet = source_snippet_with_context(&source, &location, 0).unwrap();
    let mut expected = String::new();
    for n in 1..=16 {
        expected.push_str(&format!("> {n:>2} | line {n}\n"));
    }
    expected.push_str("  ... | ...\n");
    for n in 25..=40 {
        expected.push_str(&format!("> {n:>2} | line {n}\n"));
    }
    assert_eq!(snippet, expected);
    assert_eq!(snippet.lines().count(), 33);
}

#[test]
fn source_snippet_clamps_start_and_end() {
    // a start of 0 counts as line 1; an end before the start means the start line
    assert_eq!(source_snippet(SAMPLE, &location(0, 0)).as_deref(), Some("fn first() {}"));
    assert_eq!(source_snippet(SAMPLE, &location(3, 1)).as_deref(), Some("    work();"));
    // an end past the file stops at its last line
    assert_eq!(source_snippet(SAMPLE, &location(5, 99)).as_deref(), Some("fn last() {}"));
}

#[test]
fn source_snippet_outside_the_file_is_none() {
    assert_eq!(source_snippet(SAMPLE, &location(6, 9)), None);
    assert_eq!(source_snippet("", &location(1, 1)), None);
}

#[test]
fn source_snippet_skips_leading_empty_lines() {
    let source = "a\n\nb\nc\n";
    assert_eq!(source_snippet(source, &location(2, 3)).as_deref(), Some("b"));
    assert_eq!(source_snippet(source, &location(2, 2)), None);
}

#[test]
fn source_snippet_handles_crlf() {
    let source = "one\r\ntwo\r\nthree";
    assert_eq!(source_snippet(source, &location(1, 3)).as_deref(), Some("one\ntwo\nthree"));
}

#[test]
fn context_snippet_outside_the_file_is_none() {
    assert_eq!(source_snippet_with_context(SAMPLE, &location(0, 2), 1), None);
    assert_eq!(source_snippet_with_context(SAMPLE, &location(6, 6), 1), None);
    assert_eq!(source_snippet_with_context("", &location(1, 1), 1), None);
}

#[test]
fn context_snippet_clips_context_to_the_file() {
    assert_eq!(
        source_snippet_with_context(SAMPLE, &location(1, 1), 3).as_deref(),
        Some("> 1 | fn first() {}\n  2 | fn target() {\n  3 |     work();\n  4 | }\n")
    );
}

#[test]
fn context_snippet_pads_line_numbers() {
    let source = (1..=12).map(|n| format!("x{n}\n")).collect::<String>();
    let snippet =
        source_snippet_with_context(&source, &SourceLocation::new(String::new(), 9, 10, None), 1)
            .unwrap();
    assert_eq!(snippet, "   8 | x8\n>  9 | x9\n> 10 | x10\n  11 | x11\n");
}

#[test]
fn context_range_new_and_measures() {
    assert!(ContextSnippetRange::new(&location(1, 1), 0, 2).is_none());
    assert!(ContextSnippetRange::new(&location(0, 1), 5, 2).is_none());
    assert!(ContextSnippetRange::new(&location(6, 7), 5, 2).is_none());

    let r = ContextSnippetRange::new(&location(3, 1), 10, 2).unwrap();
    assert_eq!(r.finding_start, 3);
    assert_eq!(r.finding_end, 3);
    assert_eq!(r.snippet_start, 1);
    assert_eq!(r.snippet_end, 5);
    assert_eq!(r.total_lines(), 5);
    assert_eq!(r.line_number_width(), 1);

    let r = ContextSnippetRange::new(&location(95, 200), 120, usize::MAX).unwrap();
    assert_eq!(r.finding_end, 120);
    assert_eq!(r.snippet_start, 1);
    assert_eq!(r.snippet_end, 120);
    assert_eq!(r.total_lines(), 120);
    assert_eq!(r.line_number_width(), 3);
}

#[test]
fn write_context_line_marks_and_pads() {
    let lines = vec![String::from("alpha"), String::from("beta")];
    let mut out = String::from("#");
    assert_eq!(write_context_line(&mut out, &lines, 2, 3, 2, 2), Some(()));
    assert_eq!(write_context_line(&mut out, &lines, 1, 1, 2, 2), Some(()));
    assert_eq!(out, "#>   2 | beta\n  1 | alpha\n");
}

#[test]
fn write_context_lines_writes_an_inclusive_range() {
    let lines: Vec<String> = ["a", "b", "c"].iter().map(|s| s.to_string()).collect();
    let range = ContextSnippetRange {
        finding_start: 2,
        finding_end: 2,
        snippet_start: 1,
        snippet_end: 3,
    };
    let mut out = String::new();
    assert_eq!(write_context_lines(&mut out, &lines, 2, 3, range), Some(()));
    assert_eq!(out, "> 2 | b\n  3 | c\n");
    let mut empty = String::new();
    assert_eq!(write_context_lines(&mut empty, &lines, 3, 2, range), Some(()));
    assert_eq!(empty, "");
}

#[test]
fn write_elided_context_snippet_keeps_head_and_tail() {
    let lines: Vec<String> = (1..=34).map(|n| format!("l{n}")).collect();
    let range = ContextSnippetRange {
        finding_start: 2,
        finding_end: 2,
        snippet_start: 1,
        snippet_end: 34,
    };
    let mut out = String::new();
    assert_eq!(write_elided_context_snippet(&mut out, &lines, range), Some(()));
    let shown: Vec<&str> = out.lines().collect();
    assert_eq!(shown.len(), MAX_CONTEXT_SNIPPET_LINES + 1);
    assert_eq!(shown[0], "   1 | l1");
    assert_eq!(shown[1], ">  2 | l2");
    assert_eq!(shown[15], "  16 | l16");
    assert_eq!(shown[16], "  ... | ...");
    assert_eq!(shown[17], "  19 | l19");
    assert_eq!(shown[32], "  34 | l34");
}

#[test]
fn fenced_code_picks_a_longer_fence_when_needed() {
    assert_eq!(fenced_code("rust", "fn a() {}"), "```rust\nfn a() {}\n```\n");
    assert_eq!(fenced_code("rust", "fn a() {}\n"), "```rust\nfn a() {}\n```\n");
    assert_eq!(fenced_code("md", "```x```"), "````md\n```x```\n````\n");
}

#[test]
fn write_context_lines_split_matches_one_write() {
    let lines: Vec<String> = (1..=6).map(|n| format!("l{n}")).collect();
    let range = ContextSnippetRange {
        finding_start: 3,
        finding_end: 4,
        snippet_start: 1,
        snippet_end: 6,
    };
    for b in 1..=5 {
        let mut split = String::new();
        assert_eq!(write_context_lines(&mut split, &lines, 2, b, range), Some(()));
        assert_eq!(write_context_lines(&mut split, &lines, b + 1, 5, range), Some(()));
        let mut whole = String::new();
        assert_eq!(write_context_lines(&mut whole, &lines, 2, 5, range), Some(()));
        assert_eq!(split, whole);
    }
}

#[test]
fn elided_snippet_and_total_lines_outside_a_nested_range() {
    let lines: Vec<String> = (1..=20).map(|n| format!("l{n}")).collect();
    let range = ContextSnippetRange {
        finding_start: 30,
        finding_end: 30,
        snippet_start: 2,
        snippet_end: 20,
    };
    let mut out = String::new();
    assert_eq!(write_elided_context_snippet(&mut out, &lines, range), Some(()));
    let shown: Vec<&str> = out.lines().collect();
    assert_eq!(shown.len(), MAX_CONTEXT_SNIPPET_LINES + 1);
    assert_eq!(shown[0], "   2 | l2");
    assert_eq!(shown[15], "  17 | l17");
    assert_eq!(shown[16], "  ... | ...");
    assert_eq!(shown[17], "   5 | l5");
    assert_eq!(shown[32], "  20 | l20");
    let zero_start = ContextSnippetRange { finding_start: 0, finding_end: 0, snippet_start: 0, snippet_end: 4 };
    assert_eq!(zero_start.total_lines(), 5);
}
