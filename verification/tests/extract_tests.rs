use collector::extract::{extract_ast, extract_lint, extract_pattern, ExtractWarning};
use collector::out::OutFile;
use collector::rat::Rat;
use collector::raw::{RawDoc, RawLintEntry, RawLoc, RawMetrics, RawPatternEntry, RawSpace,
    RawSpan};
use collector::src_file::{group_findings_by_tool, SrcFile};
use collector::tool::ToolName;

fn segs(parts: &[&str]) -> Vec<String> {
    parts.iter().map(|s| s.to_string()).collect()
}

fn empty_payload() -> RawMetrics {
    RawMetrics {
        nargs: None,
        nexits: None,
        cognitive: None,
        cyclomatic: None,
        halstead: None,
        loc: None,
        nom: None,
        mi: None,
    }
}

fn space(kind: &str, name: &str, start: u64, end: u64, children: Vec<RawSpace>) -> RawSpace {
    RawSpace {
        kind: Some(kind.to_string()),
        name: Some(name.to_string()),
        start_line: Some(start),
        end_line: Some(end),
        metrics: Some(empty_payload()),
        spaces: children,
    }
}

fn pattern_entry(kind: &str, start: u64, end: u64) -> RawPatternEntry {
    RawPatternEntry {
        kind: Some(kind.to_string()),
        name: None,
        start_line: Some(start),
        end_line: Some(end),
    }
}

fn lint_entry(reason: &str, code: &str, path: &[&str], spans: Vec<RawSpan>) -> RawLintEntry {
    RawLintEntry {
        reason: Some(reason.to_string()),
        code: Some(code.to_string()),
        src_path: Some(segs(path)),
        spans,
    }
}

fn span(start: u64, end: u64) -> RawSpan {
    RawSpan { line_start: Some(start), line_end: Some(end) }
}

#[test]
fn ast_extraction_visits_every_node_exactly_once() {
    let tree = space(
        "unit",
        "root",
        1,
        100,
        vec![
            space("function", "f", 1, 20, vec![space("closure", "c", 5, 8, vec![])]),
            space("function", "g", 30, 40, vec![]),
        ],
    );
    let out = extract_ast(ToolName::Rca, &tree);
    assert_eq!(out.findings.len(), 4);
    assert_eq!(out.warnings.len(), 0);
    let kinds: Vec<&str> = out.findings.iter().map(|f| f.kind.as_str()).collect();
    assert_eq!(kinds, vec!["unit", "function", "closure", "function"]);
    assert_eq!(out.findings[0].start_line, 1);
    assert_eq!(out.findings[0].end_line, 100);
    assert!(out.findings[0].data.is_some());
}

#[test]
fn ast_extraction_fails_an_invalid_node_but_keeps_its_children() {
    let mut broken = space("unit", "root", 1, 100, vec![space("function", "f", 1, 20, vec![])]);
    broken.kind = None;
    let out = extract_ast(ToolName::Rca, &broken);
    assert_eq!(out.findings.len(), 1);
    assert_eq!(out.findings[0].kind, "function");
    assert_eq!(out.warnings, vec![ExtractWarning::SpaceInvalid]);
}

#[test]
fn ast_extraction_rejects_a_backwards_range() {
    let backwards = space("unit", "root", 10, 2, vec![]);
    let out = extract_ast(ToolName::Rca, &backwards);
    assert_eq!(out.findings.len(), 0);
    assert_eq!(out.warnings, vec![ExtractWarning::SpaceInvalid]);
}

#[test]
fn pattern_extraction_synthesizes_the_name_from_the_kind() {
    let out = extract_pattern(&vec![pattern_entry("unsafe", 5, 6)]);
    assert_eq!(out.findings.len(), 1);
    assert_eq!(out.findings[0].tool_name, ToolName::Finder);
    assert_eq!(out.findings[0].kind, "unsafe");
    assert_eq!(out.findings[0].name, "unsafe");
    assert_eq!(out.findings[0].start_line, 5);
    assert_eq!(out.findings[0].end_line, 6);
    assert!(out.findings[0].data.is_none());
}

#[test]
fn pattern_extraction_keeps_a_given_name() {
    let mut e = pattern_entry("macro_invocation", 3, 3);
    e.name = Some("println".to_string());
    let out = extract_pattern(&vec![e]);
    assert_eq!(out.findings[0].name, "println");
}

#[test]
fn pattern_extraction_skips_an_incomplete_entry_with_a_warning() {
    let mut e = pattern_entry("lifetime", 3, 4);
    e.start_line = None;
    let out = extract_pattern(&vec![e, pattern_entry("unsafe", 7, 8)]);
    assert_eq!(out.findings.len(), 1);
    assert_eq!(out.findings[0].kind, "unsafe");
    assert_eq!(out.warnings, vec![ExtractWarning::PatternEntryInvalid]);
}

#[test]
fn lint_extraction_strips_the_tool_namespace_from_the_code() {
    let target = segs(&["data", "tmp", "owner", "repo", "src", "main.rs"]);
    let e = lint_entry(
        "compiler-message",
        "clippy::needless_return",
        &["data", "tmp", "owner", "repo", "src", "main.rs"],
        vec![span(12, 14)],
    );
    let out = extract_lint(&vec![e], &target);
    assert_eq!(out.findings.len(), 1);
    assert_eq!(out.findings[0].tool_name, ToolName::Clippy);
    assert_eq!(out.findings[0].kind, "needless_return");
    assert_eq!(out.findings[0].name, "clippy::needless_return");
    assert_eq!(out.findings[0].start_line, 12);
    assert_eq!(out.findings[0].end_line, 14);
    assert_eq!(out.warnings.len(), 0);
}

#[test]
fn lint_extraction_drops_a_code_without_the_tool_prefix() {
    let target = segs(&["data", "tmp", "owner", "repo", "src", "main.rs"]);
    let e = lint_entry(
        "compiler-message",
        "dead_code",
        &["data", "tmp", "owner", "repo", "src", "main.rs"],
        vec![span(1, 1)],
    );
    let out = extract_lint(&vec![e], &target);
    assert_eq!(out.findings.len(), 0);
    assert_eq!(out.warnings.len(), 0);
}

#[test]
fn lint_extraction_drops_other_reasons() {
    let target = segs(&["data", "tmp", "owner", "repo", "src", "main.rs"]);
    let e = lint_entry(
        "build-finished",
        "clippy::needless_return",
        &["data", "tmp", "owner", "repo", "src", "main.rs"],
        vec![span(1, 1)],
    );
    let out = extract_lint(&vec![e], &target);
    assert_eq!(out.findings.len(), 0);
    assert_eq!(out.warnings.len(), 0);
}

#[test]
fn lint_extraction_drops_messages_of_other_files() {
    let target = segs(&["data", "tmp", "owner", "repo", "src", "main.rs"]);
    let e = lint_entry(
        "compiler-message",
        "clippy::needless_return",
        &["data", "tmp", "owner", "repo", "src", "lib.rs"],
        vec![span(1, 1)],
    );
    let out = extract_lint(&vec![e], &target);
    assert_eq!(out.findings.len(), 0);
    assert_eq!(out.warnings.len(), 0);
}

#[test]
fn lint_extraction_warns_on_a_second_span_and_uses_the_first() {
    let target = segs(&["data", "tmp", "owner", "repo", "src", "main.rs"]);
    let e = lint_entry(
        "compiler-message",
        "clippy::needless_return",
        &["data", "tmp", "owner", "repo", "src", "main.rs"],
        vec![span(3, 4), span(90, 95)],
    );
    let out = extract_lint(&vec![e], &target);
    assert_eq!(out.findings.len(), 1);
    assert_eq!(out.findings[0].start_line, 3);
    assert_eq!(out.findings[0].end_line, 4);
    assert_eq!(out.warnings, vec![ExtractWarning::MultipleSpans]);
}

#[test]
fn lint_extraction_skips_an_entry_without_a_reason() {
    let target = segs(&["data", "tmp", "owner", "repo", "src", "main.rs"]);
    let mut e = lint_entry(
        "compiler-message",
        "clippy::needless_return",
        &["data", "tmp", "owner", "repo", "src", "main.rs"],
        vec![span(1, 1)],
    );
    e.reason = None;
    let out = extract_lint(&vec![e], &target);
    assert_eq!(out.findings.len(), 0);
    assert_eq!(out.warnings, vec![ExtractWarning::LintEntryInvalid]);
}

#[test]
fn out_file_flags_a_document_of_the_wrong_shape() {
    let f = OutFile::new(segs(&["x.json"]), ToolName::Finder, RawDoc::Spaces(space(
        "unit", "root", 1, 2, vec![],
    )));
    let out = f.extract_findings(&segs(&["main.rs"]));
    assert_eq!(out.findings.len(), 0);
    assert_eq!(out.warnings, vec![ExtractWarning::WrongDocument]);
}

#[test]
fn out_file_missing_document_degrades_to_nothing() {
    let f = OutFile::new(segs(&["x.json"]), ToolName::Rca, RawDoc::Missing);
    let out = f.extract_findings(&segs(&["main.rs"]));
    assert_eq!(out.findings.len(), 0);
    assert_eq!(out.warnings.len(), 0);
}

#[test]
fn src_file_concatenates_the_findings_of_its_out_files() {
    let rca = OutFile::new(
        segs(&["a.json"]),
        ToolName::Rca,
        RawDoc::Spaces(space("unit", "root", 1, 50, vec![])),
    );
    let finder = OutFile::new(
        segs(&["b.json"]),
        ToolName::Finder,
        RawDoc::Entries(vec![pattern_entry("unsafe", 2, 3)]),
    );
    let sf = SrcFile::new(segs(&["data", "tmp", "o", "r", "src", "main.rs"]), vec![rca, finder]);
    let out = sf.get_findings();
    assert_eq!(out.findings.len(), 2);
    assert_eq!(out.findings[0].tool_name, ToolName::Rca);
    assert_eq!(out.findings[1].tool_name, ToolName::Finder);
}

#[test]
fn result_document_groups_findings_by_tool_in_fixed_order() {
    let finder = OutFile::new(
        segs(&["b.json"]),
        ToolName::Finder,
        RawDoc::Entries(vec![pattern_entry("unsafe", 2, 3), pattern_entry("lifetime", 7, 7)]),
    );
    let sf = SrcFile::new(segs(&["data", "tmp", "o", "r", "src", "main.rs"]), vec![finder]);
    let out = sf.get_findings();
    let groups = group_findings_by_tool(&out.findings);
    assert_eq!(groups.len(), 4);
    assert_eq!(groups[0].0, ToolName::Rca);
    assert_eq!(groups[0].1.len(), 0);
    assert_eq!(groups[2].0, ToolName::Finder);
    assert_eq!(groups[2].1.len(), 2);
    assert_eq!(groups[2].1[0].kind, "unsafe");
    assert_eq!(groups[2].1[1].kind, "lifetime");
    assert_eq!(groups[3].1.len(), 0);
}

#[test]
fn result_file_name_relativizes_and_flattens_the_path() {
    let sf = SrcFile::new(segs(&["data", "tmp", "o", "r", "src", "lib.rs"]), vec![]);
    assert_eq!(sf.result_file_name(), "src_lib.rs.json");
}

#[test]
fn result_file_name_neutralizes_parent_segments() {
    let sf = SrcFile::new(segs(&["data", "tmp", "o", "r", "..", "esc.rs"]), vec![]);
    assert_eq!(sf.result_file_name(), "__esc.rs.json");
}

#[test]
fn payload_with_bad_number_keeps_the_node_but_fails_at_reading() {
    let mut tree = space("unit", "root", 1, 10, vec![]);
    let mut p = empty_payload();
    p.loc = Some(RawLoc {
        sloc: Some(Rat { num: 1, den: 0 }),
        ploc: None,
        lloc: None,
        cloc: None,
        blank: None,
    });
    tree.metrics = Some(p);
    let out = extract_ast(ToolName::Rca, &tree);
    assert_eq!(out.findings.len(), 1);
    assert!(out.findings[0].get_metrics().is_none());
}
