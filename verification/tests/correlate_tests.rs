use collector::correlate::correlate;
use collector::out::OutFile;
use collector::rat::Rat;
use collector::raw::{RawDoc, RawLoc, RawMetrics, RawPatternEntry, RawSpace, RawSum};
use collector::src_file::SrcFile;
use collector::tool::ToolName;

fn segs(parts: &[&str]) -> Vec<String> {
    parts.iter().map(|s| s.to_string()).collect()
}

fn rat(num: i128, den: i128) -> Rat {
    Rat { num, den }
}

fn payload(sloc: i128, cyclomatic: i128) -> RawMetrics {
    RawMetrics {
        nargs: None,
        nexits: None,
        cognitive: None,
        cyclomatic: Some(RawSum { sum: Some(rat(cyclomatic, 1)) }),
        halstead: None,
        loc: Some(RawLoc {
            sloc: Some(rat(sloc, 1)),
            ploc: None,
            lloc: None,
            cloc: None,
            blank: None,
        }),
        nom: None,
        mi: None,
    }
}

fn measurement(start: u64, end: u64, p: RawMetrics) -> RawSpace {
    RawSpace {
        kind: Some("function".to_string()),
        name: Some("f".to_string()),
        start_line: Some(start),
        end_line: Some(end),
        metrics: Some(p),
        spaces: vec![],
    }
}

fn pattern(kind: &str, start: u64, end: u64) -> RawPatternEntry {
    RawPatternEntry {
        kind: Some(kind.to_string()),
        name: None,
        start_line: Some(start),
        end_line: Some(end),
    }
}

fn file_findings(space: RawSpace, entries: Vec<RawPatternEntry>) -> Vec<collector::finding::Finding> {
    let src_path = segs(&["data", "tmp", "o", "r", "src", "a.rs"]);
    let rca = OutFile::new(segs(&["a.json"]), ToolName::Rca, RawDoc::Spaces(space));
    let finder = OutFile::new(segs(&["b.json"]), ToolName::Finder, RawDoc::Entries(entries));
    SrcFile::new(src_path, vec![rca, finder]).get_findings().findings
}

#[test]
fn end_to_end_boundary_ratio_is_retained() {
    // one space over lines 1..=20 with sloc 15, one pattern over 5..=6:
    // the ratio is 2/20, exactly the threshold, so the pairing counts
    let findings = file_findings(
        measurement(1, 20, payload(15, 10)),
        vec![pattern("unsafe", 5, 6)],
    );
    let buckets = correlate(&findings);
    let m = buckets.get(&"unsafe".to_string()).expect("bucket missing");
    assert_eq!(m.count, 1);
    // size field: accumulated unscaled
    assert_eq!(m.sloc, rat(15, 1));
    // density field: scaled by the exact ratio 2/20
    assert_eq!(m.cyclomatic, rat(20, 20));
}

#[test]
fn ratio_strictly_below_threshold_is_discarded() {
    // a pattern of 2 lines inside a scope of 21 lines sits below a tenth
    let findings = file_findings(
        measurement(1, 21, payload(15, 10)),
        vec![pattern("unsafe", 5, 6)],
    );
    let buckets = correlate(&findings);
    assert!(buckets.get(&"unsafe".to_string()).is_none());
    assert_eq!(buckets.entries.len(), 0);
}

#[test]
fn no_attribution_without_containment() {
    // the pattern sticks out of the scope on the right
    let findings = file_findings(
        measurement(1, 20, payload(15, 10)),
        vec![pattern("unsafe", 15, 30)],
    );
    let buckets = correlate(&findings);
    assert!(buckets.get(&"unsafe".to_string()).is_none());
}

#[test]
fn no_attribution_to_a_strictly_smaller_range() {
    // the scope lies inside the pattern, not the other way round
    let findings = file_findings(
        measurement(5, 6, payload(15, 10)),
        vec![pattern("unsafe", 1, 20)],
    );
    let buckets = correlate(&findings);
    assert!(buckets.get(&"unsafe".to_string()).is_none());
}

#[test]
fn two_patterns_of_one_kind_accumulate_two_samples() {
    let findings = file_findings(
        measurement(1, 10, payload(8, 4)),
        vec![pattern("unsafe", 1, 5), pattern("unsafe", 6, 10)],
    );
    let buckets = correlate(&findings);
    let m = buckets.get(&"unsafe".to_string()).unwrap();
    assert_eq!(m.count, 2);
    // both ratios are 5/10; sloc stays size: 8 + 8
    assert_eq!(m.sloc, rat(16, 1));
}

#[test]
fn patterns_of_different_kinds_fill_different_buckets() {
    let findings = file_findings(
        measurement(1, 10, payload(8, 4)),
        vec![pattern("unsafe", 1, 5), pattern("lifetime", 2, 9)],
    );
    let buckets = correlate(&findings);
    assert!(buckets.get(&"unsafe".to_string()).is_some());
    assert!(buckets.get(&"lifetime".to_string()).is_some());
    assert_eq!(buckets.entries.len(), 2);
}

#[test]
fn unreadable_payload_contributes_nothing() {
    let mut bad = payload(8, 4);
    bad.loc = Some(RawLoc {
        sloc: Some(rat(1, 0)),
        ploc: None,
        lloc: None,
        cloc: None,
        blank: None,
    });
    let findings = file_findings(measurement(1, 10, bad), vec![pattern("unsafe", 1, 5)]);
    let buckets = correlate(&findings);
    assert!(buckets.get(&"unsafe".to_string()).is_none());
}

#[test]
fn weighting_overflow_drops_the_pairing() {
    let mut huge = payload(8, 4);
    huge.cyclomatic = Some(RawSum { sum: Some(rat(i128::MAX, 1)) });
    let findings = file_findings(measurement(1, 10, huge), vec![pattern("unsafe", 1, 5)]);
    let buckets = correlate(&findings);
    assert!(buckets.get(&"unsafe".to_string()).is_none());
}

#[test]
fn analyze_out_files_runs_extraction_and_correlation_together() {
    let src_path = segs(&["data", "tmp", "o", "r", "src", "a.rs"]);
    let rca = OutFile::new(
        segs(&["a.json"]),
        ToolName::Rca,
        RawDoc::Spaces(measurement(1, 20, payload(15, 10))),
    );
    let finder = OutFile::new(
        segs(&["b.json"]),
        ToolName::Finder,
        RawDoc::Entries(vec![pattern("unsafe", 5, 6)]),
    );
    let buckets = SrcFile::new(src_path, vec![rca, finder]).analyze_out_files();
    let m = buckets.get(&"unsafe".to_string()).unwrap();
    assert_eq!(m.count, 1);
    assert_eq!(m.sloc, rat(15, 1));
}

#[test]
fn buckets_of_several_files_absorb_into_one_accumulation() {
    let first = correlate(&file_findings(
        measurement(1, 10, payload(8, 4)),
        vec![pattern("unsafe", 1, 5)],
    ));
    let second = correlate(&file_findings(
        measurement(1, 10, payload(6, 2)),
        vec![pattern("unsafe", 6, 10), pattern("lifetime", 2, 9)],
    ));
    let mut total = first;
    total.absorb(&second);
    let m = total.get(&"unsafe".to_string()).unwrap();
    assert_eq!(m.count, 2);
    assert_eq!(m.sloc, rat(14, 1));
    assert_eq!(total.get(&"lifetime".to_string()).unwrap().count, 1);
}

#[test]
fn averaged_bucket_reports_exact_fractions() {
    let findings = file_findings(
        measurement(1, 10, payload(8, 4)),
        vec![pattern("unsafe", 1, 5), pattern("unsafe", 6, 10)],
    );
    let buckets = correlate(&findings);
    let avg = buckets.get(&"unsafe".to_string()).unwrap().avg().unwrap();
    // two samples of sloc 8 average back to 8, kept as the exact 16/2
    assert_eq!(avg.sloc, rat(16, 2));
    assert_eq!(avg.count, 0);
}
