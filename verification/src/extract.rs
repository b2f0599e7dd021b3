//! Extractors: one per tool, each turning a raw output document into the
//! findings it describes. An individual node or entry that fails
//! required-field extraction is skipped with a warning; a document never
//! aborts the pipeline as a whole.

use vstd::prelude::*;

use crate::finding::{finding_wf, findings_view, Finding, FindingV};
use crate::raw::{RawLintEntry, RawPatternEntry, RawSpace};
use crate::text::{ends_with_segs, is_suffix_of, segs_view, snip_path, snip_segs};
use crate::tool::{tool_name_view, ToolName};

verus! {

/// A warning raised while extracting findings from a raw document. Each
/// stands for one skipped or suspicious node or entry.
#[derive(Clone, Copy, Debug, PartialEq, Eq, Structural)]
pub enum ExtractWarning {
    /// A space of the AST-metrics tree missed a required field or had a
    /// backwards line range; the node was skipped.
    SpaceInvalid,
    /// A pattern-finder entry missed a required field or had a backwards
    /// line range; the entry was skipped.
    PatternEntryInvalid,
    /// A considered lint message missed a required field; it was skipped.
    LintEntryInvalid,
    /// A lint message carried more than one span; only the first was used.
    MultipleSpans,
    /// The document's shape does not belong to the tool that owns the file.
    WrongDocument,
}

/// What one extraction produced: the findings, and one warning per node or
/// entry that had to be skipped or flagged.
pub struct ExtractOutcome {
    pub findings: Vec<Finding>,
    pub warnings: Vec<ExtractWarning>,
}

/// A space carries all required fields and a forward line range.
pub open spec fn space_ok(s: RawSpace) -> bool {
    &&& s.kind is Some
    &&& s.name is Some
    &&& s.start_line is Some
    &&& s.end_line is Some
    &&& s.metrics is Some
    &&& s.start_line->0 <= s.end_line->0
}

/// The finding one valid space yields: the node's own kind, name and range,
/// carrying the node's own metrics object as payload.
pub open spec fn space_finding(tool: ToolName, s: RawSpace) -> FindingV {
    FindingV {
        tool,
        kind: s.kind->0@,
        name: s.name->0@,
        start_line: s.start_line->0,
        end_line: s.end_line->0,
        payload: Some(s.metrics->0),
    }
}

/// The findings of the subtree rooted at `s`, in preorder: the node's own
/// finding when the node is valid, then the findings of its children.
pub open spec fn space_findings(tool: ToolName, s: RawSpace) -> Seq<FindingV>
    decreases s,
{
    let own = if space_ok(s) {
        seq![space_finding(tool, s)]
    } else {
        Seq::<FindingV>::empty()
    };
    own + spaces_findings(tool, s.spaces@)
}

/// The findings of a forest of spaces, left to right.
pub open spec fn spaces_findings(tool: ToolName, ss: Seq<RawSpace>) -> Seq<FindingV>
    decreases ss,
{
    if ss.len() == 0 {
        Seq::<FindingV>::empty()
    } else {
        space_findings(tool, ss[0]) + spaces_findings(tool, ss.drop_first())
    }
}

/// The warnings of the subtree rooted at `s`: one per invalid node.
pub open spec fn space_warns(s: RawSpace) -> Seq<ExtractWarning>
    decreases s,
{
    let own = if space_ok(s) {
        Seq::<ExtractWarning>::empty()
    } else {
        seq![ExtractWarning::SpaceInvalid]
    };
    own + spaces_warns(s.spaces@)
}

/// The warnings of a forest of spaces.
pub open spec fn spaces_warns(ss: Seq<RawSpace>) -> Seq<ExtractWarning>
    decreases ss,
{
    if ss.len() == 0 {
        Seq::<ExtractWarning>::empty()
    } else {
        space_warns(ss[0]) + spaces_warns(ss.drop_first())
    }
}

/// Number of nodes of the subtree rooted at `s`, the root included.
pub open spec fn space_count(s: RawSpace) -> int
    decreases s,
{
    1 + spaces_count(s.spaces@)
}

/// Number of nodes of a forest of spaces.
pub open spec fn spaces_count(ss: Seq<RawSpace>) -> int
    decreases ss,
{
    if ss.len() == 0 {
        0
    } else {
        space_count(ss[0]) + spaces_count(ss.drop_first())
    }
}

/// Every node of the subtree rooted at `s` is valid.
pub open spec fn space_all_ok(s: RawSpace) -> bool
    decreases s,
{
    space_ok(s) && spaces_all_ok(s.spaces@)
}

/// Every node of a forest of spaces is valid.
pub open spec fn spaces_all_ok(ss: Seq<RawSpace>) -> bool
    decreases ss,
{
    if ss.len() == 0 {
        true
    } else {
        space_all_ok(ss[0]) && spaces_all_ok(ss.drop_first())
    }
}

/// On a document whose nodes are all valid, extraction emits exactly one
/// finding per node of the spaces tree - the root included, no node missed,
/// none visited twice - and no warning.
pub proof fn lemma_ast_extraction_total(tool: ToolName, s: RawSpace)
    requires
        space_all_ok(s),
    ensures
        space_findings(tool, s).len() == space_count(s),
        space_warns(s).len() == 0,
    decreases s,
{
    lemma_ast_forest_total(tool, s.spaces@);
}

/// Forest companion of `lemma_ast_extraction_total`.
pub proof fn lemma_ast_forest_total(tool: ToolName, ss: Seq<RawSpace>)
    requires
        spaces_all_ok(ss),
    ensures
        spaces_findings(tool, ss).len() == spaces_count(ss),
        spaces_warns(ss).len() == 0,
    decreases ss,
{
    if ss.len() > 0 {
        lemma_ast_extraction_total(tool, ss[0]);
        lemma_ast_forest_total(tool, ss.drop_first());
    }
}

/// Every finding extracted from a spaces tree has a forward line range.
pub proof fn lemma_space_findings_wf(tool: ToolName, s: RawSpace)
    ensures
        forall|i: int|
            0 <= i < space_findings(tool, s).len() ==> finding_wf(
                #[trigger] space_findings(tool, s)[i],
            ),
    decreases s,
{
    lemma_spaces_findings_wf(tool, s.spaces@);
    let fs = space_findings(tool, s);
    let children = spaces_findings(tool, s.spaces@);
    assert forall|i: int| 0 <= i < fs.len() implies finding_wf(fs[i]) by {
        if space_ok(s) {
            if i > 0 {
                assert(fs[i] == children[i - 1]);
            }
        } else {
            assert(fs[i] == children[i]);
        }
    }
}

/// Forest companion of `lemma_space_findings_wf`.
pub proof fn lemma_spaces_findings_wf(tool: ToolName, ss: Seq<RawSpace>)
    ensures
        forall|i: int|
            0 <= i < spaces_findings(tool, ss).len() ==> finding_wf(
                #[trigger] spaces_findings(tool, ss)[i],
            ),
    decreases ss,
{
    if ss.len() > 0 {
        lemma_space_findings_wf(tool, ss[0]);
        lemma_spaces_findings_wf(tool, ss.drop_first());
        let fs = spaces_findings(tool, ss);
        let head = space_findings(tool, ss[0]);
        let tail = spaces_findings(tool, ss.drop_first());
        assert forall|i: int| 0 <= i < fs.len() implies finding_wf(fs[i]) by {
            if i < head.len() {
                assert(fs[i] == head[i]);
            } else {
                assert(fs[i] == tail[i - head.len()]);
            }
        }
    }
}

/// Appending one space to a forest appends its findings and warnings.
proof fn lemma_spaces_push(tool: ToolName, ss: Seq<RawSpace>, x: RawSpace)
    ensures
        spaces_findings(tool, ss.push(x)) == spaces_findings(tool, ss) + space_findings(tool, x),
        spaces_warns(ss.push(x)) == spaces_warns(ss) + space_warns(x),
    decreases ss,
{
    if ss.len() == 0 {
        assert(ss.push(x)[0] == x);
        assert(ss.push(x).drop_first() =~= Seq::<RawSpace>::empty());
        assert(spaces_findings(tool, Seq::<RawSpace>::empty()) == Seq::<FindingV>::empty());
        assert(spaces_warns(Seq::<RawSpace>::empty()) == Seq::<ExtractWarning>::empty());
        assert(spaces_findings(tool, ss.push(x)) == space_findings(tool, x) + Seq::<
            FindingV,
        >::empty());
        assert(spaces_warns(ss.push(x)) == space_warns(x) + Seq::<ExtractWarning>::empty());
        assert(spaces_findings(tool, ss.push(x)) =~= spaces_findings(tool, ss) + space_findings(
            tool,
            x,
        ));
        assert(spaces_warns(ss.push(x)) =~= spaces_warns(ss) + space_warns(x));
    } else {
        lemma_spaces_push(tool, ss.drop_first(), x);
        assert(ss.push(x)[0] == ss[0]);
        assert(ss.push(x).drop_first() =~= ss.drop_first().push(x));
        assert(spaces_findings(tool, ss.push(x)) == space_findings(tool, ss[0]) + spaces_findings(
            tool,
            ss.drop_first().push(x),
        ));
        assert(spaces_findings(tool, ss.drop_first().push(x)) == spaces_findings(
            tool,
            ss.drop_first(),
        ) + space_findings(tool, x));
        assert(spaces_findings(tool, ss.push(x)) =~= spaces_findings(tool, ss) + space_findings(
            tool,
            x,
        ));
        assert(spaces_warns(ss.push(x)) == space_warns(ss[0]) + spaces_warns(
            ss.drop_first().push(x),
        ));
        assert(spaces_warns(ss.drop_first().push(x)) == spaces_warns(ss.drop_first())
            + space_warns(x));
        assert(spaces_warns(ss.push(x)) =~= spaces_warns(ss) + space_warns(x));
    }
}

/// Walks the subtree rooted at `s`, appending findings and warnings.
fn extract_space(
    tool: ToolName,
    s: &RawSpace,
    out: &mut Vec<Finding>,
    warns: &mut Vec<ExtractWarning>,
)
    ensures
        findings_view(final(out)@) == findings_view(old(out)@) + space_findings(tool, *s),
        final(warns)@ == old(warns)@ + space_warns(*s),
    decreases *s,
{
    let ghost pre_f = out@;
    let ghost pre_w = warns@;
    match (&s.kind, &s.name, &s.start_line, &s.end_line, &s.metrics) {
        (Some(kind), Some(name), Some(st), Some(en), Some(me)) => {
            if *st <= *en {
                out.push(Finding::new(tool, kind.clone(), name.clone(), *st, *en, Some(*me)));
                proof {
                    assert(findings_view(out@) =~= findings_view(pre_f) + seq![
                        space_finding(tool, *s),
                    ]);
                }
            } else {
                warns.push(ExtractWarning::SpaceInvalid);
            }
        },
        _ => {
            warns.push(ExtractWarning::SpaceInvalid);
        },
    }
    let ghost own_f = out@;
    let ghost own_w = warns@;
    let mut i: usize = 0;
    while i < s.spaces.len()
        invariant
            i <= s.spaces.len(),
            findings_view(out@) =~= findings_view(own_f) + spaces_findings(
                tool,
                s.spaces@.take(i as int),
            ),
            warns@ =~= own_w + spaces_warns(s.spaces@.take(i as int)),
        decreases s.spaces.len() - i,
    {
        proof {
            assert(decreases_to!(*s => s.spaces@[i as int]));
        }
        extract_space(tool, &s.spaces[i], out, warns);
        proof {
            let j = i as int;
            assert(s.spaces@.take(j + 1) =~= s.spaces@.take(j).push(s.spaces@[j]));
            lemma_spaces_push(tool, s.spaces@.take(j), s.spaces@[j]);
        }
        i = i + 1;
    }
    proof {
        assert(s.spaces@.take(s.spaces@.len() as int) =~= s.spaces@);
        assert(findings_view(out@) =~= findings_view(pre_f) + space_findings(tool, *s));
        assert(warns@ =~= pre_w + space_warns(*s));
    }
}

/// Extracts the findings of one AST-metrics document: a full traversal of
/// the spaces tree that visits every node, the root included, exactly once
/// and emits one finding per valid node.
pub fn extract_ast(tool: ToolName, root: &RawSpace) -> (r: ExtractOutcome)
    ensures
        findings_view(r.findings@) == space_findings(tool, *root),
        r.warnings@ == space_warns(*root),
{
    let mut findings: Vec<Finding> = Vec::new();
    let mut warnings: Vec<ExtractWarning> = Vec::new();
    proof {
        assert(findings_view(findings@) =~= Seq::<FindingV>::empty());
    }
    extract_space(tool, root, &mut findings, &mut warnings);
    ExtractOutcome { findings, warnings }
}

/// A pattern-finder entry carries all required fields and a forward line
/// range. A missing name is not a fault: the name is synthesized.
pub open spec fn pattern_ok(e: RawPatternEntry) -> bool {
    &&& e.kind is Some
    &&& e.start_line is Some
    &&& e.end_line is Some
    &&& e.start_line->0 <= e.end_line->0
}

/// The display name of a pattern finding: the entry's own name, or its
/// syntactic category when the entry names nothing.
pub open spec fn pattern_name_of(e: RawPatternEntry) -> Seq<char> {
    if e.name is Some {
        e.name->0@
    } else {
        e.kind->0@
    }
}

/// The finding one valid pattern entry yields: the syntactic category as
/// kind, no metrics payload.
pub open spec fn pattern_finding(e: RawPatternEntry) -> FindingV {
    FindingV {
        tool: ToolName::Finder,
        kind: e.kind->0@,
        name: pattern_name_of(e),
        start_line: e.start_line->0,
        end_line: e.end_line->0,
        payload: None,
    }
}

/// The findings of a pattern-finder document: one per valid entry, in
/// order.
pub open spec fn pattern_findings(es: Seq<RawPatternEntry>) -> Seq<FindingV>
    decreases es,
{
    if es.len() == 0 {
        Seq::<FindingV>::empty()
    } else {
        let own = if pattern_ok(es[0]) {
            seq![pattern_finding(es[0])]
        } else {
            Seq::<FindingV>::empty()
        };
        own + pattern_findings(es.drop_first())
    }
}

/// The warnings of a pattern-finder document: one per skipped entry.
pub open spec fn pattern_warns(es: Seq<RawPatternEntry>) -> Seq<ExtractWarning>
    decreases es,
{
    if es.len() == 0 {
        Seq::<ExtractWarning>::empty()
    } else {
        let own = if pattern_ok(es[0]) {
            Seq::<ExtractWarning>::empty()
        } else {
            seq![ExtractWarning::PatternEntryInvalid]
        };
        own + pattern_warns(es.drop_first())
    }
}

/// Every finding extracted from a pattern document has a forward line
/// range.
pub proof fn lemma_pattern_findings_wf(es: Seq<RawPatternEntry>)
    ensures
        forall|i: int|
            0 <= i < pattern_findings(es).len() ==> finding_wf(#[trigger] pattern_findings(es)[i]),
    decreases es,
{
    if es.len() > 0 {
        lemma_pattern_findings_wf(es.drop_first());
        let fs = pattern_findings(es);
        let tail = pattern_findings(es.drop_first());
        assert forall|i: int| 0 <= i < fs.len() implies finding_wf(fs[i]) by {
            if pattern_ok(es[0]) {
                if i > 0 {
                    assert(fs[i] == tail[i - 1]);
                }
            } else {
                assert(fs[i] == tail[i]);
            }
        }
    }
}

/// Appending one entry appends its findings and warnings.
proof fn lemma_pattern_push(es: Seq<RawPatternEntry>, x: RawPatternEntry)
    ensures
        pattern_ok(x) ==> pattern_findings(es.push(x)) == pattern_findings(es) + seq![
            pattern_finding(x),
        ] && pattern_warns(es.push(x)) == pattern_warns(es),
        !pattern_ok(x) ==> pattern_findings(es.push(x)) == pattern_findings(es) && pattern_warns(
            es.push(x),
        ) == pattern_warns(es) + seq![ExtractWarning::PatternEntryInvalid],
    decreases es,
{
    if es.len() == 0 {
        assert(es.push(x)[0] == x);
        assert(es.push(x).drop_first() =~= Seq::<RawPatternEntry>::empty());
        assert(pattern_findings(Seq::<RawPatternEntry>::empty()) == Seq::<FindingV>::empty());
        assert(pattern_warns(Seq::<RawPatternEntry>::empty()) == Seq::<ExtractWarning>::empty());
        if pattern_ok(x) {
            assert(pattern_findings(es.push(x)) =~= pattern_findings(es) + seq![
                pattern_finding(x),
            ]);
            assert(pattern_warns(es.push(x)) =~= pattern_warns(es));
        } else {
            assert(pattern_findings(es.push(x)) =~= pattern_findings(es));
            assert(pattern_warns(es.push(x)) =~= pattern_warns(es) + seq![
                ExtractWarning::PatternEntryInvalid,
            ]);
        }
    } else {
        lemma_pattern_push(es.drop_first(), x);
        assert(es.push(x)[0] == es[0]);
        assert(es.push(x).drop_first() =~= es.drop_first().push(x));
        if pattern_ok(x) {
            assert(pattern_findings(es.push(x)) =~= pattern_findings(es) + seq![
                pattern_finding(x),
            ]);
            assert(pattern_warns(es.push(x)) =~= pattern_warns(es));
        } else {
            assert(pattern_findings(es.push(x)) =~= pattern_findings(es));
            assert(pattern_warns(es.push(x)) =~= pattern_warns(es) + seq![
                ExtractWarning::PatternEntryInvalid,
            ]);
        }
    }
}

/// Extracts the findings of one pattern-finder document: a flat list of
/// entries, each yielding one finding with the entry's syntactic category
/// as kind and no metrics payload.
pub fn extract_pattern(entries: &Vec<RawPatternEntry>) -> (r: ExtractOutcome)
    ensures
        findings_view(r.findings@) == pattern_findings(entries@),
        r.warnings@ == pattern_warns(entries@),
{
    let mut findings: Vec<Finding> = Vec::new();
    let mut warnings: Vec<ExtractWarning> = Vec::new();
    let mut i: usize = 0;
    while i < entries.len()
        invariant
            i <= entries.len(),
            findings_view(findings@) =~= pattern_findings(entries@.take(i as int)),
            warnings@ =~= pattern_warns(entries@.take(i as int)),
        decreases entries.len() - i,
    {
        let e = &entries[i];
        let ghost pre_f = findings@;
        match (&e.kind, &e.start_line, &e.end_line) {
            (Some(kind), Some(st), Some(en)) if *st <= *en => {
                let name = match &e.name {
                    Some(n) => n.clone(),
                    None => kind.clone(),
                };
                findings.push(Finding::new(ToolName::Finder, kind.clone(), name, *st, *en, None));
                proof {
                    assert(findings_view(findings@) =~= findings_view(pre_f).push(
                        pattern_finding(entries@[i as int]),
                    ));
                }
            },
            _ => {
                warnings.push(ExtractWarning::PatternEntryInvalid);
            },
        }
        proof {
            let j = i as int;
            assert(entries@.take(j + 1) =~= entries@.take(j).push(entries@[j]));
            lemma_pattern_push(entries@.take(j), entries@[j]);
            assert(findings_view(findings@) =~= pattern_findings(entries@.take(j + 1)));
            assert(warnings@ =~= pattern_warns(entries@.take(j + 1)));
        }
        i = i + 1;
    }
    proof {
        assert(entries@.take(entries@.len() as int) =~= entries@);
    }
    ExtractOutcome { findings, warnings }
}

/// The namespace prefix a diagnostic code must carry to belong to the lint
/// tool: the tool's own name, then `::`.
pub open spec fn lint_prefix() -> Seq<char> {
    tool_name_view(ToolName::Clippy) + "::"@
}

/// The diagnostic code is namespaced by the lint tool's own name.
pub open spec fn lint_code_namespaced(code: Seq<char>) -> bool {
    code.len() >= lint_prefix().len() && code.subrange(0, lint_prefix().len() as int)
        == lint_prefix()
}

/// The message's reported source path, stripped of the invocation-relative
/// prefix up to the working copy, matches the target source file.
pub open spec fn lint_path_matches(path: Seq<Seq<char>>, target: Seq<Seq<char>>) -> bool {
    is_suffix_of(snip_segs(path, 1), target)
}

/// What one lint message contributes: the findings it yields and the
/// warnings it raises. A message is considered only if its reason is
/// `compiler-message`, it carries a diagnostic code, and its reported
/// source path matches the target file; a code without the tool's own
/// namespace prefix is discarded; exactly one primary span is expected,
/// and a second one is flagged while only the first is used.
pub open spec fn lint_entry_step(e: RawLintEntry, target: Seq<Seq<char>>) -> (Seq<FindingV>, Seq<
    ExtractWarning,
>) {
    if e.reason is None {
        (Seq::<FindingV>::empty(), seq![ExtractWarning::LintEntryInvalid])
    } else if e.reason->0@ != "compiler-message"@ {
        (Seq::<FindingV>::empty(), Seq::<ExtractWarning>::empty())
    } else if e.code is None {
        (Seq::<FindingV>::empty(), Seq::<ExtractWarning>::empty())
    } else if e.src_path is None {
        (Seq::<FindingV>::empty(), seq![ExtractWarning::LintEntryInvalid])
    } else if !lint_path_matches(segs_view(e.src_path->0@), target) {
        (Seq::<FindingV>::empty(), Seq::<ExtractWarning>::empty())
    } else if !lint_code_namespaced(e.code->0@) {
        (Seq::<FindingV>::empty(), Seq::<ExtractWarning>::empty())
    } else if e.spans@.len() == 0 {
        (Seq::<FindingV>::empty(), seq![ExtractWarning::LintEntryInvalid])
    } else {
        let sp = e.spans@[0];
        if sp.line_start is Some && sp.line_end is Some && sp.line_start->0 <= sp.line_end->0 {
            let multi = if e.spans@.len() > 1 {
                seq![ExtractWarning::MultipleSpans]
            } else {
                Seq::<ExtractWarning>::empty()
            };
            (
                seq![
                    FindingV {
                        tool: ToolName::Clippy,
                        kind: e.code->0@.skip(lint_prefix().len() as int),
                        name: e.code->0@,
                        start_line: sp.line_start->0,
                        end_line: sp.line_end->0,
                        payload: None,
                    },
                ],
                multi,
            )
        } else {
            (Seq::<FindingV>::empty(), seq![ExtractWarning::LintEntryInvalid])
        }
    }
}

/// The findings of a lint document for one target source file.
pub open spec fn lint_findings(es: Seq<RawLintEntry>, target: Seq<Seq<char>>) -> Seq<FindingV>
    decreases es,
{
    if es.len() == 0 {
        Seq::<FindingV>::empty()
    } else {
        lint_entry_step(es[0], target).0 + lint_findings(es.drop_first(), target)
    }
}

/// The warnings of a lint document for one target source file.
pub open spec fn lint_warns(es: Seq<RawLintEntry>, target: Seq<Seq<char>>) -> Seq<ExtractWarning>
    decreases es,
{
    if es.len() == 0 {
        Seq::<ExtractWarning>::empty()
    } else {
        lint_entry_step(es[0], target).1 + lint_warns(es.drop_first(), target)
    }
}

/// Every finding extracted from a lint document has a forward line range.
pub proof fn lemma_lint_findings_wf(es: Seq<RawLintEntry>, target: Seq<Seq<char>>)
    ensures
        forall|i: int|
            0 <= i < lint_findings(es, target).len() ==> finding_wf(
                #[trigger] lint_findings(es, target)[i],
            ),
    decreases es,
{
    if es.len() > 0 {
        lemma_lint_findings_wf(es.drop_first(), target);
        let fs = lint_findings(es, target);
        let head = lint_entry_step(es[0], target).0;
        let tail = lint_findings(es.drop_first(), target);
        assert forall|i: int| 0 <= i < fs.len() implies finding_wf(fs[i]) by {
            if i < head.len() {
                assert(fs[i] == head[i]);
            } else {
                assert(fs[i] == tail[i - head.len()]);
            }
        }
    }
}

/// Appending one message appends its contribution.
proof fn lemma_lint_push(es: Seq<RawLintEntry>, target: Seq<Seq<char>>, x: RawLintEntry)
    ensures
        lint_findings(es.push(x), target) == lint_findings(es, target) + lint_entry_step(
            x,
            target,
        ).0,
        lint_warns(es.push(x), target) == lint_warns(es, target) + lint_entry_step(x, target).1,
    decreases es,
{
    if es.len() == 0 {
        assert(es.push(x)[0] == x);
        assert(es.push(x).drop_first() =~= Seq::<RawLintEntry>::empty());
        assert(lint_findings(Seq::<RawLintEntry>::empty(), target) == Seq::<FindingV>::empty());
        assert(lint_warns(Seq::<RawLintEntry>::empty(), target) == Seq::<ExtractWarning>::empty());
        assert(lint_findings(es.push(x), target) =~= lint_findings(es, target) + lint_entry_step(
            x,
            target,
        ).0);
        assert(lint_warns(es.push(x), target) =~= lint_warns(es, target) + lint_entry_step(
            x,
            target,
        ).1);
    } else {
        lemma_lint_push(es.drop_first(), target, x);
        assert(es.push(x)[0] == es[0]);
        assert(es.push(x).drop_first() =~= es.drop_first().push(x));
        assert(lint_findings(es.push(x), target) == lint_entry_step(es[0], target).0
            + lint_findings(es.drop_first().push(x), target));
        assert(lint_findings(es.push(x), target) =~= lint_findings(es, target) + lint_entry_step(
            x,
            target,
        ).0);
        assert(lint_warns(es.push(x), target) == lint_entry_step(es[0], target).1 + lint_warns(
            es.drop_first().push(x),
            target,
        ));
        assert(lint_warns(es.push(x), target) =~= lint_warns(es, target) + lint_entry_step(
            x,
            target,
        ).1);
    }
}

/// Extracts the findings of one lint document that a target source file is
/// concerned with. The diagnostic code, stripped of the tool's namespace
/// prefix, becomes the finding's kind; the full code stays as its name.
pub fn extract_lint(entries: &Vec<RawLintEntry>, src_file_path: &Vec<String>) -> (r:
    ExtractOutcome)
    ensures
        findings_view(r.findings@) == lint_findings(entries@, segs_view(src_file_path@)),
        r.warnings@ == lint_warns(entries@, segs_view(src_file_path@)),
{
    let ghost target = segs_view(src_file_path@);
    let compiler_message = String::from_str("compiler-message");
    let prefix = String::from_str(ToolName::Clippy.as_str()).concat("::");
    let plen = prefix.as_str().unicode_len();
    let mut findings: Vec<Finding> = Vec::new();
    let mut warnings: Vec<ExtractWarning> = Vec::new();
    let mut i: usize = 0;
    while i < entries.len()
        invariant
            i <= entries.len(),
            compiler_message@ == "compiler-message"@,
            prefix@ == lint_prefix(),
            plen == lint_prefix().len(),
            target == segs_view(src_file_path@),
            findings_view(findings@) =~= lint_findings(entries@.take(i as int), target),
            warnings@ =~= lint_warns(entries@.take(i as int), target),
        decreases entries.len() - i,
    {
        let e = &entries[i];
        let ghost pre_f = findings@;
        let ghost pre_w = warnings@;
        let ghost step = lint_entry_step(entries@[i as int], target);
        match &e.reason {
            None => {
                warnings.push(ExtractWarning::LintEntryInvalid);
            },
            Some(reason) => {
                if !(*reason == compiler_message) {
                    // not a compiler message: silently dropped
                } else {
                    match (&e.code, &e.src_path) {
                        (None, _) => {
                            // no diagnostic code: silently dropped
                        },
                        (Some(_), None) => {
                            warnings.push(ExtractWarning::LintEntryInvalid);
                        },
                        (Some(code), Some(src_path)) => {
                            let snipped = snip_path(src_path, 1);
                            if !ends_with_segs(src_file_path, &snipped) {
                                // another file's message: silently dropped
                            } else {
                                let clen = code.as_str().unicode_len();
                                let namespaced = if clen < plen {
                                    false
                                } else {
                                    let head = code.as_str().substring_char(0, plen);
                                    head.to_owned() == prefix
                                };
                                if !namespaced {
                                    // foreign diagnostic: silently dropped
                                } else if e.spans.len() == 0 {
                                    warnings.push(ExtractWarning::LintEntryInvalid);
                                } else {
                                    let sp = &e.spans[0];
                                    match (&sp.line_start, &sp.line_end) {
                                        (Some(st), Some(en)) if *st <= *en => {
                                            if e.spans.len() > 1 {
                                                warnings.push(ExtractWarning::MultipleSpans);
                                            }
                                            let rule = code.as_str().substring_char(
                                                plen,
                                                clen,
                                            ).to_owned();
                                            proof {
                                                assert(rule@ =~= entries@[i as int].code->0@.skip(
                                                    lint_prefix().len() as int,
                                                ));
                                            }
                                            findings.push(
                                                Finding::new(
                                                    ToolName::Clippy,
                                                    rule,
                                                    code.clone(),
                                                    *st,
                                                    *en,
                                                    None,
                                                ),
                                            );
                                        },
                                        _ => {
                                            warnings.push(ExtractWarning::LintEntryInvalid);
                                        },
                                    }
                                }
                            }
                        },
                    }
                }
            },
        }
        proof {
            let j = i as int;
            assert(findings_view(findings@) =~= findings_view(pre_f) + step.0);
            assert(warnings@ =~= pre_w + step.1);
            assert(entries@.take(j + 1) =~= entries@.take(j).push(entries@[j]));
            lemma_lint_push(entries@.take(j), target, entries@[j]);
            assert(findings_view(findings@) =~= lint_findings(entries@.take(j + 1), target));
            assert(warnings@ =~= lint_warns(entries@.take(j + 1), target));
        }
        i = i + 1;
    }
    proof {
        assert(entries@.take(entries@.len() as int) =~= entries@);
    }
    ExtractOutcome { findings, warnings }
}

} // verus!
