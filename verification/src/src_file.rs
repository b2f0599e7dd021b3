//! One source file of a working copy: its path and the set of raw output
//! files that pertain to it, one per tool. The source-file view drives the
//! extractors and shapes the persisted result document.

use vstd::prelude::*;

use crate::extract::{ExtractOutcome, ExtractWarning};
use crate::finding::{findings_view, Finding, FindingV};
use crate::out::{outfile_findings, outfile_warns, OutFile};
use crate::text::{cleaned_segs, join_strs, join_with, segs_view, snip_path, snip_segs};
use crate::tool::ToolName;

verus! {

/// The findings all raw output files of one source file yield, in the
/// order the files are listed.
pub open spec fn srcfile_findings(outs: Seq<OutFile>, target: Seq<Seq<char>>) -> Seq<FindingV>
    decreases outs,
{
    if outs.len() == 0 {
        Seq::<FindingV>::empty()
    } else {
        outfile_findings(outs[0].tool_name, outs[0].doc, target) + srcfile_findings(
            outs.drop_first(),
            target,
        )
    }
}

/// The warnings all raw output files of one source file raise.
pub open spec fn srcfile_warns(outs: Seq<OutFile>, target: Seq<Seq<char>>) -> Seq<ExtractWarning>
    decreases outs,
{
    if outs.len() == 0 {
        Seq::<ExtractWarning>::empty()
    } else {
        outfile_warns(outs[0].tool_name, outs[0].doc, target) + srcfile_warns(
            outs.drop_first(),
            target,
        )
    }
}

/// Appending one more output file appends its contribution.
proof fn lemma_srcfile_push(outs: Seq<OutFile>, target: Seq<Seq<char>>, x: OutFile)
    ensures
        srcfile_findings(outs.push(x), target) == srcfile_findings(outs, target)
            + outfile_findings(x.tool_name, x.doc, target),
        srcfile_warns(outs.push(x), target) == srcfile_warns(outs, target) + outfile_warns(
            x.tool_name,
            x.doc,
            target,
        ),
    decreases outs,
{
    if outs.len() == 0 {
        assert(outs.push(x)[0] == x);
        assert(outs.push(x).drop_first() =~= Seq::<OutFile>::empty());
        assert(srcfile_findings(Seq::<OutFile>::empty(), target) == Seq::<FindingV>::empty());
        assert(srcfile_warns(Seq::<OutFile>::empty(), target) == Seq::<ExtractWarning>::empty());
        assert(srcfile_findings(outs.push(x), target) =~= srcfile_findings(outs, target)
            + outfile_findings(x.tool_name, x.doc, target));
        assert(srcfile_warns(outs.push(x), target) =~= srcfile_warns(outs, target) + outfile_warns(
            x.tool_name,
            x.doc,
            target,
        ));
    } else {
        lemma_srcfile_push(outs.drop_first(), target, x);
        assert(outs.push(x)[0] == outs[0]);
        assert(outs.push(x).drop_first() =~= outs.drop_first().push(x));
        assert(srcfile_findings(outs.push(x), target) == outfile_findings(
            outs[0].tool_name,
            outs[0].doc,
            target,
        ) + srcfile_findings(outs.drop_first().push(x), target));
        assert(srcfile_findings(outs.push(x), target) =~= srcfile_findings(outs, target)
            + outfile_findings(x.tool_name, x.doc, target));
        assert(srcfile_warns(outs.push(x), target) == outfile_warns(
            outs[0].tool_name,
            outs[0].doc,
            target,
        ) + srcfile_warns(outs.drop_first().push(x), target));
        assert(srcfile_warns(outs.push(x), target) =~= srcfile_warns(outs, target) + outfile_warns(
            x.tool_name,
            x.doc,
            target,
        ));
    }
}

/// Every finding a source file's output set yields has a forward line
/// range.
pub proof fn lemma_srcfile_findings_wf(outs: Seq<OutFile>, target: Seq<Seq<char>>)
    ensures
        forall|i: int|
            0 <= i < srcfile_findings(outs, target).len() ==> crate::finding::finding_wf(
                #[trigger] srcfile_findings(outs, target)[i],
            ),
    decreases outs,
{
    if outs.len() > 0 {
        crate::out::lemma_outfile_findings_wf(outs[0].tool_name, outs[0].doc, target);
        lemma_srcfile_findings_wf(outs.drop_first(), target);
        let fs = srcfile_findings(outs, target);
        let head = outfile_findings(outs[0].tool_name, outs[0].doc, target);
        let tail = srcfile_findings(outs.drop_first(), target);
        assert forall|i: int| 0 <= i < fs.len() implies crate::finding::finding_wf(fs[i]) by {
            if i < head.len() {
                assert(fs[i] == head[i]);
            } else {
                assert(fs[i] == tail[i - head.len()]);
            }
        }
    }
}

/// One source file and its per-tool raw output files.
pub struct SrcFile {
    pub path: Vec<String>,
    pub out_files: Vec<OutFile>,
}

/// Keeps the order of `s`, with every finding of tool `t` retained and the
/// rest dropped.
pub open spec fn filter_tool(s: Seq<FindingV>, t: ToolName) -> Seq<FindingV>
    decreases s,
{
    if s.len() == 0 {
        Seq::<FindingV>::empty()
    } else {
        let own = if s[0].tool == t {
            seq![s[0]]
        } else {
            Seq::<FindingV>::empty()
        };
        own + filter_tool(s.drop_first(), t)
    }
}

/// Appending a finding extends the filtered sequence exactly when the
/// tool matches.
proof fn lemma_filter_tool_push(s: Seq<FindingV>, t: ToolName, x: FindingV)
    ensures
        x.tool == t ==> filter_tool(s.push(x), t) == filter_tool(s, t) + seq![x],
        x.tool != t ==> filter_tool(s.push(x), t) == filter_tool(s, t),
    decreases s,
{
    if s.len() == 0 {
        assert(s.push(x)[0] == x);
        assert(s.push(x).drop_first() =~= Seq::<FindingV>::empty());
        assert(filter_tool(Seq::<FindingV>::empty(), t) == Seq::<FindingV>::empty());
        if x.tool == t {
            assert(filter_tool(s.push(x), t) =~= filter_tool(s, t) + seq![x]);
        } else {
            assert(filter_tool(s.push(x), t) =~= filter_tool(s, t));
        }
    } else {
        lemma_filter_tool_push(s.drop_first(), t, x);
        assert(s.push(x)[0] == s[0]);
        assert(s.push(x).drop_first() =~= s.drop_first().push(x));
        if x.tool == t {
            assert(filter_tool(s.push(x), t) =~= filter_tool(s, t) + seq![x]);
        } else {
            assert(filter_tool(s.push(x), t) =~= filter_tool(s, t));
        }
    }
}

/// Clones a finding, field by field.
fn clone_finding(f: &Finding) -> (r: Finding)
    ensures
        r@ == f@,
{
    Finding {
        tool_name: f.tool_name,
        kind: f.kind.clone(),
        name: f.name.clone(),
        start_line: f.start_line,
        end_line: f.end_line,
        data: f.data,
    }
}

/// The persisted result document of the filter stage: each tool mapped to
/// the list of findings it produced for one source file, every tool
/// present, in the tools' fixed order.
pub fn group_findings_by_tool(findings: &Vec<Finding>) -> (r: Vec<(ToolName, Vec<Finding>)>)
    ensures
        r@.len() == 4,
        r@[0].0 == ToolName::Rca,
        r@[1].0 == ToolName::Node,
        r@[2].0 == ToolName::Finder,
        r@[3].0 == ToolName::Clippy,
        forall|k: int|
            0 <= k < 4 ==> findings_view(#[trigger] r@[k].1@) == filter_tool(
                findings_view(findings@),
                r@[k].0,
            ),
{
    let mut rca: Vec<Finding> = Vec::new();
    let mut node: Vec<Finding> = Vec::new();
    let mut finder: Vec<Finding> = Vec::new();
    let mut clippy: Vec<Finding> = Vec::new();
    let mut i: usize = 0;
    while i < findings.len()
        invariant
            i <= findings.len(),
            findings_view(rca@) =~= filter_tool(
                findings_view(findings@).take(i as int),
                ToolName::Rca,
            ),
            findings_view(node@) =~= filter_tool(
                findings_view(findings@).take(i as int),
                ToolName::Node,
            ),
            findings_view(finder@) =~= filter_tool(
                findings_view(findings@).take(i as int),
                ToolName::Finder,
            ),
            findings_view(clippy@) =~= filter_tool(
                findings_view(findings@).take(i as int),
                ToolName::Clippy,
            ),
        decreases findings.len() - i,
    {
        let f = clone_finding(&findings[i]);
        let ghost pre_rca = rca@;
        let ghost pre_node = node@;
        let ghost pre_finder = finder@;
        let ghost pre_clippy = clippy@;
        match f.tool_name {
            ToolName::Rca => rca.push(f),
            ToolName::Node => node.push(f),
            ToolName::Finder => finder.push(f),
            ToolName::Clippy => clippy.push(f),
        }
        proof {
            let j = i as int;
            let fv = findings_view(findings@);
            assert(fv.take(j + 1) =~= fv.take(j).push(fv[j]));
            lemma_filter_tool_push(fv.take(j), ToolName::Rca, fv[j]);
            lemma_filter_tool_push(fv.take(j), ToolName::Node, fv[j]);
            lemma_filter_tool_push(fv.take(j), ToolName::Finder, fv[j]);
            lemma_filter_tool_push(fv.take(j), ToolName::Clippy, fv[j]);
            assert(findings_view(rca@) =~= filter_tool(fv.take(j + 1), ToolName::Rca));
            assert(findings_view(node@) =~= filter_tool(fv.take(j + 1), ToolName::Node));
            assert(findings_view(finder@) =~= filter_tool(fv.take(j + 1), ToolName::Finder));
            assert(findings_view(clippy@) =~= filter_tool(fv.take(j + 1), ToolName::Clippy));
        }
        i = i + 1;
    }
    proof {
        assert(findings_view(findings@).take(findings@.len() as int) =~= findings_view(
            findings@,
        ));
    }
    let mut r: Vec<(ToolName, Vec<Finding>)> = Vec::new();
    r.push((ToolName::Rca, rca));
    r.push((ToolName::Node, node));
    r.push((ToolName::Finder, finder));
    r.push((ToolName::Clippy, clippy));
    r
}

impl SrcFile {
    /// Creates a new source-file view.
    pub fn new(path: Vec<String>, out_files: Vec<OutFile>) -> (r: SrcFile)
        ensures
            r.path == path,
            r.out_files == out_files,
    {
        SrcFile { path, out_files }
    }

    /// Iterates over all raw output files and collects the findings they
    /// yield for this source file, with the warnings raised along the way.
    pub fn get_findings(&self) -> (r: ExtractOutcome)
        ensures
            findings_view(r.findings@) == srcfile_findings(
                self.out_files@,
                segs_view(self.path@),
            ),
            r.warnings@ == srcfile_warns(self.out_files@, segs_view(self.path@)),
    {
        let ghost target = segs_view(self.path@);
        let mut findings: Vec<Finding> = Vec::new();
        let mut warnings: Vec<ExtractWarning> = Vec::new();
        let mut i: usize = 0;
        while i < self.out_files.len()
            invariant
                i <= self.out_files.len(),
                target == segs_view(self.path@),
                findings_view(findings@) =~= srcfile_findings(
                    self.out_files@.take(i as int),
                    target,
                ),
                warnings@ =~= srcfile_warns(self.out_files@.take(i as int), target),
            decreases self.out_files.len() - i,
        {
            let ghost pre_f = findings@;
            let ghost pre_w = warnings@;
            let mut one = self.out_files[i].extract_findings(&self.path);
            findings.append(&mut one.findings);
            warnings.append(&mut one.warnings);
            proof {
                let j = i as int;
                assert(findings_view(findings@) =~= findings_view(pre_f) + outfile_findings(
                    self.out_files@[j].tool_name,
                    self.out_files@[j].doc,
                    target,
                ));
                assert(self.out_files@.take(j + 1) =~= self.out_files@.take(j).push(
                    self.out_files@[j],
                ));
                lemma_srcfile_push(self.out_files@.take(j), target, self.out_files@[j]);
            }
            i = i + 1;
        }
        proof {
            assert(self.out_files@.take(self.out_files@.len() as int) =~= self.out_files@);
        }
        ExtractOutcome { findings, warnings }
    }

    /// Runs extraction and correlation over this source file's raw output
    /// files: the accumulator buckets that its findings contribute.
    pub fn analyze_out_files(&self) -> (r: crate::correlate::KindBuckets)
        ensures
            r@ == crate::correlate::correlate_spec(
                srcfile_findings(self.out_files@, segs_view(self.path@)),
            ),
            r.wf(),
    {
        let out = self.get_findings();
        proof {
            lemma_srcfile_findings_wf(self.out_files@, segs_view(self.path@));
            let fs = out.findings@;
            assert forall|i: int| 0 <= i < fs.len() implies (#[trigger] fs[i]).wf() by {
                assert(findings_view(out.findings@)[i] == out.findings@[i]@);
            }
        }
        crate::correlate::correlate(&out.findings)
    }

    /// The file name the result document of this source file is saved
    /// under: the path relative to the working copy, separators replaced,
    /// any parent-directory segment written out as a plain underscore.
    pub fn result_file_name(&self) -> (r: String)
        ensures
            r@ == join_with(cleaned_segs(snip_segs(segs_view(self.path@), 3)), "_"@)
                + ".json"@,
    {
        let trimmed = snip_path(&self.path, 3);
        let cleaned = clean_segments(&trimmed);
        join_strs(&cleaned, "_").concat(".json")
    }
}

/// Replaces every parent-directory segment by a plain underscore, so that
/// the derived file name cannot climb out of its directory.
fn clean_segments(segs: &Vec<String>) -> (r: Vec<String>)
    ensures
        segs_view(r@) == cleaned_segs(segs_view(segs@)),
{
    let dotdot = String::from_str("..");
    let mut r: Vec<String> = Vec::new();
    let mut i: usize = 0;
    while i < segs.len()
        invariant
            i <= segs.len(),
            dotdot@ == ".."@,
            segs_view(r@) =~= cleaned_segs(segs_view(segs@).take(i as int)),
        decreases segs.len() - i,
    {
        let ghost pre = r@;
        if segs[i] == dotdot {
            r.push(String::from_str("_"));
        } else {
            r.push(segs[i].clone());
        }
        proof {
            let j = i as int;
            let sv = segs_view(segs@);
            let pushed = if sv[j] == ".."@ {
                "_"@
            } else {
                sv[j]
            };
            assert(segs_view(r@) =~= segs_view(pre).push(pushed));
            assert(sv.take(j + 1) =~= sv.take(j).push(sv[j]));
            assert(segs_view(r@) =~= cleaned_segs(sv.take(j + 1)));
        }
        i = i + 1;
    }
    proof {
        assert(segs_view(segs@).take(segs@.len() as int) =~= segs_view(segs@));
    }
    r
}

} // verus!
