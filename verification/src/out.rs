//! One raw output file: the parsed document a tool wrote, tied to the tool
//! that produced it, and the dispatch from tool identity to the extractor
//! that understands the document.

use vstd::prelude::*;

use crate::extract::{
    extract_ast, extract_lint, extract_pattern, lint_findings, lint_warns, pattern_findings,
    pattern_warns, space_findings, space_warns, ExtractOutcome, ExtractWarning,
};
use crate::finding::{findings_view, Finding, FindingV};
use crate::raw::RawDoc;
use crate::text::segs_view;
use crate::tool::ToolName;

verus! {

/// The findings one raw output file yields for a target source file: the
/// extractor is chosen by the tool that owns the file, and a document of
/// the wrong shape yields nothing.
pub open spec fn outfile_findings(tool: ToolName, doc: RawDoc, target: Seq<Seq<char>>) -> Seq<
    FindingV,
> {
    match doc {
        RawDoc::Missing => Seq::<FindingV>::empty(),
        RawDoc::Spaces(s) => if tool == ToolName::Rca || tool == ToolName::Node {
            space_findings(tool, s)
        } else {
            Seq::<FindingV>::empty()
        },
        RawDoc::Entries(es) => if tool == ToolName::Finder {
            pattern_findings(es@)
        } else {
            Seq::<FindingV>::empty()
        },
        RawDoc::Lint(es) => if tool == ToolName::Clippy {
            lint_findings(es@, target)
        } else {
            Seq::<FindingV>::empty()
        },
    }
}

/// The warnings one raw output file raises: its extractor's warnings, or a
/// single flag when the document's shape does not belong to the tool.
pub open spec fn outfile_warns(tool: ToolName, doc: RawDoc, target: Seq<Seq<char>>) -> Seq<
    ExtractWarning,
> {
    match doc {
        RawDoc::Missing => Seq::<ExtractWarning>::empty(),
        RawDoc::Spaces(s) => if tool == ToolName::Rca || tool == ToolName::Node {
            space_warns(s)
        } else {
            seq![ExtractWarning::WrongDocument]
        },
        RawDoc::Entries(es) => if tool == ToolName::Finder {
            pattern_warns(es@)
        } else {
            seq![ExtractWarning::WrongDocument]
        },
        RawDoc::Lint(es) => if tool == ToolName::Clippy {
            lint_warns(es@, target)
        } else {
            seq![ExtractWarning::WrongDocument]
        },
    }
}

/// Every finding a raw output file yields has a forward line range.
pub proof fn lemma_outfile_findings_wf(tool: ToolName, doc: RawDoc, target: Seq<Seq<char>>)
    ensures
        forall|i: int|
            0 <= i < outfile_findings(tool, doc, target).len() ==> crate::finding::finding_wf(
                #[trigger] outfile_findings(tool, doc, target)[i],
            ),
{
    match doc {
        RawDoc::Missing => {
        },
        RawDoc::Spaces(s) => {
            crate::extract::lemma_space_findings_wf(tool, s);
        },
        RawDoc::Entries(es) => {
            crate::extract::lemma_pattern_findings_wf(es@);
        },
        RawDoc::Lint(es) => {
            crate::extract::lemma_lint_findings_wf(es@, target);
        },
    }
}

/// A single raw output file: where it lives, which tool wrote it, and the
/// document read from it. An absent or corrupt file carries `RawDoc::Missing`
/// and degrades to an empty document.
pub struct OutFile {
    pub path: Vec<String>,
    pub tool_name: ToolName,
    pub doc: RawDoc,
}

impl OutFile {
    /// Creates a new raw output file record.
    pub fn new(path: Vec<String>, tool_name: ToolName, doc: RawDoc) -> (r: OutFile)
        ensures
            r.path == path,
            r.tool_name == tool_name,
            r.doc == doc,
    {
        OutFile { path, tool_name, doc }
    }

    /// Extracts the findings this file contributes to the given target
    /// source file, dispatching on the tool that wrote the file.
    pub fn extract_findings(&self, src_file_path: &Vec<String>) -> (r: ExtractOutcome)
        ensures
            findings_view(r.findings@) == outfile_findings(
                self.tool_name,
                self.doc,
                segs_view(src_file_path@),
            ),
            r.warnings@ == outfile_warns(self.tool_name, self.doc, segs_view(src_file_path@)),
    {
        match &self.doc {
            RawDoc::Missing => {
                let r = ExtractOutcome { findings: Vec::new(), warnings: Vec::new() };
                proof {
                    assert(findings_view(r.findings@) =~= Seq::<FindingV>::empty());
                }
                r
            },
            RawDoc::Spaces(s) => {
                if self.tool_name == ToolName::Rca || self.tool_name == ToolName::Node {
                    extract_ast(self.tool_name, s)
                } else {
                    Self::wrong_document()
                }
            },
            RawDoc::Entries(es) => {
                if self.tool_name == ToolName::Finder {
                    extract_pattern(es)
                } else {
                    Self::wrong_document()
                }
            },
            RawDoc::Lint(es) => {
                if self.tool_name == ToolName::Clippy {
                    extract_lint(es, src_file_path)
                } else {
                    Self::wrong_document()
                }
            },
        }
    }

    /// The outcome of handing a tool a document it does not understand.
    fn wrong_document() -> (r: ExtractOutcome)
        ensures
            findings_view(r.findings@) == Seq::<FindingV>::empty(),
            r.warnings@ == seq![ExtractWarning::WrongDocument],
    {
        let mut warnings: Vec<ExtractWarning> = Vec::new();
        warnings.push(ExtractWarning::WrongDocument);
        let r = ExtractOutcome { findings: Vec::new(), warnings };
        proof {
            assert(findings_view(r.findings@) =~= Seq::<FindingV>::empty());
            assert(r.warnings@ =~= seq![ExtractWarning::WrongDocument]);
        }
        r
    }
}

} // verus!
