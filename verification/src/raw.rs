//! Typed models of the raw tool-output documents. Each external tool's JSON
//! schema is written out as nested record types whose fields are optional:
//! deserialization (outside the library) only projects fields, and the
//! extractor decides, field by field, what a missing value means.

use vstd::prelude::*;

use crate::rat::Rat;

verus! {

/// A metrics group holding a single aggregated value.
#[derive(Clone, Copy)]
pub struct RawSum {
    pub sum: Option<Rat>,
}

/// The Halstead suite of a space.
#[derive(Clone, Copy)]
pub struct RawHalstead {
    pub n1: Option<Rat>,
    pub capital_n1: Option<Rat>,
    pub n2: Option<Rat>,
    pub capital_n2: Option<Rat>,
    pub length: Option<Rat>,
    pub estimated_program_length: Option<Rat>,
    pub purity_ratio: Option<Rat>,
    pub vocabulary: Option<Rat>,
    pub volume: Option<Rat>,
    pub difficulty: Option<Rat>,
    pub level: Option<Rat>,
    pub effort: Option<Rat>,
    pub time: Option<Rat>,
    pub bugs: Option<Rat>,
}

/// The lines-of-code measures of a space.
#[derive(Clone, Copy)]
pub struct RawLoc {
    pub sloc: Option<Rat>,
    pub ploc: Option<Rat>,
    pub lloc: Option<Rat>,
    pub cloc: Option<Rat>,
    pub blank: Option<Rat>,
}

/// The number-of-methods measures of a space.
#[derive(Clone, Copy)]
pub struct RawNom {
    pub functions: Option<Rat>,
    pub closures: Option<Rat>,
}

/// The maintainability indices of a space.
#[derive(Clone, Copy)]
pub struct RawMi {
    pub mi_original: Option<Rat>,
    pub mi_sei: Option<Rat>,
    pub mi_visual_studio: Option<Rat>,
}

/// The metrics object attached to one space of the AST-metrics output. A
/// group that is absent altogether makes the payload unusable; an absent
/// value inside a present group reads as zero.
#[derive(Clone, Copy)]
pub struct RawMetrics {
    pub nargs: Option<RawSum>,
    pub nexits: Option<RawSum>,
    pub cognitive: Option<RawSum>,
    pub cyclomatic: Option<RawSum>,
    pub halstead: Option<RawHalstead>,
    pub loc: Option<RawLoc>,
    pub nom: Option<RawNom>,
    pub mi: Option<RawMi>,
}

/// One node of the AST-metrics tool's recursive tree of spaces.
pub struct RawSpace {
    pub kind: Option<String>,
    pub name: Option<String>,
    pub start_line: Option<u64>,
    pub end_line: Option<u64>,
    pub metrics: Option<RawMetrics>,
    pub spaces: Vec<RawSpace>,
}

/// One entry of the pattern finder's flat output list.
pub struct RawPatternEntry {
    pub kind: Option<String>,
    pub name: Option<String>,
    pub start_line: Option<u64>,
    pub end_line: Option<u64>,
}

/// One primary span of a compiler message.
#[derive(Clone, Copy)]
pub struct RawSpan {
    pub line_start: Option<u64>,
    pub line_end: Option<u64>,
}

/// One entry of the lint tool's message list. The reported source path
/// comes as filesystem segments, the diagnostic code as reported by the
/// compiler (namespaced by the tool that owns the rule).
pub struct RawLintEntry {
    pub reason: Option<String>,
    pub code: Option<String>,
    pub src_path: Option<Vec<String>>,
    pub spans: Vec<RawSpan>,
}

/// The parsed content of one raw output file. An absent or corrupt file
/// degrades to `Missing` rather than failing the pipeline.
pub enum RawDoc {
    Missing,
    Spaces(RawSpace),
    Entries(Vec<RawPatternEntry>),
    Lint(Vec<RawLintEntry>),
}

} // verus!
