//! Findings: the normalized records every tool's raw output is reduced to.
//! A finding names a kinded code region of one source file and optionally
//! carries the raw metrics payload measured over that region.

use vstd::prelude::*;

use crate::metrics::{raw_ok, raw_to_metrics, Metrics, MetricsV};
use crate::rat::{Rat, RatV};
use crate::raw::RawMetrics;
use crate::tool::ToolName;

verus! {

/// View of a finding: the line range as numbers, the strings as character
/// sequences, the payload as the record it was read from.
pub ghost struct FindingV {
    pub tool: ToolName,
    pub kind: Seq<char>,
    pub name: Seq<char>,
    pub start_line: u64,
    pub end_line: u64,
    pub payload: Option<RawMetrics>,
}

/// A normalized record extracted from one tool's raw output: the tool it
/// originates from, a kind, a display name, the line range it covers, and
/// the raw metrics payload when the tool measures one.
pub struct Finding {
    pub tool_name: ToolName,
    pub kind: String,
    pub name: String,
    pub start_line: u64,
    pub end_line: u64,
    pub data: Option<RawMetrics>,
}

impl View for Finding {
    type V = FindingV;

    open spec fn view(&self) -> FindingV {
        FindingV {
            tool: self.tool_name,
            kind: self.kind@,
            name: self.name@,
            start_line: self.start_line,
            end_line: self.end_line,
            payload: self.data,
        }
    }
}

/// View of a vector of findings as the sequence of their views.
pub open spec fn findings_view(v: Seq<Finding>) -> Seq<FindingV> {
    v.map_values(|f: Finding| f@)
}

/// A finding covers at least one line: its range does not run backwards.
pub open spec fn finding_wf(f: FindingV) -> bool {
    f.start_line <= f.end_line
}

/// Number of lines a finding covers.
pub open spec fn span_len(f: FindingV) -> int {
    f.end_line - f.start_line + 1
}

/// Containment: `p`'s range lies fully inside `m`'s range.
pub open spec fn inside(p: FindingV, m: FindingV) -> bool {
    p.start_line >= m.start_line && p.end_line <= m.end_line
}

/// The fraction of `m`'s line count that `p` covers.
pub open spec fn size_ratio(p: FindingV, m: FindingV) -> RatV {
    RatV { n: span_len(p), d: span_len(m) }
}

/// The accumulator a finding's payload reads into, when it carries one
/// that reads cleanly.
pub open spec fn payload_metrics(f: FindingV) -> Option<MetricsV> {
    if f.payload matches Some(p) && raw_ok(p) {
        Some(raw_to_metrics(f.payload->0))
    } else {
        None
    }
}

impl Finding {
    /// A well-formed finding has a forward line range.
    pub open spec fn wf(self) -> bool {
        finding_wf(self@)
    }

    /// Creates a new finding over a forward line range.
    pub fn new(
        tool_name: ToolName,
        kind: String,
        name: String,
        start_line: u64,
        end_line: u64,
        data: Option<RawMetrics>,
    ) -> (r: Finding)
        requires
            start_line <= end_line,
        ensures
            r@ == (FindingV {
                tool: tool_name,
                kind: kind@,
                name: name@,
                start_line,
                end_line,
                payload: data,
            }),
            r.wf(),
    {
        Finding { tool_name, kind, name, start_line, end_line, data }
    }

    /// Containment test: whether this finding's range lies fully inside the
    /// other's range - the other is read as the enclosing scope.
    pub fn is_inside(&self, other: &Finding) -> (r: bool)
        ensures
            r == inside(self@, other@),
    {
        self.start_line >= other.start_line && self.end_line <= other.end_line
    }

    /// The fraction of the other finding's line count that this finding
    /// covers: the attribution weight of the pair.
    pub fn get_size_ratio(&self, other: &Finding) -> (r: Rat)
        requires
            self.wf(),
            other.wf(),
        ensures
            r@ == size_ratio(self@, other@),
            r.wf(),
    {
        let size_this = (self.end_line - self.start_line) as i128 + 1;
        let size_other = (other.end_line - other.start_line) as i128 + 1;
        Rat::new(size_this, size_other)
    }

    /// Reads this finding's payload into a single-sample accumulator;
    /// `None` when the finding carries no payload or the payload does not
    /// read cleanly.
    pub fn get_metrics(&self) -> (r: Option<Metrics>)
        ensures
            r is Some <==> payload_metrics(self@) is Some,
            r matches Some(m) ==> Some(m@) == payload_metrics(self@) && m.wf(),
    {
        match &self.data {
            None => None,
            Some(raw) => match Metrics::from_value(raw) {
                Ok(m) => Some(m),
                Err(_) => None,
            },
        }
    }
}

} // verus!
