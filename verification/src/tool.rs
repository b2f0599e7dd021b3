//! The closed set of external analysis tools, their invocation templates and
//! their output-path conventions. Tool descriptors are immutable configuration
//! built once per run; adding a tool means adding a variant and its extractor.

use vstd::prelude::*;

use crate::text::{append_cloned, join_str_refs, join_with, segs_view};

verus! {

/// Identity of one external analysis tool: the AST-metrics tool, the same
/// tool in its alternate node mode, the pattern finder, and the lint tool.
#[derive(Clone, Copy, Debug, PartialEq, Eq, Structural)]
pub enum ToolName {
    Rca,
    Node,
    Finder,
    Clippy,
}

/// The short name under which a tool's output directories and files appear.
pub open spec fn tool_name_view(t: ToolName) -> Seq<char> {
    match t {
        ToolName::Rca => "rca"@,
        ToolName::Node => "node"@,
        ToolName::Finder => "finder"@,
        ToolName::Clippy => "clippy"@,
    }
}

impl ToolName {
    /// The tool's short name.
    pub fn as_str(&self) -> (s: &'static str)
        ensures
            s@ == tool_name_view(*self),
    {
        match self {
            ToolName::Rca => "rca",
            ToolName::Node => "node",
            ToolName::Finder => "finder",
            ToolName::Clippy => "clippy",
        }
    }

    /// Whether this tool writes one output per repository rather than one
    /// per source file.
    pub fn repository_granularity(&self) -> (r: bool)
        ensures
            r == (*self == ToolName::Clippy),
    {
        match self {
            ToolName::Clippy => true,
            _ => false,
        }
    }
}

/// One external tool: its identity and the shell command that runs it. The
/// command ends where the output path belongs, so running the tool appends
/// the path to it.
pub struct Tool {
    pub name: ToolName,
    pub command: String,
}

/// Invocation template of the AST-metrics tool.
pub open spec fn rca_command() -> Seq<char> {
    "rust-code-analysis-cli -m -p ./* -I '*.rs' -X '/target' --pr -O json -o "@
}

/// Invocation template of the AST-metrics tool in node mode.
pub open spec fn node_command() -> Seq<char> {
    "NODE_MODE=true rust-code-analysis-cli -m -p ./* -I '*.rs' -X '/target' --pr -O json -o "@
}

/// Invocation template of the pattern finder, around its feature list.
pub open spec fn finder_command(features: Seq<Seq<char>>) -> Seq<char> {
    "rust-code-analysis-cli -p ./* -I '*.rs' -X '/target' -f "@ + join_with(features, ","@)
        + " --pr -O json -o "@
}

/// Invocation template of the lint tool, wrapping its message stream into a
/// JSON array on the way to the output file.
pub open spec fn clippy_command() -> Seq<char> {
    "cargo clippy --workspace --message-format=json | sed '1s/^/[/;$!s/$/,/;$s/$/]/' > "@
}

/// The syntactic categories the pattern finder is asked to report.
pub open spec fn feature_list() -> Seq<Seq<char>> {
    seq![
        "lifetime"@,
        "for_lifetimes"@,
        "for_lifetimes_repeat1"@,
        "macro_definition"@,
        "macro_rule"@,
        "macro_rules!"@,
        "macro_definition_repeat1"@,
        "macro_invocation"@,
        "trait_bounds"@,
        "trait_bounds_repeat1"@,
        "higher_ranked_trait_bound"@,
        "removed_trait_bound"@,
        "where"@,
        "where_clause"@,
        "where_clause_repeat1"@,
        "where_predicate"@,
        "async"@,
        "async_block"@,
        "await"@,
        "await_expression"@,
        "unsafe"@,
        "unsafe_block"@,
        "trait"@,
        "trait_item"@,
        "closure_parameters_repeat1"@,
        "closure_expression"@,
        "closure_parameters"@,
        "line_comment"@,
    ]
}

/// Returns all features of interest for the pattern finder.
pub fn all_features() -> (r: Vec<&'static str>)
    ensures
        r@.map_values(|s: &str| s@) == feature_list(),
{
    let r: Vec<&'static str> = vec![
        "lifetime",
        "for_lifetimes",
        "for_lifetimes_repeat1",
        "macro_definition",
        "macro_rule",
        "macro_rules!",
        "macro_definition_repeat1",
        "macro_invocation",
        "trait_bounds",
        "trait_bounds_repeat1",
        "higher_ranked_trait_bound",
        "removed_trait_bound",
        "where",
        "where_clause",
        "where_clause_repeat1",
        "where_predicate",
        "async",
        "async_block",
        "await",
        "await_expression",
        "unsafe",
        "unsafe_block",
        "trait",
        "trait_item",
        "closure_parameters_repeat1",
        "closure_expression",
        "closure_parameters",
        "line_comment",
    ];
    proof {
        assert(r@.map_values(|s: &str| s@) =~= feature_list());
    }
    r
}

/// Returns all tools used to collect metrics, in their fixed order.
pub fn all_tools() -> (r: Vec<Tool>)
    ensures
        r@.len() == 4,
        r@[0].name == ToolName::Rca,
        r@[0].command@ == rca_command(),
        r@[1].name == ToolName::Node,
        r@[1].command@ == node_command(),
        r@[2].name == ToolName::Finder,
        r@[2].command@ == finder_command(feature_list()),
        r@[3].name == ToolName::Clippy,
        r@[3].command@ == clippy_command(),
{
    let features = all_features();
    let feature_args = join_str_refs(&features, ",");
    let finder_cmd = String::from_str("rust-code-analysis-cli -p ./* -I '*.rs' -X '/target' -f ")
        .concat(feature_args.as_str()).concat(" --pr -O json -o ");
    let mut r: Vec<Tool> = Vec::new();
    r.push(
        Tool {
            name: ToolName::Rca,
            command: String::from_str(
                "rust-code-analysis-cli -m -p ./* -I '*.rs' -X '/target' --pr -O json -o ",
            ),
        },
    );
    r.push(
        Tool {
            name: ToolName::Node,
            command: String::from_str(
                "NODE_MODE=true rust-code-analysis-cli -m -p ./* -I '*.rs' -X '/target' --pr -O json -o ",
            ),
        },
    );
    r.push(Tool { name: ToolName::Finder, command: finder_cmd });
    r.push(
        Tool {
            name: ToolName::Clippy,
            command: String::from_str(
                "cargo clippy --workspace --message-format=json | sed '1s/^/[/;$!s/$/,/;$s/$/]/' > ",
            ),
        },
    );
    r
}

impl Tool {
    /// The full shell command one run of this tool executes: the tool's
    /// command template with the output path appended.
    pub fn full_command(&self, cmd_out_path: &str) -> (r: String)
        ensures
            r@ == self.command@ + cmd_out_path@,
    {
        self.command.clone().concat(cmd_out_path)
    }

    /// Returns the output path of the tool as seen from the working copy the
    /// command runs in: up out of `<base>/tmp/<owner>/<repo>`, then down into
    /// the raw-output directory; the lint tool, which writes one file per
    /// repository, gets a file named after the tool itself.
    pub fn get_cmd_out_path(&self, repo_out_path: &Vec<String>) -> (r: Vec<String>)
        ensures
            self.name != ToolName::Clippy ==> segs_view(r@) == seq![".."@, ".."@, ".."@]
                + segs_view(repo_out_path@),
            self.name == ToolName::Clippy ==> segs_view(r@) == seq![".."@, ".."@, ".."@]
                + segs_view(repo_out_path@) + seq!["clippy.json"@],
    {
        let mut r: Vec<String> = Vec::new();
        r.push(String::from_str(".."));
        r.push(String::from_str(".."));
        r.push(String::from_str(".."));
        proof {
            assert(segs_view(r@) =~= seq![".."@, ".."@, ".."@]);
        }
        append_cloned(&mut r, repo_out_path);
        if self.name == ToolName::Clippy {
            r.push(String::from_str("clippy.json"));
            proof {
                assert(segs_view(r@) =~= seq![".."@, ".."@, ".."@] + segs_view(repo_out_path@)
                    + seq!["clippy.json"@]);
            }
        }
        r
    }
}

} // verus!
