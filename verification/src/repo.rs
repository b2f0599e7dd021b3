//! Repository identity and the per-repository pipeline decisions. A parsed
//! URL names a repository and deterministically derives its three
//! filesystem roots - working copy, raw output, results - from a
//! configurable base directory. Each pipeline stage is idempotent: it is
//! skipped when its target directory already exists. The clone stage
//! retries once against an alternate default-branch name before the
//! repository is abandoned.

use vstd::prelude::*;

use crate::text::{join_strs, join_with, segs_view, snip_path, snip_segs, split_by, split_char};
use crate::tool::{all_tools, clippy_command, feature_list, finder_command, node_command,
    rca_command, tool_name_view, Tool, ToolName};

verus! {

/// The path of a parsed URL: `None` for a string that is no URL. The path
/// of a well-formed repository URL starts with a slash and names owner and
/// repository as its segments.
pub uninterp spec fn url_path_of(s: Seq<char>) -> Option<Seq<char>>;

/// Relies on `url::Url::parse` and `url::Url::path`: parsing is a function
/// of the input string alone, and the path of a parsed URL comes back as a
/// percent-encoded ASCII string.
#[verifier::external_body]
fn parse_url_path(s: &str) -> (r: Option<String>)
    ensures
        r is Some <==> url_path_of(s@) is Some,
        r matches Some(p) ==> Some(p@) == url_path_of(s@) && p.is_ascii(),
{
    match url::Url::parse(s) {
        Ok(u) => Some(u.path().to_string()),
        Err(_) => None,
    }
}

/// A URL names a repository when it parses and its path starts with a
/// slash.
pub open spec fn valid_repo_url(s: Seq<char>) -> bool {
    url_path_of(s) matches Some(p) && p.len() >= 1 && p[0] == '/'
}

/// The repository's name segments: the URL path, slash stripped, split at
/// every slash.
pub open spec fn repo_name_of(s: Seq<char>) -> Seq<Seq<char>>
    recommends
        valid_repo_url(s),
{
    split_by(url_path_of(s)->0.skip(1), '/')
}

/// A directory under the configurable base: the stage folder, then the
/// tool's own directory for tool-specific paths, then the repository.
pub open spec fn data_path(
    base: Seq<Seq<char>>,
    folder: Seq<char>,
    tool: Option<ToolName>,
    name: Seq<Seq<char>>,
) -> Seq<Seq<char>> {
    let tool_part = match tool {
        Some(t) => seq![tool_name_view(t)],
        None => Seq::<Seq<char>>::empty(),
    };
    base + seq![folder] + tool_part + name
}

/// The file name a tool's raw output for one source file is stored under:
/// the source path relative to the working copy with separators replaced,
/// or the tool's own name for tools that write one file per repository.
pub open spec fn out_file_name_spec(tool: ToolName, src: Seq<Seq<char>>) -> Seq<char> {
    if tool == ToolName::Clippy {
        tool_name_view(tool) + ".json"@
    } else {
        join_with(snip_segs(src, 3), "_"@) + ".json"@
    }
}

/// One repository of the batch: the URL it was named by and its name
/// segments, from which every path of the pipeline derives.
pub struct Repo {
    pub url: String,
    pub name: Vec<String>,
}

impl Repo {
    /// Parses a repository identifier. An unparsable URL, or one whose
    /// path does not start with a slash, yields `None`: that single
    /// repository is rejected without aborting anything else.
    pub fn new(url: &str) -> (r: Option<Repo>)
        ensures
            r is Some <==> valid_repo_url(url@),
            r matches Some(repo) ==> repo.url@ == url@ && segs_view(repo.name@) == repo_name_of(
                url@,
            ),
    {
        match parse_url_path(url) {
            Some(path) => {
                let n = path.as_str().unicode_len();
                if n >= 1 && path.as_str().get_char(0) == '/' {
                    let rest = path.as_str().substring_char(1, n);
                    let name = split_char(rest, '/');
                    Some(Repo { url: url.to_owned(), name })
                } else {
                    None
                }
            },
            None => None,
        }
    }

    /// The tool- or stage-specific directory of this repository under the
    /// given base directory.
    pub fn get_path(&self, base: &Vec<String>, tool_name: Option<&ToolName>, folder: &str) -> (r:
        Vec<String>)
        ensures
            segs_view(r@) == data_path(
                segs_view(base@),
                folder@,
                match tool_name {
                    Some(t) => Some(*t),
                    None => None,
                },
                segs_view(self.name@),
            ),
    {
        let mut r: Vec<String> = Vec::new();
        crate::text::append_cloned(&mut r, base);
        r.push(folder.to_owned());
        let ghost mid = segs_view(r@);
        proof {
            assert(mid =~= segs_view(base@) + seq![folder@]);
        }
        match tool_name {
            Some(t) => {
                r.push(t.as_str().to_owned());
                proof {
                    assert(segs_view(r@) =~= mid + seq![tool_name_view(*t)]);
                }
            },
            None => {
            },
        }
        let ghost before_name = segs_view(r@);
        crate::text::append_cloned(&mut r, &self.name);
        proof {
            assert(segs_view(r@) =~= before_name + segs_view(self.name@));
            assert(segs_view(r@) =~= data_path(
                segs_view(base@),
                folder@,
                match tool_name {
                    Some(t) => Some(*t),
                    None => None,
                },
                segs_view(self.name@),
            ));
        }
        r
    }

    /// The repository's working-copy directory.
    pub fn get_tmp_path(&self, base: &Vec<String>) -> (r: Vec<String>)
        ensures
            segs_view(r@) == data_path(segs_view(base@), "tmp"@, None, segs_view(self.name@)),
    {
        self.get_path(base, None, "tmp")
    }

    /// The name of the raw output file the given tool writes for the given
    /// source file of this repository.
    pub fn out_file_name(&self, tool: &ToolName, src_path: &Vec<String>) -> (r: String)
        ensures
            r@ == out_file_name_spec(*tool, segs_view(src_path@)),
    {
        if tool.repository_granularity() {
            String::from_str(tool.as_str()).concat(".json")
        } else {
            let trimmed = snip_path(src_path, 3);
            join_strs(&trimmed, "_").concat(".json")
        }
    }
}

/// The tool whose output stands at position `k` of the fixed tool order.
pub open spec fn nth_tool(k: int) -> ToolName {
    if k == 0 {
        ToolName::Rca
    } else if k == 1 {
        ToolName::Node
    } else if k == 2 {
        ToolName::Finder
    } else {
        ToolName::Clippy
    }
}

/// A path names a tracked source file of a working copy: it ends in a
/// Rust source file and passes through no build-output directory.
pub open spec fn tracked_source(ss: Seq<Seq<char>>) -> bool {
    &&& ss.len() > 0
    &&& ss.last().len() >= 3
    &&& ss.last().skip(ss.last().len() - 3) == ".rs"@
    &&& !(exists|i: int| 0 <= i < ss.len() - 1 && ss[i] == "target"@)
}

/// Whether a path names a tracked source file: a Rust source file outside
/// any build-output directory.
pub fn is_tracked_source(path: &Vec<String>) -> (r: bool)
    ensures
        r == tracked_source(segs_view(path@)),
{
    let ghost sv = segs_view(path@);
    if path.len() == 0 {
        return false;
    }
    let target = String::from_str("target");
    let mut i: usize = 0;
    while i < path.len() - 1
        invariant
            path@.len() > 0,
            i <= path@.len() - 1,
            target@ == "target"@,
            sv == segs_view(path@),
            forall|j: int| 0 <= j < i ==> sv[j] != "target"@,
        decreases path.len() - i,
    {
        if path[i] == target {
            proof {
                assert(sv[i as int] == "target"@);
            }
            return false;
        }
        i = i + 1;
    }
    let lseg = &path[path.len() - 1];
    proof {
        assert(sv.last() == lseg@);
    }
    let n = lseg.as_str().unicode_len();
    if n < 3 {
        return false;
    }
    let tail = lseg.as_str().substring_char(n - 3, n).to_owned();
    proof {
        assert(lseg@.skip(lseg@.len() - 3) =~= lseg@.subrange(n - 3, n as int));
    }
    tail == String::from_str(".rs")
}

impl Repo {
    /// The raw output files the configured tools write for one tracked
    /// source file of this repository: for each tool, its identity and the
    /// full path of the file it writes, in the fixed tool order.
    pub fn out_file_locations(&self, base: &Vec<String>, src_path: &Vec<String>) -> (r: Vec<
        (ToolName, Vec<String>),
    >)
        ensures
            r@.len() == 4,
            forall|k: int|
                0 <= k < 4 ==> (#[trigger] r@[k]).0 == nth_tool(k) && segs_view(r@[k].1@)
                    == data_path(
                    segs_view(base@),
                    "out"@,
                    Some(nth_tool(k)),
                    segs_view(self.name@),
                ) + seq![out_file_name_spec(nth_tool(k), segs_view(src_path@))],
    {
        let mut r: Vec<(ToolName, Vec<String>)> = Vec::new();
        let mut p0 = self.get_path(base, Some(&ToolName::Rca), "out");
        let ghost d0 = segs_view(p0@);
        p0.push(self.out_file_name(&ToolName::Rca, src_path));
        proof {
            assert(segs_view(p0@) =~= d0 + seq![
                out_file_name_spec(ToolName::Rca, segs_view(src_path@)),
            ]);
        }
        r.push((ToolName::Rca, p0));
        let mut p1 = self.get_path(base, Some(&ToolName::Node), "out");
        let ghost d1 = segs_view(p1@);
        p1.push(self.out_file_name(&ToolName::Node, src_path));
        proof {
            assert(segs_view(p1@) =~= d1 + seq![
                out_file_name_spec(ToolName::Node, segs_view(src_path@)),
            ]);
        }
        r.push((ToolName::Node, p1));
        let mut p2 = self.get_path(base, Some(&ToolName::Finder), "out");
        let ghost d2 = segs_view(p2@);
        p2.push(self.out_file_name(&ToolName::Finder, src_path));
        proof {
            assert(segs_view(p2@) =~= d2 + seq![
                out_file_name_spec(ToolName::Finder, segs_view(src_path@)),
            ]);
        }
        r.push((ToolName::Finder, p2));
        let mut p3 = self.get_path(base, Some(&ToolName::Clippy), "out");
        let ghost d3 = segs_view(p3@);
        p3.push(self.out_file_name(&ToolName::Clippy, src_path));
        proof {
            assert(segs_view(p3@) =~= d3 + seq![
                out_file_name_spec(ToolName::Clippy, segs_view(src_path@)),
            ]);
        }
        r.push((ToolName::Clippy, p3));
        r
    }
}

/// How the clone stage of one repository ended.
#[derive(Clone, Copy, Debug, PartialEq, Eq, Structural)]
pub enum CloneOutcome {
    /// The working copy already existed; nothing was done.
    Skipped,
    /// A clone attempt succeeded.
    Cloned,
    /// Both attempts failed; the repository is abandoned for the
    /// subsequent stages.
    Abandoned,
}

/// Where the clone stage of one repository stands.
#[derive(Clone, Copy, Debug, PartialEq, Eq, Structural)]
pub enum CloneState {
    /// The first attempt, against the remote's default branch, is due.
    FirstAttempt,
    /// The first attempt failed; one retry against the alternate default
    /// branch name is due.
    RetryMain,
    /// The stage is over.
    Done(CloneOutcome),
}

/// Starts the clone stage: a working copy that already exists makes the
/// stage an idempotent skip.
pub fn clone_init(tmp_exists: bool) -> (s: CloneState)
    ensures
        tmp_exists ==> s == CloneState::Done(CloneOutcome::Skipped),
        !tmp_exists ==> s == CloneState::FirstAttempt,
{
    if tmp_exists {
        CloneState::Done(CloneOutcome::Skipped)
    } else {
        CloneState::FirstAttempt
    }
}

/// The branch the pending attempt must ask for: the remote's default
/// branch first, the alternate name `main` on the retry.
pub fn clone_branch_override(s: &CloneState) -> (b: Option<&'static str>)
    requires
        !(s is Done),
    ensures
        *s == CloneState::FirstAttempt ==> b is None,
        *s == CloneState::RetryMain ==> (b matches Some(branch) && branch@ == "main"@),
{
    match s {
        CloneState::RetryMain => Some("main"),
        _ => None,
    }
}

/// Advances the clone stage on the outcome of one attempt: a failure of
/// the first attempt earns exactly one retry; a failure of the retry
/// abandons the repository.
pub fn clone_step(s: CloneState, ok: bool) -> (s2: CloneState)
    requires
        !(s is Done),
    ensures
        ok ==> s2 == CloneState::Done(CloneOutcome::Cloned),
        !ok && s == CloneState::FirstAttempt ==> s2 == CloneState::RetryMain,
        !ok && s == CloneState::RetryMain ==> s2 == CloneState::Done(CloneOutcome::Abandoned),
{
    if ok {
        CloneState::Done(CloneOutcome::Cloned)
    } else {
        match s {
            CloneState::FirstAttempt => CloneState::RetryMain,
            _ => CloneState::Done(CloneOutcome::Abandoned),
        }
    }
}

/// The tool invocations the collect stage owes: none when the raw-output
/// directory already exists - the stage is an idempotent skip - and one
/// per configured tool otherwise.
pub fn collect_plan(out_dir_exists: bool) -> (r: Vec<Tool>)
    ensures
        out_dir_exists ==> r@.len() == 0,
        !out_dir_exists ==> r@.len() == 4 && r@[0].name == ToolName::Rca && r@[0].command@
            == rca_command() && r@[1].name == ToolName::Node && r@[1].command@ == node_command()
            && r@[2].name == ToolName::Finder && r@[2].command@ == finder_command(feature_list())
            && r@[3].name == ToolName::Clippy && r@[3].command@ == clippy_command(),
{
    if out_dir_exists {
        Vec::new()
    } else {
        all_tools()
    }
}

/// Whether the delete stage has anything to remove: a working copy that is
/// already gone makes the stage an idempotent skip.
pub fn should_delete(tmp_exists: bool) -> (r: bool)
    ensures
        r == tmp_exists,
{
    tmp_exists
}

/// Whether the working copy's parent directory comes down with it: it does
/// when nothing but the directory itself remains under it.
pub fn should_remove_parent(remaining_entries: u64) -> (r: bool)
    ensures
        r == (remaining_entries == 1),
{
    remaining_entries == 1
}

} // verus!
