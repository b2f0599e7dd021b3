use collector::batch::{make_batches, progress_total, tasks_for, CollectorTask, Scheduler};
use collector::repo::{
    clone_branch_override, clone_init, clone_step, collect_plan, is_tracked_source,
    should_delete, should_remove_parent, CloneOutcome, CloneState, Repo,
};
use collector::text::{ends_with_segs, join_strs, snip_path, split_char};
use collector::tool::{all_features, all_tools, ToolName};

fn segs(parts: &[&str]) -> Vec<String> {
    parts.iter().map(|s| s.to_string()).collect()
}

#[test]
fn repo_identity_derives_from_the_url_path() {
    let repo = Repo::new("https://github.com/rust-lang/rust").unwrap();
    assert_eq!(repo.url, "https://github.com/rust-lang/rust");
    assert_eq!(repo.name, segs(&["rust-lang", "rust"]));
}

#[test]
fn an_unparsable_url_is_rejected_alone() {
    assert!(Repo::new("not a url at all").is_none());
}

#[test]
fn a_url_without_a_rooted_path_is_rejected() {
    // a cannot-be-a-base URL has a path that does not start with a slash
    assert!(Repo::new("data:text/plain,hello").is_none());
}

#[test]
fn the_three_roots_derive_from_base_and_name() {
    let repo = Repo::new("https://github.com/owner/project").unwrap();
    let base = segs(&["data"]);
    assert_eq!(repo.get_tmp_path(&base), segs(&["data", "tmp", "owner", "project"]));
    assert_eq!(
        repo.get_path(&base, None, "res"),
        segs(&["data", "res", "owner", "project"])
    );
    assert_eq!(
        repo.get_path(&base, Some(&ToolName::Rca), "out"),
        segs(&["data", "out", "rca", "owner", "project"])
    );
}

#[test]
fn out_file_names_follow_the_tool_granularity() {
    let repo = Repo::new("https://github.com/owner/project").unwrap();
    let src = segs(&["data", "tmp", "owner", "project", "src", "main.rs"]);
    assert_eq!(repo.out_file_name(&ToolName::Clippy, &src), "clippy.json");
    assert_eq!(repo.out_file_name(&ToolName::Rca, &src), "src_main.rs.json");
}

#[test]
fn out_file_locations_cover_every_tool() {
    let repo = Repo::new("https://github.com/owner/project").unwrap();
    let base = segs(&["data"]);
    let src = segs(&["data", "tmp", "owner", "project", "src", "main.rs"]);
    let locations = repo.out_file_locations(&base, &src);
    assert_eq!(locations.len(), 4);
    assert_eq!(locations[0].0, ToolName::Rca);
    assert_eq!(
        locations[0].1,
        segs(&["data", "out", "rca", "owner", "project", "src_main.rs.json"])
    );
    assert_eq!(locations[3].0, ToolName::Clippy);
    assert_eq!(
        locations[3].1,
        segs(&["data", "out", "clippy", "owner", "project", "clippy.json"])
    );
}

#[test]
fn the_clone_stage_skips_an_existing_working_copy() {
    assert_eq!(clone_init(true), CloneState::Done(CloneOutcome::Skipped));
    assert_eq!(clone_init(false), CloneState::FirstAttempt);
}

#[test]
fn the_clone_stage_retries_once_with_the_alternate_branch() {
    let s = clone_init(false);
    let s = clone_step(s, false);
    assert_eq!(s, CloneState::RetryMain);
    assert_eq!(clone_branch_override(&s), Some("main"));
    assert_eq!(clone_step(s, false), CloneState::Done(CloneOutcome::Abandoned));
}

#[test]
fn a_successful_attempt_ends_the_clone_stage() {
    let s = clone_init(false);
    assert_eq!(clone_branch_override(&s), None);
    assert_eq!(clone_step(s, true), CloneState::Done(CloneOutcome::Cloned));
}

#[test]
fn collect_runs_every_tool_once_on_a_fresh_repository() {
    let plan = collect_plan(false);
    let names: Vec<ToolName> = plan.iter().map(|t| t.name).collect();
    assert_eq!(
        names,
        vec![ToolName::Rca, ToolName::Node, ToolName::Finder, ToolName::Clippy]
    );
}

#[test]
fn collect_runs_nothing_when_its_output_already_exists() {
    // the second run against an existing output directory is a skip
    assert_eq!(collect_plan(true).len(), 0);
}

#[test]
fn delete_decisions_follow_the_filesystem_state() {
    assert!(should_delete(true));
    assert!(!should_delete(false));
    assert!(should_remove_parent(1));
    assert!(!should_remove_parent(2));
    assert!(!should_remove_parent(0));
}

#[test]
fn stages_keep_their_fixed_order_whatever_the_selection() {
    assert_eq!(
        tasks_for(true, true, true, true),
        vec![
            CollectorTask::CloneRepos,
            CollectorTask::CollectMetrics,
            CollectorTask::FilterMetrics,
            CollectorTask::DeleteTmp,
        ]
    );
    assert_eq!(
        tasks_for(false, true, false, true),
        vec![CollectorTask::CollectMetrics, CollectorTask::DeleteTmp]
    );
    assert_eq!(tasks_for(false, false, false, false).len(), 0);
}

#[test]
fn batches_partition_the_list_without_loss() {
    let repos = segs(&["a", "b", "c", "d", "e"]);
    let batches = make_batches(&repos, 2);
    assert_eq!(batches.len(), 3);
    assert_eq!(batches[0], segs(&["a", "b"]));
    assert_eq!(batches[1], segs(&["c", "d"]));
    assert_eq!(batches[2], segs(&["e"]));
    assert_eq!(make_batches(&segs(&[]), 2).len(), 0);
    assert_eq!(make_batches(&segs(&["a", "b"]), 2).len(), 1);
}

#[test]
fn progress_counts_one_unit_per_repository_and_stage() {
    assert_eq!(progress_total(20, 4), Some(80));
    assert_eq!(progress_total(0, 4), Some(0));
}

#[test]
fn the_scheduler_never_exceeds_its_cap() {
    let mut s = Scheduler::new(8, 20);
    let mut started = 0;
    while s.can_start() {
        s.start_one();
        started += 1;
        assert!(s.running <= 8);
    }
    assert_eq!(started, 8);
    assert_eq!(s.running, 8);
    assert_eq!(s.queued, 12);
    assert!(!s.can_start());
    s.finish_one();
    assert!(s.can_start());
    s.start_one();
    assert_eq!(s.running, 8);
    assert_eq!(s.finished, 1);
}

#[test]
fn the_scheduler_drains_the_queue() {
    let mut s = Scheduler::new(8, 3);
    while s.can_start() {
        s.start_one();
    }
    assert_eq!(s.running, 3);
    while s.running > 0 {
        s.finish_one();
    }
    assert_eq!(s.finished, 3);
    assert!(!s.can_start());
}

#[test]
fn the_feature_list_names_the_patterns_of_interest() {
    let features = all_features();
    assert_eq!(features.len(), 28);
    assert_eq!(features[0], "lifetime");
    assert!(features.contains(&"unsafe_block"));
    assert!(features.contains(&"macro_invocation"));
    assert!(features.contains(&"trait_bounds"));
}

#[test]
fn the_tool_set_is_closed_and_ordered() {
    let tools = all_tools();
    assert_eq!(tools.len(), 4);
    assert_eq!(tools[0].name, ToolName::Rca);
    assert_eq!(tools[1].name, ToolName::Node);
    assert_eq!(tools[2].name, ToolName::Finder);
    assert_eq!(tools[3].name, ToolName::Clippy);
    assert!(tools[2].command.contains("lifetime,for_lifetimes"));
    assert!(tools[3].command.contains("cargo clippy"));
}

#[test]
fn command_paths_climb_out_of_the_working_copy() {
    let tools = all_tools();
    let out = segs(&["data", "out", "rca", "owner", "project"]);
    assert_eq!(
        tools[0].get_cmd_out_path(&out),
        segs(&["..", "..", "..", "data", "out", "rca", "owner", "project"])
    );
    let out_clippy = segs(&["data", "out", "clippy", "owner", "project"]);
    assert_eq!(
        tools[3].get_cmd_out_path(&out_clippy),
        segs(&["..", "..", "..", "data", "out", "clippy", "owner", "project", "clippy.json"])
    );
}

#[test]
fn the_full_command_ends_in_the_output_path() {
    let tools = all_tools();
    let cmd = tools[0].full_command("../../../data/out/rca/o/p/src_main.rs.json");
    assert!(cmd.starts_with("rust-code-analysis-cli"));
    assert!(cmd.ends_with("-o ../../../data/out/rca/o/p/src_main.rs.json"));
}

#[test]
fn tool_names_print_their_directory_names() {
    assert_eq!(ToolName::Rca.as_str(), "rca");
    assert_eq!(ToolName::Node.as_str(), "node");
    assert_eq!(ToolName::Finder.as_str(), "finder");
    assert_eq!(ToolName::Clippy.as_str(), "clippy");
}

#[test]
fn tracked_sources_are_rust_files_outside_build_output() {
    assert!(is_tracked_source(&segs(&["data", "tmp", "o", "r", "src", "main.rs"])));
    assert!(!is_tracked_source(&segs(&["data", "tmp", "o", "r", "target", "gen.rs"])));
    assert!(!is_tracked_source(&segs(&["data", "tmp", "o", "r", "README.md"])));
    assert!(!is_tracked_source(&segs(&[])));
}

#[test]
fn path_helpers_round_out_the_layout() {
    assert_eq!(split_char("owner/project", '/'), segs(&["owner", "project"]));
    assert_eq!(split_char("a//b", '/'), segs(&["a", "", "b"]));
    assert_eq!(split_char("", '/'), segs(&[""]));
    assert_eq!(join_strs(&segs(&["src", "main.rs"]), "_"), "src_main.rs");
    assert_eq!(
        snip_path(&segs(&["data", "tmp", "o", "r", "src", "main.rs"]), 3),
        segs(&["src", "main.rs"])
    );
    assert_eq!(snip_path(&segs(&["no", "marker", "here"]), 1), segs(&[]));
    assert!(ends_with_segs(
        &segs(&["data", "tmp", "o", "r", "src", "main.rs"]),
        &segs(&["src", "main.rs"])
    ));
    assert!(!ends_with_segs(&segs(&["a", "b"]), &segs(&["c", "b"])));
}
