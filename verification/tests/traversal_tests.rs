use loop_lib::args::LoopOptions;
use loop_lib::config::LoopConfig;
use loop_lib::executor::PatternSlot;
use loop_lib::traversal::{plan_children, plan_run, Action, RunSummary, Target};

fn names(items: &[&str]) -> Vec<String> {
    items.iter().map(|s| s.to_string()).collect()
}

fn echo_test() -> LoopOptions {
    LoopOptions {
        command: vec!["echo".to_string(), "test".to_string()],
        cwd: None,
        include_dirs: None,
        exclude: None,
        include_only: None,
        exclude_only: None,
        include_pattern: None,
        exclude_pattern: None,
        init: false,
    }
}

fn summary_of(codes: &[i32]) -> RunSummary {
    let mut summary = RunSummary::new();
    for code in codes {
        summary.record(*code);
    }
    summary
}

#[test]
fn no_runs_give_exit_code_zero() {
    let summary = RunSummary::new();
    assert_eq!(summary.exit_code(), 0);
    assert_eq!(summary.first_error_code(), None);
}

#[test]
fn all_successes_give_exit_code_zero() {
    let summary = summary_of(&[0, 0, 0]);
    assert_eq!(summary.exit_code(), 0);
    assert_eq!(summary.first_error_code(), None);
}

#[test]
fn first_failure_wins_over_a_later_one() {
    let summary = summary_of(&[3, 5]);
    assert_eq!(summary.exit_code(), 3);
    assert_eq!(summary.first_error_code(), Some(3));
}

#[test]
fn first_failure_wins_not_the_largest() {
    assert_eq!(summary_of(&[0, 1, 0, 200, 7]).exit_code(), 1);
    assert_eq!(summary_of(&[0, 0, 5, 3]).exit_code(), 5);
}

#[test]
fn a_success_after_a_failure_does_not_clear_it() {
    assert_eq!(summary_of(&[0, 4, 0, 0]).exit_code(), 4);
}

#[test]
fn the_sentinel_counts_as_a_failure() {
    assert_eq!(summary_of(&[0, -1, 2]).exit_code(), -1);
}

#[test]
fn a_single_failure_is_reported() {
    assert_eq!(summary_of(&[9]).exit_code(), 9);
}

#[test]
fn two_children_without_filters_are_both_run_in_order() {
    let plan = plan_children(
        &names(&["dir1", "dir2"]),
        &echo_test(),
        &LoopConfig { ignore: vec![] },
    )
    .unwrap();
    assert_eq!(plan, vec!["dir1", "dir2"]);
    let mut summary = RunSummary::new();
    for _ in &plan {
        summary.record(0);
    }
    assert_eq!(summary.exit_code(), 0);
}

#[test]
fn no_children_give_an_empty_plan() {
    let plan = plan_children(&names(&[]), &echo_test(), &LoopConfig { ignore: vec![] }).unwrap();
    assert!(plan.is_empty());
}

#[test]
fn the_plan_keeps_the_order_it_is_given() {
    let plan = plan_children(
        &names(&["b", "a", "c", "a"]),
        &echo_test(),
        &LoopConfig { ignore: vec![] },
    )
    .unwrap();
    assert_eq!(plan, vec!["b", "a", "c", "a"]);
}

#[test]
fn the_plan_leaves_out_what_is_out_of_scope() {
    let mut options = echo_test();
    options.exclude = Some(names(&["exclude_dir"]));
    options.exclude_pattern = Some("^tmp".to_string());
    let plan = plan_children(
        &names(&[".git", "exclude_dir", "include_dir", "tmp1", "zeta"]),
        &options,
        &LoopConfig { ignore: names(&[".git"]) },
    )
    .unwrap();
    assert_eq!(plan, vec!["include_dir", "zeta"]);
}

#[test]
fn the_plan_follows_an_exclusive_list() {
    let mut options = echo_test();
    options.include_only = Some(names(&["b"]));
    let plan = plan_children(
        &names(&["a", "b", "c"]),
        &options,
        &LoopConfig { ignore: names(&["b"]) },
    )
    .unwrap();
    assert_eq!(plan, vec!["b"]);
}

#[test]
fn a_malformed_pattern_stops_the_plan_before_any_directory() {
    let mut options = echo_test();
    options.include_pattern = Some("(".to_string());
    let fault = plan_children(&names(&["a"]), &options, &LoopConfig { ignore: vec![] })
        .unwrap_err();
    assert_eq!(fault.slot, PatternSlot::IncludePattern);
    let fault = plan_children(&names(&[]), &options, &LoopConfig { ignore: vec![] }).unwrap_err();
    assert_eq!(fault.slot, PatternSlot::IncludePattern);
}

#[test]
fn a_run_turns_to_children_first_and_to_named_paths_after() {
    let mut options = echo_test();
    options.include_dirs = Some(names(&["/elsewhere/include_dir", "."]));
    let plan = plan_run(
        &names(&["dir1", "dir2"]),
        &options,
        &LoopConfig { ignore: vec![] },
    )
    .unwrap();
    assert_eq!(
        plan,
        vec![
            Target::Child("dir1".to_string()),
            Target::Child("dir2".to_string()),
            Target::Explicit("/elsewhere/include_dir".to_string()),
            Target::Explicit(".".to_string()),
        ]
    );
}

#[test]
fn a_run_without_named_paths_turns_to_the_children_only() {
    let plan = plan_run(
        &names(&["dir1", "dir2"]),
        &echo_test(),
        &LoopConfig { ignore: vec![] },
    )
    .unwrap();
    assert_eq!(
        plan,
        vec![
            Target::Child("dir1".to_string()),
            Target::Child("dir2".to_string()),
        ]
    );
}

#[test]
fn a_named_child_is_run_as_a_child_and_again_as_a_named_path() {
    let mut options = echo_test();
    options.include_dirs = Some(names(&["b"]));
    options.exclude = Some(names(&["b"]));
    let plan = plan_run(&names(&["a", "b"]), &options, &LoopConfig { ignore: names(&["a"]) })
        .unwrap();
    assert_eq!(
        plan,
        vec![
            Target::Child("b".to_string()),
            Target::Explicit("b".to_string()),
        ]
    );
}

#[test]
fn named_paths_are_planned_even_where_an_exclusive_list_leaves_them_out() {
    let mut options = echo_test();
    options.include_dirs = Some(names(&["extra"]));
    options.include_only = Some(names(&["a"]));
    let plan = plan_run(&names(&["a", "extra"]), &options, &LoopConfig { ignore: vec![] })
        .unwrap();
    assert_eq!(
        plan,
        vec![
            Target::Child("a".to_string()),
            Target::Explicit("extra".to_string()),
        ]
    );
}

#[test]
fn a_malformed_pattern_stops_the_whole_run() {
    let mut options = echo_test();
    options.include_dirs = Some(names(&["extra"]));
    options.exclude_pattern = Some("[".to_string());
    let fault = plan_run(&names(&["a"]), &options, &LoopConfig { ignore: vec![] }).unwrap_err();
    assert_eq!(fault.slot, PatternSlot::ExcludePattern);
    assert!(!fault.message.is_empty());
}

#[test]
fn a_child_is_run() {
    assert_eq!(Target::Child("a".to_string()).action(true), Action::Run);
    assert_eq!(Target::Child("a".to_string()).action(false), Action::Run);
}

#[test]
fn a_named_directory_is_run() {
    assert_eq!(Target::Explicit("/tmp/x".to_string()).action(true), Action::Run);
}

#[test]
fn a_named_path_that_is_no_directory_is_skipped_with_a_warning() {
    assert_eq!(
        Target::Explicit("~/bootstrap".to_string()).action(false),
        Action::Warn("Warning: ~/bootstrap is not a directory".to_string())
    );
}

#[test]
fn one_failure_among_children_and_named_paths() {
    let mut options = echo_test();
    options.include_dirs = Some(names(&["x", "missing"]));
    let plan = plan_run(&names(&["a", "b"]), &options, &LoopConfig { ignore: vec![] }).unwrap();
    let exit_codes = [0, 3, 5];
    let mut next = 0;
    let mut summary = RunSummary::new();
    let mut warnings = 0;
    for target in &plan {
        let is_directory = *target != Target::Explicit("missing".to_string());
        match target.action(is_directory) {
            Action::Run => {
                summary.record(exit_codes[next]);
                next += 1;
            }
            Action::Warn(_) => warnings += 1,
        }
    }
    assert_eq!(next, 3);
    assert_eq!(warnings, 1);
    assert_eq!(summary.exit_code(), 3);
}
