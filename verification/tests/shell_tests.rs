use loop_lib::shell::{
    build_script, display_name, plan_invocation, ExecutionOutcome, ShellDialect, COMMAND_FLAG,
    CURRENT_DIRECTORY, DEFAULT_HOME, DEFAULT_SHELL, NO_EXIT_CODE,
};

fn command(items: &[&str]) -> Vec<String> {
    items.iter().map(|s| s.to_string()).collect()
}

#[test]
fn dialect_is_told_by_the_end_of_the_path() {
    assert_eq!(ShellDialect::detect("/bin/zsh"), ShellDialect::Zsh);
    assert_eq!(ShellDialect::detect("zsh"), ShellDialect::Zsh);
    assert_eq!(ShellDialect::detect("/usr/local/bin/fish"), ShellDialect::Fish);
    assert_eq!(ShellDialect::detect("/bin/bash"), ShellDialect::Posix);
    assert_eq!(ShellDialect::detect("/bin/sh"), ShellDialect::Posix);
    assert_eq!(ShellDialect::detect("/bin/dash"), ShellDialect::Posix);
    assert_eq!(ShellDialect::detect(""), ShellDialect::Posix);
}

#[test]
fn dialect_is_not_told_by_the_middle_of_the_path() {
    assert_eq!(ShellDialect::detect("/opt/zsh/bin/bash"), ShellDialect::Posix);
    assert_eq!(ShellDialect::detect("/opt/fish/bin/zsh"), ShellDialect::Zsh);
    assert_eq!(ShellDialect::detect("/bin/zsh-5.9"), ShellDialect::Posix);
}

#[test]
fn posix_script_sources_bashrc_where_present() {
    let script = build_script("/bin/bash", &command(&["echo", "test"]));
    assert_eq!(
        script,
        "\n            if [ -f ~/.bashrc ]; then . ~/.bashrc; fi\n            echo test\n            "
    );
}

#[test]
fn fish_script_sources_its_config() {
    let script = build_script("/usr/bin/fish", &command(&["echo", "test"]));
    assert_eq!(
        script,
        "\n            source ~/.config/fish/config.fish 2>/dev/null\n            echo test\n            "
    );
}

#[test]
fn zsh_script_evaluates_the_command() {
    let script = build_script("/bin/zsh", &command(&["echo", "test"]));
    assert_eq!(
        script,
        "\n            source ~/.zshrc 2>/dev/null\n            eval \"echo test\"\n            "
    );
}

#[test]
fn zsh_script_escapes_double_quotes() {
    let script = build_script("/bin/zsh", &command(&["echo", "\"a b\""]));
    assert_eq!(
        script,
        "\n            source ~/.zshrc 2>/dev/null\n            eval \"echo \\\"a b\\\"\"\n            "
    );
}

#[test]
fn other_dialects_leave_double_quotes_alone() {
    let quoted = command(&["echo", "\"a b\""]);
    assert!(build_script("/bin/sh", &quoted).contains("echo \"a b\"\n"));
    assert!(build_script("/bin/fish", &quoted).contains("echo \"a b\"\n"));
}

#[test]
fn write_script_takes_the_line_as_it_is() {
    assert_eq!(
        ShellDialect::Posix.write_script("ls -la"),
        "\n            if [ -f ~/.bashrc ]; then . ~/.bashrc; fi\n            ls -la\n            "
    );
    assert_eq!(
        ShellDialect::Zsh.write_script(""),
        "\n            source ~/.zshrc 2>/dev/null\n            eval \"\"\n            "
    );
}

#[test]
fn an_empty_command_gives_an_empty_line() {
    let script = build_script("/bin/sh", &command(&[]));
    assert_eq!(
        script,
        "\n            if [ -f ~/.bashrc ]; then . ~/.bashrc; fi\n            \n            "
    );
}

#[test]
fn invocation_uses_the_environment() {
    let plan = plan_invocation(
        Some("/bin/zsh".to_string()),
        Some("/home/matt".to_string()),
        &command(&["git", "status"]),
    );
    assert_eq!(plan.program, "/bin/zsh");
    assert_eq!(plan.flag, "-c");
    assert_eq!(plan.home, "/home/matt");
    assert_eq!(
        plan.script,
        "\n            source ~/.zshrc 2>/dev/null\n            eval \"git status\"\n            "
    );
}

#[test]
fn invocation_falls_back_where_the_environment_is_silent() {
    let plan = plan_invocation(None, None, &command(&["echo", "test"]));
    assert_eq!(plan.program, "/bin/sh");
    assert_eq!(plan.home, "/home/user");
    assert_eq!(plan.flag, "-c");
    assert_eq!(plan.script, build_script("/bin/sh", &command(&["echo", "test"])));
}

#[test]
fn the_constants_say_what_they_stand_for() {
    assert_eq!(DEFAULT_SHELL, "/bin/sh");
    assert_eq!(DEFAULT_HOME, "/home/user");
    assert_eq!(COMMAND_FLAG, "-c");
    assert_eq!(CURRENT_DIRECTORY, ".");
    assert_eq!(NO_EXIT_CODE, -1);
}

#[test]
fn current_directory_is_shown_as_dot() {
    assert_eq!(display_name(".", None), ".");
    assert_eq!(display_name(".", Some("whatever")), ".");
}

#[test]
fn other_directories_are_shown_by_their_last_component() {
    assert_eq!(display_name("./dir1", Some("dir1")), "dir1");
    assert_eq!(display_name("/tmp/work/include_dir", Some("include_dir")), "include_dir");
}

#[test]
fn a_path_without_a_last_component_is_shown_empty() {
    assert_eq!(display_name("/", None), "");
    assert_eq!(display_name("..", None), "");
}

#[test]
fn exit_code_zero_is_success() {
    let outcome = ExecutionOutcome::new("dir1".to_string(), Some(0));
    assert_eq!(outcome.directory, "dir1");
    assert_eq!(outcome.exit_code, 0);
    assert!(outcome.success);
}

#[test]
fn any_other_exit_code_is_failure() {
    for code in [1, 2, 3, 127, 255, -7] {
        let outcome = ExecutionOutcome::new("d".to_string(), Some(code));
        assert_eq!(outcome.exit_code, code);
        assert!(!outcome.success);
    }
}

#[test]
fn a_child_without_an_exit_code_is_a_failure_with_the_sentinel() {
    let outcome = ExecutionOutcome::new("d".to_string(), None);
    assert_eq!(outcome.exit_code, -1);
    assert!(!outcome.success);
}

#[test]
fn status_line_of_a_success() {
    let outcome = ExecutionOutcome::new("dir1".to_string(), Some(0));
    assert_eq!(outcome.status_line(), "\x1b[32mdir1 \u{2713}\x1b[0m");
}

#[test]
fn status_line_of_a_failure() {
    let outcome = ExecutionOutcome::new("dir1".to_string(), Some(3));
    assert_eq!(outcome.status_line(), "\x1b[31mdir1 \u{2717}: exited code 3\x1b[0m");
}

#[test]
fn status_line_of_a_killed_child() {
    let outcome = ExecutionOutcome::new("dir2".to_string(), None);
    assert_eq!(outcome.status_line(), "\x1b[31mdir2 \u{2717}: exited code -1\x1b[0m");
}

#[test]
fn status_line_of_the_current_directory() {
    let outcome = ExecutionOutcome::new(display_name(".", None), Some(0));
    assert_eq!(outcome.status_line(), "\x1b[32m. \u{2713}\x1b[0m");
}
